//! A map from names to values, with at most one value under each name.

use vstd::prelude::*;

verus! {

/// A map from names to values.
pub struct NameMap<V> {
    entries: Vec<(String, V)>,
}

/// Whether position `i` of `entries` holds the name `name`.
pub open spec fn holds_name<V>(entries: Seq<(String, V)>, name: Seq<char>, i: int) -> bool {
    0 <= i < entries.len() && entries[i].0@ == name
}

impl<V> View for NameMap<V> {
    type V = Map<Seq<char>, V>;

    closed spec fn view(&self) -> Map<Seq<char>, V> {
        Map::new(
            |name: Seq<char>| exists|i: int| holds_name(self.entries@, name, i),
            |name: Seq<char>| self.entries@[choose|i: int| holds_name(self.entries@, name, i)].1,
        )
    }
}

impl<V> NameMap<V> {
    /// What holds of every map: no name stands in it twice.
    pub closed spec fn wf(&self) -> bool {
        forall|i: int, j: int|
            0 <= i < j < self.entries@.len() ==> self.entries@[i].0@ != self.entries@[j].0@
    }

    /// An empty map.
    pub fn new() -> (map: NameMap<V>)
        ensures
            map@ == Map::<Seq<char>, V>::empty(),
            map.wf(),
    {
        let map = NameMap { entries: Vec::new() };
        assert(map@ =~= Map::<Seq<char>, V>::empty());
        map
    }

    fn position(&self, name: &String) -> (r: Option<usize>)
        ensures
            match r {
                Some(i) => holds_name(self.entries@, name@, i as int),
                None => forall|i: int| !holds_name(self.entries@, name@, i),
            },
    {
        let mut i: usize = 0;
        while i < self.entries.len()
            invariant
                i <= self.entries.len(),
                forall|j: int| 0 <= j < i ==> !holds_name(self.entries@, name@, j),
            decreases self.entries.len() - i,
        {
            if self.entries[i].0 == *name {
                return Some(i);
            }
            i += 1;
        }
        None
    }

    /// The value under `name`, if the map holds one.
    pub fn get(&self, name: &str) -> (value: Option<&V>)
        requires
            self.wf(),
        ensures
            value == (if self@.contains_key(name@) {
                Some(&self@[name@])
            } else {
                None
            }),
    {
        let key = name.to_owned();
        match self.position(&key) {
            Some(i) => {
                proof {
                    let chosen = choose|k: int| holds_name(self.entries@, name@, k);
                    assert(holds_name(self.entries@, name@, i as int));
                    assert(chosen == i);
                }
                Some(&self.entries[i].1)
            },
            None => None,
        }
    }

    /// Whether the map holds a value under `name`.
    pub fn contains(&self, name: &str) -> (r: bool)
        ensures
            r == self@.contains_key(name@),
    {
        let key = name.to_owned();
        match self.position(&key) {
            Some(i) => {
                assert(holds_name(self.entries@, name@, i as int));
                true
            },
            None => false,
        }
    }

    /// Puts `value` under `name`, in place of what the map held there.
    pub fn insert(&mut self, name: String, value: V)
        requires
            old(self).wf(),
        ensures
            final(self)@ == old(self)@.insert(name@, value),
            final(self).wf(),
    {
        let ghost before = self.entries@;
        match self.position(&name) {
            Some(i) => {
                self.entries.set(i, (name, value));
                let ghost after = self.entries@;
                assert forall|key: Seq<char>, k: int|
                    holds_name(after, key, k) <==> holds_name(before, key, k) by {}
                assert forall|a: int, b: int| 0 <= a < b < after.len() implies after[a].0@
                    != after[b].0@ by {
                    assert(after[a].0@ == before[a].0@);
                    assert(after[b].0@ == before[b].0@);
                }
                assert forall|key: Seq<char>| #[trigger]
                    self@.contains_key(key) implies self@[key] == old(self)@.insert(
                    name@,
                    value,
                )[key] by {
                    let k = choose|k: int| holds_name(after, key, k);
                    let b = choose|k: int| holds_name(before, key, k);
                    assert(holds_name(before, key, k));
                    assert(k == b);
                    if key == name@ {
                        assert(holds_name(after, key, i as int));
                        assert(k == i);
                    }
                }
                assert(self@ =~= old(self)@.insert(name@, value));
            },
            None => {
                self.entries.push((name, value));
                let ghost after = self.entries@;
                assert(holds_name(after, name@, after.len() - 1));
                assert forall|a: int, b: int| 0 <= a < b < after.len() implies after[a].0@
                    != after[b].0@ by {
                    if b == after.len() - 1 {
                        assert(!holds_name(before, name@, a));
                    } else {
                        assert(after[a] == before[a]);
                        assert(after[b] == before[b]);
                    }
                }
                assert forall|key: Seq<char>| #[trigger]
                    old(self)@.insert(name@, value).contains_key(key) implies self@.contains_key(
                    key,
                ) && self@[key] == old(self)@.insert(name@, value)[key] by {
                    if key == name@ {
                        let k = choose|k: int| holds_name(after, key, k);
                        if k < after.len() - 1 {
                            assert(holds_name(before, key, k));
                        }
                    } else {
                        let b = choose|k: int| holds_name(before, key, k);
                        assert(holds_name(after, key, b));
                        let k = choose|k: int| holds_name(after, key, k);
                        assert(holds_name(before, key, k));
                        assert(k == b);
                    }
                }
                assert forall|key: Seq<char>| #[trigger]
                    self@.contains_key(key) implies old(self)@.insert(name@, value).contains_key(
                    key,
                ) by {
                    let k = choose|k: int| holds_name(after, key, k);
                    if k < after.len() - 1 {
                        assert(holds_name(before, key, k));
                    }
                }
                assert(self@ =~= old(self)@.insert(name@, value));
            },
        }
    }
}

} // verus!

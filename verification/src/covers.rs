//! Giving albums the covers that their songs carry: which song stands for an
//! album, and where the cover that was found in it is stored.

use crate::text::{after_first_slash, escape_slashes, replace_slashes, subtype_of};
use vstd::prelude::*;

verus! {

/// A song of the library.
#[derive(Debug, Clone, PartialEq, Eq)]
pub struct Song {
    pub id: i64,
    pub title: String,
}

/// A song with the names of its tags.
#[derive(Debug, Clone, PartialEq, Eq)]
pub struct SongWTags {
    pub song: Song,
    pub tags: Vec<String>,
}

/// Whether position `i` holds the first of `songs` that has the tag `tag`.
/// Each song stands here for the names of its tags.
pub open spec fn is_first_with_tag(songs: Seq<Seq<Seq<char>>>, tag: Seq<char>, i: int) -> bool {
    &&& 0 <= i < songs.len()
    &&& songs[i].contains(tag)
    &&& forall|j: int| 0 <= j < i ==> !songs[j].contains(tag)
}

/// The names of the tags of each song, in order.
pub open spec fn tags_of_songs(songs: Seq<SongWTags>) -> Seq<Seq<Seq<char>>> {
    Seq::new(songs.len(), |i: int| songs[i].tags.deep_view())
}

/// The path under which a cover that is given to an album afterwards is
/// stored: `images/{album}.{subtype}`, with every slash of that text
/// replaced.
pub open spec fn populated_cover_path_of(album: Seq<char>, subtype: Seq<char>) -> Seq<char> {
    escape_slashes("images/"@ + album + "."@ + subtype)
}

/// Whether `tags` holds the name `tag`.
pub fn has_tag(tags: &Vec<String>, tag: &String) -> (r: bool)
    ensures
        r == tags.deep_view().contains(tag@),
{
    let mut i: usize = 0;
    while i < tags.len()
        invariant
            i <= tags.len(),
            forall|j: int| 0 <= j < i ==> tags.deep_view()[j] != tag@,
        decreases tags.len() - i,
    {
        if tags[i] == *tag {
            assert(tags.deep_view()[i as int] == tag@);
            return true;
        }
        i += 1;
    }
    false
}

/// The position of the first song that has the tag `tag`: the song that
/// stands for the album of that name.
pub fn song_with_tag(songs: &Vec<SongWTags>, tag: &str) -> (r: Option<usize>)
    ensures
        match r {
            Some(i) => is_first_with_tag(tags_of_songs(songs@), tag@, i as int),
            None => forall|i: int| !is_first_with_tag(tags_of_songs(songs@), tag@, i),
        },
{
    let name = tag.to_owned();
    let mut i: usize = 0;
    while i < songs.len()
        invariant
            i <= songs.len(),
            name@ == tag@,
            forall|j: int| 0 <= j < i ==> !tags_of_songs(songs@)[j].contains(tag@),
        decreases songs.len() - i,
    {
        if has_tag(&songs[i].tags, &name) {
            return Some(i);
        }
        i += 1;
    }
    None
}

/// The path under which the cover of `album`, of type `mime_type`, is stored
/// when it is given to the album afterwards. There is none where the mime
/// type has no subtype.
pub fn populated_cover_path(album: &str, mime_type: &str) -> (path: Option<String>)
    ensures
        path.deep_view() == match subtype_of(mime_type@) {
            Some(subtype) => Some(populated_cover_path_of(album@, subtype)),
            None => None,
        },
{
    match after_first_slash(mime_type) {
        Some(subtype) => {
            let mut plain = String::from_str("images/");
            plain.append(album);
            plain.append(".");
            plain.append(subtype.as_str());
            Some(replace_slashes(plain.as_str()))
        },
        None => None,
    }
}

} // verus!

//! Storage backends: how one is configured, the registry that knows them by
//! name, and the cache of the connections that were opened to them.

use crate::error::ApiError;
use crate::name_map::NameMap;
use std::collections::HashMap;
use vstd::prelude::*;

verus! {

/// Configuration of a backend that stores blobs under a directory.
#[derive(Debug, Clone, PartialEq, Eq)]
pub struct FsConfig {
    /// The directory under which the blobs lie.
    pub root: String,
}

/// Configuration of a backend that stores blobs in a bucket of an object
/// store.
#[derive(Debug, Clone, PartialEq, Eq)]
pub struct S3Config {
    pub access_key_id: String,
    pub secret_access_key: String,
    pub region: String,
    pub bucket: String,
    /// Whether the configuration that the environment offers is left aside.
    pub disable_config_load: bool,
}

/// Configuration of a storage backend, by its kind.
#[derive(Debug, Clone, PartialEq, Eq)]
pub enum StorageBackendConfig {
    Fs(FsConfig),
    S3(S3Config),
}

/// The mathematical value of a [`StorageBackendConfig`].
pub enum StorageBackendConfigView {
    Fs { root: Seq<char> },
    S3 {
        access_key_id: Seq<char>,
        secret_access_key: Seq<char>,
        region: Seq<char>,
        bucket: Seq<char>,
        disable_config_load: bool,
    },
}

impl View for StorageBackendConfig {
    type V = StorageBackendConfigView;

    open spec fn view(&self) -> StorageBackendConfigView {
        match self {
            StorageBackendConfig::Fs(fs) => StorageBackendConfigView::Fs { root: fs.root@ },
            StorageBackendConfig::S3(s3) => StorageBackendConfigView::S3 {
                access_key_id: s3.access_key_id@,
                secret_access_key: s3.secret_access_key@,
                region: s3.region@,
                bucket: s3.bucket@,
                disable_config_load: s3.disable_config_load,
            },
        }
    }
}

/// A named storage backend.
#[derive(Debug, Clone, PartialEq, Eq)]
pub struct StorageBackend {
    pub name: String,
    pub config: StorageBackendConfig,
}

/// The mathematical value of a [`StorageBackend`].
pub struct StorageBackendView {
    pub name: Seq<char>,
    pub config: StorageBackendConfigView,
}

impl View for StorageBackend {
    type V = StorageBackendView;

    open spec fn view(&self) -> StorageBackendView {
        StorageBackendView { name: self.name@, config: self.config@ }
    }
}

/// The backends of a registry, by name.
pub type RegistryContents = Map<Seq<char>, StorageBackendConfigView>;

/// The registry after `name` was registered with `config`: a name that is
/// registered already keeps the configuration that it has.
pub open spec fn registered(
    registry: RegistryContents,
    name: Seq<char>,
    config: StorageBackendConfigView,
) -> RegistryContents {
    if registry.contains_key(name) {
        registry
    } else {
        registry.insert(name, config)
    }
}

/// The backend that the registry knows under `name`.
pub open spec fn resolution(registry: RegistryContents, name: Seq<char>) -> Option<
    StorageBackendView,
> {
    if registry.contains_key(name) {
        Some(StorageBackendView { name, config: registry[name] })
    } else {
        None
    }
}

/// Registering a name a second time changes nothing, whatever configuration
/// comes with it: the backend keeps the configuration that it was first
/// registered with.
pub proof fn first_registration_wins(
    registry: RegistryContents,
    name: Seq<char>,
    first: StorageBackendConfigView,
    second: StorageBackendConfigView,
)
    ensures
        registered(registered(registry, name, first), name, second) == registered(
            registry,
            name,
            first,
        ),
        !registry.contains_key(name) ==> resolution(
            registered(registered(registry, name, first), name, second),
            name,
        ) == Some(StorageBackendView { name, config: first }),
{
}

/// Registering one name leaves every other name as it was.
pub proof fn registration_leaves_other_names(
    registry: RegistryContents,
    name: Seq<char>,
    config: StorageBackendConfigView,
    other: Seq<char>,
)
    requires
        other != name,
    ensures
        resolution(registered(registry, name, config), other) == resolution(registry, other),
{
}

/// The registry of storage backends.
pub struct BackendRegistry {
    backends: NameMap<StorageBackend>,
}

impl View for BackendRegistry {
    type V = RegistryContents;

    closed spec fn view(&self) -> RegistryContents {
        self.backends@.map_values(|backend: StorageBackend| backend.config@)
    }
}

impl BackendRegistry {
    /// What holds of every registry: each backend stands under its own name.
    pub closed spec fn wf(&self) -> bool {
        &&& self.backends.wf()
        &&& forall|name: Seq<char>| #[trigger]
            self.backends@.contains_key(name) ==> self.backends@[name].name@ == name
    }

    /// A registry that knows no backend.
    pub fn new() -> (registry: BackendRegistry)
        ensures
            registry@ == Map::<Seq<char>, StorageBackendConfigView>::empty(),
            registry.wf(),
    {
        let registry = BackendRegistry { backends: NameMap::new() };
        assert(registry@ =~= Map::<Seq<char>, StorageBackendConfigView>::empty());
        registry
    }

    /// Registers the backend `name` with `config`, unless the name is
    /// registered already. Returns whether the backend is new.
    pub fn register(&mut self, name: &str, config: StorageBackendConfig) -> (is_new: bool)
        requires
            old(self).wf(),
        ensures
            final(self)@ == registered(old(self)@, name@, config@),
            is_new == !old(self)@.contains_key(name@),
            final(self).wf(),
    {
        if self.backends.contains(name) {
            false
        } else {
            let ghost before = self.backends@;
            let backend = StorageBackend { name: name.to_owned(), config };
            self.backends.insert(name.to_owned(), backend);
            assert(self@ =~= registered(
                before.map_values(|backend: StorageBackend| backend.config@),
                name@,
                config@,
            ));
            true
        }
    }

    /// The backend that is registered under `name`.
    pub fn resolve(&self, name: &str) -> (r: Result<&StorageBackend, ApiError>)
        requires
            self.wf(),
        ensures
            match r {
                Ok(backend) => resolution(self@, name@) == Some(backend@),
                Err(error) => error == ApiError::NotFound && resolution(self@, name@) is None,
            },
    {
        match self.backends.get(name) {
            Some(backend) => Ok(backend),
            None => Err(ApiError::NotFound),
        }
    }
}

/// The map of the connection cache: a hash map of std that hashes with
/// `rustc_hash::FxBuildHasher`.
type ConnectionMap<C> = HashMap<String, C, rustc_hash::FxBuildHasher>;

/// Whether `key` is a key of `map` that reads `name`.
pub open spec fn is_key_named<C>(map: Map<String, C>, name: Seq<char>, key: String) -> bool {
    key@ == name && map.contains_key(key)
}

/// What `map` holds under the key that reads `name`.
pub open spec fn named<C>(map: Map<String, C>, name: Seq<char>) -> Option<C> {
    if exists|key: String| is_key_named(map, name, key) {
        Some(map[choose|key: String| is_key_named(map, name, key)])
    } else {
        None
    }
}

/// `HashMap::get` with a string key, on a map that hashes with
/// `FxBuildHasher`: the value under the key that reads `name`, if the map
/// holds such a key.
#[verifier::external_body]
fn fx_get_named<'a, C>(map: &'a ConnectionMap<C>, name: &str) -> (value: Option<&'a C>)
    ensures
        value is Some <==> named(map@, name@) is Some,
        value matches Some(found) ==> named(map@, name@) == Some(*found),
{
    map.get(name)
}

/// `HashMap::insert` with a string key, on a map that hashes with
/// `FxBuildHasher`: afterwards the map holds the value under the key that
/// reads as `name` does, and under every other key what it held before.
#[verifier::external_body]
fn fx_insert_named<C>(map: &mut ConnectionMap<C>, name: String, value: C)
    ensures
        forall|other: Seq<char>| #[trigger]
            named(final(map)@, other) == (if other == name@ {
                Some(value)
            } else {
                named(old(map)@, other)
            }),
{
    map.insert(name, value);
}

/// The connections that are open, by the name of their backend.
///
/// A connection is looked up first; only where none is cached does the caller
/// open one, without holding the cache meanwhile, and put it in. Of two
/// callers that do so at once the later one's connection stays.
pub struct ConnectionCache<C> {
    connections: ConnectionMap<C>,
}

impl<C> View for ConnectionCache<C> {
    type V = Map<Seq<char>, C>;

    closed spec fn view(&self) -> Map<Seq<char>, C> {
        Map::new(
            |name: Seq<char>| named(self.connections@, name) is Some,
            |name: Seq<char>| named(self.connections@, name).unwrap(),
        )
    }
}

impl<C> ConnectionCache<C> {
    /// A cache without connections.
    pub fn new() -> (cache: ConnectionCache<C>)
        ensures
            cache@ == Map::<Seq<char>, C>::empty(),
    {
        let cache = ConnectionCache { connections: HashMap::default() };
        assert(cache@ =~= Map::<Seq<char>, C>::empty());
        cache
    }

    /// The connection to the backend `name`, if one is cached.
    pub fn get(&self, name: &str) -> (connection: Option<&C>)
        ensures
            connection == (if self@.contains_key(name@) {
                Some(&self@[name@])
            } else {
                None
            }),
    {
        fx_get_named(&self.connections, name)
    }

    /// Caches `connection` for the backend `name`, in place of the one that
    /// was cached for it, if one was.
    pub fn insert(&mut self, name: &str, connection: C)
        ensures
            final(self)@ == old(self)@.insert(name@, connection),
    {
        fx_insert_named(&mut self.connections, name.to_owned(), connection);
        assert(self@ =~= old(self)@.insert(name@, connection));
    }
}

/// A connection that was cached is found again under its name, until another
/// is cached for the same name; and of two that are cached for one name the
/// later one stays, alone.
pub proof fn later_connection_stays<C>(
    cache: Map<Seq<char>, C>,
    name: Seq<char>,
    first: C,
    second: C,
)
    ensures
        cache.insert(name, first)[name] == first,
        cache.insert(name, first).insert(name, second) == cache.insert(name, second),
{
    assert(cache.insert(name, first).insert(name, second) =~= cache.insert(name, second));
}

} // verus!

//! What the server's configuration falls back on where the configuration
//! file leaves a setting out.
//!
//! A development build has a fallback for every setting. A production build
//! has none for the credentials of the first user and for the signing
//! secret: there the file must name them.

use vstd::prelude::*;

verus! {

/// The domain under which a development build serves.
pub fn dev_domain() -> (domain: &'static str)
    ensures
        domain@ == "localhost"@,
{
    "localhost"
}

/// The filter for the server's log.
pub fn default_env_filter(development: bool) -> (filter: &'static str)
    ensures
        filter@ == (if development {
            "info,my_music=debug,axum=debug,axum-core=debug,tower_http=debug"@
        } else {
            "info,my_music=debug,tower_http=debug"@
        }),
{
    if development {
        "info,my_music=debug,axum=debug,axum-core=debug,tower_http=debug"
    } else {
        "info,my_music=debug,tower_http=debug"
    }
}

/// The address on which the server listens: the loopback interface in
/// development, every interface in production.
pub fn default_listen_addr(development: bool) -> (addr: &'static str)
    ensures
        addr@ == (if development {
            "127.0.0.1:8013"@
        } else {
            "0.0.0.0:8013"@
        }),
{
    if development {
        "127.0.0.1:8013"
    } else {
        "0.0.0.0:8013"
    }
}

/// The directory that holds the web client's files, as it is written before
/// it is made absolute.
pub fn default_web_dir(development: bool) -> (dir: &'static str)
    ensures
        dir@ == (if development {
            "./web/dist"@
        } else {
            "/my-music-web"@
        }),
{
    if development {
        "./web/dist"
    } else {
        "/my-music-web"
    }
}

/// The directory that holds the server's data, as it is written before it is
/// made absolute.
pub fn default_data_dir(development: bool) -> (dir: &'static str)
    ensures
        dir@ == (if development {
            "./my-music-data"@
        } else {
            "/my-music-data"@
        }),
{
    if development {
        "./my-music-data"
    } else {
        "/my-music-data"
    }
}

/// The directory under which the first storage backend of a development
/// build keeps its blobs, as it is written before it is made absolute.
pub fn default_storage_dir() -> (dir: &'static str)
    ensures
        dir@ == "./my-music-data/storage"@,
{
    "./my-music-data/storage"
}

/// The name of the first user of a development build.
pub fn default_username(development: bool) -> (username: &'static str)
    requires
        development,
    ensures
        username@ == "admin"@,
{
    "admin"
}

/// The password of the first user of a development build.
pub fn default_password(development: bool) -> (password: &'static str)
    requires
        development,
    ensures
        password@ == "password"@,
{
    "password"
}

/// The secret with which a development build signs credentials.
pub fn default_jwt_secret(development: bool) -> (secret: &'static str)
    requires
        development,
    ensures
        secret@ == "secret"@,
{
    "secret"
}

} // verus!

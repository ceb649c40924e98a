//! Content delivery and ingestion core of a media-library server.

pub mod add_song;
pub mod audio;
pub mod auth;
pub mod backend;
pub mod config;
pub mod covers;
pub mod error;
pub mod name_map;
pub mod persist;
pub mod range;
pub mod source;
pub mod static_files;
pub mod text;

//! Lumenza is a local picture cataloging library: it indexes image files
//! found under configured folders into a persistent database, deduplicates
//! against prior imports, tracks whether catalogued files still exist on
//! disk, and derives thumbnails.
//!
//! The catalog model — the sequence of entries a library holds — is the
//! subject of every contract; the embedded database mirrors it row for
//! row. Folder scans treat the path as the authoritative identity of a
//! picture; the content fingerprint is exposed for explicit duplicate
//! detection through `Library::find_photos_by_hash`.

pub mod catalog;
pub mod config;
pub mod database;
pub mod error;
pub mod filesystem;
pub mod library;
pub mod photo;
pub mod scan;
pub mod sql;
pub mod thumb;

pub use crate::error::Error;
pub use crate::library::Library;
pub use crate::photo::Photo;
pub use crate::thumb::THUMBNAIL_HEIGHT;

//! Error taxonomy of the library.
//!
//! Every fallible operation of the catalog reports one of these kinds.

use vstd::prelude::*;

verus! {

/// The error kinds a catalog operation can report.
#[derive(Clone, Copy, Debug, PartialEq, Eq, Structural)]
pub enum Error {
    /// A referenced path or entry id does not exist.
    NotFound,
    /// An insertion was attempted for a path that is already catalogued.
    AlreadyExists,
    /// A candidate file failed content-type classification as an image.
    NotAnImage,
    /// A file operation was given a directory.
    IsADirectory,
    /// Source bytes could not be decoded as an image.
    ImageDecodeError,
    /// The underlying database engine failed.
    StorageError,
    /// A generic filesystem failure.
    IoError,
}

impl Error {
    /// A short human-readable description of the error kind.
    pub fn message(&self) -> (r: &'static str)
        ensures
            r@ == self.spec_message(),
    {
        match self {
            Error::NotFound => "path or entry not found",
            Error::AlreadyExists => "picture already in library",
            Error::NotAnImage => "file is not an image",
            Error::IsADirectory => "expected a file, found a directory",
            Error::ImageDecodeError => "image could not be decoded",
            Error::StorageError => "database error",
            Error::IoError => "filesystem error",
        }
    }

    /// What `message` returns for each kind.
    pub open spec fn spec_message(self) -> Seq<char> {
        match self {
            Error::NotFound => "path or entry not found"@,
            Error::AlreadyExists => "picture already in library"@,
            Error::NotAnImage => "file is not an image"@,
            Error::IsADirectory => "expected a file, found a directory"@,
            Error::ImageDecodeError => "image could not be decoded"@,
            Error::StorageError => "database error"@,
            Error::IoError => "filesystem error"@,
        }
    }
}

} // verus!

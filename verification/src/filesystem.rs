//! The filesystem layout of a library, and the trusted probes into the
//! filesystem that the import pipeline uses.

use vstd::prelude::*;

use crate::error::Error;

verus! {

/// Mathematical view of a library's filesystem layout.
pub struct FilesystemView {
    pub pictures_path: Seq<char>,
    pub thumbnails_path: Seq<char>,
    pub database_path: Seq<char>,
}

/// Where a library keeps its pictures, its thumbnails and its database
/// file.
#[derive(Debug)]
pub struct Filesystem {
    pictures_path: String,
    thumbnails_path: String,
    database_path: String,
}

impl View for Filesystem {
    type V = FilesystemView;

    closed spec fn view(&self) -> FilesystemView {
        FilesystemView {
            pictures_path: self.pictures_path@,
            thumbnails_path: self.thumbnails_path@,
            database_path: self.database_path@,
        }
    }
}

impl Filesystem {
    /// Creates a filesystem object holding the three locations.
    pub fn new(thumbnails: &String, pictures: &String, database: &String) -> (r: Filesystem)
        ensures
            r@ == (FilesystemView {
                pictures_path: pictures@,
                thumbnails_path: thumbnails@,
                database_path: database@,
            }),
    {
        Filesystem {
            pictures_path: pictures.clone(),
            thumbnails_path: thumbnails.clone(),
            database_path: database.clone(),
        }
    }

    /// Returns the path on filesystem to the pictures path in the library.
    pub fn get_pictures_path(&self) -> (r: String)
        ensures
            r@ == self@.pictures_path,
    {
        self.pictures_path.clone()
    }

    /// Returns the path on filesystem to the thumbnails path in the library.
    pub fn get_thumbnails_path(&self) -> (r: String)
        ensures
            r@ == self@.thumbnails_path,
    {
        self.thumbnails_path.clone()
    }

    /// Returns the path on filesystem of the database file.
    pub fn get_database_path(&self) -> (r: String)
        ensures
            r@ == self@.database_path,
    {
        self.database_path.clone()
    }
}

/// Relies on std::path::Path::try_exists: whether the path points at an
/// existing entity on disk; `Err` when existence cannot be determined.
#[verifier::external_body]
pub(crate) fn path_exists(p: &String) -> (r: Result<bool, Error>)
    ensures
        (r.is_err() ==> r == Err::<bool, Error>(Error::IoError)),
{
    match std::path::Path::new(p.as_str()).try_exists() {
        Ok(b) => Ok(b),
        Err(_) => Err(Error::IoError),
    }
}

/// Relies on path_absolutize::Absolutize::absolutize: the absolute form
/// of the path with respect to the process's working directory; the
/// empty string when the working directory cannot be determined.
#[verifier::external_body]
pub(crate) fn absolutize_path(p: &String) -> String {
    match path_absolutize::Absolutize::absolutize(std::path::Path::new(p.as_str())) {
        Ok(c) => c.to_string_lossy().into_owned(),
        Err(_) => String::new(),
    }
}

} // verus!

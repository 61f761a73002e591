//! The catalog entry for one picture, and the probing of a picture file.

use vstd::prelude::*;

use crate::error::Error;

verus! {

/// Mathematical view of one catalog entry.
pub struct PhotoView {
    pub id: u32,
    pub filename: Seq<char>,
    pub hash: u128,
    pub width: i32,
    pub height: i32,
    pub thumbnail_name: Seq<char>,
    pub missing: i32,
}

/// One catalogued picture: a replica of the data persisted for it.
#[derive(Debug)]
pub struct Photo {
    /// Database-assigned identifier; 0 until the photo is inserted.
    pub(crate) id: u32,
    /// Filesystem path to the photo.
    pub(crate) filename: String,
    /// Fingerprint of the file's bytes at import time. Mostly used to
    /// detect byte-identical files at different paths.
    pub(crate) hash: u128,
    /// Width of the image in pixels, captured at import time.
    pub(crate) width: i32,
    /// Height of the image in pixels, captured at import time.
    pub(crate) height: i32,
    /// Name of the derived thumbnail; empty until one is generated.
    pub(crate) thumbnail_name: String,
    /// Nonzero when a reconciliation sweep could not find the backing file.
    pub(crate) missing: i32,
}

impl View for Photo {
    type V = PhotoView;

    closed spec fn view(&self) -> PhotoView {
        PhotoView {
            id: self.id,
            filename: self.filename@,
            hash: self.hash,
            width: self.width,
            height: self.height,
            thumbnail_name: self.thumbnail_name@,
            missing: self.missing,
        }
    }
}

impl Clone for Photo {
    fn clone(&self) -> (r: Photo)
        ensures
            r@ == self@,
    {
        Photo {
            id: self.id,
            filename: self.filename.clone(),
            hash: self.hash,
            width: self.width,
            height: self.height,
            thumbnail_name: self.thumbnail_name.clone(),
            missing: self.missing,
        }
    }
}

impl Photo {
    /// Returns an empty Photo element.
    pub fn new() -> (r: Photo)
        ensures
            r@ == (PhotoView {
                id: 0,
                filename: Seq::<char>::empty(),
                hash: 0,
                width: 0,
                height: 0,
                thumbnail_name: Seq::<char>::empty(),
                missing: 0,
            }),
    {
        Photo {
            id: 0,
            filename: String::new(),
            hash: 0,
            width: 0,
            height: 0,
            thumbnail_name: String::new(),
            missing: 0,
        }
    }

    pub fn get_id(&self) -> (r: u32)
        ensures
            r == self@.id,
    {
        self.id
    }

    pub fn get_filename(&self) -> (r: String)
        ensures
            r@ == self@.filename,
    {
        self.filename.clone()
    }

    pub fn get_thumbnail_name(&self) -> (r: String)
        ensures
            r@ == self@.thumbnail_name,
    {
        self.thumbnail_name.clone()
    }

    pub fn get_width(&self) -> (r: i32)
        ensures
            r == self@.width,
    {
        self.width
    }

    pub fn get_height(&self) -> (r: i32)
        ensures
            r == self@.height,
    {
        self.height
    }

    /// The fingerprint of the file's bytes, computed once at import.
    pub fn get_hash(&self) -> (r: u128)
        ensures
            r == self@.hash,
    {
        self.hash
    }

    pub fn get_is_missing(&self) -> (r: i32)
        ensures
            r == self@.missing,
    {
        self.missing
    }

    pub(crate) fn set_id(&mut self, id: u32)
        ensures
            final(self)@ == (PhotoView { id: id, ..old(self)@ }),
    {
        self.id = id;
    }

    pub(crate) fn set_thumbnail_name(&mut self, name: String)
        ensures
            final(self)@ == (PhotoView { thumbnail_name: name@, ..old(self)@ }),
    {
        self.thumbnail_name = name;
    }

    pub fn set_is_missing(&mut self, is_missing: i32)
        ensures
            final(self)@ == (PhotoView { missing: is_missing, ..old(self)@ }),
    {
        self.missing = is_missing;
    }

    /// Set new filename for the picture. Mostly used when pictures are
    /// renamed or moved; the catalog is not consulted, so keeping paths
    /// unique among entries stays the caller's concern.
    pub fn set_filename(&mut self, filename: &String) -> (r: Result<(), Error>)
        ensures
            final(self)@ == (PhotoView { filename: filename@, ..old(self)@ }),
            r.is_ok(),
    {
        self.filename = filename.clone();
        Ok(())
    }

    /// Set a thumbnail name (that can point anywhere) for the picture.
    /// This lets clients bring thumbnails from their own generators.
    pub fn set_thumbnail(&mut self, thumbnail: &String)
        ensures
            final(self)@ == (PhotoView { thumbnail_name: thumbnail@, ..old(self)@ }),
    {
        self.thumbnail_name = thumbnail.clone();
    }

    /// Gets data from an image file and fills self with basic data: the
    /// path itself, the pixel dimensions and the content fingerprint.
    /// No database operations executed.
    ///
    /// Fails with `IsADirectory` when the path names a directory, with
    /// `NotAnImage` when the file's content is not classified as an image,
    /// and with `IoError` when the file cannot be read; on every error
    /// the photo is left exactly as it was.
    pub fn from_file(&mut self, photo_path: &String) -> (r: Result<(), Error>)
        ensures
            (r.is_ok() ==> final(self)@.filename == photo_path@
                && final(self)@.id == old(self)@.id
                && final(self)@.thumbnail_name == old(self)@.thumbnail_name
                && final(self)@.missing == old(self)@.missing),
            (r.is_err() ==> final(self)@ == old(self)@
                && (r == Err::<(), Error>(Error::IsADirectory)
                    || r == Err::<(), Error>(Error::NotAnImage)
                    || r == Err::<(), Error>(Error::IoError))),
    {
        if path_is_dir(photo_path) {
            return Err(Error::IsADirectory);
        }
        match classify_file(photo_path) {
            Err(e) => {
                return Err(e);
            },
            Ok(None) => {
                return Err(Error::NotAnImage);
            },
            Ok(Some(MediaKind::Other)) => {
                return Err(Error::NotAnImage);
            },
            Ok(Some(MediaKind::Image)) => {},
        }
        // A failed dimension probe is not fatal; the entry then records
        // zero dimensions.
        let (width, height): (i32, i32) = match image_dims(photo_path) {
            Ok((w, h)) => (dim_to_i32(w), dim_to_i32(h)),
            Err(_) => (0, 0),
        };
        let bytes = match read_file_bytes(photo_path) {
            Ok(b) => b,
            Err(e) => {
                return Err(e);
            },
        };
        self.width = width;
        self.height = height;
        self.hash = hash_bytes(&bytes);
        self.filename = photo_path.clone();
        Ok(())
    }
}

/// What a dimension reported by the header probe becomes in a catalog
/// entry: the value itself when it fits, else the largest representable.
pub open spec fn spec_dim_to_i32(d: usize) -> i32 {
    if d <= i32::MAX as usize {
        d as i32
    } else {
        i32::MAX
    }
}

fn dim_to_i32(d: usize) -> (r: i32)
    ensures
        r == spec_dim_to_i32(d),
{
    if d <= i32::MAX as usize {
        d as i32
    } else {
        i32::MAX
    }
}

/// Coarse classification of a file's content.
pub(crate) enum MediaKind {
    Image,
    Other,
}

/// Relies on std::path::Path::is_dir: true when the path names an existing
/// directory on disk.
#[verifier::external_body]
pub(crate) fn path_is_dir(p: &String) -> bool {
    std::path::Path::new(p).is_dir()
}

/// Relies on infer::get_from_path: reads the file's leading bytes and
/// classifies them by signature; `Ok(None)` when no known signature
/// matches, `Err` when the file cannot be read.
#[verifier::external_body]
fn classify_file(p: &String) -> (r: Result<Option<MediaKind>, Error>)
    ensures
        (r.is_err() ==> r == Err::<Option<MediaKind>, Error>(Error::IoError)),
{
    match infer::get_from_path(std::path::Path::new(p)) {
        Ok(Some(t)) => match t.matcher_type() {
            infer::MatcherType::Image => Ok(Some(MediaKind::Image)),
            _ => Ok(Some(MediaKind::Other)),
        },
        Ok(None) => Ok(None),
        Err(_) => Err(Error::IoError),
    }
}

/// Relies on imagesize::size: reads the image header and reports the pixel
/// dimensions as (width, height), without decoding the full image.
#[verifier::external_body]
fn image_dims(p: &String) -> Result<(usize, usize), Error> {
    match imagesize::size(std::path::Path::new(p)) {
        Ok(s) => Ok((s.width, s.height)),
        Err(_) => Err(Error::ImageDecodeError),
    }
}

/// Relies on image::ImageReader::open to open the source file, and on
/// std::io::Read::read_to_end for its raw bytes.
#[verifier::external_body]
fn read_file_bytes(p: &String) -> (r: Result<Vec<u8>, Error>)
    ensures
        (r.is_err() ==> r == Err::<Vec<u8>, Error>(Error::IoError)),
{
    let mut buf = Vec::new();
    let reader = match image::ImageReader::open(p) {
        Ok(r) => r,
        Err(_) => return Err(Error::IoError),
    };
    match std::io::Read::read_to_end(&mut reader.into_inner(), &mut buf) {
        Ok(_) => Ok(buf),
        Err(_) => Err(Error::IoError),
    }
}

/// The 128-bit fingerprint that the hash primitive assigns to a byte
/// sequence; a function of the bytes alone.
pub uninterp spec fn xxh3_128_of(bytes: Seq<u8>) -> u128;

/// Relies on xxhash_rust::xxh3::xxh3_128: the 128-bit hash of the bytes,
/// depending on the bytes alone.
#[verifier::external_body]
fn hash_bytes(bytes: &Vec<u8>) -> (r: u128)
    ensures
        r == xxh3_128_of(bytes@),
{
    xxhash_rust::xxh3::xxh3_128(bytes.as_slice())
}

} // verus!

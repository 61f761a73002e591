//! The thumbnail deriver: scaling a source image to the fixed target
//! height while preserving its aspect ratio, and the trusted raster
//! operations around it.

use vstd::prelude::*;
use vstd::arithmetic::div_mod::lemma_fundamental_div_mod;
use vstd::arithmetic::div_mod::lemma_mod_division_less_than_divisor;

use crate::error::Error;

verus! {

/// Number of pixel rows of every derived thumbnail.
pub const THUMBNAIL_HEIGHT: u32 = 325;

/// The width of a thumbnail derived from a source of `w` by `h` pixels:
/// scaled by the same ratio as the height, rounded down.
pub open spec fn spec_thumb_width(w: int, h: int) -> int {
    (w * THUMBNAIL_HEIGHT) / h
}

/// The dimensions of the thumbnail derived from a `w` by `h` source:
/// the fixed target height, and the width scaled by the same ratio.
/// `None` when the source reports no height, or the scaled width does
/// not fit a pixel coordinate.
pub fn thumbnail_dims(w: u32, h: u32) -> (r: Option<(u32, u32)>)
    ensures
        (r.is_some() <==> h > 0 && spec_thumb_width(w as int, h as int) <= u32::MAX),
        (r.is_some() ==> r.unwrap().1 == THUMBNAIL_HEIGHT
            && r.unwrap().0 == spec_thumb_width(w as int, h as int)),
{
    if h == 0 {
        return None;
    }
    proof {
        assert((w as int) * 325 <= (u32::MAX as int) * 325) by (nonlinear_arith)
            requires
                w as int <= u32::MAX as int,
        ;
    }
    let num = (w as u64) * (THUMBNAIL_HEIGHT as u64);
    let nw = num / (h as u64);
    if nw > u32::MAX as u64 {
        return None;
    }
    Some((nw as u32, THUMBNAIL_HEIGHT))
}

/// Law: the derived width preserves the aspect ratio to within one
/// pixel. For a source of width `w` and height `h > 0`, the thumbnail's
/// height is the fixed target `T`, and its width `w'` is the largest
/// integer with `w' * h <= w * T`, so `w'` differs from the exact ratio
/// `w * T / h` by less than one pixel.
pub proof fn lemma_thumbnail_aspect(w: u32, h: u32)
    requires
        h > 0,
    ensures
        spec_thumb_width(w as int, h as int) * (h as int) <= (w as int) * THUMBNAIL_HEIGHT,
        (w as int) * THUMBNAIL_HEIGHT < (spec_thumb_width(w as int, h as int) + 1) * (h as int),
        spec_thumb_width(w as int, h as int) >= 0,
{
    let a = (w as int) * THUMBNAIL_HEIGHT;
    let b = h as int;
    let q = a / b;
    assert((w as int) * 325 >= 0) by (nonlinear_arith)
        requires
            w as int >= 0,
    ;
    assert(a == (w as int) * 325);
    vstd::arithmetic::div_mod::lemma_div_pos_is_pos(a, b);
    lemma_fundamental_div_mod(a, b);
    lemma_mod_division_less_than_divisor(a, b);
    assert(a == b * q + a % b);
    assert(q * b == b * q) by (nonlinear_arith);
    assert((q + 1) * b == q * b + b) by (nonlinear_arith);
    assert(spec_thumb_width(w as int, h as int) == q);
}

/// Derives the thumbnail raster for the image at `src` and writes it to
/// `dst`: decode the source, scale it to the fixed target height with
/// the aspect-preserving width, and save the result. The catalog is
/// never touched.
pub fn derive_thumbnail(src: &String, dst: &String) -> (r: Result<(), Error>)
    ensures
        (r.is_err() ==> r == Err::<(), Error>(Error::ImageDecodeError)
            || r == Err::<(), Error>(Error::IoError)),
{
    let img = match open_image(src) {
        Ok(i) => i,
        Err(e) => {
            return Err(e);
        },
    };
    let w = image_width(&img);
    let h = image_height(&img);
    let dims = match thumbnail_dims(w, h) {
        Some(d) => d,
        None => {
            return Err(Error::ImageDecodeError);
        },
    };
    let resized = resize_image(&img, dims.0, dims.1);
    save_image(&resized, dst)
}

#[verifier::external_type_specification]
#[verifier::external_body]
pub struct ExDynamicImage(image::DynamicImage);

/// Relies on image::open: decodes the image at the path; fails when the
/// file cannot be read or its bytes are not a supported image.
#[verifier::external_body]
fn open_image(p: &String) -> (r: Result<image::DynamicImage, Error>)
    ensures
        (r.is_err() ==> r == Err::<image::DynamicImage, Error>(Error::ImageDecodeError)
            || r == Err::<image::DynamicImage, Error>(Error::IoError)),
{
    match image::open(p.as_str()) {
        Ok(img) => Ok(img),
        Err(image::ImageError::IoError(_)) => Err(Error::IoError),
        Err(_) => Err(Error::ImageDecodeError),
    }
}

/// Relies on image::DynamicImage::width.
#[verifier::external_body]
fn image_width(img: &image::DynamicImage) -> u32 {
    img.width()
}

/// Relies on image::DynamicImage::height.
#[verifier::external_body]
fn image_height(img: &image::DynamicImage) -> u32 {
    img.height()
}

/// Relies on image::DynamicImage::resize_exact: the resized raster has
/// exactly the given dimensions.
#[verifier::external_body]
fn resize_image(img: &image::DynamicImage, w: u32, h: u32) -> image::DynamicImage {
    img.resize_exact(w, h, image::imageops::FilterType::Lanczos3)
}

/// Relies on image::DynamicImage::save: encodes the raster in the format
/// named by the path's extension and writes it there.
#[verifier::external_body]
fn save_image(img: &image::DynamicImage, path: &String) -> (r: Result<(), Error>)
    ensures
        (r.is_err() ==> r == Err::<(), Error>(Error::ImageDecodeError)
            || r == Err::<(), Error>(Error::IoError)),
{
    match img.save(path.as_str()) {
        Ok(()) => Ok(()),
        Err(image::ImageError::IoError(_)) => Err(Error::IoError),
        Err(_) => Err(Error::ImageDecodeError),
    }
}

/// Relies on uuid::Uuid::new_v4 and its hyphenated text form: a fresh
/// random token for naming a derived thumbnail. Nothing is promised of
/// the token's value, only its shape: the hyphenated form is always 36
/// characters.
#[verifier::external_body]
pub(crate) fn new_uuid_token() -> (r: String)
    ensures
        r@.len() == 36,
{
    uuid::Uuid::new_v4().to_string()
}

} // verus!

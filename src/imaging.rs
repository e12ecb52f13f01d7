//! The calls into the `image` crate: decode, exact resize and encode.

use image::imageops::FilterType;
use image::{DynamicImage, ImageError, ImageOutputFormat};
use std::io::Cursor;
use vstd::prelude::*;

verus! {

#[verifier::external_type_specification]
#[verifier::external_body]
pub struct ExDynamicImage(DynamicImage);

#[verifier::external_type_specification]
#[verifier::external_body]
pub struct ExImageError(ImageError);

/// Largest width or height a rule may ask for: resampling allocates buffers of
/// sixteen bytes per pixel of the source width times the requested height, and
/// this keeps every such size within what a `Vec` can hold.
pub const MAX_DIMENSION: u32 = 67108864;

/// What `image::load_from_memory` makes of a byte buffer, `None` where it fails.
pub uninterp spec fn decoded(raw: Seq<u8>) -> Option<DynamicImage>;

/// What `DynamicImage::resize_exact` with the Lanczos3 filter makes of an image.
pub uninterp spec fn resized(img: DynamicImage, width: u32, height: u32) -> DynamicImage;

/// The width and height that `DynamicImage::dimensions` reports of an image.
pub uninterp spec fn dimensions_of(img: DynamicImage) -> (u32, u32);

/// The bytes that `DynamicImage::write_to` produces for an image: PNG where
/// `jpeg_quality` is `None`, JPEG at the given quality otherwise; `None` where
/// the encoder fails.
pub uninterp spec fn encoding(img: DynamicImage, jpeg_quality: Option<u8>) -> Option<Seq<u8>>;

/// Relies on `image::load_from_memory`: guesses the format from the bytes and
/// decodes them; the outcome depends on the bytes alone.
#[verifier::external_body]
pub(crate) fn load_from_memory(raw: &[u8]) -> (r: Result<DynamicImage, ImageError>)
    ensures
        match r {
            Ok(img) => decoded(raw@) == Some(img),
            Err(_) => decoded(raw@) is None,
        },
{
    image::load_from_memory(raw)
}

/// Relies on `DynamicImage::resize_exact` with `FilterType::Lanczos3`: the
/// result has exactly the requested dimensions, whatever the aspect ratio.
#[verifier::external_body]
pub(crate) fn resize_exact(img: &DynamicImage, width: u32, height: u32) -> (r: DynamicImage)
    requires
        width <= MAX_DIMENSION,
        height <= MAX_DIMENSION,
    ensures
        r == resized(*img, width, height),
        dimensions_of(r) == (width, height),
{
    img.resize_exact(width, height, FilterType::Lanczos3)
}

/// Relies on `DynamicImage::write_to` into an in-memory buffer, with
/// `ImageOutputFormat::Jpeg(q)` or `ImageOutputFormat::Png`; the outcome depends
/// on the image and the format alone.
#[verifier::external_body]
pub(crate) fn write_to(img: &DynamicImage, jpeg_quality: Option<u8>) -> (r: Result<Vec<u8>, ImageError>)
    ensures
        match r {
            Ok(bytes) => encoding(*img, jpeg_quality) == Some(bytes@),
            Err(_) => encoding(*img, jpeg_quality) is None,
        },
{
    let format = match jpeg_quality {
        Some(q) => ImageOutputFormat::Jpeg(q),
        None => ImageOutputFormat::Png,
    };
    let mut buffer: Vec<u8> = Vec::new();
    let written = img.write_to(&mut Cursor::new(&mut buffer), format);
    written.map(|_| buffer)
}

} // verus!

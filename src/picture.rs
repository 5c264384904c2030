//! Profile-image resizing: decode, scale to an exact size, encode as PNG.
use vstd::prelude::*;

use image::imageops::FilterType;
use image::{DynamicImage, ImageError, ImageOutputFormat};

use crate::model::AppError;

verus! {

/// `image::DynamicImage`, carried through opaque.
#[verifier::external_type_specification]
#[verifier::external_body]
pub struct ExDynamicImage(DynamicImage);

/// `image::ImageError`, carried through opaque.
#[verifier::external_type_specification]
#[verifier::external_body]
pub struct ExImageError(ImageError);

/// The image that `image::load_from_memory` reads from `data`, if any.
pub uninterp spec fn decoded(data: Seq<u8>) -> Option<DynamicImage>;

/// The image that `DynamicImage::resize_exact` makes of `img` at `width` by
/// `height` pixels with the Lanczos3 filter.
pub uninterp spec fn resized(img: DynamicImage, width: u32, height: u32) -> DynamicImage;

/// The bytes that `DynamicImage::write_to` writes for `img` in the PNG
/// format, or `None` where it fails.
pub uninterp spec fn png_encoded(img: DynamicImage) -> Option<Seq<u8>>;

/// The width and height of an image, as `DynamicImage::dimensions` gives them.
pub uninterp spec fn image_size(img: DynamicImage) -> (u32, u32);

/// Whether an image holds floating-point samples (`DynamicImage::color` is
/// `Rgb32F` or `Rgba32F`).
pub uninterp spec fn float_samples(img: DynamicImage) -> bool;

/// Relies on `image::load_from_memory`: it guesses the format from the bytes
/// and decodes them, the result depending on the bytes alone. With the PNG,
/// JPEG, GIF and BMP decoders, the only ones built in, no image it yields
/// holds floating-point samples.
#[verifier::external_body]
fn decode(data: &[u8]) -> (r: Result<DynamicImage, ImageError>)
    ensures
        r is Ok == decoded(data@) is Some,
        r matches Ok(img) ==> decoded(data@) == Some(img) && !float_samples(img),
{
    image::load_from_memory(data)
}

/// Relies on `DynamicImage::resize_exact` with the Lanczos3 filter: a new
/// image of exactly the given size, the aspect ratio not kept, with the same
/// kind of samples as the source.
#[verifier::external_body]
fn resize_exact(img: &DynamicImage, width: u32, height: u32) -> (r: DynamicImage)
    ensures
        r == resized(*img, width, height),
        image_size(r) == (width, height),
        float_samples(r) == float_samples(*img),
{
    img.resize_exact(width, height, FilterType::Lanczos3)
}

/// Relies on `DynamicImage::write_to` with the PNG format: the encoded bytes,
/// or the encoder's error. Writing into memory, it fails only on a zero width
/// or height or on floating-point samples.
#[verifier::external_body]
fn encode_png(img: &DynamicImage) -> (r: Result<Vec<u8>, ImageError>)
    ensures
        r is Ok == png_encoded(*img) is Some,
        r matches Ok(b) ==> png_encoded(*img) == Some(b@),
        image_size(*img).0 > 0 && image_size(*img).1 > 0 && !float_samples(*img) ==> r is Ok,
{
    let mut buffer: Vec<u8> = Vec::new();
    let written = img.write_to(&mut std::io::Cursor::new(&mut buffer), ImageOutputFormat::Png);
    match written {
        Ok(()) => Ok(buffer),
        Err(e) => Err(e),
    }
}

/// What resizing `data` to `width` by `height` pixels gives: the PNG encoding
/// of the resized image, or InternalServerError where the bytes do not decode
/// or the result does not encode.
pub open spec fn resize_outcome(data: Seq<u8>, width: u32, height: u32) -> Result<Seq<u8>, AppError> {
    match decoded(data) {
        None => Err(AppError::InternalServerError),
        Some(img) => match png_encoded(resized(img, width, height)) {
            Some(bytes) => Ok(bytes),
            None => Err(AppError::InternalServerError),
        },
    }
}

pub open spec fn bytes_result_view(r: Result<Vec<u8>, AppError>) -> Result<Seq<u8>, AppError> {
    match r {
        Ok(b) => Ok(b@),
        Err(e) => Err(e),
    }
}

/// Decodes `data`, scales it to exactly `width` by `height` pixels and
/// returns it encoded as PNG. A negative size, bytes that do not decode, and
/// an image that does not encode give InternalServerError; a decodable image
/// and a size of at least one pixel each way always give the bytes.
pub fn resize_profile_image(data: &[u8], width: i32, height: i32) -> (r: Result<
    Vec<u8>,
    AppError,
>)
    ensures
        width < 0 || height < 0 ==> r == Err::<Vec<u8>, AppError>(AppError::InternalServerError),
        0 <= width && 0 <= height ==> bytes_result_view(r) == resize_outcome(
            data@,
            width as u32,
            height as u32,
        ),
        decoded(data@) is Some && 0 < width && 0 < height ==> r is Ok,
        r is Err ==> r == Err::<Vec<u8>, AppError>(AppError::InternalServerError),
{
    if width < 0 || height < 0 {
        return Err(AppError::InternalServerError);
    }
    let img = match decode(data) {
        Ok(img) => img,
        Err(_) => return Err(AppError::InternalServerError),
    };
    let resized_img = resize_exact(&img, width as u32, height as u32);
    match encode_png(&resized_img) {
        Ok(bytes) => Ok(bytes),
        Err(_) => Err(AppError::InternalServerError),
    }
}

} // verus!

//! Encoding of in-memory page images into the output formats.
use crate::error::Error;
use crate::pixels::{PageImage, PixelModel};
use crate::PageImageFormat;
use image::codecs::jpeg::JpegEncoder;
use image::codecs::png::PngEncoder;
use image::codecs::webp::WebPEncoder;
use image::{ExtendedColorType, ImageEncoder, ImageError};
use vstd::prelude::*;

verus! {

#[verifier::external_type_specification]
#[verifier::external_body]
pub struct ExImageError(ImageError);

/// The quality JPEG pages are encoded with.
pub const JPEG_QUALITY: u8 = 90;

/// The PNG file that the codec writes for an RGBA image.
pub uninterp spec fn png_encoding(rgba: Seq<u8>, width: u32, height: u32) -> Seq<u8>;

/// The JPEG file that the codec writes for an RGB image at a quality.
pub uninterp spec fn jpeg_encoding(rgb: Seq<u8>, width: u32, height: u32, quality: u8) -> Seq<u8>;

/// The lossless WEBP file that the codec writes for an RGBA image.
pub uninterp spec fn webp_lossless_encoding(rgba: Seq<u8>, width: u32, height: u32) -> Seq<u8>;

/// Relies on `image::codecs::png::PngEncoder::write_image` with its default settings,
/// which panics unless the buffer holds exactly `width * height` RGBA pixels and
/// refuses only a zero width or height (the png writer's header check) when it
/// writes into a `Vec`.
#[verifier::external_body]
fn encode_png(rgba: &[u8], width: u32, height: u32) -> (r: Result<Vec<u8>, ImageError>)
    requires
        rgba@.len() == width as nat * height as nat * 4,
    ensures
        r matches Ok(bytes) ==> bytes@ == png_encoding(rgba@, width, height),
        codec_accepts(PageImageFormat::Png, width, height) ==> r is Ok,
{
    let mut out: Vec<u8> = Vec::new();
    PngEncoder::new(&mut out).write_image(rgba, width, height, ExtendedColorType::Rgba8)?;
    Ok(out)
}

/// Relies on `image::codecs::jpeg::JpegEncoder::new_with_quality` and its `write_image`,
/// which panics unless the buffer holds exactly `width * height` RGB pixels and
/// refuses only sides outside `1..=65535` (`encode_image`) when it writes into a `Vec`.
#[verifier::external_body]
fn encode_jpeg(rgb: &[u8], width: u32, height: u32, quality: u8) -> (r: Result<Vec<u8>, ImageError>)
    requires
        rgb@.len() == width as nat * height as nat * 3,
    ensures
        r matches Ok(bytes) ==> bytes@ == jpeg_encoding(rgb@, width, height, quality),
        codec_accepts(PageImageFormat::Jpeg, width, height) ==> r is Ok,
{
    let mut out: Vec<u8> = Vec::new();
    JpegEncoder::new_with_quality(&mut out, quality).write_image(
        rgb,
        width,
        height,
        ExtendedColorType::Rgb8,
    )?;
    Ok(out)
}

/// Relies on `image::codecs::webp::WebPEncoder::new_lossless` and its `write_image`,
/// which panics unless the buffer holds exactly `width * height` RGBA pixels and
/// refuses only sides outside `1..=16384` (image-webp's `encode_frame`) when it
/// writes into a `Vec`.
#[verifier::external_body]
fn encode_webp_lossless(rgba: &[u8], width: u32, height: u32) -> (r: Result<Vec<u8>, ImageError>)
    requires
        rgba@.len() == width as nat * height as nat * 4,
    ensures
        r matches Ok(bytes) ==> bytes@ == webp_lossless_encoding(rgba@, width, height),
        codec_accepts(PageImageFormat::Webp, width, height) ==> r is Ok,
{
    let mut out: Vec<u8> = Vec::new();
    WebPEncoder::new_lossless(&mut out).write_image(rgba, width, height, ExtendedColorType::Rgba8)?;
    Ok(out)
}

/// Whether the codec encodes an image of this size in `format`.
pub open spec fn codec_accepts(format: PageImageFormat, width: u32, height: u32) -> bool {
    let limit: u32 = match format {
        PageImageFormat::Png => u32::MAX,
        PageImageFormat::Jpeg => 65535,
        PageImageFormat::Webp => 16384,
    };
    1 <= width <= limit && 1 <= height <= limit
}

/// The pixel model an image must be in to be encoded in `format`.
pub open spec fn required_model(format: PageImageFormat) -> PixelModel {
    match format {
        PageImageFormat::Jpeg => PixelModel::Rgb,
        _ => PixelModel::Rgba,
    }
}

/// The name of a format as error messages give it.
pub open spec fn format_name_spec(format: PageImageFormat) -> Seq<char> {
    match format {
        PageImageFormat::Png => "png"@,
        PageImageFormat::Jpeg => "jpeg"@,
        PageImageFormat::Webp => "webp"@,
    }
}

/// The bytes that the codec writes for `pixels` in `format`.
pub open spec fn encoding_of(format: PageImageFormat, pixels: Seq<u8>, width: u32, height: u32) -> Seq<u8> {
    match format {
        PageImageFormat::Png => png_encoding(pixels, width, height),
        PageImageFormat::Jpeg => jpeg_encoding(pixels, width, height, JPEG_QUALITY),
        PageImageFormat::Webp => webp_lossless_encoding(pixels, width, height),
    }
}

/// The name of a format as error messages give it.
pub fn format_name(format: PageImageFormat) -> (r: String)
    ensures
        r@ == format_name_spec(format),
{
    match format {
        PageImageFormat::Png => String::from_str("png"),
        PageImageFormat::Jpeg => String::from_str("jpeg"),
        PageImageFormat::Webp => String::from_str("webp"),
    }
}

/// `e` is the codec failure for `page_number` of `path` in `format`.
pub open spec fn is_conversion_failure(e: &Error, page_number: u32, path: Seq<char>, format: PageImageFormat) -> bool {
    e matches Error::ImageConvertingError(n, p, f) && n == page_number && p@ == path && f@
        == format_name_spec(format)
}

/// `e` is the pixel-model mismatch for `page_number` of `path`.
pub open spec fn is_model_mismatch(e: &Error, page_number: u32, path: Seq<char>) -> bool {
    e matches Error::Rgba8ConvertError(p, n) && p@ == path && n == page_number
}

/// Turns what the codec returned into the result of a page: its bytes, or the
/// conversion failure tagged with the page, the file and the format name.
pub fn finish_encoding(
    encoded: Result<Vec<u8>, ImageError>,
    format: PageImageFormat,
    path: &str,
    page_number: u32,
) -> (r: Result<Vec<u8>, Error>)
    ensures
        encoded is Ok <==> r is Ok,
        r matches Ok(bytes) ==> encoded == Ok::<Vec<u8>, ImageError>(bytes),
        r matches Err(e) ==> is_conversion_failure(&e, page_number, path@, format),
{
    match encoded {
        Ok(bytes) => Ok(bytes),
        Err(_) => Err(Error::ImageConvertingError(page_number, path.to_owned(), format_name(format))),
    }
}

/// Encodes an image in `format`: PNG and lossless WEBP from an RGBA image, JPEG at
/// quality 90 from an RGB image. An image in another model gives the pixel-model
/// mismatch error; a size the codec refuses gives the conversion failure for the
/// format; every other image is encoded.
pub fn encode_page(image: &PageImage, format: PageImageFormat, path: &str, page_number: u32) -> (r:
    Result<Vec<u8>, Error>)
    requires
        image.wf(),
    ensures
        image.model != required_model(format) ==> (r matches Err(e) && is_model_mismatch(
            &e,
            page_number,
            path@,
        )),
        image.model == required_model(format) ==> match r {
            Ok(bytes) => bytes@ == encoding_of(format, image.pixels@, image.width, image.height),
            Err(e) => is_conversion_failure(&e, page_number, path@, format),
        },
        image.model == required_model(format) && codec_accepts(format, image.width, image.height)
            ==> r is Ok,
{
    let wanted = match format {
        PageImageFormat::Jpeg => PixelModel::Rgb,
        _ => PixelModel::Rgba,
    };
    if image.model != wanted {
        return Err(Error::Rgba8ConvertError(path.to_owned(), page_number));
    }
    let encoded = match format {
        PageImageFormat::Png => encode_png(image.pixels.as_slice(), image.width, image.height),
        PageImageFormat::Jpeg => encode_jpeg(
            image.pixels.as_slice(),
            image.width,
            image.height,
            JPEG_QUALITY,
        ),
        PageImageFormat::Webp => encode_webp_lossless(
            image.pixels.as_slice(),
            image.width,
            image.height,
        ),
    };
    finish_encoding(encoded, format, path, page_number)
}

} // verus!

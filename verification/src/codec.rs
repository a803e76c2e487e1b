use vstd::prelude::*;

use image::GenericImageView;
use image::ImageError as CodecError;

use crate::errors::{codec_error, CodecFailureKind, ErrorView, ImageError};
use crate::formats::OutputFormat;

verus! {

#[verifier::external_type_specification]
#[verifier::external_body]
pub struct ExCodecError(CodecError);

/// Whether the codec decodes the byte buffer at all. Decoding is a
/// deterministic function of the bytes alone: format guessing and the
/// decoders read nothing but the buffer.
pub uninterp spec fn decode_ok(bytes: Seq<u8>) -> bool;

/// The pixel width of the image decoded from the bytes.
pub uninterp spec fn decoded_width(bytes: Seq<u8>) -> u32;

/// The pixel height of the image decoded from the bytes.
pub uninterp spec fn decoded_height(bytes: Seq<u8>) -> u32;

/// The textual descriptor of the decoded image's native color type.
pub uninterp spec fn decoded_descr(bytes: Seq<u8>) -> Seq<char>;

/// The canonical four-channel 8-bit buffer of the decoded image.
pub uninterp spec fn decoded_rgba(bytes: Seq<u8>) -> Seq<u8>;

/// Whether the encoder accepts this format, size and channel layout; its
/// dimension limits do not depend on the pixel values.
pub uninterp spec fn encodable(format: OutputFormat, width: u32, height: u32, with_alpha: bool) -> bool;

/// What the deterministic encoder writes for the given format, dimensions
/// and pixel bytes (four bytes per pixel with alpha, three without).
pub uninterp spec fn encoded_image(
    format: OutputFormat,
    width: u32,
    height: u32,
    with_alpha: bool,
    pixels: Seq<u8>,
) -> Seq<u8>;

/// Relies on `image::load_from_memory`, `DynamicImage::dimensions` and
/// `color`: decodes the byte buffer and reports the pixel width and height
/// and the debug text of the native color type, or the codec's failure. All
/// three results are deterministic functions of the bytes alone.
#[verifier::external_body]
pub(crate) fn decode_meta(bytes: &Vec<u8>) -> (r: Result<(u32, u32, String), CodecError>)
    ensures
        r is Ok <==> decode_ok(bytes@),
        r matches Ok(m) ==> (m.0 == decoded_width(bytes@) && m.1 == decoded_height(bytes@) && m.2@
            == decoded_descr(bytes@)),
{
    let img = match image::load_from_memory(bytes) {
        Ok(i) => i,
        Err(e) => return Err(e),
    };
    let (w, h) = img.dimensions();
    Ok((w, h, format!("{:?}", img.color())))
}

/// Relies on `image::load_from_memory`, `DynamicImage::dimensions` and
/// `to_rgba8`: decodes the byte buffer into the canonical four-channel 8-bit
/// layout. The RGBA buffer holds exactly `width * height` pixels of four
/// bytes each, and is a deterministic function of the bytes alone.
#[verifier::external_body]
pub(crate) fn decode_rgba(bytes: &Vec<u8>) -> (r: Result<(u32, u32, Vec<u8>), CodecError>)
    ensures
        r is Ok <==> decode_ok(bytes@),
        r matches Ok(d) ==> (d.0 == decoded_width(bytes@) && d.1 == decoded_height(bytes@) && d.2@
            == decoded_rgba(bytes@) && d.2@.len() == d.0 as int * d.1 as int * 4),
{
    let img = match image::load_from_memory(bytes) {
        Ok(i) => i,
        Err(e) => return Err(e),
    };
    let (w, h) = img.dimensions();
    Ok((w, h, img.to_rgba8().into_raw()))
}

/// Relies on the variants of `image::ImageError`: tells an IO-rooted failure
/// and an unrecognized format apart from every other kind of failure.
#[verifier::external_body]
pub(crate) fn image_error_kind(err: &CodecError) -> CodecFailureKind {
    match err {
        CodecError::IoError(_) => CodecFailureKind::Io,
        CodecError::Unsupported(_) => CodecFailureKind::UnrecognizedFormat,
        CodecError::Decoding(_) => CodecFailureKind::Other,
        CodecError::Encoding(_) => CodecFailureKind::Other,
        CodecError::Parameter(_) => CodecFailureKind::Other,
        CodecError::Limits(_) => CodecFailureKind::Other,
    }
}

/// Relies on the `Display` impl of `image::ImageError`: its human-readable
/// message; for an IO-rooted failure it is the underlying IO error's text.
#[verifier::external_body]
pub(crate) fn image_error_message(err: &CodecError) -> String {
    format!("{}", err)
}

/// Maps a codec failure into the error taxonomy: IO-rooted causes become
/// `IoError`, an unrecognized format becomes `UnsupportedFormat`, everything
/// else becomes `ProcessingError`; never `InvalidDimensions`.
pub(crate) fn map_codec_error(err: CodecError) -> (r: ImageError)
    ensures
        !(r@ matches ErrorView::Invalid(_)),
{
    let message = image_error_message(&err);
    codec_error(image_error_kind(&err), message)
}

/// Relies on `image::RgbaImage::from_raw` and `image::DynamicImage::write_to`:
/// encodes an RGBA buffer of exactly `width * height` pixels in the given
/// format into a fresh byte buffer. `from_raw` accepts a buffer of exactly
/// this size, so the `unwrap` cannot fail; the encoders write a
/// deterministic function of format, dimensions, layout and pixels, and
/// whether they accept the request depends on format, dimensions and layout
/// alone (their size limits), never on the pixel values.
#[verifier::external_body]
pub(crate) fn encode_rgba(width: u32, height: u32, pixels: Vec<u8>, format: &OutputFormat) -> (r:
    Result<Vec<u8>, CodecError>)
    requires
        width > 0,
        height > 0,
        pixels@.len() == width as int * height as int * 4,
    ensures
        r is Ok <==> encodable(*format, width, height, true),
        r matches Ok(out) ==> out@ == encoded_image(*format, width, height, true, pixels@),
{
    let f = match format {
        OutputFormat::Png => image::ImageFormat::Png,
        OutputFormat::Jpeg => image::ImageFormat::Jpeg,
        OutputFormat::Webp => image::ImageFormat::WebP,
        OutputFormat::Gif => image::ImageFormat::Gif,
        OutputFormat::Bmp => image::ImageFormat::Bmp,
        OutputFormat::Tiff => image::ImageFormat::Tiff,
    };
    let img = image::DynamicImage::ImageRgba8(image::RgbaImage::from_raw(width, height, pixels).unwrap());
    let mut out = std::io::Cursor::new(Vec::new());
    match img.write_to(&mut out, f) {
        Ok(()) => Ok(out.into_inner()),
        Err(e) => Err(e),
    }
}

/// Relies on `image::RgbImage::from_raw` and `image::DynamicImage::write_to`:
/// as [`encode_rgba`], for a three-channel buffer without alpha.
#[verifier::external_body]
pub(crate) fn encode_rgb(width: u32, height: u32, pixels: Vec<u8>, format: &OutputFormat) -> (r:
    Result<Vec<u8>, CodecError>)
    requires
        width > 0,
        height > 0,
        pixels@.len() == width as int * height as int * 3,
    ensures
        r is Ok <==> encodable(*format, width, height, false),
        r matches Ok(out) ==> out@ == encoded_image(*format, width, height, false, pixels@),
{
    let f = match format {
        OutputFormat::Png => image::ImageFormat::Png,
        OutputFormat::Jpeg => image::ImageFormat::Jpeg,
        OutputFormat::Webp => image::ImageFormat::WebP,
        OutputFormat::Gif => image::ImageFormat::Gif,
        OutputFormat::Bmp => image::ImageFormat::Bmp,
        OutputFormat::Tiff => image::ImageFormat::Tiff,
    };
    let img = image::DynamicImage::ImageRgb8(image::RgbImage::from_raw(width, height, pixels).unwrap());
    let mut out = std::io::Cursor::new(Vec::new());
    match img.write_to(&mut out, f) {
        Ok(()) => Ok(out.into_inner()),
        Err(e) => Err(e),
    }
}

} // verus!

use vstd::prelude::*;

use crate::algo::{map_algorithm_to_filter, ResizeAlgorithm};
use crate::codec::{decode_ok, decode_rgba, decoded_height, decoded_width, encodable, encode_rgb,
    encode_rgba, encoded_image, map_codec_error};
use crate::dims::{resolve_height, resolved_height_spec};
use crate::errors::{ErrorView, ImageError};
use crate::formats::{infer_output_format, infer_spec, override_view, OutputFormat};
use crate::pixels::{drop_alpha, drop_alpha_spec};
use crate::resample::{resample, to_resize_alg};
use crate::text::{is_blank, is_blank_seq};

verus! {

/// The caller's resize configuration: required target width, optional
/// explicit height, resampling algorithm, and optional output format
/// override.
#[derive(Debug)]
pub struct ResizeOptions {
    pub width: u32,
    pub height: Option<u32>,
    pub algorithm: ResizeAlgorithm,
    pub output_format: Option<String>,
}

/// A well-formed resize request: both paths non-blank, the target width
/// positive, and an explicit height, if present, positive.
pub open spec fn valid_request(
    input_path: Seq<char>,
    output_path: Seq<char>,
    options: &ResizeOptions,
) -> bool {
    &&& !is_blank_seq(input_path)
    &&& !is_blank_seq(output_path)
    &&& options.width > 0
    &&& options.height matches Some(h) ==> h > 0
}

/// Eager validation of a resize request, before any file is touched: blank
/// paths are `IoError`, a zero width or explicit zero height is
/// `InvalidDimensions`, in that order.
pub fn validate_resize_request(
    input_path: &str,
    output_path: &str,
    options: &ResizeOptions,
) -> (r: Result<(), ImageError>)
    ensures
        is_blank_seq(input_path@) ==> (r matches Err(e) && e@ == ErrorView::Io(
            "input_path is empty"@,
        )),
        !is_blank_seq(input_path@) && is_blank_seq(output_path@) ==> (r matches Err(e) && e@
            == ErrorView::Io("output_path is empty"@)),
        !is_blank_seq(input_path@) && !is_blank_seq(output_path@) && options.width == 0 ==> (r
            matches Err(e) && e@ == ErrorView::Invalid("width must be > 0"@)),
        !is_blank_seq(input_path@) && !is_blank_seq(output_path@) && options.width > 0
            && options.height == Some(0u32) ==> (r matches Err(e) && e@ == ErrorView::Invalid(
            "height must be > 0"@,
        )),
        r is Ok <==> valid_request(input_path@, output_path@, options),
{
    if is_blank(input_path) {
        return Err(ImageError::IoError { message: String::from_str("input_path is empty") });
    }
    if is_blank(output_path) {
        return Err(ImageError::IoError { message: String::from_str("output_path is empty") });
    }
    if options.width == 0 {
        return Err(
            ImageError::InvalidDimensions { message: String::from_str("width must be > 0") },
        );
    }
    if let Some(h) = options.height {
        if h == 0 {
            return Err(
                ImageError::InvalidDimensions { message: String::from_str("height must be > 0") },
            );
        }
    }
    Ok(())
}

/// The output of a resize: the encoding, under the resolved format, of some
/// four-channel buffer at the destination size, with the alpha channel
/// truncated away when the format does not carry one.
pub open spec fn resized_encoding(
    out: Seq<u8>,
    fmt: OutputFormat,
    dst_width: u32,
    dst_height: u32,
) -> bool {
    exists|p: Seq<u8>|
        p.len() == dst_width as int * dst_height as int * 4 && out == encoded_image(
            fmt,
            dst_width,
            dst_height,
            fmt != OutputFormat::Jpeg,
            if fmt == OutputFormat::Jpeg {
                drop_alpha_spec(p)
            } else {
                p
            },
        )
}

/// The resize pipeline after decoding: resolves the destination size,
/// resamples the canonical RGBA buffer, infers the output format, adapts the
/// channel layout, and encodes. A format outside the registry yields its
/// `UnsupportedFormat` error (or an earlier size failure, which is
/// `ProcessingError`); once the format is inferred and the encoder accepts
/// the destination size, success is guaranteed; no error after validation is
/// ever `InvalidDimensions`.
pub fn resize_decoded(
    src_width: u32,
    src_height: u32,
    src_pixels: Vec<u8>,
    output_path: &str,
    options: &ResizeOptions,
) -> (r: Result<Vec<u8>, ImageError>)
    requires
        src_pixels@.len() == src_width as int * src_height as int * 4,
        options.width > 0,
        options.height matches Some(h) ==> h > 0,
    ensures
        infer_spec(output_path@, override_view(&options.output_format)) matches Err(name) ==> (r
            matches Err(e) && (e@ == ErrorView::Unsupported(name) || e@ matches
        ErrorView::Processing(_))),
        r matches Err(e) ==> !(e@ matches ErrorView::Invalid(_)),
        r matches Ok(out) ==> (infer_spec(output_path@, override_view(&options.output_format))
            matches Ok(fmt) && resized_encoding(
            out@,
            fmt,
            options.width,
            resolved_height_spec(src_width, src_height, options.width, options.height),
        )),
        ({
            let dh = resolved_height_spec(src_width, src_height, options.width, options.height);
            (infer_spec(output_path@, override_view(&options.output_format)) matches Ok(fmt)
                && options.width as int * dh as int <= usize::MAX as int / 4 && encodable(
                fmt,
                options.width,
                dh,
                fmt != OutputFormat::Jpeg,
            )) ==> r is Ok
        }),
{
    let dst_width = options.width;
    let dst_height = resolve_height(src_width, src_height, dst_width, options.height);
    if dst_height == 0 {
        // defensive double check: only an explicit height could be zero here,
        // and validation has already rejected that
        return Err(
            ImageError::InvalidDimensions { message: String::from_str("computed height is 0") },
        );
    }
    proof {
        assert((dst_width as u64) * (dst_height as u64) <= (u32::MAX as u64) * (u32::MAX as u64))
            by (nonlinear_arith)
            requires
                dst_width <= u32::MAX,
                dst_height <= u32::MAX,
        ;
    }
    let px: u64 = (dst_width as u64) * (dst_height as u64);
    if px > usize::MAX as u64 / 4 {
        return Err(
            ImageError::ProcessingError {
                message: String::from_str("destination image is too large"),
            },
        );
    }
    proof {
        assert(dst_width as int * dst_height as int * 4 <= usize::MAX as int) by (nonlinear_arith)
            requires
                px == dst_width as int * dst_height as int,
                px <= usize::MAX as u64 / 4,
        ;
    }
    proof {
        assert(src_pixels.len() <= usize::MAX);
    }
    let strategy = map_algorithm_to_filter(&options.algorithm);
    let alg = to_resize_alg(&strategy);
    let dst_buf = match resample(&src_pixels, src_width, src_height, dst_width, dst_height, alg) {
        Ok(b) => b,
        Err(message) => {
            return Err(ImageError::ProcessingError { message });
        },
    };
    let expected: usize = (dst_width as usize) * (dst_height as usize) * 4;
    if dst_buf.len() != expected {
        // defensive double check: the resampler's contract already gives the size
        return Err(
            ImageError::ProcessingError {
                message: String::from_str("failed to construct RGBA image from resized buffer"),
            },
        );
    }
    let override_format: Option<String> = match &options.output_format {
        Some(s) => Some(s.clone()),
        None => None,
    };
    proof {
        assert(override_view(&override_format) == override_view(&options.output_format));
    }
    let fmt = match infer_output_format(output_path, override_format) {
        Ok(f) => f,
        Err(e) => {
            return Err(e);
        },
    };
    if fmt == OutputFormat::Jpeg {
        let rgb = drop_alpha(&dst_buf);
        proof {
            assert(rgb@.len() == dst_width as int * dst_height as int * 3);
        }
        match encode_rgb(dst_width, dst_height, rgb, &fmt) {
            Ok(out) => {
                proof {
                    let p = dst_buf@;
                    assert(p.len() == dst_width as int * dst_height as int * 4 && out@
                        == encoded_image(
                        fmt,
                        dst_width,
                        dst_height,
                        fmt != OutputFormat::Jpeg,
                        drop_alpha_spec(p),
                    ));
                }
                Ok(out)
            },
            Err(e) => Err(map_codec_error(e)),
        }
    } else {
        match encode_rgba(dst_width, dst_height, dst_buf, &fmt) {
            Ok(out) => {
                proof {
                    assert(resized_encoding(out@, fmt, dst_width, dst_height));
                }
                Ok(out)
            },
            Err(e) => Err(map_codec_error(e)),
        }
    }
}

/// Resizes an image already read into memory and returns the encoded bytes
/// of the result. Validation failures come first and exactly as
/// [`validate_resize_request`] states them; on a valid request whose bytes
/// decode, whose target format is inferred and whose destination size the
/// encoder accepts, success is guaranteed, and the result is the encoding,
/// under the inferred format, of a resampled buffer at the destination size
/// resolved from the decoded source dimensions.
pub fn resize_image_bytes(
    input_path: &str,
    output_path: &str,
    input_bytes: &Vec<u8>,
    options: &ResizeOptions,
) -> (r: Result<Vec<u8>, ImageError>)
    ensures
        is_blank_seq(input_path@) ==> (r matches Err(e) && e@ == ErrorView::Io(
            "input_path is empty"@,
        )),
        !is_blank_seq(input_path@) && is_blank_seq(output_path@) ==> (r matches Err(e) && e@
            == ErrorView::Io("output_path is empty"@)),
        !is_blank_seq(input_path@) && !is_blank_seq(output_path@) && options.width == 0 ==> (r
            matches Err(e) && e@ == ErrorView::Invalid("width must be > 0"@)),
        !is_blank_seq(input_path@) && !is_blank_seq(output_path@) && options.width > 0
            && options.height == Some(0u32) ==> (r matches Err(e) && e@ == ErrorView::Invalid(
            "height must be > 0"@,
        )),
        r is Ok ==> valid_request(input_path@, output_path@, options),
        infer_spec(output_path@, override_view(&options.output_format)) is Err ==> r is Err,
        valid_request(input_path@, output_path@, options) ==> (r matches Err(e) ==> !(e@ matches
        ErrorView::Invalid(_))),
        r matches Ok(out) ==> (infer_spec(output_path@, override_view(&options.output_format))
            matches Ok(fmt) && decode_ok(input_bytes@) && resized_encoding(
            out@,
            fmt,
            options.width,
            resolved_height_spec(
                decoded_width(input_bytes@),
                decoded_height(input_bytes@),
                options.width,
                options.height,
            ),
        )),
        ({
            let dh = resolved_height_spec(
                decoded_width(input_bytes@),
                decoded_height(input_bytes@),
                options.width,
                options.height,
            );
            (infer_spec(output_path@, override_view(&options.output_format)) matches Ok(fmt)
                && valid_request(input_path@, output_path@, options) && decode_ok(input_bytes@)
                && options.width as int * dh as int <= usize::MAX as int / 4 && encodable(
                fmt,
                options.width,
                dh,
                fmt != OutputFormat::Jpeg,
            )) ==> r is Ok
        }),
{
    if let Err(e) = validate_resize_request(input_path, output_path, options) {
        return Err(e);
    }
    match decode_rgba(input_bytes) {
        Err(err) => Err(map_codec_error(err)),
        Ok((src_width, src_height, src_pixels)) => resize_decoded(
            src_width,
            src_height,
            src_pixels,
            output_path,
            options,
        ),
    }
}

} // verus!

//! An image-inspection-and-resize core: structural metadata of a source
//! image, and resized copies under a chosen resampling algorithm and target
//! format. Validation, dimension resolution, format inference, channel
//! adaptation and the error taxonomy are verified; pixel codecs and the
//! resampling kernels are external collaborators reached through a narrow
//! trusted boundary, and file handling is left to the host.

mod algo;
mod codec;
mod dims;
mod errors;
mod formats;
mod info;
mod pixels;
mod resample;
mod resize;
mod text;

pub use algo::{map_algorithm_to_filter, strategy_spec, FilterKind, ResamplingStrategy,
    ResizeAlgorithm};
pub use dims::{aspect_height_spec, calculate_height_with_aspect_ratio,
    lemma_resolve_height_degenerate, lemma_resolve_height_formula, resolve_height,
    resolved_height_spec};
pub use codec::{decode_ok, decoded_descr, decoded_height, decoded_rgba, decoded_width,
    encodable, encoded_image};
pub use errors::{codec_error, CodecFailureKind, ErrorView, ImageError};
pub use formats::{extension_of, format_of, get_supported_formats, infer_output_format, infer_spec,
    lemma_infer_case_insensitive, lemma_infer_dot_insensitive, lemma_registry_matches_lookup,
    override_view, supported_formats_spec, OutputFormat};
pub use info::{get_image_info, ImageInfo, ImageInfoView};
pub use pixels::{drop_alpha, drop_alpha_spec};
pub use resize::{resize_decoded, resize_image_bytes, resized_encoding, valid_request,
    validate_resize_request, ResizeOptions};
pub use text::{dot_char, is_blank, is_blank_seq, is_space_char, lemma_normalize_case_insensitive,
    lemma_normalize_dot_insensitive, lower_char_spec, lower_seq, normalize_format_string,
    normalize_spec, trim_spec, with_leading_dot};

use vstd::prelude::*;

use crate::codec::{decode_meta, decode_ok, decoded_descr, decoded_height, decoded_width,
    map_codec_error};
use crate::errors::{ErrorView, ImageError};
use crate::text::{is_blank, is_blank_seq};

verus! {

/// Structural metadata of an image file: dimensions, native color descriptor,
/// byte size, and the path it was read from.
#[derive(Debug)]
pub struct ImageInfo {
    pub width: u32,
    pub height: u32,
    pub format: String,
    pub file_size_bytes: u64,
    pub path: String,
}

/// Mathematical shape of an [`ImageInfo`].
pub struct ImageInfoView {
    pub width: u32,
    pub height: u32,
    pub format: Seq<char>,
    pub file_size_bytes: u64,
    pub path: Seq<char>,
}

impl View for ImageInfo {
    type V = ImageInfoView;

    open spec fn view(&self) -> ImageInfoView {
        ImageInfoView {
            width: self.width,
            height: self.height,
            format: self.format@,
            file_size_bytes: self.file_size_bytes,
            path: self.path@,
        }
    }
}

/// Reports metadata about an image already read into memory: its decoded
/// dimensions and native color descriptor, together with the file size and
/// path the host observed. A blank path is rejected with `IoError` before
/// the bytes are looked at; otherwise the call succeeds exactly when the
/// bytes decode, reporting the decoded image's width, height and color
/// descriptor; decode failures are mapped through the error taxonomy, never
/// to `InvalidDimensions`.
pub fn get_image_info(path: String, bytes: &Vec<u8>, file_size_bytes: u64) -> (r: Result<
    ImageInfo,
    ImageError,
>)
    ensures
        is_blank_seq(path@) ==> (r matches Err(e) && e@ == ErrorView::Io("path is empty"@)),
        !is_blank_seq(path@) ==> (r is Ok <==> decode_ok(bytes@)),
        r matches Ok(info) ==> (!is_blank_seq(path@) && info@.width == decoded_width(bytes@)
            && info@.height == decoded_height(bytes@) && info@.format == decoded_descr(bytes@)
            && info@.path == path@ && info@.file_size_bytes == file_size_bytes),
        r matches Err(e) ==> !(e@ matches ErrorView::Invalid(_)),
{
    if is_blank(path.as_str()) {
        return Err(ImageError::IoError { message: String::from_str("path is empty") });
    }
    match decode_meta(bytes) {
        Err(err) => Err(map_codec_error(err)),
        Ok((width, height, format)) => Ok(
            ImageInfo { width, height, format, file_size_bytes, path },
        ),
    }
}

} // verus!

use vstd::prelude::*;

use fast_image_resize as fir;

use crate::algo::{FilterKind, ResamplingStrategy};

verus! {

#[verifier::external_type_specification]
#[verifier::external_body]
pub struct ExResizeAlg(fir::ResizeAlg);

/// Relies on the variants of `fast_image_resize::ResizeAlg`: the one-to-one
/// translation of the library's resampling strategy.
#[verifier::external_body]
pub(crate) fn to_resize_alg(strategy: &ResamplingStrategy) -> fir::ResizeAlg {
    match strategy {
        ResamplingStrategy::Nearest => fir::ResizeAlg::Nearest,
        ResamplingStrategy::Convolution(FilterKind::Bilinear) => fir::ResizeAlg::Convolution(
            fir::FilterType::Bilinear,
        ),
        ResamplingStrategy::Convolution(FilterKind::Lanczos3) => fir::ResizeAlg::Convolution(
            fir::FilterType::Lanczos3,
        ),
    }
}

/// Relies on `fast_image_resize`'s `ImageRef::new`, `Image::new`,
/// `Resizer::resize` and `Image::into_vec`: resamples a four-channel 8-bit
/// buffer to the destination size under the given algorithm. The destination
/// container is created with exactly `dst_width * dst_height` four-byte
/// pixels and `resize` only fills it, so a returned buffer has exactly that
/// size. When the source buffer holds exactly its stated pixels the call
/// cannot fail: `ImageRef::new` accepts any large-enough buffer (four-byte
/// pixels carry no alignment demand), both images share the `U8x4` pixel
/// type, and with default options the crop box is the whole source, so
/// `resize` takes no error path; zero-sized images take documented early
/// returns.
#[verifier::external_body]
pub(crate) fn resample(
    src: &Vec<u8>,
    src_width: u32,
    src_height: u32,
    dst_width: u32,
    dst_height: u32,
    alg: fir::ResizeAlg,
) -> (r: Result<Vec<u8>, String>)
    requires
        src_width as int * src_height as int * 4 <= usize::MAX as int,
        dst_width as int * dst_height as int * 4 <= usize::MAX as int,
    ensures
        src@.len() == src_width as int * src_height as int * 4 ==> r is Ok,
        r matches Ok(out) ==> out@.len() == dst_width as int * dst_height as int * 4,
{
    let src_image = match fir::images::ImageRef::new(
        src_width,
        src_height,
        src,
        fir::PixelType::U8x4,
    ) {
        Ok(i) => i,
        Err(e) => return Err(format!("{}", e)),
    };
    let mut dst_image = fir::images::Image::new(dst_width, dst_height, fir::PixelType::U8x4);
    let options = fir::ResizeOptions::new().resize_alg(alg);
    match fir::Resizer::new().resize(&src_image, &mut dst_image, Some(&options)) {
        Ok(()) => Ok(dst_image.into_vec()),
        Err(e) => Err(format!("{}", e)),
    }
}

} // verus!

//! Grayscale view of a converted frame, as the face detector consumes it.

use vstd::prelude::*;
use crate::convert::{pixel_b, pixel_g, pixel_r, yuyv_to_rgb};

verus! {

/// Pixels in one frame of the given resolution.
pub open spec fn pixel_count(width: u32, height: u32) -> int {
    (width as int) * (height as int)
}

/// Luma of one RGB pixel as the `image` crate computes it for 8-bit
/// samples: `(2126*R + 7152*G + 722*B) / 10000`, the sRGB coefficients.
pub open spec fn luma_byte(r: u8, g: u8, b: u8) -> u8 {
    ((2126 * r + 7152 * g + 722 * b) / 10000) as u8
}

/// Relies on `image::DynamicImage::to_luma8`, on an RGB8 buffer built with
/// `image::ImageBuffer::from_vec`: the grayscale image holds one byte per
/// pixel, the sRGB-weighted luma of that pixel's RGB triple.
#[verifier::external_body]
fn rgb_frame_to_luma(rgb: Vec<u8>, width: u32, height: u32) -> (gray: Vec<u8>)
    requires
        rgb@.len() == 3 * pixel_count(width, height),
    ensures
        gray@.len() == pixel_count(width, height),
        forall|p: int|
            0 <= p < pixel_count(width, height) ==> #[trigger] gray@[p] == luma_byte(
                rgb@[3 * p],
                rgb@[3 * p + 1],
                rgb@[3 * p + 2],
            ),
{
    let buffer: image::ImageBuffer<image::Rgb<u8>, Vec<u8>> =
        image::ImageBuffer::from_vec(width, height, rgb)
            .expect("buffer length matches the dimensions");
    image::DynamicImage::ImageRgb8(buffer).to_luma8().into_raw()
}

/// Grayscale frame for the detector: YUYV to RGB24, then each pixel to its
/// luma byte.
pub fn yuyv_to_grayscale(yuyv_frame: &[u8], width: u32, height: u32) -> (gray: Vec<u8>)
    requires
        pixel_count(width, height) % 2 == 0,
        yuyv_frame@.len() >= 2 * pixel_count(width, height),
        3 * pixel_count(width, height) <= usize::MAX,
    ensures
        gray@.len() == pixel_count(width, height),
        forall|p: int|
            0 <= p < pixel_count(width, height) ==> #[trigger] gray@[p] == luma_byte(
                pixel_r(yuyv_frame@, p),
                pixel_g(yuyv_frame@, p),
                pixel_b(yuyv_frame@, p),
            ),
{
    let wu: usize = width as usize;
    let hu: usize = height as usize;
    proof {
        assert((wu as int) * (hu as int) == pixel_count(width, height)) by (nonlinear_arith)
            requires
                wu as int == width as int,
                hu as int == height as int,
        ;
    }
    let rgb = yuyv_to_rgb(yuyv_frame, wu, hu);
    rgb_frame_to_luma(rgb, width, height)
}

} // verus!

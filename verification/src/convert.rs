//! YUYV 4:2:2 to RGB24 colorspace conversion.
//!
//! The conversion uses ITU-R BT.601-style coefficients in fixed-point
//! arithmetic (scaled by 10000), and saturates each channel to `[0, 255]`.

use vstd::prelude::*;

verus! {

/// Numerator of the red channel, scaled by 10000:
/// `R = Y + 1.4075 * (V - 128)`.
pub open spec fn red_num(y: int, v: int) -> int {
    10000 * y + 14075 * v - 14075 * 128
}

/// Numerator of the green channel, scaled by 10000:
/// `G = Y - 0.3455 * (U - 128) - 0.7169 * (V - 128)`.
pub open spec fn green_num(y: int, u: int, v: int) -> int {
    10000 * y - 3455 * u - 7169 * v + (3455 + 7169) * 128
}

/// Numerator of the blue channel, scaled by 10000:
/// `B = Y + 1.7790 * (U - 128)`.
pub open spec fn blue_num(y: int, u: int) -> int {
    10000 * y + 17790 * u - 17790 * 128
}

/// Divide a scaled channel numerator by the scale and saturate to `[0, 255]`.
pub open spec fn clamp_channel(num: int) -> u8 {
    if num < 0 {
        0u8
    } else if num / 10000 > 255 {
        255u8
    } else {
        (num / 10000) as u8
    }
}

/// Red sample for one pixel, from its luma and the pair's chroma.
pub open spec fn rgb_r(y: u8, u: u8, v: u8) -> u8 {
    clamp_channel(red_num(y as int, v as int))
}

/// Green sample for one pixel, from its luma and the pair's chroma.
pub open spec fn rgb_g(y: u8, u: u8, v: u8) -> u8 {
    clamp_channel(green_num(y as int, u as int, v as int))
}

/// Blue sample for one pixel, from its luma and the pair's chroma.
pub open spec fn rgb_b(y: u8, u: u8, v: u8) -> u8 {
    clamp_channel(blue_num(y as int, u as int))
}

/// Luma byte of pixel `p`: packed YUYV carries one per pixel.
pub open spec fn luma_at(yuyv: Seq<u8>, p: int) -> u8 {
    yuyv[2 * p]
}

/// U chroma byte shared by pixel `p`'s horizontal pair.
pub open spec fn u_at(yuyv: Seq<u8>, p: int) -> u8 {
    if p % 2 == 0 {
        yuyv[2 * p + 1]
    } else {
        yuyv[2 * p - 1]
    }
}

/// V chroma byte shared by pixel `p`'s horizontal pair.
pub open spec fn v_at(yuyv: Seq<u8>, p: int) -> u8 {
    if p % 2 == 0 {
        yuyv[2 * p + 3]
    } else {
        yuyv[2 * p + 1]
    }
}

/// Red sample of pixel `p` of a YUYV frame.
pub open spec fn pixel_r(yuyv: Seq<u8>, p: int) -> u8 {
    rgb_r(luma_at(yuyv, p), u_at(yuyv, p), v_at(yuyv, p))
}

/// Green sample of pixel `p` of a YUYV frame.
pub open spec fn pixel_g(yuyv: Seq<u8>, p: int) -> u8 {
    rgb_g(luma_at(yuyv, p), u_at(yuyv, p), v_at(yuyv, p))
}

/// Blue sample of pixel `p` of a YUYV frame.
pub open spec fn pixel_b(yuyv: Seq<u8>, p: int) -> u8 {
    rgb_b(luma_at(yuyv, p), u_at(yuyv, p), v_at(yuyv, p))
}

/// Law: every output channel sample is saturated into `[0, 255]`, never
/// wrapped, whatever the Y, U and V input bytes are.
pub proof fn lemma_channels_saturate(y: u8, u: u8, v: u8)
    ensures
        0 <= rgb_r(y, u, v) <= 255,
        0 <= rgb_g(y, u, v) <= 255,
        0 <= rgb_b(y, u, v) <= 255,
{
}

/// Saturating fixed-point division of a channel numerator.
fn clamp_channel_ex(num: i32) -> (b: u8)
    ensures
        b == clamp_channel(num as int),
{
    if num < 0 {
        0u8
    } else {
        let q: u32 = (num as u32) / 10000;
        if q > 255 {
            255u8
        } else {
            q as u8
        }
    }
}

/// One pixel's RGB triple from its luma and its pair's chroma.
fn yuv_to_rgb_pixel(y: u8, u: u8, v: u8) -> (rgb: (u8, u8, u8))
    ensures
        rgb.0 == rgb_r(y, u, v),
        rgb.1 == rgb_g(y, u, v),
        rgb.2 == rgb_b(y, u, v),
{
    let yi: i32 = 10000 * (y as i32);
    let r_num: i32 = yi + 14075 * (v as i32) - 14075 * 128;
    let g_num: i32 = yi - 3455 * (u as i32) - 7169 * (v as i32) + (3455 + 7169) * 128;
    let b_num: i32 = yi + 17790 * (u as i32) - 17790 * 128;
    (clamp_channel_ex(r_num), clamp_channel_ex(g_num), clamp_channel_ex(b_num))
}

/// Convert a packed YUYV 4:2:2 frame to interleaved RGB24, row-major, no
/// padding. Every output sample is saturated to `[0, 255]`.
#[verifier::rlimit(60)]
#[verifier::spinoff_prover]
pub fn yuyv_to_rgb(yuyv_frame: &[u8], width: usize, height: usize) -> (rgb: Vec<u8>)
    requires
        (width * height) % 2 == 0,
        yuyv_frame@.len() >= 2 * (width * height),
        3 * (width * height) <= usize::MAX,
    ensures
        rgb@.len() == 3 * (width * height),
        forall|p: int|
            0 <= p < width * height ==> {
                &&& rgb@[3 * p] == #[trigger] pixel_r(yuyv_frame@, p)
                &&& rgb@[3 * p + 1] == pixel_g(yuyv_frame@, p)
                &&& rgb@[3 * p + 2] == pixel_b(yuyv_frame@, p)
            },
{
    let n_pixels: usize = width * height;
    let mut rgb: Vec<u8> = Vec::new();
    let mut i: usize = 0;
    while i < n_pixels
        invariant
            i % 2 == 0,
            i <= n_pixels,
            n_pixels == width * height,
            n_pixels % 2 == 0,
            yuyv_frame@.len() >= 2 * n_pixels,
            3 * n_pixels <= usize::MAX,
            rgb@.len() == 3 * i,
            forall|p: int|
                0 <= p < i ==> {
                    &&& rgb@[3 * p] == #[trigger] pixel_r(yuyv_frame@, p)
                    &&& rgb@[3 * p + 1] == pixel_g(yuyv_frame@, p)
                    &&& rgb@[3 * p + 2] == pixel_b(yuyv_frame@, p)
                },
        decreases n_pixels - i,
    {
        let y0 = yuyv_frame[i * 2];
        let u = yuyv_frame[i * 2 + 1];
        let y1 = yuyv_frame[i * 2 + 2];
        let v = yuyv_frame[i * 2 + 3];
        let (r0, g0, b0) = yuv_to_rgb_pixel(y0, u, v);
        let (r1, g1, b1) = yuv_to_rgb_pixel(y1, u, v);
        let ghost prev = rgb@;
        let ghost ii = i as int;
        rgb.push(r0);
        rgb.push(g0);
        rgb.push(b0);
        rgb.push(r1);
        rgb.push(g1);
        rgb.push(b1);
        proof {
            let yv = yuyv_frame@;
            assert(luma_at(yv, ii) == y0);
            assert(u_at(yv, ii) == u);
            assert(v_at(yv, ii) == v);
            assert((ii + 1) % 2 == 1);
            assert(luma_at(yv, ii + 1) == y1);
            assert(u_at(yv, ii + 1) == u);
            assert(v_at(yv, ii + 1) == v);
            assert forall|p: int|
                0 <= p < ii + 2 implies {
                    &&& rgb@[3 * p] == #[trigger] pixel_r(yv, p)
                    &&& rgb@[3 * p + 1] == pixel_g(yv, p)
                    &&& rgb@[3 * p + 2] == pixel_b(yv, p)
                } by {
                if p < ii {
                    assert(rgb@[3 * p] == prev[3 * p]);
                    assert(rgb@[3 * p + 1] == prev[3 * p + 1]);
                    assert(rgb@[3 * p + 2] == prev[3 * p + 2]);
                    assert(pixel_r(yv, p) == prev[3 * p]);
                } else if p == ii {
                    assert(rgb@[3 * p] == r0);
                    assert(rgb@[3 * p + 1] == g0);
                    assert(rgb@[3 * p + 2] == b0);
                } else {
                    assert(rgb@[3 * p] == r1);
                    assert(rgb@[3 * p + 1] == g1);
                    assert(rgb@[3 * p + 2] == b1);
                }
            }
        }
        i = i + 2;
    }
    rgb
}

} // verus!

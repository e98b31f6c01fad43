//! Frame sampling: the geometry of the fixed-height band cropped from each
//! frame, and the conversion of its 4-channel pixel readback into the
//! single-channel luminance buffer handed to the decoder.
//!
//! Sampling a band of fixed height, centred vertically and spanning the
//! full frame width, bounds per-tick CPU cost independently of the source
//! video resolution.

use vstd::prelude::*;

verus! {

/// Height in pixels of the horizontal band sampled from each frame.
pub const BAND_HEIGHT: u32 = 100;

/// Vertical offset of the sampled band: centred in frames taller than the
/// band, starting at the top of shorter frames.
pub open spec fn band_offset_spec(height: u32) -> int {
    if height >= BAND_HEIGHT {
        (height - BAND_HEIGHT) / 2
    } else {
        0
    }
}

/// Computes where the sampled band starts within a frame of the given
/// height.
pub fn band_offset(height: u32) -> (dy: u32)
    ensures
        dy as int == band_offset_spec(height),
{
    if height >= BAND_HEIGHT {
        (height - BAND_HEIGHT) / 2
    } else {
        0
    }
}

/// Luminance of one RGBA pixel: the ITU-R BT.601 weighting in 10-bit fixed
/// point with rounding; a fully transparent pixel reads as white.
pub open spec fn luma_pixel_spec(r: u8, g: u8, b: u8, a: u8) -> u8 {
    if a == 0 {
        255
    } else {
        ((306 * r + 601 * g + 117 * b + 512) / 1024) as u8
    }
}

/// The luminance buffer of a 4-channel pixel buffer: one byte for each
/// four input bytes, trailing bytes past the last whole pixel ignored.
pub open spec fn luma_of(rgba: Seq<u8>) -> Seq<u8> {
    Seq::new(
        (rgba.len() / 4) as nat,
        |i: int| luma_pixel_spec(rgba[4 * i], rgba[4 * i + 1], rgba[4 * i + 2], rgba[4 * i + 3]),
    )
}

/// Converts a 4-channel (RGBA) pixel readback into a single-channel
/// luminance buffer.
pub fn convert_to_luma(rgba: &Vec<u8>) -> (luma: Vec<u8>)
    ensures
        luma@ == luma_of(rgba@),
{
    let n = rgba.len() / 4;
    let mut luma: Vec<u8> = Vec::new();
    let mut i: usize = 0;
    while i < n
        invariant
            i <= n,
            n == rgba@.len() / 4,
            rgba@.len() <= usize::MAX,
            luma@ == luma_of(rgba@).take(i as int),
        decreases n - i,
    {
        proof {
            assert(4 * (i as int) + 3 < rgba@.len()) by {
                vstd::arithmetic::div_mod::lemma_fundamental_div_mod(rgba@.len() as int, 4);
            }
        }
        let r = rgba[4 * i];
        let g = rgba[4 * i + 1];
        let b = rgba[4 * i + 2];
        let a = rgba[4 * i + 3];
        let pix: u8 = if a == 0 {
            255
        } else {
            ((306u32 * (r as u32) + 601u32 * (g as u32) + 117u32 * (b as u32) + 512u32)
                / 1024u32) as u8
        };
        luma.push(pix);
        proof {
            assert(luma@ =~= luma_of(rgba@).take(i as int + 1));
        }
        i = i + 1;
    }
    proof {
        assert(luma_of(rgba@).take(n as int) =~= luma_of(rgba@));
    }
    luma
}

} // verus!

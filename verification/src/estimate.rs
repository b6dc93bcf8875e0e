//! The size estimate: the theoretical minimum uncompressed byte size of an
//! image, computed from its header as width x height x bytes-per-sample x
//! channel-count.
//!
//! Bytes per sample is bit depth / 8, which is fractional for depths below 8,
//! so the estimate is carried exactly in eighths of a byte: width x height x
//! bits-per-sample x channel-count. The byte value is that count divided
//! by 8, a division this representation never has to perform and so never
//! rounds.

use vstd::prelude::*;

use crate::header::{bits_per_sample, channel_count, PngHeader};

verus! {

/// The estimate that a header yields, in eighths of a byte.
pub open spec fn estimate_eighths(h: PngHeader) -> int {
    h.width * h.height * bits_per_sample(h.bit_depth) * channel_count(h.color_type)
}

/// An estimated minimum uncompressed size. The byte value is
/// `eighths / 8`, held exactly; it is a whole number of bytes whenever
/// `eighths` is divisible by 8.
#[derive(Clone, Copy, Debug, PartialEq, Eq, Structural)]
pub struct SizeEstimate {
    /// The estimate in eighths of a byte.
    pub eighths: u128,
}

/// Computes the size estimate of a header: width x height x bits-per-sample
/// x channel-count eighths of a byte, exactly.
pub fn estimate_size(info: &PngHeader) -> (r: SizeEstimate)
    ensures
        r.eighths == estimate_eighths(*info),
{
    let w: u128 = info.width as u128;
    let h: u128 = info.height as u128;
    let b: u128 = info.bit_depth.bits() as u128;
    let c: u128 = info.color_type.channels() as u128;
    proof {
        assert(w * h < 0x10000000000000000) by (nonlinear_arith)
            requires
                w < 0x100000000,
                h < 0x100000000,
        ;
        assert(w * h * b < 0x100000000000000000) by (nonlinear_arith)
            requires
                w * h < 0x10000000000000000,
                0 <= b <= 16,
        ;
        assert(w * h * b * c < 0x1000000000000000000) by (nonlinear_arith)
            requires
                w * h * b < 0x100000000000000000,
                0 <= c <= 4,
        ;
    }
    let wh: u128 = w * h;
    let whb: u128 = wh * b;
    SizeEstimate { eighths: whb * c }
}

/// The estimate is never negative, and it is zero exactly when the image has
/// no pixels: when the width or the height is zero.
pub proof fn lemma_estimate_zero_iff(h: PngHeader)
    ensures
        estimate_eighths(h) >= 0,
        estimate_eighths(h) == 0 <==> (h.width == 0 || h.height == 0),
{
    let b: int = bits_per_sample(h.bit_depth);
    let c: int = channel_count(h.color_type);
    assert(1 <= b <= 16);
    assert(1 <= c <= 4);
    assert(h.width * h.height * b * c >= 0 && (h.width * h.height * b * c == 0 <==> (
    h.width == 0 || h.height == 0))) by (nonlinear_arith)
        requires
            b >= 1,
            c >= 1,
            h.width >= 0,
            h.height >= 0,
    ;
}

/// For bit depth 8 and color type RGB the estimate is integer-valued:
/// exactly width x height x 3 bytes, with nothing lost to the division by 8.
pub proof fn lemma_estimate_rgb8_exact(h: PngHeader)
    requires
        h.bit_depth is Eight,
        h.color_type is RGB,
    ensures
        estimate_eighths(h) == 8 * (h.width * h.height * 3),
        estimate_eighths(h) % 8 == 0,
        estimate_eighths(h) / 8 == h.width * h.height * 3,
{
    let wh: int = (h.width as int) * (h.height as int);
    assert(wh * 8 * 3 == 8 * (wh * 3)) by (nonlinear_arith);
    assert(8 * (wh * 3) % 8 == 0 && 8 * (wh * 3) / 8 == wh * 3) by (nonlinear_arith);
}

/// The estimate is a pure function of the four header fields: two headers
/// that agree on width, height, bit depth and color type yield the same
/// estimate.
pub proof fn lemma_estimate_deterministic(a: PngHeader, b: PngHeader)
    requires
        a == b,
    ensures
        estimate_eighths(a) == estimate_eighths(b),
{
}

} // verus!

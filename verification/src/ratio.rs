//! The size ratio and its comparison against a threshold, carried out
//! exactly on integers.
//!
//! A measured ratio is actual size over estimated size, kept as a fraction:
//! numerator eight times the byte size, denominator the estimate in eighths
//! of a byte. A zero denominator arises only from a zero-pixel image; the
//! comparison treats such a ratio as above every threshold when the file has
//! any bytes at all, and below every threshold when it is empty, so no
//! division by zero and no arbitrary infinity is ever involved.

use vstd::arithmetic::div_mod::lemma_fundamental_div_mod;
use vstd::prelude::*;

verus! {

/// A measured ratio `num / den` of actual to estimated size.
#[derive(Clone, Copy, Debug, PartialEq, Eq, Structural)]
pub struct Ratio {
    /// Eight times the actual byte size.
    pub num: u128,
    /// The estimated size in eighths of a byte.
    pub den: u128,
}

/// A ratio threshold `num / den` that a configuration carries.
#[derive(Clone, Copy, Debug, PartialEq, Eq, Structural)]
pub struct RatioBound {
    pub num: u64,
    pub den: u64,
}

impl RatioBound {
    /// A threshold is a genuine fraction: its denominator is positive.
    pub open spec fn wf(&self) -> bool {
        self.den > 0
    }
}

/// Whether the fraction `rn / rd` exceeds the fraction `bn / bd`, for
/// `bd > 0`. With `rd > 0` this is the exact cross-multiplied comparison.
/// With `rd == 0` the fraction stands for the ratio of a file to a
/// zero-pixel estimate: above every threshold when the file is non-empty,
/// below every threshold when the file is empty as well.
pub open spec fn frac_exceeds(rn: int, rd: int, bn: int, bd: int) -> bool {
    if rd == 0 {
        rn > 0
    } else {
        rn * bd > bn * rd
    }
}

/// Whether a measured ratio exceeds a threshold.
pub open spec fn ratio_exceeds(r: Ratio, b: RatioBound) -> bool {
    frac_exceeds(r.num as int, r.den as int, b.num as int, b.den as int)
}

/// Splits the product `a * m` into a high and a low half at 2^64:
/// `hi * 2^64 + lo == a * m`, with `lo < 2^64`. Each step fits in a `u128`,
/// so the product is exact however large the factors are.
fn mul_split(a: u128, m: u64) -> (r: (u128, u64))
    ensures
        r.0 * 0x10000000000000000 + r.1 == a * m,
        r.1 < 0x10000000000000000,
{
    let a_hi: u128 = a / 0x10000000000000000u128;
    let a_lo: u128 = a % 0x10000000000000000u128;
    proof {
        lemma_fundamental_div_mod(a as int, 0x10000000000000000int);
        assert(a_lo * (m as u128) < 0x100000000000000000000000000000000) by (nonlinear_arith)
            requires
                a_lo < 0x10000000000000000,
                m < 0x10000000000000000,
        ;
        assert(a_hi * (m as u128) + 0x10000000000000000 <= 0x100000000000000000000000000000000)
            by (nonlinear_arith)
            requires
                a_hi < 0x10000000000000000,
                m < 0x10000000000000000,
        ;
    }
    let p: u128 = a_lo * (m as u128);
    let p_hi: u128 = p / 0x10000000000000000u128;
    let p_lo: u128 = p % 0x10000000000000000u128;
    proof {
        lemma_fundamental_div_mod(p as int, 0x10000000000000000int);
    }
    let hi: u128 = a_hi * (m as u128) + p_hi;
    let lo: u64 = p_lo as u64;
    proof {
        assert(hi * 0x10000000000000000 + lo == a * m) by (nonlinear_arith)
            requires
                a == 0x10000000000000000 * a_hi + a_lo,
                p == a_lo * m,
                p == 0x10000000000000000 * p_hi + p_lo,
                hi == a_hi * m + p_hi,
                lo == p_lo,
        ;
    }
    (hi, lo)
}

/// Decides whether a measured ratio exceeds a threshold, exactly: the two
/// cross products are formed in split halves and compared as such, so no
/// magnitude of file size or estimate can overflow the comparison.
pub fn ratio_gt(r: &Ratio, b: &RatioBound) -> (res: bool)
    requires
        b.wf(),
    ensures
        res == ratio_exceeds(*r, *b),
{
    if r.den == 0 {
        r.num > 0
    } else {
        let (lh, ll) = mul_split(r.num, b.den);
        let (rh, rl) = mul_split(r.den, b.num);
        proof {
            assert(r.den * b.num == b.num * r.den) by (nonlinear_arith);
            assert((lh * 0x10000000000000000 + ll > rh * 0x10000000000000000 + rl) <==> (lh > rh
                || (lh == rh && ll > rl)));
        }
        lh > rh || (lh == rh && ll > rl)
    }
}

} // verus!

//! Saturating fixed-point arithmetic on the raw `i64` sample scalar.
//!
//! The raw value counts micro-units: `SAMPLE_SCALE` stands for `1.0`. All
//! operations are total — out-of-range results saturate instead of wrapping,
//! since port values are untrusted hints and must never break the tick loop.

use vstd::prelude::*;

use crate::types::SAMPLE_SCALE;

verus! {

/// Mathematical saturation of an unbounded integer into the `i64` range.
pub open spec fn i64_sat(x: int) -> int {
    if x > i64::MAX as int {
        i64::MAX as int
    } else if x < i64::MIN as int {
        i64::MIN as int
    } else {
        x
    }
}

/// Division of `p` by a positive `q`, rounding toward zero (like Rust's `/`).
pub open spec fn div_toward_zero(p: int, q: int) -> int
    recommends
        q > 0,
{
    if p >= 0 {
        p / q
    } else {
        -((-p) / q)
    }
}

/// The fixed-point product of two raw scalars: `a * b / SAMPLE_SCALE`,
/// rounded toward zero and saturated into `i64`.
pub open spec fn mul_fp_spec(a: int, b: int) -> int {
    i64_sat(div_toward_zero(a * b, SAMPLE_SCALE as int))
}

/// Rounding toward zero is monotone in the numerator.
pub proof fn lemma_div_toward_zero_monotone(x1: int, x2: int, d: int)
    requires
        x2 <= x1,
        1 <= d,
    ensures
        div_toward_zero(x2, d) <= div_toward_zero(x1, d),
{
    if x2 >= 0 {
        vstd::arithmetic::div_mod::lemma_div_is_ordered(x2, x1, d);
    } else if x1 < 0 {
        vstd::arithmetic::div_mod::lemma_div_is_ordered(-x1, -x2, d);
    } else {
        vstd::arithmetic::div_mod::lemma_div_is_ordered(0, x1, d);
        vstd::arithmetic::div_mod::lemma_div_is_ordered(0, -x2, d);
    }
}

/// The fixed-point product is monotone in its first factor, for a
/// nonnegative second factor.
pub proof fn lemma_mul_fp_monotone(a1: int, a2: int, b: int)
    requires
        a2 <= a1,
        0 <= b,
    ensures
        mul_fp_spec(a2, b) <= mul_fp_spec(a1, b),
{
    assert(a2 * b <= a1 * b) by (nonlinear_arith)
        requires
            a2 <= a1,
            0 <= b,
    ;
    lemma_div_toward_zero_monotone(a1 * b, a2 * b, SAMPLE_SCALE as int);
}

/// Saturating addition of raw scalars.
pub fn sat_add(a: i64, b: i64) -> (r: i64)
    ensures
        r as int == i64_sat(a + b),
{
    if b >= 0 {
        if a > i64::MAX - b {
            i64::MAX
        } else {
            a + b
        }
    } else {
        if a < i64::MIN - b {
            i64::MIN
        } else {
            a + b
        }
    }
}

/// Saturating subtraction of raw scalars.
pub fn sat_sub(a: i64, b: i64) -> (r: i64)
    ensures
        r as int == i64_sat(a - b),
{
    if b >= 0 {
        if a < i64::MIN + b {
            i64::MIN
        } else {
            a - b
        }
    } else {
        if a > i64::MAX + b {
            i64::MAX
        } else {
            a - b
        }
    }
}

/// Mathematical clamp of `x` into the inclusive range `[lo, hi]`.
pub open spec fn clamp_spec(x: int, lo: int, hi: int) -> int
    recommends
        lo <= hi,
{
    if x < lo {
        lo
    } else if x > hi {
        hi
    } else {
        x
    }
}

/// Clamp `x` into the inclusive range `[lo, hi]`.
pub fn clamp(x: i64, lo: i64, hi: i64) -> (r: i64)
    requires
        lo <= hi,
    ensures
        r == clamp_spec(x as int, lo as int, hi as int),
{
    if x < lo {
        lo
    } else if x > hi {
        hi
    } else {
        x
    }
}

/// The remainder of `a` by `b` with the sign of `a` (like Rust's `%`),
/// defined as `0` when `b` is zero so that it is total.
pub open spec fn rem_fp_spec(a: int, b: int) -> int {
    if b == 0 {
        0
    } else {
        let aa = if a >= 0 { a } else { -a };
        let bb = if b >= 0 { b } else { -b };
        if a >= 0 {
            aa % bb
        } else {
            -(aa % bb)
        }
    }
}

/// Remainder of raw scalars with the sign of `a`; a zero divisor yields
/// zero instead of failing, since port values are untrusted hints.
pub fn rem_fp(a: i64, b: i64) -> (r: i64)
    ensures
        r as int == rem_fp_spec(a as int, b as int),
{
    if b == 0 {
        return 0;
    }
    let aa: u128 = if a >= 0 {
        a as u128
    } else {
        (-(a as i128)) as u128
    };
    let bb: u128 = if b >= 0 {
        b as u128
    } else {
        (-(b as i128)) as u128
    };
    let m: u128 = aa % bb;
    if a >= 0 {
        m as i64
    } else {
        -(m as i64)
    }
}

/// Fixed-point multiply: the real-valued product of two raw scalars,
/// rounded toward zero and saturated.
pub fn mul_fp(a: i64, b: i64) -> (r: i64)
    ensures
        r as int == mul_fp_spec(a as int, b as int),
{
    proof {
        assert((a as int) * (b as int) <= 0x8000_0000_0000_0000 * 0x8000_0000_0000_0000
            && (a as int) * (b as int) >= -(0x8000_0000_0000_0000 * 0x8000_0000_0000_0000))
            by (nonlinear_arith)
            requires
                -0x8000_0000_0000_0000 <= a as int <= 0x7fff_ffff_ffff_ffff,
                -0x8000_0000_0000_0000 <= b as int <= 0x7fff_ffff_ffff_ffff,
        ;
    }
    let p: i128 = (a as i128) * (b as i128);
    if p >= 0 {
        let q: u128 = (p as u128) / (SAMPLE_SCALE as u128);
        if q > (i64::MAX as u128) {
            i64::MAX
        } else {
            q as i64
        }
    } else {
        let q: u128 = ((-p) as u128) / (SAMPLE_SCALE as u128);
        if q >= 9_223_372_036_854_775_808u128 {
            i64::MIN
        } else {
            -(q as i64)
        }
    }
}

} // verus!

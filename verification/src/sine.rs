//! A fixed-point sine wave over one period of phase.
//!
//! Phase is measured in micro-periods: `SAMPLE_SCALE` micro-periods make one
//! full cycle. The wave is the classic parabolic approximation of the sine —
//! one upward parabola on the first half-period mirrored into a downward one
//! on the second — normalized so its peak is exactly `SAMPLE_SCALE` (`1.0`).

use vstd::prelude::*;

use crate::types::SAMPLE_SCALE;

verus! {

/// Micro-periods in half a cycle.
pub const HALF_PERIOD: i64 = 500_000;

/// Normalizing divisor of the parabolic lobe: `HALF_PERIOD * HALF_PERIOD /
/// (4 * SAMPLE_SCALE)`, which makes the lobe peak at `SAMPLE_SCALE`.
pub const LOBE_DIV: i64 = 62_500;

/// The positive parabolic lobe on `[0, HALF_PERIOD]`: zero at the ends,
/// `SAMPLE_SCALE` at the middle.
pub open spec fn lobe(x: int) -> int
    recommends
        0 <= x <= HALF_PERIOD,
{
    x * (HALF_PERIOD - x) / (LOBE_DIV as int)
}

/// The sine wave at phase `p` (in micro-periods, `0 <= p < SAMPLE_SCALE`):
/// the positive lobe on the first half-cycle, its mirror on the second.
pub open spec fn sine_wave(p: int) -> int
    recommends
        0 <= p < SAMPLE_SCALE,
{
    if p < HALF_PERIOD {
        lobe(p)
    } else {
        -lobe(p - HALF_PERIOD)
    }
}

/// The lobe stays within `[0, SAMPLE_SCALE]`.
pub proof fn lemma_lobe_bounds(x: int)
    requires
        0 <= x <= HALF_PERIOD,
    ensures
        0 <= lobe(x) <= SAMPLE_SCALE,
{
    assert(0 <= x * (HALF_PERIOD - x) <= 62_500_000_000) by (nonlinear_arith)
        requires
            0 <= x <= 500_000,
    ;
}

/// The wave stays within one unit of amplitude: `[-SAMPLE_SCALE,
/// SAMPLE_SCALE]`.
pub proof fn lemma_sine_bounds(p: int)
    requires
        0 <= p < SAMPLE_SCALE,
    ensures
        -SAMPLE_SCALE <= sine_wave(p) <= SAMPLE_SCALE,
{
    if p < HALF_PERIOD {
        lemma_lobe_bounds(p);
    } else {
        lemma_lobe_bounds(p - HALF_PERIOD);
    }
}

/// Half a period later the wave is exactly negated: the two half-cycles are
/// mirror images.
pub proof fn lemma_sine_half_period_negates(p: int)
    requires
        0 <= p < SAMPLE_SCALE,
    ensures
        sine_wave((p + HALF_PERIOD) % (SAMPLE_SCALE as int)) == -sine_wave(p),
{
    if p < HALF_PERIOD {
        assert((p + HALF_PERIOD) % (SAMPLE_SCALE as int) == p + HALF_PERIOD);
    } else {
        assert((p + HALF_PERIOD) % (SAMPLE_SCALE as int) == p - HALF_PERIOD);
    }
}

/// The parabolic lobe, evaluated in executable fixed-point arithmetic.
fn lobe_fp(x: i64) -> (r: i64)
    requires
        0 <= x <= HALF_PERIOD,
    ensures
        r == lobe(x as int),
        0 <= r <= SAMPLE_SCALE,
{
    proof {
        assert(0 <= x * (HALF_PERIOD - x) <= 62_500_000_000) by (nonlinear_arith)
            requires
                0 <= x <= 500_000,
        ;
    }
    let y: u64 = (x as u64) * ((HALF_PERIOD - x) as u64);
    proof {
        assert(y / 62_500 <= 1_000_000) by (nonlinear_arith)
            requires
                0 <= y <= 62_500_000_000,
        ;
    }
    (y / (LOBE_DIV as u64)) as i64
}

/// The sine wave at phase `p`, evaluated in executable fixed-point
/// arithmetic.
pub fn sine_fp(p: i64) -> (r: i64)
    requires
        0 <= p < SAMPLE_SCALE,
    ensures
        r == sine_wave(p as int),
        -SAMPLE_SCALE <= r <= SAMPLE_SCALE,
{
    if p < HALF_PERIOD {
        lobe_fp(p)
    } else {
        -lobe_fp(p - HALF_PERIOD)
    }
}

} // verus!

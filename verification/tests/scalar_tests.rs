//! Exact values of the scalar helpers: fixed-point arithmetic, the sine
//! wave's normalization, and decimal formatting.

use yat_rack::fixed::{clamp, mul_fp, rem_fp, sat_add, sat_sub};
use yat_rack::sine::sine_fp;
use yat_rack::text::u64_to_string;
use yat_rack::types::SAMPLE_SCALE;

#[test]
fn fixed_point_products() {
    assert_eq!(mul_fp(SAMPLE_SCALE, SAMPLE_SCALE), SAMPLE_SCALE); // 1.0 * 1.0
    assert_eq!(mul_fp(500_000, 500_000), 250_000); // 0.5 * 0.5
    assert_eq!(mul_fp(-500_000, 500_000), -250_000);
    assert_eq!(mul_fp(2_000_000, 3_500_000), 7_000_000); // 2.0 * 3.5
    assert_eq!(mul_fp(0, i64::MAX), 0);
    // Saturation instead of overflow.
    assert_eq!(mul_fp(i64::MAX, i64::MAX), i64::MAX);
    assert_eq!(mul_fp(i64::MAX, i64::MIN), i64::MIN);
}

#[test]
fn saturating_sums_and_clamps() {
    assert_eq!(sat_add(1, 2), 3);
    assert_eq!(sat_add(i64::MAX, 1), i64::MAX);
    assert_eq!(sat_sub(i64::MIN, 1), i64::MIN);
    assert_eq!(sat_sub(10, 4), 6);
    assert_eq!(clamp(5, 0, 10), 5);
    assert_eq!(clamp(-5, 0, 10), 0);
    assert_eq!(clamp(50, 0, 10), 10);
}

#[test]
fn remainders_follow_the_dividend_sign() {
    assert_eq!(rem_fp(7, 3), 1);
    assert_eq!(rem_fp(-7, 3), -1);
    assert_eq!(rem_fp(7, -3), 1);
    assert_eq!(rem_fp(-7, -3), -1);
    assert_eq!(rem_fp(7, 0), 0);
    assert_eq!(rem_fp(i64::MIN, -1), 0);
}

#[test]
fn sine_wave_hits_its_landmarks() {
    // Zero at phase 0 and at the half cycle; exactly 1.0 at the first
    // quarter and -1.0 at the third.
    assert_eq!(sine_fp(0), 0);
    assert_eq!(sine_fp(250_000), SAMPLE_SCALE);
    assert_eq!(sine_fp(500_000), 0);
    assert_eq!(sine_fp(750_000), -SAMPLE_SCALE);
    // Mirror symmetry between the two half cycles.
    for p in (0..500_000).step_by(12_345) {
        assert_eq!(sine_fp(p), -sine_fp(p + 500_000));
        assert!(sine_fp(p) >= 0);
        assert!(sine_fp(p) <= SAMPLE_SCALE);
    }
}

#[test]
fn decimal_formatting() {
    assert_eq!(u64_to_string(0), "0");
    assert_eq!(u64_to_string(7), "7");
    assert_eq!(u64_to_string(10), "10");
    assert_eq!(u64_to_string(44_100), "44100");
    assert_eq!(u64_to_string(1_234_567_890), "1234567890");
    assert_eq!(u64_to_string(u64::MAX), "18446744073709551615");
}

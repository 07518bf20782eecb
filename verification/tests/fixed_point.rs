//! Exact-value checks of the fixed-point kernel.

use raytracer::fixed::{
    fadd, fclamp, fdiv, fmin, fmul, fneg, fsqrt, fsub, idiv, isqrt, to_fixed, ONE, TWO,
};

#[test]
fn add_sub_neg_exact() {
    assert_eq!(fadd(ONE, ONE), TWO);
    assert_eq!(fsub(TWO, ONE), ONE);
    assert_eq!(fneg(ONE), -ONE);
    assert_eq!(fadd(-ONE, ONE), 0);
}

#[test]
fn add_saturates() {
    assert_eq!(fadd(i64::MAX, 1), i64::MAX);
    assert_eq!(fsub(i64::MIN, 1), i64::MIN);
    assert_eq!(fneg(i64::MIN), i64::MAX);
}

#[test]
fn mul_exact_values() {
    // 1.5 * 2.0 == 3.0
    assert_eq!(fmul(98304, TWO), 3 * ONE);
    // 0.5 * 0.5 == 0.25
    assert_eq!(fmul(32768, 32768), 16384);
    assert_eq!(fmul(0, 12345), 0);
    assert_eq!(fmul(-ONE, ONE), -ONE);
    assert_eq!(fmul(-ONE, -ONE), ONE);
}

#[test]
fn mul_truncates_toward_zero() {
    // (1/65536) * (1/65536) truncates to zero, from both signs.
    assert_eq!(fmul(1, 1), 0);
    assert_eq!(fmul(-1, 1), 0);
}

#[test]
fn div_exact_values() {
    assert_eq!(fdiv(ONE, TWO), 32768);
    assert_eq!(fdiv(3 * ONE, ONE), 3 * ONE);
    assert_eq!(fdiv(-ONE, TWO), -32768);
    // Truncation toward zero: -1/3 in fixed point.
    let third: i64 = fdiv(-ONE, 3 * ONE);
    assert_eq!(third, -21845);
}

#[test]
fn idiv_and_to_fixed() {
    assert_eq!(to_fixed(10), 10 * ONE);
    assert_eq!(to_fixed(-3), -3 * ONE);
    assert_eq!(idiv(10 * ONE, 10), ONE);
    assert_eq!(idiv(-3 * ONE, 2), -98304);
}

#[test]
fn sqrt_exact_values() {
    assert_eq!(isqrt(0), 0);
    assert_eq!(isqrt(16), 4);
    assert_eq!(isqrt(17), 4);
    assert_eq!(isqrt(24), 4);
    assert_eq!(isqrt(25), 5);
    assert_eq!(isqrt(u128::MAX), u64::MAX);
    // sqrt(4.0) == 2.0, sqrt(0.25) == 0.5 in fixed point.
    assert_eq!(fsqrt(4 * ONE), TWO);
    assert_eq!(fsqrt(16384), 32768);
    assert_eq!(fsqrt(ONE), ONE);
}

#[test]
fn clamp_and_min() {
    assert_eq!(fclamp(5, 0, 10), 5);
    assert_eq!(fclamp(-5, 0, 10), 0);
    assert_eq!(fclamp(15, 0, 10), 10);
    assert_eq!(fmin(3, 4), 3);
    assert_eq!(fmin(4, 3), 3);
}

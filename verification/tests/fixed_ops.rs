//! Exact-value tests for the fixed-point scalar, vector and color
//! arithmetic.

use pathtracer::color::Color;
use pathtracer::fixed::{sat_add64, sat_sub64, scale_mul_div, SCALE};
use pathtracer::vec3::Vec3;

#[test]
fn scale_is_one_million() {
    assert_eq!(SCALE, 1_000_000);
}

#[test]
fn saturating_add_plain_and_clamped() {
    assert_eq!(sat_add64(2, 3), 5);
    assert_eq!(sat_add64(i64::MAX, 1), i64::MAX);
    assert_eq!(sat_add64(i64::MIN, -1), i64::MIN);
    assert_eq!(sat_add64(-7, 7), 0);
}

#[test]
fn saturating_sub_plain_and_clamped() {
    assert_eq!(sat_sub64(2, 3), -1);
    assert_eq!(sat_sub64(i64::MIN, 1), i64::MIN);
    assert_eq!(sat_sub64(i64::MAX, -1), i64::MAX);
}

#[test]
fn scaled_quotient_truncates_toward_zero() {
    // (7 * SCALE) / 2 is 3.5 in fixed point.
    assert_eq!(scale_mul_div(7, SCALE, 2 * SCALE), 3);
    // A negative quotient truncates toward zero, not downward.
    assert_eq!(scale_mul_div(-SCALE, SCALE, 3 * SCALE), -333_333);
    assert_eq!(scale_mul_div(SCALE, SCALE, -3 * SCALE), -333_333);
    assert_eq!(scale_mul_div(-SCALE, SCALE, -3 * SCALE), 333_333);
}

#[test]
fn scaled_quotient_saturates() {
    assert_eq!(scale_mul_div(i64::MAX, SCALE, 1), i64::MAX);
    assert_eq!(scale_mul_div(i64::MAX, -SCALE, 1), i64::MIN);
}

#[test]
fn vector_difference_and_zero_test() {
    let a = Vec3::new(3, 5, 7);
    let b = Vec3::new(1, 9, 7);
    let d = a.sub_from(&b);
    assert_eq!(d, Vec3::new(2, -4, 0));
    assert!(!d.is_zero());
    assert!(a.sub_from(&a).is_zero());
}

#[test]
fn color_addition_is_componentwise_and_saturating() {
    let a = Color(1, 2, 3, 4);
    let b = Color(10, 20, 30, 40);
    assert_eq!(a.plus(&b), Color(11, 22, 33, 44));
    let big = Color(i64::MAX, 0, i64::MIN, 0);
    assert_eq!(big.plus(&Color(1, 0, -1, 0)), Color(i64::MAX, 0, i64::MIN, 0));
}

#[test]
fn color_product_scales_by_one() {
    let white = Color(SCALE, SCALE, SCALE, SCALE);
    let c = Color(200_000, 300_000, 400_000, SCALE);
    // Multiplying by 1.0 leaves every channel unchanged.
    assert_eq!(white.times(&c), c);
    // 0.5 * 0.5 = 0.25 in fixed point.
    let half = Color(SCALE / 2, SCALE / 2, SCALE / 2, SCALE);
    assert_eq!(half.times(&half), Color(SCALE / 4, SCALE / 4, SCALE / 4, SCALE));
}

#[test]
fn color_quotient_by_a_scalar() {
    let c = Color(200_000, 400_000, 600_000, SCALE);
    // Dividing by 1.0 changes nothing; by 2.0 halves each channel.
    assert_eq!(c.divided_by(SCALE), c);
    assert_eq!(c.divided_by(2 * SCALE), Color(100_000, 200_000, 300_000, SCALE / 2));
}

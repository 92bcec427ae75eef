//! Unit tests for the fixed-point scalar kernel, the vector primitive and the
//! small value types.

use platformr::fixed::{abs_lt, add_sat, div_fixed, floor_div, max, min, mul_fixed, mul_sat, neg_sat, sub_sat, SCALE};
use platformr::objects::{Direction, RectangularObject};
use platformr::raster::TileColor;
use platformr::vec2::Vec2;

#[test]
fn scale_is_one_million() {
    assert_eq!(SCALE, 1_000_000);
}

#[test]
fn add_sub_saturate() {
    assert_eq!(add_sat(2_000_000, 3_000_000), 5_000_000);
    assert_eq!(add_sat(i64::MAX, 1), i64::MAX);
    assert_eq!(sub_sat(i64::MIN, 1), i64::MIN);
    assert_eq!(sub_sat(5, 7), -2);
    assert_eq!(neg_sat(i64::MIN), i64::MAX);
    assert_eq!(neg_sat(42), -42);
}

#[test]
fn mul_fixed_rescales_and_truncates_toward_zero() {
    // 1.5 * 2.0 == 3.0
    assert_eq!(mul_fixed(1_500_000, 2_000_000), 3_000_000);
    // 0.15 * 9.80665 == 1.470997(5), truncated
    assert_eq!(mul_fixed(150_000, 9_806_650), 1_470_997);
    assert_eq!(mul_fixed(-150_000, 9_806_650), -1_470_997);
    // tiny negative products truncate toward zero, not toward -infinity
    assert_eq!(mul_fixed(-1, 1), 0);
    assert_eq!(mul_sat(3, 200_000), 600_000);
    assert_eq!(mul_sat(i64::MAX, 2), i64::MAX);
}

#[test]
fn div_fixed_exact_quotients() {
    // 2 N / 0.113 kg == 17.699115... m/s^2, truncated
    assert_eq!(div_fixed(2_000_000, 113_000), 17_699_115);
    assert_eq!(div_fixed(-2_000_000, 113_000), -17_699_115);
    assert_eq!(div_fixed(0, 5), 0);
}

#[test]
fn floor_div_rounds_toward_negative_infinity() {
    assert_eq!(floor_div(399_999, 200_000), 1);
    assert_eq!(floor_div(-1, 200_000), -1);
    assert_eq!(floor_div(-400_000, 200_000), -2);
    assert_eq!(floor_div(-400_001, 200_000), -3);
    assert_eq!(floor_div(0, 200_000), 0);
}

#[test]
fn min_max_and_abs() {
    assert_eq!(min(3, -7), -7);
    assert_eq!(max(3, -7), 3);
    assert!(abs_lt(-3, 5));
    assert!(!abs_lt(-7, 5));
}

#[test]
fn vec2_componentwise_ops() {
    let a = Vec2::new(1_000_000, -2_000_000);
    let b = Vec2::new(500_000, 500_000);
    assert_eq!(a.plus(b), Vec2::new(1_500_000, -1_500_000));
    assert_eq!(a.minus(b), Vec2::new(500_000, -2_500_000));
    assert_eq!(a.times(2_000_000), Vec2::new(2_000_000, -4_000_000));
    assert_eq!(a.over(2_000_000), Vec2::new(500_000, -1_000_000));
    assert_eq!(Vec2::zero(), Vec2::new(0, 0));
    assert_eq!(Vec2::splat(7), Vec2::new(7, 7));
}

#[test]
fn aggregation_is_order_independent_on_values() {
    // the most restrictive aggregate across probes does not depend on the
    // order the probes were evaluated in
    let (a, b, c, d) = (400_000, -200_000, 1_000_000, 400_000);
    let m1 = max(max(a, b), max(c, d));
    let m2 = max(max(d, c), max(b, a));
    let m3 = max(max(c, a), max(d, b));
    assert_eq!(m1, m2);
    assert_eq!(m1, m3);
    assert_eq!(m1, 1_000_000);
    let n1 = min(min(a, b), min(c, d));
    let n2 = min(min(d, c), min(b, a));
    assert_eq!(n1, n2);
    assert_eq!(n1, -200_000);
}

#[test]
fn rectangular_object_keeps_corners_and_color() {
    let r = RectangularObject::new(
        Vec2::new(0, 0),
        Vec2::new(1_000_000, 2_000_000),
        TileColor::rgba(10, 20, 30, 255),
    );
    assert_eq!(r.c0, Vec2::new(0, 0));
    assert_eq!(r.c1, Vec2::new(1_000_000, 2_000_000));
    assert_eq!(r.color, TileColor::rgba(10, 20, 30, 255));
    let _ = Direction::NE;
}

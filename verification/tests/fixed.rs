use garlic::fixed::{add_sat, clamp, isqrt, magnitude, mul_div, sub_sat, ONE};
use garlic::trig::{
    cos_deg, deg_from_rad, sin_deg, wrap_degrees, FULL_TURN, HALF_TURN, PI, QUARTER_TURN,
};

#[test]
fn sums_and_differences_saturate() {
    assert_eq!(add_sat(2, 3), 5);
    assert_eq!(add_sat(i64::MAX, 1), i64::MAX);
    assert_eq!(add_sat(i64::MIN, -1), i64::MIN);
    assert_eq!(add_sat(i64::MAX, i64::MIN), -1);
    assert_eq!(sub_sat(2, 3), -1);
    assert_eq!(sub_sat(i64::MIN, 1), i64::MIN);
    assert_eq!(sub_sat(0, i64::MIN), i64::MAX);
    assert_eq!(sub_sat(i64::MAX, -1), i64::MAX);
    assert_eq!(clamp(i128::MAX), i64::MAX);
    assert_eq!(clamp(i128::MIN), i64::MIN);
    assert_eq!(clamp(-42), -42);
}

#[test]
fn magnitude_covers_the_whole_range() {
    assert_eq!(magnitude(0), 0);
    assert_eq!(magnitude(-5), 5);
    assert_eq!(magnitude(i64::MAX), 9_223_372_036_854_775_807);
    assert_eq!(magnitude(i64::MIN), 9_223_372_036_854_775_808);
}

#[test]
fn products_and_quotients_round_toward_zero() {
    // 3 * 2 = 6
    assert_eq!(mul_div(3 * ONE, 2 * ONE, ONE as u128), 6 * ONE);
    // 1 / 3 = 0.333333
    assert_eq!(mul_div(ONE, ONE, 3 * ONE as u128), 333_333);
    assert_eq!(mul_div(-ONE, ONE, 3 * ONE as u128), -333_333);
    assert_eq!(mul_div(ONE, -ONE, 3 * ONE as u128), -333_333);
    assert_eq!(mul_div(-ONE, -ONE, 3 * ONE as u128), 333_333);
    assert_eq!(mul_div(7, 1, 2), 3);
    assert_eq!(mul_div(-7, 1, 2), -3);
    assert_eq!(mul_div(0, i64::MIN, 1), 0);
    assert_eq!(mul_div(5, 0, 7), 0);
}

#[test]
fn products_saturate_and_survive_wide_intermediates() {
    assert_eq!(mul_div(i64::MAX, i64::MAX, 1), i64::MAX);
    assert_eq!(mul_div(i64::MIN, i64::MAX, 1), i64::MIN);
    assert_eq!(mul_div(i64::MIN, i64::MIN, 1), i64::MAX);
    assert_eq!(mul_div(i64::MIN, 1, 1), i64::MIN);
    assert_eq!(mul_div(i64::MIN, -1, 1), i64::MAX);
    assert_eq!(mul_div(i64::MAX, i64::MAX, i64::MAX as u128), i64::MAX);
    assert_eq!(mul_div(i64::MIN, i64::MIN, 1u128 << 63), i64::MAX);
    assert_eq!(mul_div(i64::MIN, i64::MIN, 1u128 << 64), 1i64 << 62);
    assert_eq!(mul_div(i64::MAX, i64::MAX, u128::MAX), 0);
}

#[test]
fn integer_square_roots() {
    assert_eq!(isqrt(0), 0);
    assert_eq!(isqrt(1), 1);
    assert_eq!(isqrt(2), 1);
    assert_eq!(isqrt(3), 1);
    assert_eq!(isqrt(4), 2);
    assert_eq!(isqrt(15), 3);
    assert_eq!(isqrt(16), 4);
    assert_eq!(isqrt(17), 4);
    assert_eq!(isqrt(1_000_000_000_000), 1_000_000);
    assert_eq!(isqrt(999_999_999_999), 999_999);
    assert_eq!(isqrt(u128::MAX), u64::MAX as u128);
    assert_eq!(isqrt(1u128 << 126), 1u128 << 63);
    for n in 0u128..2000 {
        let r = isqrt(n);
        assert!(r * r <= n && n < (r + 1) * (r + 1));
    }
}

#[test]
fn angles_wrap_into_one_turn() {
    assert_eq!(wrap_degrees(0), 0);
    assert_eq!(wrap_degrees(FULL_TURN as i128), 0);
    assert_eq!(wrap_degrees(FULL_TURN as i128 - 1), FULL_TURN - 1);
    assert_eq!(wrap_degrees(-1), FULL_TURN - 1);
    assert_eq!(wrap_degrees(-(FULL_TURN as i128)), 0);
    assert_eq!(wrap_degrees(440_000_000), 80_000_000);
    assert_eq!(wrap_degrees(-80_000_000), 280_000_000);
    assert_eq!(wrap_degrees(i128::MIN), (i128::MIN.rem_euclid(FULL_TURN as i128)) as i64);
    assert_eq!(wrap_degrees(i128::MAX), (i128::MAX % FULL_TURN as i128) as i64);
}

#[test]
fn sine_and_cosine_are_exact_at_the_quarter_turns() {
    assert_eq!(sin_deg(0), 0);
    assert_eq!(cos_deg(0), ONE);
    assert_eq!(sin_deg(QUARTER_TURN), ONE);
    assert_eq!(cos_deg(QUARTER_TURN), 0);
    assert_eq!(sin_deg(HALF_TURN), 0);
    assert_eq!(cos_deg(HALF_TURN), -ONE);
    assert_eq!(sin_deg(3 * QUARTER_TURN), -ONE);
    assert_eq!(cos_deg(3 * QUARTER_TURN), 0);
    assert_eq!(sin_deg(FULL_TURN), 0);
    assert_eq!(cos_deg(FULL_TURN), ONE);
    assert_eq!(sin_deg(30_000_000), ONE / 2);
    assert_eq!(sin_deg(150_000_000), ONE / 2);
    assert_eq!(sin_deg(-30_000_000), -ONE / 2);
    assert_eq!(cos_deg(60_000_000), ONE / 2);
    assert_eq!(sin_deg(45_000_000), 707_107);
    assert_eq!(cos_deg(45_000_000), 707_107);
    assert_eq!(sin_deg(1_000_000), 17_452);
    assert_eq!(cos_deg(1_000_000), 999_848);
    assert_eq!(sin_deg(225_000_000), -707_107);
    assert_eq!(cos_deg(i64::MAX), sin_deg(wrap_degrees(i64::MAX as i128 + 90_000_000)));
}

#[test]
fn sine_and_cosine_stay_close_to_the_true_values() {
    let mut worst: f64 = 0.0;
    for step in -72_000i64..=72_000 {
        let d = step * 10_007;
        let angle = (d as f64 / 1_000_000.0).to_radians();
        let s = sin_deg(d) as f64 / 1_000_000.0;
        let c = cos_deg(d) as f64 / 1_000_000.0;
        worst = worst.max((s - angle.sin()).abs()).max((c - angle.cos()).abs());
        assert!(sin_deg(d).abs() <= ONE && cos_deg(d).abs() <= ONE);
    }
    assert!(worst < 0.000_001, "worst error {}", worst);
}

#[test]
fn sine_is_odd_about_the_half_turn() {
    for degree in 0i64..360 {
        let d = degree * ONE + 123_456;
        assert_eq!(sin_deg(d + HALF_TURN), -sin_deg(d));
        assert_eq!(sin_deg(d + FULL_TURN), sin_deg(d));
        assert_eq!(cos_deg(d), sin_deg(d + QUARTER_TURN));
    }
}

#[test]
fn radians_become_degrees() {
    assert_eq!(deg_from_rad(0), 0);
    // pi to six places is a little more than half a turn
    assert_eq!(deg_from_rad(PI), HALF_TURN + 19);
    assert_eq!(deg_from_rad(-PI), -HALF_TURN - 19);
    assert_eq!(deg_from_rad(2 * PI), FULL_TURN + 39);
    // one radian is 57.295779513... degrees
    assert_eq!(deg_from_rad(ONE), 57_295_779);
    assert_eq!(deg_from_rad(785_398), 44_999_990);
}

//! Sine and cosine of fixed-point angles.
//!
//! Angles are measured in degrees. Sine and cosine are computed from their
//! power series on the first eighth of a turn, in integers that count
//! millionths of a millionth, and rounded to the nearest millionth. The
//! results are approximations of the true sine and cosine: they differ from
//! them by less than one millionth, and are exact at every quarter turn.

use vstd::prelude::*;
use crate::fixed::{mul_div, scaled, ONE};

verus! {

/// 360 degrees.
pub const FULL_TURN: i64 = 360_000_000;

/// 180 degrees.
pub const HALF_TURN: i64 = 180_000_000;

/// 90 degrees.
pub const QUARTER_TURN: i64 = 90_000_000;

/// 45 degrees.
pub const EIGHTH_TURN: i64 = 45_000_000;

/// The number pi, to six places: the radians of a half turn.
pub const PI: i64 = 3_141_593;

/// The degrees of one radian, in thousand-millionths: 57.295779513.
pub const DEGREES_PER_RADIAN: i64 = 57_295_779_513;

/// The number one in the unit of the series: a millionth of a millionth.
pub const PICO: i64 = 1_000_000_000_000;

/// The angle in `[0, 360)` degrees that points the same way as `d`.
pub open spec fn wrapped(d: int) -> int {
    d % (FULL_TURN as int)
}

/// The product of two numbers of the series, of which `t` is at most one.
pub open spec fn part(a: int, t: int) -> int {
    (a * t) / (PICO as int)
}

/// The radians of `q` degrees, in the unit of the series.
pub open spec fn series_angle(q: int) -> int {
    (q * 17_453_292_519_943) / 1_000_000_000
}

/// The series of the sine up to the ninth power,
/// `x (1 - x^2/6 (1 - x^2/20 (1 - x^2/42 (1 - x^2/72))))`, in the unit of
/// the series. For angles up to an eighth of a turn it approximates the true
/// sine to within two thousand-millionths.
pub open spec fn sine_series(x: int) -> int {
    let x2 = part(x, x);
    let t4 = PICO - x2 / 72;
    let t3 = PICO - part(x2, t4) / 42;
    let t2 = PICO - part(x2, t3) / 20;
    let t1 = PICO - part(x2, t2) / 6;
    part(x, t1)
}

/// The series of the cosine up to the eighth power,
/// `1 - x^2/2 (1 - x^2/12 (1 - x^2/30 (1 - x^2/56)))`, in the unit of the
/// series. For angles up to an eighth of a turn it approximates the true
/// cosine to within three hundred-millionths.
pub open spec fn cosine_series(x: int) -> int {
    let x2 = part(x, x);
    let u4 = PICO - x2 / 56;
    let u3 = PICO - part(x2, u4) / 30;
    let u2 = PICO - part(x2, u3) / 12;
    PICO - part(x2, u2) / 2
}

/// A number of the series, rounded to the nearest millionth.
pub open spec fn rounded(p: int) -> int {
    (p + 500_000) / 1_000_000
}

/// The approximate sine of an angle `q` of the first quarter turn,
/// `0 <= q <= 90` degrees: the series of the sine up to 45 degrees, and
/// beyond it the series of the cosine of what is left to 90 degrees.
pub open spec fn quadrant(q: int) -> int {
    if q <= EIGHTH_TURN {
        rounded(sine_series(series_angle(q)))
    } else {
        rounded(cosine_series(series_angle(QUARTER_TURN - q)))
    }
}

/// The approximate sine of an angle `h` of the first half turn,
/// `0 <= h <= 180` degrees; its second quarter mirrors the first.
pub open spec fn arch(h: int) -> int {
    if h <= QUARTER_TURN {
        quadrant(h)
    } else {
        quadrant(HALF_TURN - h)
    }
}

/// The approximate sine of `d` degrees, in millionths: within one millionth
/// of the true sine, and exact at every quarter turn.
pub open spec fn sine(d: int) -> int {
    let w = wrapped(d);
    if w <= HALF_TURN {
        arch(w)
    } else {
        -arch(w - HALF_TURN)
    }
}

/// The approximate cosine of `d` degrees, in millionths: the approximate
/// sine a quarter turn further on, within one millionth of the true cosine.
pub open spec fn cosine(d: int) -> int {
    sine(d + QUARTER_TURN)
}

/// The degrees of an angle given in radians.
pub open spec fn degrees(radians: int) -> int {
    scaled(radians, DEGREES_PER_RADIAN as int, 1_000_000_000)
}

/// A part of a number is at most the number.
pub proof fn lemma_part_bounds(a: int, t: int)
    requires
        0 <= a,
        0 <= t <= PICO,
    ensures
        0 <= part(a, t) <= a,
{
    assert(0 <= a * t <= a * 1_000_000_000_000) by (nonlinear_arith)
        requires
            0 <= a,
            0 <= t <= 1_000_000_000_000,
    ;
}

/// Up to an eighth of a turn the angle of the series is less than one, the
/// series of the sine lies between nothing and the angle, and the series of
/// the cosine between nothing and one.
pub proof fn lemma_series_range(q: int)
    requires
        0 <= q <= EIGHTH_TURN,
    ensures
        0 <= series_angle(q) <= 785_398_163_398,
        0 <= sine_series(series_angle(q)) <= series_angle(q),
        0 < cosine_series(series_angle(q)) <= PICO,
{
    let x = series_angle(q);
    assert(0 <= q * 17_453_292_519_943 <= 45_000_000 * 17_453_292_519_943) by (nonlinear_arith)
        requires
            0 <= q <= 45_000_000,
    ;
    lemma_part_bounds(x, x);
    let x2 = part(x, x);
    let t4 = PICO - x2 / 72;
    lemma_part_bounds(x2, t4);
    let t3 = PICO - part(x2, t4) / 42;
    lemma_part_bounds(x2, t3);
    let t2 = PICO - part(x2, t3) / 20;
    lemma_part_bounds(x2, t2);
    let t1 = PICO - part(x2, t2) / 6;
    lemma_part_bounds(x, t1);
    let u4 = PICO - x2 / 56;
    lemma_part_bounds(x2, u4);
    let u3 = PICO - part(x2, u4) / 30;
    lemma_part_bounds(x2, u3);
    let u2 = PICO - part(x2, u3) / 12;
    lemma_part_bounds(x2, u2);
}

/// Over the first half turn the sine lies between zero and one.
pub proof fn lemma_arch_range(h: int)
    requires
        0 <= h <= HALF_TURN,
    ensures
        0 <= arch(h) <= ONE,
{
    let q = if h <= QUARTER_TURN {
        h
    } else {
        HALF_TURN - h
    };
    if q <= EIGHTH_TURN {
        lemma_series_range(q);
    } else {
        lemma_series_range(QUARTER_TURN - q);
    }
}

/// The sine is exact at the ends and in the middle of the first half turn.
pub proof fn lemma_arch_exact()
    ensures
        arch(0) == 0,
        arch(QUARTER_TURN as int) == ONE,
        arch(HALF_TURN as int) == 0,
{
    assert(series_angle(0) == 0) by {
        assert(0 * 17_453_292_519_943 == 0int);
    }
    assert(part(0, 0) == 0) by {
        assert(0 * 0 == 0int);
    }
    assert(part(0, PICO as int) == 0) by {
        assert(0 * 1_000_000_000_000 == 0int);
    }
    assert(sine_series(0) == 0);
    assert(cosine_series(0) == PICO);
    assert(quadrant(0) == 0);
    assert(quadrant(90_000_000) == 1_000_000);
}

/// The sine of every angle lies between minus one and one.
pub proof fn law_sine_range(d: int)
    ensures
        -ONE <= sine(d) <= ONE,
{
    let w = wrapped(d);
    if w <= HALF_TURN {
        lemma_arch_range(w);
    } else {
        lemma_arch_range(w - HALF_TURN);
    }
}

/// The cosine of every angle lies between minus one and one.
pub proof fn law_cosine_range(d: int)
    ensures
        -ONE <= cosine(d) <= ONE,
{
    law_sine_range(d + QUARTER_TURN);
}

/// Sine and cosine at the four quarter turns are exact.
pub proof fn law_quarter_turns()
    ensures
        sine(0) == 0,
        cosine(0) == ONE,
        sine(QUARTER_TURN as int) == ONE,
        cosine(QUARTER_TURN as int) == 0,
        sine(HALF_TURN as int) == 0,
        cosine(HALF_TURN as int) == -ONE,
        sine(3 * QUARTER_TURN) == -ONE,
        cosine(3 * QUARTER_TURN) == 0,
{
    lemma_arch_exact();
}

/// Turning by whole turns changes neither sine nor cosine.
pub proof fn law_periodic(d: int, turns: int)
    ensures
        sine(d + turns * FULL_TURN) == sine(d),
        cosine(d + turns * FULL_TURN) == cosine(d),
{
    vstd::arithmetic::div_mod::lemma_mod_multiples_vanish(turns, d, FULL_TURN as int);
    vstd::arithmetic::div_mod::lemma_mod_multiples_vanish(
        turns,
        d + QUARTER_TURN,
        FULL_TURN as int,
    );
    assert(d + turns * FULL_TURN == FULL_TURN * turns + d) by (nonlinear_arith);
    assert(d + turns * FULL_TURN + QUARTER_TURN == FULL_TURN * turns + (d + QUARTER_TURN))
        by (nonlinear_arith);
}

/// Turning by half a turn negates the sine.
pub proof fn law_half_turn(d: int)
    ensures
        sine(d + HALF_TURN) == -sine(d),
{
    let w = wrapped(d);
    let v = wrapped(d + HALF_TURN);
    assert(0 <= w < 360_000_000);
    assert(v == (if w < 180_000_000 {
        w + 180_000_000
    } else {
        w - 180_000_000
    }));
    lemma_arch_exact();
    if w == 0 {
        assert(sine(d) == arch(0));
        assert(sine(d + HALF_TURN) == arch(180_000_000));
    } else if w < 180_000_000 {
        assert(sine(d) == arch(w));
        assert(sine(d + HALF_TURN) == -arch(v - 180_000_000));
    } else if w == 180_000_000 {
        assert(sine(d) == arch(180_000_000));
        assert(sine(d + HALF_TURN) == arch(0));
    } else {
        assert(sine(d) == -arch(w - 180_000_000));
        assert(sine(d + HALF_TURN) == arch(v));
    }
}

/// Reduces an angle to `[0, 360)` degrees.
pub fn wrap_degrees(d: i128) -> (r: i64)
    ensures
        r == wrapped(d as int),
        0 <= r < FULL_TURN,
{
    if d >= 0 {
        let m: i128 = d % 360_000_000;
        m as i64
    } else {
        let up: u128 = (-(d + 1)) as u128 + 1;
        let m: u128 = up % 360_000_000;
        if m == 0 {
            0
        } else {
            (360_000_000 - m) as i64
        }
    }
}

/// Multiplies two numbers of the series.
fn part_of(a: u128, t: u128) -> (r: u128)
    requires
        a <= PICO,
        t <= PICO,
    ensures
        r == part(a as int, t as int),
        r <= a,
{
    proof {
        lemma_part_bounds(a as int, t as int);
    }
    assert(a * t <= 1_000_000_000_000 * 1_000_000_000_000) by (nonlinear_arith)
        requires
            a <= 1_000_000_000_000,
            t <= 1_000_000_000_000,
    ;
    (a * t) / 1_000_000_000_000
}

/// Computes the approximate sine of an angle of the first quarter turn.
fn quadrant_of(q: i64) -> (r: i64)
    requires
        0 <= q <= QUARTER_TURN,
    ensures
        r == quadrant(q as int),
        0 <= r <= ONE,
{
    let near: bool = q <= EIGHTH_TURN;
    let angle: i64 = if near {
        q
    } else {
        QUARTER_TURN - q
    };
    proof {
        lemma_series_range(angle as int);
    }
    assert(angle * 17_453_292_519_943 <= 45_000_000 * 17_453_292_519_943) by (nonlinear_arith)
        requires
            0 <= angle <= 45_000_000,
    ;
    let x: u128 = (angle as u128 * 17_453_292_519_943) / 1_000_000_000;
    let x2: u128 = part_of(x, x);
    let one: u128 = 1_000_000_000_000;
    let series: u128 = if near {
        let t4: u128 = one - x2 / 72;
        let t3: u128 = one - part_of(x2, t4) / 42;
        let t2: u128 = one - part_of(x2, t3) / 20;
        let t1: u128 = one - part_of(x2, t2) / 6;
        part_of(x, t1)
    } else {
        let u4: u128 = one - x2 / 56;
        let u3: u128 = one - part_of(x2, u4) / 30;
        let u2: u128 = one - part_of(x2, u3) / 12;
        one - part_of(x2, u2) / 2
    };
    ((series + 500_000) / 1_000_000) as i64
}

/// Computes the approximate sine of `d` degrees: within one millionth of the
/// true sine, and exact at every quarter turn.
pub fn sin_deg(d: i64) -> (r: i64)
    ensures
        r == sine(d as int),
        -ONE <= r <= ONE,
{
    let w: i64 = wrap_degrees(d as i128);
    let h: i64 = if w <= HALF_TURN {
        w
    } else {
        w - HALF_TURN
    };
    let q: i64 = if h <= QUARTER_TURN {
        h
    } else {
        HALF_TURN - h
    };
    let value: i64 = quadrant_of(q);
    if w <= HALF_TURN {
        value
    } else {
        -value
    }
}

/// Computes the approximate cosine of `d` degrees: within one millionth of
/// the true cosine, and exact at every quarter turn.
pub fn cos_deg(d: i64) -> (r: i64)
    ensures
        r == cosine(d as int),
        -ONE <= r <= ONE,
{
    let shifted: i128 = d as i128 + QUARTER_TURN as i128;
    let w: i64 = wrap_degrees(shifted);
    proof {
        assert(wrapped(w as int) == wrapped(shifted as int));
    }
    sin_deg(w)
}

/// Converts an angle in radians to degrees.
pub fn deg_from_rad(radians: i64) -> (r: i64)
    ensures
        r == degrees(radians as int),
{
    mul_div(radians, DEGREES_PER_RADIAN, 1_000_000_000)
}

} // verus!

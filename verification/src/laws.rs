//! Laws of the simulation, proved from the definitions of its steps.

use vstd::prelude::*;
use crate::fixed::{
    difference, lemma_root_exists, lemma_root_facts, lemma_scaled_zero, root, scaled, sum, FINE,
    ONE,
};
use crate::physics::{
    acceleration, after_engine, after_gravity_all, after_move, after_thrust, coasting, collides,
    drifted, fuel_after, integrated, lemma_gravity_keeps, projection, pull, slower_than,
    step_offset, step_span, strength, thrust_acceleration, wins, within, ACCELERATION_SCALE,
    FUEL_BAND,
    GRAVITY, REFERENCE_RADIUS, THRUST_FORCE,
};
use crate::state::{Planet, PlanetDef, Rocket, WinCondition};
use crate::trig::{cosine, law_quarter_turns, sine, QUARTER_TURN};

verus! {

/// In no time a body changes no velocity.
pub proof fn law_no_pull_in_no_time(dx: int, dy: int, radius: int)
    ensures
        pull(dx, dy, radius, 0) == (0int, 0int),
{
    let d2 = dx * dx + dy * dy;
    if d2 != 0 {
        assert(d2 > 0) by (nonlinear_arith)
            requires
                d2 == dx * dx + dy * dy,
                d2 != 0,
        ;
        lemma_root_facts(d2, 0);
        lemma_scaled_zero(acceleration(radius, d2), ONE as int);
        lemma_scaled_zero(dx, root(d2));
        lemma_scaled_zero(dy, root(d2));
    }
}

/// In no time the bodies leave the craft as it is.
pub proof fn law_no_gravity_in_no_time(rocket: Rocket, planets: Seq<Planet>)
    ensures
        after_gravity_all(rocket, planets, 0) == rocket,
    decreases planets.len(),
{
    if planets.len() > 0 {
        law_no_gravity_in_no_time(rocket, planets.drop_last());
        let planet = planets.last();
        law_no_pull_in_no_time(
            difference(planet.x as int, rocket.x as int),
            difference(planet.y as int, rocket.y as int),
            planet.radius as int,
        );
    }
}

/// A step of no length leaves the whole craft as it is: position, velocity,
/// fuel and engine.
pub proof fn law_zero_step_is_identity(rocket: Rocket, planets: Seq<Planet>)
    ensures
        integrated(rocket, planets, 0) == rocket,
{
    law_no_gravity_in_no_time(rocket, planets);
    lemma_scaled_zero(thrust_acceleration(rocket.fuel as int), ONE as int);
    lemma_scaled_zero(sine(rocket.orientation as int), ONE as int);
    lemma_scaled_zero(cosine(rocket.orientation as int), ONE as int);
    lemma_scaled_zero(rocket.speed_x as int, FINE as int);
    lemma_scaled_zero(rocket.speed_y as int, FINE as int);
}

/// A body of positive radius pulls, and does not push.
pub proof fn law_strength_is_not_negative(radius: int)
    requires
        radius >= 0,
    ensures
        strength(radius) >= 0,
{
    let cube = radius * radius * radius;
    let den = REFERENCE_RADIUS * REFERENCE_RADIUS * REFERENCE_RADIUS;
    assert(cube >= 0) by (nonlinear_arith)
        requires
            cube == radius * radius * radius,
            radius >= 0,
    ;
    assert(den > 0) by (nonlinear_arith)
        requires
            den == 30_000_000int * 30_000_000int * 30_000_000int,
    ;
    assert(GRAVITY * cube >= 0) by (nonlinear_arith)
        requires
            cube >= 0,
    ;
    assert((GRAVITY * cube) / den >= 0) by (nonlinear_arith)
        requires
            GRAVITY * cube >= 0,
            den > 0,
    ;
}

/// Gravity attracts: over a time that is not negative, a body of positive
/// radius changes the velocity of the craft toward itself along each axis,
/// and not at all along an axis on which the craft is level with it.
pub proof fn law_gravity_attracts(dx: int, dy: int, radius: int, dt: int)
    requires
        radius >= 0,
        dt >= 0,
    ensures
        dx >= 0 ==> pull(dx, dy, radius, dt).0 >= 0,
        dx <= 0 ==> pull(dx, dy, radius, dt).0 <= 0,
        dy >= 0 ==> pull(dx, dy, radius, dt).1 >= 0,
        dy <= 0 ==> pull(dx, dy, radius, dt).1 <= 0,
{
    let d2 = dx * dx + dy * dy;
    if d2 != 0 {
        assert(d2 > 0) by (nonlinear_arith)
            requires
                d2 == dx * dx + dy * dy,
                d2 != 0,
        ;
        lemma_root_facts(d2, 0);
        law_strength_is_not_negative(radius);
        let g = strength(radius);
        let dist = root(d2);
        lemma_scaled_sign(g, ACCELERATION_SCALE as int, d2);
        let accel = acceleration(radius, d2);
        lemma_scaled_sign(accel, dt, ONE as int);
        let gain = scaled(accel, dt, ONE as int);
        lemma_scaled_sign(gain, dx, dist);
        lemma_scaled_sign(gain, dy, dist);
    }
}

/// A scaled product has the sign of the product.
pub proof fn lemma_scaled_sign(a: int, b: int, c: int)
    requires
        c > 0,
    ensures
        (a >= 0 && b >= 0) || (a <= 0 && b <= 0) ==> scaled(a, b, c) >= 0,
        (a >= 0 && b <= 0) || (a <= 0 && b >= 0) ==> scaled(a, b, c) <= 0,
{
    let n = a * b;
    assert(((a >= 0 && b >= 0) || (a <= 0 && b <= 0) ==> n >= 0) && ((a >= 0 && b <= 0) || (a <= 0
        && b >= 0) ==> n <= 0)) by (nonlinear_arith)
        requires
            n == a * b,
    ;
    if n >= 0 {
        assert(n / c >= 0) by (nonlinear_arith)
            requires
                n >= 0,
                c > 0,
        ;
    } else {
        assert((-n) / c >= 0) by (nonlinear_arith)
            requires
                -n >= 0,
                c > 0,
        ;
    }
}

/// Farther from a body the acceleration toward it is never greater: for
/// squared distances `near <= far` from a body of fixed radius, the
/// acceleration at `far` is at most that at `near`. It is strictly smaller
/// wherever the exact quotients `strength / near` and `strength / far`
/// differ by at least one millionth, the resolution of the arithmetic.
pub proof fn law_gravity_weakens_with_distance(radius: int, near: int, far: int)
    requires
        radius >= 0,
        0 < near <= far,
    ensures
        acceleration(radius, far) <= acceleration(radius, near),
        strength(radius) * ACCELERATION_SCALE * (far - near) >= near * far ==> acceleration(
            radius,
            far,
        ) < acceleration(radius, near) || acceleration(radius, near) == i64::MAX,
{
    law_strength_is_not_negative(radius);
    let n = strength(radius) * ACCELERATION_SCALE;
    assert(n >= 0) by (nonlinear_arith)
        requires
            n == strength(radius) * 1_000_000_000_000_000,
            strength(radius) >= 0,
    ;
    assert(n / far <= n / near) by (nonlinear_arith)
        requires
            n >= 0,
            0 < near <= far,
    ;
    if n * (far - near) >= near * far {
        let qf = n / far;
        let qn = n / near;
        assert(qf < qn) by (nonlinear_arith)
            requires
                n >= 0,
                0 < near <= far,
                n * (far - near) >= near * far,
                qf == n / far,
                qn == n / near,
        ;
    }
}

/// A body at least as large as the reference body pulls at least as
/// strongly as it.
pub proof fn lemma_strength_of_large_bodies(radius: int)
    requires
        radius >= REFERENCE_RADIUS,
    ensures
        strength(radius) >= GRAVITY,
{
    let cube = radius * radius * radius;
    assert(cube >= 27_000_000_000_000_000_000_000int) by (nonlinear_arith)
        requires
            cube == radius * radius * radius,
            radius >= 30_000_000,
    ;
    let den = REFERENCE_RADIUS * REFERENCE_RADIUS * REFERENCE_RADIUS;
    assert(den == 27_000_000_000_000_000_000_000int) by (nonlinear_arith)
        requires
            den == 30_000_000int * 30_000_000int * 30_000_000int,
    ;
    assert(GRAVITY * cube >= 4_000_000_000_000_000 * 27_000_000_000_000_000_000_000int)
        by (nonlinear_arith)
        requires
            cube >= 27_000_000_000_000_000_000_000int,
    ;
}

/// Within reach of a game, every step away from a body weakens its pull
/// strictly: for a body at least as large as the reference body and any two
/// distances `near < far` of at most 15,000 units (in millionths), the
/// acceleration at `far` is strictly smaller than at `near`, unless the craft
/// is so close that the acceleration at `near` is out of range.
pub proof fn law_gravity_strictly_weaker_when_farther(radius: int, near: int, far: int)
    requires
        radius >= REFERENCE_RADIUS,
        0 < near < far <= 15_000 * ONE,
    ensures
        acceleration(radius, far * far) < acceleration(radius, near * near) || acceleration(
            radius,
            near * near,
        ) == i64::MAX,
{
    lemma_strength_of_large_bodies(radius);
    let g = strength(radius);
    let n = g * ACCELERATION_SCALE;
    assert(n >= 4_000_000_000_000_000_000_000_000_000_000int) by (nonlinear_arith)
        requires
            n == g * 1_000_000_000_000_000,
            g >= 4_000_000_000_000_000,
    ;
    let a = near * near;
    let b = far * far;
    assert(0 < a < b && b - a >= far) by (nonlinear_arith)
        requires
            0 < near < far,
            a == near * near,
            b == far * far,
    ;
    let w = a * far;
    assert(w <= 3_375_000_000_000_000_000_000_000_000_000int) by (nonlinear_arith)
        requires
            w == a * far,
            a == near * near,
            0 < near < far <= 15_000_000_000,
    ;
    assert(n * (b - a) >= a * b) by (nonlinear_arith)
        requires
            n >= w,
            w == a * far,
            b == far * far,
            b - a >= far,
            far > 0,
            a > 0,
            n >= 0,
    ;
    law_gravity_weakens_with_distance(radius, a, b);
}

/// Far beyond reach of a game the pull still weakens strictly with every
/// doubling of the squared distance: for a body at least as large as the
/// reference body and squared distances `near` and `far >= 2 near`, with the
/// nearer distance up to a thousand million units, the acceleration at `far`
/// is strictly smaller, unless that at `near` is out of range.
pub proof fn law_gravity_strictly_weaker_at_long_range(radius: int, near: int, far: int)
    requires
        radius >= REFERENCE_RADIUS,
        0 < near <= 1_000_000_000_000_000_000_000_000_000_000,
        far >= 2 * near,
    ensures
        acceleration(radius, far) < acceleration(radius, near) || acceleration(radius, near)
            == i64::MAX,
{
    lemma_strength_of_large_bodies(radius);
    let g = strength(radius);
    let n = g * ACCELERATION_SCALE;
    assert(n >= 4_000_000_000_000_000_000_000_000_000_000int) by (nonlinear_arith)
        requires
            n == g * 1_000_000_000_000_000,
            g >= 4_000_000_000_000_000,
    ;
    assert(n * (far - near) >= near * far) by (nonlinear_arith)
        requires
            n >= 2 * near,
            far >= 2 * near,
            near > 0,
    ;
    law_gravity_weakens_with_distance(radius, near, far);
}

/// Within a million units a body at least as large as the reference body is
/// felt in every step, however short: along an axis on which the craft is
/// level with the body, the change of velocity is not zero and points to the
/// body, and across that axis there is none.
pub proof fn law_gravity_is_felt(dx: int, radius: int, dt: int)
    requires
        radius >= REFERENCE_RADIUS,
        dx != 0,
        -1_000_000 * ONE <= dx <= 1_000_000 * ONE,
        dt >= 1,
    ensures
        dx > 0 ==> pull(dx, 0, radius, dt).0 > 0,
        dx < 0 ==> pull(dx, 0, radius, dt).0 < 0,
        pull(dx, 0, radius, dt).1 == 0,
        pull(0, dx, radius, dt).1 == pull(dx, 0, radius, dt).0,
        pull(0, dx, radius, dt).0 == 0,
{
    lemma_strength_of_large_bodies(radius);
    let side = if dx < 0 {
        -dx
    } else {
        dx
    };
    let d2 = dx * dx + 0 * 0;
    assert(d2 == side * side && 0 < d2 <= 1_000_000_000_000_000_000_000_000int && d2 == 0 * 0 + dx
        * dx) by (nonlinear_arith)
        requires
            d2 == dx * dx + 0 * 0,
            side == (if dx < 0 { -dx } else { dx }),
            0 < side <= 1_000_000_000_000,
    ;
    lemma_root_facts(d2, side);
    let g = strength(radius);
    let n = g * ACCELERATION_SCALE;
    assert(n / d2 >= 4_000_000) by (nonlinear_arith)
        requires
            n == g * 1_000_000_000_000_000,
            g >= 4_000_000_000_000_000,
            0 < d2 <= 1_000_000_000_000_000_000_000_000int,
    ;
    let accel = acceleration(radius, d2);
    assert(accel >= 4_000_000);
    assert(accel * dt >= 4_000_000) by (nonlinear_arith)
        requires
            accel >= 4_000_000,
            dt >= 1,
    ;
    let gain = scaled(accel, dt, ONE as int);
    assert(gain >= 4);
    assert((gain * side) / side == gain) by (nonlinear_arith)
        requires
            side > 0,
            gain >= 0,
    ;
    assert(gain * dx == (if dx < 0 { -(gain * side) } else { gain * side })) by (nonlinear_arith)
        requires
            side == (if dx < 0 { -dx } else { dx }),
    ;
    assert(gain * side >= 0) by (nonlinear_arith)
        requires
            gain >= 0,
            side > 0,
    ;
    lemma_scaled_zero(gain, side);
}

/// Gravity grows with the cube of the radius: a body of twice the radius
/// pulls eight times as strongly, up to the rounding of one division.
pub proof fn law_strength_scales_with_cube(radius: int)
    requires
        radius >= 0,
        strength(2 * radius) < i64::MAX,
    ensures
        8 * strength(radius) <= strength(2 * radius) <= 8 * strength(radius) + 7,
{
    let cube = radius * radius * radius;
    let den = REFERENCE_RADIUS * REFERENCE_RADIUS * REFERENCE_RADIUS;
    assert(cube >= 0) by (nonlinear_arith)
        requires
            cube == radius * radius * radius,
            radius >= 0,
    ;
    assert(den > 0) by (nonlinear_arith)
        requires
            den == 30_000_000int * 30_000_000int * 30_000_000int,
    ;
    let a = GRAVITY * cube;
    assert(a >= 0) by (nonlinear_arith)
        requires
            a == GRAVITY * cube,
            cube >= 0,
    ;
    assert((2 * radius) * (2 * radius) * (2 * radius) == 8 * cube) by (nonlinear_arith)
        requires
            cube == radius * radius * radius,
    ;
    assert(GRAVITY * (8 * cube) == 8 * a) by (nonlinear_arith)
        requires
            a == GRAVITY * cube,
    ;
    assert(8 * (a / den) <= (8 * a) / den <= 8 * (a / den) + 7) by (nonlinear_arith)
        requires
            a >= 0,
            den > 0,
    ;
    assert(a / den >= 0) by (nonlinear_arith)
        requires
            a >= 0,
            den > 0,
    ;
}

/// Along an axis on which the craft is level with the body, the whole change
/// of velocity lies along that axis: it is the acceleration times `dt`.
pub proof fn lemma_pull_along_axis(dx: int, radius: int, dt: int)
    requires
        radius >= 0,
        dx > 0,
        dt >= 0,
    ensures
        pull(dx, 0, radius, dt).0 == scaled(acceleration(radius, dx * dx), dt, ONE as int),
        pull(dx, 0, radius, dt).0 >= 0,
        acceleration(radius, dx * dx) >= 0,
{
    let d2 = dx * dx + 0 * 0;
    assert(d2 == dx * dx && d2 > 0) by (nonlinear_arith)
        requires
            d2 == dx * dx + 0 * 0,
            dx > 0,
    ;
    lemma_root_facts(d2, dx);
    law_strength_is_not_negative(radius);
    lemma_scaled_sign(strength(radius), ACCELERATION_SCALE as int, d2);
    let accel = acceleration(radius, d2);
    lemma_scaled_sign(accel, dt, ONE as int);
    let gain = scaled(accel, dt, ONE as int);
    assert((gain * dx) / dx == gain && gain * dx >= 0) by (nonlinear_arith)
        requires
            dx > 0,
            gain >= 0,
    ;
}

/// The pull follows the inverse square of the distance: at twice the
/// distance or more it is at most a quarter. So wherever a body is felt at
/// all, it is felt strictly less at twice the distance. (Stated along an
/// axis, for a pull that is within range.)
pub proof fn law_pull_quarters_at_twice_the_distance(near: int, far: int, radius: int, dt: int)
    requires
        radius >= 0,
        0 < near,
        far >= 2 * near,
        dt >= 0,
        acceleration(radius, near * near) < i64::MAX,
        pull(near, 0, radius, dt).0 < i64::MAX,
    ensures
        0 <= 4 * pull(far, 0, radius, dt).0 <= pull(near, 0, radius, dt).0,
        pull(near, 0, radius, dt).0 > 0 ==> pull(far, 0, radius, dt).0 < pull(
            near,
            0,
            radius,
            dt,
        ).0,
{
    lemma_pull_along_axis(near, radius, dt);
    lemma_pull_along_axis(far, radius, dt);
    law_strength_is_not_negative(radius);
    let a = near * near;
    let b = far * far;
    assert(0 < a && b >= 4 * a) by (nonlinear_arith)
        requires
            0 < near,
            far >= 2 * near,
            a == near * near,
            b == far * far,
    ;
    let n = strength(radius) * ACCELERATION_SCALE;
    assert(n >= 0) by (nonlinear_arith)
        requires
            n == strength(radius) * 1_000_000_000_000_000,
            strength(radius) >= 0,
    ;
    let qn = n / a;
    let qf = n / b;
    assert(0 <= 4 * qf <= qn) by (nonlinear_arith)
        requires
            n >= 0,
            0 < a,
            b >= 4 * a,
            qn == n / a,
            qf == n / b,
    ;
    let yn = qn * dt;
    let yf = qf * dt;
    assert(0 <= 4 * yf <= yn) by (nonlinear_arith)
        requires
            0 <= 4 * qf <= qn,
            dt >= 0,
            yn == qn * dt,
            yf == qf * dt,
    ;
}

/// Scaling eight times as much gives eight times as much, up to rounding:
/// if `more` is `8 * less` up to `slack`, then `more * b / c` is
/// `8 * (less * b / c)` up to `8 + slack * b / c`.
pub proof fn lemma_scaled_eightfold(less: int, more: int, slack: int, b: int, c: int)
    requires
        0 <= less,
        8 * less <= more <= 8 * less + slack,
        0 <= slack,
        0 <= b,
        0 < c,
    ensures
        8 * ((less * b) / c) <= (more * b) / c <= 8 * ((less * b) / c) + 8 + (slack * b) / c,
        0 <= (less * b) / c,
{
    let x = less * b;
    let y = more * b;
    let z = slack * b;
    assert(0 <= x && 8 * x <= y <= 8 * x + z && 0 <= z) by (nonlinear_arith)
        requires
            x == less * b,
            y == more * b,
            z == slack * b,
            0 <= less,
            8 * less <= more <= 8 * less + slack,
            0 <= slack,
            0 <= b,
    ;
    let q = x / c;
    let r = x % c;
    let zq = z / c;
    let zr = z % c;
    assert(x == q * c + r && 0 <= r < c && z == zq * c + zr && 0 <= zr < c && 0 <= q && 0 <= zq)
        by (nonlinear_arith)
        requires
            q == x / c,
            r == x % c,
            zq == z / c,
            zr == z % c,
            0 < c,
            0 <= x,
            0 <= z,
    ;
    assert((8 * q) * c <= y < (8 * q + 8 + zq + 1) * c) by (nonlinear_arith)
        requires
            x == q * c + r,
            0 <= r < c,
            z == zq * c + zr,
            0 <= zr < c,
            8 * x <= y <= 8 * x + z,
    ;
    let lo = 8 * q;
    let hi = 8 * q + 8 + zq + 1;
    assert(lo <= y / c < hi) by (nonlinear_arith)
        requires
            lo * c <= y < hi * c,
            0 < c,
    ;
}

/// Twice the radius gives eight times the change of velocity: for a craft at
/// least 32 units from the centre of the body and a step of up to one second,
/// the change of velocity along an axis toward a body of radius `2 r` is eight
/// times that toward a body of radius `r` there, up to 40 units of rounding
/// (40 millionths of a millionth), as long as neither is out of range.
pub proof fn law_pull_scales_with_cube(dx: int, dy: int, radius: int, dt: int)
    requires
        radius >= 0,
        dx >= 0,
        0 <= dt <= ONE,
        dx * dx + dy * dy >= ACCELERATION_SCALE,
        strength(2 * radius) < i64::MAX,
        acceleration(2 * radius, dx * dx + dy * dy) < i64::MAX,
    ensures
        8 * pull(dx, dy, radius, dt).0 <= pull(dx, dy, 2 * radius, dt).0 <= 8 * pull(
            dx,
            dy,
            radius,
            dt,
        ).0 + 40,
        0 <= pull(dx, dy, radius, dt).0,
{
    let d2 = dx * dx + dy * dy;
    lemma_root_facts(d2, 0);
    lemma_root_exists(d2);
    let dist = root(d2);
    law_strength_scales_with_cube(radius);
    law_strength_is_not_negative(radius);
    let g = strength(radius);
    let g2 = strength(2 * radius);
    let scale = ACCELERATION_SCALE as int;
    lemma_scaled_eightfold(g, g2, 7, scale, d2);
    assert((7 * scale) / d2 <= 7) by (nonlinear_arith)
        requires
            d2 >= scale,
            scale == 1_000_000_000_000_000,
    ;
    assert(g * scale >= 0 && g2 * scale >= 0) by (nonlinear_arith)
        requires
            g >= 0,
            g2 >= 0,
            scale > 0,
    ;
    let a = acceleration(radius, d2);
    let a2 = acceleration(2 * radius, d2);
    assert(a2 == (g2 * scale) / d2);
    assert(a == (g * scale) / d2);
    lemma_scaled_eightfold(a, a2, 15, dt, ONE as int);
    assert((15 * dt) / (ONE as int) <= 15);
    assert(a * dt >= 0 && a2 * dt >= 0) by (nonlinear_arith)
        requires
            a >= 0,
            a2 >= 0,
            dt >= 0,
    ;
    assert(a2 * dt <= a2 * 1_000_000) by (nonlinear_arith)
        requires
            a2 >= 0,
            0 <= dt <= 1_000_000,
    ;
    let gain = scaled(a, dt, ONE as int);
    let gain2 = scaled(a2, dt, ONE as int);
    assert(gain2 == (a2 * dt) / (ONE as int));
    assert(gain == (a * dt) / (ONE as int));
    lemma_scaled_eightfold(gain, gain2, 23, dx, dist);
    assert(dx <= dist) by (nonlinear_arith)
        requires
            0 <= dx,
            0 <= dist,
            d2 == dx * dx + dy * dy,
            d2 < (dist + 1) * (dist + 1),
    ;
    assert((23 * dx) / dist <= 23) by (nonlinear_arith)
        requires
            0 <= dx <= dist,
            dist > 0,
    ;
    assert(gain * dx >= 0 && gain2 * dx >= 0 && gain2 * dx <= gain2 * dist) by (nonlinear_arith)
        requires
            gain >= 0,
            gain2 >= 0,
            0 <= dx <= dist,
    ;
    assert((gain2 * dx) / dist <= gain2) by (nonlinear_arith)
        requires
            0 <= gain2 * dx <= gain2 * dist,
            dist > 0,
            gain2 >= 0,
    ;
}

/// With an empty tank the engine accelerates the craft exactly twice as much
/// as with a full one: 20 against 10.
pub proof fn law_empty_tank_doubles_thrust()
    ensures
        thrust_acceleration(0) == 2 * THRUST_FORCE,
        thrust_acceleration(FUEL_BAND as int) == THRUST_FORCE,
        thrust_acceleration(0) == 2 * thrust_acceleration(FUEL_BAND as int),
{
    assert((2 * THRUST_FORCE) * FUEL_BAND == 400_000_000_000_000_000_000int);
    assert(FUEL_BAND + 0 == 20_000_000int);
    assert(FUEL_BAND + FUEL_BAND == 40_000_000int);
}

/// The less fuel is aboard, the more the engine accelerates the craft.
pub proof fn law_thrust_grows_as_fuel_burns(less: int, more: int)
    requires
        0 <= less <= more,
    ensures
        thrust_acceleration(more) <= thrust_acceleration(less),
{
    let n = (2 * THRUST_FORCE) * FUEL_BAND;
    assert(n == 400_000_000_000_000_000_000int);
    let a = FUEL_BAND + less;
    let b = FUEL_BAND + more;
    assert(n / b <= n / a) by (nonlinear_arith)
        requires
            n >= 0,
            0 < a <= b,
    ;
}

/// Every bit of fuel less gives strictly more thrust: over a tank of up to a
/// hundred times the full one, less fuel aboard means a strictly greater
/// acceleration.
pub proof fn law_thrust_strictly_grows_as_fuel_burns(less: int, more: int)
    requires
        0 <= less < more <= 100 * FUEL_BAND,
    ensures
        thrust_acceleration(more) < thrust_acceleration(less),
        THRUST_FORCE <= thrust_acceleration(FUEL_BAND as int),
        less <= FUEL_BAND ==> THRUST_FORCE <= thrust_acceleration(less) <= 2 * THRUST_FORCE,
{
    let n = (2 * THRUST_FORCE) * FUEL_BAND;
    assert(n == 400_000_000_000_000_000_000int);
    let a = FUEL_BAND + less;
    let b = FUEL_BAND + more;
    let qa = n / a;
    let qb = n / b;
    assert(qb < qa) by (nonlinear_arith)
        requires
            n == 400_000_000_000_000_000_000int,
            20_000_000 <= a < b <= 2_020_000_000,
            qa == n / a,
            qb == n / b,
    ;
    assert(10_000_000_000_000 <= qa <= 20_000_000_000_000 || a > 40_000_000)
        by (nonlinear_arith)
        requires
            n == 400_000_000_000_000_000_000int,
            20_000_000 <= a,
            qa == n / a,
    ;
    assert(0 <= qb && qa <= 20_000_000_000_000) by (nonlinear_arith)
        requires
            n == 400_000_000_000_000_000_000int,
            20_000_000 <= a < b,
            qa == n / a,
            qb == n / b,
    ;
    law_empty_tank_doubles_thrust();
}

/// What the engine adds to the speed of the craft over `dt`.
pub open spec fn burn(rocket: Rocket, dt: int) -> int {
    scaled(thrust_acceleration(rocket.fuel as int), dt, ONE as int)
}

/// The engine pushes where the craft points: straight up the screen at an
/// orientation of zero, and to the right at a quarter turn, each with the
/// whole of its acceleration.
pub proof fn law_thrust_follows_orientation(rocket: Rocket, dt: int)
    requires
        rocket.wf(),
        i64::MIN <= dt <= i64::MAX,
    ensures
        rocket.orientation == 0 ==> after_thrust(rocket, dt) == (Rocket {
            speed_y: difference(rocket.speed_y as int, burn(rocket, dt)) as i64,
            ..rocket
        }),
        rocket.orientation == QUARTER_TURN ==> after_thrust(rocket, dt) == (Rocket {
            speed_x: sum(rocket.speed_x as int, burn(rocket, dt)) as i64,
            ..rocket
        }),
{
    law_quarter_turns();
    let gain = burn(rocket, dt);
    lemma_scaled_zero(gain, ONE as int);
    assert(scaled(ONE as int, gain, ONE as int) == gain) by {
        assert(ONE * gain == gain * 1_000_000) by (nonlinear_arith);
    }
}

/// The engine shuts off exactly when the burn of this step uses up the fuel,
/// and never before: a burning engine stays on if and only if fuel is left
/// after the step, and fuel is left if and only if the step was shorter than
/// the fuel would last. An engine that does not burn is left as it is.
pub proof fn law_engine_shuts_off_when_empty(rocket: Rocket, dt: int)
    requires
        rocket.wf(),
        i64::MIN <= dt <= i64::MAX,
    ensures
        rocket.engine_on && rocket.fuel > 0 ==> {
            &&& after_engine(rocket, dt).engine_on == (after_engine(rocket, dt).fuel > 0)
            &&& (after_engine(rocket, dt).fuel == 0) == (dt >= rocket.fuel)
            &&& after_engine(rocket, dt).fuel == fuel_after(rocket.fuel as int, dt)
        },
        !(rocket.engine_on && rocket.fuel > 0) ==> after_engine(rocket, dt) == rocket,
        after_engine(rocket, dt).fuel >= 0,
{
}

/// A collision is strict: a craft whose centre is exactly one radius from the
/// centre of a body does not collide with it, one that is nearer does, and
/// one that is farther does not.
pub proof fn law_collision_is_strict(rocket: Rocket, planet: Planet)
    ensures
        ({
            let dx = rocket.x - planet.x;
            let dy = rocket.y - planet.y;
            let d2 = dx * dx + dy * dy;
            let r2 = planet.radius * planet.radius;
            &&& d2 == r2 ==> !collides(rocket, planet)
            &&& d2 < r2 ==> collides(rocket, planet)
            &&& d2 > r2 ==> !collides(rocket, planet)
        }),
{
}

/// A win under a speed limit needs all three of being inside the circle,
/// being slower than the limit and having the engine off: the craft wins if
/// and only if all three hold, so losing any one of them loses the win.
pub proof fn law_win_needs_all_three(rocket: Rocket, x: i64, y: i64, radius: i64, max_speed: i64)
    ensures
        ({
            let condition = WinCondition::Circle { x, y, radius, max_speed };
            let inside = within(
                rocket.x as int,
                rocket.y as int,
                x as int,
                y as int,
                radius as int,
            );
            let slow = slower_than(rocket, max_speed as int);
            &&& wins(rocket, condition) == (inside && slow && !rocket.engine_on)
            &&& !inside ==> !wins(rocket, condition)
            &&& !slow ==> !wins(rocket, condition)
            &&& rocket.engine_on ==> !wins(rocket, condition)
        }),
{
}

/// Under no condition does a craft win while its engine is on, and switching
/// the engine of a winning craft on loses the win.
pub proof fn law_engine_on_never_wins(rocket: Rocket, condition: WinCondition)
    ensures
        rocket.engine_on ==> !wins(rocket, condition),
        !wins(Rocket { engine_on: true, ..rocket }, condition),
        wins(rocket, condition) ==> wins(coasting(rocket), condition),
{
}

/// Where the condition sets no speed limit, the speed of the craft does not
/// matter.
pub proof fn law_any_speed_ignores_speed(rocket: Rocket, x: i64, y: i64, radius: i64, vx: i64, vy: i64)
    ensures
        ({
            let condition = WinCondition::CircleAnySpeed { x, y, radius };
            wins(Rocket { speed_x: vx, speed_y: vy, ..rocket }, condition) == wins(
                rocket,
                condition,
            )
        }),
{
}

/// Where a coordinate stands after the first `n` steps of a projection, if
/// nothing changes the speed along it: each step adds the speed times the
/// length of the step.
pub open spec fn coasted(start: int, speed: int, duration: int, steps: nat, n: nat) -> int
    decreases n,
{
    if n == 0 {
        start
    } else {
        sum(
            coasted(start, speed, duration, steps, (n - 1) as nat),
            scaled(speed, step_span(duration, steps, n), FINE as int),
        )
    }
}

/// A coordinate along which the craft has no speed stays where it is.
pub proof fn law_rest_stays(start: int, duration: int, steps: nat, n: nat)
    requires
        i64::MIN <= start <= i64::MAX,
    ensures
        coasted(start, 0, duration, steps, n) == start,
    decreases n,
{
    if n > 0 {
        law_rest_stays(start, duration, steps, (n - 1) as nat);
        lemma_scaled_zero(step_span(duration, steps, n), FINE as int);
    }
}

/// The steps of a projection end where the projection ends: the last step
/// ends exactly `duration` after the start.
pub proof fn law_steps_cover_the_duration(duration: int, steps: nat)
    requires
        steps > 0,
    ensures
        step_offset(duration, steps, steps) == duration,
{
    reveal(step_offset);
    let s = steps as int;
    if duration >= 0 {
        assert((s * duration) / s == duration) by (nonlinear_arith)
            requires
                s > 0,
                duration >= 0,
        ;
        assert(s * duration >= 0) by (nonlinear_arith)
            requires
                s > 0,
                duration >= 0,
        ;
    } else {
        let m = -duration;
        assert((s * m) / s == m) by (nonlinear_arith)
            requires
                s > 0,
                m >= 0,
        ;
        assert(s * duration == -(s * m) && s * duration < 0) by (nonlinear_arith)
            requires
                s > 0,
                m == -duration,
                duration < 0,
        ;
    }
}

/// In empty space a drifting craft keeps its velocity and moves in every
/// step by its velocity times the length of the step: it flies a straight
/// line.
pub proof fn law_drift_in_empty_space(
    sim: Rocket,
    defs: Seq<PlanetDef>,
    duration: int,
    steps: nat,
    start: int,
    n: nat,
)
    requires
        defs.len() == 0,
    ensures
        drifted(sim, defs, duration, steps, start, n) == (Rocket {
            x: coasted(sim.x as int, sim.speed_x as int, duration, steps, n) as i64,
            y: coasted(sim.y as int, sim.speed_y as int, duration, steps, n) as i64,
            ..sim
        }),
        i64::MIN <= coasted(sim.x as int, sim.speed_x as int, duration, steps, n) <= i64::MAX,
        i64::MIN <= coasted(sim.y as int, sim.speed_y as int, duration, steps, n) <= i64::MAX,
    decreases n,
{
    if n > 0 {
        law_drift_in_empty_space(sim, defs, duration, steps, start, (n - 1) as nat);
    }
}

/// With no bodies the projected path is a straight line of exactly `steps`
/// points: each point lies where the velocity carries the craft in the time
/// up to it. A craft that does not move vertically stays at its height along
/// the whole path.
pub proof fn law_projection_in_empty_space(
    rocket: Rocket,
    defs: Seq<PlanetDef>,
    duration: int,
    steps: nat,
    start: int,
    i: int,
)
    requires
        defs.len() == 0,
        0 <= i < steps,
    ensures
        projection(rocket, defs, duration, steps, start).len() == steps,
        ({
            let point = projection(rocket, defs, duration, steps, start)[i];
            &&& point.0 == coasted(
                rocket.x as int,
                rocket.speed_x as int,
                duration,
                steps,
                (i + 1) as nat,
            )
            &&& point.1 == coasted(
                rocket.y as int,
                rocket.speed_y as int,
                duration,
                steps,
                (i + 1) as nat,
            )
            &&& rocket.speed_y == 0 ==> point.1 == rocket.y
            &&& rocket.speed_x == 0 ==> point.0 == rocket.x
        }),
{
    law_drift_in_empty_space(coasting(rocket), defs, duration, steps, start, (i + 1) as nat);
    law_rest_stays(rocket.y as int, duration, steps, (i + 1) as nat);
    law_rest_stays(rocket.x as int, duration, steps, (i + 1) as nat);
}

/// The projected path does not depend on whether the engine is on: thrust is
/// never part of the projection.
pub proof fn law_projection_ignores_engine(
    rocket: Rocket,
    defs: Seq<PlanetDef>,
    duration: int,
    steps: nat,
    start: int,
)
    ensures
        projection(Rocket { engine_on: true, ..rocket }, defs, duration, steps, start)
            == projection(Rocket { engine_on: false, ..rocket }, defs, duration, steps, start),
        projection(rocket, defs, duration, steps, start) == projection(
            coasting(rocket),
            defs,
            duration,
            steps,
            start,
        ),
{
    assert(coasting(Rocket { engine_on: true, ..rocket }) == coasting(rocket));
    assert(coasting(Rocket { engine_on: false, ..rocket }) == coasting(rocket));
    assert(coasting(coasting(rocket)) == coasting(rocket));
    assert(projection(Rocket { engine_on: true, ..rocket }, defs, duration, steps, start)
        =~= projection(Rocket { engine_on: false, ..rocket }, defs, duration, steps, start));
    assert(projection(rocket, defs, duration, steps, start) =~= projection(
        coasting(rocket),
        defs,
        duration,
        steps,
        start,
    ));
}

/// A step of the projection is a step of the simulation for a craft whose
/// engine is off: what is projected is what the craft will do if it coasts
/// and the bodies are where the projection puts them.
pub proof fn law_projection_steps_as_simulation(rocket: Rocket, planets: Seq<Planet>, dt: int)
    requires
        !rocket.engine_on,
    ensures
        integrated(rocket, planets, dt) == after_move(after_gravity_all(rocket, planets, dt), dt),
        !integrated(rocket, planets, dt).engine_on,
{
    lemma_gravity_keeps(rocket, planets, dt);
}

} // verus!

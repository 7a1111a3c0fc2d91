//! One step of the simulation: gravity, thrust, motion, and the tests that end
//! a round.

use vstd::prelude::*;
use crate::fixed::{
    add_sat, clamp, difference, isqrt, magnitude, mul_div, quotient, root, saturate, scaled,
    sub_sat, sum, FINE, ONE,
};
use crate::state::{bodies_at, GameState, Planet, PlanetDef, Rocket, WinCondition};
use crate::trig::{cos_deg, cosine, sin_deg, sine};

verus! {

/// The pull of a body of the reference radius, one unit away: 4,000,000, in
/// thousand-millionths.
pub const GRAVITY: i64 = 4_000_000_000_000_000;

/// What brings a strength in thousand-millionths, divided by a squared
/// distance in squared millionths, to an acceleration in the unit `FINE`.
pub const ACCELERATION_SCALE: i64 = 1_000_000_000_000_000;

/// The radius at which a body pulls with `GRAVITY`: 30.
pub const REFERENCE_RADIUS: i64 = 30_000_000;

/// The force of the engine: 10, in the unit `FINE`.
pub const THRUST_FORCE: i64 = 10_000_000_000_000;

/// The fuel of a full tank, at which the craft has mass one: 20.
pub const FUEL_BAND: i64 = 20_000_000;

/// What a step of the simulation may report.
#[derive(Clone, Copy, Debug, PartialEq, Eq)]
pub enum PhysicsEvent {
    /// The craft ran into a body and was put back to the start.
    Collision,
    /// The craft met the condition of the level.
    Win,
}

/// How strongly a body of the given radius pulls, in thousand-millionths:
/// `GRAVITY * (radius / REFERENCE_RADIUS)^3`. It is within range for radii
/// up to 396 units.
pub open spec fn strength(radius: int) -> int {
    saturate(
        quotient(
            GRAVITY * (radius * radius * radius),
            REFERENCE_RADIUS * REFERENCE_RADIUS * REFERENCE_RADIUS,
        ),
    )
}

/// The acceleration toward a body of the given radius, in the unit `FINE`,
/// where `d2` is the square of the distance to its centre (in squared
/// millionths): `strength / distance^2`.
pub open spec fn acceleration(radius: int, d2: int) -> int {
    scaled(strength(radius), ACCELERATION_SCALE as int, d2)
}

/// The change of velocity that a body of the given radius causes over `dt`
/// in a craft from which the body's centre lies `(dx, dy)` away: the
/// acceleration times `dt`, along the unit vector toward the centre. A craft
/// exactly at the centre is not pulled at all.
pub open spec fn pull(dx: int, dy: int, radius: int, dt: int) -> (int, int) {
    let d2 = dx * dx + dy * dy;
    if d2 == 0 {
        (0, 0)
    } else {
        let gain = scaled(acceleration(radius, d2), dt, ONE as int);
        (scaled(gain, dx, root(d2)), scaled(gain, dy, root(d2)))
    }
}

/// The craft after the pull of one body over `dt`.
pub open spec fn after_gravity(rocket: Rocket, planet: Planet, dt: int) -> Rocket {
    let dx = difference(planet.x as int, rocket.x as int);
    let dy = difference(planet.y as int, rocket.y as int);
    let dv = pull(dx, dy, planet.radius as int, dt);
    Rocket {
        speed_x: sum(rocket.speed_x as int, dv.0) as i64,
        speed_y: sum(rocket.speed_y as int, dv.1) as i64,
        ..rocket
    }
}

/// The acceleration of the engine with the given fuel aboard, in the unit
/// `FINE`: force over mass, where the mass is `1/2 + 1/2 * fuel / FUEL_BAND`.
pub open spec fn thrust_acceleration(fuel: int) -> int {
    scaled(2 * THRUST_FORCE, FUEL_BAND as int, FUEL_BAND + fuel)
}

/// The craft after its engine has pushed for `dt` along its orientation:
/// `sin` of the orientation to the right, `cos` of it up the screen. The
/// sine and the cosine are the approximations `sine` and `cosine`, each
/// within a millionth of the true value.
pub open spec fn after_thrust(rocket: Rocket, dt: int) -> Rocket {
    let gain = scaled(thrust_acceleration(rocket.fuel as int), dt, ONE as int);
    Rocket {
        speed_x: sum(
            rocket.speed_x as int,
            scaled(sine(rocket.orientation as int), gain, ONE as int),
        ) as i64,
        speed_y: difference(
            rocket.speed_y as int,
            scaled(cosine(rocket.orientation as int), gain, ONE as int),
        ) as i64,
        ..rocket
    }
}

/// The fuel that is left after burning for `dt`.
pub open spec fn fuel_after(fuel: int, dt: int) -> int {
    if difference(fuel, dt) < 0 {
        0
    } else {
        difference(fuel, dt)
    }
}

/// The craft after the engine's part of a step. An engine that is on and has
/// fuel pushes, burns `dt` of fuel, and shuts off if none is left; otherwise
/// nothing changes.
pub open spec fn after_engine(rocket: Rocket, dt: int) -> Rocket {
    if rocket.engine_on && rocket.fuel > 0 {
        let fuel = fuel_after(rocket.fuel as int, dt);
        Rocket { fuel: fuel as i64, engine_on: fuel != 0, ..after_thrust(rocket, dt) }
    } else {
        rocket
    }
}

/// The craft after moving for `dt` at its velocity.
pub open spec fn after_move(rocket: Rocket, dt: int) -> Rocket {
    Rocket {
        x: sum(rocket.x as int, scaled(rocket.speed_x as int, dt, FINE as int)) as i64,
        y: sum(rocket.y as int, scaled(rocket.speed_y as int, dt, FINE as int)) as i64,
        ..rocket
    }
}

/// The craft after each of the bodies has pulled on it for `dt`, in their
/// order.
pub open spec fn after_gravity_all(rocket: Rocket, planets: Seq<Planet>, dt: int) -> Rocket
    decreases planets.len(),
{
    if planets.len() == 0 {
        rocket
    } else {
        after_gravity(after_gravity_all(rocket, planets.drop_last(), dt), planets.last(), dt)
    }
}

/// The craft after one step of length `dt`: the pull of every body, then the
/// engine, then the motion.
pub open spec fn integrated(rocket: Rocket, planets: Seq<Planet>, dt: int) -> Rocket {
    after_move(after_engine(after_gravity_all(rocket, planets, dt), dt), dt)
}

/// The craft with its engine switched off.
pub open spec fn coasting(rocket: Rocket) -> Rocket {
    Rocket { engine_on: false, ..rocket }
}

/// How far into a projection of `steps` steps over `duration` its `n`-th
/// step ends: `n / steps` of `duration`, to the millionth.
#[verifier::opaque]
pub open spec fn step_offset(duration: int, steps: nat, n: nat) -> int {
    quotient(n * duration, steps as int)
}

/// The time at which the `n`-th step of a projection ends that starts at
/// `start`.
pub open spec fn step_time(start: int, duration: int, steps: nat, n: nat) -> int {
    saturate(start + step_offset(duration, steps, n))
}

/// The length of the `n`-th step of a projection, `n >= 1`: from the end of
/// the step before to its own end. Each step is within a millionth of
/// `duration / steps`, and together the steps take exactly `duration`.
pub open spec fn step_span(duration: int, steps: nat, n: nat) -> int {
    saturate(step_offset(duration, steps, n) - step_offset(duration, steps, (n - 1) as nat))
}

/// The craft after the first `n` steps of drifting through a projection of
/// `steps` steps over `duration`: in each step the bodies stand where they
/// will be at the end of that step, pull on the craft, and the craft moves.
/// The engine takes no part.
pub open spec fn drifted(
    sim: Rocket,
    defs: Seq<PlanetDef>,
    duration: int,
    steps: nat,
    start: int,
    n: nat,
) -> Rocket
    decreases n,
{
    if n == 0 {
        sim
    } else {
        let before = drifted(sim, defs, duration, steps, start, (n - 1) as nat);
        let dt = step_span(duration, steps, n);
        let bodies = bodies_at(defs, step_time(start, duration, steps, n));
        after_move(after_gravity_all(before, bodies, dt), dt)
    }
}

/// The path along which the craft would drift from now on with its engine
/// off: its position after each of `steps` steps over `duration`.
pub open spec fn projection(
    rocket: Rocket,
    defs: Seq<PlanetDef>,
    duration: int,
    steps: nat,
    start: int,
) -> Seq<(i64, i64)> {
    Seq::new(
        steps,
        |i: int|
            {
                let sim = drifted(
                    coasting(rocket),
                    defs,
                    duration,
                    steps,
                    start,
                    (i + 1) as nat,
                );
                (sim.x, sim.y)
            },
    )
}

/// The point `(px, py)` lies strictly inside the circle around `(cx, cy)`.
pub open spec fn within(px: int, py: int, cx: int, cy: int, radius: int) -> bool {
    (px - cx) * (px - cx) + (py - cy) * (py - cy) < radius * radius
}

/// The craft's centre lies strictly inside the body.
pub open spec fn collides(rocket: Rocket, planet: Planet) -> bool {
    within(
        rocket.x as int,
        rocket.y as int,
        planet.x as int,
        planet.y as int,
        planet.radius as int,
    )
}

/// The craft is slower than `max_speed`.
pub open spec fn slower_than(rocket: Rocket, max_speed: int) -> bool {
    max_speed > 0 && within(rocket.speed_x as int, rocket.speed_y as int, 0, 0, max_speed)
}

/// The craft meets the condition: inside the circle, engine off, and, where
/// the condition limits the speed, slower than that.
pub open spec fn wins(rocket: Rocket, condition: WinCondition) -> bool {
    match condition {
        WinCondition::Circle { x, y, radius, max_speed } => {
            &&& within(rocket.x as int, rocket.y as int, x as int, y as int, radius as int)
            &&& slower_than(rocket, max_speed as int)
            &&& !rocket.engine_on
        },
        WinCondition::CircleAnySpeed { x, y, radius } => {
            &&& within(rocket.x as int, rocket.y as int, x as int, y as int, radius as int)
            &&& !rocket.engine_on
        },
    }
}

/// The craft is inside one of the bodies.
pub open spec fn hits_any(rocket: Rocket, planets: Seq<Planet>) -> bool {
    exists|i: int| 0 <= i < planets.len() && collides(rocket, #[trigger] planets[i])
}

/// Gravity changes the velocity of the craft and nothing else.
pub proof fn lemma_gravity_keeps(rocket: Rocket, planets: Seq<Planet>, dt: int)
    ensures
        after_gravity_all(rocket, planets, dt) == (Rocket {
            speed_x: after_gravity_all(rocket, planets, dt).speed_x,
            speed_y: after_gravity_all(rocket, planets, dt).speed_y,
            ..rocket
        }),
    decreases planets.len(),
{
    if planets.len() > 0 {
        lemma_gravity_keeps(rocket, planets.drop_last(), dt);
    }
}

/// The pull of one more body comes after the pull of those before it.
pub proof fn lemma_gravity_next(rocket: Rocket, planets: Seq<Planet>, dt: int, i: int)
    requires
        0 <= i < planets.len(),
    ensures
        after_gravity_all(rocket, planets.take(i + 1), dt) == after_gravity(
            after_gravity_all(rocket, planets.take(i), dt),
            planets[i],
            dt,
        ),
{
    assert(planets.take(i + 1).drop_last() == planets.take(i));
}

/// Computes how strongly a body of the given radius pulls.
pub fn gravity_of(radius: i64) -> (g: i64)
    ensures
        g == strength(radius as int),
{
    let m: u128 = magnitude(radius);
    let ghost cube_int: int = m * m * m;
    let ghost den: int = REFERENCE_RADIUS * REFERENCE_RADIUS * REFERENCE_RADIUS;
    proof {
        assert(den == 27_000_000_000_000_000_000_000int) by (nonlinear_arith)
            requires
                den == 30_000_000int * 30_000_000int * 30_000_000int,
        ;
        let r = radius as int;
        assert(r * r * r == (if r < 0 { -cube_int } else { cube_int })) by (nonlinear_arith)
            requires
                m == (if r < 0 { -r } else { r }),
                cube_int == m * m * m,
        ;
        assert(GRAVITY * (r * r * r) == (if r < 0 {
            -(GRAVITY * cube_int)
        } else {
            GRAVITY * cube_int
        })) by (nonlinear_arith)
            requires
                r * r * r == (if r < 0 { -cube_int } else { cube_int }),
        ;
        assert(cube_int >= 0) by (nonlinear_arith)
            requires
                cube_int == m * m * m,
                m >= 0,
        ;
    }
    if m >= 1_000_000_000 {
        proof {
            assert(cube_int >= 1_000_000_000_000_000_000_000_000_000int) by (nonlinear_arith)
                requires
                    cube_int == m * m * m,
                    m >= 1_000_000_000,
            ;
            assert(GRAVITY * cube_int >= 4_000_000_000_000_000
                * 1_000_000_000_000_000_000_000_000_000int) by (nonlinear_arith)
                requires
                    cube_int >= 1_000_000_000_000_000_000_000_000_000int,
            ;
        }
        if radius < 0 {
            i64::MIN
        } else {
            i64::MAX
        }
    } else {
        assert(m * m * m < 1_000_000_000_000_000_000_000_000_000int) by (nonlinear_arith)
            requires
                0 <= m < 1_000_000_000,
        ;
        assert(m * m <= m * m * m || m == 0) by (nonlinear_arith)
            requires
                0 <= m,
        ;
        let cube: u128 = m * m * m;
        let q: u128 = (4 * cube) / 27_000_000;
        proof {
            vstd::arithmetic::div_mod::lemma_div_multiples_vanish_quotient(
                1_000_000_000_000_000,
                4 * cube_int,
                27_000_000,
            );
            assert(GRAVITY * cube_int == 1_000_000_000_000_000 * (4 * cube_int))
                by (nonlinear_arith);
        }
        if radius < 0 {
            clamp(-(q as i128))
        } else {
            clamp(q as i128)
        }
    }
}

/// Computes the change of velocity that a body causes over `dt`.
pub fn pull_of(dx: i64, dy: i64, radius: i64, dt: i64) -> (dv: (i64, i64))
    ensures
        dv.0 == pull(dx as int, dy as int, radius as int, dt as int).0,
        dv.1 == pull(dx as int, dy as int, radius as int, dt as int).1,
{
    let ax: u128 = magnitude(dx);
    let ay: u128 = magnitude(dy);
    assert(ax * ax <= 0x4000_0000_0000_0000_0000_0000_0000_0000 && ax * ax == dx * dx)
        by (nonlinear_arith)
        requires
            ax <= 0x8000_0000_0000_0000,
            ax == (if dx < 0 { -(dx as int) } else { dx as int }),
    ;
    assert(ay * ay <= 0x4000_0000_0000_0000_0000_0000_0000_0000 && ay * ay == dy * dy)
        by (nonlinear_arith)
        requires
            ay <= 0x8000_0000_0000_0000,
            ay == (if dy < 0 { -(dy as int) } else { dy as int }),
    ;
    let d2: u128 = ax * ax + ay * ay;
    if d2 == 0 {
        return (0, 0);
    }
    let accel: i64 = mul_div(gravity_of(radius), ACCELERATION_SCALE, d2);
    let gain: i64 = mul_div(accel, dt, ONE as u128);
    let dist: u128 = isqrt(d2);
    assert(dist > 0) by (nonlinear_arith)
        requires
            d2 >= 1,
            d2 < (dist + 1) * (dist + 1),
            dist >= 0,
    ;
    (mul_div(gain, dx, dist), mul_div(gain, dy, dist))
}

/// Lets one body pull on the craft for `dt`.
pub fn apply_gravity(rocket: &mut Rocket, planet: &Planet, dt: i64)
    ensures
        *final(rocket) == after_gravity(*old(rocket), *planet, dt as int),
{
    let dx: i64 = sub_sat(planet.x, rocket.x);
    let dy: i64 = sub_sat(planet.y, rocket.y);
    let dv: (i64, i64) = pull_of(dx, dy, planet.radius, dt);
    rocket.speed_x = add_sat(rocket.speed_x, dv.0);
    rocket.speed_y = add_sat(rocket.speed_y, dv.1);
}

/// The acceleration that the engine gives the craft with its present fuel.
pub fn engine_accel(rocket: &Rocket) -> (accel: i64)
    requires
        rocket.fuel >= 0,
    ensures
        accel == thrust_acceleration(rocket.fuel as int),
{
    let mass: u128 = FUEL_BAND as u128 + rocket.fuel as u128;
    mul_div(2 * THRUST_FORCE, FUEL_BAND, mass)
}

/// Pushes the craft along its orientation for `dt`.
pub fn apply_thrust(rocket: &mut Rocket, dt: i64)
    requires
        old(rocket).fuel >= 0,
    ensures
        *final(rocket) == after_thrust(*old(rocket), dt as int),
{
    let accel: i64 = engine_accel(rocket);
    let gain: i64 = mul_div(accel, dt, ONE as u128);
    let right: i64 = mul_div(sin_deg(rocket.orientation), gain, ONE as u128);
    let up: i64 = mul_div(cos_deg(rocket.orientation), gain, ONE as u128);
    rocket.speed_x = add_sat(rocket.speed_x, right);
    rocket.speed_y = sub_sat(rocket.speed_y, up);
}

/// Runs the engine for `dt`, if it is on and has fuel.
pub fn apply_engine(rocket: &mut Rocket, dt: i64)
    requires
        old(rocket).fuel >= 0,
    ensures
        *final(rocket) == after_engine(*old(rocket), dt as int),
        final(rocket).fuel >= 0,
{
    if rocket.engine_on && rocket.fuel > 0 {
        apply_thrust(rocket, dt);
        let left: i64 = sub_sat(rocket.fuel, dt);
        rocket.fuel = if left < 0 {
            0
        } else {
            left
        };
        if rocket.fuel == 0 {
            rocket.engine_on = false;
        }
    }
}

/// Moves the craft for `dt` at its velocity.
pub fn move_rocket(rocket: &mut Rocket, dt: i64)
    ensures
        *final(rocket) == after_move(*old(rocket), dt as int),
{
    rocket.x = add_sat(rocket.x, mul_div(rocket.speed_x, dt, FINE as u128));
    rocket.y = add_sat(rocket.y, mul_div(rocket.speed_y, dt, FINE as u128));
}

/// Tests whether a point lies strictly inside a circle.
pub fn is_within(px: i64, py: i64, cx: i64, cy: i64, radius: i64) -> (inside: bool)
    ensures
        inside == within(px as int, py as int, cx as int, cy as int, radius as int),
{
    let dx: i128 = px as i128 - cx as i128;
    let dy: i128 = py as i128 - cy as i128;
    let ax: i128 = if dx < 0 {
        -dx
    } else {
        dx
    };
    let ay: i128 = if dy < 0 {
        -dy
    } else {
        dy
    };
    let r: i128 = magnitude(radius) as i128;
    assert(r * r == radius * radius) by (nonlinear_arith)
        requires
            r == (if radius < 0 { -(radius as int) } else { radius as int }),
    ;
    assert(ax * ax == dx * dx) by (nonlinear_arith)
        requires
            ax == (if dx < 0 { -dx } else { dx as int }),
    ;
    assert(ay * ay == dy * dy) by (nonlinear_arith)
        requires
            ay == (if dy < 0 { -dy } else { dy as int }),
    ;
    if ax >= r || ay >= r {
        assert(ax * ax + ay * ay >= r * r) by (nonlinear_arith)
            requires
                0 <= r,
                0 <= ax,
                0 <= ay,
                ax >= r || ay >= r,
        ;
        false
    } else {
        assert(0 <= ax * ax <= 0x3fff_ffff_ffff_ffff_0000_0000_0000_0001) by (nonlinear_arith)
            requires
                0 <= ax <= 0x7fff_ffff_ffff_ffff,
        ;
        assert(0 <= ay * ay <= 0x3fff_ffff_ffff_ffff_0000_0000_0000_0001) by (nonlinear_arith)
            requires
                0 <= ay <= 0x7fff_ffff_ffff_ffff,
        ;
        assert(0 <= r * r <= 0x4000_0000_0000_0000_0000_0000_0000_0000) by (nonlinear_arith)
            requires
                0 <= r <= 0x8000_0000_0000_0000,
        ;
        ax * ax + ay * ay < r * r
    }
}

/// Tests whether the craft's centre lies strictly inside the body; touching
/// its surface is no collision.
pub fn check_collision(rocket: &Rocket, planet: &Planet) -> (hit: bool)
    ensures
        hit == collides(*rocket, *planet),
{
    is_within(rocket.x, rocket.y, planet.x, planet.y, planet.radius)
}

/// Tests whether the craft meets the condition for winning the round.
pub fn check_win(rocket: &Rocket, condition: &WinCondition) -> (won: bool)
    ensures
        won == wins(*rocket, *condition),
{
    match *condition {
        WinCondition::Circle { x, y, radius, max_speed } => {
            let in_circle: bool = is_within(rocket.x, rocket.y, x, y, radius);
            let slow: bool = max_speed > 0 && is_within(
                rocket.speed_x,
                rocket.speed_y,
                0,
                0,
                max_speed,
            );
            in_circle && slow && !rocket.engine_on
        },
        WinCondition::CircleAnySpeed { x, y, radius } => {
            is_within(rocket.x, rocket.y, x, y, radius) && !rocket.engine_on
        },
    }
}

/// Lets every body pull on the craft for `dt`, in their order.
pub fn apply_gravity_all(rocket: &mut Rocket, planets: &[Planet], dt: i64)
    ensures
        *final(rocket) == after_gravity_all(*old(rocket), planets@, dt as int),
{
    let ghost start = *rocket;
    let mut i: usize = 0;
    while i < planets.len()
        invariant
            i <= planets.len(),
            *rocket == after_gravity_all(start, planets@.take(i as int), dt as int),
        decreases planets.len() - i,
    {
        proof {
            lemma_gravity_next(start, planets@, dt as int, i as int);
        }
        apply_gravity(rocket, &planets[i], dt);
        i += 1;
    }
    assert(planets@.take(i as int) == planets@);
}

/// Tests whether the craft is inside one of the bodies.
pub fn check_collision_any(rocket: &Rocket, planets: &[Planet]) -> (hit: bool)
    ensures
        hit == hits_any(*rocket, planets@),
{
    let mut i: usize = 0;
    while i < planets.len()
        invariant
            i <= planets.len(),
            forall|j: int| 0 <= j < i ==> !collides(*rocket, #[trigger] planets@[j]),
        decreases planets.len() - i,
    {
        if check_collision(rocket, &planets[i]) {
            return true;
        }
        i += 1;
    }
    false
}

/// Advances the game by one step of length `dt` at the present time `now`.
///
/// The bodies stand where they are at `now`. They pull on the craft, the
/// engine pushes, the craft moves. If it is then inside a body, it is put back
/// to the start of the level and the step reports a collision. Otherwise the
/// craft stays as it moved, and the step reports a win if the craft meets the
/// condition of the level.
pub fn update(game: &mut GameState, dt: i64, now: i64) -> (event: Option<PhysicsEvent>)
    requires
        old(game).wf(),
    ensures
        final(game).wf(),
        final(game).level.level == old(game).level.level,
        final(game).level.start_time == old(game).level.start_time,
        final(game).show_hud == old(game).show_hud,
        final(game).show_path == old(game).show_path,
        dt == 0 && event != Some(PhysicsEvent::Collision)
            ==> final(game).level.rocket == old(game).level.rocket,
        ({
            let planets = bodies_at(
                old(game).level.level.planets@,
                old(game).level.elapsed_at(now as int),
            );
            let moved = integrated(old(game).level.rocket, planets, dt as int);
            if hits_any(moved, planets) {
                &&& event == Some(PhysicsEvent::Collision)
                &&& final(game).level.rocket == old(game).level.level.initial_rocket
            } else if wins(moved, old(game).level.level.win_condition) {
                &&& event == Some(PhysicsEvent::Win)
                &&& final(game).level.rocket == moved
            } else {
                &&& event is None
                &&& final(game).level.rocket == moved
            }
        }),
{
    let current_planets: Vec<Planet> = game.level.current_planets(now);
    let mut rocket: Rocket = game.level.rocket;
    proof {
        lemma_gravity_keeps(rocket, current_planets@, dt as int);
        crate::laws::law_zero_step_is_identity(rocket, current_planets@);
    }
    apply_gravity_all(&mut rocket, current_planets.as_slice(), dt);
    apply_engine(&mut rocket, dt);
    move_rocket(&mut rocket, dt);
    game.level.rocket = rocket;
    if check_collision_any(&rocket, current_planets.as_slice()) {
        game.level.reset_rocket();
        return Some(PhysicsEvent::Collision);
    }
    if check_win(&rocket, &game.level.level.win_condition) {
        return Some(PhysicsEvent::Win);
    }
    None
}

/// A point of the projected path is where the drifting craft is after as
/// many steps.
pub proof fn lemma_projection_point(
    rocket: Rocket,
    defs: Seq<PlanetDef>,
    duration: int,
    steps: nat,
    start: int,
    i: int,
)
    requires
        0 <= i < steps,
    ensures
        projection(rocket, defs, duration, steps, start).len() == steps,
        projection(rocket, defs, duration, steps, start)[i] == ({
            let sim = drifted(coasting(rocket), defs, duration, steps, start, (i + 1) as nat);
            (sim.x, sim.y)
        }),
{
}

/// Lets the craft drift for one step of length `dt`, with the bodies where
/// they are at the time `t`.
fn drift(sim: &mut Rocket, planet_defs: &[PlanetDef], dt: i64, t: i64)
    ensures
        *final(sim) == after_move(
            after_gravity_all(*old(sim), bodies_at(planet_defs@, t as int), dt as int),
            dt as int,
        ),
{
    let ghost before = *sim;
    let ghost bodies = bodies_at(planet_defs@, t as int);
    let mut j: usize = 0;
    while j < planet_defs.len()
        invariant
            j <= planet_defs.len(),
            bodies == bodies_at(planet_defs@, t as int),
            *sim == after_gravity_all(before, bodies.take(j as int), dt as int),
        decreases planet_defs.len() - j,
    {
        proof {
            lemma_gravity_next(before, bodies, dt as int, j as int);
        }
        let planet: Planet = planet_defs[j].planet_at(t);
        apply_gravity(sim, &planet, dt);
        j += 1;
    }
    assert(bodies.take(j as int) == bodies);
    move_rocket(sim, dt);
}

/// Computes how far into a projection its `n`-th step ends.
fn step_offset_of(duration: i64, steps: usize, n: usize) -> (offset: i128)
    requires
        steps > 0,
        n <= steps,
    ensures
        offset == step_offset(duration as int, steps as nat, n as nat),
        duration >= 0 ==> 0 <= offset <= 0x7fff_ffff_ffff_ffff_8000_0000_0000_0000,
        duration < 0 ==> -0x7fff_ffff_ffff_ffff_8000_0000_0000_0000 <= offset <= 0,
{
    reveal(step_offset);
    let span: u128 = magnitude(duration);
    let count: u128 = n as u128;
    assert(0 <= count * span <= 0x7fff_ffff_ffff_ffff_8000_0000_0000_0000) by (nonlinear_arith)
        requires
            0 <= count <= 0xffff_ffff_ffff_ffff,
            0 <= span <= 0x8000_0000_0000_0000,
    ;
    let far: u128 = (count * span) / (steps as u128);
    assert(far <= count * span) by (nonlinear_arith)
        requires
            far == (count * span) / (steps as int),
            steps > 0,
            count * span >= 0,
    ;
    assert(n * duration == (if duration < 0 { -(count * span) } else { count * span }))
        by (nonlinear_arith)
        requires
            span == (if duration < 0 { -(duration as int) } else { duration as int }),
            count == n,
    ;
    if duration < 0 {
        -(far as i128)
    } else {
        far as i128
    }
}

/// Projects the path of the craft: where it would be after each of `steps`
/// equal steps over `duration`, beginning at `start_time`, if its engine were
/// off from now on. The craft itself is not changed, and the path is not cut
/// short where it runs through a body.
pub fn project_path(
    rocket: &Rocket,
    planet_defs: &[PlanetDef],
    duration: i64,
    steps: usize,
    start_time: i64,
) -> (path: Vec<(i64, i64)>)
    ensures
        path@.len() == steps,
        path@ == projection(
            *rocket,
            planet_defs@,
            duration as int,
            steps as nat,
            start_time as int,
        ),
{
    let mut path: Vec<(i64, i64)> = Vec::new();
    if steps == 0 {
        return path;
    }
    let mut sim: Rocket = *rocket;
    sim.engine_on = false;
    let ghost first = sim;
    let mut reached: i128 = step_offset_of(duration, steps, 0);
    let mut i: usize = 0;
    while i < steps
        invariant
            i <= steps,
            steps > 0,
            first == coasting(*rocket),
            reached == step_offset(duration as int, steps as nat, i as nat),
            duration >= 0 ==> 0 <= reached <= 0x7fff_ffff_ffff_ffff_8000_0000_0000_0000,
            duration < 0 ==> -0x7fff_ffff_ffff_ffff_8000_0000_0000_0000 <= reached <= 0,
            sim == drifted(
                first,
                planet_defs@,
                duration as int,
                steps as nat,
                start_time as int,
                i as nat,
            ),
            path@ == projection(
                *rocket,
                planet_defs@,
                duration as int,
                steps as nat,
                start_time as int,
            ).take(i as int),
        decreases steps - i,
    {
        let ghost whole = projection(
            *rocket,
            planet_defs@,
            duration as int,
            steps as nat,
            start_time as int,
        );
        let ghost n = (i + 1) as nat;
        let offset: i128 = step_offset_of(duration, steps, i + 1);
        let dt: i64 = clamp(offset - reached);
        let t: i64 = clamp(start_time as i128 + offset);
        assert(dt == step_span(duration as int, steps as nat, n));
        assert(t == step_time(start_time as int, duration as int, steps as nat, n));
        reached = offset;
        drift(&mut sim, planet_defs, dt, t);
        assert(sim == drifted(
            first,
            planet_defs@,
            duration as int,
            steps as nat,
            start_time as int,
            n,
        ));
        proof {
            lemma_projection_point(
                *rocket,
                planet_defs@,
                duration as int,
                steps as nat,
                start_time as int,
                i as int,
            );
        }
        assert(whole.take(i + 1) == whole.take(i as int).push(whole[i as int]));
        path.push((sim.x, sim.y));
        i += 1;
    }
    path
}

} // verus!

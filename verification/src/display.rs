//! Numbers and shapes that the screen shows of a flight.

use vstd::prelude::*;
use crate::fixed::{
    add_sat, clamp, difference, isqrt, magnitude, mul_div, root, saturate, scaled, sub_sat, sum,
    ONE,
};
use crate::state::{Planet, Rocket};
use crate::trig::{cos_deg, cosine, sin_deg, sine};

verus! {

/// The length of the vector `(dx, dy)`, rounded down.
pub open spec fn length(dx: int, dy: int) -> int {
    saturate(root(dx * dx + dy * dy))
}

/// How fast the craft moves, in the unit of its velocity.
pub open spec fn speed(rocket: Rocket) -> int {
    length(rocket.speed_x as int, rocket.speed_y as int)
}

/// How far the craft's centre is from the surface of the body; negative
/// inside it.
pub open spec fn altitude(rocket: Rocket, planet: Planet) -> int {
    difference(
        length(
            difference(rocket.x as int, planet.x as int),
            difference(rocket.y as int, planet.y as int),
        ),
        planet.radius as int,
    )
}

/// `lowest` is the least of the craft's altitudes over the bodies.
pub open spec fn is_lowest(rocket: Rocket, planets: Seq<Planet>, lowest: int) -> bool {
    &&& exists|i: int| 0 <= i < planets.len() && lowest == altitude(rocket, #[trigger] planets[i])
    &&& forall|i: int| 0 <= i < planets.len() ==> lowest <= altitude(rocket, #[trigger] planets[i])
}

/// How bright the opening hint is, from one (fully visible) to zero: it
/// fades over the fifth second of the round.
pub open spec fn hint_alpha(elapsed: int) -> int {
    if elapsed > 4 * ONE {
        difference(5 * ONE, elapsed)
    } else {
        ONE as int
    }
}

/// The point `(lx, ly)` of the craft's own frame, whose origin is the craft
/// and whose y-axis points down its tail, as a point of the screen: turned by
/// the craft's orientation and moved to where the craft is. The turn uses
/// the approximations `sine` and `cosine`, each within a millionth of the
/// true value.
pub open spec fn placed(rocket: Rocket, lx: int, ly: int) -> (int, int) {
    let c = cosine(rocket.orientation as int);
    let s = sine(rocket.orientation as int);
    (
        sum(
            rocket.x as int,
            difference(scaled(lx, c, ONE as int), scaled(ly, s, ONE as int)),
        ),
        sum(rocket.y as int, sum(scaled(lx, s, ONE as int), scaled(ly, c, ONE as int))),
    )
}

/// Computes the length of a vector.
pub fn length_of(dx: i64, dy: i64) -> (len: i64)
    ensures
        len == length(dx as int, dy as int),
        len >= 0,
{
    let ax: u128 = magnitude(dx);
    let ay: u128 = magnitude(dy);
    assert(ax * ax <= 0x4000_0000_0000_0000_0000_0000_0000_0000 && ax * ax == dx * dx)
        by (nonlinear_arith)
        requires
            ax <= 0x8000_0000_0000_0000,
            ax == (if dx < 0 { -(dx as int) } else { dx as int }),
    ;
    assert(ay * ay <= 0x4000_0000_0000_0000_0000_0000_0000_0000 && ay * ay == dy * dy)
        by (nonlinear_arith)
        requires
            ay <= 0x8000_0000_0000_0000,
            ay == (if dy < 0 { -(dy as int) } else { dy as int }),
    ;
    let r: u128 = isqrt(ax * ax + ay * ay);
    clamp(r as i128)
}

/// Computes how fast the craft moves.
pub fn speed_of(rocket: &Rocket) -> (v: i64)
    ensures
        v == speed(*rocket),
        v >= 0,
{
    length_of(rocket.speed_x, rocket.speed_y)
}

/// Computes how far the craft is from the surface of a body.
pub fn altitude_over(rocket: &Rocket, planet: &Planet) -> (d: i64)
    ensures
        d == altitude(*rocket, *planet),
{
    let dx: i64 = sub_sat(rocket.x, planet.x);
    let dy: i64 = sub_sat(rocket.y, planet.y);
    sub_sat(length_of(dx, dy), planet.radius)
}

/// Finds how far the craft is from the nearest surface; `None` where there
/// is no body.
pub fn closest_distance(rocket: &Rocket, planets: &[Planet]) -> (closest: Option<i64>)
    ensures
        planets@.len() == 0 <==> closest is None,
        closest matches Some(d) ==> is_lowest(*rocket, planets@, d as int),
{
    if planets.len() == 0 {
        return None;
    }
    let mut lowest: i64 = altitude_over(rocket, &planets[0]);
    let mut i: usize = 1;
    assert(planets@.take(1)[0] == planets@[0]);
    while i < planets.len()
        invariant
            1 <= i <= planets.len(),
            is_lowest(*rocket, planets@.take(i as int), lowest as int),
        decreases planets.len() - i,
    {
        let ghost seen = planets@.take(i as int);
        let ghost more = planets@.take(i + 1);
        let ghost witness = choose|k: int|
            0 <= k < seen.len() && lowest == altitude(*rocket, #[trigger] seen[k]);
        let d: i64 = altitude_over(rocket, &planets[i]);
        if d < lowest {
            lowest = d;
            assert(more[i as int] == planets@[i as int]);
        } else {
            assert(more[witness] == seen[witness]);
        }
        assert forall|k: int| 0 <= k < more.len() implies lowest <= altitude(
            *rocket,
            #[trigger] more[k],
        ) by {
            if k < i {
                assert(more[k] == seen[k]);
            }
        }
        i += 1;
    }
    assert(planets@.take(i as int) == planets@);
    Some(lowest)
}

/// Computes how bright the opening hint is at the given time of the round.
pub fn help_alpha(elapsed: i64) -> (alpha: i64)
    ensures
        alpha == hint_alpha(elapsed as int),
{
    if elapsed > 4 * ONE {
        sub_sat(5 * ONE, elapsed)
    } else {
        ONE
    }
}

/// Computes where a point of the craft's own frame is on the screen.
pub fn place(rocket: &Rocket, lx: i64, ly: i64) -> (point: (i64, i64))
    ensures
        point.0 == placed(*rocket, lx as int, ly as int).0,
        point.1 == placed(*rocket, lx as int, ly as int).1,
{
    let c: i64 = cos_deg(rocket.orientation);
    let s: i64 = sin_deg(rocket.orientation);
    let rx: i64 = sub_sat(mul_div(lx, c, ONE as u128), mul_div(ly, s, ONE as u128));
    let ry: i64 = add_sat(mul_div(lx, s, ONE as u128), mul_div(ly, c, ONE as u128));
    (add_sat(rocket.x, rx), add_sat(rocket.y, ry))
}

} // verus!

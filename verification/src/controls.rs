//! What the player's keys do to the craft.

use vstd::prelude::*;
use crate::fixed::{mul_div, scaled, ONE};
use crate::state::Rocket;
use crate::trig::{wrap_degrees, wrapped, FULL_TURN};

verus! {

/// How fast the craft turns: a full turn in four seconds, 90 degrees per
/// second.
pub const ROTATION_SPEED: i64 = 90_000_000;

/// The keys that matter to the craft, as they stand in one frame.
#[derive(Clone, Copy, Debug, PartialEq, Eq)]
pub struct Keys {
    /// The key that turns the craft counterclockwise is held down.
    pub rotate_left: bool,
    /// The key that turns the craft clockwise is held down.
    pub rotate_right: bool,
    /// The key that starts the engine was pressed in this frame.
    pub engine_on: bool,
    /// The key that stops the engine was pressed in this frame.
    pub engine_off: bool,
    /// The key that shows or hides the flight data was pressed in this frame.
    pub toggle_hud: bool,
}

/// The orientation after turning for `dt`: clockwise adds to it,
/// counterclockwise takes from it, both together cancel, and the result is
/// brought back into `[0, 360)` degrees.
pub open spec fn turned(orientation: int, dt: int, rotate_left: bool, rotate_right: bool) -> int {
    let step = scaled(ROTATION_SPEED as int, dt, ONE as int);
    wrapped(
        orientation + (if rotate_right {
            step
        } else {
            0
        }) - (if rotate_left {
            step
        } else {
            0
        }),
    )
}

/// Whether the engine is on after the keys of a frame: stopping wins over
/// starting, and without either key nothing changes.
pub open spec fn switched(engine_on: bool, keys: Keys) -> bool {
    if keys.engine_off {
        false
    } else if keys.engine_on {
        true
    } else {
        engine_on
    }
}

/// Turns the craft for `dt` as the two rotation keys ask.
pub fn update_orientation(rocket: &mut Rocket, dt: i64, rotate_left: bool, rotate_right: bool)
    ensures
        *final(rocket) == (Rocket {
            orientation: turned(
                old(rocket).orientation as int,
                dt as int,
                rotate_left,
                rotate_right,
            ) as i64,
            ..*old(rocket)
        }),
        0 <= final(rocket).orientation < FULL_TURN,
        !rotate_left && !rotate_right && 0 <= old(rocket).orientation < FULL_TURN
            ==> *final(rocket) == *old(rocket),
{
    let step: i64 = mul_div(ROTATION_SPEED, dt, ONE as u128);
    let mut angle: i128 = rocket.orientation as i128;
    if rotate_right {
        angle = angle + step as i128;
    }
    if rotate_left {
        angle = angle - step as i128;
    }
    rocket.orientation = wrap_degrees(angle);
}

/// Applies the keys of one frame of length `dt`: turns the craft, switches
/// its engine, and shows or hides the flight data.
pub fn handle_input(rocket: &mut Rocket, dt: i64, show_hud: &mut bool, keys: &Keys)
    ensures
        *final(rocket) == (Rocket {
            orientation: turned(
                old(rocket).orientation as int,
                dt as int,
                keys.rotate_left,
                keys.rotate_right,
            ) as i64,
            engine_on: switched(old(rocket).engine_on, *keys),
            ..*old(rocket)
        }),
        0 <= final(rocket).orientation < FULL_TURN,
        *final(show_hud) == (*old(show_hud) != keys.toggle_hud),
{
    update_orientation(rocket, dt, keys.rotate_left, keys.rotate_right);
    if keys.engine_on {
        rocket.engine_on = true;
    }
    if keys.engine_off {
        rocket.engine_on = false;
    }
    if keys.toggle_hud {
        *show_hud = !*show_hud;
    }
}

} // verus!

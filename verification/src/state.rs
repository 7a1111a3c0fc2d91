//! The bodies, the craft and the round that owns them.

use vstd::prelude::*;
use crate::fixed::{add_sat, difference, mul_div, scaled, sub_sat, sum, ONE};
use crate::trig::{
    cos_deg, cosine, deg_from_rad, degrees, sin_deg, sine, wrap_degrees, wrapped, FULL_TURN,
};

verus! {

/// A round body at one moment: where its centre is and how large it is.
#[derive(Clone, Copy, Debug, PartialEq, Eq)]
pub struct Planet {
    pub x: i64,
    pub y: i64,
    pub radius: i64,
}

/// A circular path around a fixed centre.
#[derive(Clone, Copy, Debug, PartialEq, Eq)]
pub struct Orbit {
    /// Distance from the centre of the orbit.
    pub radius: i64,
    /// Radians per second; the sign gives the direction.
    pub speed: i64,
    /// Radians at time zero.
    pub initial_angle: i64,
}

/// A body of a level: at rest at its centre, or circling it.
#[derive(Clone, Copy, Debug, PartialEq, Eq)]
pub struct PlanetDef {
    pub center_x: i64,
    pub center_y: i64,
    pub radius: i64,
    pub orbit: Option<Orbit>,
}

impl Orbit {
    /// The angle of the orbit at `time`, in degrees.
    pub open spec fn angle_at(self, time: int) -> int {
        degrees(sum(self.initial_angle as int, scaled(self.speed as int, time, ONE as int)))
    }
}

impl PlanetDef {
    /// The body at `time`: at its centre when it has no orbit, otherwise at
    /// `centre + radius * (cos(angle), sin(angle))` with
    /// `angle = initial_angle + speed * time`. The cosine and the sine are the
    /// approximations `cosine` and `sine`, each within a millionth of the true
    /// value, so the body keeps its distance from the centre to within two
    /// millionths of the radius of its orbit.
    pub open spec fn at(self, time: int) -> Planet {
        match self.orbit {
            None => Planet { x: self.center_x, y: self.center_y, radius: self.radius },
            Some(orbit) => {
                let angle = orbit.angle_at(time);
                Planet {
                    x: sum(
                        self.center_x as int,
                        scaled(orbit.radius as int, cosine(angle), ONE as int),
                    ) as i64,
                    y: sum(
                        self.center_y as int,
                        scaled(orbit.radius as int, sine(angle), ONE as int),
                    ) as i64,
                    radius: self.radius,
                }
            },
        }
    }

    /// Where the body is at `time`.
    pub fn planet_at(&self, time: i64) -> (planet: Planet)
        ensures
            planet == self.at(time as int),
    {
        match self.orbit {
            None => Planet { x: self.center_x, y: self.center_y, radius: self.radius },
            Some(orbit) => {
                let turned: i64 = mul_div(orbit.speed, time, ONE as u128);
                let angle: i64 = deg_from_rad(add_sat(orbit.initial_angle, turned));
                let across: i64 = mul_div(orbit.radius, cos_deg(angle), ONE as u128);
                let down: i64 = mul_div(orbit.radius, sin_deg(angle), ONE as u128);
                Planet {
                    x: add_sat(self.center_x, across),
                    y: add_sat(self.center_y, down),
                    radius: self.radius,
                }
            },
        }
    }
}

/// Where the bodies of a level are at `time`, in the order of the level.
pub open spec fn bodies_at(defs: Seq<PlanetDef>, time: int) -> Seq<Planet> {
    Seq::new(defs.len(), |i: int| defs[i].at(time))
}

/// Bodies without an orbit do not move.
pub proof fn law_static_body_stays(def: PlanetDef, time: int)
    requires
        def.orbit is None,
    ensures
        def.at(time) == (Planet { x: def.center_x, y: def.center_y, radius: def.radius }),
{
}

/// The craft. Its position counts millionths; its velocity counts millionths
/// of a millionth (`FINE`).
#[derive(Clone, Copy, Debug, PartialEq, Eq)]
pub struct Rocket {
    pub x: i64,
    pub y: i64,
    pub speed_x: i64,
    pub speed_y: i64,
    /// Degrees in `[0, 360)`; zero points up the screen, and the angle grows
    /// clockwise.
    pub orientation: i64,
    pub landed: bool,
    pub engine_on: bool,
    /// Seconds of burn that remain; never negative.
    pub fuel: i64,
}

impl Rocket {
    /// The craft has fuel left or none, never less, and its orientation is
    /// normalised.
    pub open spec fn wf(self) -> bool {
        &&& self.fuel >= 0
        &&& 0 <= self.orientation < FULL_TURN
    }

    /// The craft with a tank below empty set to empty and its orientation
    /// brought into one turn; a well-formed craft is left as it is.
    pub open spec fn normalised(self) -> Rocket {
        Rocket {
            fuel: if self.fuel < 0 {
                0
            } else {
                self.fuel
            },
            orientation: wrapped(self.orientation as int) as i64,
            ..self
        }
    }

    /// Tests `wf`.
    pub fn is_valid(&self) -> (ok: bool)
        ensures
            ok == self.wf(),
    {
        self.fuel >= 0 && 0 <= self.orientation && self.orientation < FULL_TURN
    }

    /// Makes the craft well-formed.
    pub fn normalise(&mut self)
        ensures
            *final(self) == old(self).normalised(),
            final(self).wf(),
            old(self).wf() ==> *final(self) == *old(self),
    {
        if self.fuel < 0 {
            self.fuel = 0;
        }
        self.orientation = wrap_degrees(self.orientation as i128);
    }
}

/// What ends a round in success.
#[derive(Clone, Copy, Debug, PartialEq, Eq)]
pub enum WinCondition {
    /// Inside the circle, slower than `max_speed` (a velocity, in the unit
    /// `FINE`), engine off.
    Circle { x: i64, y: i64, radius: i64, max_speed: i64 },
    /// Inside the circle at any speed, engine off.
    CircleAnySpeed { x: i64, y: i64, radius: i64 },
}

/// A level as it is designed: its bodies, the craft at the start of a round,
/// and what wins it.
#[derive(Clone, Debug)]
pub struct Level {
    pub name: &'static str,
    pub planets: Vec<PlanetDef>,
    pub initial_rocket: Rocket,
    pub win_condition: WinCondition,
}

/// A round of a level: the level, the craft as it flies, and when the round
/// began.
#[derive(Clone, Debug)]
pub struct LevelState {
    pub level: Level,
    pub rocket: Rocket,
    pub start_time: i64,
}

impl LevelState {
    /// Both the craft in flight and the craft that a reset brings back are
    /// well-formed.
    pub open spec fn wf(self) -> bool {
        self.rocket.wf() && self.level.initial_rocket.wf()
    }

    /// The time since the round began.
    pub open spec fn elapsed_at(self, now: int) -> int {
        difference(now, self.start_time as int)
    }

    /// Tests `wf`.
    pub fn is_valid(&self) -> (ok: bool)
        ensures
            ok == self.wf(),
    {
        self.rocket.is_valid() && self.level.initial_rocket.is_valid()
    }

    /// Starts a round of `design` at the time `now`.
    pub fn new(design: Level, now: i64) -> (state: Self)
        ensures
            state.level == design,
            state.rocket == design.initial_rocket,
            state.start_time == now,
    {
        let rocket = design.initial_rocket;
        Self { level: design, rocket, start_time: now }
    }

    /// Puts the craft back where the level starts it.
    pub fn reset_rocket(&mut self)
        ensures
            final(self).rocket == old(self).level.initial_rocket,
            final(self).level == old(self).level,
            final(self).start_time == old(self).start_time,
    {
        self.rocket = self.level.initial_rocket;
    }

    /// The time since the round began, given the present time.
    pub fn elapsed(&self, now: i64) -> (time: i64)
        ensures
            time == self.elapsed_at(now as int),
    {
        sub_sat(now, self.start_time)
    }

    /// Where the bodies of the level are at the present time.
    pub fn current_planets(&self, now: i64) -> (planets: Vec<Planet>)
        ensures
            planets@ == bodies_at(self.level.planets@, self.elapsed_at(now as int)),
    {
        let elapsed: i64 = self.elapsed(now);
        let mut planets: Vec<Planet> = Vec::new();
        let mut i: usize = 0;
        while i < self.level.planets.len()
            invariant
                i <= self.level.planets.len(),
                planets@ == bodies_at(self.level.planets@.take(i as int), elapsed as int),
            decreases self.level.planets.len() - i,
        {
            planets.push(self.level.planets[i].planet_at(elapsed));
            i += 1;
        }
        assert(self.level.planets@.take(i as int) == self.level.planets@);
        planets
    }
}

/// A game in play: the round and what the player has switched on.
#[derive(Clone, Debug)]
pub struct GameState {
    pub level: LevelState,
    pub show_hud: bool,
    pub show_path: bool,
}

impl GameState {
    /// The round is well-formed.
    pub open spec fn wf(self) -> bool {
        self.level.wf()
    }

    /// Tests `wf`.
    pub fn is_valid(&self) -> (ok: bool)
        ensures
            ok == self.wf(),
    {
        self.level.is_valid()
    }

    /// Makes the craft in flight and the craft of the level well-formed, and
    /// changes nothing else.
    pub fn normalise(&mut self)
        ensures
            final(self).wf(),
            final(self).level.rocket == old(self).level.rocket.normalised(),
            final(self).level.level.initial_rocket == old(
                self,
            ).level.level.initial_rocket.normalised(),
            final(self).level.level.planets == old(self).level.level.planets,
            final(self).level.level.name == old(self).level.level.name,
            final(self).level.level.win_condition == old(self).level.level.win_condition,
            final(self).level.start_time == old(self).level.start_time,
            final(self).show_hud == old(self).show_hud,
            final(self).show_path == old(self).show_path,
            old(self).wf() ==> *final(self) == *old(self),
    {
        let mut rocket: Rocket = self.level.rocket;
        rocket.normalise();
        self.level.rocket = rocket;
        let mut start: Rocket = self.level.level.initial_rocket;
        start.normalise();
        self.level.level.initial_rocket = start;
    }

    /// Starts a game on `level` at the time `now`, with the display of flight
    /// data and of the projected path switched on.
    pub fn new(level: Level, now: i64) -> (game: Self)
        ensures
            game.level.level == level,
            game.level.rocket == level.initial_rocket,
            game.level.start_time == now,
            game.show_hud,
            game.show_path,
    {
        Self { level: LevelState::new(level, now), show_hud: true, show_path: true }
    }
}

} // verus!

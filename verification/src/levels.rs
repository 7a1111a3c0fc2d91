//! The levels of the game, laid out on a screen of a given size.

use vstd::prelude::*;
use crate::fixed::{add_sat, difference, mul_div, quotient, scaled, sub_sat, sum, ONE};
use crate::state::{Level, Orbit, PlanetDef, Rocket, WinCondition};
use crate::trig::PI;

verus! {

/// What a level holds, as plain values.
pub struct LevelModel {
    pub name: Seq<char>,
    pub planets: Seq<PlanetDef>,
    pub initial_rocket: Rocket,
    pub win_condition: WinCondition,
}

impl Level {
    /// The level as plain values.
    pub open spec fn model(self) -> LevelModel {
        LevelModel {
            name: self.name@,
            planets: self.planets@,
            initial_rocket: self.initial_rocket,
            win_condition: self.win_condition,
        }
    }
}

/// Half of a length.
pub open spec fn half(v: i64) -> i64 {
    quotient(v as int, 2) as i64
}

/// The given share of a length, the share in millionths.
pub open spec fn share(v: i64, millionths: i64) -> i64 {
    scaled(v as int, millionths as int, ONE as int) as i64
}

/// A coordinate `margin` short of the far edge of a screen of this length.
pub open spec fn inset(length: i64, margin: i64) -> i64 {
    difference(length as int, margin as int) as i64
}

/// A coordinate moved by `offset`.
pub open spec fn shifted(v: i64, offset: i64) -> i64 {
    sum(v as int, offset as int) as i64
}

/// A body at rest.
pub open spec fn fixed_body(x: i64, y: i64, radius: i64) -> PlanetDef {
    PlanetDef { center_x: x, center_y: y, radius, orbit: None }
}

/// A body that circles `(x, y)`.
pub open spec fn circling_body(x: i64, y: i64, radius: i64, orbit: Orbit) -> PlanetDef {
    PlanetDef { center_x: x, center_y: y, radius, orbit: Some(orbit) }
}

/// A craft at the start of a round: engine off, not landed.
pub open spec fn starting_craft(
    x: i64,
    y: i64,
    speed_x: i64,
    speed_y: i64,
    orientation: i64,
    fuel: i64,
) -> Rocket {
    Rocket { x, y, speed_x, speed_y, orientation, landed: false, engine_on: false, fuel }
}

/// "Level 1": a body in the middle of the screen with a moon around it; the
/// craft starts at the lower left, flying right, and is to reach the upper
/// right.
pub open spec fn first_level(w: i64, h: i64) -> LevelModel {
    LevelModel {
        name: "Level 1"@,
        planets: seq![
            fixed_body(half(w), half(h), 30_000_000),
            circling_body(
                half(w),
                half(h),
                15_000_000,
                Orbit { radius: 150_000_000, speed: 500_000, initial_angle: 0 },
            ),
        ],
        initial_rocket: starting_craft(
            100_000_000,
            inset(h, 100_000_000),
            120_000_000_000_000,
            0,
            90_000_000,
            20_000_000,
        ),
        win_condition: WinCondition::CircleAnySpeed {
            x: inset(w, 150_000_000),
            y: 150_000_000,
            radius: 50_000_000,
        },
    }
}

/// "Level 2": empty space; the craft starts at rest in the middle and is to
/// come to the upper right slower than 2.
pub open spec fn second_level(w: i64, h: i64) -> LevelModel {
    LevelModel {
        name: "Level 2"@,
        planets: seq![],
        initial_rocket: starting_craft(half(w), half(h), 0, 0, 0, 20_000_000),
        win_condition: WinCondition::Circle {
            x: inset(w, 150_000_000),
            y: 150_000_000,
            radius: 50_000_000,
            max_speed: 2_000_000_000_000,
        },
    }
}

/// "The Gauntlet": two large bodies guard a narrow gap, a third stands behind
/// it; the craft starts at the left, flying right, and is to reach the right.
pub open spec fn gauntlet(w: i64, h: i64) -> LevelModel {
    LevelModel {
        name: "The Gauntlet"@,
        planets: seq![
            fixed_body(half(w), shifted(half(h), (-120_000_000i64)), 45_000_000),
            fixed_body(half(w), shifted(half(h), 120_000_000), 45_000_000),
            fixed_body(share(w, 800_000), half(h), 20_000_000),
        ],
        initial_rocket: starting_craft(
            100_000_000,
            half(h),
            150_000_000_000_000,
            0,
            90_000_000,
            8_000_000,
        ),
        win_condition: WinCondition::CircleAnySpeed {
            x: inset(w, 100_000_000),
            y: half(h),
            radius: 60_000_000,
        },
    }
}

/// "Binary Stars": two bodies circle the middle of the screen, opposite each
/// other; the craft starts at rest at the top and is to come to the bottom
/// slower than 50.
pub open spec fn binary_stars(w: i64, h: i64) -> LevelModel {
    LevelModel {
        name: "Binary Stars"@,
        planets: seq![
            circling_body(
                half(w),
                half(h),
                35_000_000,
                Orbit { radius: 120_000_000, speed: 800_000, initial_angle: 0 },
            ),
            circling_body(
                half(w),
                half(h),
                35_000_000,
                Orbit { radius: 120_000_000, speed: 800_000, initial_angle: PI },
            ),
        ],
        initial_rocket: starting_craft(half(w), 80_000_000, 0, 0, 180_000_000, 15_000_000),
        win_condition: WinCondition::Circle {
            x: half(w),
            y: inset(h, 80_000_000),
            radius: 60_000_000,
            max_speed: 50_000_000_000_000,
        },
    }
}

/// "Slingshot": one massive body with a fast moon that runs counterclockwise;
/// the craft starts at the upper right with little fuel, flying left and
/// down, and is to reach the lower left.
pub open spec fn slingshot(w: i64, h: i64) -> LevelModel {
    LevelModel {
        name: "Slingshot"@,
        planets: seq![
            fixed_body(share(w, 350_000), half(h), 50_000_000),
            circling_body(
                share(w, 350_000),
                half(h),
                12_000_000,
                Orbit { radius: 180_000_000, speed: (-1_200_000i64), initial_angle: 0 },
            ),
        ],
        initial_rocket: starting_craft(
            inset(w, 120_000_000),
            100_000_000,
            (-80_000_000_000_000i64),
            30_000_000_000_000,
            270_000_000,
            4_000_000,
        ),
        win_condition: WinCondition::CircleAnySpeed {
            x: 120_000_000,
            y: inset(h, 120_000_000),
            radius: 70_000_000,
        },
    }
}

/// All levels, in the order in which the menu offers them.
pub open spec fn catalogue(w: i64, h: i64) -> Seq<LevelModel> {
    seq![first_level(w, h), second_level(w, h), gauntlet(w, h), binary_stars(w, h), slingshot(w, h)]
}

/// Builds a body at rest.
fn planet(x: i64, y: i64, radius: i64) -> (def: PlanetDef)
    ensures
        def == fixed_body(x, y, radius),
{
    PlanetDef { center_x: x, center_y: y, radius, orbit: None }
}

/// Builds a body that circles `(x, y)`.
fn moon(x: i64, y: i64, radius: i64, orbit: Orbit) -> (def: PlanetDef)
    ensures
        def == circling_body(x, y, radius, orbit),
{
    PlanetDef { center_x: x, center_y: y, radius, orbit: Some(orbit) }
}

/// Builds a craft at the start of a round.
fn craft(x: i64, y: i64, speed_x: i64, speed_y: i64, orientation: i64, fuel: i64) -> (rocket:
    Rocket)
    ensures
        rocket == starting_craft(x, y, speed_x, speed_y, orientation, fuel),
{
    Rocket { x, y, speed_x, speed_y, orientation, landed: false, engine_on: false, fuel }
}

impl Level {
    /// Builds all levels for a screen `width` wide and `height` high.
    pub fn all(width: i64, height: i64) -> (levels: Vec<Self>)
        ensures
            levels@.len() == 5,
            forall|i: int|
                0 <= i < 5 ==> (#[trigger] levels@[i]).model() == catalogue(width, height)[i],
            forall|i: int| 0 <= i < 5 ==> (#[trigger] levels@[i]).initial_rocket.wf(),
    {
        let mid_x: i64 = width / 2;
        let mid_y: i64 = height / 2;
        let first = Level {
            name: "Level 1",
            planets: vec![
                planet(mid_x, mid_y, 30_000_000),
                moon(
                    mid_x,
                    mid_y,
                    15_000_000,
                    Orbit { radius: 150_000_000, speed: 500_000, initial_angle: 0 },
                ),
            ],
            initial_rocket: craft(
                100_000_000,
                sub_sat(height, 100_000_000),
                120_000_000_000_000,
                0,
                90_000_000,
                20_000_000,
            ),
            win_condition: WinCondition::CircleAnySpeed {
                x: sub_sat(width, 150_000_000),
                y: 150_000_000,
                radius: 50_000_000,
            },
        };
        let second = Level {
            name: "Level 2",
            planets: vec![],
            initial_rocket: craft(mid_x, mid_y, 0, 0, 0, 20_000_000),
            win_condition: WinCondition::Circle {
                x: sub_sat(width, 150_000_000),
                y: 150_000_000,
                radius: 50_000_000,
                max_speed: 2_000_000_000_000,
            },
        };
        let third = Level {
            name: "The Gauntlet",
            planets: vec![
                planet(mid_x, add_sat(mid_y, -120_000_000), 45_000_000),
                planet(mid_x, add_sat(mid_y, 120_000_000), 45_000_000),
                planet(mul_div(width, 800_000, ONE as u128), mid_y, 20_000_000),
            ],
            initial_rocket: craft(100_000_000, mid_y, 150_000_000_000_000, 0, 90_000_000, 8_000_000),
            win_condition: WinCondition::CircleAnySpeed {
                x: sub_sat(width, 100_000_000),
                y: mid_y,
                radius: 60_000_000,
            },
        };
        let fourth = Level {
            name: "Binary Stars",
            planets: vec![
                moon(
                    mid_x,
                    mid_y,
                    35_000_000,
                    Orbit { radius: 120_000_000, speed: 800_000, initial_angle: 0 },
                ),
                moon(
                    mid_x,
                    mid_y,
                    35_000_000,
                    Orbit { radius: 120_000_000, speed: 800_000, initial_angle: PI },
                ),
            ],
            initial_rocket: craft(mid_x, 80_000_000, 0, 0, 180_000_000, 15_000_000),
            win_condition: WinCondition::Circle {
                x: mid_x,
                y: sub_sat(height, 80_000_000),
                radius: 60_000_000,
                max_speed: 50_000_000_000_000,
            },
        };
        let heavy_x: i64 = mul_div(width, 350_000, ONE as u128);
        let fifth = Level {
            name: "Slingshot",
            planets: vec![
                planet(heavy_x, mid_y, 50_000_000),
                moon(
                    heavy_x,
                    mid_y,
                    12_000_000,
                    Orbit { radius: 180_000_000, speed: -1_200_000, initial_angle: 0 },
                ),
            ],
            initial_rocket: craft(
                sub_sat(width, 120_000_000),
                100_000_000,
                -80_000_000_000_000,
                30_000_000_000_000,
                270_000_000,
                4_000_000,
            ),
            win_condition: WinCondition::CircleAnySpeed {
                x: 120_000_000,
                y: sub_sat(height, 120_000_000),
                radius: 70_000_000,
            },
        };
        assert(first.model() == first_level(width, height));
        assert(second.model() == second_level(width, height));
        assert(third.model() == gauntlet(width, height));
        assert(fourth.model() == binary_stars(width, height));
        assert(fifth.model() == slingshot(width, height));
        let levels: Vec<Level> = vec![first, second, third, fourth, fifth];
        levels
    }
}

} // verus!

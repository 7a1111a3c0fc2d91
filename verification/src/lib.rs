//! Deterministic physics core of a small gravity game.
//!
//! A craft coasts through the pull of round bodies, some of which circle a
//! fixed centre, and may burn a limited supply of fuel to change course.
//! All quantities are fixed-point numbers in an `i64`. Lengths, times and
//! angles count millionths of a unit (pixels, seconds, degrees, radians);
//! velocities and accelerations count millionths of a millionth, so that the
//! small change of velocity of a single step is kept. Every operation rounds
//! toward zero and saturates at the ends of the `i64` range, so a step of the
//! simulation is a total function of its inputs and is the same on every
//! machine. Sine and cosine are approximations within a millionth of the
//! true values.

pub mod controls;
pub mod display;
pub mod fixed;
pub mod laws;
pub mod levels;
pub mod menu;
pub mod physics;
pub mod sound;
pub mod state;
pub mod text;
pub mod trig;

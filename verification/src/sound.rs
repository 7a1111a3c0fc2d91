//! Which looping sounds play: the hum of the turning motor and the roar of
//! the engine.

use vstd::prelude::*;

verus! {

/// What is to be done with a looping sound.
#[derive(Clone, Copy, Debug, PartialEq, Eq)]
pub enum Cue {
    /// Start the loop.
    Start,
    /// Stop the loop.
    Stop,
    /// Leave the loop as it is, playing or silent.
    Keep,
}

/// The cues of one frame, one for each loop.
#[derive(Clone, Copy, Debug, PartialEq, Eq)]
pub struct SoundCues {
    pub motor: Cue,
    pub engine: Cue,
}

/// Which of the two loops are playing.
#[derive(Clone, Copy, Debug, PartialEq, Eq)]
pub struct Sounds {
    pub motor_playing: bool,
    pub engine_playing: bool,
}

/// The cue that brings a loop from `playing` to `wanted`.
pub open spec fn cue_for(playing: bool, wanted: bool) -> Cue {
    if wanted && !playing {
        Cue::Start
    } else if !wanted && playing {
        Cue::Stop
    } else {
        Cue::Keep
    }
}

impl Sounds {
    /// No loop is playing.
    pub fn new() -> (sounds: Self)
        ensures
            !sounds.motor_playing,
            !sounds.engine_playing,
    {
        Self { motor_playing: false, engine_playing: false }
    }

    /// Follows the craft for one frame: the motor hums while the craft is
    /// being turned, the engine roars while it is on. Each loop is started or
    /// stopped only when that changes.
    pub fn update(&mut self, rotating: bool, engine_on: bool) -> (cues: SoundCues)
        ensures
            final(self).motor_playing == rotating,
            final(self).engine_playing == engine_on,
            cues.motor == cue_for(old(self).motor_playing, rotating),
            cues.engine == cue_for(old(self).engine_playing, engine_on),
    {
        let mut motor = Cue::Keep;
        if rotating && !self.motor_playing {
            motor = Cue::Start;
            self.motor_playing = true;
        } else if !rotating && self.motor_playing {
            motor = Cue::Stop;
            self.motor_playing = false;
        }
        let mut engine = Cue::Keep;
        if engine_on && !self.engine_playing {
            engine = Cue::Start;
            self.engine_playing = true;
        } else if !engine_on && self.engine_playing {
            engine = Cue::Stop;
            self.engine_playing = false;
        }
        SoundCues { motor, engine }
    }
}

} // verus!

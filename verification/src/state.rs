//! The two-state mode that gates the ticks: while the simulation is paused,
//! ticks have no effect.

use crate::speed::SpeedSetting;
use vstd::prelude::*;

verus! {

/// Whether ticks count.
#[derive(Clone, Copy, Debug, PartialEq, Eq, Structural)]
pub enum SimulationState {
    Paused,
    Playing,
}

/// The state that belongs to a speed level: paused at zero, playing above.
pub open spec fn state_for_level(level: nat) -> SimulationState {
    if level == 0 {
        SimulationState::Paused
    } else {
        SimulationState::Playing
    }
}

impl SimulationState {
    /// The state after the speed has become `speed`. A playing simulation
    /// pauses when the speed reaches zero, a paused one plays when the speed
    /// leaves zero, and otherwise the state stays as it is.
    pub fn after_speed_change(self, speed: &SpeedSetting) -> (next: Self)
        ensures
            next == state_for_level(speed@),
            self == state_for_level(speed@) ==> next == self,
    {
        let stopped = speed.level() == 0;
        match self {
            SimulationState::Paused => if stopped {
                self
            } else {
                SimulationState::Playing
            },
            SimulationState::Playing => if stopped {
                SimulationState::Paused
            } else {
                self
            },
        }
    }

    /// Whether ticks count in this state.
    pub fn is_playing(&self) -> (playing: bool)
        ensures
            playing == (*self == SimulationState::Playing),
    {
        match self {
            SimulationState::Paused => false,
            SimulationState::Playing => true,
        }
    }
}

} // verus!

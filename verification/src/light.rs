//! The believed state of a light at a point in time, and the two error kinds
//! of the synchronization loop.

use vstd::prelude::*;

verus! {

/// Largest hue the slave device accepts.
pub const SLAVE_HUE_MAX: u64 = 360;

/// Largest saturation the slave device accepts.
pub const SLAVE_SAT_MAX: u64 = 100;

/// Largest brightness the slave device accepts.
pub const SLAVE_BRI_MAX: u64 = 100;

/// Power of a light. `Unknown` is the initial value before any successful
/// read or write; a successful read never yields it.
#[derive(PartialEq, Eq, Structural, Clone, Copy, Debug)]
pub enum Power {
    On,
    Off,
    Unknown,
}

/// The believed state of the master or the slave light. The color channels
/// are stored already converted to the slave device's ranges, for both
/// records, so that the two can be compared field for field.
#[derive(PartialEq, Eq, Structural, Clone, Copy, Debug)]
pub struct LightState {
    pub power: Power,
    pub hue: u64,
    pub sat: u64,
    pub bri: u64,
}

impl LightState {
    /// All color channels lie within the slave device's ranges.
    pub open spec fn wf(self) -> bool {
        self.hue <= SLAVE_HUE_MAX && self.sat <= SLAVE_SAT_MAX && self.bri <= SLAVE_BRI_MAX
    }

    /// The state both records start in: power never observed, channels zero.
    pub open spec fn spec_unknown() -> LightState {
        LightState { power: Power::Unknown, hue: 0, sat: 0, bri: 0 }
    }

    /// Whether the light is believed to be switched on.
    pub fn is_on(&self) -> (r: bool)
        ensures
            r == (self.power is On),
    {
        self.power == Power::On
    }

    /// Initial record for a light whose state has never been observed.
    pub fn unknown() -> (r: LightState)
        ensures
            r == LightState::spec_unknown(),
            r.wf(),
    {
        LightState { power: Power::Unknown, hue: 0, sat: 0, bri: 0 }
    }
}

/// The two failure kinds of the loop: a master read that could not produce a
/// state, and a slave write that was not fully applied.
#[derive(PartialEq, Eq, Structural, Clone, Copy, Debug)]
pub enum SyncError {
    ReadFailure,
    WriteFailure,
}

} // verus!

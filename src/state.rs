//! The four levels that persist from one message to the next.
use vstd::prelude::*;
use crate::engine::UNIT;

verus! {

/// Deflate, inflate and overinflate levels and the last pump reading, all in
/// millionths.
#[derive(Clone, Copy, Debug, PartialEq, Eq, Structural)]
pub struct SimulationState {
    pub deflate: i32,
    pub inflate: i32,
    pub overinflate: i32,
    pub last_pump: i32,
}

impl SimulationState {
    /// The ranges that a pump update keeps: deflate non-negative, inflate and
    /// overinflate between 0 and 1.0. Direct writes of a level may leave them.
    pub open spec fn in_range(self) -> bool {
        &&& 0 <= self.deflate
        &&& 0 <= self.inflate <= UNIT
        &&& 0 <= self.overinflate <= UNIT
    }

    /// The state at start-up: everything at zero.
    pub fn new() -> (r: SimulationState)
        ensures
            r == (SimulationState { deflate: 0, inflate: 0, overinflate: 0, last_pump: 0 }),
            r.in_range(),
    {
        SimulationState { deflate: 0, inflate: 0, overinflate: 0, last_pump: 0 }
    }
}

} // verus!

//! Timer extension (name "TIME").
use vstd::prelude::*;

verus! {

/// Extension id of the Timer extension.
pub const EID_TIME: usize = 0x54494D45;

/// Function id: program the clock for the next event.
pub const SET_TIMER: usize = 0;

} // verus!

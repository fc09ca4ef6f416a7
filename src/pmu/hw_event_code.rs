//! Hardware general event codes.
use vstd::prelude::*;

verus! {

/// Unused event, as an event index cannot be zero.
pub const PMU_HW_NO_EVENT: usize = 0;

/// Each CPU cycle.
pub const PMU_HW_CPU_CYCLES: usize = 1;

/// Each completed instruction.
pub const PMU_HW_INSTRUCTIONS: usize = 2;

/// A cache hit.
pub const PMU_HW_CACHE_REFERENCES: usize = 3;

/// A cache miss.
pub const PMU_HW_CACHE_MISSES: usize = 4;

/// A branch instruction.
pub const PMU_HW_BRANCH_INSTRUCTIONS: usize = 5;

/// A branch misprediction.
pub const PMU_HW_BRANCH_MISSES: usize = 6;

/// Each bus cycle.
pub const PMU_HW_BUS_CYCLES: usize = 7;

/// A stalled cycle in the front end of the pipeline.
pub const PMU_HW_STALLED_CYCLES_FRONTEND: usize = 8;

/// A stalled cycle in the back end of the pipeline.
pub const PMU_HW_STALLED_CYCLES_BACKEND: usize = 9;

/// Each reference CPU cycle.
pub const PMU_HW_REF_CPU_CYCLES: usize = 10;

} // verus!

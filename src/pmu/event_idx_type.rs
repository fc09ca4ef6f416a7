//! Event types of the performance monitoring unit.
use vstd::prelude::*;

verus! {

/// Hardware general events.
pub const PMU_EVENT_TYPE_HW: usize = 0;

/// Hardware cache events.
pub const PMU_EVENT_TYPE_HW_CACHE: usize = 1;

/// Hardware raw events.
pub const PMU_EVENT_TYPE_HW_RAW: usize = 2;

/// Firmware events.
pub const PMU_EVENT_TYPE_FW: usize = 15;

} // verus!

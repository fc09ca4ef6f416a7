//! Performance monitoring unit extension (name "PMU").
pub mod event_idx_type;
pub mod fw_event_code;
pub mod hw_cache_id;
pub mod hw_cache_op_id;
pub mod hw_cache_op_result_id;
pub mod hw_event_code;

use vstd::prelude::*;

verus! {

/// Extension id of the Performance Monitoring Unit extension.
pub const EID_PMU: usize = 0x504D55;

/// Function id: get the number of counters, hardware and firmware.
pub const PMU_NUM_COUNTERS: usize = 0;

/// Function id: get details about a counter.
pub const PMU_COUNTER_GET_INFO: usize = 1;

/// Function id: find and configure a counter from a set of counters.
pub const PMU_COUNTER_CONFIG_MATCHING: usize = 2;

/// Function id: start a set of counters on the calling hart with an initial
/// value.
pub const PMU_COUNTER_START: usize = 3;

/// Function id: stop a set of counters on the calling hart.
pub const PMU_COUNTER_STOP: usize = 4;

/// Function id: read the current value of a firmware counter.
pub const PMU_COUNTER_FW_READ: usize = 5;

/// Function id: read the upper 32 bits of a firmware counter.
pub const PMU_COUNTER_FW_READ_HI: usize = 6;

} // verus!

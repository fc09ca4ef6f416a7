//! System reset extension (name "SRST").
use vstd::prelude::*;

verus! {

/// Extension id of the System Reset extension.
pub const EID_SRST: usize = 0x53525354;

/// Reset type: power down the system.
pub const RESET_TYPE_SHUTDOWN: u32 = 0;

/// Reset type: power cycle the system.
pub const RESET_TYPE_COLD_REBOOT: u32 = 1;

/// Reset type: reset the processor and parts of the system.
pub const RESET_TYPE_WARM_REBOOT: u32 = 2;

/// Reset reason: none given.
pub const RESET_REASON_NO_REASON: u32 = 0;

/// Reset reason: the system failed.
pub const RESET_REASON_SYSTEM_FAILURE: u32 = 1;

/// Function id: reset the system.
pub const SYSTEM_RESET: usize = 0;

} // verus!

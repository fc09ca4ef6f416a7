//! Hart state management extension (name "HSM").
use vstd::prelude::*;

verus! {

/// Extension id of the Hart State Management extension.
pub const EID_HSM: usize = 0x48534D;

/// Hart state: powered up and executing normally.
pub const HART_STATE_STARTED: usize = 0;

/// Hart state: not executing in supervisor mode or any lower mode.
pub const HART_STATE_STOPPED: usize = 1;

/// Hart state: some hart has asked to start this one.
pub const HART_STATE_START_PENDING: usize = 2;

/// Hart state: this hart has asked to stop itself.
pub const HART_STATE_STOP_PENDING: usize = 3;

/// Hart state: in a platform-specific suspend or low power state.
pub const HART_STATE_SUSPENDED: usize = 4;

/// Hart state: this hart has asked to enter a suspend state.
pub const HART_STATE_SUSPEND_PENDING: usize = 5;

/// Hart state: an interrupt or event has woken this hart from suspend.
pub const HART_STATE_RESUME_PENDING: usize = 6;

/// Suspend type: the hart keeps its register state.
pub const HART_SUSPEND_TYPE_RETENTIVE: u32 = 0x0000_0000;

/// Suspend type: the hart loses its register state.
pub const HART_SUSPEND_TYPE_NON_RETENTIVE: u32 = 0x8000_0000;

/// Function id: start a hart.
pub const HART_START: usize = 0;

/// Function id: stop the calling hart.
pub const HART_STOP: usize = 1;

/// Function id: get the state of a hart.
pub const HART_GET_STATUS: usize = 2;

/// Function id: suspend the calling hart.
pub const HART_SUSPEND: usize = 3;

} // verus!

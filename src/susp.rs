//! System suspend extension (name "SUSP").
use vstd::prelude::*;

verus! {

/// Extension id of the System Suspend extension.
pub const EID_SUSP: usize = 0x53555350;

/// Function id: suspend the system.
pub const SUSPEND: usize = 0;

} // verus!

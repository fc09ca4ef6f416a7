//! Steal-time accounting extension (name "STA").
use vstd::prelude::*;

verus! {

/// Extension id of the Steal-time Accounting extension.
pub const EID_STA: usize = 0x535441;

/// Function id: set the shared memory for steal-time accounting.
pub const SET_SHMEM: usize = 0;

} // verus!

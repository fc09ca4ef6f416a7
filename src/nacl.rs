//! Nested acceleration extension (name "NACL").
pub mod feature_id;

use vstd::prelude::*;

verus! {

/// Extension id of the Nested Acceleration extension.
pub const EID_NACL: usize = 0x4E41434C;

/// Function id: probe a nested acceleration feature.
pub const PROBE_FEATURE: usize = 0;

/// Function id: set and enable the shared memory for nested acceleration on
/// the calling hart.
pub const SET_SHMEM: usize = 1;

/// Function id: synchronize the registers in the shared memory.
pub const SYNC_CSR: usize = 2;

/// Function id: synchronize the fences in the shared memory.
pub const SYNC_HFENCE: usize = 3;

/// Function id: synchronize registers and fences in the shared memory and
/// emulate the SRET instruction.
pub const SYNC_SRET: usize = 4;

} // verus!

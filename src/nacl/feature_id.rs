//! Features of the Nested Acceleration extension.
use vstd::prelude::*;

verus! {

/// Synchronize registers.
pub const SYNC_CSR: usize = 0;

/// Synchronize fences.
pub const SYNC_HFENCE: usize = 1;

/// Synchronize and emulate SRET.
pub const SYNC_SRET: usize = 2;

/// Swap registers automatically.
pub const AUTOSWAP_CSR: usize = 3;

} // verus!

//! Operations that hardware cache events count.
use vstd::prelude::*;

verus! {

/// Read a cache line.
pub const PMU_HW_CACHE_OP_READ: usize = 0;

/// Write a cache line.
pub const PMU_HW_CACHE_OP_WRITE: usize = 1;

/// Prefetch a cache line.
pub const PMU_HW_CACHE_OP_PREFETCH: usize = 2;

} // verus!

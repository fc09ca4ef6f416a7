//! Caches that hardware cache events refer to.
use vstd::prelude::*;

verus! {

/// Level 1 data cache.
pub const PMU_HW_CACHE_L1D: usize = 0;

/// Level 1 instruction cache.
pub const PMU_HW_CACHE_L1I: usize = 1;

/// Last level cache.
pub const PMU_HW_CACHE_LL: usize = 2;

/// Data TLB.
pub const PMU_HW_CACHE_DTLB: usize = 3;

/// Instruction TLB.
pub const PMU_HW_CACHE_ITLB: usize = 4;

/// Branch predictor unit.
pub const PMU_HW_CACHE_BPU: usize = 5;

/// NUMA node cache.
pub const PMU_HW_CACHE_NODE: usize = 6;

} // verus!

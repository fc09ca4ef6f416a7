//! Results of the operations that hardware cache events count.
use vstd::prelude::*;

verus! {

/// A cache access.
pub const PMU_HW_CACHE_RESULT_ACCESS: usize = 0;

/// A cache miss.
pub const PMU_HW_CACHE_RESULT_MISS: usize = 1;

} // verus!

//! Remote fence extension (name "RFNC").
use vstd::prelude::*;

verus! {

/// Extension id of the Remote Fence extension.
pub const EID_RFNC: usize = 0x52464E43;

/// Function id: execute FENCE.I on a set of harts.
pub const REMOTE_FENCE_I: usize = 0;

/// Function id: execute SFENCE.VMA on a set of harts.
pub const REMOTE_SFENCE_VMA: usize = 1;

/// Function id: execute SFENCE.VMA for one address space on a set of harts.
pub const REMOTE_SFENCE_VMA_ASID: usize = 2;

/// Function id: execute HFENCE.GVMA for one virtual machine on a set of harts.
pub const REMOTE_HFENCE_GVMA_VMID: usize = 3;

/// Function id: execute HFENCE.GVMA for all guests on a set of harts.
pub const REMOTE_HFENCE_GVMA: usize = 4;

/// Function id: execute HFENCE.VVMA for one address space on a set of harts.
pub const REMOTE_HFENCE_VVMA_ASID: usize = 5;

/// Function id: execute HFENCE.VVMA for the current guest on a set of harts.
pub const REMOTE_HFENCE_VVMA: usize = 6;

} // verus!

//! Firmware event codes.
use vstd::prelude::*;

verus! {

/// Misaligned load trap.
pub const PMU_FW_MISALIGNED_LOAD: usize = 0;

/// Misaligned store trap.
pub const PMU_FW_MISALIGNED_STORE: usize = 1;

/// Load access trap.
pub const PMU_FW_ACCESS_LOAD: usize = 2;

/// Store access trap.
pub const PMU_FW_ACCESS_STORE: usize = 3;

/// Illegal instruction trap.
pub const PMU_FW_ILLEGAL_INSN: usize = 4;

/// Timer programmed.
pub const PMU_FW_SET_TIMER: usize = 5;

/// Inter-processor interrupt sent to another hart.
pub const PMU_FW_IPI_SENT: usize = 6;

/// Inter-processor interrupt received from another hart.
pub const PMU_FW_IPI_RECEIVED: usize = 7;

/// FENCE.I request sent to another hart.
pub const PMU_FW_FENCE_I_SENT: usize = 8;

/// FENCE.I request received from another hart.
pub const PMU_FW_FENCE_I_RECEIVED: usize = 9;

/// SFENCE.VMA request sent to another hart.
pub const PMU_FW_SFENCE_VMA_SENT: usize = 10;

/// SFENCE.VMA request received from another hart.
pub const PMU_FW_SFENCE_VMA_RECEIVED: usize = 11;

/// SFENCE.VMA request for one address space sent to another hart.
pub const PMU_FW_SFENCE_VMA_ASID_SENT: usize = 12;

/// SFENCE.VMA request for one address space received from another hart.
pub const PMU_FW_SFENCE_VMA_ASID_RECEIVED: usize = 13;

/// HFENCE.GVMA request sent to another hart.
pub const PMU_FW_HFENCE_GVMA_SENT: usize = 14;

/// HFENCE.GVMA request received from another hart.
pub const PMU_FW_HFENCE_GVMA_RECEIVED: usize = 15;

/// HFENCE.GVMA request for one virtual machine sent to another hart.
pub const PMU_FW_HFENCE_GVMA_VMID_SENT: usize = 16;

/// HFENCE.GVMA request for one virtual machine received from another hart.
pub const PMU_FW_HFENCE_GVMA_VMID_RECEIVED: usize = 17;

/// HFENCE.VVMA request sent to another hart.
pub const PMU_FW_HFENCE_VVMA_SENT: usize = 18;

/// HFENCE.VVMA request received from another hart.
pub const PMU_FW_HFENCE_VVMA_RECEIVED: usize = 19;

/// HFENCE.VVMA request for one address space sent to another hart.
pub const PMU_FW_HFENCE_VVMA_ASID_SENT: usize = 20;

/// HFENCE.VVMA request for one address space received from another hart.
pub const PMU_FW_HFENCE_VVMA_ASID_RECEIVED: usize = 21;

/// Platform-specific firmware event, encoded in the event data.
pub const PMU_FW_PLATFORM: usize = 65535;

} // verus!

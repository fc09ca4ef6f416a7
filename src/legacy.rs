//! Legacy extensions: each function has an extension id of its own and no
//! function id.
use vstd::prelude::*;

verus! {

/// Program the clock for the next event.
pub const LEGACY_SET_TIMER: usize = 0;

/// Write a byte to the debug console.
pub const LEGACY_CONSOLE_PUTCHAR: usize = 1;

/// Read a byte from the debug console.
pub const LEGACY_CONSOLE_GETCHAR: usize = 2;

/// Clear a pending inter-processor interrupt.
pub const LEGACY_CLEAR_IPI: usize = 3;

/// Send an inter-processor interrupt to a set of harts.
pub const LEGACY_SEND_IPI: usize = 4;

/// Execute FENCE.I on a set of harts.
pub const LEGACY_REMOTE_FENCE_I: usize = 5;

/// Execute SFENCE.VMA on a set of harts.
pub const LEGACY_REMOTE_SFENCE_VMA: usize = 6;

/// Execute SFENCE.VMA for one address space on a set of harts.
pub const LEGACY_REMOTE_SFENCE_VMA_ASID: usize = 7;

/// Put all harts to shutdown state.
pub const LEGACY_SHUTDOWN: usize = 8;

} // verus!

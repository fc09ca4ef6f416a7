//! Collaborative processor performance control extension (name "CPPC").
use vstd::prelude::*;

verus! {

/// Extension id of the CPPC extension.
pub const EID_CPPC: usize = 0x43505043;

/// Function id: probe whether a register is implemented.
pub const PROBE: usize = 0;

/// Function id: read a register.
pub const READ: usize = 1;

/// Function id: read the upper 32 bits of a 64-bit register.
pub const READ_HI: usize = 2;

/// Function id: write a register.
pub const WRITE: usize = 3;

} // verus!

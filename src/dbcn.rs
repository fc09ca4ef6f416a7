//! Debug console extension (name "DBCN").
use vstd::prelude::*;

verus! {

/// Extension id of the Debug Console extension.
pub const EID_DBCN: usize = 0x4442434E;

/// Function id: write bytes to the debug console.
pub const CONSOLE_WRITE: usize = 0;

/// Function id: read bytes from the debug console.
pub const CONSOLE_READ: usize = 1;

/// Function id: write one byte to the debug console.
pub const CONSOLE_WRITE_BYTE: usize = 2;

} // verus!

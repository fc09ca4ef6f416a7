//! Base extension: the version and identity of the implementation, and
//! probing of the other extensions.
pub mod impl_id;

use vstd::prelude::*;

verus! {

/// Extension id of the Base extension.
pub const EID_BASE: usize = 0x10;

/// Function id: get the version of the interface specification.
pub const GET_SPEC_VERSION: usize = 0x0;

/// Function id: get the implementation id.
pub const GET_SBI_IMPL_ID: usize = 0x1;

/// Function id: get the implementation version.
pub const GET_SBI_IMPL_VERSION: usize = 0x2;

/// Function id: probe whether an extension is available.
pub const PROBE_EXTENSION: usize = 0x3;

/// Function id: get the machine vendor id.
pub const GET_MVENDORID: usize = 0x4;

/// Function id: get the machine architecture id.
pub const GET_MARCHID: usize = 0x5;

/// Function id: get the machine implementation id.
pub const GET_MIMPID: usize = 0x6;

} // verus!

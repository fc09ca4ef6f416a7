//! Inter-processor interrupt extension (name "sPI").
use vstd::prelude::*;

verus! {

/// Extension id of the IPI extension.
pub const EID_SPI: usize = 0x735049;

/// Function id: send an inter-processor interrupt to a set of harts.
pub const SEND_IPI: usize = 0;

} // verus!

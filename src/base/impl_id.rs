//! Ids of known implementations, as the Base extension reports them.
use vstd::prelude::*;

verus! {

/// Berkeley Boot Loader.
pub const IMPL_BBL: usize = 0;

/// OpenSBI.
pub const IMPL_OPEN_SBI: usize = 1;

/// Xvisor.
pub const IMPL_XVISOR: usize = 2;

/// KVM.
pub const IMPL_KVM: usize = 3;

/// RustSBI.
pub const IMPL_RUST_SBI: usize = 4;

/// Diosix.
pub const IMPL_DIOSIX: usize = 5;

/// Coffer.
pub const IMPL_COFFER: usize = 6;

} // verus!

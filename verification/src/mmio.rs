//! One trapped access of a guest to device memory.
use vstd::prelude::*;

verus! {

/// An address in the guest's physical memory, or in a memory BAR.
pub type GuestPhysAddr = usize;

/// A trapped load or store. For a store `value` is what the guest wrote; for a
/// load the handler leaves there what the guest is to see.
#[derive(Clone, Copy, Debug, PartialEq, Eq)]
pub struct MMIOAccess {
    pub address: GuestPhysAddr,
    pub size: usize,
    pub is_write: bool,
    pub value: usize,
}

impl MMIOAccess {
    /// The same access, answered with `value`.
    pub open spec fn answered(self, value: usize) -> MMIOAccess {
        MMIOAccess { value, ..self }
    }
}

} // verus!

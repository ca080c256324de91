//! The error type shared by every handler of the virtual PCI devices.
use vstd::prelude::*;

verus! {

/// An error raised while an access is emulated, as an errno-style code.
#[derive(Clone, Copy, Debug, PartialEq, Eq)]
pub struct HvError {
    pub code: i32,
}

/// What a handler returns: a value, or the reason why there is none.
pub type HvResult<T> = Result<T, HvError>;

} // verus!

//! Handlers of whole capabilities.
use vstd::prelude::*;

use crate::error::HvResult;
use crate::mmio::MMIOAccess;

verus! {

/// The capabilities that have an area in a BAR.
#[derive(Clone, Copy, Debug, PartialEq, Eq)]
pub enum CapBarArea {
    VirtioCommonCfg,
}

/// Takes an access to a common configuration and leaves it as it is.
pub fn virtio_common_cfg_handler(mmio_ac: &mut MMIOAccess, base: usize) -> (result: HvResult<()>)
    ensures
        result is Ok,
        *final(mmio_ac) == *old(mmio_ac),
{
    Ok(())
}

} // verus!

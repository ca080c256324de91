//! The interrupt status structure.
use vstd::prelude::*;

use crate::area::{AreaEffect, AreaInBar, EffectModel, NoPeers};
use crate::error::HvResult;
use crate::mmio::MMIOAccess;

verus! {

/// The interrupt status of a device.
#[derive(Clone, Copy, Debug, PartialEq, Eq)]
pub struct VirtioISRCap {
    pub isr: u32,
}

impl View for VirtioISRCap {
    type V = u32;

    open spec fn view(&self) -> u32 {
        self.isr
    }
}

impl VirtioISRCap {
    /// No interrupt to see to.
    pub fn new() -> (cap: Self)
        ensures
            cap@ == 0,
    {
        VirtioISRCap { isr: 0 }
    }

    /// Sets the status.
    pub fn set_isr(&mut self, value: u32)
        ensures
            final(self)@ == value,
    {
        self.isr = value;
    }
}

impl AreaInBar for VirtioISRCap {
    type Peers = NoPeers;

    open spec fn read_allowed(area: u32, access: MMIOAccess, peers: ()) -> bool {
        true
    }

    /// The status is read at address 0, and stays as it is.
    open spec fn read_result(area: u32, access: MMIOAccess, peers: ()) -> (u32, MMIOAccess) {
        if access.address == 0 {
            (area, access.answered(area as usize))
        } else {
            (area, access)
        }
    }

    open spec fn write_allowed(area: u32, access: MMIOAccess, peers: ()) -> bool {
        true
    }

    /// The driver cannot write the status.
    open spec fn write_result(area: u32, access: MMIOAccess, peers: ()) -> (u32, (), EffectModel) {
        (area, (), EffectModel::Nothing)
    }

    fn can_read(&self, mmio_ac: &MMIOAccess, peers: &NoPeers) -> (allowed: bool) {
        true
    }

    fn can_write(&self, mmio_ac: &MMIOAccess, peers: &NoPeers) -> (allowed: bool) {
        true
    }

    fn read(&mut self, mmio_ac: &mut MMIOAccess, peers: &NoPeers) -> (result: HvResult<()>) {
        let offset: usize = mmio_ac.address;
        match offset {
            0x00 => {
                mmio_ac.value = self.isr as usize;
            },
            _ => {},
        }
        Ok(())
    }

    fn write(&mut self, mmio_ac: &MMIOAccess, peers: &mut NoPeers) -> (result: HvResult<
        AreaEffect,
    >) {
        Ok(AreaEffect::Nothing)
    }
}

/// Whatever the driver writes, the status that it reads is the one that was set.
pub proof fn law_status_is_read_only(isr: u32, store: MMIOAccess, load: MMIOAccess)
    requires
        load.address == 0,
    ensures
        ({
            let written = VirtioISRCap::write_result(isr, store, ()).0;
            VirtioISRCap::read_result(written, load, ()).1.value == isr
        }),
{
}

/// The status is what was set. It is read at address 0 and nowhere else, in an
/// access of any size; reading it and writing to it leave it as it is, and a write
/// leaves nothing to do.
pub proof fn law_status_is_read_at_zero_only(cap: VirtioISRCap, access: MMIOAccess)
    ensures
        cap@ == cap.isr,
        VirtioISRCap::read_allowed(cap@, access, ()),
        VirtioISRCap::write_allowed(cap@, access, ()),
        ({
            let (isr, answered) = VirtioISRCap::read_result(cap@, access, ());
            &&& isr == cap.isr
            &&& answered.value == if access.address == 0 {
                cap.isr as usize
            } else {
                access.value
            }
            &&& (answered.address, answered.size, answered.is_write) == (
                access.address,
                access.size,
                access.is_write,
            )
        }),
        VirtioISRCap::write_result(cap@, access, ()) == (cap.isr, (), EffectModel::Nothing),
{
}

} // verus!

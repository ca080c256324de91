//! The configuration space of a virtual PCI device, with the structures of the
//! device that its BARs hold.
use vstd::prelude::*;

use std::collections::BTreeMap;

use crate::area::TableSlot;
use crate::bar::{
    bar_allows, bar_served, AreaEntry, AreasModel, BarAreaManager, BarOutcome, DeviceAreas,
    NUM_BARS,
};
use crate::capability::{PciCapabilityRegion, PciConfigAddress, VirtioPciCap};
use crate::error::HvResult;
use crate::mmio::MMIOAccess;
use crate::msix_cap::MsixCap;

verus! {

/// The kinds of memory BAR.
#[derive(Clone, Copy, Debug, PartialEq, Eq)]
pub enum PciMemType {
    Mem32,
    Mem64Low,
    Mem64High,
}

/// The handlers to which trapped accesses to a BAR can go.
#[derive(Clone, Copy, Debug, PartialEq, Eq)]
pub enum MmioHandler {
    VirtioRng,
}

/// One BAR: its kind, once it is set up, its size, the address that the guest has
/// given it, and the handler of accesses to it.
#[derive(Clone, Copy, Debug, PartialEq, Eq)]
pub struct PciMem {
    pub mem_type: Option<PciMemType>,
    pub prefetchable: bool,
    pub size: u64,
    pub virtual_value: u64,
    pub handler: Option<MmioHandler>,
}

impl PciMem {
    /// A BAR that is not set up.
    pub open spec fn unused() -> PciMem {
        PciMem {
            mem_type: None,
            prefetchable: false,
            size: 0,
            virtual_value: 0,
            handler: None,
        }
    }

    /// A BAR that is set up.
    pub open spec fn set_up(
        mem_type: PciMemType,
        prefetchable: bool,
        size: u64,
        virtual_value: u64,
        handler: Option<MmioHandler>,
    ) -> PciMem {
        PciMem { mem_type: Some(mem_type), prefetchable, size, virtual_value, handler }
    }

    /// Sets the BAR up.
    pub fn config_init(
        &mut self,
        mem_type: PciMemType,
        prefetchable: bool,
        size: u64,
        virtual_value: u64,
        handler: Option<MmioHandler>,
    )
        ensures
            *final(self) == PciMem::set_up(mem_type, prefetchable, size, virtual_value, handler),
    {
        *self = PciMem { mem_type: Some(mem_type), prefetchable, size, virtual_value, handler };
    }
}

/// A capability of a virtual device.
#[derive(Clone, Copy, Debug, PartialEq, Eq)]
pub enum PciCapability {
    Virtio(VirtioPciCap),
    Msix(MsixCap),
}

impl PciCapabilityRegion for PciCapability {
    open spec fn read_value(&self, offset: PciConfigAddress, size: usize) -> u32 {
        match *self {
            PciCapability::Virtio(cap) => cap.read_value(offset, size),
            PciCapability::Msix(cap) => cap.read_value(offset, size),
        }
    }

    open spec fn after_write(self, offset: PciConfigAddress, size: usize, value: u32) -> Self {
        match self {
            PciCapability::Virtio(cap) => PciCapability::Virtio(
                cap.after_write(offset, size, value),
            ),
            PciCapability::Msix(cap) => PciCapability::Msix(cap.after_write(offset, size, value)),
        }
    }

    open spec fn byte_size(&self) -> usize {
        match *self {
            PciCapability::Virtio(cap) => cap.byte_size(),
            PciCapability::Msix(cap) => cap.byte_size(),
        }
    }

    open spec fn next_offset(&self) -> PciConfigAddress {
        match *self {
            PciCapability::Virtio(cap) => cap.next_offset(),
            PciCapability::Msix(cap) => cap.next_offset(),
        }
    }

    fn read(&self, offset: PciConfigAddress, size: usize) -> (result: HvResult<u32>) {
        match self {
            PciCapability::Virtio(cap) => cap.read(offset, size),
            PciCapability::Msix(cap) => cap.read(offset, size),
        }
    }

    fn write(&mut self, offset: PciConfigAddress, size: usize, value: u32) -> (result: HvResult<
        (),
    >) {
        match self {
            PciCapability::Virtio(cap) => cap.write(offset, size, value),
            PciCapability::Msix(cap) => cap.write(offset, size, value),
        }
    }

    fn get_offset(&self) -> (offset: PciConfigAddress) {
        0
    }

    fn get_size(&self) -> (size: usize) {
        match self {
            PciCapability::Virtio(cap) => cap.get_size(),
            PciCapability::Msix(cap) => cap.get_size(),
        }
    }

    fn next_cap(&self) -> (next: HvResult<PciConfigAddress>) {
        match self {
            PciCapability::Virtio(cap) => cap.next_cap(),
            PciCapability::Msix(cap) => cap.next_cap(),
        }
    }
}

/// What a device's handler does with an access to configuration space.
#[derive(Clone, Copy, Debug, PartialEq, Eq)]
pub enum PciConfigAccessStatus {
    /// The access is done, with this value.
    Done(usize),
    /// The access is left to what every virtual device does.
    Default,
    /// The access is refused.
    Reject,
}

/// The configuration space of a virtual device. Capabilities are kept by the
/// offset at which they start; `access` holds the ranges of offsets, end
/// excluded, at which accesses are emulated.
#[derive(Debug)]
pub struct VirtualPciConfigSpace {
    pub requester_id: u16,
    pub id: (u16, u16),
    pub class_and_revision: (u8, u8, u8, u8),
    pub bars: [PciMem; 6],
    pub capabilities: BTreeMap<u64, PciCapability>,
    pub capability_pointer: PciConfigAddress,
    pub access: Vec<(usize, usize)>,
    pub msix_table: Option<TableSlot>,
    pub areas: DeviceAreas,
    pub bar_areas: BarAreaManager,
}

/// The contents of a `VirtualPciConfigSpace`.
pub struct ConfigSpaceModel {
    pub requester_id: u16,
    pub id: (u16, u16),
    pub class_and_revision: (u8, u8, u8, u8),
    pub bars: Seq<PciMem>,
    pub capabilities: Map<u64, PciCapability>,
    pub capability_pointer: PciConfigAddress,
    pub access: Seq<(usize, usize)>,
    pub msix_table: Option<TableSlot>,
    pub areas: AreasModel,
    pub bar_areas: Seq<Seq<AreaEntry>>,
}

impl View for VirtualPciConfigSpace {
    type V = ConfigSpaceModel;

    open spec fn view(&self) -> ConfigSpaceModel {
        ConfigSpaceModel {
            requester_id: self.requester_id,
            id: self.id,
            class_and_revision: self.class_and_revision,
            bars: self.bars@,
            capabilities: self.capabilities@,
            capability_pointer: self.capability_pointer,
            access: self.access@,
            msix_table: self.msix_table,
            areas: self.areas@,
            bar_areas: self.bar_areas@,
        }
    }
}

/// The first BAR from `from` on that is set up and that the guest has put at
/// `base`.
pub open spec fn bar_at(bars: Seq<PciMem>, from: int, base: usize) -> Option<usize>
    decreases bars.len() - from,
{
    if from < 0 || from >= bars.len() {
        None
    } else if bars[from].mem_type is Some && bars[from].virtual_value == base as u64 {
        Some(from as usize)
    } else {
        bar_at(bars, from + 1, base)
    }
}

impl ConfigSpaceModel {
    /// A device that nothing is set up of.
    pub open spec fn blank(requester_id: u16) -> ConfigSpaceModel {
        ConfigSpaceModel {
            requester_id,
            id: (0, 0),
            class_and_revision: (0, 0, 0, 0),
            bars: Seq::new(NUM_BARS as nat, |i: int| PciMem::unused()),
            capabilities: Map::empty(),
            capability_pointer: 0,
            access: Seq::empty(),
            msix_table: None,
            areas: AreasModel::empty(),
            bar_areas: Seq::new(NUM_BARS as nat, |i: int| Seq::<AreaEntry>::empty()),
        }
    }

    /// Whether an access at `offset` is emulated.
    pub open spec fn emulates(self, offset: int) -> bool {
        exists|i: int|
            0 <= i < self.access.len() && (#[trigger] self.access[i]).0 <= offset
                < self.access[i].1
    }

    /// The BAR that the guest has put at `base`.
    pub open spec fn my_bar(self, base: usize) -> Option<usize> {
        bar_at(self.bars, 0, base)
    }

    /// The device once an access to one of its BARs was served.
    pub open spec fn with_areas(self, areas: AreasModel) -> ConfigSpaceModel {
        ConfigSpaceModel { areas, ..self }
    }
}

impl VirtualPciConfigSpace {
    /// A device that nothing is set up of, with its identity on the bus.
    pub fn new(requester_id: u16) -> (dev: Self)
        ensures
            dev@ == ConfigSpaceModel::blank(requester_id),
    {
        let unused = PciMem {
            mem_type: None,
            prefetchable: false,
            size: 0,
            virtual_value: 0,
            handler: None,
        };
        let dev = VirtualPciConfigSpace {
            requester_id,
            id: (0, 0),
            class_and_revision: (0, 0, 0, 0),
            bars: [unused, unused, unused, unused, unused, unused],
            capabilities: BTreeMap::new(),
            capability_pointer: 0,
            access: Vec::new(),
            msix_table: None,
            areas: DeviceAreas::new(),
            bar_areas: BarAreaManager::new(),
        };
        assert(dev@.bars =~= ConfigSpaceModel::blank(requester_id).bars);
        dev
    }

    /// The BAR that the guest has put at `base`, if there is one.
    pub fn is_my_bar_addr(&self, base: usize) -> (bar: Option<usize>)
        ensures
            bar == self@.my_bar(base),
            bar matches Some(n) ==> n < NUM_BARS,
    {
        let mut i: usize = 0;
        while i < NUM_BARS
            invariant
                i <= NUM_BARS,
                self@.my_bar(base) == bar_at(self@.bars, i as int, base),
            decreases NUM_BARS - i,
        {
            if self.bars[i].mem_type.is_some() && self.bars[i].virtual_value == base as u64 {
                return Some(i);
            }
            i = i + 1;
        }
        None
    }

    /// Tells whether an access to `bar` can be served.
    pub fn can_distribute(&self, bar: usize, mmio_ac: &MMIOAccess) -> (allowed: bool)
        ensures
            allowed == bar_allows(self@.bar_areas, bar, *mmio_ac, self@.areas),
    {
        self.bar_areas.can_handle(bar, mmio_ac, &self.areas)
    }

    /// Lets the structure that an access to `bar` is for serve it.
    pub fn bar_mmio_distribute(&mut self, bar: usize, mmio_ac: &mut MMIOAccess) -> (result: HvResult<
        BarOutcome,
    >)
        requires
            bar_allows(old(self)@.bar_areas, bar, *old(mmio_ac), old(self)@.areas),
        ensures
            result matches Ok(outcome) && ({
                let (areas, answered, served) = bar_served(
                    old(self)@.bar_areas,
                    bar,
                    *old(mmio_ac),
                    old(self)@.areas,
                );
                &&& final(self)@ == old(self)@.with_areas(areas)
                &&& *final(mmio_ac) == answered
                &&& outcome@ == served
            }),
    {
        self.bar_areas.handle_bar_access(bar, mmio_ac, &mut self.areas)
    }

    /// Tells the queues of common configuration `common` the identifier that the
    /// backend has given the device.
    pub fn finish_config(&mut self, common: usize, dev_id: u16)
        requires
            common < old(self)@.areas.commons.len(),
            old(self)@.areas.commons[common as int].well_formed(old(self)@.areas.peers.queues),
        ensures
            final(self)@ == old(self)@.with_areas(
                old(self)@.areas.with_identifier(common as int, dev_id),
            ),
    {
        self.areas.commons[common].assign_dev_id(dev_id, &mut self.areas.peers.queues);
    }
}

/// The BAR that a device says is at an address is set up, the guest has given it that
/// very address, in all bits, and no set-up BAR before it has the address. A device
/// that says that none is there has no set-up BAR with the address.
pub proof fn law_bar_is_found_by_its_address(dev: ConfigSpaceModel, base: usize)
    requires
        dev.bars.len() == NUM_BARS,
    ensures
        match dev.my_bar(base) {
            Some(n) => {
                &&& n < dev.bars.len()
                &&& dev.bars[n as int].mem_type is Some
                &&& dev.bars[n as int].virtual_value == base
                &&& forall|m: int|
                    0 <= m < n && (#[trigger] dev.bars[m]).mem_type is Some
                        ==> dev.bars[m].virtual_value != base
            },
            None => forall|m: int|
                0 <= m < dev.bars.len() && (#[trigger] dev.bars[m]).mem_type is Some
                    ==> dev.bars[m].virtual_value != base,
        },
{
    lemma_bar_at(dev.bars, 0, base);
}

/// What a search for a BAR finds from `from` on.
proof fn lemma_bar_at(bars: Seq<PciMem>, from: int, base: usize)
    requires
        0 <= from,
        bars.len() == NUM_BARS,
    ensures
        match bar_at(bars, from, base) {
            Some(n) => {
                &&& from <= n < bars.len()
                &&& bars[n as int].mem_type is Some
                &&& bars[n as int].virtual_value == base
                &&& forall|m: int|
                    from <= m < n && (#[trigger] bars[m]).mem_type is Some
                        ==> bars[m].virtual_value != base
            },
            None => forall|m: int|
                from <= m < bars.len() && (#[trigger] bars[m]).mem_type is Some
                    ==> bars[m].virtual_value != base,
        },
    decreases bars.len() - from,
{
    if from < bars.len() && !(bars[from].mem_type is Some && bars[from].virtual_value == base) {
        lemma_bar_at(bars, from + 1, base);
    }
}

/// A BAR that is set up is what it was set up to be.
pub proof fn law_bar_is_set_up_as_told(
    mem_type: PciMemType,
    prefetchable: bool,
    size: u64,
    virtual_value: u64,
    handler: Option<MmioHandler>,
)
    ensures
        ({
            let bar = PciMem::set_up(mem_type, prefetchable, size, virtual_value, handler);
            &&& bar.mem_type == Some(mem_type)
            &&& bar.prefetchable == prefetchable
            &&& bar.size == size
            &&& bar.virtual_value == virtual_value
            &&& bar.handler == handler
        }),
{
}

/// In configuration space a capability is the one that it holds.
pub proof fn law_capability_is_the_one_it_holds(
    virtio: VirtioPciCap,
    msix: MsixCap,
    offset: PciConfigAddress,
    size: usize,
    value: u32,
)
    ensures
        ({
            let cap = PciCapability::Virtio(virtio);
            &&& cap.read_value(offset, size) == virtio.read_value(offset, size)
            &&& cap.after_write(offset, size, value) == PciCapability::Virtio(
                virtio.after_write(offset, size, value),
            )
            &&& cap.byte_size() == virtio.byte_size()
            &&& cap.next_offset() == virtio.next_offset()
        }),
        ({
            let cap = PciCapability::Msix(msix);
            &&& cap.read_value(offset, size) == msix.read_value(offset, size)
            &&& cap.after_write(offset, size, value) == PciCapability::Msix(
                msix.after_write(offset, size, value),
            )
            &&& cap.byte_size() == msix.byte_size()
            &&& cap.next_offset() == msix.next_offset()
        }),
{
}

/// A new device has its identity on the bus and nothing else: no BAR is set up, and
/// it has no capabilities, no structures and no emulated offsets.
pub proof fn law_new_device_is_blank(requester_id: u16, i: int, offset: int)
    requires
        0 <= i < 6,
    ensures
        ({
            let dev = ConfigSpaceModel::blank(requester_id);
            &&& dev.requester_id == requester_id
            &&& dev.id == (0u16, 0u16)
            &&& dev.class_and_revision == (0u8, 0u8, 0u8, 0u8)
            &&& dev.bars.len() == 6
            &&& dev.bars[i].mem_type is None && dev.bars[i].handler is None
            &&& !dev.bars[i].prefetchable && dev.bars[i].size == 0
            &&& dev.bars[i].virtual_value == 0
            &&& dev.capabilities.dom() == Set::<u64>::empty()
            &&& dev.capability_pointer == 0
            &&& dev.access.len() == 0 && !dev.emulates(offset)
            &&& dev.msix_table is None
            &&& dev.areas == AreasModel::empty()
            &&& dev.bar_areas.len() == 6 && dev.bar_areas[i].len() == 0
        }),
{
}

/// Serving an access changes the structures of a device and nothing else of it.
pub proof fn law_device_keeps_all_but_its_structures(dev: ConfigSpaceModel, areas: AreasModel)
    ensures
        ({
            let after = dev.with_areas(areas);
            &&& after.areas == areas
            &&& after.requester_id == dev.requester_id
            &&& after.id == dev.id
            &&& after.class_and_revision == dev.class_and_revision
            &&& after.bars == dev.bars
            &&& after.capabilities == dev.capabilities
            &&& after.capability_pointer == dev.capability_pointer
            &&& after.access == dev.access
            &&& after.msix_table == dev.msix_table
            &&& after.bar_areas == dev.bar_areas
        }),
{
}

/// The contents of a device are its fields.
pub proof fn law_device_is_seen_whole(dev: VirtualPciConfigSpace)
    ensures
        dev@.requester_id == dev.requester_id,
        dev@.id == dev.id,
        dev@.class_and_revision == dev.class_and_revision,
        dev@.bars == dev.bars@,
        dev@.capabilities == dev.capabilities@,
        dev@.capability_pointer == dev.capability_pointer,
        dev@.access == dev.access@,
        dev@.msix_table == dev.msix_table,
        dev@.areas == dev.areas@,
        dev@.bar_areas == dev.bar_areas@,
{
}

} // verus!

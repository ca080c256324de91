//! The virtual entropy device: what it is made of, and where accesses to its
//! BARs go.
use vstd::prelude::*;

use crate::area::{views, EffectModel, PeersModel};
use crate::bar::{
    covers, goes_to, law_last_added_structure_wins, routed, AreaEntry, AreaRef, AreasModel,
    BarOutcome, NUM_BARS,
};
use crate::bridge::MAX_DEVS;
use crate::bus::{bus_allows, bus_served, can_handle_mmio, find_device};
use crate::capability::{
    law_virtio_capability_layout, PciCapabilityRegion, PciConfigAddress, VirtioCfgType,
    VirtioPciCap,
};
use crate::common_cfg::{completes_setup, lists, CommonCfgModel, VirtioPciCommonCfg};
use crate::config_space::{
    ConfigSpaceModel, MmioHandler, PciCapability, PciConfigAccessStatus, PciMem, PciMemType,
    VirtualPciConfigSpace,
};
use crate::error::HvResult;
use crate::isr::VirtioISRCap;
use crate::mmio::MMIOAccess;
use crate::msix_cap::{law_msix_capability_layout, law_new_msix_capability, MsixCap};
use crate::msix_table::{MsixTable, MsixTableModel};
use crate::notify::{can_notify, notified_at, notify_address, queues_at, NotifyModel, VirtioNotifyCap};
use crate::virtqueue::Virtqueue;

verus! {

/// The handler of virtual entropy devices.
#[derive(Clone, Copy, Debug, PartialEq, Eq)]
pub struct VirtioRngHandler;

/// The handler of virtual entropy devices.
pub const HANDLER: VirtioRngHandler = VirtioRngHandler;

/// The BARs of an entropy device: the vector table in BAR 1, the virtio
/// structures in the 64-bit BAR made of 4 and 5.
pub open spec fn rng_bars(bars: Seq<PciMem>) -> Seq<PciMem> {
    let handler = Some(MmioHandler::VirtioRng);
    bars.update(1, PciMem::set_up(PciMemType::Mem32, false, 0x4000, 0, handler)).update(
        4,
        PciMem::set_up(PciMemType::Mem64Low, true, 0x1_0000, 0, handler),
    ).update(5, PciMem::set_up(PciMemType::Mem64High, true, 0, 0, handler))
}

/// The capabilities of an entropy device, each at its offset.
pub open spec fn rng_capabilities(capabilities: Map<u64, PciCapability>) -> Map<
    u64,
    PciCapability,
> {
    let virtio = |kind: VirtioCfgType, next: u8, len: u8, offset: u32|
        PciCapability::Virtio(VirtioPciCap::describing(kind, next, len, 4, offset, 0x1000));
    capabilities.insert(0x40, virtio(VirtioCfgType::CommonCfg, 0, 0x10, 0)).insert(
        0x50,
        virtio(VirtioCfgType::IsrCfg, 0x40, 0x10, 0x1000),
    ).insert(0x60, virtio(VirtioCfgType::NotifyCfg(4), 0x50, 0x14, 0x2000)).insert(
        0x74,
        PciCapability::Msix(MsixCap::fresh(0x60, 0x10)),
    )
}

/// The structures of an entropy device, added to those that are there: one of
/// each kind, a table of 16 vectors, and one queue.
pub open spec fn rng_areas(areas: AreasModel, requester_id: u16) -> AreasModel {
    let table = areas.peers.tables.len() as usize;
    let queue = areas.peers.queues.len() as usize;
    let notify = NotifyModel::fresh(0x50, 0x2000, 0x1000);
    AreasModel {
        commons: areas.commons.push(CommonCfgModel::fresh().with_queue(queue)),
        isrs: areas.isrs.push(1),
        notifies: areas.notifies.push(
            NotifyModel { queue_list: seq![(0x2000usize, queue)], ..notify },
        ),
        peers: PeersModel {
            queues: areas.peers.queues.push(Virtqueue::fresh(table, 0)),
            tables: areas.peers.tables.push(
                MsixTableModel::fresh(0x10, requester_id as usize),
            ),
        },
    }
}

/// Where the structures of an entropy device lie in its BARs.
pub open spec fn rng_bar_areas(
    bar_areas: Seq<Seq<AreaEntry>>,
    areas: AreasModel,
) -> Seq<Seq<AreaEntry>> {
    let common = AreaRef::CommonCfg(areas.commons.len() as usize);
    let isr = AreaRef::Isr(areas.isrs.len() as usize);
    let notify = AreaRef::Notify(areas.notifies.len() as usize);
    let table = AreaRef::MsixTable(areas.peers.tables.len() as usize);
    bar_areas.update(
        4,
        bar_areas[4].push((0, 0x1000, common)).push((0x1000, 0x1000, isr)).push(
            (0x2000, 0x1000, notify),
        ),
    ).update(1, bar_areas[1].push((0, 0x800, table)))
}

/// The ranges of configuration space at which an entropy device is emulated: the
/// capability pointer and the capabilities.
pub open spec fn rng_access() -> Seq<(usize, usize)> {
    seq![
        (0x34usize, 0x38usize),
        (0x40usize, 0x50usize),
        (0x50usize, 0x60usize),
        (0x60usize, 0x70usize),
        (0x70usize, 0x90usize),
    ]
}

/// A device once it was made an entropy device.
pub open spec fn rng_device(dev: ConfigSpaceModel) -> ConfigSpaceModel {
    ConfigSpaceModel {
        requester_id: dev.requester_id,
        id: (0x1044, 0x1af4),
        class_and_revision: (0, 0, 0, 0xff),
        bars: rng_bars(dev.bars),
        capabilities: rng_capabilities(dev.capabilities),
        capability_pointer: 0x74,
        access: dev.access + rng_access(),
        msix_table: Some(dev.areas.peers.tables.len() as usize),
        areas: rng_areas(dev.areas, dev.requester_id),
        bar_areas: rng_bar_areas(dev.bar_areas, dev.areas),
    }
}

impl VirtioRngHandler {
    /// Every read of configuration space is left to what every virtual device does.
    pub fn read_cfg(&self, offset: PciConfigAddress, size: usize) -> (result: HvResult<
        PciConfigAccessStatus,
    >)
        ensures
            result matches Ok(status) && status is Default,
    {
        Ok(PciConfigAccessStatus::Default)
    }

    /// Every write to configuration space is left to what every virtual device does.
    pub fn write_cfg(&self, offset: PciConfigAddress, size: usize, value: usize) -> (result:
        HvResult<PciConfigAccessStatus>)
        ensures
            result matches Ok(status) && status is Default,
    {
        Ok(PciConfigAccessStatus::Default)
    }

    /// Makes a device an entropy device.
    pub fn vdev_init(&self, dev: VirtualPciConfigSpace) -> (result: VirtualPciConfigSpace)
        ensures
            result@ == rng_device(dev@),
    {
        broadcast use vstd::std_specs::btree::group_btree_axioms;

        let ghost start = dev@;
        let mut dev: VirtualPciConfigSpace = dev;
        dev.id = (0x1044, 0x1af4);
        dev.class_and_revision = (0x0, 0x0, 0x0, 0xff);
        let handler: Option<MmioHandler> = Some(MmioHandler::VirtioRng);
        dev.bars[1].config_init(PciMemType::Mem32, false, 0x4000, 0x0, handler);
        dev.bars[4].config_init(PciMemType::Mem64Low, true, 0x1_0000, 0x0, handler);
        dev.bars[5].config_init(PciMemType::Mem64High, true, 0x0, 0x0, handler);
        assert(dev@.bars =~= rng_bars(start.bars));

        let common: usize = dev.areas.commons.len();
        let mut common_cfg = VirtioPciCommonCfg::new();
        let common_cap = VirtioPciCap::new(VirtioCfgType::CommonCfg, 0, 0x10, 0x04, 0x0, 0x1000);

        let isr: usize = dev.areas.isrs.len();
        let mut isr_cfg = VirtioISRCap::new();
        let isr_cap = VirtioPciCap::new(VirtioCfgType::IsrCfg, 0x40, 0x10, 0x04, 0x1000, 0x1000);
        isr_cfg.set_isr(1);

        let table: usize = dev.areas.peers.tables.len();
        let msix_table = MsixTable::new(0x10, dev.requester_id as usize);
        let msix_cap = MsixCap::new(0x60, 0x10);

        let notify: usize = dev.areas.notifies.len();
        let mut notify_cfg = VirtioNotifyCap::new(0x50, 0x2000, 0x1000);
        let notify_cap = VirtioPciCap::new(
            VirtioCfgType::NotifyCfg(0x04),
            0x50,
            0x14,
            0x04,
            0x2000,
            0x1000,
        );
        dev.msix_table = Some(table);

        dev.capabilities.insert(0x40, PciCapability::Virtio(common_cap));
        dev.capabilities.insert(0x50, PciCapability::Virtio(isr_cap));
        dev.capabilities.insert(0x60, PciCapability::Virtio(notify_cap));
        dev.capabilities.insert(0x74, PciCapability::Msix(msix_cap));
        dev.capability_pointer = 0x74;

        dev.bar_areas.insert(4, 0x0000, 0x1000, AreaRef::CommonCfg(common));
        dev.bar_areas.insert(4, 0x1000, 0x1000, AreaRef::Isr(isr));
        dev.bar_areas.insert(4, 0x2000, 0x1000, AreaRef::Notify(notify));
        dev.bar_areas.insert(1, 0x0000, 0x800, AreaRef::MsixTable(table));
        assert(dev@.bar_areas =~= rng_bar_areas(start.bar_areas, start.areas));

        dev.access.push((0x34, 0x38));
        dev.access.push((0x40, 0x50));
        dev.access.push((0x50, 0x60));
        dev.access.push((0x60, 0x70));
        dev.access.push((0x70, 0x90));
        assert(dev@.access =~= start.access + rng_access());

        let queue: usize = dev.areas.peers.queues.len();
        dev.areas.peers.queues.push(Virtqueue::new(table, 0));
        common_cfg.insert_queue(queue);
        proof {
            let added = dev.areas.peers.queues@[queue as int];
            assert(added.queue_notify_off * 4 == 0) by (nonlinear_arith)
                requires
                    added.queue_notify_off == 0,
            ;
            assert(notify_address(notify_cfg@.cap, added) == 0x2000);
        }
        notify_cfg.insert_queue(queue, &dev.areas.peers.queues);
        dev.areas.commons.push(common_cfg);
        dev.areas.isrs.push(isr_cfg);
        dev.areas.notifies.push(notify_cfg);
        dev.areas.peers.tables.push(msix_table);
        proof {
            let wanted = rng_areas(start.areas, start.requester_id);
            assert(notify_cfg@.queue_list =~= seq![(0x2000usize, queue)]);
            assert(dev@.areas.commons =~= wanted.commons);
            assert(dev@.areas.isrs =~= wanted.isrs);
            assert(dev@.areas.notifies =~= wanted.notifies);
            assert(dev@.areas.peers.tables =~= wanted.peers.tables);
        }
        dev
    }
}

/// Hands an access through a BAR at `base` to the first device that has a BAR
/// there, and says which device that is and what came of it. Where no device has
/// one, the access is left as it is.
pub fn rng_mmio_handler(
    mmio: &mut MMIOAccess,
    base: usize,
    devs: &mut Vec<VirtualPciConfigSpace>,
) -> (result: HvResult<Option<(usize, BarOutcome)>>)
    requires
        bus_allows(views(old(devs)@), *old(mmio), base),
    ensures
        result matches Ok(handled) && ({
            let (after, answered, served) = bus_served(views(old(devs)@), *old(mmio), base);
            &&& views(final(devs)@) == after
            &&& *final(mmio) == answered
            &&& match handled {
                Some((i, outcome)) => served == Some((i as int, outcome@)),
                None => served is None,
            }
        }),
{
    match find_device(devs, base) {
        Some((i, bar)) => {
            let result = devs[i].bar_mmio_distribute(bar, mmio);
            proof {
                assert(views(devs@) =~= bus_served(views(old(devs)@), *old(mmio), base).0);
            }
            match result {
                Ok(outcome) => Ok(Some((i, outcome))),
                Err(error) => Err(error),
            }
        },
        None => Ok(None),
    }
}

/// Hands an access through a BAR at `base` to the first device that has a BAR
/// there, as `rng_mmio_handler` does, if that device can serve it. `None` says that
/// it cannot; nothing was done then.
pub fn try_mmio_handler(
    mmio: &mut MMIOAccess,
    base: usize,
    devs: &mut Vec<VirtualPciConfigSpace>,
) -> (result: Option<HvResult<Option<(usize, BarOutcome)>>>)
    ensures
        result is Some <==> bus_allows(views(old(devs)@), *old(mmio), base),
        match result {
            Some(handled) => handled matches Ok(to) && ({
                let (after, answered, served) = bus_served(views(old(devs)@), *old(mmio), base);
                &&& views(final(devs)@) == after
                &&& *final(mmio) == answered
                &&& match to {
                    Some((i, outcome)) => served == Some((i as int, outcome@)),
                    None => served is None,
                }
            }),
            None => *final(mmio) == *old(mmio) && *final(devs) == *old(devs),
        },
{
    if can_handle_mmio(mmio, base, devs) {
        Some(rng_mmio_handler(mmio, base, devs))
    } else {
        None
    }
}

/// The offsets at which a walk of the capability list from `at` finds a
/// capability, in `steps` steps at most.
pub open spec fn walk(
    capabilities: Map<u64, PciCapability>,
    at: PciConfigAddress,
    steps: nat,
) -> Seq<PciConfigAddress>
    decreases steps,
{
    if steps == 0 || at == 0 || !capabilities.contains_key(at) {
        Seq::empty()
    } else {
        seq![at] + walk(capabilities, capabilities[at].next_offset(), (steps - 1) as nat)
    }
}

/// A guest that walks the capability list of an entropy device, however far it
/// goes, finds the vector table's capability and those of the notification,
/// interrupt status and common configuration structures, and then the end.
pub proof fn law_guest_finds_every_capability(dev: ConfigSpaceModel, steps: nat)
    requires
        steps >= 4,
    ensures
        ({
            let made = rng_device(dev);
            &&& walk(made.capabilities, made.capability_pointer, steps) == seq![
                0x74u64,
                0x60u64,
                0x50u64,
                0x40u64,
            ]
            &&& made.capabilities[0x74] is Msix
            &&& made.capabilities[0x60] matches PciCapability::Virtio(cap) && cap.cfg_type
                is NotifyCfg
            &&& made.capabilities[0x50] matches PciCapability::Virtio(cap) && cap.cfg_type
                is IsrCfg
            &&& made.capabilities[0x40] matches PciCapability::Virtio(cap) && cap.cfg_type
                is CommonCfg
            &&& made.capabilities[0x40].next_offset() == 0
        }),
{
    reveal_with_fuel(walk, 6);
    let made = rng_device(dev);
    assert(walk(made.capabilities, made.capability_pointer, steps) =~= seq![
        0x74u64,
        0x60u64,
        0x50u64,
        0x40u64,
    ]);
}

/// The capabilities of an entropy device do not overlap, and every byte of them
/// is emulated.
pub proof fn law_capabilities_are_apart_and_emulated(
    dev: ConfigSpaceModel,
    a: PciConfigAddress,
    b: PciConfigAddress,
    offset: int,
)
    requires
        a == 0x40 || a == 0x50 || a == 0x60 || a == 0x74,
        b == 0x40 || b == 0x50 || b == 0x60 || b == 0x74,
    ensures
        ({
            let made = rng_device(dev);
            &&& a < b ==> a + made.capabilities[a].byte_size() <= b
            &&& a <= offset < a + made.capabilities[a].byte_size() ==> made.emulates(offset)
        }),
{
    let made = rng_device(dev);
    let old_len = dev.access.len() as int;
    assert(made.access[old_len + 1] == (0x40usize, 0x50usize));
    assert(made.access[old_len + 2] == (0x50usize, 0x60usize));
    assert(made.access[old_len + 3] == (0x60usize, 0x70usize));
    assert(made.access[old_len + 4] == (0x70usize, 0x90usize));
}

/// Whether no structure of a BAR that covers an access starts above `start`.
pub open spec fn none_above(
    entries: Seq<AreaEntry>,
    addr: usize,
    size: usize,
    start: usize,
) -> bool {
    forall|i: int|
        0 <= i < entries.len() && covers(#[trigger] entries[i], addr, size) ==> entries[i].0
            <= start
}

/// A structure that does not cover an access does not change where it goes.
proof fn lemma_uncovering_entry(
    entries: Seq<AreaEntry>,
    added: AreaEntry,
    addr: usize,
    size: usize,
)
    requires
        !covers(added, addr, size),
    ensures
        routed(entries.push(added), addr, size) == routed(entries, addr, size),
{
    assert(entries.push(added).drop_last() =~= entries);
}

/// The place that a virtio capability of an entropy device names holds the
/// structure of its kind: an access that lies inside it is served by that
/// structure. The vector table lies at the start of the BAR that its capability
/// names. A structure that the device had before takes an access away only where
/// it covers the access and starts higher; on a device that had none in the BAR
/// nothing does.
pub proof fn law_capabilities_name_their_structures(
    dev: ConfigSpaceModel,
    addr: usize,
    size: usize,
)
    requires
        dev.bar_areas.len() == NUM_BARS,
        size > 0,
    ensures
        ({
            let made = rng_device(dev);
            let common = AreaRef::CommonCfg(dev.areas.commons.len() as usize);
            let isr = AreaRef::Isr(dev.areas.isrs.len() as usize);
            let notify = AreaRef::Notify(dev.areas.notifies.len() as usize);
            let table = AreaRef::MsixTable(dev.areas.peers.tables.len() as usize);
            let reached = |cap: VirtioPciCap|
                cap.offset <= addr && addr + size <= cap.offset + cap.length && none_above(
                    dev.bar_areas[cap.bar as int],
                    addr,
                    size,
                    cap.offset as usize,
                );
            &&& made.capabilities[0x40] matches PciCapability::Virtio(cap) && (reached(cap)
                ==> goes_to(made.bar_areas[cap.bar as int], addr, size, common))
            &&& made.capabilities[0x50] matches PciCapability::Virtio(cap) && (reached(cap)
                ==> goes_to(made.bar_areas[cap.bar as int], addr, size, isr))
            &&& made.capabilities[0x60] matches PciCapability::Virtio(cap) && (reached(cap)
                ==> goes_to(made.bar_areas[cap.bar as int], addr, size, notify))
            &&& made.capabilities[0x74] matches PciCapability::Msix(cap) && cap.table_offset == 0
                && (addr + size <= 0x800 && none_above(
                dev.bar_areas[cap.table_bar as int],
                addr,
                size,
                0,
            ) ==> goes_to(made.bar_areas[cap.table_bar as int], addr, size, table))
        }),
        forall|start: usize| none_above(Seq::empty(), addr, size, start),
{
    let before = dev.bar_areas[4];
    let common: AreaEntry = (0, 0x1000, AreaRef::CommonCfg(dev.areas.commons.len() as usize));
    let isr: AreaEntry = (0x1000, 0x1000, AreaRef::Isr(dev.areas.isrs.len() as usize));
    let notify: AreaEntry = (0x2000, 0x1000, AreaRef::Notify(dev.areas.notifies.len() as usize));
    assert(rng_device(dev).bar_areas[4] == before.push(common).push(isr).push(notify));
    if addr + size <= 0x1000 && none_above(before, addr, size, 0) {
        law_last_added_structure_wins(before, common, addr, size);
        lemma_uncovering_entry(before.push(common), isr, addr, size);
        lemma_uncovering_entry(before.push(common).push(isr), notify, addr, size);
    }
    if 0x1000 <= addr && addr + size <= 0x2000 && none_above(before, addr, size, 0x1000) {
        lemma_uncovering_entry(before, common, addr, size);
        law_last_added_structure_wins(before.push(common), isr, addr, size);
        lemma_uncovering_entry(before.push(common).push(isr), notify, addr, size);
    }
    if 0x2000 <= addr && addr + size <= 0x3000 && none_above(before, addr, size, 0x2000) {
        law_last_added_structure_wins(before.push(common).push(isr), notify, addr, size);
    }
    if addr + size <= 0x800 && none_above(dev.bar_areas[1], addr, size, 0) {
        let table = AreaRef::MsixTable(dev.areas.peers.tables.len() as usize);
        law_last_added_structure_wins(dev.bar_areas[1], (0, 0x800, table), addr, size);
    }
}

/// A fresh entropy device is whole, whatever the device had before: its common
/// configuration is well formed and has its one queue selected, that queue is the
/// new one, and it can be notified.
pub proof fn law_fresh_device_is_whole(dev: ConfigSpaceModel)
    requires
        dev.areas.peers.queues.len() <= usize::MAX,
        dev.areas.peers.tables.len() <= usize::MAX,
    ensures
        ({
            let areas = rng_device(dev).areas;
            let queue = dev.areas.peers.queues.len() as usize;
            &&& areas.commons.last().well_formed(areas.peers.queues)
            &&& areas.commons.last().selects_queue(areas.peers.queues)
            &&& areas.commons.last().selected() == queue
            &&& queues_at(areas.notifies.last().queue_list, 0x2000) == seq![queue]
            &&& can_notify(areas.peers, queue)
        }),
{
    let areas = rng_device(dev).areas;
    let queue = dev.areas.peers.queues.len() as usize;
    let list = areas.notifies.last().queue_list;
    reveal(Seq::filter);
    assert(list.drop_last() =~= Seq::empty());
    assert(list.drop_last().filter(notified_at(0x2000)) =~= Seq::empty());
    assert(queues_at(list, 0x2000) =~= seq![queue]);
}

/// From the driver's set-up to a notification: once the driver has completed the
/// set-up and the backend has answered with an identifier, a notification asks
/// for each queue of the device to be served under that identifier.
pub proof fn law_notification_carries_the_identifier(
    areas: AreasModel,
    common: usize,
    setup: MMIOAccess,
    dev_id: u16,
    notify: usize,
    store: MMIOAccess,
    k: int,
)
    requires
        setup.is_write && completes_setup(setup),
        areas.allows(AreaRef::CommonCfg(common), setup),
        store.is_write,
        ({
            let ready = areas.served(AreaRef::CommonCfg(common), setup).0.with_identifier(
                common as int,
                dev_id,
            );
            &&& ready.allows(AreaRef::Notify(notify), store)
            &&& 0 <= k < queues_at(ready.notifies[notify as int].queue_list, store.address).len()
            &&& lists(
                areas.commons[common as int].queue_list,
                queues_at(ready.notifies[notify as int].queue_list, store.address)[k] as int,
            )
        }),
    ensures
        ({
            let (written, _, told) = areas.served(AreaRef::CommonCfg(common), setup);
            let ready = written.with_identifier(common as int, dev_id);
            let asked = ready.served(AreaRef::Notify(notify), store).2;
            &&& told == EffectModel::Configure(
                areas.commons[common as int].config_info(areas.peers.queues),
            )
            &&& asked->Notify_0[k].info.dev_id == dev_id
        }),
{
    let ready = areas.served(AreaRef::CommonCfg(common), setup).0.with_identifier(
        common as int,
        dev_id,
    );
    let slots = queues_at(ready.notifies[notify as int].queue_list, store.address);
    assert(can_notify(ready.peers, slots[k]));
}

/// What an entropy device is on the bus: device 0x1044 of vendor 0x1af4, of class 0
/// and revision 0xff. BAR 1 is a 32-bit one of 16 KiB; BARs 4 and 5 are a 64-bit,
/// prefetchable one of 64 KiB. None has an address yet, and accesses to each go to
/// the handler. The other BARs, and the identity on the bus, stay.
pub proof fn law_entropy_device_on_the_bus(dev: ConfigSpaceModel, i: int)
    requires
        dev.bars.len() == NUM_BARS,
        0 <= i < 6,
    ensures
        ({
            let made = rng_device(dev);
            let bar = made.bars[i];
            let set_up = i == 1 || i == 4 || i == 5;
            &&& made.requester_id == dev.requester_id
            &&& made.id.0 == 0x1044 && made.id.1 == 0x1af4
            &&& made.class_and_revision.0 == 0 && made.class_and_revision.1 == 0
            &&& made.class_and_revision.2 == 0 && made.class_and_revision.3 == 0xff
            &&& made.bars.len() == 6
            &&& !set_up ==> bar == dev.bars[i]
            &&& set_up ==> bar.virtual_value == 0 && bar.handler == Some(MmioHandler::VirtioRng)
            &&& i == 1 ==> bar.mem_type == Some(PciMemType::Mem32) && !bar.prefetchable && bar.size
                == 0x4000
            &&& i == 4 ==> bar.mem_type == Some(PciMemType::Mem64Low) && bar.prefetchable
                && bar.size == 0x1_0000
            &&& i == 5 ==> bar.mem_type == Some(PciMemType::Mem64High) && bar.prefetchable
                && bar.size == 0
        }),
{
}

/// What a guest reads of the virtio capability at `at`: that it is vendor-specific,
/// its kind, the next capability, its length, the BAR, the offset and the length of
/// the structure, and the word after them.
pub open spec fn reads_as(
    cap: PciCapability,
    kind: u32,
    next: u32,
    len: u32,
    bar: u32,
    offset: u32,
    length: u32,
    last: u32,
) -> bool {
    &&& cap.read_value(0, 1) == 0x09
    &&& cap.read_value(1, 1) == next
    &&& cap.read_value(2, 1) == len
    &&& cap.read_value(3, 1) == kind
    &&& cap.read_value(4, 1) == bar
    &&& cap.read_value(5, 1) == 0
    &&& cap.read_value(8, 4) == offset
    &&& cap.read_value(12, 4) == length
    &&& cap.read_value(16, 4) == last
}

/// What a guest reads of the capabilities of an entropy device: at 0x40 the common
/// configuration, at 0x50 the interrupt status, at 0x60 notification, with queue
/// offsets in fours, each 0x1000 bytes in BAR 4, one after the other; and at 0x74,
/// where the list starts, MSI-X with 16 vectors at the start of BAR 1 and the pending
/// bits behind them. Capabilities at other offsets stay.
pub proof fn law_entropy_device_capabilities(dev: ConfigSpaceModel, at: PciConfigAddress)
    ensures
        ({
            let made = rng_device(dev);
            let caps = made.capabilities;
            &&& made.capability_pointer == 0x74
            &&& caps.contains_key(0x40) && caps.contains_key(0x50)
            &&& caps.contains_key(0x60) && caps.contains_key(0x74)
            &&& reads_as(caps[0x40], 1, 0, 0x10, 4, 0, 0x1000, 0)
            &&& reads_as(caps[0x50], 3, 0x40, 0x10, 4, 0x1000, 0x1000, 0)
            &&& reads_as(caps[0x60], 2, 0x50, 0x14, 4, 0x2000, 0x1000, 4)
            &&& caps[0x40].byte_size() == 0x10 && caps[0x50].byte_size() == 0x10
            &&& caps[0x60].byte_size() == 0x14 && caps[0x74].byte_size() == 12
            &&& caps[0x74].read_value(0, 1) == 0x11
            &&& caps[0x74].read_value(1, 1) == 0x60
            &&& caps[0x74].read_value(2, 2) == 16
            &&& caps[0x74].read_value(4, 4) == 1
            &&& caps[0x74].read_value(8, 4) == 0x8000 * 8 + 1
            &&& at != 0x40 && at != 0x50 && at != 0x60 && at != 0x74 ==> {
                &&& caps.contains_key(at) == dev.capabilities.contains_key(at)
                &&& caps[at] == dev.capabilities[at]
            }
        }),
{
    let caps = rng_device(dev).capabilities;
    let virtio = |cap: PciCapability| cap->Virtio_0;
    law_virtio_capability_layout(virtio(caps[0x40]), 0, 1, 0);
    law_virtio_capability_layout(virtio(caps[0x50]), 0, 1, 0);
    law_virtio_capability_layout(virtio(caps[0x60]), 0, 1, 0);
    law_new_msix_capability(0x60, 0x10);
    law_msix_capability_layout(caps[0x74]->Msix_0, 0, 1);
}

/// Each virtio capability of an entropy device describes exactly the bytes of its
/// structure: the structure is registered in the BAR that the guest reads, with the
/// start and the size that the guest reads. All registers of the common configuration
/// and the address at which the queue is notified lie inside what the guest is told.
/// The vector table is registered at the start of the BAR that the guest reads, with
/// room for every vector that the guest is told of. Nothing else is registered.
pub proof fn law_capabilities_describe_their_structures(dev: ConfigSpaceModel, bar: int)
    requires
        dev.bar_areas.len() == NUM_BARS,
        0 <= bar < 6,
    ensures
        ({
            let made = rng_device(dev);
            let caps = made.capabilities;
            let named = |at: PciConfigAddress, area: AreaRef|
                (caps[at].read_value(8, 4) as usize, caps[at].read_value(12, 4) as usize, area);
            let common = AreaRef::CommonCfg(dev.areas.commons.len() as usize);
            let isr = AreaRef::Isr(dev.areas.isrs.len() as usize);
            let notify = AreaRef::Notify(dev.areas.notifies.len() as usize);
            let table = AreaRef::MsixTable(dev.areas.peers.tables.len() as usize);
            let in_bar = caps[0x40].read_value(4, 1) as int;
            let table_bar = caps[0x74].read_value(4, 4) as int % 8;
            &&& in_bar == caps[0x50].read_value(4, 1) && in_bar == caps[0x60].read_value(4, 1)
            &&& made.bar_areas.len() == 6
            &&& made.bar_areas[in_bar] == dev.bar_areas[in_bar] + seq![
                named(0x40, common),
                named(0x50, isr),
                named(0x60, notify),
            ]
            &&& made.bar_areas[table_bar] == dev.bar_areas[table_bar] + seq![
                ((caps[0x74].read_value(4, 4) / 8 * 8) as usize, 0x800usize, table),
            ]
            &&& 0x800 >= 16 * caps[0x74].read_value(2, 2)
            &&& bar != in_bar && bar != table_bar ==> made.bar_areas[bar] == dev.bar_areas[bar]
            &&& caps[0x40].read_value(12, 4) >= 0x38
            &&& ({
                let at = made.areas.notifies.last().queue_list.last().0;
                &&& caps[0x60].read_value(8, 4) <= at
                &&& at + 2 <= caps[0x60].read_value(8, 4) + caps[0x60].read_value(12, 4)
            })
        }),
{
    law_entropy_device_capabilities(dev, 0);
    let made = rng_device(dev);
    let common: AreaEntry = (0, 0x1000, AreaRef::CommonCfg(dev.areas.commons.len() as usize));
    let isr: AreaEntry = (0x1000, 0x1000, AreaRef::Isr(dev.areas.isrs.len() as usize));
    let notify: AreaEntry = (0x2000, 0x1000, AreaRef::Notify(dev.areas.notifies.len() as usize));
    let table: AreaEntry = (0, 0x800, AreaRef::MsixTable(dev.areas.peers.tables.len() as usize));
    assert(made.bar_areas[4] =~= dev.bar_areas[4] + seq![common, isr, notify]);
    assert(made.bar_areas[1] =~= dev.bar_areas[1] + seq![table]);
}

/// What an entropy device is made of, added to what the device had: a common
/// configuration that offers features 32 and 38 and lists the new queue, an interrupt
/// status of 1, a notification structure at which the queue is notified at 0x2000, a
/// table of 16 blank vectors for the device's identity on the bus, and queue 0 of a
/// device without an identifier, with vector 1 of that table. The device's own table
/// is the new one.
pub proof fn law_entropy_device_structures(dev: ConfigSpaceModel)
    requires
        dev.areas.peers.queues.len() <= usize::MAX,
        dev.areas.peers.tables.len() <= usize::MAX,
    ensures
        ({
            let made = rng_device(dev);
            let (before, areas) = (dev.areas, made.areas);
            let queue_slot = before.peers.queues.len();
            let table_slot = before.peers.tables.len();
            let cfg = areas.commons.last();
            let queue = areas.peers.queues.last();
            let table = areas.peers.tables.last();
            &&& areas.commons.drop_last() == before.commons
            &&& areas.isrs.drop_last() == before.isrs
            &&& areas.notifies.drop_last() == before.notifies
            &&& areas.peers.queues.drop_last() == before.peers.queues
            &&& areas.peers.tables.drop_last() == before.peers.tables
            &&& made.msix_table is Some && made.msix_table->0 == table_slot
            &&& cfg.device_feature.0 == 0 && cfg.device_feature.1 == 0x41
            &&& cfg.device_feature_select == 0 && cfg.driver_feature_select == 0
            &&& cfg.driver_feature.0 == 0 && cfg.driver_feature.1 == 0
            &&& cfg.config_msix_vector == 0 && cfg.device_status == 0
            &&& cfg.config_generation == 0 && !cfg.config_changed
            &&& cfg.num_queue == 1 && cfg.queue_select == 0
            &&& cfg.queue_list.len() == 1 && cfg.queue_list[0] == queue_slot
            &&& areas.isrs.last() == 1
            &&& areas.notifies.last().queue_list.len() == 1
            &&& areas.notifies.last().queue_list[0].0 == 0x2000
            &&& areas.notifies.last().queue_list[0].1 == queue_slot
            &&& areas.notifies.last().cap.cfg_type == VirtioCfgType::NotifyCfg(4)
            &&& areas.notifies.last().cap.offset == 0x2000
            &&& areas.notifies.last().cap.length == 0x1000
            &&& areas.notifies.last().cap.cap_next == 0x50
            &&& queue.queue_id == 0 && queue.this_dev_id == MAX_DEVS
            &&& queue.msix_table == table_slot && queue.queue_msix_vector == 1
            &&& queue.queue_size == 256 && queue.queue_enable == 1
            &&& queue.queue_notify_off == 0
            &&& queue.queue_desc == 0 && queue.queue_driver == 0 && queue.queue_device == 0
            &&& queue.desc_table is None && queue.avail_area is None && queue.used_area is None
            &&& table.table.len() == 16 && table.device_id == dev.requester_id
            &&& table.event_id.len() == 0
            &&& forall|i: int| 0 <= i < 16 ==> (#[trigger] table.table[i]).intid is None
                && table.table[i].msg_data == 0
        }),
{
    let (before, areas) = (dev.areas, rng_device(dev).areas);
    assert(areas.commons.drop_last() =~= before.commons);
    assert(areas.isrs.drop_last() =~= before.isrs);
    assert(areas.notifies.drop_last() =~= before.notifies);
    assert(areas.peers.queues.drop_last() =~= before.peers.queues);
    assert(areas.peers.tables.drop_last() =~= before.peers.tables);
}

/// The offsets of configuration space at which an entropy device is emulated, besides
/// those at which the device was before: the capability pointer, 0x34 to 0x37, and the
/// capabilities, 0x40 to 0x6f and 0x70 to 0x8f.
pub proof fn law_emulated_offsets(dev: ConfigSpaceModel, offset: int)
    ensures
        rng_device(dev).emulates(offset) <==> dev.emulates(offset) || 0x34 <= offset < 0x38 || 0x40
            <= offset < 0x90,
        dev.emulates(offset) <==> exists|i: int|
            0 <= i < dev.access.len() && (#[trigger] dev.access[i]).0 <= offset < dev.access[i].1,
{
    let made = rng_device(dev);
    let n = dev.access.len() as int;
    assert(made.access[n] == (0x34usize, 0x38usize));
    assert(made.access[n + 1] == (0x40usize, 0x50usize));
    assert(made.access[n + 2] == (0x50usize, 0x60usize));
    assert(made.access[n + 3] == (0x60usize, 0x70usize));
    assert(made.access[n + 4] == (0x70usize, 0x90usize));
    if dev.emulates(offset) {
        let i = choose|i: int|
            0 <= i < dev.access.len() && (#[trigger] dev.access[i]).0 <= offset < dev.access[i].1;
        assert(made.access[i] == dev.access[i]);
    }
    if made.emulates(offset) {
        let i = choose|i: int|
            0 <= i < made.access.len() && (#[trigger] made.access[i]).0 <= offset
                < made.access[i].1;
        if i < n {
            assert(made.access[i] == dev.access[i]);
        }
    }
}

} // verus!

//! The notification structure, by which the driver asks for a queue to be
//! served, and its capability.
use vstd::prelude::*;

use crate::area::{
    AreaEffect, AreaInBar, DevicePeers, EffectModel, NotifyRequest, PeersModel, QueueSlot,
};
use crate::bridge::VirtioPCIDataInfo;
use crate::capability::{PciCapabilityRegion, PciConfigAddress, VirtioCfgType, VirtioPciCap};
use crate::error::HvResult;
use crate::mmio::MMIOAccess;
use crate::virtqueue::Virtqueue;

verus! {

/// The notification structure of a device: its capability, and the queues with
/// the address that each of them is notified at.
#[derive(Debug)]
pub struct VirtioNotifyCap {
    pub cap: VirtioPciCap,
    pub queue_list: Vec<(usize, QueueSlot)>,
}

/// The contents of a `VirtioNotifyCap`.
pub struct NotifyModel {
    pub cap: VirtioPciCap,
    pub queue_list: Seq<(usize, QueueSlot)>,
}

impl View for VirtioNotifyCap {
    type V = NotifyModel;

    open spec fn view(&self) -> NotifyModel {
        NotifyModel { cap: self.cap, queue_list: self.queue_list@ }
    }
}

/// The queues that are notified at `offset`, the one added first in front.
pub open spec fn queues_at(list: Seq<(usize, QueueSlot)>, offset: usize) -> Seq<QueueSlot> {
    list.filter(notified_at(offset)).map_values(|entry: (usize, QueueSlot)| entry.1)
}

/// Whether an entry of the list is for `offset`.
pub open spec fn notified_at(offset: usize) -> spec_fn((usize, QueueSlot)) -> bool {
    |entry: (usize, QueueSlot)| entry.0 == offset
}

/// Where a queue is notified: its offset, scaled, above the start of the
/// structure.
pub open spec fn notify_address(cap: VirtioPciCap, queue: Virtqueue) -> int {
    match cap.cfg_type {
        VirtioCfgType::NotifyCfg(multiplier) => cap.offset + queue.queue_notify_off * multiplier,
        _ => 0,
    }
}

/// The request that a notification of the queue at `slot` makes.
pub open spec fn request_of(peers: PeersModel, slot: QueueSlot) -> NotifyRequest {
    let queue = peers.queues[slot as int];
    NotifyRequest { info: queue.data_info(), entry: queue.vector(peers.tables) }
}

/// The queue at `slot` is there, and so is its vector.
pub open spec fn can_notify(peers: PeersModel, slot: QueueSlot) -> bool {
    slot < peers.queues.len() && peers.queues[slot as int].has_vector(peers.tables)
}

impl NotifyModel {
    /// A structure of `length` bytes at `offset` in BAR 4, without queues.
    pub open spec fn fresh(next: u8, offset: u32, length: u32) -> NotifyModel {
        NotifyModel {
            cap: VirtioPciCap::describing(
                VirtioCfgType::NotifyCfg(0x04),
                next,
                0x14,
                0x04,
                offset,
                length,
            ),
            queue_list: Seq::empty(),
        }
    }
}

impl VirtioNotifyCap {
    /// A structure of `length` bytes at `offset` in BAR 4 without queues, whose
    /// capability is followed by the one at `next`. Queue offsets count in fours.
    pub fn new(next: u8, offset: u32, length: u32) -> (notify: Self)
        ensures
            notify@ == NotifyModel::fresh(next, offset, length),
    {
        let cap = VirtioPciCap::new(
            VirtioCfgType::NotifyCfg(0x04),
            next,
            0x14,
            0x04,
            offset,
            length,
        );
        VirtioNotifyCap { cap, queue_list: Vec::new() }
    }

    /// Adds a queue, to be notified at the address that its notification offset
    /// gives. A capability of another kind takes no queue.
    pub fn insert_queue(&mut self, qu: QueueSlot, queues: &Vec<Virtqueue>)
        requires
            qu < queues@.len(),
            old(self)@.cap.cfg_type is NotifyCfg ==> notify_address(
                old(self)@.cap,
                queues@[qu as int],
            ) <= u32::MAX,
        ensures
            final(self)@ == (if old(self)@.cap.cfg_type is NotifyCfg {
                NotifyModel {
                    queue_list: old(self)@.queue_list.push(
                        (notify_address(old(self)@.cap, queues@[qu as int]) as usize, qu),
                    ),
                    ..old(self)@
                }
            } else {
                old(self)@
            }),
    {
        let queue_notify_off: u32 = queues[qu].queue_notify_off as u32;
        if let VirtioCfgType::NotifyCfg(multiplier) = self.cap.cfg_type {
            assert(0 <= queue_notify_off * multiplier) by (nonlinear_arith);
            let offset: u32 = self.cap.offset + queue_notify_off * multiplier;
            self.queue_list.push((offset as usize, qu));
        }
    }

    /// The queues that are notified at `offset`, the one added first in front.
    pub fn get_queues(&self, offset: usize) -> (slots: Vec<QueueSlot>)
        ensures
            slots@ == queues_at(self@.queue_list, offset),
    {
        let mut slots: Vec<QueueSlot> = Vec::new();
        let mut i: usize = 0;
        assert(queues_at(self.queue_list@.take(0), offset) =~= Seq::<QueueSlot>::empty());
        while i < self.queue_list.len()
            invariant
                i <= self.queue_list@.len(),
                slots@ == queues_at(self.queue_list@.take(i as int), offset),
            decreases self.queue_list@.len() - i,
        {
            let (at, slot): (usize, QueueSlot) = self.queue_list[i];
            proof {
                lemma_queues_at_push(self.queue_list@.take(i as int), (at, slot), offset);
                assert(self.queue_list@.take(i as int).push((at, slot)) =~= self.queue_list@.take(
                    i + 1,
                ));
            }
            if at == offset {
                slots.push(slot);
            }
            i = i + 1;
        }
        assert(self.queue_list@.take(self.queue_list@.len() as int) =~= self.queue_list@);
        slots
    }
}

/// Adding a queue at the end adds it to those at its address.
proof fn lemma_queues_at_push(
    list: Seq<(usize, QueueSlot)>,
    entry: (usize, QueueSlot),
    offset: usize,
)
    ensures
        queues_at(list.push(entry), offset) == (if entry.0 == offset {
            queues_at(list, offset).push(entry.1)
        } else {
            queues_at(list, offset)
        }),
{
    reveal(Seq::filter);
    assert(list.push(entry).drop_last() =~= list);
    assert(queues_at(list.push(entry), offset) =~= (if entry.0 == offset {
        queues_at(list, offset).push(entry.1)
    } else {
        queues_at(list, offset)
    }));
}

impl PciCapabilityRegion for VirtioNotifyCap {
    open spec fn read_value(&self, offset: PciConfigAddress, size: usize) -> u32 {
        self.cap.read_value(offset, size)
    }

    open spec fn after_write(self, offset: PciConfigAddress, size: usize, value: u32) -> Self {
        self
    }

    open spec fn byte_size(&self) -> usize {
        self.cap.byte_size()
    }

    open spec fn next_offset(&self) -> PciConfigAddress {
        self.cap.next_offset()
    }

    fn get_offset(&self) -> (offset: PciConfigAddress) {
        self.cap.get_offset()
    }

    fn read(&self, offset: PciConfigAddress, size: usize) -> (result: HvResult<u32>) {
        self.cap.read(offset, size)
    }

    fn write(&mut self, offset: PciConfigAddress, size: usize, value: u32) -> (result: HvResult<
        (),
    >) {
        self.cap.write(offset, size, value)
    }

    fn get_size(&self) -> (size: usize) {
        self.cap.get_size()
    }

    fn next_cap(&self) -> (next: HvResult<PciConfigAddress>) {
        self.cap.next_cap()
    }
}

impl AreaInBar for VirtioNotifyCap {
    type Peers = DevicePeers;

    open spec fn read_allowed(area: NotifyModel, access: MMIOAccess, peers: PeersModel) -> bool {
        true
    }

    /// A read is not answered.
    open spec fn read_result(area: NotifyModel, access: MMIOAccess, peers: PeersModel) -> (
        NotifyModel,
        MMIOAccess,
    ) {
        (area, access)
    }

    /// Every queue that is notified is there, with its vector.
    open spec fn write_allowed(area: NotifyModel, access: MMIOAccess, peers: PeersModel) -> bool {
        let slots = queues_at(area.queue_list, access.address);
        forall|i: int| 0 <= i < slots.len() ==> can_notify(peers, #[trigger] slots[i])
    }

    /// A write, whatever its value, asks for every queue at its address to be served.
    open spec fn write_result(area: NotifyModel, access: MMIOAccess, peers: PeersModel) -> (
        NotifyModel,
        PeersModel,
        EffectModel,
    ) {
        (
            area,
            peers,
            EffectModel::Notify(
                queues_at(area.queue_list, access.address).map_values(
                    |slot: QueueSlot| request_of(peers, slot),
                ),
            ),
        )
    }

    fn can_read(&self, mmio_ac: &MMIOAccess, peers: &DevicePeers) -> (allowed: bool) {
        true
    }

    fn can_write(&self, mmio_ac: &MMIOAccess, peers: &DevicePeers) -> (allowed: bool) {
        let slots: Vec<QueueSlot> = self.get_queues(mmio_ac.address);
        let mut i: usize = 0;
        while i < slots.len()
            invariant
                i <= slots@.len(),
                slots@ == queues_at(self@.queue_list, mmio_ac.address),
                forall|j: int| 0 <= j < i ==> can_notify(peers@, #[trigger] slots@[j]),
            decreases slots@.len() - i,
        {
            let slot: QueueSlot = slots[i];
            if slot >= peers.queues.len() || !peers.queues[slot].vector_exists(&peers.tables) {
                assert(!can_notify(peers@, slots@[i as int]));
                return false;
            }
            i = i + 1;
        }
        true
    }

    fn read(&mut self, mmio_ac: &mut MMIOAccess, peers: &DevicePeers) -> (result: HvResult<()>) {
        Ok(())
    }

    fn write(&mut self, mmio_ac: &MMIOAccess, peers: &mut DevicePeers) -> (result: HvResult<
        AreaEffect,
    >) {
        let slots: Vec<QueueSlot> = self.get_queues(mmio_ac.address);
        let mut requests: Vec<NotifyRequest> = Vec::new();
        let mut i: usize = 0;
        let ghost wanted = slots@.map_values(|slot: QueueSlot| request_of(peers@, slot));
        while i < slots.len()
            invariant
                i <= slots@.len(),
                *peers == *old(peers),
                forall|j: int| 0 <= j < slots@.len() ==> can_notify(peers@, #[trigger] slots@[j]),
                wanted == slots@.map_values(|slot: QueueSlot| request_of(peers@, slot)),
                requests@ == wanted.take(i as int),
            decreases slots@.len() - i,
        {
            let slot: QueueSlot = slots[i];
            assert(can_notify(peers@, slots@[i as int]));
            let info = peers.queues[slot].get_data_info();
            let entry = peers.queues[slot].get_msix_entry(&peers.tables);
            requests.push(NotifyRequest { info, entry });
            i = i + 1;
            assert(requests@ =~= wanted.take(i as int));
        }
        assert(requests@ =~= wanted);
        Ok(AreaEffect::Notify(requests))
    }
}

/// A queue that was added is asked to be served when its address is written, and
/// adding it leaves what is asked for at other addresses as it was.
pub proof fn law_added_queue_is_notified(
    area: NotifyModel,
    peers: PeersModel,
    at: usize,
    slot: QueueSlot,
    store: MMIOAccess,
)
    ensures
        ({
            let added = NotifyModel { queue_list: area.queue_list.push((at, slot)), ..area };
            let before = VirtioNotifyCap::write_result(area, store, peers).2;
            let after = VirtioNotifyCap::write_result(added, store, peers).2;
            &&& store.address == at ==> after->Notify_0 == before->Notify_0.push(
                request_of(peers, slot),
            )
            &&& store.address != at ==> after->Notify_0 == before->Notify_0
        }),
{
    lemma_queues_at_push(area.queue_list, (at, slot), store.address);
    let added = NotifyModel { queue_list: area.queue_list.push((at, slot)), ..area };
    let before = VirtioNotifyCap::write_result(area, store, peers).2->Notify_0;
    let after = VirtioNotifyCap::write_result(added, store, peers).2->Notify_0;
    if store.address == at {
        assert(after =~= before.push(request_of(peers, slot)));
    }
}

/// A notification changes neither the structure nor the queues and tables.
pub proof fn law_notification_changes_nothing(
    area: NotifyModel,
    peers: PeersModel,
    store: MMIOAccess,
)
    ensures
        VirtioNotifyCap::write_result(area, store, peers).0 == area,
        VirtioNotifyCap::write_result(area, store, peers).1 == peers,
{
}

/// A notification asks for queues in the order in which they were added: a queue
/// added at the address that is written is asked for last, after those that were
/// asked for without it, and a queue added at another address is not asked for.
/// Without queues none is asked for. The request for a queue names the device and
/// the queue that the queue says it is, and carries the entry at the number of the
/// queue's vector in the table that the queue names.
pub proof fn law_notification_asks_for_queues_in_order(
    area: NotifyModel,
    peers: PeersModel,
    at: usize,
    slot: QueueSlot,
    store: MMIOAccess,
)
    ensures
        ({
            let added = NotifyModel { queue_list: area.queue_list.push((at, slot)), ..area };
            let queue = peers.queues[slot as int];
            let entry = peers.tables[queue.msix_table as int].table[queue.queue_msix_vector as int];
            let info = VirtioPCIDataInfo { dev_id: queue.this_dev_id, queue_id: queue.queue_id };
            match (
                VirtioNotifyCap::write_result(area, store, peers).2,
                VirtioNotifyCap::write_result(added, store, peers).2,
            ) {
                (EffectModel::Notify(before), EffectModel::Notify(after)) => {
                    &&& after == if store.address == at {
                        before.push(NotifyRequest { info, entry })
                    } else {
                        before
                    }
                    &&& area.queue_list.len() == 0 ==> before.len() == 0
                },
                _ => false,
            }
        }),
{
    law_added_queue_is_notified(area, peers, at, slot, store);
    reveal(Seq::filter);
}

/// Every queue that is notified at the address of a write is asked for, with the
/// entry at the number of its vector.
pub proof fn law_notified_queue_is_asked_for(
    area: NotifyModel,
    peers: PeersModel,
    store: MMIOAccess,
    j: int,
)
    requires
        0 <= j < area.queue_list.len(),
        area.queue_list[j].0 == store.address,
    ensures
        ({
            let queue = peers.queues[area.queue_list[j].1 as int];
            let entry = peers.tables[queue.msix_table as int].table[queue.queue_msix_vector as int];
            let info = VirtioPCIDataInfo { dev_id: queue.this_dev_id, queue_id: queue.queue_id };
            VirtioNotifyCap::write_result(area, store, peers).2 matches EffectModel::Notify(asked)
                && asked.contains(NotifyRequest { info, entry })
        }),
    decreases area.queue_list.len(),
{
    let rest = NotifyModel { queue_list: area.queue_list.drop_last(), ..area };
    let (at, slot) = area.queue_list.last();
    assert(rest.queue_list.push((at, slot)) =~= area.queue_list);
    law_notification_asks_for_queues_in_order(rest, peers, at, slot, store);
    let before = VirtioNotifyCap::write_result(rest, store, peers).2->Notify_0;
    let after = VirtioNotifyCap::write_result(area, store, peers).2->Notify_0;
    if j < rest.queue_list.len() {
        law_notified_queue_is_asked_for(rest, peers, store, j);
        let queue = peers.queues[area.queue_list[j].1 as int];
        let entry = peers.tables[queue.msix_table as int].table[queue.queue_msix_vector as int];
        let info = VirtioPCIDataInfo { dev_id: queue.this_dev_id, queue_id: queue.queue_id };
        let k = choose|k: int| 0 <= k < before.len() && before[k] == (NotifyRequest { info, entry });
        assert(after[k] == (NotifyRequest { info, entry }));
    } else {
        assert(after[before.len() as int] == after.last());
    }
}

/// Only queues at the address of a write are asked for, each once for each time it
/// was added there.
pub proof fn law_only_notified_queues_are_asked_for(
    area: NotifyModel,
    peers: PeersModel,
    store: MMIOAccess,
)
    requires
        forall|j: int| 0 <= j < area.queue_list.len() ==> (#[trigger] area.queue_list[j]).0
            != store.address,
    ensures
        VirtioNotifyCap::write_result(area, store, peers).2 matches EffectModel::Notify(asked)
            && asked.len() == 0,
    decreases area.queue_list.len(),
{
    if area.queue_list.len() == 0 {
        law_notification_asks_for_queues_in_order(area, peers, 0, 0, store);
    } else {
        let rest = NotifyModel { queue_list: area.queue_list.drop_last(), ..area };
        let (at, slot) = area.queue_list.last();
        assert(rest.queue_list.push((at, slot)) =~= area.queue_list);
        assert(area.queue_list[area.queue_list.len() - 1].0 != store.address);
        assert forall|j: int| 0 <= j < rest.queue_list.len() implies (
        #[trigger] rest.queue_list[j]).0 != store.address by {
            assert(rest.queue_list[j] == area.queue_list[j]);
        }
        law_only_notified_queues_are_asked_for(rest, peers, store);
        law_notification_asks_for_queues_in_order(rest, peers, at, slot, store);
    }
}

/// A notification is refused exactly if a queue at its address is not there, or has
/// a vector that is not; a read is never refused, nor answered, and neither changes
/// anything.
pub proof fn law_refused_notifications(area: NotifyModel, peers: PeersModel, access: MMIOAccess)
    ensures
        VirtioNotifyCap::write_allowed(area, access, peers) <==> forall|j: int|
            0 <= j < area.queue_list.len() && (#[trigger] area.queue_list[j]).0 == access.address
                ==> {
                let slot = area.queue_list[j].1;
                let queue = peers.queues[slot as int];
                &&& slot < peers.queues.len()
                &&& queue.msix_table < peers.tables.len()
                &&& queue.queue_msix_vector < peers.tables[queue.msix_table as int].table.len()
            },
        VirtioNotifyCap::read_allowed(area, access, peers),
        VirtioNotifyCap::read_result(area, access, peers) == (area, access),
        VirtioNotifyCap::write_result(area, access, peers).0 == area,
        VirtioNotifyCap::write_result(area, access, peers).1 == peers,
{
    let list = area.queue_list;
    let slots = queues_at(list, access.address);
    let kept = list.filter(notified_at(access.address));
    assert forall|j: int| 0 <= j < list.len() && (#[trigger] list[j]).0 == access.address implies
        slots.contains(list[j].1) by {
        list.lemma_filter_contains(notified_at(access.address), j);
        let k = choose|k: int| 0 <= k < kept.len() && kept[k] == list[j];
        assert(slots[k] == list[j].1);
    }
    assert forall|k: int| 0 <= k < slots.len() implies exists|j: int|
        0 <= j < list.len() && (#[trigger] list[j]).0 == access.address && list[j].1
            == #[trigger] slots[k] by {
        list.lemma_filter_pred(notified_at(access.address), k);
        list.lemma_filter_contains_rev(notified_at(access.address), kept[k]);
        let j = choose|j: int| 0 <= j < list.len() && list[j] == kept[k];
        assert(list[j].0 == access.address && list[j].1 == slots[k]);
    }
}

/// A queue is notified at its notification offset, times the multiplier of the
/// structure, above the start of the structure. A new structure lies where it was
/// put, has the multiplier 4, and no queues.
pub proof fn law_notification_addresses(
    cap: VirtioPciCap,
    queue: Virtqueue,
    multiplier: u32,
    next: u8,
    offset: u32,
    length: u32,
)
    ensures
        cap.cfg_type == VirtioCfgType::NotifyCfg(multiplier) ==> notify_address(cap, queue)
            == cap.offset + queue.queue_notify_off * multiplier,
        ({
            let notify = NotifyModel::fresh(next, offset, length);
            &&& notify.queue_list.len() == 0
            &&& notify.cap.cfg_type == VirtioCfgType::NotifyCfg(4)
            &&& notify.cap.cap_vndr == 9 && notify.cap.id == 0
            &&& notify.cap.cap_next == next && notify.cap.cap_len == 0x14 && notify.cap.bar == 4
            &&& notify.cap.offset == offset && notify.cap.length == length
        }),
{
}

/// In configuration space the notification structure is the capability that it
/// holds, which a guest cannot write. Its contents are that capability and its queues.
pub proof fn law_notification_structure_shows_its_capability(
    notify: VirtioNotifyCap,
    offset: PciConfigAddress,
    size: usize,
    value: u32,
)
    ensures
        notify.read_value(offset, size) == notify.cap.read_value(offset, size),
        notify.after_write(offset, size, value) == notify,
        notify.byte_size() == notify.cap.cap_len,
        notify.next_offset() == notify.cap.cap_next,
        notify@.cap == notify.cap,
        notify@.queue_list == notify.queue_list@,
{
}

} // verus!

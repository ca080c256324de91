//! Memory BARs: which structure of a device serves an access to one of them.
use vstd::prelude::*;

use crate::area::{
    views, AreaEffect, AreaInBar, DevicePeers, EffectModel, NoPeers, NotifyRequest, PeersModel,
    TableSlot,
};
use crate::bits::{low16, low32, low8};
use crate::bridge::VirtioPCIDataInfo;
use crate::common_cfg::{
    law_identifier_goes_to_the_listed_queues, law_written_queue_registers, with_dev_id,
    CommonCfgModel, VirtioPciCommonCfg,
};
use crate::error::HvResult;
use crate::isr::VirtioISRCap;
use crate::mmio::{GuestPhysAddr, MMIOAccess};
use crate::msix_table::{
    law_table_word_reads_back, law_table_writes_the_fields,
    law_vector_is_bound_to_the_oldest_mapping, starts_word, MsixTable, MsixTableModel,
    MSIX_ENTRY_SIZE,
};
use crate::notify::{law_notified_queue_is_asked_for, NotifyModel, VirtioNotifyCap};
use crate::virtqueue::Virtqueue;

verus! {

/// The number of BARs of a device.
pub const NUM_BARS: usize = 6;

/// A structure of a device that lies in a BAR: its kind, and its place among the
/// structures of that kind.
#[derive(Clone, Copy, Debug, PartialEq, Eq)]
pub enum AreaRef {
    CommonCfg(usize),
    MsixTable(TableSlot),
    Isr(usize),
    Notify(usize),
}

/// The structures of a device that lie in its BARs, and what they share.
#[derive(Debug)]
pub struct DeviceAreas {
    pub commons: Vec<VirtioPciCommonCfg>,
    pub isrs: Vec<VirtioISRCap>,
    pub notifies: Vec<VirtioNotifyCap>,
    pub peers: DevicePeers,
}

/// The contents of a `DeviceAreas`.
pub struct AreasModel {
    pub commons: Seq<CommonCfgModel>,
    pub isrs: Seq<u32>,
    pub notifies: Seq<NotifyModel>,
    pub peers: PeersModel,
}

impl View for DeviceAreas {
    type V = AreasModel;

    open spec fn view(&self) -> AreasModel {
        AreasModel {
            commons: views(self.commons@),
            isrs: views(self.isrs@),
            notifies: views(self.notifies@),
            peers: self.peers@,
        }
    }
}

impl AreasModel {
    /// A device without structures.
    pub open spec fn empty() -> AreasModel {
        AreasModel {
            commons: Seq::empty(),
            isrs: Seq::empty(),
            notifies: Seq::empty(),
            peers: PeersModel { queues: Seq::empty(), tables: Seq::empty() },
        }
    }

    /// The structures once the queues of a common configuration were told the
    /// identifier of the device.
    pub open spec fn with_identifier(self, common: int, dev_id: u16) -> AreasModel {
        let queues = with_dev_id(self.peers.queues, self.commons[common].queue_list, dev_id);
        AreasModel { peers: PeersModel { queues, ..self.peers }, ..self }
    }

    /// The structures once a vector table has taken note of an event mapping.
    pub open spec fn with_event(self, table: int, event: (usize, usize)) -> AreasModel {
        let old_table = self.peers.tables[table];
        let new_table = MsixTableModel { event_id: old_table.event_id.push(event), ..old_table };
        AreasModel {
            peers: PeersModel { tables: self.peers.tables.update(table, new_table), ..self.peers },
            ..self
        }
    }

    /// The structure is there, and can serve the access.
    pub open spec fn allows(self, area: AreaRef, access: MMIOAccess) -> bool {
        match area {
            AreaRef::CommonCfg(i) => i < self.commons.len() && if access.is_write {
                VirtioPciCommonCfg::write_allowed(self.commons[i as int], access, self.peers)
            } else {
                VirtioPciCommonCfg::read_allowed(self.commons[i as int], access, self.peers)
            },
            AreaRef::MsixTable(i) => i < self.peers.tables.len() && if access.is_write {
                MsixTable::write_allowed(self.peers.tables[i as int], access, ())
            } else {
                MsixTable::read_allowed(self.peers.tables[i as int], access, ())
            },
            AreaRef::Isr(i) => i < self.isrs.len(),
            AreaRef::Notify(i) => i < self.notifies.len() && (access.is_write
                ==> VirtioNotifyCap::write_allowed(self.notifies[i as int], access, self.peers)),
        }
    }

    /// The structures and the access once one of them has served the access, and
    /// what is left to do outside the device.
    pub open spec fn served(self, area: AreaRef, access: MMIOAccess) -> (
        AreasModel,
        MMIOAccess,
        EffectModel,
    ) {
        match (area, access.is_write) {
            (AreaRef::CommonCfg(i), true) => {
                let (cfg, peers, effect) = VirtioPciCommonCfg::write_result(
                    self.commons[i as int],
                    access,
                    self.peers,
                );
                (
                    AreasModel { commons: self.commons.update(i as int, cfg), peers, ..self },
                    access,
                    effect,
                )
            },
            (AreaRef::CommonCfg(i), false) => {
                let (cfg, answered) = VirtioPciCommonCfg::read_result(
                    self.commons[i as int],
                    access,
                    self.peers,
                );
                (
                    AreasModel { commons: self.commons.update(i as int, cfg), ..self },
                    answered,
                    EffectModel::Nothing,
                )
            },
            (AreaRef::MsixTable(i), true) => {
                let (table, _, effect) = MsixTable::write_result(
                    self.peers.tables[i as int],
                    access,
                    (),
                );
                let peers = PeersModel {
                    tables: self.peers.tables.update(i as int, table),
                    ..self.peers
                };
                (AreasModel { peers, ..self }, access, effect)
            },
            (AreaRef::MsixTable(i), false) => (
                self,
                MsixTable::read_result(self.peers.tables[i as int], access, ()).1,
                EffectModel::Nothing,
            ),
            (AreaRef::Isr(i), false) => (
                self,
                VirtioISRCap::read_result(self.isrs[i as int], access, ()).1,
                EffectModel::Nothing,
            ),
            (AreaRef::Notify(i), true) => (
                self,
                access,
                VirtioNotifyCap::write_result(self.notifies[i as int], access, self.peers).2,
            ),
            _ => (self, access, EffectModel::Nothing),
        }
    }
}

/// What a read that was served leaves to do: nothing.
fn answered(result: HvResult<()>) -> (effect: HvResult<AreaEffect>)
    ensures
        match result {
            Ok(_) => effect matches Ok(left) && left@ == EffectModel::Nothing,
            Err(error) => effect matches Err(same) && same == error,
        },
{
    match result {
        Ok(_) => Ok(AreaEffect::Nothing),
        Err(error) => Err(error),
    }
}

impl DeviceAreas {
    /// A device without structures.
    pub fn new() -> (areas: Self)
        ensures
            areas@ == AreasModel::empty(),
    {
        let areas = DeviceAreas {
            commons: Vec::new(),
            isrs: Vec::new(),
            notifies: Vec::new(),
            peers: DevicePeers { queues: Vec::new(), tables: Vec::new() },
        };
        assert(areas@.commons =~= Seq::empty() && areas@.isrs =~= Seq::empty());
        assert(areas@.notifies =~= Seq::empty() && areas@.peers.tables =~= Seq::empty());
        areas
    }

    /// Tells whether a structure is there and can serve the access.
    pub fn can_serve(&self, area: AreaRef, mmio_ac: &MMIOAccess) -> (allowed: bool)
        ensures
            allowed == self@.allows(area, *mmio_ac),
    {
        match area {
            AreaRef::CommonCfg(i) => {
                if i >= self.commons.len() {
                    false
                } else if mmio_ac.is_write {
                    self.commons[i].can_write(mmio_ac, &self.peers)
                } else {
                    self.commons[i].can_read(mmio_ac, &self.peers)
                }
            },
            AreaRef::MsixTable(i) => {
                if i >= self.peers.tables.len() {
                    false
                } else if mmio_ac.is_write {
                    self.peers.tables[i].can_write(mmio_ac, &NoPeers)
                } else {
                    self.peers.tables[i].can_read(mmio_ac, &NoPeers)
                }
            },
            AreaRef::Isr(i) => i < self.isrs.len(),
            AreaRef::Notify(i) => {
                if i >= self.notifies.len() {
                    false
                } else {
                    !mmio_ac.is_write || self.notifies[i].can_write(mmio_ac, &self.peers)
                }
            },
        }
    }

    /// Lets a structure serve the access.
    pub fn serve(&mut self, area: AreaRef, mmio_ac: &mut MMIOAccess) -> (result: HvResult<
        AreaEffect,
    >)
        requires
            old(self)@.allows(area, *old(mmio_ac)),
        ensures
            result matches Ok(effect) && (final(self)@, *final(mmio_ac), effect@) == old(
                self,
            )@.served(area, *old(mmio_ac)),
    {
        let is_write: bool = mmio_ac.is_write;
        match area {
            AreaRef::CommonCfg(i) => {
                if is_write {
                    let result = AreaInBar::write(&mut self.commons[i], mmio_ac, &mut self.peers);
                    assert(self@.commons =~= old(self)@.served(area, *old(mmio_ac)).0.commons);
                    result
                } else {
                    let result: HvResult<()> = AreaInBar::read(&mut self.commons[i], mmio_ac, &self.peers);
                    assert(self@.commons =~= old(self)@.served(area, *old(mmio_ac)).0.commons);
                    answered(result)
                }
            },
            AreaRef::MsixTable(i) => {
                if is_write {
                    let result = AreaInBar::write(
                        &mut self.peers.tables[i],
                        mmio_ac,
                        &mut NoPeers,
                    );
                    assert(self@.peers.tables =~= old(self)@.served(
                        area,
                        *old(mmio_ac),
                    ).0.peers.tables);
                    result
                } else {
                    let result: HvResult<()> = AreaInBar::read(&mut self.peers.tables[i], mmio_ac, &NoPeers);
                    assert(self@.peers.tables =~= old(self)@.peers.tables);
                    answered(result)
                }
            },
            AreaRef::Isr(i) => {
                if is_write {
                    let result = AreaInBar::write(&mut self.isrs[i], mmio_ac, &mut NoPeers);
                    assert(self@.isrs =~= old(self)@.isrs);
                    result
                } else {
                    let result: HvResult<()> = AreaInBar::read(&mut self.isrs[i], mmio_ac, &NoPeers);
                    assert(self@.isrs =~= old(self)@.isrs);
                    answered(result)
                }
            },
            AreaRef::Notify(i) => {
                if is_write {
                    let result = AreaInBar::write(&mut self.notifies[i], mmio_ac, &mut self.peers);
                    assert(self@.notifies =~= old(self)@.notifies);
                    result
                } else {
                    let result: HvResult<()> = AreaInBar::read(&mut self.notifies[i], mmio_ac, &self.peers);
                    assert(self@.notifies =~= old(self)@.notifies);
                    answered(result)
                }
            },
        }
    }
}

/// Where a structure lies in a BAR: its start, its size, and which it is.
pub type AreaEntry = (GuestPhysAddr, usize, AreaRef);

/// One BAR: its size, and the structures that lie in it.
#[derive(Debug)]
pub struct BarArea {
    pub size: usize,
    pub area: Vec<AreaEntry>,
}

impl BarArea {
    /// A BAR of `size` bytes without structures.
    pub fn new(size: usize) -> (bar: Self)
        ensures
            bar.size == size,
            bar.area@ == Seq::<AreaEntry>::empty(),
    {
        BarArea { size, area: Vec::new() }
    }

    /// Changes the size of the BAR.
    pub fn set_size(&mut self, size: usize)
        ensures
            final(self).size == size,
            final(self).area == old(self).area,
    {
        self.size = size;
    }
}

/// Whether the structure covers the `size` bytes from `addr` on.
pub open spec fn covers(entry: AreaEntry, addr: GuestPhysAddr, size: usize) -> bool {
    entry.0 <= addr && entry.0 + entry.1 >= addr + size
}

/// Whether both ends can be told: that of the structure and that of the access.
/// Only structures that start at or below the access are looked at.
pub open spec fn ends_fit(entry: AreaEntry, addr: GuestPhysAddr, size: usize) -> bool {
    entry.0 <= addr ==> entry.0 + entry.1 <= usize::MAX && addr + size <= usize::MAX
}

/// Whether every structure in a BAR can be held against an access.
pub open spec fn all_ends_fit(entries: Seq<AreaEntry>, addr: GuestPhysAddr, size: usize) -> bool {
    forall|i: int| 0 <= i < entries.len() ==> ends_fit(#[trigger] entries[i], addr, size)
}

/// The structure that serves an access: of those that cover it the one that
/// starts highest, and of several that start there the one added last.
pub open spec fn routed(entries: Seq<AreaEntry>, addr: GuestPhysAddr, size: usize) -> Option<
    AreaEntry,
>
    decreases entries.len(),
{
    if entries.len() == 0 {
        None
    } else {
        let entry = entries.last();
        match routed(entries.drop_last(), addr, size) {
            Some(best) if !covers(entry, addr, size) || entry.0 < best.0 => Some(best),
            _ => if covers(entry, addr, size) {
                Some(entry)
            } else {
                None
            },
        }
    }
}

/// Whether an access is served by the structure `area`.
pub open spec fn goes_to(
    entries: Seq<AreaEntry>,
    addr: GuestPhysAddr,
    size: usize,
    area: AreaRef,
) -> bool {
    routed(entries, addr, size) matches Some(entry) && entry.2 == area
}

/// What serving an access to a BAR came to: the structure that served it, if
/// there is one, and what is left to do outside the device.
#[derive(Debug, PartialEq, Eq)]
pub struct BarOutcome {
    pub target: Option<AreaRef>,
    pub effect: AreaEffect,
}

impl View for BarOutcome {
    type V = (Option<AreaRef>, EffectModel);

    open spec fn view(&self) -> (Option<AreaRef>, EffectModel) {
        (self.target, self.effect@)
    }
}

/// Whether an access to `bar` can be served: the structures in it can be held
/// against the access, and the one that the access is for allows it.
pub open spec fn bar_allows(
    bars: Seq<Seq<AreaEntry>>,
    bar: usize,
    access: MMIOAccess,
    areas: AreasModel,
) -> bool {
    &&& bar < NUM_BARS
    &&& all_ends_fit(bars[bar as int], access.address, access.size)
    &&& match routed(bars[bar as int], access.address, access.size) {
        Some(entry) => areas.allows(entry.2, access),
        None => true,
    }
}

/// The structures and the access once an access to `bar` was served by the
/// structure that it is for, which structure that is, and what is left to do
/// outside the device. An access that is for no structure is left as it is.
pub open spec fn bar_served(
    bars: Seq<Seq<AreaEntry>>,
    bar: usize,
    access: MMIOAccess,
    areas: AreasModel,
) -> (AreasModel, MMIOAccess, (Option<AreaRef>, EffectModel)) {
    match routed(bars[bar as int], access.address, access.size) {
        Some(entry) => {
            let (after, answered, effect) = areas.served(entry.2, access);
            (after, answered, (Some(entry.2), effect))
        },
        None => (areas, access, (None, EffectModel::Nothing)),
    }
}

/// Finds the structure that an access is for. Structures may share a BAR; when an
/// access is trapped, one of them has to serve it.
#[derive(Debug)]
pub struct BarAreaManager {
    pub area: [Vec<AreaEntry>; 6],
}

impl View for BarAreaManager {
    type V = Seq<Seq<AreaEntry>>;

    open spec fn view(&self) -> Seq<Seq<AreaEntry>> {
        views(self.area@)
    }
}

impl BarAreaManager {
    /// The manager of a device without structures.
    pub fn new() -> (manager: Self)
        ensures
            manager@ == Seq::new(NUM_BARS as nat, |i: int| Seq::<AreaEntry>::empty()),
    {
        let manager = BarAreaManager {
            area: [Vec::new(), Vec::new(), Vec::new(), Vec::new(), Vec::new(), Vec::new()],
        };
        assert(manager@ =~= Seq::new(NUM_BARS as nat, |i: int| Seq::<AreaEntry>::empty()));
        manager
    }

    /// Takes no note of the size of a BAR.
    pub fn set_bar_size(&mut self, _bar: usize, _size: usize)
        ensures
            final(self)@ == old(self)@,
    {
    }

    /// Registers a structure of `size` bytes at `addr` in `bar`.
    pub fn insert(&mut self, bar: usize, addr: GuestPhysAddr, size: usize, area: AreaRef)
        requires
            bar < NUM_BARS,
        ensures
            final(self)@ == old(self)@.update(
                bar as int,
                old(self)@[bar as int].push((addr, size, area)),
            ),
    {
        self.area[bar].push((addr, size, area));
        assert(self@ =~= old(self)@.update(
            bar as int,
            old(self)@[bar as int].push((addr, size, area)),
        ));
    }

    /// The structure that serves an access of `size` bytes at `addr` in `bar`.
    pub fn find_cap(&self, bar: usize, addr: GuestPhysAddr, size: usize) -> (found: Option<
        AreaEntry,
    >)
        requires
            bar < NUM_BARS,
            all_ends_fit(self@[bar as int], addr, size),
        ensures
            found == routed(self@[bar as int], addr, size),
    {
        let entries: &Vec<AreaEntry> = &self.area[bar];
        let mut best: Option<AreaEntry> = None;
        let mut i: usize = 0;
        while i < entries.len()
            invariant
                i <= entries@.len(),
                all_ends_fit(entries@, addr, size),
                best == routed(entries@.take(i as int), addr, size),
            decreases entries@.len() - i,
        {
            let entry: AreaEntry = entries[i];
            assert(ends_fit(entries@[i as int], addr, size));
            assert(entries@.take(i + 1).drop_last() =~= entries@.take(i as int));
            if entry.0 <= addr && entry.0 + entry.1 >= addr + size {
                let higher: bool = match best {
                    Some(other) => entry.0 >= other.0,
                    None => true,
                };
                if higher {
                    best = Some(entry);
                }
            }
            i = i + 1;
        }
        assert(entries@.take(entries@.len() as int) =~= entries@);
        best
    }

    /// Tells whether an access to `bar` can be served.
    pub fn can_handle(&self, bar: usize, mmio_ac: &MMIOAccess, areas: &DeviceAreas) -> (allowed:
        bool)
        ensures
            allowed == bar_allows(self@, bar, *mmio_ac, areas@),
    {
        if bar >= NUM_BARS {
            return false;
        }
        let (addr, size): (usize, usize) = (mmio_ac.address, mmio_ac.size);
        let entries: &Vec<AreaEntry> = &self.area[bar];
        let mut i: usize = 0;
        while i < entries.len()
            invariant
                i <= entries@.len(),
                bar < NUM_BARS,
                entries@ == self@[bar as int],
                (addr, size) == (mmio_ac.address, mmio_ac.size),
                forall|j: int| 0 <= j < i ==> ends_fit(#[trigger] entries@[j], addr, size),
            decreases entries@.len() - i,
        {
            let entry: AreaEntry = entries[i];
            if entry.0 <= addr && (entry.1 > usize::MAX - entry.0 || size > usize::MAX - addr) {
                assert(!ends_fit(entries@[i as int], addr, size));
                return false;
            }
            i = i + 1;
        }
        match self.find_cap(bar, addr, size) {
            Some(entry) => areas.can_serve(entry.2, mmio_ac),
            None => true,
        }
    }

    /// Lets the structure that an access to `bar` is for serve it. An access that no
    /// structure covers is left unanswered.
    pub fn handle_bar_access(
        &self,
        bar: usize,
        mmio_ac: &mut MMIOAccess,
        areas: &mut DeviceAreas,
    ) -> (result: HvResult<BarOutcome>)
        requires
            bar_allows(self@, bar, *old(mmio_ac), old(areas)@),
        ensures
            result matches Ok(outcome) && (final(areas)@, *final(mmio_ac), outcome@) == bar_served(
                self@,
                bar,
                *old(mmio_ac),
                old(areas)@,
            ),
    {
        match self.find_cap(bar, mmio_ac.address, mmio_ac.size) {
            Some((_, _, area)) => match areas.serve(area, mmio_ac) {
                Ok(effect) => Ok(BarOutcome { target: Some(area), effect }),
                Err(error) => Err(error),
            },
            None => Ok(BarOutcome { target: None, effect: AreaEffect::Nothing }),
        }
    }
}

/// An access is served by a structure that covers it, and no structure that
/// covers it starts higher; it is left unanswered exactly if none covers it.
pub proof fn law_access_goes_to_innermost_structure(
    entries: Seq<AreaEntry>,
    addr: GuestPhysAddr,
    size: usize,
)
    ensures
        match routed(entries, addr, size) {
            Some(best) => {
                &&& entries.contains(best)
                &&& covers(best, addr, size)
                &&& forall|i: int|
                    0 <= i < entries.len() && covers(#[trigger] entries[i], addr, size)
                        ==> entries[i].0 <= best.0
            },
            None => forall|i: int|
                0 <= i < entries.len() ==> !covers(#[trigger] entries[i], addr, size),
        },
    decreases entries.len(),
{
    if entries.len() > 0 {
        let rest = entries.drop_last();
        law_access_goes_to_innermost_structure(rest, addr, size);
        assert(forall|i: int| 0 <= i < rest.len() ==> entries[i] == #[trigger] rest[i]);
        assert(entries[entries.len() - 1] == entries.last());
        match routed(rest, addr, size) {
            Some(best) => {
                let i = choose|i: int| 0 <= i < rest.len() && rest[i] == best;
                assert(entries[i] == best);
                let (start, _, _) = routed(entries, addr, size)->0;
                assert forall|j: int|
                    0 <= j < entries.len() && covers(#[trigger] entries[j], addr, size) implies entries[j].0
                    <= start by {
                    if j < rest.len() {
                        assert(covers(rest[j], addr, size));
                    }
                }
            },
            None => {
                assert forall|j: int| 0 <= j < rest.len() implies !covers(
                    #[trigger] entries[j],
                    addr,
                    size,
                ) by {
                    assert(!covers(rest[j], addr, size));
                }
            },
        }
    }
}

/// Of structures that start at the same address and cover an access, the one
/// added last serves it.
pub proof fn law_last_added_structure_wins(
    entries: Seq<AreaEntry>,
    added: AreaEntry,
    addr: GuestPhysAddr,
    size: usize,
)
    requires
        covers(added, addr, size),
        forall|i: int|
            0 <= i < entries.len() && covers(#[trigger] entries[i], addr, size) ==> entries[i].0
                <= added.0,
    ensures
        routed(entries.push(added), addr, size) == Some(added),
{
    assert(entries.push(added).drop_last() =~= entries);
    law_access_goes_to_innermost_structure(entries, addr, size);
    match routed(entries, addr, size) {
        Some(best) => {
            let i = choose|i: int| 0 <= i < entries.len() && entries[i] == best;
            assert(covers(entries[i], addr, size));
        },
        None => {},
    }
}

/// Where the structures of a BAR do not overlap, an access is served by the one
/// structure that covers it.
pub proof fn law_disjoint_structures_are_served_apart(
    entries: Seq<AreaEntry>,
    addr: GuestPhysAddr,
    size: usize,
    index: int,
)
    requires
        size > 0,
        0 <= index < entries.len(),
        covers(entries[index], addr, size),
        forall|i: int, j: int|
            0 <= i < j < entries.len() ==> (#[trigger] entries[i]).0 + entries[i].1 <= (
            #[trigger] entries[j]).0 || entries[j].0 + entries[j].1 <= entries[i].0,
    ensures
        routed(entries, addr, size) == Some(entries[index]),
{
    law_access_goes_to_innermost_structure(entries, addr, size);
    assert(routed(entries, addr, size) is Some);
    let best = routed(entries, addr, size)->0;
    let i = choose|i: int| 0 <= i < entries.len() && entries[i] == best;
    assert(covers(entries[i], addr, size));
}

/// Through a BAR the driver reads the status, the vector of configuration changes
/// and the queue size that it wrote there, whatever else the BAR holds.
pub proof fn law_common_registers_read_back_through_bar(
    bars: Seq<Seq<AreaEntry>>,
    bar: usize,
    areas: AreasModel,
    common: usize,
    store: MMIOAccess,
    load: MMIOAccess,
)
    requires
        store.is_write && !load.is_write,
        (load.address, load.size) == (store.address, store.size),
        match (store.address, store.size) {
            (0x14, 1) | (0x10, 2) | (0x18, 2) => true,
            _ => false,
        },
        goes_to(bars[bar as int], store.address, store.size, AreaRef::CommonCfg(common)),
        bar_allows(bars, bar, store, areas),
    ensures
        ({
            let written = bar_served(bars, bar, store, areas).0;
            let answered = bar_served(bars, bar, load, written).1;
            &&& bar_allows(bars, bar, load, written)
            &&& store.size == 1 ==> answered.value == low8(store.value)
            &&& store.size == 2 ==> answered.value == low16(store.value)
        }),
{
}

/// Through a BAR the driver reads the words of vectors that it wrote there.
pub proof fn law_table_words_read_back_through_bar(
    bars: Seq<Seq<AreaEntry>>,
    bar: usize,
    areas: AreasModel,
    table: TableSlot,
    store: MMIOAccess,
    load: MMIOAccess,
)
    requires
        store.is_write && !load.is_write,
        (load.address, load.size) == (store.address, store.size),
        starts_word(store.address % MSIX_ENTRY_SIZE),
        goes_to(bars[bar as int], store.address, store.size, AreaRef::MsixTable(table)),
        bar_allows(bars, bar, store, areas),
    ensures
        ({
            let written = bar_served(bars, bar, store, areas).0;
            &&& bar_allows(bars, bar, load, written)
            &&& bar_served(bars, bar, load, written).1.value == low32(store.value)
        }),
{
    law_table_word_reads_back(areas.peers.tables[table as int], store, load);
}

/// An access is served by a structure whose bytes hold all bytes of the access: of
/// those the one that starts highest, and of several that start there the one that
/// was added last. There is none exactly if no structure holds all bytes of the
/// access.
pub proof fn law_routing_by_address(entries: Seq<AreaEntry>, addr: GuestPhysAddr, size: usize)
    ensures
        match routed(entries, addr, size) {
            Some(best) => exists|k: int|
                #![trigger entries[k]]
                {
                    &&& 0 <= k < entries.len() && entries[k] == best
                    &&& best.0 <= addr && addr + size <= best.0 + best.1
                    &&& forall|j: int|
                        0 <= j < entries.len() && (#[trigger] entries[j]).0 <= addr && addr + size
                            <= entries[j].0 + entries[j].1 ==> entries[j].0 < best.0 || (
                        entries[j].0 == best.0 && j <= k)
                },
            None => forall|j: int|
                0 <= j < entries.len() ==> !((#[trigger] entries[j]).0 <= addr && addr + size
                    <= entries[j].0 + entries[j].1),
        },
    decreases entries.len(),
{
    if entries.len() > 0 {
        let rest = entries.drop_last();
        let last = entries.len() - 1;
        law_routing_by_address(rest, addr, size);
        assert(forall|j: int| 0 <= j < rest.len() ==> entries[j] == #[trigger] rest[j]);
        match routed(rest, addr, size) {
            Some(best) => {
                let k = choose|k: int|
                    #![trigger rest[k]]
                    {
                        &&& 0 <= k < rest.len() && rest[k] == best
                        &&& best.0 <= addr && addr + size <= best.0 + best.1
                        &&& forall|j: int|
                            0 <= j < rest.len() && (#[trigger] rest[j]).0 <= addr && addr + size
                                <= rest[j].0 + rest[j].1 ==> rest[j].0 < best.0 || (rest[j].0
                                == best.0 && j <= k)
                    };
                let chosen = if routed(entries, addr, size) == Some(best) && !(covers(
                    entries[last],
                    addr,
                    size,
                ) && entries[last].0 >= best.0) {
                    k
                } else {
                    last
                };
                let found = entries[chosen];
                assert(routed(entries, addr, size) == Some(found));
                assert forall|j: int|
                    0 <= j < entries.len() && (#[trigger] entries[j]).0 <= addr && addr + size
                        <= entries[j].0 + entries[j].1 implies entries[j].0 < found.0 || (
                entries[j].0 == found.0 && j <= chosen) by {
                    if j < last {
                        assert(rest[j] == entries[j]);
                    }
                }
            },
            None => {
                assert forall|j: int| 0 <= j < last implies !((#[trigger] entries[j]).0 <= addr
                    && addr + size <= entries[j].0 + entries[j].1) by {
                    assert(rest[j] == entries[j]);
                }
                assert(entries[last] == entries.last());
            },
        }
    }
}

/// An access to a BAR is served by the structure that it is routed to and by that
/// alone, and says which it was; an access that is routed nowhere is left as it is,
/// and so is the device.
pub proof fn law_bar_hands_on_to_the_routed_structure(
    bars: Seq<Seq<AreaEntry>>,
    bar: usize,
    access: MMIOAccess,
    areas: AreasModel,
)
    ensures
        ({
            let (after, answered, (target, effect)) = bar_served(bars, bar, access, areas);
            match routed(bars[bar as int], access.address, access.size) {
                Some((_, _, area)) => target == Some(area) && areas.served(area, access) == (
                    after,
                    answered,
                    effect,
                ),
                None => target is None && after == areas && answered == access && effect
                    == EffectModel::Nothing,
            }
        }),
{
}

/// A BAR refuses an access exactly if there is no such BAR, if a structure that
/// starts at or below the access, or the access, ends beyond the last address, or if
/// the structure that the access is routed to refuses it.
pub proof fn law_refused_bar_accesses(
    bars: Seq<Seq<AreaEntry>>,
    bar: usize,
    access: MMIOAccess,
    areas: AreasModel,
)
    ensures
        bar_allows(bars, bar, access, areas) <==> {
            &&& bar < 6
            &&& forall|i: int|
                0 <= i < bars[bar as int].len() && (#[trigger] bars[bar as int][i]).0
                    <= access.address ==> bars[bar as int][i].0 + bars[bar as int][i].1
                    <= usize::MAX && access.address + access.size <= usize::MAX
            &&& match routed(bars[bar as int], access.address, access.size) {
                Some((_, _, area)) => areas.allows(area, access),
                None => true,
            }
        },
{
    let entries = bars[bar as int];
    assert(all_ends_fit(entries, access.address, access.size) <==> forall|i: int|
        0 <= i < entries.len() && (#[trigger] entries[i]).0 <= access.address ==> entries[i].0
            + entries[i].1 <= usize::MAX && access.address + access.size <= usize::MAX) by {
        if all_ends_fit(entries, access.address, access.size) {
            assert forall|i: int|
                0 <= i < entries.len() && (#[trigger] entries[i]).0 <= access.address implies entries[i].0
                + entries[i].1 <= usize::MAX && access.address + access.size <= usize::MAX by {
                assert(ends_fit(entries[i], access.address, access.size));
            }
        }
    }
}

/// A structure refuses an access exactly if it is not there, or what it is refuses
/// it: a write as a write, a read as a read.
pub proof fn law_structures_decide_what_is_refused(areas: AreasModel, access: MMIOAccess, i: usize)
    ensures
        areas.allows(AreaRef::CommonCfg(i), access) <==> i < areas.commons.len() && (access.is_write
            ==> VirtioPciCommonCfg::write_allowed(areas.commons[i as int], access, areas.peers)) && (
        !access.is_write ==> VirtioPciCommonCfg::read_allowed(
            areas.commons[i as int],
            access,
            areas.peers,
        )),
        areas.allows(AreaRef::MsixTable(i), access) <==> i < areas.peers.tables.len() && (
        access.is_write ==> MsixTable::write_allowed(areas.peers.tables[i as int], access, ())) && (
        !access.is_write ==> MsixTable::read_allowed(areas.peers.tables[i as int], access, ())),
        areas.allows(AreaRef::Isr(i), access) <==> i < areas.isrs.len(),
        areas.allows(AreaRef::Notify(i), access) <==> i < areas.notifies.len() && (access.is_write
            ==> VirtioNotifyCap::write_allowed(areas.notifies[i as int], access, areas.peers)),
{
}

/// A common configuration serves an access by itself: a write as a write, which can
/// change what structures share and leaves the access as it is, a read as a read,
/// which leaves nothing to do. No other structure changes.
pub proof fn law_common_configuration_serves(areas: AreasModel, access: MMIOAccess, i: usize, j: int)
    requires
        i < areas.commons.len(),
        0 <= j < areas.commons.len(),
    ensures
        ({
            let cfg = areas.commons[i as int];
            let (after, answered, effect) = areas.served(AreaRef::CommonCfg(i), access);
            &&& access.is_write ==> answered == access && (
                after.commons[i as int],
                after.peers,
                effect,
            ) == VirtioPciCommonCfg::write_result(cfg, access, areas.peers)
            &&& !access.is_write ==> after.peers == areas.peers && effect == EffectModel::Nothing
                && (after.commons[i as int], answered) == VirtioPciCommonCfg::read_result(
                cfg,
                access,
                areas.peers,
            )
            &&& after.commons.len() == areas.commons.len()
            &&& j != i ==> after.commons[j] == areas.commons[j]
            &&& after.isrs == areas.isrs && after.notifies == areas.notifies
        }),
{
}

/// A vector table serves an access by itself, and no other table, no queue and no
/// other structure changes.
pub proof fn law_vector_table_serves(areas: AreasModel, access: MMIOAccess, i: usize, j: int)
    requires
        i < areas.peers.tables.len(),
        0 <= j < areas.peers.tables.len(),
    ensures
        ({
            let table = areas.peers.tables[i as int];
            let (after, answered, effect) = areas.served(AreaRef::MsixTable(i), access);
            &&& effect == EffectModel::Nothing
            &&& access.is_write ==> answered == access && after.peers.tables[i as int]
                == MsixTable::write_result(table, access, ()).0
            &&& !access.is_write ==> after.peers.tables[i as int] == table && answered
                == MsixTable::read_result(table, access, ()).1
            &&& after.peers.tables.len() == areas.peers.tables.len()
            &&& j != i ==> after.peers.tables[j] == areas.peers.tables[j]
            &&& after.peers.queues == areas.peers.queues
            &&& after.commons == areas.commons
            &&& after.isrs == areas.isrs && after.notifies == areas.notifies
        }),
{
}

/// An interrupt status answers a read and a notification structure asks for queues
/// on a write; neither does more, and neither changes the device.
pub proof fn law_status_and_notification_serve(areas: AreasModel, access: MMIOAccess, i: usize)
    ensures
        ({
            let (after, answered, effect) = areas.served(AreaRef::Isr(i), access);
            &&& after == areas && effect == EffectModel::Nothing
            &&& answered == if access.is_write {
                access
            } else {
                VirtioISRCap::read_result(areas.isrs[i as int], access, ()).1
            }
        }),
        ({
            let (after, answered, effect) = areas.served(AreaRef::Notify(i), access);
            &&& after == areas && answered == access
            &&& effect == if access.is_write {
                VirtioNotifyCap::write_result(areas.notifies[i as int], access, areas.peers).2
            } else {
                EffectModel::Nothing
            }
        }),
{
}

/// Once the backend has answered, the queues in the list of the common configuration
/// have the identifier and nothing else of the device has changed.
pub proof fn law_answer_changes_identifiers_only(
    areas: AreasModel,
    common: int,
    dev_id: u16,
    i: int,
    other: int,
)
    requires
        0 <= common < areas.commons.len(),
        0 <= i < areas.commons[common].queue_list.len(),
        areas.commons[common].queue_list[i] < areas.peers.queues.len(),
        0 <= other < areas.peers.queues.len(),
    ensures
        ({
            let after = areas.with_identifier(common, dev_id);
            let slots = areas.commons[common].queue_list;
            let slot = slots[i] as int;
            &&& after.commons == areas.commons
            &&& after.isrs == areas.isrs && after.notifies == areas.notifies
            &&& after.peers.tables == areas.peers.tables
            &&& after.peers.queues.len() == areas.peers.queues.len()
            &&& after.peers.queues[slot] == (Virtqueue {
                this_dev_id: dev_id,
                ..areas.peers.queues[slot]
            })
            &&& (forall|j: int| 0 <= j < slots.len() ==> #[trigger] slots[j] != other)
                ==> after.peers.queues[other] == areas.peers.queues[other]
        }),
{
    law_identifier_goes_to_the_listed_queues(
        areas.peers.queues,
        areas.commons[common].queue_list,
        dev_id,
        i,
        other,
    );
}

/// A table that takes note of a mapping has seen it last, the event with its
/// interrupt; its vectors, the other tables and the rest of the device stay.
pub proof fn law_mapping_is_noted_last(
    areas: AreasModel,
    table: int,
    event: usize,
    intid: usize,
    other: int,
)
    requires
        0 <= table < areas.peers.tables.len(),
        0 <= other < areas.peers.tables.len(),
    ensures
        ({
            let after = areas.with_event(table, (event, intid));
            let (before, noted) = (areas.peers.tables[table], after.peers.tables[table]);
            &&& noted.event_id.len() == before.event_id.len() + 1
            &&& noted.event_id.last().0 == event && noted.event_id.last().1 == intid
            &&& noted.event_id.drop_last() == before.event_id
            &&& noted.table == before.table && noted.device_id == before.device_id
            &&& after.peers.tables.len() == areas.peers.tables.len()
            &&& other != table ==> after.peers.tables[other] == areas.peers.tables[other]
            &&& after.peers.queues == areas.peers.queues
            &&& after.commons == areas.commons
            &&& after.isrs == areas.isrs && after.notifies == areas.notifies
        }),
{
    let before = areas.peers.tables[table].event_id;
    assert(before.push((event, intid)).drop_last() =~= before);
}

/// From the driver's choice of a vector to the interrupt of a request: after the
/// driver has given the selected queue a vector of its table, and has written to that
/// vector data whose oldest mapping is to `intid`, a notification of the queue asks
/// for it with a vector that is bound to `intid`.
pub proof fn law_chosen_vector_answers_notifications(
    areas: AreasModel,
    common: usize,
    choose_vector: MMIOAccess,
    bind: MMIOAccess,
    first: int,
    notify: usize,
    j: int,
    store: MMIOAccess,
)
    requires
        common < areas.commons.len(),
        notify < areas.notifies.len(),
        choose_vector.is_write && choose_vector.size == 2 && choose_vector.address == 0x1a,
        bind.is_write && store.is_write,
        ({
            let cfg = areas.commons[common as int];
            let slot = cfg.queue_list[cfg.queue_select as int];
            let queue = areas.peers.queues[slot as int];
            let table = areas.peers.tables[queue.msix_table as int];
            let vector = choose_vector.value % 0x1_0000;
            &&& cfg.queue_select < cfg.queue_list.len() && slot < areas.peers.queues.len()
            &&& queue.msix_table < areas.peers.tables.len() && vector < table.table.len()
            &&& bind.address == 16 * vector + 8
            &&& 0 <= first < table.event_id.len()
            &&& table.event_id[first].0 == bind.value as u64 % 0x1_0000_0000
            &&& forall|k: int|
                0 <= k < first ==> (#[trigger] table.event_id[k]).0 != bind.value as u64
                    % 0x1_0000_0000
            &&& 0 <= j < areas.notifies[notify as int].queue_list.len()
            &&& areas.notifies[notify as int].queue_list[j] == (store.address, slot)
        }),
    ensures
        ({
            let cfg = areas.commons[common as int];
            let slot = cfg.queue_list[cfg.queue_select as int];
            let queue = areas.peers.queues[slot as int];
            let table = areas.peers.tables[queue.msix_table as int];
            let chosen = areas.served(AreaRef::CommonCfg(common), choose_vector).0;
            let bound = chosen.served(AreaRef::MsixTable(queue.msix_table), bind).0;
            bound.served(AreaRef::Notify(notify), store).2 matches EffectModel::Notify(asked)
                && exists|k: int|
                0 <= k < asked.len() && (#[trigger] asked[k]).info.dev_id == queue.this_dev_id
                    && asked[k].info.queue_id == queue.queue_id && asked[k].entry.intid == Some(
                    table.event_id[first].1,
                )
        }),
{
    let cfg = areas.commons[common as int];
    let slot = cfg.queue_list[cfg.queue_select as int];
    let queue = areas.peers.queues[slot as int];
    let table = areas.peers.tables[queue.msix_table as int];
    let vector = (choose_vector.value % 0x1_0000) as int;
    let chosen = areas.served(AreaRef::CommonCfg(common), choose_vector).0;
    let bound = chosen.served(AreaRef::MsixTable(queue.msix_table), bind).0;
    law_written_queue_registers(cfg, areas.peers, choose_vector);
    let given = chosen.peers.queues[slot as int];
    assert(given.queue_msix_vector == vector);
    law_table_writes_the_fields(table, bind, vector);
    law_vector_is_bound_to_the_oldest_mapping(table, vector, first, bind);
    law_notified_queue_is_asked_for(bound.notifies[notify as int], bound.peers, store, j);
    let entry = bound.peers.tables[queue.msix_table as int].table[vector];
    let info = VirtioPCIDataInfo { dev_id: queue.this_dev_id, queue_id: queue.queue_id };
    let asked = bound.served(AreaRef::Notify(notify), store).2->Notify_0;
    assert(asked.contains(NotifyRequest { info, entry }));
    let k = choose|k: int| 0 <= k < asked.len() && asked[k] == (NotifyRequest { info, entry });
    assert(asked[k].info == info);
}

/// The contents of the structures of a device, of what came of an access, and of the
/// BARs are theirs, each in its place.
pub proof fn law_structures_are_seen_whole(
    areas: DeviceAreas,
    outcome: BarOutcome,
    manager: BarAreaManager,
    i: int,
)
    ensures
        areas@.commons.len() == areas.commons@.len(),
        0 <= i < areas.commons@.len() ==> areas@.commons[i] == areas.commons@[i]@,
        areas@.isrs.len() == areas.isrs@.len(),
        0 <= i < areas.isrs@.len() ==> areas@.isrs[i] == areas.isrs@[i].isr,
        areas@.notifies.len() == areas.notifies@.len(),
        0 <= i < areas.notifies@.len() ==> areas@.notifies[i] == areas.notifies@[i]@,
        areas@.peers == areas.peers@,
        outcome@ == (outcome.target, outcome.effect@),
        manager@.len() == 6,
        0 <= i < 6 ==> manager@[i] == manager.area@[i]@,
        AreasModel::empty().commons.len() == 0,
        AreasModel::empty().isrs.len() == 0,
        AreasModel::empty().notifies.len() == 0,
        AreasModel::empty().peers.queues.len() == 0,
        AreasModel::empty().peers.tables.len() == 0,
{
}

} // verus!

//! The MSI-X vector table of a device, and the interrupt that each vector is
//! bound to.
use vstd::prelude::*;

use crate::area::{AreaEffect, AreaInBar, EffectModel, NoPeers};
use crate::bits::{lemma_low32, low32};
use crate::error::HvResult;
use crate::mmio::MMIOAccess;

verus! {

/// The bytes that one vector takes in the table.
pub const MSIX_ENTRY_SIZE: usize = 16;

/// One vector: the message that it sends, and the interrupt that the message
/// raises, once it is known.
#[derive(Clone, Copy, Debug, PartialEq, Eq)]
pub struct MsixTableEntry {
    pub message_address: u32,
    pub message_upper_address: u32,
    pub msg_data: u32,
    pub vector_control: u32,
    pub intid: Option<usize>,
}

impl MsixTableEntry {
    /// The vector that nothing was written to yet.
    pub open spec fn blank() -> MsixTableEntry {
        MsixTableEntry {
            message_address: 0,
            message_upper_address: 0,
            msg_data: 0,
            vector_control: 0,
            intid: None,
        }
    }

    /// The 32-bit word at `offset` in the vector, where there is one.
    pub open spec fn word_at(self, offset: usize) -> Option<u32> {
        match offset {
            0x0 => Some(self.message_address),
            0x4 => Some(self.message_upper_address),
            0x8 => Some(self.msg_data),
            0xc => Some(self.vector_control),
            _ => None,
        }
    }

    /// The vector with the word at `offset` replaced, where there is one.
    pub open spec fn with_word(self, offset: usize, word: u32) -> MsixTableEntry {
        match offset {
            0x0 => MsixTableEntry { message_address: word, ..self },
            0x4 => MsixTableEntry { message_upper_address: word, ..self },
            0x8 => MsixTableEntry { msg_data: word, ..self },
            0xc => MsixTableEntry { vector_control: word, ..self },
            _ => self,
        }
    }

    /// The vector bound to the interrupt of the first event that its message
    /// names; where there is none, it stays bound as it was.
    pub open spec fn bound(self, events: Seq<(usize, usize)>) -> MsixTableEntry {
        match first_intid(events, self.msg_data as usize) {
            Some(intid) => MsixTableEntry { intid: Some(intid), ..self },
            None => self,
        }
    }

    /// The interrupt to inject so that the vector fires, if it is bound to one.
    pub fn activate_irq(&self) -> (irq: Option<usize>)
        ensures
            irq == self.intid,
    {
        self.intid
    }

    /// A vector that nothing was written to yet.
    pub fn dummy() -> (entry: Self)
        ensures
            entry == MsixTableEntry::blank(),
    {
        MsixTableEntry {
            message_address: 0,
            message_upper_address: 0,
            msg_data: 0,
            vector_control: 0,
            intid: None,
        }
    }
}

/// Whether one of the four words of a vector starts at `offset` in it.
pub open spec fn starts_word(offset: usize) -> bool {
    offset == 0x0 || offset == 0x4 || offset == 0x8 || offset == 0xc
}

/// The interrupt of the first of `events` that is number `event`.
pub open spec fn first_intid(events: Seq<(usize, usize)>, event: usize) -> Option<usize>
    decreases events.len(),
{
    if events.len() == 0 {
        None
    } else if events[0].0 == event {
        Some(events[0].1)
    } else {
        first_intid(events.drop_first(), event)
    }
}

/// The vector table of a device. `event_id` holds the events that the guest has
/// mapped to interrupts, the oldest first, each with its interrupt.
#[derive(Debug)]
pub struct MsixTable {
    pub table: Vec<MsixTableEntry>,
    pub device_id: usize,
    pub event_id: Vec<(usize, usize)>,
}

/// The contents of a `MsixTable`.
pub struct MsixTableModel {
    pub table: Seq<MsixTableEntry>,
    pub device_id: usize,
    pub event_id: Seq<(usize, usize)>,
}

impl View for MsixTable {
    type V = MsixTableModel;

    open spec fn view(&self) -> MsixTableModel {
        MsixTableModel {
            table: self.table@,
            device_id: self.device_id,
            event_id: self.event_id@,
        }
    }
}

impl MsixTableModel {
    /// A table of `size` blank vectors for the device `deviceid`.
    pub open spec fn fresh(size: usize, deviceid: usize) -> MsixTableModel {
        MsixTableModel {
            table: Seq::new(size as nat, |i: int| MsixTableEntry::blank()),
            device_id: deviceid,
            event_id: Seq::empty(),
        }
    }

    /// The word of the table at `address`, where one starts there.
    pub open spec fn word_at(self, address: usize) -> Option<u32> {
        self.table[(address / MSIX_ENTRY_SIZE) as int].word_at(address % MSIX_ENTRY_SIZE)
    }

    /// The table with vector `index` bound by the events seen so far.
    pub open spec fn with_bound(self, index: int) -> MsixTableModel {
        MsixTableModel {
            table: self.table.update(index, self.table[index].bound(self.event_id)),
            ..self
        }
    }

    /// The table with a word of vector `index` replaced.
    pub open spec fn with_word(self, index: int, offset: usize, word: u32) -> MsixTableModel {
        MsixTableModel {
            table: self.table.update(index, self.table[index].with_word(offset, word)),
            ..self
        }
    }
}

impl MsixTable {
    /// A table of `size` blank vectors for the device `deviceid`.
    pub fn new(size: usize, deviceid: usize) -> (table: Self)
        ensures
            table@ == MsixTableModel::fresh(size, deviceid),
    {
        let mut vec: Vec<MsixTableEntry> = Vec::new();
        vec.resize(size, MsixTableEntry::dummy());
        assert(vec@ =~= MsixTableModel::fresh(size, deviceid).table);
        MsixTable { table: vec, device_id: deviceid, event_id: Vec::new() }
    }

    /// The interrupt to inject so that vector `vector_index` fires, if it is bound
    /// to one.
    pub fn inject_irq(&self, vector_index: usize) -> (irq: Option<usize>)
        requires
            vector_index < self@.table.len(),
        ensures
            irq == self@.table[vector_index as int].intid,
    {
        self.table[vector_index].activate_irq()
    }

    /// Vector `vector_index` as it is now.
    pub fn get_entry(&self, vector_index: usize) -> (entry: MsixTableEntry)
        requires
            vector_index < self@.table.len(),
        ensures
            entry == self@.table[vector_index as int],
    {
        self.table[vector_index]
    }

    /// Takes note that the guest has mapped `event_id` to `intid`. Every mapping is
    /// noted, whichever device it is for.
    pub fn intercept_its(&mut self, _deviceid: usize, event_id: usize, intid: usize)
        ensures
            final(self)@ == (MsixTableModel {
                event_id: old(self)@.event_id.push((event_id, intid)),
                ..old(self)@
            }),
    {
        self.event_id.push((event_id, intid));
    }

    /// Binds vector `index` to the interrupt of the first event that its message
    /// names.
    pub fn init_msix_intid(&mut self, index: usize)
        requires
            index < old(self)@.table.len(),
        ensures
            final(self)@ == old(self)@.with_bound(index as int),
    {
        let data: usize = self.table[index].msg_data as usize;
        let mut i: usize = 0;
        assert(self.event_id@.skip(0) =~= self.event_id@);
        while i < self.event_id.len()
            invariant
                i <= self.event_id@.len(),
                index < self@.table.len(),
                self@ == old(self)@,
                data == self@.table[index as int].msg_data,
                first_intid(self.event_id@, data) == first_intid(self.event_id@.skip(i as int), data),
            decreases self.event_id@.len() - i,
        {
            proof {
                assert(self.event_id@.skip(i as int).drop_first() =~= self.event_id@.skip(i + 1));
            }
            if data == self.event_id[i].0 {
                let intid: usize = self.event_id[i].1;
                self.table[index].intid = Some(intid);
                assert(self@.table =~= old(self)@.with_bound(index as int).table);
                return ;
            }
            i = i + 1;
        }
        assert(self@.table =~= old(self)@.with_bound(index as int).table);
    }
}

impl AreaInBar for MsixTable {
    type Peers = NoPeers;

    open spec fn read_allowed(area: MsixTableModel, access: MMIOAccess, peers: ()) -> bool {
        starts_word(access.address % MSIX_ENTRY_SIZE) ==> access.address / MSIX_ENTRY_SIZE
            < area.table.len()
    }

    /// A read at the start of a word of a vector gives that word.
    open spec fn read_result(area: MsixTableModel, access: MMIOAccess, peers: ()) -> (
        MsixTableModel,
        MMIOAccess,
    ) {
        match area.word_at(access.address) {
            Some(word) => (area, access.answered(word as usize)),
            None => (area, access),
        }
    }

    open spec fn write_allowed(area: MsixTableModel, access: MMIOAccess, peers: ()) -> bool {
        access.address / MSIX_ENTRY_SIZE < area.table.len()
    }

    /// A write at the start of a word of a vector replaces it; the vector that the
    /// write falls into is then bound afresh.
    open spec fn write_result(area: MsixTableModel, access: MMIOAccess, peers: ()) -> (
        MsixTableModel,
        (),
        EffectModel,
    ) {
        let index = (access.address / MSIX_ENTRY_SIZE) as int;
        let offset = access.address % MSIX_ENTRY_SIZE;
        (
            area.with_word(index, offset, low32(access.value)).with_bound(index),
            (),
            EffectModel::Nothing,
        )
    }

    fn can_read(&self, mmio_ac: &MMIOAccess, peers: &NoPeers) -> (allowed: bool) {
        let in_table: bool = mmio_ac.address / MSIX_ENTRY_SIZE < self.table.len();
        match mmio_ac.address % MSIX_ENTRY_SIZE {
            0x00 | 0x04 | 0x08 | 0x0c => in_table,
            _ => true,
        }
    }

    fn can_write(&self, mmio_ac: &MMIOAccess, peers: &NoPeers) -> (allowed: bool) {
        mmio_ac.address / MSIX_ENTRY_SIZE < self.table.len()
    }

    fn read(&mut self, mmio_ac: &mut MMIOAccess, peers: &NoPeers) -> (result: HvResult<()>) {
        let offset: usize = mmio_ac.address;
        let index: usize = offset / MSIX_ENTRY_SIZE;
        let offset_in_entry: usize = offset % MSIX_ENTRY_SIZE;
        match offset_in_entry {
            0x00 => mmio_ac.value = self.table[index].message_address as usize,
            0x04 => mmio_ac.value = self.table[index].message_upper_address as usize,
            0x08 => mmio_ac.value = self.table[index].msg_data as usize,
            0x0c => mmio_ac.value = self.table[index].vector_control as usize,
            _ => {},
        }
        Ok(())
    }

    fn write(&mut self, mmio_ac: &MMIOAccess, peers: &mut NoPeers) -> (result: HvResult<
        AreaEffect,
    >) {
        let offset: usize = mmio_ac.address;
        let index: usize = offset / MSIX_ENTRY_SIZE;
        let offset_in_entry: usize = offset % MSIX_ENTRY_SIZE;
        let value: usize = mmio_ac.value;
        proof {
            lemma_low32(value);
        }
        match offset_in_entry {
            0x00 => self.table[index].message_address = value as u32,
            0x04 => self.table[index].message_upper_address = value as u32,
            0x08 => self.table[index].msg_data = value as u32,
            0x0c => self.table[index].vector_control = value as u32,
            _ => {},
        }
        assert(self@.table =~= old(self)@.with_word(
            index as int,
            offset_in_entry,
            low32(value),
        ).table);
        self.init_msix_intid(index);
        Ok(AreaEffect::Nothing)
    }
}

/// The interrupt of an event is that of the oldest mapping of it.
pub proof fn law_oldest_mapping_counts(events: Seq<(usize, usize)>, event: usize)
    ensures
        match first_intid(events, event) {
            Some(intid) => exists|i: int|
                #![trigger events[i]]
                0 <= i < events.len() && events[i] == (event, intid) && forall|j: int|
                    0 <= j < i ==> (#[trigger] events[j]).0 != event,
            None => forall|j: int| 0 <= j < events.len() ==> (#[trigger] events[j]).0 != event,
        },
    decreases events.len(),
{
    if events.len() > 0 {
        let rest = events.drop_first();
        assert(forall|j: int| 0 <= j < rest.len() ==> #[trigger] rest[j] == events[j + 1]);
        if events[0].0 == event {
            assert(events[0] == (event, events[0].1));
        } else {
            law_oldest_mapping_counts(rest, event);
            match first_intid(rest, event) {
                Some(intid) => {
                    let i = choose|i: int|
                        #![trigger rest[i]]
                        0 <= i < rest.len() && rest[i] == (event, intid) && forall|j: int|
                            0 <= j < i ==> (#[trigger] rest[j]).0 != event;
                    assert(events[i + 1] == (event, intid));
                    assert forall|j: int| 0 <= j < i + 1 implies (#[trigger] events[j]).0
                        != event by {
                        if j > 0 {
                            assert(rest[j - 1].0 != event);
                        }
                    }
                },
                None => {
                    assert forall|j: int| 0 <= j < events.len() implies (#[trigger] events[j]).0
                        != event by {
                        if j > 0 {
                            assert(rest[j - 1].0 != event);
                        }
                    }
                },
            }
        }
    }
}

/// Once an event is mapped, a later mapping of it changes nothing for the vectors.
pub proof fn law_later_mapping_is_ignored(
    events: Seq<(usize, usize)>,
    event: usize,
    later: (usize, usize),
)
    requires
        first_intid(events, event) is Some,
    ensures
        first_intid(events.push(later), event) == first_intid(events, event),
    decreases events.len(),
{
    if events[0].0 != event {
        law_later_mapping_is_ignored(events.drop_first(), event, later);
        assert(events.push(later).drop_first() =~= events.drop_first().push(later));
    }
}

/// A word of the table that the guest writes is read back, in 32 bits.
pub proof fn law_table_word_reads_back(
    area: MsixTableModel,
    store: MMIOAccess,
    load: MMIOAccess,
)
    requires
        MsixTable::write_allowed(area, store, ()),
        starts_word(store.address % MSIX_ENTRY_SIZE),
        load.address == store.address,
    ensures
        ({
            let written = MsixTable::write_result(area, store, ()).0;
            MsixTable::read_allowed(written, load, ()) && MsixTable::read_result(
                written,
                load,
                (),
            ).1.value == low32(store.value)
        }),
{
}

/// A write at one address leaves the words at all other addresses as they were.
pub proof fn law_table_write_keeps_other_words(
    area: MsixTableModel,
    store: MMIOAccess,
    address: usize,
)
    requires
        MsixTable::write_allowed(area, store, ()),
        address != store.address,
        address / MSIX_ENTRY_SIZE < area.table.len(),
    ensures
        MsixTable::write_result(area, store, ()).0.word_at(address) == area.word_at(address),
{
}

/// The table once it has served `stores`, one after the other.
pub open spec fn after_writes(area: MsixTableModel, stores: Seq<MMIOAccess>) -> MsixTableModel
    decreases stores.len(),
{
    if stores.len() == 0 {
        area
    } else {
        MsixTable::write_result(
            after_writes(area, stores.drop_last()),
            stores.last(),
            (),
        ).0
    }
}

/// A word of the table that the guest writes is what it reads there, in 32 bits,
/// after any number of writes at other addresses.
pub proof fn law_table_word_stays(
    area: MsixTableModel,
    store: MMIOAccess,
    others: Seq<MMIOAccess>,
    load: MMIOAccess,
)
    requires
        MsixTable::write_allowed(area, store, ()),
        starts_word(store.address % MSIX_ENTRY_SIZE),
        load.address == store.address,
        forall|i: int|
            0 <= i < others.len() ==> (#[trigger] others[i]).address != store.address
                && MsixTable::write_allowed(area, others[i], ()),
    ensures
        ({
            let written = after_writes(MsixTable::write_result(area, store, ()).0, others);
            &&& written.table.len() == area.table.len()
            &&& MsixTable::read_allowed(written, load, ())
            &&& MsixTable::read_result(written, load, ()).1.value == low32(store.value)
        }),
    decreases others.len(),
{
    if others.len() == 0 {
        law_table_word_reads_back(area, store, load);
    } else {
        let before = others.drop_last();
        assert forall|i: int| 0 <= i < before.len() implies (#[trigger] before[i]).address
            != store.address && MsixTable::write_allowed(area, before[i], ()) by {
            assert(before[i] == others[i]);
        }
        law_table_word_stays(area, store, before, load);
        let last = others[others.len() - 1];
        let written = after_writes(MsixTable::write_result(area, store, ()).0, before);
        law_table_write_keeps_other_words(written, last, store.address);
    }
}

/// A write to the table touches the vector that it falls into and no other, and
/// neither the events nor the number of vectors.
pub proof fn law_table_write_touches_one_vector(
    area: MsixTableModel,
    store: MMIOAccess,
    other: int,
)
    requires
        MsixTable::write_allowed(area, store, ()),
        0 <= other < area.table.len(),
        other != store.address / MSIX_ENTRY_SIZE,
    ensures
        ({
            let written = MsixTable::write_result(area, store, ()).0;
            &&& written.table[other] == area.table[other]
            &&& written.table.len() == area.table.len()
            &&& written.event_id == area.event_id
            &&& written.device_id == area.device_id
        }),
{
}

/// After a write to a vector, the vector is bound to the interrupt that its
/// message names, if the guest has mapped one.
pub proof fn law_written_vector_is_bound(area: MsixTableModel, store: MMIOAccess)
    requires
        MsixTable::write_allowed(area, store, ()),
    ensures
        ({
            let index = (store.address / MSIX_ENTRY_SIZE) as int;
            let entry = MsixTable::write_result(area, store, ()).0.table[index];
            match first_intid(area.event_id, entry.msg_data as usize) {
                Some(intid) => entry.intid == Some(intid),
                None => entry.intid == area.table[index].intid,
            }
        }),
{
}

/// The four words of a vector lie one after the other: the address of the message,
/// its upper half, its data, and the vector's control word, at 0, 4, 8 and 12 in
/// the 16 bytes of the vector. A read at the start of a word gives it; no other read
/// is answered, and no read changes the table.
pub proof fn law_table_reads_the_fields(area: MsixTableModel, load: MMIOAccess, index: int)
    requires
        0 <= index < area.table.len(),
        16 * index <= load.address < 16 * index + 16,
    ensures
        ({
            let entry = area.table[index];
            let at = load.address - 16 * index;
            let (after, answered) = MsixTable::read_result(area, load, ());
            &&& after == area
            &&& at == 0 ==> answered.value == entry.message_address
            &&& at == 4 ==> answered.value == entry.message_upper_address
            &&& at == 8 ==> answered.value == entry.msg_data
            &&& at == 12 ==> answered.value == entry.vector_control
            &&& load.address % 4 != 0 ==> answered.value == load.value
            &&& (answered.address, answered.size, answered.is_write) == (
                load.address,
                load.size,
                load.is_write,
            )
        }),
{
}

/// A write at the start of a word of a vector puts the low 32 bits of the value
/// there and leaves the other words of the vector as they were; a write elsewhere in
/// a vector changes none of its words. A write leaves nothing to do.
pub proof fn law_table_writes_the_fields(area: MsixTableModel, store: MMIOAccess, index: int)
    requires
        0 <= index < area.table.len(),
        16 * index <= store.address < 16 * index + 16,
    ensures
        ({
            let before = area.table[index];
            let after = MsixTable::write_result(area, store, ()).0.table[index];
            let at = store.address - 16 * index;
            let word = store.value as u64 % 0x1_0000_0000;
            &&& after.message_address == if at == 0 {
                word
            } else {
                before.message_address as u64
            }
            &&& after.message_upper_address == if at == 4 {
                word
            } else {
                before.message_upper_address as u64
            }
            &&& after.msg_data == if at == 8 {
                word
            } else {
                before.msg_data as u64
            }
            &&& after.vector_control == if at == 12 {
                word
            } else {
                before.vector_control as u64
            }
            &&& MsixTable::write_result(area, store, ()).2 == EffectModel::Nothing
        }),
{
}

/// A vector is bound to the interrupt of the oldest mapping of the event that its
/// data names; where that event was not mapped, it stays bound as it was. Nothing
/// else of the table changes. So it is when a vector is bound by itself, and so it
/// is after a write, with the data that the vector then has.
pub proof fn law_vector_is_bound_to_the_oldest_mapping(
    area: MsixTableModel,
    index: int,
    first: int,
    store: MMIOAccess,
)
    requires
        0 <= index < area.table.len(),
        16 * index <= store.address < 16 * index + 16,
    ensures
        ({
            let events = area.event_id;
            let before = area.table[index];
            let after = area.with_bound(index).table[index];
            &&& after == (MsixTableEntry { intid: after.intid, ..before })
            &&& (forall|j: int| 0 <= j < events.len() ==> (#[trigger] events[j]).0 != before.msg_data)
                ==> after.intid == before.intid
            &&& 0 <= first < events.len() && events[first].0 == before.msg_data && (forall|j: int|
                0 <= j < first ==> (#[trigger] events[j]).0 != before.msg_data) ==> after.intid
                == Some(events[first].1)
            &&& area.with_bound(index).event_id == events
            &&& area.with_bound(index).device_id == area.device_id
            &&& area.with_bound(index).table == area.table.update(index, after)
        }),
        ({
            let events = area.event_id;
            let before = area.table[index];
            let after = MsixTable::write_result(area, store, ()).0.table[index];
            &&& (forall|j: int| 0 <= j < events.len() ==> (#[trigger] events[j]).0 != after.msg_data)
                ==> after.intid == before.intid
            &&& 0 <= first < events.len() && events[first].0 == after.msg_data && (forall|j: int|
                0 <= j < first ==> (#[trigger] events[j]).0 != after.msg_data) ==> after.intid
                == Some(events[first].1)
        }),
{
    let written = MsixTable::write_result(area, store, ()).0.table[index];
    lemma_first_intid(area.event_id, area.table[index].msg_data as usize, first);
    lemma_first_intid(area.event_id, written.msg_data as usize, first);
}

/// What the search for an event finds, told by the place of its oldest mapping.
proof fn lemma_first_intid(events: Seq<(usize, usize)>, event: usize, first: int)
    ensures
        (forall|j: int| 0 <= j < events.len() ==> (#[trigger] events[j]).0 != event) ==> first_intid(
            events,
            event,
        ) is None,
        0 <= first < events.len() && events[first].0 == event && (forall|j: int|
            0 <= j < first ==> (#[trigger] events[j]).0 != event) ==> first_intid(events, event)
            == Some(events[first].1),
{
    law_oldest_mapping_counts(events, event);
    if let Some(intid) = first_intid(events, event) {
        let i = choose|i: int|
            #![trigger events[i]]
            0 <= i < events.len() && events[i] == (event, intid) && forall|j: int|
                0 <= j < i ==> (#[trigger] events[j]).0 != event;
        assert(events[i].0 == event);
    }
}

/// The accesses that a table refuses: a write beyond its vectors, and a read of a
/// word, that is at a multiple of four, beyond its vectors.
pub proof fn law_table_refuses_vectors_beyond_it(area: MsixTableModel, access: MMIOAccess)
    ensures
        MsixTable::write_allowed(area, access, ()) <==> access.address < 16 * area.table.len(),
        MsixTable::read_allowed(area, access, ()) <==> (access.address % 4 == 0 ==> access.address
            < 16 * area.table.len()),
{
}

/// A new table has as many vectors as were asked for, none of them written or
/// bound, and has seen no mapping.
pub proof fn law_new_table_is_blank(size: usize, deviceid: usize, index: int)
    requires
        0 <= index < size,
    ensures
        ({
            let table = MsixTableModel::fresh(size, deviceid);
            let entry = table.table[index];
            &&& table.table.len() == size
            &&& table.device_id == deviceid
            &&& table.event_id.len() == 0
            &&& entry.message_address == 0 && entry.message_upper_address == 0
            &&& entry.msg_data == 0 && entry.vector_control == 0
            &&& entry.intid is None
        }),
        MsixTableEntry::blank() == MsixTableModel::fresh(size, deviceid).table[index],
{
}

/// The contents of a table are its vectors, its device and the mappings it has seen.
pub proof fn law_table_is_seen_whole(table: MsixTable)
    ensures
        table@.table == table.table@,
        table@.device_id == table.device_id,
        table@.event_id == table.event_id@,
{
}

} // verus!

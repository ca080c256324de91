//! The vectors of requests that the backend is serving, and the requests that
//! it has served.
use vstd::prelude::*;

use std::collections::BTreeMap;

use crate::area::NotifyRequest;
use crate::bridge::{cpu_of, identifier_of, law_identifiers_are_unique, VirtioPCIDataInfo};
use crate::msix_table::MsixTableEntry;

verus! {

/// Keeps the vector of each request that was handed to the backend, by the
/// request's identifier, and the identifiers that the backend has reported as
/// served and whose vectors are still to fire.
pub struct VirtioPCIMsixManager {
    pub table: BTreeMap<u64, MsixTableEntry>,
    pub pending: Vec<u64>,
}

/// The contents of a `VirtioPCIMsixManager`.
pub struct ManagerModel {
    pub table: Map<u64, MsixTableEntry>,
    pub pending: Seq<u64>,
}

impl View for VirtioPCIMsixManager {
    type V = ManagerModel;

    open spec fn view(&self) -> ManagerModel {
        ManagerModel { table: self.table@, pending: self.pending@ }
    }
}

/// Whether a served request fires on `cpu_id`: its identifier names that CPU.
pub open spec fn fires_on(identifier: u64, cpu_id: usize) -> bool {
    cpu_of(identifier) == cpu_id as u64 % 0x1_0000_0000
}

/// The order in which the pending requests from place `from` on that fire on
/// `cpu_id` are taken, and the requests that stay: a request that is taken
/// leaves its place to the last one, which is looked at next.
pub open spec fn taken(pending: Seq<u64>, from: int, cpu_id: usize) -> (Seq<u64>, Seq<u64>)
    decreases pending.len() - from,
{
    if from < 0 || from >= pending.len() {
        (Seq::empty(), pending)
    } else if fires_on(pending[from], cpu_id) {
        let (ids, left) = taken(
            pending.update(from, pending.last()).drop_last(),
            from,
            cpu_id,
        );
        (seq![pending[from]] + ids, left)
    } else {
        taken(pending, from + 1, cpu_id)
    }
}

/// The vectors that are left once the requests `ids` have fired, in that order,
/// and the interrupts that they raise.
pub open spec fn fired(table: Map<u64, MsixTableEntry>, ids: Seq<u64>) -> (
    Map<u64, MsixTableEntry>,
    Seq<usize>,
)
    decreases ids.len(),
{
    if ids.len() == 0 {
        (table, Seq::empty())
    } else {
        let (before, irqs) = fired(table, ids.drop_last());
        let id = ids.last();
        match irq_of(before, id) {
            Some(irq) => (before.remove(id), irqs.push(irq)),
            None => (before.remove(id), irqs),
        }
    }
}

/// The interrupt that request `id` raises: that of its vector, if the vector is
/// kept and bound to one.
pub open spec fn irq_of(table: Map<u64, MsixTableEntry>, id: u64) -> Option<usize> {
    if table.contains_key(id) {
        table[id].intid
    } else {
        None
    }
}

impl ManagerModel {
    /// The manager with the vector of a request of `cpu_id` kept.
    pub open spec fn with_entry(
        self,
        cpu_id: u16,
        data_info: VirtioPCIDataInfo,
        entry: MsixTableEntry,
    ) -> ManagerModel {
        ManagerModel { table: self.table.insert(identifier_of(cpu_id, data_info), entry), ..self }
    }

    /// The manager once request `id` has fired.
    pub open spec fn without_entry(self, id: u64) -> ManagerModel {
        ManagerModel { table: self.table.remove(id), ..self }
    }

    /// The manager once the served requests of `cpu_id` have fired, and the
    /// interrupts that they raise.
    pub open spec fn activated(self, cpu_id: usize) -> (ManagerModel, Seq<usize>) {
        let (ids, left) = taken(self.pending, 0, cpu_id);
        let (table, irqs) = fired(self.table, ids);
        (ManagerModel { table, pending: left }, irqs)
    }
}

impl VirtioPCIMsixManager {
    /// A manager that keeps nothing.
    pub fn new() -> (manager: Self)
        ensures
            manager@ == (ManagerModel { table: Map::empty(), pending: Seq::empty() }),
    {
        VirtioPCIMsixManager { table: BTreeMap::new(), pending: Vec::new() }
    }

    /// Keeps the vector of a request that `cpu_id` made.
    pub fn insert(&mut self, cpu_id: u16, data_info: VirtioPCIDataInfo, entry: MsixTableEntry)
        ensures
            final(self)@ == old(self)@.with_entry(cpu_id, data_info, entry),
    {
        broadcast use vstd::std_specs::btree::group_btree_axioms;

        let data_req_id: u64 = data_info.get_identifier(cpu_id);
        self.table.insert(data_req_id, entry);
    }

    /// Takes note that the backend has served the request `data_req_id`.
    pub fn add_pending_data_req_id(&mut self, data_req_id: u64)
        ensures
            final(self)@ == (ManagerModel {
                pending: old(self)@.pending.push(data_req_id),
                ..old(self)@
            }),
    {
        self.pending.push(data_req_id);
    }

    /// Fires every served request of `cpu_id`, and returns the interrupts to inject,
    /// in the order in which they are to be.
    pub fn activate_all_pending_irq(&mut self, cpu_id: usize) -> (irqs: Vec<usize>)
        ensures
            (final(self)@, irqs@) == old(self)@.activated(cpu_id),
    {
        let cpu: u64 = (cpu_id as u64) << 32;
        let mut target: Vec<u64> = Vec::new();
        let mut i: usize = 0;
        while i < self.pending.len()
            invariant
                i <= self.pending@.len(),
                cpu == (cpu_id as u64) << 32,
                self.table == old(self).table,
                ({
                    let (ids, left) = taken(self.pending@, i as int, cpu_id);
                    taken(old(self).pending@, 0, cpu_id) == (target@ + ids, left)
                }),
            decreases self.pending@.len() - i,
        {
            let id: u64 = self.pending[i];
            proof {
                lemma_fires_on(id, cpu_id);
            }
            if (id & 0x0000_ffff_0000_0000) == cpu {
                let ghost ids = taken(
                    self.pending@.update(i as int, self.pending@.last()).drop_last(),
                    i as int,
                    cpu_id,
                ).0;
                assert(target@.push(id) + ids =~= target@ + (seq![id] + ids));
                target.push(self.pending.swap_remove(i));
            } else {
                i = i + 1;
            }
        }
        assert(target@ + Seq::<u64>::empty() =~= target@);
        let mut irqs: Vec<usize> = Vec::new();
        let mut j: usize = 0;
        while j < target.len()
            invariant
                j <= target@.len(),
                self.pending@ == taken(old(self).pending@, 0, cpu_id).1,
                (self.table@, irqs@) == fired(old(self).table@, target@.take(j as int)),
            decreases target@.len() - j,
        {
            assert(target@.take(j + 1).drop_last() =~= target@.take(j as int));
            if let Some(irq) = self.activate_irq(target[j]) {
                irqs.push(irq);
            }
            j = j + 1;
        }
        assert(target@.take(target@.len() as int) =~= target@);
        irqs
    }

    /// Fires request `data_req_id`: its vector is no longer kept, and the interrupt
    /// that it raises is returned. A request whose vector is not kept raises none.
    pub fn activate_irq(&mut self, data_req_id: u64) -> (irq: Option<usize>)
        ensures
            final(self)@ == old(self)@.without_entry(data_req_id),
            irq == irq_of(old(self)@.table, data_req_id),
    {
        broadcast use vstd::std_specs::btree::group_btree_axioms;

        let entry: Option<MsixTableEntry> = self.table.remove(&data_req_id);
        match entry {
            Some(entry) => entry.activate_irq(),
            None => None,
        }
    }
}

/// The masked identifier is the CPU's number shifted up exactly if the request
/// fires on the CPU.
proof fn lemma_fires_on(identifier: u64, cpu_id: usize)
    ensures
        (identifier & 0x0000_ffff_0000_0000) == (cpu_id as u64) << 32 <==> fires_on(
            identifier,
            cpu_id,
        ),
{
    assert((identifier & 0x0000_ffff_0000_0000) == (cpu_id as u64) << 32 <==> identifier
        / 0x1_0000_0000 % 0x1_0000 == cpu_id as u64 % 0x1_0000_0000) by (bit_vector);
}

/// What is taken and what stays: every request taken fires on the CPU, none that
/// stays does, and no request is lost or made up.
proof fn lemma_taken(pending: Seq<u64>, from: int, cpu_id: usize)
    requires
        0 <= from <= pending.len(),
        forall|j: int| 0 <= j < from ==> !fires_on(#[trigger] pending[j], cpu_id),
    ensures
        ({
            let (ids, left) = taken(pending, from, cpu_id);
            &&& forall|j: int| 0 <= j < ids.len() ==> fires_on(#[trigger] ids[j], cpu_id)
            &&& forall|j: int| 0 <= j < left.len() ==> !fires_on(#[trigger] left[j], cpu_id)
            &&& ids.to_multiset().add(left.to_multiset()) == pending.to_multiset()
        }),
    decreases pending.len() - from,
{
    broadcast use vstd::seq_lib::group_to_multiset_ensures;

    if from < pending.len() {
        if fires_on(pending[from], cpu_id) {
            let id = pending[from];
            let rest = pending.update(from, pending.last()).drop_last();
            lemma_swap_remove(pending, from);
            lemma_taken(rest, from, cpu_id);
            let (ids, left) = taken(rest, from, cpu_id);
            vstd::seq_lib::lemma_multiset_commutative(seq![id], ids);
            assert(seq![id].to_multiset() =~= vstd::multiset::Multiset::singleton(id)) by {
                assert(seq![id] =~= Seq::<u64>::empty().push(id));
            }
            assert((seq![id] + ids).to_multiset().add(left.to_multiset())
                =~= pending.to_multiset());
        } else {
            lemma_taken(pending, from + 1, cpu_id);
        }
    } else {
        assert(Seq::<u64>::empty().to_multiset().add(pending.to_multiset())
            =~= pending.to_multiset());
    }
}

/// Taking one element out and moving the last one to its place takes that one
/// element out of the multiset.
proof fn lemma_swap_remove(values: Seq<u64>, index: int)
    requires
        0 <= index < values.len(),
    ensures
        values.update(index, values.last()).drop_last().to_multiset().insert(values[index])
            == values.to_multiset(),
{
    broadcast use vstd::seq_lib::group_to_multiset_ensures;

    let rest = values.update(index, values.last()).drop_last();
    let swapped = values.update(index, values.last());
    assert(swapped =~= rest.push(values.last()));
    vstd::seq_lib::to_multiset_update(values, index, values.last());
    assert(swapped.to_multiset() == rest.to_multiset().insert(values.last()));
    assert(values.contains(values[index]));
    assert(values.to_multiset().count(values[index]) > 0);
    assert forall|x: u64|
        #![auto]
        rest.to_multiset().insert(values[index]).count(x) == values.to_multiset().count(x) by {
        assert(swapped.to_multiset().count(x) == rest.to_multiset().insert(values.last()).count(x));
    }
    assert(rest.to_multiset().insert(values[index]) =~= values.to_multiset());
}

/// The requests that are taken are the pending ones that fire on the CPU.
proof fn lemma_taken_members(pending: Seq<u64>, cpu_id: usize, id: u64)
    ensures
        taken(pending, 0, cpu_id).0.contains(id) <==> pending.contains(id) && fires_on(id, cpu_id),
{
    broadcast use vstd::seq_lib::group_to_multiset_ensures;

    lemma_taken(pending, 0, cpu_id);
    let (ids, left) = taken(pending, 0, cpu_id);
    assert(ids.to_multiset().add(left.to_multiset()).count(id) == pending.to_multiset().count(id));
    if ids.contains(id) {
        let j = choose|j: int| 0 <= j < ids.len() && ids[j] == id;
        assert(fires_on(ids[j], cpu_id));
        assert(ids.to_multiset().count(id) > 0);
        assert(pending.contains(id));
    }
    if pending.contains(id) && fires_on(id, cpu_id) {
        assert(pending.to_multiset().count(id) > 0);
        if left.to_multiset().count(id) > 0 {
            assert(left.contains(id));
            let j = choose|j: int| 0 <= j < left.len() && left[j] == id;
            assert(!fires_on(left[j], cpu_id));
        }
        assert(ids.to_multiset().count(id) > 0);
    }
}

/// Once the served requests of a CPU have fired, none of its requests is pending,
/// and every other request is pending as often as before.
pub proof fn law_activation_empties_one_cpu(manager: ManagerModel, cpu_id: usize)
    ensures
        ({
            let left = manager.activated(cpu_id).0.pending;
            &&& forall|j: int| 0 <= j < left.len() ==> !fires_on(#[trigger] left[j], cpu_id)
            &&& forall|id: u64|
                !fires_on(id, cpu_id) ==> left.to_multiset().count(id)
                    == #[trigger] manager.pending.to_multiset().count(id)
        }),
{
    broadcast use vstd::seq_lib::group_to_multiset_ensures;

    lemma_taken(manager.pending, 0, cpu_id);
    let (ids, left) = taken(manager.pending, 0, cpu_id);
    assert forall|id: u64| !fires_on(id, cpu_id) implies left.to_multiset().count(id)
        == #[trigger] manager.pending.to_multiset().count(id) by {
        if ids.to_multiset().count(id) > 0 {
            assert(ids.contains(id));
        }
    }
}

/// A second activation on the same CPU raises nothing and changes nothing.
pub proof fn law_activation_is_done_once(manager: ManagerModel, cpu_id: usize)
    ensures
        ({
            let after = manager.activated(cpu_id).0;
            after.activated(cpu_id) == (after, Seq::<usize>::empty())
        }),
{
    lemma_taken(manager.pending, 0, cpu_id);
    lemma_nothing_taken(manager.activated(cpu_id).0.pending, 0, cpu_id);
}

/// Where no request fires on the CPU, none is taken.
proof fn lemma_nothing_taken(pending: Seq<u64>, from: int, cpu_id: usize)
    requires
        0 <= from,
        forall|j: int| 0 <= j < pending.len() ==> !fires_on(#[trigger] pending[j], cpu_id),
    ensures
        taken(pending, from, cpu_id) == (Seq::<u64>::empty(), pending),
    decreases pending.len() - from,
{
    if from < pending.len() {
        lemma_nothing_taken(pending, from + 1, cpu_id);
    }
}

/// The vectors of the requests that fired are no longer kept; those of all other
/// requests are kept as they were.
proof fn lemma_fired_table(table: Map<u64, MsixTableEntry>, ids: Seq<u64>, id: u64)
    ensures
        ids.contains(id) ==> !fired(table, ids).0.contains_key(id),
        !ids.contains(id) ==> {
            &&& fired(table, ids).0.contains_key(id) == table.contains_key(id)
            &&& fired(table, ids).0[id] == table[id]
        },
    decreases ids.len(),
{
    if ids.len() > 0 {
        let before = ids.drop_last();
        lemma_fired_table(table, before, id);
        assert(before.push(ids.last()) =~= ids);
        assert(ids.contains(id) <==> before.contains(id) || ids.last() == id) by {
            if before.contains(id) {
                let i = choose|i: int| 0 <= i < before.len() && before[i] == id;
                assert(ids[i] == id);
            }
            if ids.contains(id) && ids.last() != id {
                let i = choose|i: int| 0 <= i < ids.len() && ids[i] == id;
                assert(before[i] == id);
            }
        }
    }
}

/// The interrupts that a request raises among others that fire with it.
proof fn lemma_fired_irq(table: Map<u64, MsixTableEntry>, ids: Seq<u64>, id: u64, irq: usize)
    requires
        ids.contains(id),
        irq_of(table, id) == Some(irq),
    ensures
        fired(table, ids).1.contains(irq),
    decreases ids.len(),
{
    let before = ids.drop_last();
    let irqs = fired(table, before).1;
    if before.contains(id) {
        lemma_fired_irq(table, before, id, irq);
        let i = choose|i: int| 0 <= i < irqs.len() && irqs[i] == irq;
        assert(fired(table, ids).1[i] == irq);
    } else {
        let i = choose|i: int| 0 <= i < ids.len() && ids[i] == id;
        assert(ids.last() == id) by {
            if i < ids.len() - 1 {
                assert(before[i] == id);
            }
        }
        lemma_fired_table(table, before, id);
        assert(fired(table, ids).1 == irqs.push(irq));
        assert(irqs.push(irq)[irqs.len() as int] == irq);
    }
}

/// A request whose vector is kept and that the backend has served raises its
/// interrupt when its CPU looks, and its vector is then no longer kept.
pub proof fn law_served_request_raises_its_interrupt(
    manager: ManagerModel,
    id: u64,
    irq: usize,
    cpu_id: usize,
)
    requires
        manager.pending.contains(id),
        fires_on(id, cpu_id),
        irq_of(manager.table, id) == Some(irq),
    ensures
        manager.activated(cpu_id).1.contains(irq),
        !manager.activated(cpu_id).0.table.contains_key(id),
{
    let ids = taken(manager.pending, 0, cpu_id).0;
    lemma_taken_members(manager.pending, cpu_id, id);
    lemma_fired_irq(manager.table, ids, id, irq);
    lemma_fired_table(manager.table, ids, id);
}

/// Whether `irqs` are the interrupts of the distinct requests `raised`, one each,
/// and those are the served requests of `cpu_id` whose vector is kept and bound.
pub open spec fn raised_by(
    manager: ManagerModel,
    cpu_id: usize,
    raised: Seq<u64>,
    irqs: Seq<usize>,
) -> bool {
    &&& raised.no_duplicates()
    &&& forall|id: u64| #[trigger]
        raised.contains(id) <==> manager.pending.contains(id) && fires_on(id, cpu_id) && irq_of(
            manager.table,
            id,
        ) is Some
    &&& irqs.len() == raised.len()
    &&& forall|j: int|
        0 <= j < irqs.len() ==> irq_of(manager.table, raised[j]) == Some(#[trigger] irqs[j])
}

/// Activation raises exactly one interrupt for each distinct served request of the
/// CPU whose vector is kept and bound, and no other interrupt. The vectors of all
/// served requests of the CPU are then no longer kept; all others are kept as they
/// were.
pub proof fn law_activation_raises_one_interrupt_per_request(manager: ManagerModel, cpu_id: usize)
    ensures
        exists|raised: Seq<u64>| #[trigger]
            raised_by(manager, cpu_id, raised, manager.activated(cpu_id).1),
        forall|id: u64|
            #![trigger manager.activated(cpu_id).0.table.contains_key(id)]
            {
                let after = manager.activated(cpu_id).0.table;
                if manager.pending.contains(id) && fires_on(id, cpu_id) {
                    !after.contains_key(id)
                } else {
                    &&& after.contains_key(id) == manager.table.contains_key(id)
                    &&& after[id] == manager.table[id]
                }
            },
{
    let ids = taken(manager.pending, 0, cpu_id).0;
    assert forall|id: u64|
        ids.contains(id) <==> manager.pending.contains(id) && fires_on(id, cpu_id) by {
        lemma_taken_members(manager.pending, cpu_id, id);
    }
    lemma_raising(manager.table, ids);
    assert(raised_by(
        manager,
        cpu_id,
        raising(manager.table, ids),
        manager.activated(cpu_id).1,
    ));
    assert forall|id: u64|
        #![trigger manager.activated(cpu_id).0.table.contains_key(id)]
        {
            let after = manager.activated(cpu_id).0.table;
            if manager.pending.contains(id) && fires_on(id, cpu_id) {
                !after.contains_key(id)
            } else {
                &&& after.contains_key(id) == manager.table.contains_key(id)
                &&& after[id] == manager.table[id]
            }
        } by {
        lemma_fired_table(manager.table, ids, id);
    }
}

/// Those of the requests `ids` that raise an interrupt: the first occurrence of
/// each whose vector is kept and bound.
spec fn raising(table: Map<u64, MsixTableEntry>, ids: Seq<u64>) -> Seq<u64>
    decreases ids.len(),
{
    if ids.len() == 0 {
        Seq::empty()
    } else if irq_of(table, ids.last()) is Some && !ids.drop_last().contains(ids.last()) {
        raising(table, ids.drop_last()).push(ids.last())
    } else {
        raising(table, ids.drop_last())
    }
}

/// The interrupts of requests that fire are those of the requests that raise one.
proof fn lemma_raising(table: Map<u64, MsixTableEntry>, ids: Seq<u64>)
    ensures
        ({
            let raised = raising(table, ids);
            let irqs = fired(table, ids).1;
            &&& raised.no_duplicates()
            &&& forall|id: u64| #[trigger]
                raised.contains(id) <==> ids.contains(id) && irq_of(table, id) is Some
            &&& irqs.len() == raised.len()
            &&& forall|j: int|
                0 <= j < irqs.len() ==> irq_of(table, raised[j]) == Some(#[trigger] irqs[j])
        }),
    decreases ids.len(),
{
    if ids.len() > 0 {
        let before = ids.drop_last();
        let last = ids.last();
        lemma_raising(table, before);
        lemma_fired_table(table, before, last);
        let earlier = raising(table, before);
        let raised = raising(table, ids);
        assert(before.push(last) =~= ids);
        assert forall|id: u64| #[trigger]
            raised.contains(id) <==> ids.contains(id) && irq_of(table, id) is Some by {
            vstd::seq_lib::lemma_seq_contains_after_push(before, last, id);
            vstd::seq_lib::lemma_seq_contains_after_push(earlier, last, id);
            assert(earlier.contains(id) <==> before.contains(id) && irq_of(table, id) is Some);
        }
        assert(earlier.contains(last) <==> before.contains(last) && irq_of(table, last) is Some);
    }
}

/// From a notification to its interrupt: once the vector of a request was kept and
/// the backend has reported the request as served, the CPU that made the request
/// is given the vector's interrupt, and the vector is then no longer kept.
pub proof fn law_served_notification_raises_its_interrupt(
    manager: ManagerModel,
    cpu_id: u16,
    request: NotifyRequest,
    irq: usize,
)
    requires
        request.entry.intid == Some(irq),
    ensures
        ({
            let id = identifier_of(cpu_id, request.info);
            let kept = manager.with_entry(cpu_id, request.info, request.entry);
            let reported = ManagerModel { pending: kept.pending.push(id), ..kept };
            let (after, irqs) = reported.activated(cpu_id as usize);
            irqs.contains(irq) && !after.table.contains_key(id)
        }),
{
    let id = identifier_of(cpu_id, request.info);
    let kept = manager.with_entry(cpu_id, request.info, request.entry);
    let reported = ManagerModel { pending: kept.pending.push(id), ..kept };
    assert(reported.pending[kept.pending.len() as int] == id);
    law_request_fires_on_its_cpu(cpu_id, request.info, cpu_id as usize);
    law_served_request_raises_its_interrupt(reported, id, irq, cpu_id as usize);
}

/// The vectors of requests of other CPUs are kept as they were.
pub proof fn law_activation_keeps_other_cpus(manager: ManagerModel, id: u64, cpu_id: usize)
    requires
        !fires_on(id, cpu_id),
    ensures
        ({
            let after = manager.activated(cpu_id).0.table;
            after.contains_key(id) == manager.table.contains_key(id) && after[id]
                == manager.table[id]
        }),
{
    let ids = taken(manager.pending, 0, cpu_id).0;
    lemma_taken_members(manager.pending, cpu_id, id);
    lemma_fired_table(manager.table, ids, id);
}

/// A vector fires once: the request raises the interrupt of the vector that was
/// kept last for it, and then none until a vector is kept for it again.
pub proof fn law_vector_fires_once(
    manager: ManagerModel,
    cpu_id: u16,
    info: VirtioPCIDataInfo,
    entry: MsixTableEntry,
)
    ensures
        ({
            let id = identifier_of(cpu_id, info);
            let kept = manager.with_entry(cpu_id, info, entry);
            &&& irq_of(kept.table, id) == entry.intid
            &&& irq_of(kept.without_entry(id).table, id) is None
        }),
{
}

/// A request that a CPU makes fires on that CPU and on no other.
pub proof fn law_request_fires_on_its_cpu(cpu_id: u16, info: VirtioPCIDataInfo, cpu: usize)
    requires
        cpu < 0x1_0000_0000,
    ensures
        fires_on(identifier_of(cpu_id, info), cpu) <==> cpu == cpu_id,
{
    law_identifiers_are_unique(cpu_id, info, cpu_id, info);
}

/// Keeping a vector puts it under the request's identifier, which holds the CPU
/// above the device above the queue, in place of any kept there before, and touches
/// no other. Firing a request takes its vector out, and raises the interrupt that
/// the vector is bound to, if it was kept. Neither touches what is pending.
pub proof fn law_vectors_are_kept_by_request(
    manager: ManagerModel,
    cpu_id: u16,
    info: VirtioPCIDataInfo,
    entry: MsixTableEntry,
    id: u64,
)
    ensures
        ({
            let kept = manager.with_entry(cpu_id, info, entry);
            let own = id == cpu_id * 0x1_0000_0000 + info.dev_id * 0x1_0000 + info.queue_id;
            &&& kept.pending == manager.pending
            &&& own ==> kept.table.contains_key(id) && kept.table[id] == entry
            &&& !own ==> kept.table.contains_key(id) == manager.table.contains_key(id)
                && kept.table[id] == manager.table[id]
        }),
        manager.without_entry(id).pending == manager.pending,
        !manager.without_entry(id).table.contains_key(id),
        forall|other: u64|
            other != id ==> (#[trigger] manager.without_entry(id).table.contains_key(other)
                == manager.table.contains_key(other)) && manager.without_entry(id).table[other]
                == manager.table[other],
        manager.table.contains_key(id) ==> irq_of(manager.table, id) == manager.table[id].intid,
        !manager.table.contains_key(id) ==> irq_of(manager.table, id) is None,
{
}

/// A request fires on the CPU whose number is in bits 32 to 47 of its identifier. Of
/// a CPU number the low 32 bits count.
pub proof fn law_identifier_bits_decide_the_cpu(id: u64, cpu_id: usize)
    ensures
        fires_on(id, cpu_id) <==> id / 0x1_0000_0000 % 0x1_0000 == cpu_id as u64 % 0x1_0000_0000,
{
}

/// Where no pending request is one of the CPU, activation changes nothing and raises
/// nothing.
pub proof fn law_activation_without_requests(manager: ManagerModel, cpu_id: usize)
    requires
        forall|j: int|
            0 <= j < manager.pending.len() ==> (#[trigger] manager.pending[j]) / 0x1_0000_0000
                % 0x1_0000 != cpu_id as u64 % 0x1_0000_0000,
    ensures
        manager.activated(cpu_id) == (manager, Seq::<usize>::empty()),
{
    assert forall|j: int| 0 <= j < manager.pending.len() implies !fires_on(
        #[trigger] manager.pending[j],
        cpu_id,
    ) by {
        assert(manager.pending[j] / 0x1_0000_0000 % 0x1_0000 != cpu_id as u64 % 0x1_0000_0000);
    }
    lemma_nothing_taken(manager.pending, 0, cpu_id);
}

/// The first pending request of the CPU fires first: its vector is taken out, and
/// its interrupt, if it has one, comes first. What follows is what activation does to
/// a manager without that request, the last pending request in its place.
pub proof fn law_activation_takes_the_first_request_first(
    manager: ManagerModel,
    cpu_id: usize,
    i: int,
)
    requires
        0 <= i < manager.pending.len(),
        manager.pending[i] / 0x1_0000_0000 % 0x1_0000 == cpu_id as u64 % 0x1_0000_0000,
        forall|j: int|
            0 <= j < i ==> (#[trigger] manager.pending[j]) / 0x1_0000_0000 % 0x1_0000
                != cpu_id as u64 % 0x1_0000_0000,
    ensures
        ({
            let id = manager.pending[i];
            let rest = ManagerModel {
                table: manager.table.remove(id),
                pending: manager.pending.update(i, manager.pending.last()).drop_last(),
            };
            let (after, irqs) = manager.activated(cpu_id);
            let (rest_after, rest_irqs) = rest.activated(cpu_id);
            &&& after == rest_after
            &&& irqs == if manager.table.contains_key(id) && manager.table[id].intid is Some {
                seq![manager.table[id].intid->0] + rest_irqs
            } else {
                rest_irqs
            }
        }),
{
    let id = manager.pending[i];
    let rest = manager.pending.update(i, manager.pending.last()).drop_last();
    assert forall|j: int| 0 <= j < i implies !fires_on(#[trigger] manager.pending[j], cpu_id) by {
        assert(manager.pending[j] / 0x1_0000_0000 % 0x1_0000 != cpu_id as u64 % 0x1_0000_0000);
    }
    assert forall|j: int| 0 <= j < i implies !fires_on(#[trigger] rest[j], cpu_id) by {
        assert(rest[j] == manager.pending[j]);
    }
    lemma_taken_skips(manager.pending, 0, i, cpu_id);
    lemma_taken_skips(rest, 0, i, cpu_id);
    lemma_fired_first(manager.table, id, taken(rest, i, cpu_id).0);
}

/// Requests of other CPUs are passed over.
proof fn lemma_taken_skips(pending: Seq<u64>, from: int, to: int, cpu_id: usize)
    requires
        0 <= from <= to <= pending.len(),
        forall|j: int| from <= j < to ==> !fires_on(#[trigger] pending[j], cpu_id),
    ensures
        taken(pending, from, cpu_id) == taken(pending, to, cpu_id),
    decreases to - from,
{
    if from < to {
        assert(!fires_on(pending[from], cpu_id));
        lemma_taken_skips(pending, from + 1, to, cpu_id);
    }
}

/// The first of several requests fires by itself, the others after it.
proof fn lemma_fired_first(table: Map<u64, MsixTableEntry>, id: u64, ids: Seq<u64>)
    ensures
        ({
            let (after, irqs) = fired(table.remove(id), ids);
            fired(table, seq![id] + ids) == (
                after,
                match irq_of(table, id) {
                    Some(irq) => seq![irq] + irqs,
                    None => irqs,
                },
            )
        }),
    decreases ids.len(),
{
    reveal_with_fuel(fired, 2);
    let all = seq![id] + ids;
    if ids.len() == 0 {
        assert(all.drop_last() =~= Seq::<u64>::empty());
        assert(all.last() == id);
        let irqs = fired(table, all).1;
        if let Some(irq) = irq_of(table, id) {
            assert(irqs =~= seq![irq] + Seq::<usize>::empty());
        }
    } else {
        let before = ids.drop_last();
        assert(all.drop_last() =~= seq![id] + before);
        assert(all.last() == ids.last());
        lemma_fired_first(table, id, before);
        let (_, irqs) = fired(table.remove(id), before);
        let (_, more) = fired(table.remove(id), ids);
        if let Some(irq) = irq_of(table, id) {
            if more.len() > irqs.len() {
                assert((seq![irq] + irqs).push(more.last()) =~= seq![irq] + more);
            }
        }
    }
}

/// The contents of a manager are the vectors it keeps and the pending requests.
pub proof fn law_manager_is_seen_whole(manager: VirtioPCIMsixManager)
    ensures
        manager@.table == manager.table@,
        manager@.pending == manager.pending@,
{
}

} // verus!

//! The devices of a zone: which of them an access is for.
use vstd::prelude::*;

use crate::area::{views, EffectModel, TableSlot};
use crate::bar::{bar_allows, bar_served, AreaRef};
use crate::config_space::{law_bar_is_found_by_its_address, ConfigSpaceModel, VirtualPciConfigSpace};
use crate::mmio::MMIOAccess;

verus! {

/// The first device from `from` on that has a BAR at `base`, and which BAR.
pub open spec fn claim(devs: Seq<ConfigSpaceModel>, from: int, base: usize) -> Option<
    (int, usize),
>
    decreases devs.len() - from,
{
    if from < 0 || from >= devs.len() {
        None
    } else {
        match devs[from].my_bar(base) {
            Some(bar) => Some((from, bar)),
            None => claim(devs, from + 1, base),
        }
    }
}

/// Whether an access through a BAR at `base` can be served.
pub open spec fn bus_allows(devs: Seq<ConfigSpaceModel>, access: MMIOAccess, base: usize) -> bool {
    match claim(devs, 0, base) {
        Some((i, bar)) => bar_allows(devs[i].bar_areas, bar, access, devs[i].areas),
        None => true,
    }
}

/// The devices and the access once an access through a BAR at `base` was served,
/// and, if a device has such a BAR, which device it is and what came of it.
pub open spec fn bus_served(devs: Seq<ConfigSpaceModel>, access: MMIOAccess, base: usize) -> (
    Seq<ConfigSpaceModel>,
    MMIOAccess,
    Option<(int, (Option<AreaRef>, EffectModel))>,
) {
    match claim(devs, 0, base) {
        Some((i, bar)) => {
            let (areas, answered, served) = bar_served(
                devs[i].bar_areas,
                bar,
                access,
                devs[i].areas,
            );
            (devs.update(i, devs[i].with_areas(areas)), answered, Some((i, served)))
        },
        None => (devs, access, None),
    }
}

/// The device that has a BAR at `base`, and which BAR.
pub fn find_device(devs: &Vec<VirtualPciConfigSpace>, base: usize) -> (found: Option<(usize, usize)>)
    ensures
        match found {
            Some((i, bar)) => i < devs@.len() && claim(views(devs@), 0, base) == Some(
                (i as int, bar),
            ),
            None => claim(views(devs@), 0, base) is None,
        },
{
    let mut i: usize = 0;
    while i < devs.len()
        invariant
            i <= devs@.len(),
            claim(views(devs@), 0, base) == claim(views(devs@), i as int, base),
        decreases devs@.len() - i,
    {
        if let Some(bar) = devs[i].is_my_bar_addr(base) {
            return Some((i, bar));
        }
        i = i + 1;
    }
    None
}

/// Tells whether an access through a BAR at `base` can be served.
pub fn can_handle_mmio(
    mmio: &MMIOAccess,
    base: usize,
    devs: &Vec<VirtualPciConfigSpace>,
) -> (allowed: bool)
    ensures
        allowed == bus_allows(views(devs@), *mmio, base),
{
    match find_device(devs, base) {
        Some((i, bar)) => devs[i].can_distribute(bar, mmio),
        None => true,
    }
}

/// Whether common configuration `common` of device `device` is there and well
/// formed.
pub open spec fn awaits_identifier(
    devs: Seq<ConfigSpaceModel>,
    device: usize,
    common: usize,
) -> bool {
    &&& device < devs.len()
    &&& common < devs[device as int].areas.commons.len()
    &&& devs[device as int].areas.commons[common as int].well_formed(
        devs[device as int].areas.peers.queues,
    )
}

/// Tells the queues of a device the identifier that the backend has given it, and
/// says whether they were told. Where the device or its common configuration is not
/// there, or the configuration is not well formed, they are not, and nothing
/// changes.
pub fn finish_config(
    devs: &mut Vec<VirtualPciConfigSpace>,
    device: usize,
    common: usize,
    dev_id: u16,
) -> (told: bool)
    ensures
        told == awaits_identifier(views(old(devs)@), device, common),
        views(final(devs)@) == (if told {
            let dev = views(old(devs)@)[device as int];
            views(old(devs)@).update(
                device as int,
                dev.with_areas(dev.areas.with_identifier(common as int, dev_id)),
            )
        } else {
            views(old(devs)@)
        }),
{
    if device >= devs.len() || common >= devs[device].areas.commons.len() {
        return false;
    }
    if !devs[device].areas.commons[common].is_well_formed(&devs[device].areas.peers.queues) {
        return false;
    }
    devs[device].finish_config(common, dev_id);
    assert(views(devs@) =~= views(old(devs)@).update(
        device as int,
        views(devs@)[device as int],
    ));
    true
}

/// The vector table that takes note of event mappings is there.
pub open spec fn has_table(devs: Seq<ConfigSpaceModel>, device: usize, table: TableSlot) -> bool {
    device < devs.len() && table < devs[device as int].areas.peers.tables.len()
}

/// Lets a vector table of a device take note that the guest has mapped an event
/// to an interrupt, if the table is there.
pub fn intercept_its(
    devs: &mut Vec<VirtualPciConfigSpace>,
    device: usize,
    table: TableSlot,
    deviceid: usize,
    event_id: usize,
    intid: usize,
) -> (noted: bool)
    ensures
        noted == has_table(views(old(devs)@), device, table),
        views(final(devs)@) == (if noted {
            let dev = views(old(devs)@)[device as int];
            views(old(devs)@).update(
                device as int,
                dev.with_areas(dev.areas.with_event(table as int, (event_id, intid))),
            )
        } else {
            views(old(devs)@)
        }),
{
    if device >= devs.len() || table >= devs[device].areas.peers.tables.len() {
        return false;
    }
    devs[device].areas.peers.tables[table].intercept_its(deviceid, event_id, intid);
    proof {
        let before = views(old(devs)@)[device as int].areas;
        let after = views(devs@)[device as int].areas;
        assert(after.peers.tables =~= before.with_event(
            table as int,
            (event_id, intid),
        ).peers.tables);
        assert(views(devs@) =~= views(old(devs)@).update(
            device as int,
            views(devs@)[device as int],
        ));
    }
    true
}

/// An access goes to the first device that has a BAR at the address, through that
/// BAR: the answer, what came of it and the device's structures afterwards are
/// those of that BAR, and nothing else changes. Where there is no such device, the
/// access changes nothing.
pub proof fn law_access_goes_to_first_device(
    devs: Seq<ConfigSpaceModel>,
    access: MMIOAccess,
    base: usize,
)
    ensures
        match bus_served(devs, access, base) {
            (after, answered, Some((i, outcome))) => {
                let (areas, reply, served) = bar_served(
                    devs[i].bar_areas,
                    devs[i].my_bar(base)->0,
                    access,
                    devs[i].areas,
                );
                &&& 0 <= i < devs.len()
                &&& devs[i].my_bar(base) is Some
                &&& after[i] == devs[i].with_areas(areas)
                &&& answered == reply
                &&& outcome == served
                &&& forall|j: int| 0 <= j < i ==> (#[trigger] devs[j]).my_bar(base) is None
                &&& after.len() == devs.len()
                &&& forall|j: int|
                    0 <= j < devs.len() && j != i ==> #[trigger] after[j] == devs[j]
            },
            (after, answered, None) => {
                &&& forall|j: int| 0 <= j < devs.len() ==> (#[trigger] devs[j]).my_bar(base) is None
                &&& after == devs
                &&& answered == access
            },
        },
{
    lemma_claim(devs, 0, base);
}

/// What a search for a BAR finds from `from` on.
proof fn lemma_claim(devs: Seq<ConfigSpaceModel>, from: int, base: usize)
    requires
        0 <= from,
    ensures
        match claim(devs, from, base) {
            Some((i, bar)) => {
                &&& from <= i < devs.len()
                &&& devs[i].my_bar(base) == Some(bar)
                &&& forall|j: int| from <= j < i ==> (#[trigger] devs[j]).my_bar(base) is None
            },
            None => forall|j: int|
                from <= j < devs.len() ==> (#[trigger] devs[j]).my_bar(base) is None,
        },
    decreases devs.len() - from,
{
    if from < devs.len() && devs[from].my_bar(base) is None {
        lemma_claim(devs, from + 1, base);
    }
}

/// Where the set-up BARs of the devices have different addresses, an access through
/// the address of a BAR is served by that BAR of that device: the answer and what
/// came of it are those of that BAR, that device's structures change as the BAR says,
/// and every other device stays. The access is refused exactly if the BAR refuses it.
pub proof fn law_access_reaches_the_bar_at_its_address(
    devs: Seq<ConfigSpaceModel>,
    access: MMIOAccess,
    base: usize,
    i: int,
    n: int,
    other: int,
)
    requires
        0 <= i < devs.len(),
        0 <= other < devs.len(),
        0 <= n < 6,
        forall|j: int| 0 <= j < devs.len() ==> (#[trigger] devs[j]).bars.len() == 6,
        devs[i].bars[n].mem_type is Some,
        devs[i].bars[n].virtual_value == base,
        forall|j: int, m: int|
            0 <= j < devs.len() && 0 <= m < 6 && (j != i || m != n) && (
            #[trigger] devs[j].bars[m]).mem_type is Some ==> devs[j].bars[m].virtual_value != base,
    ensures
        ({
            let dev = devs[i];
            let (after, answered, served) = bus_served(devs, access, base);
            let (areas, reply, outcome) = bar_served(
                dev.bar_areas,
                n as usize,
                access,
                dev.areas,
            );
            &&& served == Some((i, outcome))
            &&& answered == reply
            &&& after.len() == devs.len()
            &&& after[i] == (ConfigSpaceModel { areas, ..dev })
            &&& other != i ==> after[other] == devs[other]
            &&& bus_allows(devs, access, base) == bar_allows(
                dev.bar_areas,
                n as usize,
                access,
                dev.areas,
            )
        }),
{
    assert forall|j: int| 0 <= j < devs.len() implies match (#[trigger] devs[j]).my_bar(base) {
        Some(m) => j == i && m == n,
        None => j != i,
    } by {
        law_bar_is_found_by_its_address(devs[j], base);
        if let Some(m) = devs[j].my_bar(base) {
            assert(devs[j].bars[m as int].mem_type is Some);
        } else {
            if j == i {
                assert(devs[i].bars[n].mem_type is Some);
            }
        }
    }
    lemma_claim(devs, 0, base);
    if claim(devs, 0, base) is None {
        assert(devs[i].my_bar(base) is None);
    }
}

/// An access through an address at which no device has a set-up BAR is left as it is,
/// and so are the devices; it is not refused.
pub proof fn law_access_to_no_bar(devs: Seq<ConfigSpaceModel>, access: MMIOAccess, base: usize)
    requires
        forall|j: int| 0 <= j < devs.len() ==> (#[trigger] devs[j]).bars.len() == 6,
        forall|j: int, m: int|
            0 <= j < devs.len() && 0 <= m < 6 && (#[trigger] devs[j].bars[m]).mem_type is Some
                ==> devs[j].bars[m].virtual_value != base,
    ensures
        bus_served(devs, access, base) == (
            devs,
            access,
            None::<(int, (Option<AreaRef>, EffectModel))>,
        ),
        bus_allows(devs, access, base),
{
    lemma_claim(devs, 0, base);
    if let Some((i, bar)) = claim(devs, 0, base) {
        law_bar_is_found_by_its_address(devs[i], base);
        assert(devs[i].bars[bar as int].mem_type is Some);
    }
}

/// An identifier can be handed on exactly if the device and its common configuration
/// are there, with as many queues as counted, each of them there. A mapping can be
/// noted exactly if the device and its table are there.
pub proof fn law_what_can_be_told(
    devs: Seq<ConfigSpaceModel>,
    device: usize,
    common: usize,
    table: TableSlot,
)
    ensures
        awaits_identifier(devs, device, common) <==> {
            let areas = devs[device as int].areas;
            let cfg = areas.commons[common as int];
            &&& device < devs.len()
            &&& common < areas.commons.len()
            &&& cfg.num_queue == cfg.queue_list.len()
            &&& forall|i: int|
                0 <= i < cfg.queue_list.len() ==> #[trigger] cfg.queue_list[i]
                    < areas.peers.queues.len()
        },
        has_table(devs, device, table) <==> device < devs.len() && table
            < devs[device as int].areas.peers.tables.len(),
{
}

} // verus!

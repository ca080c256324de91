//! The state that all CPUs share, behind the spinning locks of the crate `spin`.
//!
//! What a lock holds when it is taken depends on what the other CPUs did before,
//! so the contracts here say of a result that it is the one for some state that
//! the lock held; what the step does to that state is what the functions on the
//! plain state promise.
use vstd::prelude::*;

use spin::{RwLock, RwLockWriteGuard};

use crate::area::{NotifyRequest, TableSlot};
use crate::bar::BarOutcome;
use crate::bus::{
    awaits_identifier, bus_allows, bus_served, finish_config, has_table, intercept_its,
};
use crate::config_space::{ConfigSpaceModel, VirtualPciConfigSpace};
use crate::error::HvResult;
use crate::mmio::MMIOAccess;
use crate::msix_manager::{ManagerModel, VirtioPCIMsixManager};
use crate::rng::try_mmio_handler;

verus! {

/// The lock `spin::rwlock::RwLock`. Nothing is said of what it holds: every
/// holder of a shared reference may change it.
#[verifier::external_type_specification]
#[verifier::external_body]
#[verifier::reject_recursive_types(T)]
#[verifier::reject_recursive_types(R)]
pub struct ExRwLock<T: ?Sized, R>(spin::rwlock::RwLock<T, R>);

/// The guard `spin::rwlock::RwLockWriteGuard` of a lock taken for writing. The
/// lock is released when the guard is dropped.
#[verifier::external_type_specification]
#[verifier::external_body]
#[verifier::reject_recursive_types(T)]
#[verifier::reject_recursive_types(R)]
pub struct ExRwLockWriteGuard<'a, T: 'a + ?Sized, R>(spin::rwlock::RwLockWriteGuard<'a, T, R>);

/// The strategy `spin::relax::Spin`, by which a lock waits.
#[verifier::external_type_specification]
#[verifier::external_body]
pub struct ExSpin(spin::relax::Spin);

/// Takes a lock for writing with `spin::rwlock::RwLock::write`, which waits until
/// no one else holds the lock. Nothing is claimed of what the guard gives access
/// to. A CPU that holds the lock already must not take it again: it would wait
/// forever.
#[verifier::external_body]
fn write_lock<T>(lock: &RwLock<T>) -> (guard: RwLockWriteGuard<'_, T>) {
    lock.write()
}

/// What a guard protects, through its `DerefMut::deref_mut`. Nothing is claimed of
/// the value: it is whatever the last holder of the lock left.
#[verifier::external_body]
fn guarded<'g, 'a, T>(guard: &'g mut RwLockWriteGuard<'a, T>) -> (value: &'g mut T) {
    &mut **guard
}

/// The devices of a zone, as all its CPUs share them.
pub type SharedBus = RwLock<Vec<VirtualPciConfigSpace>>;

/// The vectors of requests under way, as all CPUs share them.
pub type SharedManager = RwLock<VirtioPCIMsixManager>;

/// Hands an access through a BAR at `base` to the device that has the BAR, while
/// no other CPU touches the devices, as `rng::try_mmio_handler` does. `None` says
/// that the access is none that the device can serve; nothing was done then. What
/// the lock held before and holds afterwards is not stated: it is for other CPUs to
/// change.
pub fn locked_mmio_handler(bus: &SharedBus, mmio: &mut MMIOAccess, base: usize) -> (result: Option<
    HvResult<Option<(usize, BarOutcome)>>,
>)
    ensures
        exists|devs: Seq<ConfigSpaceModel>|
            #![trigger bus_served(devs, *old(mmio), base)]
            {
                let (_, answered, served) = bus_served(devs, *old(mmio), base);
                match result {
                    Some(handled) => {
                        &&& bus_allows(devs, *old(mmio), base)
                        &&& *final(mmio) == answered
                        &&& handled matches Ok(to) && match to {
                            Some((i, outcome)) => served == Some((i as int, outcome@)),
                            None => served is None,
                        }
                    },
                    None => !bus_allows(devs, *old(mmio), base) && *final(mmio) == *old(mmio),
                }
            },
{
    let mut guard: RwLockWriteGuard<'_, Vec<VirtualPciConfigSpace>> = write_lock(bus);
    let devs: &mut Vec<VirtualPciConfigSpace> = guarded(&mut guard);
    try_mmio_handler(mmio, base, devs)
}

/// Tells the queues of a device the identifier that the backend has given it,
/// while no other CPU touches the devices, as `bus::finish_config` does. Says
/// whether they were told: not where the device or its common configuration is not
/// there, or the configuration is not well formed. What the lock held before and
/// holds afterwards is not stated: it is for other CPUs to change.
pub fn locked_finish_config(bus: &SharedBus, device: usize, common: usize, dev_id: u16) -> (told:
    bool)
    ensures
        exists|devs: Seq<ConfigSpaceModel>|
            told == #[trigger] awaits_identifier(devs, device, common),
{
    let mut guard: RwLockWriteGuard<'_, Vec<VirtualPciConfigSpace>> = write_lock(bus);
    let devs: &mut Vec<VirtualPciConfigSpace> = guarded(&mut guard);
    finish_config(devs, device, common, dev_id)
}

/// Lets the vector table that watches event mappings, if one does, take note of
/// a mapping, as `bus::intercept_its` does. `interceptor` names the table's device
/// and the table. Says whether the mapping was noted. What the lock held before and
/// holds afterwards is not stated: it is for other CPUs to change.
pub fn virtio_pci_intercept_its(
    bus: &SharedBus,
    interceptor: Option<(usize, TableSlot)>,
    deviceid: usize,
    event_id: usize,
    intid: usize,
) -> (noted: bool)
    ensures
        match interceptor {
            Some((device, table)) => exists|devs: Seq<ConfigSpaceModel>|
                noted == #[trigger] has_table(devs, device, table),
            None => !noted,
        },
{
    match interceptor {
        Some((device, table)) => {
            let mut guard: RwLockWriteGuard<'_, Vec<VirtualPciConfigSpace>> = write_lock(bus);
            let devs: &mut Vec<VirtualPciConfigSpace> = guarded(&mut guard);
            intercept_its(devs, device, table, deviceid, event_id, intid)
        },
        None => false,
    }
}

/// Keeps the vector of a request that `cpu_id` makes until the backend has served
/// it, as `VirtioPCIMsixManager::insert` does. What the lock holds afterwards is
/// not stated: other CPUs may change it at once.
pub fn locked_register_interrupt(manager: &SharedManager, cpu_id: u16, request: NotifyRequest) {
    let mut guard: RwLockWriteGuard<'_, VirtioPCIMsixManager> = write_lock(manager);
    guarded(&mut guard).insert(cpu_id, request.info, request.entry);
}

/// Takes note that the backend has served the request `data_req_id`, as
/// `VirtioPCIMsixManager::add_pending_data_req_id` does. What the lock holds
/// afterwards is not stated: other CPUs may change it at once.
pub fn virtio_pci_add_pending_data_req_id(manager: &SharedManager, data_req_id: u64) {
    let mut guard: RwLockWriteGuard<'_, VirtioPCIMsixManager> = write_lock(manager);
    guarded(&mut guard).add_pending_data_req_id(data_req_id);
}

/// Fires every served request of `cpu_id`, and returns the interrupts to inject,
/// in the order in which they are to be, as
/// `VirtioPCIMsixManager::activate_all_pending_irq` does. What the lock holds
/// afterwards is not stated: other CPUs may change it at once.
pub fn virtio_pci_activate_all_pending_irq(manager: &SharedManager, cpu_id: usize) -> (irqs: Vec<
    usize,
>)
    ensures
        exists|held: ManagerModel| irqs@ == (#[trigger] held.activated(cpu_id)).1,
{
    let mut guard: RwLockWriteGuard<'_, VirtioPCIMsixManager> = write_lock(manager);
    guarded(&mut guard).activate_all_pending_irq(cpu_id)
}

} // verus!

use vpci_dev::area::{AreaEffect, NotifyRequest};
use vpci_dev::bar::{AreaRef, BarArea, BarAreaManager, BarOutcome, DeviceAreas};
use vpci_dev::bridge::{VirtioPCIDataInfo, MAX_DEVS};
use vpci_dev::bus::{can_handle_mmio, find_device, finish_config, intercept_its};
use vpci_dev::capability::PciCapabilityRegion;
use vpci_dev::capability_handler::{virtio_common_cfg_handler, CapBarArea};
use vpci_dev::config_space::{
    MmioHandler, PciCapability, PciConfigAccessStatus, PciMem, PciMemType, VirtualPciConfigSpace,
};
use vpci_dev::locked::{
    locked_finish_config, locked_mmio_handler, locked_register_interrupt,
    virtio_pci_activate_all_pending_irq, virtio_pci_add_pending_data_req_id,
    virtio_pci_intercept_its, SharedBus, SharedManager,
};
use vpci_dev::mmio::MMIOAccess;
use vpci_dev::msix_manager::VirtioPCIMsixManager;
use vpci_dev::msix_table::MsixTableEntry;
use vpci_dev::rng::{rng_mmio_handler, try_mmio_handler, VirtioRngHandler, HANDLER};

fn store(address: usize, size: usize, value: usize) -> MMIOAccess {
    MMIOAccess { address, size, is_write: true, value }
}

fn load(address: usize, size: usize) -> MMIOAccess {
    MMIOAccess { address, size, is_write: false, value: 0xdead }
}

/// An entropy device whose BARs 1 and 4 the guest has put at the given addresses.
fn placed(bar1: u64, bar4: u64) -> VirtualPciConfigSpace {
    let mut dev = HANDLER.vdev_init(VirtualPciConfigSpace::new(0x18));
    dev.bars[1].virtual_value = bar1;
    dev.bars[4].virtual_value = bar4;
    dev
}

#[test]
fn common_cfg_handler_leaves_the_access() {
    let mut access = store(4, 4, 9);
    assert_eq!(virtio_common_cfg_handler(&mut access, 0x1000), Ok(()));
    assert_eq!(access, store(4, 4, 9));
    assert_eq!(CapBarArea::VirtioCommonCfg, CapBarArea::VirtioCommonCfg);
}

#[test]
fn bar_area_has_a_size() {
    let mut bar = BarArea::new(0x4000);
    assert_eq!(bar.size, 0x4000);
    assert!(bar.area.is_empty());
    bar.set_size(0x8000);
    assert_eq!(bar.size, 0x8000);
}

#[test]
fn access_goes_to_the_innermost_structure() {
    let mut manager = BarAreaManager::new();
    manager.insert(2, 0x0, 0x1000, AreaRef::CommonCfg(0));
    manager.insert(2, 0x100, 0x100, AreaRef::Isr(0));
    manager.insert(2, 0x100, 0x80, AreaRef::Notify(0));
    manager.set_bar_size(2, 0x10);
    assert_eq!(manager.find_cap(2, 0x80, 4), Some((0x0, 0x1000, AreaRef::CommonCfg(0))));
    assert_eq!(manager.find_cap(2, 0x100, 4), Some((0x100, 0x80, AreaRef::Notify(0))));
    assert_eq!(manager.find_cap(2, 0x180, 4), Some((0x100, 0x100, AreaRef::Isr(0))));
    assert_eq!(manager.find_cap(2, 0x1fe, 4), Some((0x0, 0x1000, AreaRef::CommonCfg(0))));
    assert_eq!(manager.find_cap(2, 0xffe, 4), None);
    assert_eq!(manager.find_cap(3, 0x80, 4), None);
}

#[test]
fn accesses_that_cannot_be_told_apart_are_not_allowed() {
    let mut manager = BarAreaManager::new();
    let areas = DeviceAreas::new();
    manager.insert(0, 0x10, usize::MAX, AreaRef::Isr(0));
    assert!(manager.can_handle(0, &load(0x8, 4), &areas));
    assert!(!manager.can_handle(0, &load(0x10, 4), &areas));
    assert!(!manager.can_handle(6, &load(0, 4), &areas));
    manager.insert(1, 0, 0x10, AreaRef::Isr(0));
    assert!(!manager.can_handle(1, &load(usize::MAX, 4), &areas));
    assert!(!manager.can_handle(1, &load(0, 4), &areas));
    assert!(manager.can_handle(1, &load(0x20, 4), &areas));
}

#[test]
fn uncovered_access_is_left_alone() {
    let manager = BarAreaManager::new();
    let mut areas = DeviceAreas::new();
    let mut access = load(0, 4);
    assert_eq!(
        manager.handle_bar_access(0, &mut access, &mut areas),
        Ok(BarOutcome { target: None, effect: AreaEffect::Nothing })
    );
    assert_eq!(access, load(0, 4));
}

#[test]
fn entropy_device_is_laid_out() {
    let dev = HANDLER.vdev_init(VirtualPciConfigSpace::new(0x18));
    assert_eq!(dev.id, (0x1044, 0x1af4));
    assert_eq!(dev.class_and_revision, (0, 0, 0, 0xff));
    let bar = |mem_type, prefetchable, size| PciMem {
        mem_type: Some(mem_type),
        prefetchable,
        size,
        virtual_value: 0,
        handler: Some(MmioHandler::VirtioRng),
    };
    assert_eq!(dev.bars[1], bar(PciMemType::Mem32, false, 0x4000));
    assert_eq!(dev.bars[4], bar(PciMemType::Mem64Low, true, 0x10000));
    assert_eq!(dev.bars[5], bar(PciMemType::Mem64High, true, 0));
    assert_eq!(dev.bars[0].mem_type, None);
    assert_eq!(dev.msix_table, Some(0));
    assert_eq!(dev.areas.peers.tables[0].device_id, 0x18);
    assert_eq!(dev.areas.peers.tables[0].table.len(), 16);
    assert_eq!(dev.areas.isrs[0].isr, 1);
    assert_eq!(dev.areas.commons[0].num_queue, 1);
    assert_eq!(dev.areas.notifies[0].queue_list, vec![(0x2000, 0)]);
    assert_eq!(
        dev.access,
        vec![(0x34, 0x38), (0x40, 0x50), (0x50, 0x60), (0x60, 0x70), (0x70, 0x90)]
    );
}

#[test]
fn guest_walks_the_capability_list() {
    let dev = HANDLER.vdev_init(VirtualPciConfigSpace::new(0));
    let mut at = dev.capability_pointer;
    let mut seen = Vec::new();
    while at != 0 {
        let cap = &dev.capabilities[&at];
        seen.push((at, cap.read(0, 1).unwrap(), cap.get_size()));
        assert_eq!(cap.get_offset(), 0);
        at = cap.next_cap().unwrap();
    }
    assert_eq!(seen, vec![(0x74, 0x11, 12), (0x60, 0x09, 20), (0x50, 0x09, 16), (0x40, 0x09, 16)]);
    assert_eq!(dev.capabilities[&0x60].read(16, 4), Ok(4));
    assert_eq!(dev.capabilities[&0x74].read(0, 4), Ok(0x0010_6011));
}

#[test]
fn capability_in_configuration_space_takes_writes() {
    let mut dev = HANDLER.vdev_init(VirtualPciConfigSpace::new(0));
    let cap: &mut PciCapability = dev.capabilities.get_mut(&0x74).unwrap();
    assert_eq!(cap.write(2, 2, 0x8010), Ok(()));
    assert_eq!(cap.read(2, 2), Ok(0x8010));
    let cap: &mut PciCapability = dev.capabilities.get_mut(&0x40).unwrap();
    assert_eq!(cap.write(8, 4, 7), Ok(()));
    assert_eq!(cap.read(8, 4), Ok(0));
}

#[test]
fn handler_leaves_configuration_space_to_the_default() {
    let handler = VirtioRngHandler;
    assert_eq!(handler.read_cfg(0x10, 4), Ok(PciConfigAccessStatus::Default));
    assert_eq!(handler.write_cfg(0x10, 4, 0xffff_ffff), Ok(PciConfigAccessStatus::Default));
}

#[test]
fn capabilities_name_their_structures() {
    let dev = placed(0, 0);
    let target = |bar, addr, size| dev.bar_areas.find_cap(bar, addr, size).map(|entry| entry.2);
    assert_eq!(target(4, 0x14, 1), Some(AreaRef::CommonCfg(0)));
    assert_eq!(target(4, 0x1000, 4), Some(AreaRef::Isr(0)));
    assert_eq!(target(4, 0x2fff, 1), Some(AreaRef::Notify(0)));
    assert_eq!(target(4, 0xfff, 2), None);
    assert_eq!(target(1, 0x7fc, 4), Some(AreaRef::MsixTable(0)));
    assert_eq!(target(1, 0x800, 4), None);
}

#[test]
fn access_goes_to_the_first_device_with_the_bar() {
    let mut devs = vec![placed(0x1000, 0x2000), placed(0x3000, 0x2000)];
    assert_eq!(find_device(&devs, 0x2000), Some((0, 4)));
    assert_eq!(find_device(&devs, 0x3000), Some((1, 1)));
    assert_eq!(find_device(&devs, 0x5000), None);
    let mut access = store(0x14, 1, 3);
    assert!(can_handle_mmio(&access, 0x2000, &devs));
    let handled = rng_mmio_handler(&mut access, 0x2000, &mut devs).unwrap();
    let outcome = BarOutcome { target: Some(AreaRef::CommonCfg(0)), effect: AreaEffect::Nothing };
    assert_eq!(handled, Some((0, outcome)));
    assert_eq!(devs[0].areas.commons[0].device_status, 3);
    assert_eq!(devs[1].areas.commons[0].device_status, 0);
    let mut access = load(0x14, 1);
    rng_mmio_handler(&mut access, 0x2000, &mut devs).unwrap();
    assert_eq!(access.value, 3);
    let mut access = load(0x14, 1);
    assert_eq!(rng_mmio_handler(&mut access, 0x5000, &mut devs), Ok(None));
    assert_eq!(access, load(0x14, 1));
}

#[test]
fn interrupt_status_is_not_answered_above_zero() {
    let mut devs = vec![placed(0x1000, 0x2000)];
    let mut access = load(0x1000, 4);
    let handled = rng_mmio_handler(&mut access, 0x2000, &mut devs).unwrap();
    let outcome = BarOutcome { target: Some(AreaRef::Isr(0)), effect: AreaEffect::Nothing };
    assert_eq!(handled, Some((0, outcome)));
    assert_eq!(access.value, 0xdead);
    let mut access = store(0x1000, 4, 5);
    rng_mmio_handler(&mut access, 0x2000, &mut devs).unwrap();
    assert_eq!(devs[0].areas.isrs[0].isr, 1);
}

#[test]
fn vector_table_is_reached_through_its_bar() {
    let mut devs = vec![placed(0x1000, 0x2000)];
    assert!(intercept_its(&mut devs, 0, 0, 0x18, 5, 8195));
    assert!(!intercept_its(&mut devs, 0, 1, 0x18, 5, 8195));
    assert!(!intercept_its(&mut devs, 1, 0, 0x18, 5, 8195));
    rng_mmio_handler(&mut store(0x18, 4, 5), 0x1000, &mut devs).unwrap();
    let mut access = load(0x18, 4);
    rng_mmio_handler(&mut access, 0x1000, &mut devs).unwrap();
    assert_eq!(access.value, 5);
    assert_eq!(devs[0].areas.peers.tables[0].inject_irq(1), Some(8195));
    assert!(!can_handle_mmio(&load(0x100, 4), 0x1000, &devs));
    assert!(can_handle_mmio(&load(0x101, 4), 0x1000, &devs));
}

#[test]
fn notification_carries_the_identifier() {
    let mut devs = vec![placed(0x1000, 0x2000)];
    let (_, outcome) = rng_mmio_handler(&mut store(0x14, 1, 0x0f), 0x2000, &mut devs)
        .unwrap()
        .unwrap();
    assert!(matches!(outcome.effect, AreaEffect::Configure(_)));
    assert!(finish_config(&mut devs, 0, 0, 2));
    assert!(!finish_config(&mut devs, 0, 1, 2));
    assert!(!finish_config(&mut devs, 1, 0, 2));
    let (_, outcome) = rng_mmio_handler(&mut store(0x2000, 2, 0), 0x2000, &mut devs)
        .unwrap()
        .unwrap();
    let request = NotifyRequest {
        info: VirtioPCIDataInfo::new(2, 0),
        entry: MsixTableEntry::dummy(),
    };
    assert_eq!(outcome.effect, AreaEffect::Notify(vec![request]));
}

#[test]
fn shared_devices_serve_accesses_under_their_lock() {
    let bus: SharedBus = spin::RwLock::new(vec![placed(0x1000, 0x2000)]);
    let mut access = store(0x10, 2, 0x77);
    assert!(matches!(locked_mmio_handler(&bus, &mut access, 0x2000), Some(Ok(Some((0, _))))));
    assert_eq!(bus.read()[0].areas.commons[0].config_msix_vector, 0x77);
    let mut access = load(0x10, 2);
    assert!(matches!(locked_mmio_handler(&bus, &mut access, 0x2000), Some(Ok(Some((0, _))))));
    assert_eq!(access.value, 0x77);
    assert_eq!(locked_mmio_handler(&bus, &mut access, 0x9000), Some(Ok(None)));
    let mut access = store(0x100, 4, 1);
    assert_eq!(locked_mmio_handler(&bus, &mut access, 0x1000), None);
    assert_eq!(access, store(0x100, 4, 1));
}

#[test]
fn shared_devices_learn_identifiers_and_mappings() {
    let bus: SharedBus = spin::RwLock::new(vec![placed(0x1000, 0x2000)]);
    assert!(locked_finish_config(&bus, 0, 0, 3));
    assert!(!locked_finish_config(&bus, 4, 0, 3));
    assert_eq!(bus.read()[0].areas.peers.queues[0].this_dev_id, 3);
    assert!(virtio_pci_intercept_its(&bus, Some((0, 0)), 0x18, 6, 8200));
    assert!(!virtio_pci_intercept_its(&bus, None, 0x18, 7, 8201));
    assert!(!virtio_pci_intercept_its(&bus, Some((0, 9)), 0x18, 7, 8201));
    assert_eq!(bus.read()[0].areas.peers.tables[0].event_id, vec![(6, 8200)]);
}

#[test]
fn shared_manager_fires_served_requests() {
    let manager: SharedManager = spin::RwLock::new(VirtioPCIMsixManager::new());
    let mut entry = MsixTableEntry::dummy();
    entry.intid = Some(42);
    let info = VirtioPCIDataInfo::new(MAX_DEVS, 0);
    locked_register_interrupt(&manager, 7, NotifyRequest { info, entry });
    assert!(virtio_pci_activate_all_pending_irq(&manager, 7).is_empty());
    virtio_pci_add_pending_data_req_id(&manager, info.get_identifier(7));
    assert_eq!(manager.read().pending, vec![info.get_identifier(7)]);
    assert!(virtio_pci_activate_all_pending_irq(&manager, 6).is_empty());
    assert_eq!(virtio_pci_activate_all_pending_irq(&manager, 7), vec![42]);
    assert!(virtio_pci_activate_all_pending_irq(&manager, 7).is_empty());
}

#[test]
fn served_notification_raises_the_interrupt_of_its_vector() {
    let mut devs = vec![placed(0x1000, 0x2000)];
    assert!(intercept_its(&mut devs, 0, 0, 0x18, 5, 8195));
    rng_mmio_handler(&mut store(0x18, 4, 5), 0x1000, &mut devs).unwrap();
    assert!(finish_config(&mut devs, 0, 0, 1));
    let (_, outcome) = rng_mmio_handler(&mut store(0x2000, 2, 0), 0x2000, &mut devs)
        .unwrap()
        .unwrap();
    let manager: SharedManager = spin::RwLock::new(VirtioPCIMsixManager::new());
    let AreaEffect::Notify(requests) = outcome.effect else {
        panic!("a notification asks for its queues to be served");
    };
    for request in requests {
        locked_register_interrupt(&manager, 3, request);
    }
    virtio_pci_add_pending_data_req_id(&manager, VirtioPCIDataInfo::new(1, 0).get_identifier(3));
    assert_eq!(virtio_pci_activate_all_pending_irq(&manager, 3), vec![8195]);
    assert!(manager.read().table.is_empty());
}

#[test]
fn access_is_answered_by_the_bar_that_was_hit() {
    let mut devs = vec![placed(0x1000, 0x2000), placed(0x3000, 0x4000)];
    rng_mmio_handler(&mut store(0x10, 4, 0xabcd), 0x3000, &mut devs).unwrap();
    assert_eq!(devs[1].areas.peers.tables[0].table[1].message_address, 0xabcd);
    assert_eq!(devs[0].areas.peers.tables[0].table[1], MsixTableEntry::dummy());
    let mut access = load(0x10, 2);
    let handled = rng_mmio_handler(&mut access, 0x4000, &mut devs).unwrap();
    let outcome = BarOutcome { target: Some(AreaRef::CommonCfg(0)), effect: AreaEffect::Nothing };
    assert_eq!(handled, Some((1, outcome)));
    assert_eq!(access.value, 0);
    let mut access = load(0x10, 4);
    let handled = rng_mmio_handler(&mut access, 0x3000, &mut devs).unwrap();
    let outcome = BarOutcome { target: Some(AreaRef::MsixTable(0)), effect: AreaEffect::Nothing };
    assert_eq!(handled, Some((1, outcome)));
    assert_eq!(access.value, 0xabcd);
}

#[test]
fn device_made_twice_is_whole_and_named_by_its_capabilities() {
    let once = HANDLER.vdev_init(VirtualPciConfigSpace::new(1));
    let mut dev = HANDLER.vdev_init(once);
    let common = &dev.areas.commons[1];
    assert!(common.is_well_formed(&dev.areas.peers.queues));
    assert_eq!(common.queue_list, vec![1]);
    assert_eq!(common.queue_select, 0);
    assert_eq!(dev.areas.notifies[1].get_queues(0x2000), vec![1]);
    assert!(dev.areas.peers.queues[1].vector_exists(&dev.areas.peers.tables));
    dev.bar_areas.insert(4, 0x10, 0x20, AreaRef::Isr(0));
    let dev = HANDLER.vdev_init(dev);
    let target = |bar, addr, size| dev.bar_areas.find_cap(bar, addr, size).map(|entry| entry.2);
    assert_eq!(target(4, 0x0, 4), Some(AreaRef::CommonCfg(2)));
    assert_eq!(target(4, 0x14, 1), Some(AreaRef::Isr(0)));
    assert_eq!(target(4, 0x1ffc, 4), Some(AreaRef::Isr(2)));
    assert_eq!(target(4, 0x2000, 2), Some(AreaRef::Notify(2)));
    assert_eq!(target(1, 0x7fc, 4), Some(AreaRef::MsixTable(2)));
}

#[test]
fn access_is_served_exactly_if_the_device_can_serve_it() {
    let mut devs = vec![placed(0x1000, 0x2000)];
    let mut access = store(0x14, 1, 3);
    let outcome = BarOutcome { target: Some(AreaRef::CommonCfg(0)), effect: AreaEffect::Nothing };
    assert_eq!(try_mmio_handler(&mut access, 0x2000, &mut devs), Some(Ok(Some((0, outcome)))));
    assert_eq!(devs[0].areas.commons[0].device_status, 3);
    let mut access = load(0x14, 1);
    assert!(try_mmio_handler(&mut access, 0x2000, &mut devs).is_some());
    assert_eq!(access.value, 3);
    let mut access = store(0x100, 4, 1);
    assert_eq!(try_mmio_handler(&mut access, 0x1000, &mut devs), None);
    assert_eq!(access, store(0x100, 4, 1));
    assert_eq!(devs[0].areas.peers.tables[0].table, vec![MsixTableEntry::dummy(); 16]);
    assert_eq!(try_mmio_handler(&mut access, 0x9000, &mut devs), Some(Ok(None)));
}

#[test]
fn identifier_is_refused_by_a_malformed_configuration() {
    let mut devs = vec![placed(0x1000, 0x2000)];
    devs[0].areas.commons[0].num_queue = 2;
    assert!(!finish_config(&mut devs, 0, 0, 2));
    assert_eq!(devs[0].areas.peers.queues[0].this_dev_id, MAX_DEVS);
}

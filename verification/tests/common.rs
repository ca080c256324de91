use vpci_dev::area::{AreaEffect, AreaInBar, DevicePeers, NotifyRequest};
use vpci_dev::bridge::{VirtioPCIConfigInfo, VirtioPCIDataInfo, VirtqueueAreaInfo, MAX_DEVS};
use vpci_dev::capability::{PciCapabilityRegion, VirtioCfgType};
use vpci_dev::common_cfg::VirtioPciCommonCfg;
use vpci_dev::isr::VirtioISRCap;
use vpci_dev::area::NoPeers;
use vpci_dev::mmio::MMIOAccess;
use vpci_dev::msix_manager::VirtioPCIMsixManager;
use vpci_dev::msix_table::{MsixTable, MsixTableEntry};
use vpci_dev::notify::VirtioNotifyCap;
use vpci_dev::virtqueue::{AvailRing, DescriptorTable, VirtqUsed, Virtqueue};

fn store(address: usize, size: usize, value: usize) -> MMIOAccess {
    MMIOAccess { address, size, is_write: true, value }
}

fn device() -> (VirtioPciCommonCfg, DevicePeers) {
    let mut cfg = VirtioPciCommonCfg::new();
    cfg.insert_queue(1);
    cfg.insert_queue(0);
    let peers = DevicePeers {
        queues: vec![Virtqueue::new(0, 10), Virtqueue::new(0, 11), Virtqueue::new(0, 12)],
        tables: vec![MsixTable::new(4, 0)],
    };
    (cfg, peers)
}

fn put(cfg: &mut VirtioPciCommonCfg, peers: &mut DevicePeers, address: usize, size: usize, value: usize) {
    let access = store(address, size, value);
    assert!(cfg.can_write(&access, peers));
    assert_eq!(cfg.write(&access, peers), Ok(AreaEffect::Nothing));
}

fn get(cfg: &mut VirtioPciCommonCfg, peers: &DevicePeers, address: usize, size: usize) -> usize {
    let mut access = MMIOAccess { address, size, is_write: false, value: 0xdead };
    assert!(cfg.can_read(&access, peers));
    assert_eq!(cfg.read(&mut access, peers), Ok(()));
    access.value
}

#[test]
fn registers_read_back() {
    let (mut cfg, mut peers) = device();
    put(&mut cfg, &mut peers, 0x14, 1, 0x1_03);
    assert_eq!(get(&mut cfg, &peers, 0x14, 1), 0x03);
    put(&mut cfg, &mut peers, 0x10, 2, 0x5_1234);
    assert_eq!(get(&mut cfg, &peers, 0x10, 2), 0x1234);
    assert_eq!(get(&mut cfg, &peers, 0x12, 2), 2);
    put(&mut cfg, &mut peers, 0x18, 2, 0x80);
    assert_eq!(get(&mut cfg, &peers, 0x18, 2), 0x80);
    put(&mut cfg, &mut peers, 0x1c, 2, 7);
    assert_eq!(get(&mut cfg, &peers, 0x1a, 2), 7);
    assert_eq!(get(&mut cfg, &peers, 0x1c, 2), 0);
    assert_eq!(get(&mut cfg, &peers, 0x1e, 2), 0);
}

#[test]
fn features_are_offered_and_accepted_by_halves() {
    let (mut cfg, mut peers) = device();
    assert_eq!(get(&mut cfg, &peers, 0x04, 4), 0);
    put(&mut cfg, &mut peers, 0x00, 4, 1);
    assert_eq!(get(&mut cfg, &peers, 0x04, 4), 65);
    put(&mut cfg, &mut peers, 0x08, 4, 0);
    put(&mut cfg, &mut peers, 0x0c, 4, 0x8000_0001);
    put(&mut cfg, &mut peers, 0x08, 4, 1);
    put(&mut cfg, &mut peers, 0x0c, 4, 0x0000_0041);
    assert_eq!(cfg.get_features(), 0x0000_0041_8000_0001);
}

#[test]
fn queue_writes_go_to_the_selected_queue() {
    let (mut cfg, mut peers) = device();
    put(&mut cfg, &mut peers, 0x16, 2, 1);
    put(&mut cfg, &mut peers, 0x1a, 2, 3);
    assert_eq!(peers.queues[0].queue_msix_vector, 3);
    assert_eq!(peers.queues[1], Virtqueue::new(0, 11));
    assert_eq!(peers.queues[2], Virtqueue::new(0, 12));
    put(&mut cfg, &mut peers, 0x16, 2, 5);
    assert!(!cfg.can_write(&store(0x18, 2, 1), &peers));
    assert!(!cfg.can_write(&store(0x34, 4, 1), &peers));
    let load = MMIOAccess { address: 0x18, size: 2, is_write: false, value: 0 };
    assert!(!cfg.can_read(&load, &peers));
}

#[test]
fn address_halves_place_the_parts() {
    let (mut cfg, mut peers) = device();
    put(&mut cfg, &mut peers, 0x18, 2, 64);
    for (at, low, high) in [(0x20, 0x1000, 0x1), (0x28, 0x2000, 0x2), (0x30, 0x3000, 0x3)] {
        put(&mut cfg, &mut peers, at, 4, low);
        put(&mut cfg, &mut peers, at + 4, 4, high);
    }
    let queue = peers.queues[1];
    assert_eq!(queue.queue_desc, 0x1_0000_1000);
    assert_eq!(queue.desc_table, Some(DescriptorTable { base: 0x1_0000_1000, size: 64 }));
    assert_eq!(queue.avail_area, Some(AvailRing { base: 0x2_0000_2000, size: 64 }));
    assert_eq!(queue.used_area, Some(VirtqUsed { base: 0x3_0000_3000, size: 64 }));
    assert_eq!(
        queue.get_area_info(),
        VirtqueueAreaInfo::new(0x1_0000_1000, 0x2_0000_2000, 0x3_0000_3000)
    );
    put(&mut cfg, &mut peers, 0x18, 2, 32);
    put(&mut cfg, &mut peers, 0x20, 4, 0x5000);
    put(&mut cfg, &mut peers, 0x24, 4, 0);
    assert_eq!(peers.queues[1].desc_table, Some(DescriptorTable { base: 0x5000, size: 64 }));
}

#[test]
fn generation_counts_reads_after_a_change() {
    let (mut cfg, mut peers) = device();
    assert_eq!(get(&mut cfg, &peers, 0x15, 1), 0);
    put(&mut cfg, &mut peers, 0x1c, 2, 1);
    assert_eq!(get(&mut cfg, &peers, 0x15, 1), 0);
    put(&mut cfg, &mut peers, 0x10, 2, 1);
    assert_eq!(get(&mut cfg, &peers, 0x15, 1), 1);
    assert_eq!(get(&mut cfg, &peers, 0x15, 1), 2);
    cfg.config_generation = 255;
    let load = MMIOAccess { address: 0x15, size: 1, is_write: false, value: 0 };
    assert!(!cfg.can_read(&load, &peers));
}

#[test]
fn writes_elsewhere_change_nothing() {
    let (mut cfg, mut peers) = device();
    for (address, size) in [(0x15, 1), (0x12, 2), (0x1e, 2), (0x04, 4), (0x38, 4), (0x14, 8), (0, 0)] {
        let outcome = cfg.write_into(&store(address, size, 0xff), &mut peers.queues);
        assert!(!outcome.reached);
        assert_eq!(outcome.config, None);
        put(&mut cfg, &mut peers, address, size, 0xff);
    }
    assert!(!cfg.config_changed);
    assert_eq!(peers.queues[1], Virtqueue::new(0, 11));
    assert_eq!(get(&mut cfg, &peers, 0x04, 2), 0xdead);
    assert_eq!(get(&mut cfg, &peers, 0x14, 4), 0xdead);
    assert_eq!(get(&mut cfg, &peers, 0x16, 1), 0xdead);
}

#[test]
fn enabling_a_queue_takes_effect_without_counting() {
    let (mut cfg, mut peers) = device();
    let outcome = cfg.write_into(&store(0x1c, 2, 9), &mut peers.queues);
    assert!(!outcome.reached);
    assert_eq!(peers.queues[1].queue_enable, 9);
}

#[test]
fn completed_set_up_is_told_to_the_backend() {
    let (mut cfg, mut peers) = device();
    put(&mut cfg, &mut peers, 0x20, 4, 0x1000);
    put(&mut cfg, &mut peers, 0x0c, 4, 3);
    let access = store(0x14, 1, 0x0f);
    let expected = VirtioPCIConfigInfo {
        features: 3,
        dev_id: MAX_DEVS,
        dtype: 4,
        num_of_queues: 2,
        vqs: vec![VirtqueueAreaInfo::new(0x1000, 0, 0), VirtqueueAreaInfo::new(0, 0, 0)],
    };
    assert_eq!(cfg.init_virtqueue_shared_space(&peers.queues), expected);
    assert_eq!(cfg.write(&access, &mut peers), Ok(AreaEffect::Configure(expected)));
    assert_eq!(get(&mut cfg, &peers, 0x14, 1), 0x0f);
    assert_eq!(peers.queues[1].get_data_info(), VirtioPCIDataInfo::new(MAX_DEVS, 11));
    cfg.assign_dev_id(2, &mut peers.queues);
    assert_eq!(peers.queues[0].get_data_info(), VirtioPCIDataInfo::new(2, 10));
    assert_eq!(peers.queues[1].get_data_info(), VirtioPCIDataInfo::new(2, 11));
    assert_eq!(peers.queues[2].get_data_info(), VirtioPCIDataInfo::new(MAX_DEVS, 12));
}

#[test]
fn set_up_with_a_missing_queue_is_not_allowed() {
    let (mut cfg, peers) = device();
    cfg.insert_queue(7);
    assert!(!cfg.is_well_formed(&peers.queues));
    assert!(!cfg.can_write(&store(0x14, 1, 4), &peers));
    assert!(cfg.can_write(&store(0x14, 1, 3), &peers));
}

#[test]
fn queue_identity_can_be_changed() {
    let mut queue = Virtqueue::new(0, 1);
    queue.set_dev_id(3);
    queue.set_queue_id(9);
    assert_eq!(queue.get_data_info(), VirtioPCIDataInfo::new(3, 9));
}

#[test]
fn queue_vector_is_found_in_its_table() {
    let mut table = MsixTable::new(2, 0);
    table.table[1].intid = Some(99);
    let tables = vec![MsixTable::new(0, 0), table];
    let queue = Virtqueue::new(1, 4);
    assert!(queue.vector_exists(&tables));
    assert_eq!(queue.notify_driver(&tables), Some(99));
    let mut manager = VirtioPCIMsixManager::new();
    queue.register_interrupt(5, queue.get_data_info(), &tables, &mut manager);
    assert_eq!(manager.activate_irq(queue.get_data_info().get_identifier(5)), Some(99));
    assert!(!Virtqueue::new(0, 4).vector_exists(&tables));
    assert!(!Virtqueue::new(2, 4).vector_exists(&tables));
}

#[test]
fn interrupt_status_is_read_at_zero_and_never_written() {
    let mut isr = VirtioISRCap::new();
    isr.set_isr(1);
    assert_eq!(isr.write(&store(0, 4, 9), &mut NoPeers), Ok(AreaEffect::Nothing));
    let mut access = MMIOAccess { address: 0, size: 1, is_write: false, value: 7 };
    assert_eq!(AreaInBar::read(&mut isr, &mut access, &NoPeers), Ok(()));
    assert_eq!(access.value, 1);
    let mut access = MMIOAccess { address: 4, size: 1, is_write: false, value: 7 };
    assert_eq!(AreaInBar::read(&mut isr, &mut access, &NoPeers), Ok(()));
    assert_eq!(access.value, 7);
}

#[test]
fn notification_asks_for_the_queues_at_its_address() {
    let (_, mut peers) = device();
    peers.queues[2].queue_notify_off = 3;
    peers.tables[0].table[1].intid = Some(50);
    let mut notify = VirtioNotifyCap::new(0x50, 0x2000, 0x1000);
    notify.insert_queue(1, &peers.queues);
    notify.insert_queue(2, &peers.queues);
    notify.insert_queue(0, &peers.queues);
    assert_eq!(notify.queue_list, vec![(0x2000, 1), (0x200c, 2), (0x2000, 0)]);
    assert_eq!(notify.get_queues(0x2000), vec![1, 0]);
    let entry: MsixTableEntry = peers.tables[0].get_entry(1);
    let request = |queue_id| NotifyRequest {
        info: VirtioPCIDataInfo::new(MAX_DEVS, queue_id),
        entry,
    };
    let access = store(0x2000, 2, 0xffff);
    assert!(AreaInBar::can_write(&notify, &access, &peers));
    assert_eq!(
        AreaInBar::write(&mut notify, &access, &mut peers),
        Ok(AreaEffect::Notify(vec![request(11), request(10)]))
    );
    assert_eq!(
        AreaInBar::write(&mut notify, &store(0x2004, 2, 0), &mut peers),
        Ok(AreaEffect::Notify(vec![]))
    );
    peers.queues[2].queue_msix_vector = 4;
    assert!(!AreaInBar::can_write(&notify, &store(0x200c, 2, 0), &peers));
    let mut load = MMIOAccess { address: 0x2000, size: 2, is_write: false, value: 6 };
    assert_eq!(AreaInBar::read(&mut notify, &mut load, &peers), Ok(()));
    assert_eq!(load.value, 6);
}

#[test]
fn notification_capability_is_a_virtio_capability() {
    let mut notify = VirtioNotifyCap::new(0x50, 0x2000, 0x1000);
    assert_eq!(PciCapabilityRegion::read(&notify, 16, 4), Ok(4));
    assert_eq!(PciCapabilityRegion::read(&notify, 0, 4), Ok(0x0214_5009));
    assert_eq!(PciCapabilityRegion::write(&mut notify, 16, 4, 9), Ok(()));
    assert_eq!(PciCapabilityRegion::read(&notify, 16, 4), Ok(4));
    assert_eq!(notify.get_size(), 0x14);
    assert_eq!(notify.get_offset(), 0);
    assert_eq!(notify.next_cap(), Ok(0x50));
    notify.cap.cfg_type = VirtioCfgType::CommonCfg;
    notify.insert_queue(0, &vec![Virtqueue::new(0, 0)]);
    assert!(notify.queue_list.is_empty());
}

#[test]
fn registers_keep_what_they_hold_through_other_writes() {
    let (mut cfg, mut peers) = device();
    put(&mut cfg, &mut peers, 0x14, 1, 3);
    put(&mut cfg, &mut peers, 0x10, 2, 0x21);
    put(&mut cfg, &mut peers, 0x18, 2, 16);
    put(&mut cfg, &mut peers, 0x28, 4, 0x7000);
    for (address, size) in [(0x1a, 2), (0x1c, 2), (0x00, 4), (0x08, 4), (0x0c, 4), (0x20, 4), (0x24, 4)] {
        put(&mut cfg, &mut peers, address, size, 1);
    }
    assert_eq!(get(&mut cfg, &peers, 0x14, 1), 3);
    assert_eq!(get(&mut cfg, &peers, 0x10, 2), 0x21);
    assert_eq!(get(&mut cfg, &peers, 0x18, 2), 16);
    assert_eq!(peers.queues[1].queue_driver, 0x7000);
    assert_eq!(peers.queues[1].avail_area, None);
}

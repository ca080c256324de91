use vpci_dev::area::{AreaEffect, AreaInBar, NoPeers};
use vpci_dev::bridge::VirtioPCIDataInfo;
use vpci_dev::mmio::MMIOAccess;
use vpci_dev::msix_manager::VirtioPCIMsixManager;
use vpci_dev::msix_table::{MsixTable, MsixTableEntry};

fn load(address: usize) -> MMIOAccess {
    MMIOAccess { address, size: 4, is_write: false, value: 0xdead }
}

fn store(address: usize, value: usize) -> MMIOAccess {
    MMIOAccess { address, size: 4, is_write: true, value }
}

fn bound_to(intid: usize) -> MsixTableEntry {
    let mut entry = MsixTableEntry::dummy();
    entry.intid = Some(intid);
    entry
}

#[test]
fn fresh_table_is_blank() {
    let table = MsixTable::new(3, 9);
    assert_eq!(table.table, vec![MsixTableEntry::dummy(); 3]);
    assert_eq!(table.device_id, 9);
    assert!(table.event_id.is_empty());
    assert_eq!(table.inject_irq(2), None);
    assert_eq!(MsixTableEntry::dummy().activate_irq(), None);
}

#[test]
fn table_words_read_back_in_32_bits() {
    let mut table = MsixTable::new(2, 0);
    for (offset, value) in [(0x10, 0x1111), (0x14, 0x2222), (0x18, 0x3333), (0x1c, 0x4444)] {
        let wide = value | 0xabcd_0000_0000;
        assert_eq!(table.write(&store(offset, wide), &mut NoPeers), Ok(AreaEffect::Nothing));
        let mut access = load(offset);
        assert_eq!(table.read(&mut access, &NoPeers), Ok(()));
        assert_eq!(access.value, value);
    }
    assert_eq!(table.get_entry(0), MsixTableEntry::dummy());
    assert_eq!(table.get_entry(1).msg_data, 0x3333);
}

#[test]
fn misaligned_table_accesses_do_nothing() {
    let mut table = MsixTable::new(1, 0);
    table.write(&store(0x2, 5), &mut NoPeers).unwrap();
    assert_eq!(table.get_entry(0), MsixTableEntry::dummy());
    let mut access = load(0x1002);
    assert!(table.can_read(&access, &NoPeers));
    table.read(&mut access, &NoPeers).unwrap();
    assert_eq!(access.value, 0xdead);
    assert!(!table.can_read(&load(0x10), &NoPeers));
    assert!(!table.can_write(&store(0x12, 0), &NoPeers));
    assert!(table.can_write(&store(0xc, 0), &NoPeers));
}

#[test]
fn written_vector_is_bound_to_the_oldest_mapping() {
    let mut table = MsixTable::new(2, 7);
    table.intercept_its(7, 40, 8200);
    table.intercept_its(1, 41, 8201);
    table.intercept_its(7, 41, 8299);
    table.write(&store(0x18, 41), &mut NoPeers).unwrap();
    assert_eq!(table.inject_irq(1), Some(8201));
    assert_eq!(table.inject_irq(0), None);
    table.write(&store(0x18, 99), &mut NoPeers).unwrap();
    assert_eq!(table.inject_irq(1), Some(8201));
    table.init_msix_intid(0);
    assert_eq!(table.inject_irq(0), None);
    table.write(&store(0x18, 40), &mut NoPeers).unwrap();
    assert_eq!(table.get_entry(1).intid, Some(8200));
}

#[test]
fn identifiers_name_cpu_device_and_queue() {
    assert_eq!(VirtioPCIDataInfo::new(2, 3).get_identifier(1), 0x1_0002_0003);
    assert_eq!(VirtioPCIDataInfo::new(0xffff, 0xfffe).get_identifier(0xfffd), 0xfffd_ffff_fffe);
    assert_ne!(
        VirtioPCIDataInfo::new(2, 3).get_identifier(1),
        VirtioPCIDataInfo::new(3, 2).get_identifier(1)
    );
}

#[test]
fn vector_fires_once() {
    let mut manager = VirtioPCIMsixManager::new();
    let info = VirtioPCIDataInfo::new(2, 3);
    manager.insert(1, info, bound_to(77));
    manager.insert(1, info, bound_to(78));
    assert_eq!(manager.activate_irq(info.get_identifier(1)), Some(78));
    assert_eq!(manager.activate_irq(info.get_identifier(1)), None);
    manager.insert(1, info, MsixTableEntry::dummy());
    assert_eq!(manager.activate_irq(info.get_identifier(1)), None);
    assert!(manager.table.is_empty());
}

#[test]
fn activation_empties_one_cpu() {
    let mut manager = VirtioPCIMsixManager::new();
    for (cpu, queue, irq) in [(1, 0, 100), (2, 1, 200), (1, 2, 101), (1, 3, 102)] {
        let info = VirtioPCIDataInfo::new(0, queue);
        manager.insert(cpu, info, bound_to(irq));
        manager.add_pending_data_req_id(info.get_identifier(cpu));
    }
    manager.add_pending_data_req_id(0x1_0000_00ff);
    assert_eq!(manager.activate_all_pending_irq(1), vec![100, 102, 101]);
    assert_eq!(manager.pending, vec![0x2_0000_0001]);
    assert_eq!(manager.table.len(), 1);
    assert_eq!(manager.activate_all_pending_irq(1), Vec::<usize>::new());
    assert_eq!(manager.pending, vec![0x2_0000_0001]);
    assert_eq!(manager.activate_all_pending_irq(2), vec![200]);
    assert!(manager.pending.is_empty());
}

#[test]
fn request_served_twice_raises_one_interrupt() {
    let mut manager = VirtioPCIMsixManager::new();
    let info = VirtioPCIDataInfo::new(1, 1);
    manager.insert(0, info, bound_to(5));
    manager.add_pending_data_req_id(info.get_identifier(0));
    manager.add_pending_data_req_id(info.get_identifier(0));
    assert_eq!(manager.activate_all_pending_irq(0), vec![5]);
    assert!(manager.pending.is_empty());
}

#[test]
fn cpu_beyond_sixteen_bits_has_no_requests() {
    let mut manager = VirtioPCIMsixManager::new();
    manager.add_pending_data_req_id(0x1_0000_0000);
    assert!(manager.activate_all_pending_irq(0x1_0001).is_empty());
    assert_eq!(manager.pending.len(), 1);
}

#[test]
fn table_word_stays_until_it_is_written_again() {
    let mut table = MsixTable::new(2, 0);
    table.intercept_its(0, 0x77, 8300);
    table.write(&store(0x18, 0x77), &mut NoPeers).unwrap();
    for other in [0x10, 0x14, 0x1c, 0x1a, 0x08, 0x00] {
        table.write(&store(other, 0x5555), &mut NoPeers).unwrap();
    }
    let mut access = load(0x18);
    table.read(&mut access, &NoPeers).unwrap();
    assert_eq!(access.value, 0x77);
    table.write(&store(0x18, 0x78), &mut NoPeers).unwrap();
    table.read(&mut access, &NoPeers).unwrap();
    assert_eq!(access.value, 0x78);
}

#[test]
fn each_bound_request_raises_one_interrupt() {
    let mut manager = VirtioPCIMsixManager::new();
    let request = |queue| VirtioPCIDataInfo::new(1, queue);
    manager.insert(2, request(0), bound_to(30));
    manager.insert(2, request(1), MsixTableEntry::dummy());
    manager.insert(2, request(2), bound_to(30));
    manager.insert(2, request(3), bound_to(31));
    for queue in [0, 1, 0, 2, 9] {
        manager.add_pending_data_req_id(request(queue).get_identifier(2));
    }
    assert_eq!(manager.activate_all_pending_irq(2), vec![30, 30]);
    let kept: Vec<u64> = manager.table.keys().copied().collect();
    assert_eq!(kept, vec![request(3).get_identifier(2)]);
}

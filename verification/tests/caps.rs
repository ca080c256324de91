use vpci_dev::capability::{put_together, PciCapabilityRegion, VirtioCfgType, VirtioPciCap};
use vpci_dev::msix_cap::MsixCap;

fn notify_cap() -> VirtioPciCap {
    VirtioPciCap::new(VirtioCfgType::NotifyCfg(0x04), 0x50, 0x14, 0x04, 0x2000, 0x1000)
}

#[test]
fn bytes_are_put_together_most_significant_first() {
    assert_eq!(put_together((1, 2, 3, 4)), 0x0102_0304);
    assert_eq!(put_together((0xff, 0, 0, 0x80)), 0xff00_0080);
}

#[test]
fn every_kind_has_its_code() {
    assert_eq!(u8::from(VirtioCfgType::CommonCfg), 1);
    assert_eq!(u8::from(VirtioCfgType::NotifyCfg(7)), 2);
    assert_eq!(u8::from(VirtioCfgType::IsrCfg), 3);
    assert_eq!(u8::from(VirtioCfgType::DeviceCfg), 4);
    assert_eq!(u8::from(VirtioCfgType::PciCfg), 5);
    assert_eq!(u8::from(VirtioCfgType::SharedMemoryCfg), 8);
    assert_eq!(u8::from(VirtioCfgType::VendorCfg), 9);
}

#[test]
fn virtio_capability_is_read_byte_by_byte() {
    let cap = notify_cap();
    let bytes: Vec<u32> = (0..8).map(|i| cap.read(i, 1).unwrap()).collect();
    assert_eq!(bytes, vec![0x09, 0x50, 0x14, 0x02, 0x04, 0x00, 0x00, 0x00]);
    assert_eq!(cap.read(8, 1), Ok(0));
}

#[test]
fn virtio_capability_wide_reads_join_narrow_ones() {
    let cap = notify_cap();
    assert_eq!(cap.read(0, 2), Ok(0x5009));
    assert_eq!(cap.read(2, 2), Ok(0x0214));
    assert_eq!(cap.read(4, 2), Ok(0x0004));
    assert_eq!(cap.read(6, 2), Ok(0));
    assert_eq!(cap.read(8, 2), Ok(0));
    assert_eq!(cap.read(0, 4), Ok(0x0214_5009));
    assert_eq!(cap.read(4, 4), Ok(0x0000_0004));
}

#[test]
fn virtio_capability_words() {
    let cap = notify_cap();
    assert_eq!(cap.read(8, 4), Ok(0x2000));
    assert_eq!(cap.read(12, 4), Ok(0x1000));
    assert_eq!(cap.read(16, 4), Ok(4));
    assert_eq!(cap.read(20, 4), Ok(0));
    let common = VirtioPciCap::new(VirtioCfgType::CommonCfg, 0, 0x10, 4, 0, 0x1000);
    assert_eq!(common.read(16, 4), Ok(0));
}

#[test]
fn misaligned_and_odd_reads_give_zero() {
    let cap = notify_cap();
    assert_eq!(cap.read(1, 2), Ok(0));
    assert_eq!(cap.read(2, 4), Ok(0));
    assert_eq!(cap.read(0, 8), Ok(0));
    assert_eq!(cap.read(0, 3), Ok(0));
    assert_eq!(cap.read(1 << 40, 4), Ok(0));
}

#[test]
fn virtio_capability_is_read_only() {
    let mut cap = notify_cap();
    let before = cap;
    assert_eq!(cap.write(8, 4, 0xffff_ffff), Ok(()));
    assert_eq!(cap.write(1, 1, 0xff), Ok(()));
    assert_eq!(cap, before);
    assert_eq!(cap.get_offset(), 0);
    assert_eq!(cap.get_size(), 0x14);
    assert_eq!(cap.next_cap(), Ok(0x50));
}

#[test]
fn msix_capability_reads() {
    let cap = MsixCap::new(0x60, 0x10);
    assert_eq!(cap.read(0, 1), Ok(0x11));
    assert_eq!(cap.read(1, 1), Ok(0x60));
    assert_eq!(cap.read(2, 1), Ok(0));
    assert_eq!(cap.read(0, 2), Ok(0x6011));
    assert_eq!(cap.read(2, 2), Ok(0x0010));
    assert_eq!(cap.read(4, 2), Ok(0));
    assert_eq!(cap.read(0, 4), Ok(0x0010_6011));
    assert_eq!(cap.read(4, 4), Ok(0x0000_0001));
    assert_eq!(cap.read(8, 4), Ok(0x0004_0001));
    assert_eq!(cap.read(12, 4), Ok(0));
    assert_eq!(cap.read(2, 4), Ok(0));
    assert_eq!(cap.get_size(), 0x0c);
    assert_eq!(cap.get_offset(), 0);
    assert_eq!(cap.next_cap(), Ok(0x60));
}

#[test]
fn msix_locations_read_back_without_bit_two() {
    let mut cap = MsixCap::new(0, 0);
    assert_eq!(cap.write(4, 4, 0x1234_567b), Ok(()));
    assert_eq!(cap.read(4, 4), Ok(0x1234_567b));
    assert_eq!(cap.write(8, 4, 0xffff_ffff), Ok(()));
    assert_eq!(cap.read(8, 4), Ok(0xffff_fffb));
    assert_eq!(cap.read(4, 4), Ok(0x1234_567b));
    cap.set_table_mesg(0x8000_0002);
    assert_eq!((cap.table_offset, cap.table_bar), (0x1000_0000, 2));
    assert_eq!(cap.get_table_mesg(), 0x8000_0002);
    cap.set_pending_mesg(0x11);
    assert_eq!(cap.get_pending_mesg(), 0x11);
}

#[test]
fn msix_message_control_is_written_as_sixteen_bits() {
    let mut cap = MsixCap::new(0x60, 0x10);
    assert_eq!(cap.write(2, 2, 0xabcd_8123), Ok(()));
    assert_eq!(cap.read(2, 2), Ok(0x8123));
    let before = cap;
    assert_eq!(cap.write(2, 1, 0xff), Ok(()));
    assert_eq!(cap.write(0, 2, 0xff), Ok(()));
    assert_eq!(cap.write(0, 4, 0xff), Ok(()));
    assert_eq!(cap.write(4, 8, 0xff), Ok(()));
    assert_eq!(cap, before);
}

#[test]
fn msix_table_size_keeps_the_upper_bits() {
    let mut cap = MsixCap::new(0, 0);
    cap.message_control = 0xffff;
    cap.set_table_size(0x123);
    assert_eq!(cap.message_control, 0xf923);
    cap.set_table_size(2049);
    assert_eq!(cap.message_control, 0xf923);
    cap.message_control = 0;
    cap.set_table_size(2048);
    assert_eq!(cap.message_control, 0x800);
}

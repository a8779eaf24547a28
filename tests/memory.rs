use hv_virtio::ram::{GuestMap, GuestRam};

#[test]
fn little_endian_round_trip() {
    let mut ram = GuestRam::new(16);
    assert!(ram.write_u32(4, 0x1122_3344));
    assert_eq!(&ram.bytes[4..8], &[0x44, 0x33, 0x22, 0x11]);
    assert_eq!(ram.read_u32(4), Some(0x1122_3344));
    assert_eq!(ram.read_u16(4), Some(0x3344));
    assert!(ram.write_u32(8, 0xdead_beef));
    assert_eq!(ram.read_u64(4), Some(0xdead_beef_1122_3344));
}

#[test]
fn accesses_outside_window_fail() {
    let mut ram = GuestRam::new(8);
    assert_eq!(ram.read_u32(6), None);
    assert_eq!(ram.read_u64(u64::MAX - 2), None);
    assert!(!ram.write_u16(7, 1));
    assert_eq!(ram.bytes, vec![0u8; 8]);
    assert_eq!(ram.addr_at(u64::MAX, 4, 1), None);
}

#[test]
fn translation_by_regions() {
    let mut map = GuestMap::new();
    map.add_region(0x1000, 0x8000, 0x100);
    map.add_region(0x2000, 0x9000, 0x100);
    assert_eq!(map.ipa2pa(0x1010), 0x8010);
    assert_eq!(map.ipa2pa(0x20ff), 0x90ff);
    assert_eq!(map.ipa2pa(0x1100), 0);
    assert_eq!(map.ipa2pa(0xfff), 0);
}

use gb_core::regions::{MappedMemoryRegion, MemoryRegion};

#[test]
fn test_contains() {
    let reg = MemoryRegion::new(5, 10);
    assert!(!reg.contains(4));
    assert!(reg.contains(5));
    assert!(reg.contains(7));
    assert!(reg.contains(10));
    assert!(!reg.contains(11));
}

#[test]
fn test_local_address() {
    let reg = MappedMemoryRegion::new(MemoryRegion::new(5, 10));
    assert_eq!(reg.local_address(5), 0);
    assert_eq!(reg.local_address(7), 2);
    assert_eq!(reg.local_address(10), 5);
}

#[test]
fn test_getset() {
    let mut reg = MappedMemoryRegion::new(MemoryRegion::new(5, 10));
    println!("Mapped region: {reg:?}");
    reg.set(6, 0xDE);
    reg.set(7, 0xAD);
    assert_eq!(reg.get(6), 0xDE);
    assert_eq!(reg.get(7), 0xAD);
    reg.set(6, 0xBE);
    reg.set(7, 0xEF);
    assert_eq!(reg.get(6), 0xBE);
    assert_eq!(reg.get(7), 0xEF);
}

#[test]
fn test_new_region_bounds() {
    let reg = MemoryRegion::new(0x8000, 0x9FFF);
    assert_eq!(reg.begin, 0x8000);
    assert_eq!(reg.end, 0x9FFF);
    assert_eq!(reg.size(), 0x2000);
    assert_eq!(reg.usize(), 0x2000);
}

#[test]
fn test_full_space_size() {
    let reg = MemoryRegion::new(0x0000, 0xFFFF);
    // The exact size needs a machine word; the 16-bit view truncates to 0.
    assert_eq!(reg.usize(), 0x10000);
    assert_eq!(reg.size(), 0);
}

#[test]
fn test_new_mapped_region_floats_high() {
    let reg = MappedMemoryRegion::new(MemoryRegion::new(0, 15));
    // Uninitialized RAM powers on to the floating-bus value.
    for a in 0..16 {
        assert_eq!(reg.get(a), 0xFF);
    }
}

#[test]
fn test_fill() {
    let mut reg = MappedMemoryRegion::new(MemoryRegion::new(0, 15));
    reg.set(3, 0x12);
    reg.fill(0xA5);
    for a in 0..16 {
        assert_eq!(reg.get(a), 0xA5);
    }
}

use rpi3_periph::hal::cache::bus_address_bits;
use rpi3_periph::hal::pmem::{Error, PMem};

#[test]
fn pmem_new_keeps_address_and_size() {
    let p = PMem::new(0x1000, 0x200);
    assert_eq!(p.paddr(), 0x1000);
    assert_eq!(p.size(), 0x200);
    assert_eq!(p.as_ptr(), 0x1000);
    assert_eq!(p.as_mut_ptr(), 0x1000);
}

#[test]
fn pmem_bus_paddr_uses_l2_coherent_alias() {
    let p = PMem::new(0x0010_0000, 4096);
    assert_eq!(p.bus_paddr(), 0x4010_0000);
    assert_eq!(bus_address_bits::ALIAS_4_L2_COHERENT, 0x4000_0000);
}

#[test]
fn pmem_contains_paddr_bounds() {
    let p = PMem::new(0x1000, 0x100);
    assert!(!p.contains_paddr(0x0FFF));
    assert!(p.contains_paddr(0x1000));
    assert!(p.contains_paddr(0x10FF));
    assert!(!p.contains_paddr(0x1100));
}

#[test]
fn pmem_split_off_partitions_region() {
    let mut head = PMem::new(0x1000, 0x100);
    let tail = head.split_off(0x40).unwrap();
    assert_eq!(head.paddr(), 0x1000);
    assert_eq!(head.size(), 0x40);
    assert_eq!(tail.paddr(), 0x1040);
    assert_eq!(tail.size(), 0xC0);
    let whole = PMem::new(0x1000, 0x100);
    for a in 0x0F00u32..0x1200u32 {
        assert_eq!(
            whole.contains_paddr(a),
            head.contains_paddr(a) || tail.contains_paddr(a)
        );
        assert!(!(head.contains_paddr(a) && tail.contains_paddr(a)));
    }
}

#[test]
fn pmem_split_off_outside_region_fails() {
    let mut p = PMem::new(0x1000, 0x100);
    assert!(matches!(p.split_off(0x100), Err(Error::InvalidSize)));
    assert!(matches!(p.split_off(0x1000), Err(Error::InvalidSize)));
    assert_eq!(p.paddr(), 0x1000);
    assert_eq!(p.size(), 0x100);
}

#[test]
fn pmem_split_off_at_zero_leaves_empty_head() {
    let mut p = PMem::new(0x1000, 0x100);
    let tail = p.split_off(0).unwrap();
    assert_eq!(p.size(), 0);
    assert!(!p.contains_paddr(0x1000));
    assert_eq!(tail.paddr(), 0x1000);
    assert_eq!(tail.size(), 0x100);
}

#[test]
fn pmem_shrink_to() {
    let mut p = PMem::new(0x2000, 0x100);
    assert!(matches!(p.shrink_to(0x101), Err(Error::InvalidSize)));
    assert_eq!(p.size(), 0x100);
    assert!(p.shrink_to(0x100).is_ok());
    assert_eq!(p.size(), 0x100);
    assert!(p.shrink_to(0x10).is_ok());
    assert_eq!(p.size(), 0x10);
    assert_eq!(p.paddr(), 0x2000);
    assert!(!p.contains_paddr(0x2010));
}

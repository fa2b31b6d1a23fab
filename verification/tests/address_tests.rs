use rcore_os::address::{PhysAddr, PhysPageNum, VirtAddr, VirtPageNum, ptes_per_page};
use rcore_os::range::{SimpleRange, SimpleRangeIterator, StepByOne, VPNRange};

#[test]
fn phys_addr_from_usize_keeps_56_bits() {
    let pa = PhysAddr::from(0x1234_5678_9abc_def0usize);
    assert_eq!(pa, PhysAddr(0x0034_5678_9abc_def0));
    assert_eq!(PhysAddr::from(0x8020_0000usize), PhysAddr(0x8020_0000));
}

#[test]
fn virt_addr_from_usize_keeps_39_bits() {
    let va = VirtAddr::from(0xffff_ffc0_0000_1000usize);
    assert_eq!(va, VirtAddr(0x40_0000_1000));
}

#[test]
fn page_numbers_from_usize_keep_their_width() {
    assert_eq!(PhysPageNum::from(usize::MAX), PhysPageNum(0xfff_ffff_ffff));
    assert_eq!(VirtPageNum::from(usize::MAX), VirtPageNum(0x7ff_ffff));
    assert_eq!(VirtPageNum::from(0x1234usize), VirtPageNum(0x1234));
}

#[test]
fn usize_from_virt_addr_sign_extends() {
    let high = VirtAddr::from(0xffff_ffc0_0000_1000usize);
    assert_eq!(usize::from(high), 0xffff_ffc0_0000_1000usize);
    let low = VirtAddr(0x3f_ffff_f000);
    assert_eq!(usize::from(low), 0x3f_ffff_f000usize);
    assert_eq!(usize::from(PhysAddr(0x8000_0000)), 0x8000_0000usize);
    assert_eq!(usize::from(PhysPageNum(0x80000)), 0x80000usize);
    assert_eq!(usize::from(VirtPageNum(7)), 7usize);
}

#[test]
fn floor_ceil_offset_aligned() {
    let va = VirtAddr(0x8020_1234);
    assert_eq!(va.floor(), VirtPageNum(0x80201));
    assert_eq!(va.ceil(), VirtPageNum(0x80202));
    assert_eq!(va.page_offset(), 0x234);
    assert!(!va.aligned());
    let aligned = VirtAddr(0x8020_1000);
    assert_eq!(aligned.floor(), VirtPageNum(0x80201));
    assert_eq!(aligned.ceil(), VirtPageNum(0x80201));
    assert!(aligned.aligned());
    assert_eq!(VirtAddr(1).ceil(), VirtPageNum(1));
    assert_eq!(VirtAddr(0).ceil(), VirtPageNum(0));
    assert_eq!(VirtAddr(0x1001).ceil(), VirtPageNum(2));

    let pa = PhysAddr(0x8765_4321);
    assert_eq!(pa.floor(), PhysPageNum(0x87654));
    assert_eq!(pa.ceil(), PhysPageNum(0x87655));
    assert_eq!(pa.page_offset(), 0x321);
    assert!(!pa.aligned());
    assert!(PhysAddr(0x8000_0000).aligned());
    assert_eq!(PhysAddr(0x1000).ceil(), PhysPageNum(1));
    assert_eq!(PhysAddr(0).ceil(), PhysPageNum(0));
    assert_eq!(PhysAddr(0x8020_0001).ceil(), PhysPageNum(0x80201));
}

#[test]
fn page_to_address_and_back() {
    let va = VirtAddr::from(VirtPageNum(0x80201));
    assert_eq!(va, VirtAddr(0x8020_1000));
    assert_eq!(VirtPageNum::from_addr(va), VirtPageNum(0x80201));
    let pa = PhysAddr::from(PhysPageNum(0x80000));
    assert_eq!(pa, PhysAddr(0x8000_0000));
    assert_eq!(PhysPageNum::from_addr(pa), PhysPageNum(0x80000));
    // the shift wraps at the word
    assert_eq!(PhysAddr::from(PhysPageNum(usize::MAX)), PhysAddr(usize::MAX << 12));
}

#[test]
fn vpn_indexes_sv39() {
    assert_eq!(VirtPageNum((1 << 18) + (2 << 9) + 3).indexes(), vec![1, 2, 3]);
    assert_eq!(VirtPageNum(0x7ff_ffff).indexes(), vec![511, 511, 511]);
    assert_eq!(VirtPageNum(0).indexes(), vec![0, 0, 0]);
    assert_eq!(VirtPageNum(0x80201).indexes(), vec![2, 1, 0x1]);
}

#[test]
fn ptes_per_page_sv39() {
    assert_eq!(ptes_per_page(), 512);
}

#[test]
fn vpn_range_iterates_start_to_end() {
    let range: VPNRange = SimpleRange::new(VirtPageNum(5), VirtPageNum(8));
    assert_eq!(range.get_start(), VirtPageNum(5));
    assert_eq!(range.get_end(), VirtPageNum(8));
    let mut it = range.into_iter();
    assert_eq!(it.next(), Some(VirtPageNum(5)));
    assert_eq!(it.next(), Some(VirtPageNum(6)));
    assert_eq!(it.next(), Some(VirtPageNum(7)));
    assert_eq!(it.next(), None);
    assert_eq!(it.next(), None);
}

#[test]
fn empty_range_yields_nothing() {
    let mut it = SimpleRangeIterator::new(VirtPageNum(3), VirtPageNum(3));
    assert_eq!(it.next(), None);
}

#[test]
fn vpn_step_and_order() {
    let mut v = VirtPageNum(41);
    v.step();
    assert_eq!(v, VirtPageNum(42));
    assert!(VirtPageNum(1) < VirtPageNum(2));
    assert!(VirtPageNum(2) <= VirtPageNum(2));
    assert!(VirtPageNum(3) > VirtPageNum(2));
}

//! Address wrappers, alignment helpers, pages and frames.

use aarch64::paging::{Page, PageSize, PhysFrame};
use aarch64::{align_down, align_up, PhysAddr, VirtAddr, ALIGN_1GIB, ALIGN_2MIB, ALIGN_4KIB};

#[test]
fn align_helpers() {
    assert_eq!(align_down(0x1234, ALIGN_4KIB), 0x1000);
    assert_eq!(align_down(0x1000, ALIGN_4KIB), 0x1000);
    assert_eq!(align_up(0x1234, ALIGN_4KIB), 0x2000);
    assert_eq!(align_up(0x1000, ALIGN_4KIB), 0x1000);
    assert_eq!(align_down(0x4012_3456, ALIGN_2MIB), 0x4000_0000);
    assert_eq!(align_up(0x4012_3456, ALIGN_1GIB), 0x8000_0000);
}

#[test]
fn addresses_round_trip() {
    let v = VirtAddr::new(0xdead_beef);
    assert_eq!(v.as_u64(), 0xdead_beef);
    assert!(!v.is_aligned(ALIGN_4KIB));
    assert_eq!(v.align_down(ALIGN_4KIB).as_u64(), 0xdead_b000);
    let p = PhysAddr::new(0x8000_1234);
    assert_eq!(p.as_u64(), 0x8000_1234);
    assert_eq!(p.align_down(ALIGN_4KIB).as_u64(), 0x8000_1000);
}

#[test]
fn page_sizes() {
    assert_eq!(PageSize::Size4KiB.size(), 0x1000);
    assert_eq!(PageSize::Size2MiB.size(), 0x20_0000);
    assert_eq!(PageSize::Size1GiB.size(), 0x4000_0000);
}

#[test]
fn page_construction_checks_alignment() {
    assert!(Page::from_start_address(VirtAddr::new(0x1234), PageSize::Size4KiB).is_err());
    let p = Page::from_start_address(VirtAddr::new(0x2000), PageSize::Size4KiB).unwrap();
    assert_eq!(p.start_address().as_u64(), 0x2000);
    let c = Page::containing_address(VirtAddr::new(0x40f7_1234), PageSize::Size2MiB);
    assert_eq!(c.start_address().as_u64(), 0x40e0_0000);
    assert_eq!(c.size(), PageSize::Size2MiB);
}

#[test]
fn frame_construction_checks_alignment() {
    assert!(PhysFrame::from_start_address(PhysAddr::new(0x800), PageSize::Size4KiB).is_err());
    let f = PhysFrame::from_start_address(PhysAddr::new(0x4000_0000), PageSize::Size1GiB).unwrap();
    assert_eq!(f.start_address().as_u64(), 0x4000_0000);
    let c = PhysFrame::containing_address(PhysAddr::new(0x1fff), PageSize::Size4KiB);
    assert_eq!(c.start_address().as_u64(), 0x1000);
}

#[test]
fn page_table_indices_round_trip() {
    let p = Page::from_page_table_indices(1, 2, 3, 4);
    assert_eq!(p.p4_index(), 1);
    assert_eq!(p.p3_index(), 2);
    assert_eq!(p.p2_index(), 3);
    assert_eq!(p.p1_index(), 4);
    assert_eq!(
        p.start_address().as_u64(),
        (1u64 << 39) | (2u64 << 30) | (3u64 << 21) | (4u64 << 12)
    );
    let q = Page::from_start_address(VirtAddr::new(0x8040_1000), PageSize::Size4KiB).unwrap();
    assert_eq!(q.p4_index(), 0);
    assert_eq!(q.p3_index(), 2);
    assert_eq!(q.p2_index(), 2);
    assert_eq!(q.p1_index(), 1);
}

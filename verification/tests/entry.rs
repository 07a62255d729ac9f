//! The 64-bit descriptor codec: bit-exact encoding and field isolation.

use aarch64::paging::memory_attribute::{MairDevice, MairNormal, MairNormalNonCacheable};
use aarch64::paging::page_table::{
    FrameError, PageTableAttribute, PageTableEntry, PageTableFlags, ADDR_MASK, FLAGS_MASK,
    FLAG_BITS_ALL, MEMORY_ATTR_MASK,
};
use aarch64::paging::{PageSize, PhysFrame};
use aarch64::PhysAddr;

fn frame(addr: u64) -> PhysFrame {
    PhysFrame::from_start_address(PhysAddr::new(addr), PageSize::Size4KiB).unwrap()
}

#[test]
fn new_entry_is_unused() {
    let mut e = PageTableEntry::new();
    assert!(e.is_unused());
    e.set_frame(
        frame(0x5000),
        PageTableFlags::default_page(),
        MairNormal::attr_value(),
    );
    assert!(!e.is_unused());
    e.set_unused();
    assert!(e.is_unused());
}

#[test]
fn set_frame_encodes_address_flags_and_attr() {
    let mut e = PageTableEntry::new();
    let flags = PageTableFlags::default_page().union(PageTableFlags::UXN());
    let attr = MairNormal::attr_value();
    e.set_frame(frame(0xdead_b000), flags, attr);
    assert_eq!(e.addr().as_u64(), 0xdead_b000);
    assert_eq!(e.flags().bits(), flags.bits());
    assert_eq!(e.attr().value(), attr.value());
    assert!(!e.is_block());
}

#[test]
fn set_block_truncates_to_block_alignment() {
    let mut e = PageTableEntry::new();
    let flags = PageTableFlags::default_block();
    e.set_block(
        PhysAddr::new(0x4012_3000),
        PageSize::Size2MiB,
        flags,
        MairDevice::attr_value(),
    );
    assert_eq!(e.addr().as_u64(), 0x4000_0000);
    assert!(e.is_block());
}

#[test]
fn frame_reports_presence_and_huge_mappings() {
    let e = PageTableEntry::new();
    assert_eq!(e.frame().unwrap_err(), FrameError::FrameNotPresent);

    let mut block = PageTableEntry::new();
    block.set_block(
        PhysAddr::new(0x4000_0000),
        PageSize::Size1GiB,
        PageTableFlags::default_block(),
        MairNormal::attr_value(),
    );
    assert_eq!(block.frame().unwrap_err(), FrameError::HugeFrame);

    let mut page = PageTableEntry::new();
    page.set_frame(
        frame(0x7000),
        PageTableFlags::default_page(),
        MairNormal::attr_value(),
    );
    assert_eq!(page.frame().unwrap().start_address().as_u64(), 0x7000);
}

#[test]
fn set_flags_then_flags_is_exact() {
    let mut e = PageTableEntry::new();
    e.set_frame(
        frame(0x9000),
        PageTableFlags::default_page(),
        MairNormalNonCacheable::attr_value(),
    );
    let f = PageTableFlags::VALID()
        .union(PageTableFlags::TABLE_OR_PAGE())
        .union(PageTableFlags::nG())
        .union(PageTableFlags::PXN());
    e.set_flags(f);
    assert_eq!(e.flags().bits(), f.bits());
    assert_eq!(e.addr().as_u64(), 0x9000);
    assert_eq!(e.attr().value(), MairNormalNonCacheable::attr_value().value());
}

#[test]
fn set_attr_then_attr_is_exact() {
    let mut e = PageTableEntry::new();
    let f = PageTableFlags::default_page();
    e.set_frame(frame(0x9000), f, MairNormal::attr_value());
    let a = MairDevice::attr_value();
    e.set_attr(a);
    assert_eq!(e.attr().value(), a.value());
    assert_eq!(e.flags().bits(), f.bits());
    assert_eq!(e.addr().as_u64(), 0x9000);
}

#[test]
fn flag_constants_match_descriptor_layout() {
    assert_eq!(PageTableFlags::VALID().bits(), 1);
    assert_eq!(PageTableFlags::TABLE_OR_PAGE().bits(), 1 << 1);
    assert_eq!(PageTableFlags::NS().bits(), 1 << 5);
    assert_eq!(PageTableFlags::AP_EL0().bits(), 1 << 6);
    assert_eq!(PageTableFlags::AP_RO().bits(), 1 << 7);
    assert_eq!(PageTableFlags::AF().bits(), 1 << 10);
    assert_eq!(PageTableFlags::nG().bits(), 1 << 11);
    assert_eq!(PageTableFlags::DBM().bits(), 1 << 51);
    assert_eq!(PageTableFlags::WRITE().bits(), 1 << 51);
    assert_eq!(PageTableFlags::Contiguous().bits(), 1 << 52);
    assert_eq!(PageTableFlags::PXN().bits(), 1 << 53);
    assert_eq!(PageTableFlags::UXN().bits(), 1 << 54);
    assert_eq!(PageTableFlags::DIRTY().bits(), 1 << 55);
    assert_eq!(PageTableFlags::SWAPPED().bits(), 1 << 56);
    assert_eq!(PageTableFlags::WRITABLE_SHARED().bits(), 1 << 57);
    assert_eq!(PageTableFlags::READONLY_SHARED().bits(), 1 << 58);
    assert_eq!(PageTableFlags::PXNTable().bits(), 1 << 59);
    assert_eq!(PageTableFlags::XNTable().bits(), 1 << 60);
    assert_eq!(PageTableFlags::APTable_nEL0().bits(), 1 << 61);
    assert_eq!(PageTableFlags::APTable_RO().bits(), 1 << 62);
    assert_eq!(PageTableFlags::NSTable().bits(), 1 << 63);
}

#[test]
fn default_flag_sets() {
    assert_eq!(PageTableFlags::default_table().bits(), 0x3);
    assert_eq!(PageTableFlags::default_block().bits(), 0x401);
    assert_eq!(PageTableFlags::default_page().bits(), 0x403);
    assert_eq!(PageTableFlags::default().bits(), 0x3);
    assert!(PageTableFlags::default_page().contains(PageTableFlags::VALID()));
    assert!(!PageTableFlags::default_block().contains(PageTableFlags::TABLE_OR_PAGE()));
}

#[test]
fn flag_sets_truncate_undefined_bits() {
    let f = PageTableFlags::from_bits_truncate(u64::MAX);
    assert_eq!(f.bits(), FLAG_BITS_ALL);
    assert_eq!(PageTableFlags::empty().bits(), 0);
    let masked = PageTableFlags::from_bits_truncate(0x1_0000);
    assert_eq!(masked.bits(), 0);
    let both = PageTableFlags::VALID().union(PageTableFlags::AF());
    assert_eq!(both.intersection(PageTableFlags::AF()).bits(), 0x400);
}

#[test]
fn masks_partition_the_descriptor() {
    assert_eq!(ADDR_MASK, 0x0000_ffff_ffff_f000);
    assert_eq!(MEMORY_ATTR_MASK, 0x31c);
    assert_eq!(FLAGS_MASK, !(MEMORY_ATTR_MASK | ADDR_MASK));
    assert_eq!(FLAG_BITS_ALL & ADDR_MASK, 0);
    assert_eq!(FLAG_BITS_ALL & MEMORY_ATTR_MASK, 0);
}

#[test]
fn memory_attribute_encodings() {
    assert_eq!(MairNormal::mair_index(), 0);
    assert_eq!(MairDevice::mair_index(), 1);
    assert_eq!(MairNormalNonCacheable::mair_index(), 2);
    // Inner-shareable, attribute index 0.
    assert_eq!(MairNormal::attr_value().value(), 0x300);
    // Outer-shareable, attribute index 1.
    assert_eq!(MairDevice::attr_value().value(), 0x204);
    // Outer-shareable, attribute index 2.
    assert_eq!(MairNormalNonCacheable::attr_value().value(), 0x208);
    assert_eq!(PageTableAttribute::from_bits_truncate(u64::MAX).value(), MEMORY_ATTR_MASK);
}

//! Mapping, translation and unmapping through a recursive page table.

use aarch64::paging::frame_alloc::FrameAllocator;
use aarch64::paging::mapper::{
    EntryGetError, MapToError, MapperAllSizes, TranslateResult, UnmapError,
};
use aarch64::paging::memory_attribute::MairNormal;
use aarch64::paging::page_table::{PageTableAttribute, PageTableFlags};
use aarch64::paging::{Page, PageSize, PhysFrame, RecursivePageTable};
use aarch64::{PhysAddr, VirtAddr};

const REC: u16 = 510;
const ROOT: u64 = 0x10_0000;

struct SeqAlloc {
    frames: Vec<u64>,
    next: usize,
}

impl SeqAlloc {
    fn new(frames: Vec<u64>) -> Self {
        SeqAlloc { frames, next: 0 }
    }

    fn handed_out(&self) -> usize {
        self.next
    }
}

impl FrameAllocator for SeqAlloc {
    fn allocate_frame(&mut self) -> Option<PhysFrame> {
        if self.next < self.frames.len() {
            let addr = self.frames[self.next];
            self.next += 1;
            Some(
                PhysFrame::from_start_address(PhysAddr::new(addr), PageSize::Size4KiB)
                    .expect("test frames are page-aligned"),
            )
        } else {
            None
        }
    }
}

fn root_frame() -> PhysFrame {
    PhysFrame::from_start_address(PhysAddr::new(ROOT), PageSize::Size4KiB).unwrap()
}

fn page_4k(addr: u64) -> Page {
    Page::from_start_address(VirtAddr::new(addr), PageSize::Size4KiB).unwrap()
}

fn frame_4k(addr: u64) -> PhysFrame {
    PhysFrame::from_start_address(PhysAddr::new(addr), PageSize::Size4KiB).unwrap()
}

fn attr() -> PageTableAttribute {
    MairNormal::attr_value()
}

#[test]
fn map_then_translate_page_returns_frame() {
    let mut pt = RecursivePageTable::new(REC, root_frame());
    let mut alloc = SeqAlloc::new(vec![0x20_1000, 0x20_2000, 0x20_3000]);
    let page = page_4k(0x1000);
    let frame = frame_4k(0x2000);
    pt.map_to(page, frame, PageTableFlags::default_page(), attr(), &mut alloc)
        .unwrap()
        .ignore();
    let found = pt.translate_page(page).unwrap();
    assert_eq!(found.start_address().as_u64(), 0x2000);
    assert_eq!(found.size(), PageSize::Size4KiB);
}

#[test]
fn map_then_translate_page_2mib() {
    let mut pt = RecursivePageTable::new(REC, root_frame());
    let mut alloc = SeqAlloc::new(vec![0x20_1000, 0x20_2000]);
    let page = Page::from_start_address(VirtAddr::new(0x4000_0000), PageSize::Size2MiB).unwrap();
    let frame =
        PhysFrame::from_start_address(PhysAddr::new(0x20_0000), PageSize::Size2MiB).unwrap();
    pt.map_to(page, frame, PageTableFlags::default_block(), attr(), &mut alloc)
        .unwrap()
        .ignore();
    let found = pt.translate_page(page).unwrap();
    assert_eq!(found.start_address().as_u64(), 0x20_0000);
    assert_eq!(found.size(), PageSize::Size2MiB);
}

#[test]
fn map_then_translate_page_1gib() {
    let mut pt = RecursivePageTable::new(REC, root_frame());
    let mut alloc = SeqAlloc::new(vec![0x20_1000]);
    let page = Page::from_start_address(VirtAddr::new(0x80_0000_0000), PageSize::Size1GiB).unwrap();
    let frame =
        PhysFrame::from_start_address(PhysAddr::new(0x4000_0000), PageSize::Size1GiB).unwrap();
    pt.map_to(page, frame, PageTableFlags::default_block(), attr(), &mut alloc)
        .unwrap()
        .ignore();
    let found = pt.translate_page(page).unwrap();
    assert_eq!(found.start_address().as_u64(), 0x4000_0000);
    assert_eq!(found.size(), PageSize::Size1GiB);
}

#[test]
fn unmap_returns_mapped_frame_and_clears_entry() {
    let mut pt = RecursivePageTable::new(REC, root_frame());
    let mut alloc = SeqAlloc::new(vec![0x20_1000, 0x20_2000, 0x20_3000]);
    let page = page_4k(0x7000);
    let frame = frame_4k(0x9000);
    pt.map_to(page, frame, PageTableFlags::default_page(), attr(), &mut alloc)
        .unwrap()
        .ignore();
    let (freed, flush) = pt.unmap(page).unwrap();
    flush.ignore();
    assert_eq!(freed.start_address().as_u64(), 0x9000);
    assert_eq!(freed.size(), PageSize::Size4KiB);
    assert_eq!(pt.get_entry(page).unwrap_err(), EntryGetError::PageNotMapped);
    assert!(matches!(
        pt.unmap(page),
        Err(UnmapError::PageNotMapped)
    ));
}

#[test]
fn remapping_mapped_page_fails_and_keeps_mapping() {
    let mut pt = RecursivePageTable::new(REC, root_frame());
    let mut alloc = SeqAlloc::new(vec![0x20_1000, 0x20_2000, 0x20_3000, 0x20_4000]);
    let page = page_4k(0x1000);
    pt.map_to(page, frame_4k(0x2000), PageTableFlags::default_page(), attr(), &mut alloc)
        .unwrap()
        .ignore();
    let again = pt.map_to(
        page,
        frame_4k(0x5000),
        PageTableFlags::default_page(),
        attr(),
        &mut alloc,
    );
    assert!(matches!(again, Err(MapToError::PageAlreadyMapped)));
    let found = pt.translate_page(page).unwrap();
    assert_eq!(found.start_address().as_u64(), 0x2000);
}

#[test]
fn first_mapping_allocates_three_tables_sibling_none() {
    let mut pt = RecursivePageTable::new(REC, root_frame());
    let mut alloc = SeqAlloc::new(vec![0x20_1000, 0x20_2000, 0x20_3000, 0x20_4000]);
    let page = page_4k(0x1000);
    pt.map_to(page, frame_4k(0x2000), PageTableFlags::default_page(), attr(), &mut alloc)
        .unwrap()
        .ignore();
    assert_eq!(alloc.handed_out(), 3);
    let sibling = page_4k(0x2000);
    pt.map_to(sibling, frame_4k(0x3000), PageTableFlags::default_page(), attr(), &mut alloc)
        .unwrap()
        .ignore();
    assert_eq!(alloc.handed_out(), 3);
}

#[test]
fn mapping_under_gib_block_reports_parent_huge_page() {
    let mut pt = RecursivePageTable::new(REC, root_frame());
    let mut alloc = SeqAlloc::new(vec![0x20_1000, 0x20_2000, 0x20_3000]);
    let giant = Page::from_start_address(VirtAddr::new(0x40_0000_0000), PageSize::Size1GiB).unwrap();
    let gframe =
        PhysFrame::from_start_address(PhysAddr::new(0x4000_0000), PageSize::Size1GiB).unwrap();
    pt.map_to(giant, gframe, PageTableFlags::default_block(), attr(), &mut alloc)
        .unwrap()
        .ignore();
    let small = page_4k(0x40_0000_1000);
    let r = pt.map_to(
        small,
        frame_4k(0x2000),
        PageTableFlags::default_page(),
        attr(),
        &mut alloc,
    );
    assert!(matches!(r, Err(MapToError::ParentEntryHugePage)));
}

#[test]
fn allocation_failure_surfaces() {
    let mut pt = RecursivePageTable::new(REC, root_frame());
    let mut empty = SeqAlloc::new(vec![]);
    let r = pt.map_to(
        page_4k(0x1000),
        frame_4k(0x2000),
        PageTableFlags::default_page(),
        attr(),
        &mut empty,
    );
    assert!(matches!(r, Err(MapToError::FrameAllocationFailed)));
    assert_eq!(
        pt.get_entry(page_4k(0x1000)).unwrap_err(),
        EntryGetError::PageNotMapped
    );
}

#[test]
fn partial_allocation_failure_leaves_page_unmapped() {
    let mut pt = RecursivePageTable::new(REC, root_frame());
    let mut short = SeqAlloc::new(vec![0x20_1000, 0x20_2000]);
    let r = pt.map_to(
        page_4k(0x1000),
        frame_4k(0x2000),
        PageTableFlags::default_page(),
        attr(),
        &mut short,
    );
    assert!(matches!(r, Err(MapToError::FrameAllocationFailed)));
    assert!(matches!(
        pt.translate_page(page_4k(0x1000)),
        Err(aarch64::paging::mapper::TranslateError::PageNotMapped)
    ));
}

#[test]
fn concrete_translate_addr_scenario() {
    let mut pt = RecursivePageTable::new(REC, root_frame());
    let mut alloc = SeqAlloc::new(vec![0x20_1000, 0x20_2000, 0x20_3000]);
    let page = page_4k(0x1000);
    let frame = frame_4k(0x2000);
    let flags = PageTableFlags::VALID()
        .union(PageTableFlags::TABLE_OR_PAGE())
        .union(PageTableFlags::AF());
    pt.map_to(page, frame, flags, attr(), &mut alloc).unwrap().ignore();
    let pa = pt.translate_addr(VirtAddr::new(0x1123)).unwrap();
    assert_eq!(pa.as_u64(), 0x2123);
}

#[test]
fn translate_distinguishes_sizes() {
    let mut pt = RecursivePageTable::new(REC, root_frame());
    let mut alloc = SeqAlloc::new(vec![0x20_1000, 0x20_2000, 0x20_3000]);
    let page = page_4k(0x1000);
    pt.map_to(page, frame_4k(0x2000), PageTableFlags::default_page(), attr(), &mut alloc)
        .unwrap()
        .ignore();
    match pt.translate(VirtAddr::new(0x1fff)) {
        TranslateResult::Frame4KiB { frame, offset } => {
            assert_eq!(frame.start_address().as_u64(), 0x2000);
            assert_eq!(offset, 0xfff);
        }
        other => panic!("expected a 4KiB mapping, found {:?}", other),
    }
    assert!(matches!(
        pt.translate(VirtAddr::new(0xdead_0000)),
        TranslateResult::PageNotMapped
    ));
}

#[test]
fn translate_page_wrong_size_reports_invalid_frame_address() {
    let mut pt = RecursivePageTable::new(REC, root_frame());
    let mut alloc = SeqAlloc::new(vec![0x20_1000, 0x20_2000, 0x20_3000]);
    let page = page_4k(0x1000);
    pt.map_to(page, frame_4k(0x2000), PageTableFlags::default_page(), attr(), &mut alloc)
        .unwrap()
        .ignore();
    // Read at 2MiB granularity: the level-2 descriptor points at the
    // level-1 table frame, which is not 2MiB-aligned.
    let as_2m = Page::from_start_address(VirtAddr::new(0), PageSize::Size2MiB).unwrap();
    match pt.translate_page(as_2m) {
        Err(aarch64::paging::mapper::TranslateError::InvalidFrameAddress(a)) => {
            assert_eq!(a.as_u64(), 0x20_3000);
        }
        other => panic!("expected a misaligned frame address, found {:?}", other),
    }
}

#[test]
fn update_flags_replaces_only_flags() {
    let mut pt = RecursivePageTable::new(REC, root_frame());
    let mut alloc = SeqAlloc::new(vec![0x20_1000, 0x20_2000, 0x20_3000]);
    let page = page_4k(0x1000);
    pt.map_to(page, frame_4k(0x2000), PageTableFlags::default_page(), attr(), &mut alloc)
        .unwrap()
        .ignore();
    let new_flags = PageTableFlags::default_page().union(PageTableFlags::AP_RO());
    pt.update_flags(page, new_flags).unwrap().ignore();
    let entry = pt.get_entry(page).unwrap();
    assert_eq!(entry.flags().bits(), new_flags.bits());
    assert_eq!(entry.addr().as_u64(), 0x2000);
    assert_eq!(entry.attr().value(), attr().value());
    assert!(matches!(
        pt.update_flags(page_4k(0x80_0000), PageTableFlags::default_page()),
        Err(aarch64::paging::mapper::FlagUpdateError::PageNotMapped)
    ));
}

#[test]
fn identity_map_maps_frame_at_own_address() {
    let mut pt = RecursivePageTable::new(REC, root_frame());
    let mut alloc = SeqAlloc::new(vec![0x20_1000, 0x20_2000, 0x20_3000]);
    let frame = frame_4k(0x3_4000);
    pt.identity_map(frame, PageTableFlags::default_page(), attr(), &mut alloc)
        .unwrap()
        .ignore();
    let pa = pt.translate_addr(VirtAddr::new(0x3_4010)).unwrap();
    assert_eq!(pa.as_u64(), 0x3_4010);
}

#[test]
fn recursive_addressing_reaches_the_level_tables() {
    let mut pt = RecursivePageTable::new(REC, root_frame());
    let mut alloc = SeqAlloc::new(vec![0x20_1000, 0x20_2000, 0x20_3000]);
    let page = Page::from_page_table_indices(1, 2, 3, 4);
    pt.map_to(page, frame_4k(0x2000), PageTableFlags::default_page(), attr(), &mut alloc)
        .unwrap()
        .ignore();
    // The level-1 table governing the page was the third frame the
    // allocator handed out; the (R, i4, i3, i2) address must resolve to
    // exactly that frame.
    let p1 = pt.p1_page(page);
    let pa = pt.translate_addr(p1.start_address()).unwrap();
    assert_eq!(pa.as_u64(), 0x20_3000);
    // The level-2 and level-3 addresses resolve to the other two.
    let p2 = pt.p2_page(page);
    assert_eq!(pt.translate_addr(p2.start_address()).unwrap().as_u64(), 0x20_2000);
    let p3 = pt.p3_page(page);
    assert_eq!(pt.translate_addr(p3.start_address()).unwrap().as_u64(), 0x20_1000);
    // Four recursive indices in a row name the root table itself.
    let p4 = pt.p4_page(page);
    assert_eq!(pt.translate_addr(p4.start_address()).unwrap().as_u64(), ROOT);
}

#[test]
fn size_generic_resolution_through_the_trait() {
    fn resolve<M: MapperAllSizes>(mapper: &M, addr: u64) -> Option<u64> {
        mapper.translate_addr(VirtAddr::new(addr)).map(|a| a.as_u64())
    }

    let mut pt = RecursivePageTable::new(REC, root_frame());
    let mut alloc = SeqAlloc::new(vec![0x20_1000, 0x20_2000, 0x20_3000]);
    pt.map_to(page_4k(0x1000), frame_4k(0x2000), PageTableFlags::default_page(), attr(), &mut alloc)
        .unwrap()
        .ignore();
    assert_eq!(resolve(&pt, 0x1040), Some(0x2040));
    assert_eq!(resolve(&pt, 0x9000), None);
}

#[test]
fn unmap_huge_of_fine_grained_region_reports_not_mapped() {
    let mut pt = RecursivePageTable::new(REC, root_frame());
    let mut alloc = SeqAlloc::new(vec![0x20_1000, 0x20_2000, 0x20_3000]);
    pt.map_to(page_4k(0x1000), frame_4k(0x2000), PageTableFlags::default_page(), attr(), &mut alloc)
        .unwrap()
        .ignore();
    let as_2m = Page::from_start_address(VirtAddr::new(0), PageSize::Size2MiB).unwrap();
    assert!(matches!(pt.unmap(as_2m), Err(UnmapError::PageNotMapped)));
}

#[test]
fn unmap_2mib_block_returns_frame() {
    let mut pt = RecursivePageTable::new(REC, root_frame());
    let mut alloc = SeqAlloc::new(vec![0x20_1000, 0x20_2000]);
    let page = Page::from_start_address(VirtAddr::new(0x4000_0000), PageSize::Size2MiB).unwrap();
    let frame =
        PhysFrame::from_start_address(PhysAddr::new(0x60_0000), PageSize::Size2MiB).unwrap();
    pt.map_to(page, frame, PageTableFlags::default_block(), attr(), &mut alloc)
        .unwrap()
        .ignore();
    let (freed, flush) = pt.unmap(page).unwrap();
    flush.flush();
    assert_eq!(freed.start_address().as_u64(), 0x60_0000);
    assert_eq!(freed.size(), PageSize::Size2MiB);
}

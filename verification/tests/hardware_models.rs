//! Register value models: translation-table base registers, cache type
//! register and exception syndrome register; the shared cache range walk.

use aarch64::barrier::NSH;
use aarch64::cache::{get_l1_icache_policy, Cache, L1ICachePolicy};
use aarch64::paging::{PageSize, PhysFrame};
use aarch64::registers::ctr_el0;
use aarch64::regs::esr_el1;
use aarch64::translation::{
    ttbr_el1_read, ttbr_el1_read_asid, ttbr_el1_write, ttbr_el1_write_asid, TtbrRegisters,
};
use aarch64::PhysAddr;

fn frame(addr: u64) -> PhysFrame {
    PhysFrame::from_start_address(PhysAddr::new(addr), PageSize::Size4KiB).unwrap()
}

#[test]
fn ttbr_write_then_read_round_trips() {
    let mut regs = TtbrRegisters::new(0, 0);
    ttbr_el1_write(0, frame(0x8_1000), &mut regs);
    assert_eq!(regs.ttbr0_el1(), 0x8_1000);
    let read = ttbr_el1_read(0, &regs);
    assert_eq!(read.start_address().as_u64(), 0x8_1000);
    // The other register is untouched, and an out-of-range selector
    // reads as frame zero.
    assert_eq!(regs.ttbr1_el1(), 0);
    assert_eq!(ttbr_el1_read(7, &regs).start_address().as_u64(), 0);
}

#[test]
fn ttbr_asid_packing() {
    let mut regs = TtbrRegisters::new(0, 0);
    ttbr_el1_write_asid(1, 0xbeef, frame(0x40_2000), &mut regs);
    assert_eq!(regs.ttbr1_el1(), (0xbeefu64 << 48) | 0x40_2000);
    let (asid, root) = ttbr_el1_read_asid(1, &regs);
    assert_eq!(asid, 0xbeef);
    assert_eq!(root.start_address().as_u64(), 0x40_2000);
    // Writing the plain base clears the identifier.
    ttbr_el1_write(1, frame(0x40_2000), &mut regs);
    let (asid, _) = ttbr_el1_read_asid(1, &regs);
    assert_eq!(asid, 0);
}

#[test]
fn ctr_el0_field_decoding() {
    // DminLine = 4, L1Ip = PIPT (0b11), IminLine = 2.
    let value = (4u64 << 16) | (0b11u64 << 14) | 2;
    let ctr = ctr_el0::Reg::new(value);
    assert_eq!(ctr.dmin_line(), 4);
    assert_eq!(ctr.l1ip(), 0b11);
    assert_eq!(ctr.imin_line(), 2);
    assert_eq!(get_l1_icache_policy(&ctr), L1ICachePolicy::PIPT);
    let vipt = ctr_el0::Reg::new(0b10u64 << 14);
    assert_eq!(get_l1_icache_policy(&vipt), L1ICachePolicy::VIPT);
    let other = ctr_el0::Reg::new(0b01u64 << 14);
    assert_eq!(get_l1_icache_policy(&other), L1ICachePolicy::Unsupport);
}

#[test]
fn cache_range_walk_visits_whole_lines() {
    // A line size of 4 << 4 = 64 bytes; the walk must start on a line
    // boundary and advance line by line.
    struct LineChecker;

    impl Cache for LineChecker {
        fn flush_line_op(vaddr: usize) {
            assert_eq!(vaddr % 64, 0, "line operation off a line boundary");
        }

        fn cache_line_size() -> u64 {
            4
        }

        fn flush_complete<A: aarch64::barrier::Dsb>(_domain: A) {}
    }

    LineChecker::flush_range(0x1010, 0x1100, NSH);
    LineChecker::flush_area(0x2000, 0x85, NSH);
}

#[test]
fn esr_el1_field_decoding() {
    // EC = 0x24 (data abort from a lower level), ISS = 0x45.
    let mut esr = esr_el1::Reg::new((0x24u64 << 26) | 0x45);
    assert_eq!(esr.ec(), 0x24);
    assert_eq!(esr.iss(), 0x45);
    esr.set(0);
    assert_eq!(esr.get(), 0);
}

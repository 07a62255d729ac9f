//! Translation-table-base register state and its field encoding.
//!
//! The two translation-table base registers select the root frame (and
//! address-space identifier) of the active address spaces. The register
//! accesses themselves are privileged and live in the hardware layer
//! around this crate; this module models the registers as an explicitly
//! passed value pair and verifies the field packing, so the same code
//! runs against captured values in tests.

use vstd::prelude::*;

use crate::addr::PhysAddr;
use crate::paging::frame::PhysFrame;
use crate::paging::page::PageSize;

verus! {

/// The base-address field of a translation-table base register:
/// bits 1..=47, holding the root frame address shifted right by one.
pub const TTBR_BADDR_MASK: u64 = 0x0000_ffff_ffff_fffe;

/// A value pair of the two translation-table base registers.
#[derive(Clone, Copy, PartialEq, Eq, Structural, Debug)]
pub struct TtbrRegisters {
    ttbr0_el1: u64,
    ttbr1_el1: u64,
}

impl View for TtbrRegisters {
    type V = (u64, u64);

    closed spec fn view(&self) -> (u64, u64) {
        (self.ttbr0_el1, self.ttbr1_el1)
    }
}

impl TtbrRegisters {
    /// Wraps a captured pair of register values.
    pub fn new(ttbr0_el1: u64, ttbr1_el1: u64) -> (r: Self)
        ensures
            r@ == (ttbr0_el1, ttbr1_el1),
    {
        TtbrRegisters { ttbr0_el1, ttbr1_el1 }
    }

    /// The held value of the low-half register.
    pub fn ttbr0_el1(&self) -> (r: u64)
        ensures
            r == self@.0,
    {
        self.ttbr0_el1
    }

    /// The held value of the high-half register.
    pub fn ttbr1_el1(&self) -> (r: u64)
        ensures
            r == self@.1,
    {
        self.ttbr1_el1
    }
}

proof fn lemma_ttbr_read_fields(reg: u64)
    by (bit_vector)
    ensures
        (reg & 0x0000_ffff_ffff_fffeu64) < 0x1_0000_0000_0000u64,
        (reg >> 48) & 0xffffu64 <= 0xffffu64,
        0u64 & !0xfffu64 == 0,
        0u64 & 0xfffu64 == 0,
{
}

proof fn lemma_ttbr_write_fields(asid: u64, base: u64)
    by (bit_vector)
    requires
        asid < 0x1_0000,
        base < 0x1_0000_0000_0000,
        base & 0xfffu64 == 0,
    ensures
        base & 0x0000_ffff_ffff_fffeu64 == base,
        ((asid << 48) | base) & 0x0000_ffff_ffff_fffeu64 == base,
        (((asid << 48) | base) >> 48) & 0xffffu64 == asid,
{
}

/// Reads the selected translation-table base register as the physical
/// frame of the root table it points at. An out-of-range selector reads
/// as base address zero.
pub fn ttbr_el1_read(which: u8, regs: &TtbrRegisters) -> (r: PhysFrame)
    ensures
        which == 0 ==> r.spec_start() == crate::addr::spec_align_down(
            self_baddr(regs@.0),
            0x1000,
        ),
        which == 1 ==> r.spec_start() == crate::addr::spec_align_down(
            self_baddr(regs@.1),
            0x1000,
        ),
        which != 0 && which != 1 ==> r.spec_start() == 0,
        r.spec_size() == PageSize::Size4KiB,
{
    proof {
        lemma_ttbr_read_fields(regs@.0);
        lemma_ttbr_read_fields(regs@.1);
    }
    let baddr: u64 = match which {
        0 => regs.ttbr0_el1() & TTBR_BADDR_MASK,
        1 => regs.ttbr1_el1() & TTBR_BADDR_MASK,
        _ => 0,
    };
    PhysFrame::containing_address(PhysAddr::new(baddr), PageSize::Size4KiB)
}

/// The base address a translation-table base register value carries.
pub open spec fn self_baddr(reg: u64) -> u64 {
    reg & TTBR_BADDR_MASK
}

/// Writes the root frame into the selected translation-table base
/// register, clearing its address-space identifier. An out-of-range
/// selector changes nothing.
pub fn ttbr_el1_write(which: u8, frame: PhysFrame, regs: &mut TtbrRegisters)
    requires
        frame.spec_size() == PageSize::Size4KiB,
    ensures
        which == 0 ==> final(regs)@ == (frame.spec_start(), old(regs)@.1),
        which == 1 ==> final(regs)@ == (old(regs)@.0, frame.spec_start()),
        which != 0 && which != 1 ==> final(regs)@ == old(regs)@,
{
    proof {
        use_type_invariant(frame);
        crate::paging::page::PageSize::Size4KiB.lemma_size_power_of_two();
        lemma_ttbr_write_fields(0, frame.spec_start());
    }
    let baddr = frame.start_address().as_u64() & TTBR_BADDR_MASK;
    match which {
        0 => {
            regs.ttbr0_el1 = baddr;
        },
        1 => {
            regs.ttbr1_el1 = baddr;
        },
        _ => {},
    }
}

/// Reads the selected translation-table base register as its
/// address-space identifier and root frame. An out-of-range selector
/// reads as zero.
pub fn ttbr_el1_read_asid(which: u8, regs: &TtbrRegisters) -> (r: (u16, PhysFrame))
    ensures
        which == 0 ==> r.0 as u64 == (regs@.0 >> 48) & 0xffff && r.1.spec_start()
            == crate::addr::spec_align_down(self_baddr(regs@.0), 0x1000),
        which == 1 ==> r.0 as u64 == (regs@.1 >> 48) & 0xffff && r.1.spec_start()
            == crate::addr::spec_align_down(self_baddr(regs@.1), 0x1000),
        which != 0 && which != 1 ==> r.0 == 0 && r.1.spec_start() == 0,
        r.1.spec_size() == PageSize::Size4KiB,
{
    proof {
        lemma_ttbr_read_fields(regs@.0);
        lemma_ttbr_read_fields(regs@.1);
    }
    let (asid, baddr): (u64, u64) = match which {
        0 => (((regs.ttbr0_el1() >> 48) & 0xffff), regs.ttbr0_el1() & TTBR_BADDR_MASK),
        1 => (((regs.ttbr1_el1() >> 48) & 0xffff), regs.ttbr1_el1() & TTBR_BADDR_MASK),
        _ => (0, 0),
    };
    (asid as u16, PhysFrame::containing_address(PhysAddr::new(baddr), PageSize::Size4KiB))
}

/// Writes an address-space identifier and root frame into the selected
/// translation-table base register. An out-of-range selector changes
/// nothing.
pub fn ttbr_el1_write_asid(which: u8, asid: u16, frame: PhysFrame, regs: &mut TtbrRegisters)
    requires
        frame.spec_size() == PageSize::Size4KiB,
    ensures
        which == 0 ==> final(regs)@ == ((((asid as u64) << 48) | frame.spec_start()), old(
            regs,
        )@.1),
        which == 1 ==> final(regs)@ == (old(regs)@.0, (((asid as u64) << 48)
            | frame.spec_start())),
        which != 0 && which != 1 ==> final(regs)@ == old(regs)@,
{
    proof {
        use_type_invariant(frame);
        crate::paging::page::PageSize::Size4KiB.lemma_size_power_of_two();
        lemma_ttbr_write_fields(asid as u64, frame.spec_start());
    }
    let value = ((asid as u64) << 48) | (frame.start_address().as_u64() & TTBR_BADDR_MASK);
    match which {
        0 => {
            regs.ttbr0_el1 = value;
        },
        1 => {
            regs.ttbr1_el1 = value;
        },
        _ => {},
    }
}

} // verus!

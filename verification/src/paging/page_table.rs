//! Translation tables and the 64-bit descriptors they hold.

use vstd::pervasive::VecAdditionalExecFns;
use vstd::prelude::*;

use crate::addr::{spec_align_down, spec_is_aligned, PhysAddr, MAX_PHYS_ADDR};
use crate::paging::frame::PhysFrame;
use crate::paging::page::PageSize;

verus! {

/// Output address mask: bits 12..=47 of a descriptor.
pub const ADDR_MASK: u64 = 0x0000_ffff_ffff_f000;

/// Memory attribute fields mask: the 3-bit attribute-table index
/// (bits 2..=4) and the 2-bit shareability field (bits 8..=9).
pub const MEMORY_ATTR_MASK: u64 = 0x31c;

/// Everything outside the output address and the memory attribute fields.
pub const FLAGS_MASK: u64 = 0xffff_0000_0000_0ce3;

/// The union of all defined flag bits.
pub const FLAG_BITS_ALL: u64 = 0xfff8_0000_0000_0ce3;

/// The error returned by [`PageTableEntry::frame`].
#[derive(Debug, Clone, Copy, PartialEq, Eq, Structural)]
pub enum FrameError {
    /// The entry does not have the `VALID` flag set, so it is not
    /// currently mapped to a frame.
    FrameNotPresent,
    /// The entry is a block descriptor. `frame` returns a standard 4KiB
    /// frame, so a huge frame cannot be returned; use `addr` instead.
    HugeFrame,
}

/// Possible flags for a translation-table descriptor.
#[derive(Clone, Copy, PartialEq, Eq, Structural, Debug)]
pub struct PageTableFlags {
    bits: u64,
}

impl View for PageTableFlags {
    type V = u64;

    closed spec fn view(&self) -> u64 {
        self.bits
    }
}

proof fn lemma_flag_closure(a: u64, b: u64)
    by (bit_vector)
    requires
        a & !0xfff8_0000_0000_0ce3u64 == 0,
        b & !0xfff8_0000_0000_0ce3u64 == 0,
    ensures
        (a | b) & !0xfff8_0000_0000_0ce3u64 == 0,
        (a & b) & !0xfff8_0000_0000_0ce3u64 == 0,
{
}

proof fn lemma_truncate_closure(b: u64)
    by (bit_vector)
    ensures
        (b & 0xfff8_0000_0000_0ce3u64) & !0xfff8_0000_0000_0ce3u64 == 0,
        (b & 0x31cu64) & !0x31cu64 == 0,
{
}

/// Each defined flag value and attribute value survives truncation to its
/// mask unchanged.
pub(crate) proof fn lemma_constant_masks()
    by (bit_vector)
    ensures
        0x1u64 & 0xfff8_0000_0000_0ce3u64 == 0x1u64,
        0x2u64 & 0xfff8_0000_0000_0ce3u64 == 0x2u64,
        0x3u64 & 0xfff8_0000_0000_0ce3u64 == 0x3u64,
        0x20u64 & 0xfff8_0000_0000_0ce3u64 == 0x20u64,
        0x40u64 & 0xfff8_0000_0000_0ce3u64 == 0x40u64,
        0x80u64 & 0xfff8_0000_0000_0ce3u64 == 0x80u64,
        0x400u64 & 0xfff8_0000_0000_0ce3u64 == 0x400u64,
        0x401u64 & 0xfff8_0000_0000_0ce3u64 == 0x401u64,
        0x403u64 & 0xfff8_0000_0000_0ce3u64 == 0x403u64,
        0x800u64 & 0xfff8_0000_0000_0ce3u64 == 0x800u64,
        0x8_0000_0000_0000u64 & 0xfff8_0000_0000_0ce3u64 == 0x8_0000_0000_0000u64,
        0x10_0000_0000_0000u64 & 0xfff8_0000_0000_0ce3u64 == 0x10_0000_0000_0000u64,
        0x20_0000_0000_0000u64 & 0xfff8_0000_0000_0ce3u64 == 0x20_0000_0000_0000u64,
        0x40_0000_0000_0000u64 & 0xfff8_0000_0000_0ce3u64 == 0x40_0000_0000_0000u64,
        0x80_0000_0000_0000u64 & 0xfff8_0000_0000_0ce3u64 == 0x80_0000_0000_0000u64,
        0x100_0000_0000_0000u64 & 0xfff8_0000_0000_0ce3u64 == 0x100_0000_0000_0000u64,
        0x200_0000_0000_0000u64 & 0xfff8_0000_0000_0ce3u64 == 0x200_0000_0000_0000u64,
        0x400_0000_0000_0000u64 & 0xfff8_0000_0000_0ce3u64 == 0x400_0000_0000_0000u64,
        0x800_0000_0000_0000u64 & 0xfff8_0000_0000_0ce3u64 == 0x800_0000_0000_0000u64,
        0x1000_0000_0000_0000u64 & 0xfff8_0000_0000_0ce3u64 == 0x1000_0000_0000_0000u64,
        0x2000_0000_0000_0000u64 & 0xfff8_0000_0000_0ce3u64 == 0x2000_0000_0000_0000u64,
        0x4000_0000_0000_0000u64 & 0xfff8_0000_0000_0ce3u64 == 0x4000_0000_0000_0000u64,
        0x8000_0000_0000_0000u64 & 0xfff8_0000_0000_0ce3u64 == 0x8000_0000_0000_0000u64,
        0x300u64 & 0x31cu64 == 0x300u64,
        0x3u64 & 0x2u64 == 0x2u64,
        0x3u64 & 0x1u64 == 0x1u64,
        0x403u64 & 0x2u64 == 0x2u64,
        0x403u64 & 0x1u64 == 0x1u64,
        0x401u64 & 0x2u64 == 0u64,
        0x401u64 & 0x1u64 == 0x1u64,
        0u64 & 0x2u64 == 0u64,
        0u64 & 0x1u64 == 0u64,
        0u64 & 0x0000_ffff_ffff_f000u64 == 0u64,
        0x204u64 & 0x31cu64 == 0x204u64,
        0x208u64 & 0x31cu64 == 0x208u64,
        0u64 & !0xfff8_0000_0000_0ce3u64 == 0,
        0x3u64 & !0xfff8_0000_0000_0ce3u64 == 0,
        0x403u64 & !0xfff8_0000_0000_0ce3u64 == 0,
        0x401u64 & !0xfff8_0000_0000_0ce3u64 == 0,
        0x300u64 & !0x31cu64 == 0,
        0x204u64 & !0x31cu64 == 0,
        0x208u64 & !0x31cu64 == 0,
{
}

impl PageTableFlags {
    /// Flag sets only ever carry defined flag bits.
    #[verifier::type_invariant]
    pub open spec fn wf(self) -> bool {
        self@ & !FLAG_BITS_ALL == 0
    }

    /// The raw bits of the flag set.
    pub fn bits(self) -> (r: u64)
        ensures
            r == self@,
    {
        self.bits
    }

    /// No flags set.
    pub fn empty() -> (r: Self)
        ensures
            r@ == 0,
    {
        proof {
            assert(0u64 & !0xfff8_0000_0000_0ce3u64 == 0) by (bit_vector);
        }
        PageTableFlags { bits: 0 }
    }

    /// The flag set holding exactly the defined bits of `bits`.
    pub fn from_bits_truncate(bits: u64) -> (r: Self)
        ensures
            r@ == bits & FLAG_BITS_ALL,
    {
        proof {
            lemma_truncate_closure(bits);
        }
        PageTableFlags { bits: bits & FLAG_BITS_ALL }
    }

    /// Whether every flag of `other` is also set in `self`.
    pub fn contains(self, other: Self) -> (r: bool)
        ensures
            r == (self@ & other@ == other@),
    {
        self.bits & other.bits == other.bits
    }

    /// The flags set in `self` or in `other`.
    pub fn union(self, other: Self) -> (r: Self)
        ensures
            r@ == (self@ | other@),
    {
        proof {
            use_type_invariant(self);
            use_type_invariant(other);
            lemma_flag_closure(self.bits, other.bits);
        }
        PageTableFlags { bits: self.bits | other.bits }
    }

    /// The flags set in both `self` and `other`.
    pub fn intersection(self, other: Self) -> (r: Self)
        ensures
            r@ == (self@ & other@),
    {
        proof {
            use_type_invariant(self);
            use_type_invariant(other);
            lemma_flag_closure(self.bits, other.bits);
        }
        PageTableFlags { bits: self.bits & other.bits }
    }
}

#[allow(non_snake_case)]
impl PageTableFlags {
    /// Identifies whether the descriptor is valid.
    pub fn VALID() -> (r: Self)
        ensures
            r@ == 0x1u64,
    {
        proof {
            lemma_constant_masks();
        }
        Self::from_bits_truncate(0x1)
    }

    /// The descriptor type: 0 = block, 1 = table or page.
    pub fn TABLE_OR_PAGE() -> (r: Self)
        ensures
            r@ == 0x2u64,
    {
        proof {
            lemma_constant_masks();
        }
        Self::from_bits_truncate(0x2)
    }

    /// Non-secure bit.
    pub fn NS() -> (r: Self)
        ensures
            r@ == 0x20u64,
    {
        proof {
            lemma_constant_masks();
        }
        Self::from_bits_truncate(0x20)
    }

    /// Access permission: accessible at EL0.
    pub fn AP_EL0() -> (r: Self)
        ensures
            r@ == 0x40u64,
    {
        proof {
            lemma_constant_masks();
        }
        Self::from_bits_truncate(0x40)
    }

    /// Access permission: read-only.
    pub fn AP_RO() -> (r: Self)
        ensures
            r@ == 0x80u64,
    {
        proof {
            lemma_constant_masks();
        }
        Self::from_bits_truncate(0x80)
    }

    /// Access flag.
    pub fn AF() -> (r: Self)
        ensures
            r@ == 0x400u64,
    {
        proof {
            lemma_constant_masks();
        }
        Self::from_bits_truncate(0x400)
    }

    /// Not-global bit.
    pub fn nG() -> (r: Self)
        ensures
            r@ == 0x800u64,
    {
        proof {
            lemma_constant_masks();
        }
        Self::from_bits_truncate(0x800)
    }

    /// Dirty bit modifier.
    pub fn DBM() -> (r: Self)
        ensures
            r@ == 0x8_0000_0000_0000u64,
    {
        proof {
            lemma_constant_masks();
        }
        Self::from_bits_truncate(0x8_0000_0000_0000)
    }

    /// A hint that this entry is one of a contiguous set of entries.
    pub fn Contiguous() -> (r: Self)
        ensures
            r@ == 0x10_0000_0000_0000u64,
    {
        proof {
            lemma_constant_masks();
        }
        Self::from_bits_truncate(0x10_0000_0000_0000)
    }

    /// Privileged execute-never.
    pub fn PXN() -> (r: Self)
        ensures
            r@ == 0x20_0000_0000_0000u64,
    {
        proof {
            lemma_constant_masks();
        }
        Self::from_bits_truncate(0x20_0000_0000_0000)
    }

    /// Execute-never / unprivileged execute-never.
    pub fn UXN() -> (r: Self)
        ensures
            r@ == 0x40_0000_0000_0000u64,
    {
        proof {
            lemma_constant_masks();
        }
        Self::from_bits_truncate(0x40_0000_0000_0000)
    }

    /// Software dirty bit modifier (same bit as `DBM`).
    pub fn WRITE() -> (r: Self)
        ensures
            r@ == 0x8_0000_0000_0000u64,
    {
        proof {
            lemma_constant_masks();
        }
        Self::from_bits_truncate(0x8_0000_0000_0000)
    }

    /// Software dirty bit.
    pub fn DIRTY() -> (r: Self)
        ensures
            r@ == 0x80_0000_0000_0000u64,
    {
        proof {
            lemma_constant_masks();
        }
        Self::from_bits_truncate(0x80_0000_0000_0000)
    }

    /// Software swapped bit.
    pub fn SWAPPED() -> (r: Self)
        ensures
            r@ == 0x100_0000_0000_0000u64,
    {
        proof {
            lemma_constant_masks();
        }
        Self::from_bits_truncate(0x100_0000_0000_0000)
    }

    /// Software writable shared bit for copy-on-write.
    pub fn WRITABLE_SHARED() -> (r: Self)
        ensures
            r@ == 0x200_0000_0000_0000u64,
    {
        proof {
            lemma_constant_masks();
        }
        Self::from_bits_truncate(0x200_0000_0000_0000)
    }

    /// Software read-only shared bit for copy-on-write.
    pub fn READONLY_SHARED() -> (r: Self)
        ensures
            r@ == 0x400_0000_0000_0000u64,
    {
        proof {
            lemma_constant_masks();
        }
        Self::from_bits_truncate(0x400_0000_0000_0000)
    }

    /// Privileged execute-never for table descriptors.
    pub fn PXNTable() -> (r: Self)
        ensures
            r@ == 0x800_0000_0000_0000u64,
    {
        proof {
            lemma_constant_masks();
        }
        Self::from_bits_truncate(0x800_0000_0000_0000)
    }

    /// Execute-never for table descriptors.
    pub fn XNTable() -> (r: Self)
        ensures
            r@ == 0x1000_0000_0000_0000u64,
    {
        proof {
            lemma_constant_masks();
        }
        Self::from_bits_truncate(0x1000_0000_0000_0000)
    }

    /// Access permission: EL0 access not permitted, for table descriptors.
    pub fn APTable_nEL0() -> (r: Self)
        ensures
            r@ == 0x2000_0000_0000_0000u64,
    {
        proof {
            lemma_constant_masks();
        }
        Self::from_bits_truncate(0x2000_0000_0000_0000)
    }

    /// Access permission: read-only, for table descriptors.
    pub fn APTable_RO() -> (r: Self)
        ensures
            r@ == 0x4000_0000_0000_0000u64,
    {
        proof {
            lemma_constant_masks();
        }
        Self::from_bits_truncate(0x4000_0000_0000_0000)
    }

    /// Non-secure bit for table descriptors.
    pub fn NSTable() -> (r: Self)
        ensures
            r@ == 0x8000_0000_0000_0000u64,
    {
        proof {
            lemma_constant_masks();
        }
        Self::from_bits_truncate(0x8000_0000_0000_0000)
    }

    /// Default flags for a table descriptor: `VALID | TABLE_OR_PAGE`.
    pub fn default_table() -> (r: Self)
        ensures
            r@ == 0x3u64,
            r@ & 0x1u64 == 0x1u64,
            r@ & 0x2u64 == 0x2u64,
    {
        proof {
            lemma_constant_masks();
        }
        Self::from_bits_truncate(0x3)
    }

    /// Default flags for a block descriptor: `VALID | AF`.
    pub fn default_block() -> (r: Self)
        ensures
            r@ == 0x401u64,
            r@ & 0x1u64 == 0x1u64,
            r@ & 0x2u64 == 0u64,
    {
        proof {
            lemma_constant_masks();
        }
        Self::from_bits_truncate(0x401)
    }

    /// Default flags for a page descriptor: `VALID | TABLE_OR_PAGE | AF`.
    pub fn default_page() -> (r: Self)
        ensures
            r@ == 0x403u64,
            r@ & 0x1u64 == 0x1u64,
            r@ & 0x2u64 == 0x2u64,
    {
        proof {
            lemma_constant_masks();
        }
        Self::from_bits_truncate(0x403)
    }
}

impl Default for PageTableFlags {
    /// The flags a freshly linked intermediate table descriptor carries.
    fn default() -> (r: Self)
        ensures
            r@ == 0x3u64,
    {
        Self::default_table()
    }
}

/// Memory attribute fields of a descriptor: the attribute-table index and
/// the shareability field, already placed at their bit positions.
#[derive(Clone, Copy, PartialEq, Eq, Structural, Debug)]
pub struct PageTableAttribute {
    value: u64,
}

impl View for PageTableAttribute {
    type V = u64;

    closed spec fn view(&self) -> u64 {
        self.value
    }
}

impl PageTableAttribute {
    /// Attribute values only ever carry the memory attribute bits.
    #[verifier::type_invariant]
    pub open spec fn wf(self) -> bool {
        self@ & !MEMORY_ATTR_MASK == 0
    }

    /// The raw bits of the attribute fields.
    pub fn value(self) -> (r: u64)
        ensures
            r == self@,
    {
        self.value
    }

    /// The attribute fields holding exactly the attribute bits of `value`.
    pub fn from_bits_truncate(value: u64) -> (r: Self)
        ensures
            r@ == value & MEMORY_ATTR_MASK,
    {
        proof {
            lemma_truncate_closure(value);
        }
        PageTableAttribute { value: value & MEMORY_ATTR_MASK }
    }
}

/// A 64-bit translation-table descriptor.
#[derive(Clone, Copy, PartialEq, Eq, Structural, Debug)]
pub struct PageTableEntry {
    entry: u64,
}

impl View for PageTableEntry {
    type V = u64;

    closed spec fn view(&self) -> u64 {
        self.entry
    }
}

pub(crate) proof fn lemma_entry_masks(e: u64)
    by (bit_vector)
    ensures
        (e & 0xfff8_0000_0000_0ce3u64) & !0xfff8_0000_0000_0ce3u64 == 0,
        (e & 0x31cu64) & !0x31cu64 == 0,
        (e & 0x0000_ffff_ffff_f000u64) < 0x1_0000_0000_0000u64,
        (e & 0x0000_ffff_ffff_f000u64) & 0xfffu64 == 0,
        (e & 0x0000_ffff_ffff_f000u64) & !0xfffu64 == e & 0x0000_ffff_ffff_f000u64,
        (e & 0xfff8_0000_0000_0ce3u64) & 0x1u64 == e & 0x1u64,
        (e & 0xfff8_0000_0000_0ce3u64) & 0x2u64 == e & 0x2u64,
        e & 0x1u64 == 0 || e & 0x1u64 == 0x1u64,
        e & 0x2u64 == 0 || e & 0x2u64 == 0x2u64,
{
}

pub(crate) proof fn lemma_encode(a: u64, f: u64, t: u64)
    by (bit_vector)
    requires
        a < 0x1_0000_0000_0000u64,
        a & 0xfffu64 == 0,
        f & !0xfff8_0000_0000_0ce3u64 == 0,
        t & !0x31cu64 == 0,
    ensures
        (a | f | t) & 0x0000_ffff_ffff_f000u64 == a,
        (a | f | t) & 0xfff8_0000_0000_0ce3u64 == f,
        (a | f | t) & 0x31cu64 == t,
        (a | f | t) & 0x1u64 == f & 0x1u64,
        (a | f | t) & 0x2u64 == f & 0x2u64,
        ((a | f | t) == 0 <==> (a == 0 && f == 0 && t == 0)),
{
}

proof fn lemma_set_flags_masks(e: u64, f: u64)
    by (bit_vector)
    requires
        f & !0xfff8_0000_0000_0ce3u64 == 0,
    ensures
        ((e & !0xffff_0000_0000_0ce3u64) | f) & 0xfff8_0000_0000_0ce3u64 == f,
        ((e & !0xffff_0000_0000_0ce3u64) | f) & 0x31cu64 == e & 0x31cu64,
        ((e & !0xffff_0000_0000_0ce3u64) | f) & 0x0000_ffff_ffff_f000u64 == e
            & 0x0000_ffff_ffff_f000u64,
{
}

proof fn lemma_set_attr_masks(e: u64, t: u64)
    by (bit_vector)
    requires
        t & !0x31cu64 == 0,
    ensures
        ((e & !0x31cu64) | t) & 0x31cu64 == t,
        ((e & !0x31cu64) | t) & 0xfff8_0000_0000_0ce3u64 == e & 0xfff8_0000_0000_0ce3u64,
        ((e & !0x31cu64) | t) & 0x0000_ffff_ffff_f000u64 == e & 0x0000_ffff_ffff_f000u64,
{
}

pub(crate) proof fn lemma_coarser_alignment(x: u64)
    by (bit_vector)
    ensures
        x & 0x1f_ffffu64 == 0 ==> x & 0xfffu64 == 0,
        x & 0x3fff_ffffu64 == 0 ==> x & 0xfffu64 == 0,
{
}

impl PageTableEntry {
    /// Creates an unused descriptor.
    pub fn new() -> (r: Self)
        ensures
            r@ == 0,
    {
        PageTableEntry { entry: 0 }
    }

    /// Whether this descriptor is zero.
    pub fn is_unused(&self) -> (r: bool)
        ensures
            r == (self@ == 0),
    {
        self.entry == 0
    }

    /// Sets this descriptor to zero.
    pub fn set_unused(&mut self)
        ensures
            final(self)@ == 0,
    {
        self.entry = 0;
    }

    /// The flags of this descriptor.
    pub fn flags(&self) -> (r: PageTableFlags)
        ensures
            r@ == self@ & FLAG_BITS_ALL,
    {
        PageTableFlags::from_bits_truncate(self.entry)
    }

    /// The output address of this descriptor; might be zero.
    pub fn addr(&self) -> (r: PhysAddr)
        ensures
            r@ == self@ & ADDR_MASK,
    {
        proof {
            lemma_entry_masks(self.entry);
        }
        PhysAddr::new(self.entry & ADDR_MASK)
    }

    /// The memory attribute fields of this descriptor.
    pub fn attr(&self) -> (r: PageTableAttribute)
        ensures
            r@ == self@ & MEMORY_ATTR_MASK,
    {
        PageTableAttribute::from_bits_truncate(self.entry)
    }

    /// Whether this descriptor maps a block.
    pub fn is_block(&self) -> (r: bool)
        ensures
            r == (self@ & 0x2u64 == 0),
    {
        proof {
            lemma_entry_masks(self.entry);
        }
        !self.flags().contains(PageTableFlags::TABLE_OR_PAGE())
    }

    /// The 4KiB physical frame this descriptor points to.
    ///
    /// Fails with `FrameNotPresent` when `VALID` is clear, and with
    /// `HugeFrame` when the descriptor is a block (huge mappings must be
    /// read through `addr` instead).
    pub fn frame(&self) -> (r: Result<PhysFrame, FrameError>)
        ensures
            self@ & 0x1u64 == 0 ==> r == Err::<PhysFrame, FrameError>(FrameError::FrameNotPresent),
            self@ & 0x1u64 == 0x1u64 && self@ & 0x2u64 == 0 ==> r == Err::<PhysFrame, FrameError>(
                FrameError::HugeFrame,
            ),
            self@ & 0x1u64 == 0x1u64 && self@ & 0x2u64 == 0x2u64 ==> (r matches Ok(f)
                && f.spec_start() == self@ & ADDR_MASK && f.spec_size() == PageSize::Size4KiB),
    {
        proof {
            lemma_entry_masks(self.entry);
        }
        if !self.flags().contains(PageTableFlags::VALID()) {
            Err(FrameError::FrameNotPresent)
        } else if self.is_block() {
            Err(FrameError::HugeFrame)
        } else {
            proof {
                lemma_entry_masks(self.entry);
            }
            Ok(PhysFrame::containing_address(self.addr(), PageSize::Size4KiB))
        }
    }

    /// Points the descriptor at `addr` with the given flags and memory
    /// attribute.
    pub fn set_addr(&mut self, addr: PhysAddr, flags: PageTableFlags, attr: PageTableAttribute)
        requires
            spec_is_aligned(addr@, 0x1000),
        ensures
            final(self)@ == (addr@ | flags@ | attr@),
            final(self)@ & ADDR_MASK == addr@,
            final(self)@ & FLAG_BITS_ALL == flags@,
            final(self)@ & MEMORY_ATTR_MASK == attr@,
            final(self)@ & 0x1u64 == flags@ & 0x1u64,
            final(self)@ & 0x2u64 == flags@ & 0x2u64,
    {
        proof {
            use_type_invariant(addr);
            use_type_invariant(flags);
            use_type_invariant(attr);
            lemma_encode(addr@, flags@, attr@);
        }
        self.entry = addr.as_u64() | flags.bits() | attr.value();
    }

    /// Points the descriptor at a physical frame.
    ///
    /// The flags must include `TABLE_OR_PAGE`: a frame descriptor is a
    /// table or page descriptor, never a block.
    pub fn set_frame(&mut self, frame: PhysFrame, flags: PageTableFlags, attr: PageTableAttribute)
        requires
            flags@ & 0x2u64 == 0x2u64,
        ensures
            final(self)@ == (frame.spec_start() | flags@ | attr@),
            final(self)@ & ADDR_MASK == frame.spec_start(),
            final(self)@ & FLAG_BITS_ALL == flags@,
            final(self)@ & MEMORY_ATTR_MASK == attr@,
            final(self)@ & 0x1u64 == flags@ & 0x1u64,
            final(self)@ & 0x2u64 == 0x2u64,
    {
        proof {
            use_type_invariant(frame);
            frame.spec_size().lemma_size_power_of_two();
            lemma_coarser_alignment(frame.spec_start());
        }
        self.set_addr(frame.start_address(), flags, attr);
    }

    /// Makes the descriptor a block descriptor for the block of the given
    /// size containing `addr`.
    ///
    /// The flags must not include `TABLE_OR_PAGE`: a block descriptor has
    /// that bit clear. The address is truncated to the block alignment.
    pub fn set_block(
        &mut self,
        addr: PhysAddr,
        size: PageSize,
        flags: PageTableFlags,
        attr: PageTableAttribute,
    )
        requires
            flags@ & 0x2u64 == 0,
        ensures
            final(self)@ == (spec_align_down(addr@, size.spec_size()) | flags@ | attr@),
            final(self)@ & ADDR_MASK == spec_align_down(addr@, size.spec_size()),
            final(self)@ & FLAG_BITS_ALL == flags@,
            final(self)@ & MEMORY_ATTR_MASK == attr@,
            final(self)@ & 0x1u64 == flags@ & 0x1u64,
            final(self)@ & 0x2u64 == 0,
    {
        proof {
            size.lemma_size_power_of_two();
        }
        let truncated = addr.align_down(size.size());
        proof {
            lemma_coarser_alignment(truncated@);
        }
        self.set_addr(truncated, flags, attr);
    }

    /// Replaces the flag bits, leaving the output address and the memory
    /// attribute fields untouched.
    pub fn set_flags(&mut self, flags: PageTableFlags)
        ensures
            final(self)@ == ((old(self)@ & !FLAGS_MASK) | flags@),
            final(self)@ & FLAG_BITS_ALL == flags@,
            final(self)@ & MEMORY_ATTR_MASK == old(self)@ & MEMORY_ATTR_MASK,
            final(self)@ & ADDR_MASK == old(self)@ & ADDR_MASK,
    {
        proof {
            use_type_invariant(flags);
            lemma_set_flags_masks(self.entry, flags@);
        }
        self.entry = (self.entry & !FLAGS_MASK) | flags.bits();
    }

    /// Replaces the memory attribute fields, leaving the output address
    /// and the flag bits untouched.
    pub fn set_attr(&mut self, attr: PageTableAttribute)
        ensures
            final(self)@ == ((old(self)@ & !MEMORY_ATTR_MASK) | attr@),
            final(self)@ & MEMORY_ATTR_MASK == attr@,
            final(self)@ & FLAG_BITS_ALL == old(self)@ & FLAG_BITS_ALL,
            final(self)@ & ADDR_MASK == old(self)@ & ADDR_MASK,
    {
        proof {
            use_type_invariant(attr);
            lemma_set_attr_masks(self.entry, attr@);
        }
        self.entry = (self.entry & !MEMORY_ATTR_MASK) | attr.value();
    }
}

/// The number of entries in a translation table.
pub const ENTRY_COUNT: usize = 512;

/// One level of the translation-table hierarchy: 512 descriptors.
#[derive(Debug)]
pub struct PageTable {
    entries: Vec<PageTableEntry>,
}

impl View for PageTable {
    type V = Seq<u64>;

    closed spec fn view(&self) -> Seq<u64> {
        self.entries@.map_values(|e: PageTableEntry| e@)
    }
}

impl PageTable {
    /// Creates an empty table.
    pub fn new() -> (r: Self)
        ensures
            r@.len() == 512,
            forall|i: int| 0 <= i < 512 ==> r@[i] == 0,
    {
        let mut entries: Vec<PageTableEntry> = Vec::new();
        let mut i: usize = 0;
        while i < ENTRY_COUNT
            invariant
                i <= 512,
                entries@.len() == i,
                forall|j: int| 0 <= j < i ==> entries@[j]@ == 0,
            decreases 512 - i,
        {
            entries.push(PageTableEntry::new());
            i = i + 1;
        }
        let r = PageTable { entries };
        proof {
            assert(forall|i: int| 0 <= i < 512 ==> r@[i] == 0);
        }
        r
    }

    /// Clears all entries.
    pub fn zero(&mut self)
        ensures
            final(self)@.len() == old(self)@.len(),
            forall|i: int| 0 <= i < final(self)@.len() ==> final(self)@[i] == 0,
    {
        let n = self.entries.len();
        let mut i: usize = 0;
        while i < n
            invariant
                i <= n,
                n == self.entries@.len(),
                forall|j: int| 0 <= j < i ==> self.entries@[j]@ == 0,
            decreases n - i,
        {
            self.entries.set(i, PageTableEntry::new());
            i = i + 1;
        }
    }

    /// The number of entries.
    pub fn len(&self) -> (r: usize)
        ensures
            r == self@.len(),
    {
        self.entries.len()
    }

    /// The descriptor at `index`.
    pub fn entry(&self, index: u16) -> (r: PageTableEntry)
        requires
            (index as int) < self@.len(),
        ensures
            r@ == self@[index as int],
    {
        self.entries[index as usize]
    }

    /// Replaces the descriptor at `index`.
    pub fn set_entry(&mut self, index: u16, entry: PageTableEntry)
        requires
            (index as int) < old(self)@.len(),
        ensures
            final(self)@ == old(self)@.update(index as int, entry@),
    {
        self.entries.set(index as usize, entry);
        proof {
            assert(self@ =~= old(self)@.update(index as int, entry@));
        }
    }
}

} // verus!

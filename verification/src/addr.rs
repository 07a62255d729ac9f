//! Virtual and physical address wrappers with alignment helpers.

use vstd::prelude::*;

verus! {

/// Alignment of a 4KiB page.
pub const ALIGN_4KIB: u64 = 0x1000;

/// Alignment of a 2MiB block.
pub const ALIGN_2MIB: u64 = 0x20_0000;

/// Alignment of a 1GiB block.
pub const ALIGN_1GIB: u64 = 0x4000_0000;

/// One past the largest implemented physical address (48-bit width).
pub const MAX_PHYS_ADDR: u64 = 0x1_0000_0000_0000;

/// An alignment is usable when it is a power of two.
pub open spec fn is_power_of_two(a: u64) -> bool {
    a != 0 && a & ((a - 1) as u64) == 0
}

/// `addr` sits on a multiple of `align` (for power-of-two alignments).
pub open spec fn spec_is_aligned(addr: u64, align: u64) -> bool {
    addr & ((align - 1) as u64) == 0
}

/// The nearest multiple of `align` at or below `addr` (for power-of-two
/// alignments).
pub open spec fn spec_align_down(addr: u64, align: u64) -> u64 {
    addr & !((align - 1) as u64)
}

proof fn lemma_align_down_mask(x: u64, a: u64)
    by (bit_vector)
    requires
        a != 0,
        a & ((a - 1) as u64) == 0,
    ensures
        (x & !((a - 1) as u64)) & ((a - 1) as u64) == 0,
        x & !((a - 1) as u64) <= x,
        x - (x & !((a - 1) as u64)) < a,
        x & ((a - 1) as u64) == 0 ==> x & !((a - 1) as u64) == x,
        x & !((a - 1) as u64) == x ==> x & ((a - 1) as u64) == 0,
{
}

proof fn lemma_align_up_mask(x: u64, a: u64)
    by (bit_vector)
    requires
        a != 0,
        a & ((a - 1) as u64) == 0,
        x <= 0xffff_ffff_ffff_ffff - ((a - 1) as u64),
    ensures
        (((x + a - 1) as u64) & !((a - 1) as u64)) & ((a - 1) as u64) == 0,
        x <= (((x + a - 1) as u64) & !((a - 1) as u64)),
        (((x + a - 1) as u64) & !((a - 1) as u64)) < x + a,
{
}

/// Rounding down an already aligned address changes nothing.
pub proof fn lemma_align_down_identity(x: u64, a: u64)
    requires
        is_power_of_two(a),
        spec_is_aligned(x, a),
    ensures
        spec_align_down(x, a) == x,
{
    lemma_align_down_mask(x, a);
}

/// Round `addr` down to the nearest multiple of `align`.
pub fn align_down(addr: u64, align: u64) -> (r: u64)
    requires
        is_power_of_two(align),
    ensures
        r == spec_align_down(addr, align),
        spec_is_aligned(r, align),
        r <= addr,
        addr - r < align,
        spec_is_aligned(addr, align) ==> r == addr,
{
    proof {
        lemma_align_down_mask(addr, align);
    }
    addr & !(align - 1)
}

/// Round `addr` up to the nearest multiple of `align`.
pub fn align_up(addr: u64, align: u64) -> (r: u64)
    requires
        is_power_of_two(align),
        addr <= u64::MAX - (align - 1),
    ensures
        spec_is_aligned(r, align),
        addr <= r,
        r < addr + align,
{
    proof {
        lemma_align_up_mask(addr, align);
    }
    (addr + (align - 1)) & !(align - 1)
}

/// A virtual (byte) address.
#[derive(Clone, Copy, PartialEq, Eq, Structural, Debug)]
pub struct VirtAddr {
    value: u64,
}

impl View for VirtAddr {
    type V = u64;

    closed spec fn view(&self) -> u64 {
        self.value
    }
}

impl VirtAddr {
    /// Wraps a raw virtual address.
    pub fn new(value: u64) -> (r: Self)
        ensures
            r@ == value,
    {
        VirtAddr { value }
    }

    /// The raw address value.
    pub fn as_u64(self) -> (r: u64)
        ensures
            r == self@,
    {
        self.value
    }

    /// Whether the address is aligned to `align`.
    pub fn is_aligned(self, align: u64) -> (r: bool)
        requires
            is_power_of_two(align),
        ensures
            r == spec_is_aligned(self@, align),
    {
        proof {
            lemma_align_down_mask(self.value, align);
        }
        self.value & !(align - 1) == self.value
    }

    /// Round down to the nearest multiple of `align`.
    pub fn align_down(self, align: u64) -> (r: Self)
        requires
            is_power_of_two(align),
        ensures
            r@ == spec_align_down(self@, align),
            spec_is_aligned(r@, align),
            r@ <= self@,
            self@ - r@ < align,
    {
        VirtAddr { value: align_down(self.value, align) }
    }
}

/// A physical (byte) address; always inside the implemented physical
/// address width.
#[derive(Clone, Copy, PartialEq, Eq, Structural, Debug)]
pub struct PhysAddr {
    value: u64,
}

impl View for PhysAddr {
    type V = u64;

    closed spec fn view(&self) -> u64 {
        self.value
    }
}

impl PhysAddr {
    /// A physical address always fits the implemented width.
    #[verifier::type_invariant]
    pub open spec fn wf(self) -> bool {
        self@ < MAX_PHYS_ADDR
    }

    /// Wraps a raw physical address.
    pub fn new(value: u64) -> (r: Self)
        requires
            value < MAX_PHYS_ADDR,
        ensures
            r@ == value,
    {
        PhysAddr { value }
    }

    /// The raw address value.
    pub fn as_u64(self) -> (r: u64)
        ensures
            r == self@,
    {
        self.value
    }

    /// Whether the address is aligned to `align`.
    pub fn is_aligned(self, align: u64) -> (r: bool)
        requires
            is_power_of_two(align),
        ensures
            r == spec_is_aligned(self@, align),
    {
        proof {
            lemma_align_down_mask(self.value, align);
        }
        self.value & !(align - 1) == self.value
    }

    /// Round down to the nearest multiple of `align`.
    pub fn align_down(self, align: u64) -> (r: Self)
        requires
            is_power_of_two(align),
        ensures
            r@ == spec_align_down(self@, align),
            spec_is_aligned(r@, align),
            r@ <= self@,
            self@ - r@ < align,
    {
        proof {
            use_type_invariant(self);
        }
        PhysAddr { value: align_down(self.value, align) }
    }
}

} // verus!

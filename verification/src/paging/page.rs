//! Virtual pages and the closed set of supported page sizes.

use vstd::prelude::*;

use crate::addr::{spec_align_down, spec_is_aligned, VirtAddr, ALIGN_1GIB, ALIGN_2MIB, ALIGN_4KIB};

verus! {

/// The page sizes a translation-table hierarchy can map: 4KiB pages at
/// level 1, 2MiB blocks at level 2 and 1GiB blocks at level 3.
#[derive(Clone, Copy, PartialEq, Eq, Structural, Debug)]
pub enum PageSize {
    Size4KiB,
    Size2MiB,
    Size1GiB,
}

impl PageSize {
    /// The size in bytes.
    pub open spec fn spec_size(self) -> u64 {
        match self {
            PageSize::Size4KiB => ALIGN_4KIB,
            PageSize::Size2MiB => ALIGN_2MIB,
            PageSize::Size1GiB => ALIGN_1GIB,
        }
    }

    /// The hierarchy level whose descriptor terminates a mapping of this
    /// size.
    pub open spec fn leaf_level(self) -> int {
        match self {
            PageSize::Size4KiB => 1,
            PageSize::Size2MiB => 2,
            PageSize::Size1GiB => 3,
        }
    }

    /// The size in bytes.
    #[verifier::when_used_as_spec(spec_size)]
    pub fn size(self) -> (r: u64)
        ensures
            r == self.spec_size(),
    {
        match self {
            PageSize::Size4KiB => ALIGN_4KIB,
            PageSize::Size2MiB => ALIGN_2MIB,
            PageSize::Size1GiB => ALIGN_1GIB,
        }
    }

    /// Every supported size is a power of two, so it can serve as an
    /// alignment.
    pub proof fn lemma_size_power_of_two(self)
        ensures
            crate::addr::is_power_of_two(self.spec_size()),
    {
        assert(0x1000u64 & 0xfffu64 == 0 && 0x20_0000u64 & 0x1f_ffffu64 == 0
            && 0x4000_0000u64 & 0x3fff_ffffu64 == 0) by (bit_vector);
    }
}

/// The table index `addr` selects at hierarchy level `lvl` (4 is the root).
pub open spec fn va_level_index(va: u64, lvl: int) -> u64 {
    if lvl == 4 {
        (va >> 39) & 0x1ff
    } else if lvl == 3 {
        (va >> 30) & 0x1ff
    } else if lvl == 2 {
        (va >> 21) & 0x1ff
    } else {
        (va >> 12) & 0x1ff
    }
}

/// Every per-level table index is a 9-bit value.
pub proof fn lemma_va_index_bounds(va: u64)
    ensures
        va_level_index(va, 4) < 512,
        va_level_index(va, 3) < 512,
        va_level_index(va, 2) < 512,
        va_level_index(va, 1) < 512,
{
    assert(((va >> 39) & 0x1ff) < 512 && ((va >> 30) & 0x1ff) < 512 && ((va >> 21) & 0x1ff) < 512
        && ((va >> 12) & 0x1ff) < 512) by (bit_vector);
}

/// Rounding an address down to its 4KiB page keeps every table index.
pub(crate) proof fn lemma_indices_align4k(va: u64)
    by (bit_vector)
    ensures
        ((va & !0xfffu64) >> 39) & 0x1ff == (va >> 39) & 0x1ff,
        ((va & !0xfffu64) >> 30) & 0x1ff == (va >> 30) & 0x1ff,
        ((va & !0xfffu64) >> 21) & 0x1ff == (va >> 21) & 0x1ff,
        ((va & !0xfffu64) >> 12) & 0x1ff == (va >> 12) & 0x1ff,
{
}

/// A block base never overflows the physical address width when an
/// in-block offset is added.
pub(crate) proof fn lemma_frame_offset_fits(b: u64, va: u64)
    by (bit_vector)
    ensures
        va & 0xfffu64 <= 0xfffu64,
        va & 0x1f_ffffu64 <= 0x1f_ffffu64,
        va & 0x3fff_ffffu64 <= 0x3fff_ffffu64,
        (b < 0x1_0000_0000_0000u64 && b & 0xfffu64 == 0) ==> b + (va & 0xfffu64)
            < 0x1_0000_0000_0000u64,
        (b < 0x1_0000_0000_0000u64 && b & 0x1f_ffffu64 == 0) ==> b + (va & 0x1f_ffffu64)
            < 0x1_0000_0000_0000u64,
        (b < 0x1_0000_0000_0000u64 && b & 0x3fff_ffffu64 == 0) ==> b + (va & 0x3fff_ffffu64)
            < 0x1_0000_0000_0000u64,
{
}

/// A virtual page: a region of virtual address space aligned to its size.
#[derive(Clone, Copy, PartialEq, Eq, Structural, Debug)]
pub struct Page {
    start: u64,
    size: PageSize,
}

impl Page {
    /// The base address of the page.
    pub closed spec fn spec_start(self) -> u64 {
        self.start
    }

    /// The size tag of the page.
    pub closed spec fn spec_size(self) -> PageSize {
        self.size
    }

    /// A page base is always aligned to the page's size.
    #[verifier::type_invariant]
    pub open spec fn wf(self) -> bool {
        spec_is_aligned(self.spec_start(), self.spec_size().spec_size())
    }

    /// The page of the given size that contains `addr`.
    pub fn containing_address(addr: VirtAddr, size: PageSize) -> (r: Self)
        ensures
            r.spec_size() == size,
            r.spec_start() == spec_align_down(addr@, size.spec_size()),
    {
        proof {
            size.lemma_size_power_of_two();
        }
        Page { start: crate::addr::align_down(addr.as_u64(), size.size()), size }
    }

    /// The page starting exactly at `addr`; fails when `addr` is not
    /// aligned to `size`.
    pub fn from_start_address(addr: VirtAddr, size: PageSize) -> (r: Result<Self, ()>)
        ensures
            r matches Ok(p) ==> p.spec_start() == addr@ && p.spec_size() == size,
            r is Ok <==> spec_is_aligned(addr@, size.spec_size()),
    {
        proof {
            size.lemma_size_power_of_two();
        }
        if addr.is_aligned(size.size()) {
            Ok(Page { start: addr.as_u64(), size })
        } else {
            Err(())
        }
    }

    /// The base address of the page.
    pub fn start_address(self) -> (r: VirtAddr)
        ensures
            r@ == self.spec_start(),
    {
        VirtAddr::new(self.start)
    }

    /// The size tag of the page.
    pub fn size(self) -> (r: PageSize)
        ensures
            r == self.spec_size(),
    {
        self.size
    }

    /// The root-table index of this page's address.
    pub fn p4_index(self) -> (r: u16)
        ensures
            r as u64 == va_level_index(self.spec_start(), 4),
            r < 512,
    {
        proof {
            let va = self.spec_start();
            assert(((va >> 39) & 0x1ff) < 512 && ((va >> 39) & 0x1ff) <= 0xffff) by (bit_vector);
        }
        ((self.start >> 39) & 0x1ff) as u16
    }

    /// The level-3 table index of this page's address.
    pub fn p3_index(self) -> (r: u16)
        ensures
            r as u64 == va_level_index(self.spec_start(), 3),
            r < 512,
    {
        proof {
            let va = self.spec_start();
            assert(((va >> 30) & 0x1ff) < 512 && ((va >> 30) & 0x1ff) <= 0xffff) by (bit_vector);
        }
        ((self.start >> 30) & 0x1ff) as u16
    }

    /// The level-2 table index of this page's address.
    pub fn p2_index(self) -> (r: u16)
        ensures
            r as u64 == va_level_index(self.spec_start(), 2),
            r < 512,
    {
        proof {
            let va = self.spec_start();
            assert(((va >> 21) & 0x1ff) < 512 && ((va >> 21) & 0x1ff) <= 0xffff) by (bit_vector);
        }
        ((self.start >> 21) & 0x1ff) as u16
    }

    /// The level-1 table index of this page's address.
    pub fn p1_index(self) -> (r: u16)
        ensures
            r as u64 == va_level_index(self.spec_start(), 1),
            r < 512,
    {
        proof {
            let va = self.spec_start();
            assert(((va >> 12) & 0x1ff) < 512 && ((va >> 12) & 0x1ff) <= 0xffff) by (bit_vector);
        }
        ((self.start >> 12) & 0x1ff) as u16
    }

    /// The 4KiB page whose address carries exactly the four given table
    /// indices.
    pub fn from_page_table_indices(i4: u16, i3: u16, i2: u16, i1: u16) -> (r: Self)
        requires
            i4 < 512,
            i3 < 512,
            i2 < 512,
            i1 < 512,
        ensures
            r.spec_size() == PageSize::Size4KiB,
            r.spec_start() == ((i4 as u64) << 39) | ((i3 as u64) << 30) | ((i2 as u64) << 21) | (
            (i1 as u64) << 12),
            va_level_index(r.spec_start(), 4) == i4 as u64,
            va_level_index(r.spec_start(), 3) == i3 as u64,
            va_level_index(r.spec_start(), 2) == i2 as u64,
            va_level_index(r.spec_start(), 1) == i1 as u64,
    {
        let va: u64 = ((i4 as u64) << 39) | ((i3 as u64) << 30) | ((i2 as u64) << 21) | ((
        i1 as u64) << 12);
        proof {
            lemma_indices_round_trip(i4 as u64, i3 as u64, i2 as u64, i1 as u64);
        }
        Page { start: va, size: PageSize::Size4KiB }
    }
}

pub(crate) proof fn lemma_indices_round_trip(i4: u64, i3: u64, i2: u64, i1: u64)
    by (bit_vector)
    requires
        i4 < 512,
        i3 < 512,
        i2 < 512,
        i1 < 512,
    ensures
        (((i4 << 39) | (i3 << 30) | (i2 << 21) | (i1 << 12)) >> 39) & 0x1ff == i4,
        (((i4 << 39) | (i3 << 30) | (i2 << 21) | (i1 << 12)) >> 30) & 0x1ff == i3,
        (((i4 << 39) | (i3 << 30) | (i2 << 21) | (i1 << 12)) >> 21) & 0x1ff == i2,
        (((i4 << 39) | (i3 << 30) | (i2 << 21) | (i1 << 12)) >> 12) & 0x1ff == i1,
        ((i4 << 39) | (i3 << 30) | (i2 << 21) | (i1 << 12)) & 0xfffu64 == 0,
{
}

} // verus!

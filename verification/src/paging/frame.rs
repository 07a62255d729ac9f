//! Physical frames: size-aligned regions of physical memory.

use vstd::prelude::*;

use crate::addr::{spec_align_down, spec_is_aligned, PhysAddr, MAX_PHYS_ADDR};
use crate::paging::page::PageSize;

verus! {

/// A physical frame: a region of physical memory aligned to its size.
///
/// Once a frame is installed by a mapping operation it denotes ownership
/// of that region of physical memory.
#[derive(Clone, Copy, PartialEq, Eq, Structural, Debug)]
pub struct PhysFrame {
    start: u64,
    size: PageSize,
}

impl PhysFrame {
    /// The base address of the frame.
    pub closed spec fn spec_start(self) -> u64 {
        self.start
    }

    /// The size tag of the frame.
    pub closed spec fn spec_size(self) -> PageSize {
        self.size
    }

    /// A frame base is aligned to the frame's size and fits the
    /// implemented physical address width.
    #[verifier::type_invariant]
    pub open spec fn wf(self) -> bool {
        spec_is_aligned(self.spec_start(), self.spec_size().spec_size()) && self.spec_start()
            < MAX_PHYS_ADDR
    }

    /// The frame of the given size that contains `addr`.
    pub fn containing_address(addr: PhysAddr, size: PageSize) -> (r: Self)
        ensures
            r.spec_size() == size,
            r.spec_start() == spec_align_down(addr@, size.spec_size()),
    {
        proof {
            use_type_invariant(addr);
            size.lemma_size_power_of_two();
        }
        let start = addr.align_down(size.size());
        PhysFrame { start: start.as_u64(), size }
    }

    /// The frame starting exactly at `addr`; fails when `addr` is not
    /// aligned to `size`.
    pub fn from_start_address(addr: PhysAddr, size: PageSize) -> (r: Result<Self, ()>)
        ensures
            r matches Ok(f) ==> f.spec_start() == addr@ && f.spec_size() == size,
            r is Ok <==> spec_is_aligned(addr@, size.spec_size()),
    {
        proof {
            use_type_invariant(addr);
            size.lemma_size_power_of_two();
        }
        if addr.is_aligned(size.size()) {
            Ok(PhysFrame { start: addr.as_u64(), size })
        } else {
            Err(())
        }
    }

    /// The base address of the frame.
    pub fn start_address(self) -> (r: PhysAddr)
        ensures
            r@ == self.spec_start(),
    {
        proof {
            use_type_invariant(self);
        }
        PhysAddr::new(self.start)
    }

    /// The size tag of the frame.
    pub fn size(self) -> (r: PageSize)
        ensures
            r == self.spec_size(),
    {
        self.size
    }
}

} // verus!

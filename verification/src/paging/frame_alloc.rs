//! The frame-allocation capability consumed by the mapping operations.

use vstd::prelude::*;

use crate::paging::frame::PhysFrame;
use crate::paging::page::PageSize;

verus! {

/// A supplier of free 4KiB physical frames.
///
/// The mapper requests intermediate-table frames through this interface;
/// ownership of a returned frame passes to the caller. Implementations
/// live outside this crate.
pub trait FrameAllocator {
    /// Returns a free 4KiB frame, or `None` when memory is exhausted.
    fn allocate_frame(&mut self) -> (r: Option<PhysFrame>)
        ensures
            r matches Some(f) ==> f.spec_size() == PageSize::Size4KiB,
    ;
}

/// A consumer of frames that are no longer mapped.
///
/// The mapper itself never deallocates; this interface completes the
/// allocator capability for address-space teardown done elsewhere.
pub trait FrameDeallocator {
    /// Takes back ownership of an unused frame.
    fn deallocate_frame(&mut self, frame: PhysFrame);
}

} // verus!

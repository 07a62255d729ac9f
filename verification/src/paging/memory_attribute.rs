//! Symbolic memory kinds and their per-descriptor attribute encodings.
//!
//! Each kind names a fixed slot of the global memory-attribute
//! configuration register and the matching attribute-index-plus-
//! shareability bits stored in every descriptor that references it. The
//! configuration register itself is programmed once at boot by the
//! hardware layer around this crate.

use vstd::prelude::*;

use crate::paging::page_table::PageTableAttribute;

verus! {

/// Normal cacheable memory (write-back, read/write-allocate),
/// inner-shareable.
pub struct MairNormal;

/// Device memory (non-gathering, non-reordering, early write
/// acknowledgement), outer-shareable.
pub struct MairDevice;

/// Normal non-cacheable memory, outer-shareable.
pub struct MairNormalNonCacheable;

impl MairNormal {
    /// The slot this kind occupies in the attribute configuration table.
    pub fn mair_index() -> (r: u64)
        ensures
            r == 0,
    {
        0
    }

    /// The descriptor attribute fields selecting this kind:
    /// inner-shareable, attribute index 0.
    pub fn attr_value() -> (r: PageTableAttribute)
        ensures
            r@ == 0x300u64,
    {
        proof {
            crate::paging::page_table::lemma_constant_masks();
        }
        PageTableAttribute::from_bits_truncate(0x300)
    }
}

impl MairDevice {
    /// The slot this kind occupies in the attribute configuration table.
    pub fn mair_index() -> (r: u64)
        ensures
            r == 1,
    {
        1
    }

    /// The descriptor attribute fields selecting this kind:
    /// outer-shareable, attribute index 1.
    pub fn attr_value() -> (r: PageTableAttribute)
        ensures
            r@ == 0x204u64,
    {
        proof {
            crate::paging::page_table::lemma_constant_masks();
        }
        PageTableAttribute::from_bits_truncate(0x204)
    }
}

impl MairNormalNonCacheable {
    /// The slot this kind occupies in the attribute configuration table.
    pub fn mair_index() -> (r: u64)
        ensures
            r == 2,
    {
        2
    }

    /// The descriptor attribute fields selecting this kind:
    /// outer-shareable, attribute index 2.
    pub fn attr_value() -> (r: PageTableAttribute)
        ensures
            r@ == 0x208u64,
    {
        proof {
            crate::paging::page_table::lemma_constant_masks();
        }
        PageTableAttribute::from_bits_truncate(0x208)
    }
}

} // verus!

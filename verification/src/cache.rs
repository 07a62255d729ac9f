//! Cache maintenance: coherency points, flush kinds, and the range
//! arithmetic shared by every cache.
//!
//! The per-line maintenance instructions and the cache-geometry register
//! read are privileged and live in implementations supplied by the
//! hardware layer around this crate; the range walk over cache lines is
//! defined — and verified — here once for all of them.

use vstd::prelude::*;

use crate::barrier::Dsb;
use crate::registers::ctr_el0::Reg as CtrEl0;

verus! {


/// A point in the memory hierarchy that a maintenance operation targets.
pub trait CoherencyPoint {

}

/// Point of coherency: all agents in the system see the same copy of
/// memory.
#[derive(Clone, Copy, Debug)]
pub struct PoC;

/// Point of unification: instruction cache, data cache and translation
/// walks of the cores in the inner-shareable domain see the same copy of
/// memory.
#[derive(Clone, Copy, Debug)]
pub struct PoU;

impl CoherencyPoint for PoC {

}

impl CoherencyPoint for PoU {

}

/// What a maintenance operation does to the affected lines.
pub trait Flush {

}

/// Write dirty lines back to memory.
#[derive(Clone, Copy, Debug)]
pub struct Clean;

/// Discard old lines.
#[derive(Clone, Copy, Debug)]
pub struct Invalidate;

/// Write dirty lines back, then discard them.
#[derive(Clone, Copy, Debug)]
pub struct CleanAndInvalidate;

impl Flush for Clean {

}

impl Flush for Invalidate {

}

impl Flush for CleanAndInvalidate {

}

/// A cache that can be maintained line by line.
///
/// Implementations supply the per-line instruction and the line-size
/// field of the cache type register; the range walk is shared.
pub trait Cache {
    /// Maintains the single cache line holding `vaddr`.
    fn flush_line_op(vaddr: usize);

    /// Log2 of the number of words in the smallest cache line; a 4-bit
    /// field of the cache type register.
    fn cache_line_size() -> u64;

    /// Orders the line operations against later accesses in the given
    /// shareability domain.
    fn flush_complete<A: Dsb>(domain: A);

    /// Maintains every cache line of the virtual-address range
    /// `[start, end)`, then orders the operations in `domain`.
    fn flush_range<A: Dsb>(start: usize, end: usize, domain: A)
        requires
            end <= usize::MAX - 0x2_0000,
    {
        let csize = Self::cache_line_size();
        let shift: usize = (csize & 0xf) as usize;
        proof {
            assert(csize & 0xfu64 <= 15) by (bit_vector);
            assert(4usize << shift >= 4 && 4usize << shift <= 0x2_0000) by (bit_vector)
                requires
                    shift <= 15,
            ;
        }
        let line_size: usize = 4usize << shift;
        let mut addr = start & !(line_size - 1);
        while addr < end
            invariant
                4 <= line_size <= 0x2_0000,
                end <= usize::MAX - 0x2_0000,
            decreases (if addr < end {
                end - addr
            } else {
                0
            }),
        {
            Self::flush_line_op(addr);
            addr = addr + line_size;
        }
        Self::flush_complete(domain);
    }

    /// Maintains every cache line of the virtual-address range starting
    /// at `start` and `size` bytes long, then orders the operations in
    /// `domain`.
    fn flush_area<A: Dsb>(start: usize, size: usize, domain: A)
        requires
            start + size <= usize::MAX - 0x2_0000,
    {
        Self::flush_range(start, start + size, domain);
    }
}

/// The instruction cache, maintained line by line.
pub struct ICache<F = Invalidate, P = PoU> {
    _flush: core::marker::PhantomData<F>,
    _point: core::marker::PhantomData<P>,
}

/// A data cache, maintained line by line.
pub struct DCache<F, P> {
    _flush: core::marker::PhantomData<F>,
    _point: core::marker::PhantomData<P>,
}

/// Level-1 instruction cache policy: the indexing and tagging scheme of
/// the level-1 instruction cache.
#[derive(Debug, Clone, Copy, PartialEq, Eq, Structural)]
pub enum L1ICachePolicy {
    /// Virtual index, physical tag.
    VIPT,
    /// Physical index, physical tag.
    PIPT,
    /// Any other reported policy.
    Unsupport,
}

/// Decodes the level-1 instruction cache policy from a captured cache
/// type register value.
pub fn get_l1_icache_policy(ctr: &CtrEl0) -> (r: L1ICachePolicy)
    ensures
        (ctr@ >> 14) & 0x3 == 2 ==> r == L1ICachePolicy::VIPT,
        (ctr@ >> 14) & 0x3 == 3 ==> r == L1ICachePolicy::PIPT,
        ((ctr@ >> 14) & 0x3 != 2 && (ctr@ >> 14) & 0x3 != 3) ==> r == L1ICachePolicy::Unsupport,
{
    let field = ctr.l1ip();
    if field == 2 {
        L1ICachePolicy::VIPT
    } else if field == 3 {
        L1ICachePolicy::PIPT
    } else {
        L1ICachePolicy::Unsupport
    }
}

} // verus!

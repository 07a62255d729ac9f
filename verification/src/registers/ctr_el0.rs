//! The cache type register: information about the architecture of the
//! caches.

use vstd::prelude::*;

verus! {

/// A captured value of the cache type register.
///
/// Reading the register itself is a privileged operation done by the
/// hardware layer around this crate; this type decodes the fields of the
/// value it hands over.
#[derive(Clone, Copy, PartialEq, Eq, Structural, Debug)]
pub struct Reg {
    value: u64,
}

impl View for Reg {
    type V = u64;

    closed spec fn view(&self) -> u64 {
        self.value
    }
}

impl Reg {
    /// Wraps a captured register value.
    pub fn new(value: u64) -> (r: Self)
        ensures
            r@ == value,
    {
        Reg { value }
    }

    /// The raw register value.
    pub fn get(&self) -> (r: u64)
        ensures
            r == self@,
    {
        self.value
    }

    /// Log2 of the number of words in the smallest data or unified cache
    /// line (bits 16..=19).
    pub fn dmin_line(&self) -> (r: u64)
        ensures
            r == (self@ >> 16) & 0xf,
    {
        (self.value >> 16) & 0xf
    }

    /// The level-1 instruction cache indexing and tagging policy field
    /// (bits 14..=15).
    pub fn l1ip(&self) -> (r: u64)
        ensures
            r == (self@ >> 14) & 0x3,
    {
        (self.value >> 14) & 0x3
    }

    /// Log2 of the number of words in the smallest instruction cache
    /// line (bits 0..=3).
    pub fn imin_line(&self) -> (r: u64)
        ensures
            r == self@ & 0xf,
    {
        self.value & 0xf
    }
}

} // verus!

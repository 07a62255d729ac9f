//! The exception syndrome register.

use vstd::prelude::*;

verus! {

/// A captured value of the exception syndrome register.
///
/// Reading and writing the register itself is a privileged operation
/// done by the hardware layer around this crate; this type holds and
/// decodes the value it hands over.
#[derive(Clone, Copy, PartialEq, Eq, Structural, Debug)]
pub struct Reg {
    value: u64,
}

impl View for Reg {
    type V = u64;

    closed spec fn view(&self) -> u64 {
        self.value
    }
}

impl Reg {
    /// Wraps a captured register value.
    pub fn new(value: u64) -> (r: Self)
        ensures
            r@ == value,
    {
        Reg { value }
    }

    /// The raw register value.
    pub fn get(&self) -> (r: u64)
        ensures
            r == self@,
    {
        self.value
    }

    /// Replaces the held value.
    pub fn set(&mut self, value: u64)
        ensures
            final(self)@ == value,
    {
        self.value = value;
    }

    /// The exception class field (bits 26..=31).
    pub fn ec(&self) -> (r: u64)
        ensures
            r == (self@ >> 26) & 0x3f,
    {
        (self.value >> 26) & 0x3f
    }

    /// The instruction-specific syndrome field (bits 0..=24).
    pub fn iss(&self) -> (r: u64)
        ensures
            r == self@ & 0x1ff_ffff,
    {
        self.value & 0x1ff_ffff
    }
}

} // verus!

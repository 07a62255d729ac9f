//! Shareability domains for memory barriers.
//!
//! Each marker type names the scope a barrier instruction applies to —
//! the full system, the inner-shareable domain, or the local core — with
//! its load-only and store-only refinements. The barrier instructions
//! themselves are privileged and live in the hardware layer around this
//! crate; the markers let interfaces state which domain they require.

use vstd::prelude::*;

verus! {

/// Domains usable with a data memory barrier.
pub trait Dmb {

}

/// Domains usable with a data synchronization barrier.
pub trait Dsb {

}

/// Domains usable with an instruction synchronization barrier.
pub trait Isb {

}

/// Full system.
#[derive(Clone, Copy, Debug)]
pub struct SY;

/// Full system, stores only.
#[derive(Clone, Copy, Debug)]
pub struct ST;

/// Full system, loads only.
#[derive(Clone, Copy, Debug)]
pub struct LD;

/// Inner-shareable domain.
#[derive(Clone, Copy, Debug)]
pub struct ISH;

/// Inner-shareable domain, stores only.
#[derive(Clone, Copy, Debug)]
pub struct ISHST;

/// Inner-shareable domain, loads only.
#[derive(Clone, Copy, Debug)]
pub struct ISHLD;

/// Non-shareable: the executing core only.
#[derive(Clone, Copy, Debug)]
pub struct NSH;

/// Non-shareable, stores only.
#[derive(Clone, Copy, Debug)]
pub struct NSHST;

/// Non-shareable, loads only.
#[derive(Clone, Copy, Debug)]
pub struct NSHLD;

impl Dmb for SY {

}

impl Dsb for SY {

}

impl Isb for SY {

}

impl Dmb for ST {

}

impl Dsb for ST {

}

impl Dmb for LD {

}

impl Dsb for LD {

}

impl Dmb for ISH {

}

impl Dsb for ISH {

}

impl Dmb for ISHST {

}

impl Dsb for ISHST {

}

impl Dmb for ISHLD {

}

impl Dsb for ISHLD {

}

impl Dmb for NSH {

}

impl Dsb for NSH {

}

impl Dmb for NSHST {

}

impl Dsb for NSHST {

}

impl Dmb for NSHLD {

}

impl Dsb for NSHLD {

}

} // verus!

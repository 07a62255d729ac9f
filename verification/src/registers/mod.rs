//! Value models of the system registers this crate reads.

pub mod ctr_el0;

pub use self::ctr_el0::Reg as CtrEl0;

//! Virtual-memory management for a 64-bit CPU with 4-level translation
//! tables: page-table descriptors, recursively self-mapped tables, and the
//! mapping operations over them, with machine-checked contracts.

pub mod addr;
pub mod barrier;
pub mod cache;
pub mod paging;
pub mod registers;
pub mod regs;
pub mod translation;

pub use addr::{align_down, align_up, PhysAddr, VirtAddr, ALIGN_1GIB, ALIGN_2MIB, ALIGN_4KIB};

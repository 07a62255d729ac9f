//! Translation tables and the structures around them.
//!
//! Translation tables map virtual memory "pages" to physical memory
//! "frames" across a 4-level hierarchy.

pub mod frame;
pub mod frame_alloc;
pub mod mapper;
pub mod memory_attribute;
pub mod page;
pub mod page_table;

pub use self::frame::PhysFrame;
pub use self::mapper::RecursivePageTable;
pub use self::frame_alloc::{FrameAllocator, FrameDeallocator};
pub use self::page::{Page, PageSize};
pub use self::page_table::{PageTable, PageTableAttribute, PageTableEntry, PageTableFlags};

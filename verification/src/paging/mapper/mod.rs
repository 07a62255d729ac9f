//! Reading and modifying the mapping of pages.

pub mod recursive_page_table;

pub use self::recursive_page_table::RecursivePageTable;

use vstd::prelude::*;

use crate::addr::{spec_is_aligned, PhysAddr};
use crate::paging::page::{va_level_index, Page, PageSize};
use crate::paging::page_table::{PageTable, ADDR_MASK};

verus! {

/// Whether descriptor `e` has its `VALID` bit set.
pub open spec fn desc_valid(e: u64) -> bool {
    e & 0x1u64 == 0x1u64
}

/// Whether descriptor `e` has its `TABLE_OR_PAGE` bit set.
pub open spec fn desc_table(e: u64) -> bool {
    e & 0x2u64 == 0x2u64
}

/// The output address of descriptor `e`.
pub open spec fn desc_addr(e: u64) -> u64 {
    e & ADDR_MASK
}

/// One step of a table walk: reads the descriptor at `idx` of the table
/// at `t` and either descends to the next table or stops.
///
/// A strict step refuses a descriptor whose `VALID` bit is clear; a
/// non-strict step refuses only an all-zero descriptor, mirroring how the
/// mapping operations classify entries by emptiness.
pub open spec fn walk_step(m: Map<u64, PageTable>, t: u64, idx: u64, strict: bool) -> Result<
    u64,
    EntryGetError,
> {
    let e = m[t]@[idx as int];
    if (strict && !desc_valid(e)) || (!strict && e == 0) {
        Err(EntryGetError::PageNotMapped)
    } else if !desc_table(e) {
        Err(EntryGetError::ParentEntryHugePage)
    } else {
        Ok(desc_addr(e))
    }
}

/// The frame of the table holding the leaf descriptor for `va`, found by
/// walking from the root table down to hierarchy level `leaf`.
pub open spec fn lookup_table(
    m: Map<u64, PageTable>,
    root: u64,
    va: u64,
    leaf: int,
    strict: bool,
) -> Result<u64, EntryGetError>
    decreases 4 - leaf,
{
    if leaf >= 3 {
        walk_step(m, root, va_level_index(va, 4), strict)
    } else {
        match lookup_table(m, root, va, leaf + 1, strict) {
            Ok(t) => walk_step(m, t, va_level_index(va, leaf + 1), strict),
            Err(e) => Err(e),
        }
    }
}

/// The leaf descriptor for `va` at hierarchy level `leaf`, or the walk
/// error that stopped the descent.
pub open spec fn lookup_leaf_entry(
    m: Map<u64, PageTable>,
    root: u64,
    va: u64,
    leaf: int,
    strict: bool,
) -> Result<u64, EntryGetError> {
    match lookup_table(m, root, va, leaf, strict) {
        Ok(t) => Ok(m[t]@[va_level_index(va, leaf) as int]),
        Err(e) => Err(e),
    }
}

/// The result of looking up the leaf descriptor for `va`: the walk
/// error if the descent stopped, `PageNotMapped` if the leaf itself is
/// unused, and the raw descriptor otherwise.
pub open spec fn spec_get_entry(m: Map<u64, PageTable>, root: u64, va: u64, leaf: int) -> Result<
    u64,
    EntryGetError,
> {
    match lookup_leaf_entry(m, root, va, leaf, false) {
        Ok(ev) => if ev == 0 {
            Err(EntryGetError::PageNotMapped)
        } else {
            Ok(ev)
        },
        Err(e) => Err(e),
    }
}

/// How many tables the walk for `va` from the table at `t` (serving
/// hierarchy level `lvl`) down to level `leaf` still has to create: an
/// unused descriptor leaves this and every deeper table missing, while a
/// block descriptor stops the walk before anything is created.
pub open spec fn missing_tables_from(
    m: Map<u64, PageTable>,
    t: u64,
    va: u64,
    lvl: int,
    leaf: int,
) -> int
    decreases lvl - leaf,
{
    if lvl <= leaf {
        0
    } else {
        let e = m[t]@[va_level_index(va, lvl) as int];
        if e == 0 {
            lvl - leaf
        } else if !desc_table(e) {
            0
        } else {
            missing_tables_from(m, desc_addr(e), va, lvl - 1, leaf)
        }
    }
}

/// How many tables along the walk for `va` down to level `leaf` are still
/// missing and would have to be allocated by a mapping operation.
pub open spec fn missing_tables(m: Map<u64, PageTable>, root: u64, va: u64, leaf: int) -> int {
    missing_tables_from(m, root, va, 4, leaf)
}

/// Spells out the table walks for each leaf level as explicit chains of
/// single steps.
pub proof fn lemma_lookup_table_unfold(m: Map<u64, PageTable>, root: u64, va: u64, strict: bool)
    ensures
        lookup_table(m, root, va, 3, strict) == walk_step(m, root, va_level_index(va, 4), strict),
        lookup_table(m, root, va, 2, strict) == (match walk_step(
            m,
            root,
            va_level_index(va, 4),
            strict,
        ) {
            Ok(t) => walk_step(m, t, va_level_index(va, 3), strict),
            Err(e) => Err(e),
        }),
        lookup_table(m, root, va, 1, strict) == (match lookup_table(m, root, va, 2, strict) {
            Ok(t) => walk_step(m, t, va_level_index(va, 2), strict),
            Err(e) => Err(e),
        }),
{
    assert(lookup_table(m, root, va, 3, strict) == walk_step(
        m,
        root,
        va_level_index(va, 4),
        strict,
    ));
    assert(lookup_table(m, root, va, 2, strict) == (match lookup_table(m, root, va, 3, strict) {
        Ok(t) => walk_step(m, t, va_level_index(va, 3), strict),
        Err(e) => Err(e),
    }));
}

/// Spells out the missing-table counts for each leaf level as explicit
/// case analyses over the walk.
pub proof fn lemma_missing_tables_unfold(m: Map<u64, PageTable>, root: u64, va: u64, leaf: int)
    requires
        1 <= leaf <= 3,
    ensures
        missing_tables(m, root, va, leaf) == ({
            let e4 = m[root]@[va_level_index(va, 4) as int];
            if e4 == 0 {
                4 - leaf
            } else if !desc_table(e4) {
                0
            } else {
                missing_tables_from(m, desc_addr(e4), va, 3, leaf)
            }
        }),
        forall|t: u64, lvl: int|
            leaf < lvl <= 3 ==> #[trigger] missing_tables_from(m, t, va, lvl, leaf) == ({
                let e = m[t]@[va_level_index(va, lvl) as int];
                if e == 0 {
                    lvl - leaf
                } else if !desc_table(e) {
                    0
                } else {
                    missing_tables_from(m, desc_addr(e), va, lvl - 1, leaf)
                }
            }),
        forall|t: u64, lvl: int|
            lvl <= leaf ==> #[trigger] missing_tables_from(m, t, va, lvl, leaf) == 0,
{
}

/// The physical address that the hierarchy maps `va` to, found by the
/// same walk the hardware performs: a block descriptor at level 3 or 2
/// terminates the walk early with a huge mapping (provided its stored
/// address is aligned to the block size), a page descriptor at level 1
/// with a 4KiB mapping; anything else leaves the address unmapped.
pub open spec fn spec_translate_addr(m: Map<u64, PageTable>, root: u64, va: u64) -> Option<u64> {
    match walk_step(m, root, va_level_index(va, 4), false) {
        Err(_) => None,
        Ok(t3) => {
            let e3 = m[t3]@[va_level_index(va, 3) as int];
            if e3 == 0 {
                None
            } else if !desc_table(e3) {
                if spec_is_aligned(desc_addr(e3), 0x4000_0000) {
                    Some((desc_addr(e3) + (va & 0x3fff_ffff)) as u64)
                } else {
                    None
                }
            } else {
                let t2 = desc_addr(e3);
                let e2 = m[t2]@[va_level_index(va, 2) as int];
                if e2 == 0 {
                    None
                } else if !desc_table(e2) {
                    if spec_is_aligned(desc_addr(e2), 0x20_0000) {
                        Some((desc_addr(e2) + (va & 0x1f_ffff)) as u64)
                    } else {
                        None
                    }
                } else {
                    let t1 = desc_addr(e2);
                    let e1 = m[t1]@[va_level_index(va, 1) as int];
                    if e1 == 0 {
                        None
                    } else {
                        Some((desc_addr(e1) + (va & 0xfff)) as u64)
                    }
                }
            }
        },
    }
}

/// Address resolution that works across all page sizes of the
/// architecture.
///
/// The trait carries the interface; the exact results are stated on the
/// implementing type, whose structural invariant `mapper_wf` names.
pub trait MapperAllSizes {
    /// The well-formedness the resolution operations rely on.
    spec fn mapper_wf(&self) -> bool;

    /// Resolves a virtual address, reporting the mapped frame of
    /// whatever size terminates the walk and the offset within it.
    fn translate(&self, addr: crate::addr::VirtAddr) -> TranslateResult
        requires
            self.mapper_wf(),
    ;

    /// Translates a virtual address to the physical address it maps to,
    /// or `None` when no valid mapping covers it.
    fn translate_addr(&self, addr: crate::addr::VirtAddr) -> Option<PhysAddr>
        requires
            self.mapper_wf(),
    ;
}

/// The return value of [`RecursivePageTable::translate`].
///
/// A `Frame4KiB`, `Frame2MiB` or `Frame1GiB` variant reports the mapped
/// frame and the offset within it, depending on the size of the mapping
/// found; the remaining variants report errors.
#[derive(Debug, Clone, Copy, PartialEq, Eq, Structural)]
pub enum TranslateResult {
    /// The address is mapped by a 4KiB page descriptor.
    Frame4KiB { frame: crate::paging::frame::PhysFrame, offset: u64 },
    /// The address is mapped by a 2MiB block descriptor.
    Frame2MiB { frame: crate::paging::frame::PhysFrame, offset: u64 },
    /// The address is mapped by a 1GiB block descriptor.
    Frame1GiB { frame: crate::paging::frame::PhysFrame, offset: u64 },
    /// No mapping covers the address.
    PageNotMapped,
    /// The descriptor covering the address stores an output address that
    /// is not aligned to the mapping's size.
    InvalidFrameAddress(PhysAddr),
}

/// A page whose mapping has changed in the translation tables.
///
/// The old mapping might still be cached in translation lookaside
/// buffers, so it must be flushed before the change can be relied on.
/// Every structural mutation returns this token so that the flush is not
/// forgotten: discharge it with [`MapperFlush::flush`], or with
/// [`MapperFlush::ignore`] when the affected address space is not live.
#[derive(Debug)]
#[must_use]
pub struct MapperFlush {
    page: Page,
}

impl MapperFlush {
    /// The page whose translation must be refreshed.
    pub closed spec fn spec_page(self) -> Page {
        self.page
    }

    /// Creates a new flush promise for `page`.
    pub(crate) fn new(page: Page) -> (r: Self)
        ensures
            r.spec_page() == page,
    {
        MapperFlush { page }
    }

    /// Discharges the obligation by invalidating the stale translation.
    ///
    /// The invalidation itself is a privileged instruction sequence issued
    /// by the hardware layer around this crate; consuming the token here
    /// marks the obligation as handled.
    pub fn flush(self) {
    }

    /// Declares the flush unnecessary and consumes the token.
    pub fn ignore(self) {
    }
}

/// The errors returned by `map_to` and `identity_map`.
#[derive(Debug, Clone, Copy, PartialEq, Eq, Structural)]
pub enum MapToError {
    /// An additional frame was needed for the mapping process, but the
    /// frame allocator supplied none that could be used.
    FrameAllocationFailed,
    /// An upper-level descriptor is a block, so the given page is part of
    /// an already mapped huge page.
    ParentEntryHugePage,
    /// The given page is already mapped to a physical frame.
    PageAlreadyMapped,
}

/// The errors returned by `get_entry`.
#[derive(Debug, Clone, Copy, PartialEq, Eq, Structural)]
pub enum EntryGetError {
    /// The given page is not mapped to a physical frame.
    PageNotMapped,
    /// An upper-level descriptor is a block, so the given page is part of
    /// a huge page and has no descriptor of its own.
    ParentEntryHugePage,
}

/// The errors returned by `unmap`.
#[derive(Debug, Clone, Copy, PartialEq, Eq, Structural)]
pub enum UnmapError {
    /// An upper-level descriptor is a block, so the given page is part of
    /// a huge page and cannot be freed individually.
    ParentEntryHugePage,
    /// The given page is not mapped to a physical frame.
    PageNotMapped,
    /// The descriptor for the given page stores an output address that is
    /// not aligned to the page's size.
    InvalidFrameAddress(PhysAddr),
}

/// The errors returned by `update_flags`.
#[derive(Debug, Clone, Copy, PartialEq, Eq, Structural)]
pub enum FlagUpdateError {
    /// The given page is not mapped to a physical frame.
    PageNotMapped,
    /// An upper-level descriptor is a block, so the given page is part of
    /// a huge page and has no flags of its own.
    ParentEntryHugePage,
}

/// The errors returned by `translate_page`.
#[derive(Debug, Clone, Copy, PartialEq, Eq, Structural)]
pub enum TranslateError {
    /// The given page is not mapped to a physical frame.
    PageNotMapped,
    /// An upper-level descriptor is a block, so the given page is part of
    /// a huge page.
    ParentEntryHugePage,
    /// The descriptor for the given page stores an output address that is
    /// not aligned to the page's size.
    InvalidFrameAddress(PhysAddr),
}

impl From<EntryGetError> for UnmapError {
    /// Walk errors surface from `unmap` under the same names.
    fn from(err: EntryGetError) -> Self {
        match err {
            EntryGetError::ParentEntryHugePage => UnmapError::ParentEntryHugePage,
            EntryGetError::PageNotMapped => UnmapError::PageNotMapped,
        }
    }
}

impl vstd::std_specs::convert::FromSpecImpl<EntryGetError> for UnmapError {
    open spec fn obeys_from_spec() -> bool {
        true
    }

    open spec fn from_spec(err: EntryGetError) -> Self {
        match err {
            EntryGetError::ParentEntryHugePage => UnmapError::ParentEntryHugePage,
            EntryGetError::PageNotMapped => UnmapError::PageNotMapped,
        }
    }
}

impl From<EntryGetError> for FlagUpdateError {
    /// Walk errors surface from `update_flags` under the same names.
    fn from(err: EntryGetError) -> Self {
        match err {
            EntryGetError::ParentEntryHugePage => FlagUpdateError::ParentEntryHugePage,
            EntryGetError::PageNotMapped => FlagUpdateError::PageNotMapped,
        }
    }
}

impl vstd::std_specs::convert::FromSpecImpl<EntryGetError> for FlagUpdateError {
    open spec fn obeys_from_spec() -> bool {
        true
    }

    open spec fn from_spec(err: EntryGetError) -> Self {
        match err {
            EntryGetError::ParentEntryHugePage => FlagUpdateError::ParentEntryHugePage,
            EntryGetError::PageNotMapped => FlagUpdateError::PageNotMapped,
        }
    }
}

impl From<EntryGetError> for TranslateError {
    /// Walk errors surface from `translate_page` under the same names.
    fn from(err: EntryGetError) -> Self {
        match err {
            EntryGetError::ParentEntryHugePage => TranslateError::ParentEntryHugePage,
            EntryGetError::PageNotMapped => TranslateError::PageNotMapped,
        }
    }
}

impl vstd::std_specs::convert::FromSpecImpl<EntryGetError> for TranslateError {
    open spec fn obeys_from_spec() -> bool {
        true
    }

    open spec fn from_spec(err: EntryGetError) -> Self {
        match err {
            EntryGetError::ParentEntryHugePage => TranslateError::ParentEntryHugePage,
            EntryGetError::PageNotMapped => TranslateError::PageNotMapped,
        }
    }
}

} // verus!

//! A mapper that reaches every table of the hierarchy through a
//! recursively mapped slot of the root table.
//!
//! One slot of the root (level-4) table — the recursive index — points
//! back at the root table itself. Resolving an address whose leading
//! indices repeat that slot then strips one level of indirection per
//! repetition, so every table of the hierarchy is reachable as an
//! ordinary virtual address, without a separate physical-memory window:
//!
//! - the root table itself sits at indices (R, R, R, R);
//! - the level-3 table for a page at (R, R, R, i4);
//! - the level-2 table at (R, R, i4, i3);
//! - the level-1 table at (R, i4, i3, i2).
//!
//! The tables themselves are held here as an arena keyed by the physical
//! frame of each table, the bounds-checked model of the raw table memory
//! the hardware walks; a ghost level map records which hierarchy level
//! each table serves and underpins the structural invariant.

use std::collections::HashMap;

use vstd::prelude::*;

use crate::addr::{spec_is_aligned, PhysAddr, VirtAddr, MAX_PHYS_ADDR};
use crate::paging::frame::PhysFrame;
use crate::paging::frame_alloc::FrameAllocator;
use crate::paging::mapper::{
    desc_addr, desc_table, desc_valid, lemma_lookup_table_unfold, lemma_missing_tables_unfold,
    lookup_leaf_entry, lookup_table, missing_tables, missing_tables_from, spec_get_entry,
    spec_translate_addr, walk_step, EntryGetError,
    FlagUpdateError, MapToError, MapperFlush, TranslateError, TranslateResult, UnmapError,
};
use crate::paging::page_table::FrameError;
use crate::paging::page::{va_level_index, Page, PageSize};
use crate::paging::page_table::{PageTable, PageTableAttribute, PageTableEntry, PageTableFlags};

verus! {

broadcast use vstd::std_specs::hash::group_hash_axioms;

/// The structural invariant of a recursively mapped table hierarchy.
///
/// `m` is the arena of live tables keyed by their frame, `lv` assigns
/// each table its hierarchy level, `root` is the frame of the level-4
/// table and `rec` the recursive index:
///
/// - the root table is present, at level 4, and is the only level-4
///   table;
/// - every table holds 512 descriptors and sits on a 4KiB-aligned frame
///   inside the implemented physical address width;
/// - the recursive slot of the root table points back at the root table;
/// - every other table descriptor of a table above level 1 points at a
///   present table exactly one level below its own.
pub open spec fn state_wf(
    m: Map<u64, PageTable>,
    lv: Map<u64, int>,
    root: u64,
    rec: u64,
) -> bool {
    &&& rec < 512
    &&& m.dom().finite()
    &&& lv.dom() == m.dom()
    &&& m.dom().contains(root)
    &&& lv[root] == 4
    &&& (forall|t: u64| #[trigger]
        m.dom().contains(t) ==> m[t]@.len() == 512 && spec_is_aligned(t, 0x1000) && t
            < MAX_PHYS_ADDR && 1 <= lv[t] <= 4 && (lv[t] == 4 ==> t == root))
    &&& desc_valid(m[root]@[rec as int])
    &&& desc_table(m[root]@[rec as int])
    &&& desc_addr(m[root]@[rec as int]) == root
    &&& (forall|t: u64, i: int|
        #![trigger m[t]@[i]]
        m.dom().contains(t) && 0 <= i < 512 && lv[t] >= 2 && !(t == root && i == rec as int)
            && desc_table(m[t]@[i]) ==> m.dom().contains(desc_addr(m[t]@[i])) && lv[desc_addr(
            m[t]@[i],
        )] == lv[t] - 1)
}

/// A 4-level table hierarchy accessed through a recursively mapped slot
/// of its root table, together with the tables it governs.
///
/// A value of this type represents exclusive access to one address
/// space's tables; concurrent structural edits to the same address space
/// must be serialized outside.
pub struct RecursivePageTable {
    recursive_index: u16,
    root_table: u64,
    tables: HashMap<u64, PageTable>,
    levels: Ghost<Map<u64, int>>,
}

impl RecursivePageTable {
    /// The arena of live tables, keyed by each table's physical frame.
    pub closed spec fn mem(self) -> Map<u64, PageTable> {
        self.tables@
    }

    /// The hierarchy level of each live table.
    pub closed spec fn levels_map(self) -> Map<u64, int> {
        self.levels@
    }

    /// The physical frame of the root table.
    pub closed spec fn root(self) -> u64 {
        self.root_table
    }

    /// The recursive index.
    pub closed spec fn rec_index(self) -> u64 {
        self.recursive_index as u64
    }

    /// The structural invariant; see [`state_wf`].
    pub open spec fn wf(self) -> bool {
        state_wf(self.mem(), self.levels_map(), self.root(), self.rec_index())
    }

    /// Creates a mapper for a fresh address space rooted at `root_frame`,
    /// whose slot `recursive_index` of the root table is mapped back at
    /// the root table itself. All other root entries start out unused.
    pub fn new(recursive_index: u16, root_frame: PhysFrame) -> (r: Self)
        requires
            recursive_index < 512,
        ensures
            r.wf(),
            r.rec_index() == recursive_index as u64,
            r.root() == root_frame.spec_start(),
            r.mem().dom() == Set::<u64>::empty().insert(root_frame.spec_start()),
            r.mem()[r.root()]@.len() == 512,
            forall|i: int|
                0 <= i < 512 && i != recursive_index as int ==> r.mem()[r.root()]@[i] == 0,
            r.mem()[r.root()]@[recursive_index as int] == (root_frame.spec_start() | 0x3u64
                | 0x300u64),
    {
        proof {
            use_type_invariant(root_frame);
            root_frame.spec_size().lemma_size_power_of_two();
            crate::paging::page_table::lemma_constant_masks();
            crate::paging::page_table::lemma_coarser_alignment(root_frame.spec_start());
        }
        let mut table = PageTable::new();
        let mut entry = PageTableEntry::new();
        entry.set_frame(
            root_frame,
            PageTableFlags::default_table(),
            crate::paging::memory_attribute::MairNormal::attr_value(),
        );
        table.set_entry(recursive_index, entry);
        let root = root_frame.start_address().as_u64();
        let mut tables: HashMap<u64, PageTable> = HashMap::new();
        tables.insert(root, table);
        let r = RecursivePageTable {
            recursive_index,
            root_table: root,
            tables,
            levels: Ghost(Map::<u64, int>::empty().insert(root, 4)),
        };
        proof {
            let m = r.mem();
            let rec = recursive_index as u64;
            assert(m.dom() == Set::<u64>::empty().insert(root));
            assert(m[root]@[rec as int] == (root | 0x3u64 | 0x300u64));
            crate::paging::page_table::lemma_encode(root, 0x3u64, 0x300u64);
            assert forall|t: u64, i: int|
                #![trigger m[t]@[i]]
                m.dom().contains(t) && 0 <= i < 512 && r.levels_map()[t] >= 2 && !(t == root && i
                    == rec as int) && desc_table(m[t]@[i]) implies m.dom().contains(
                desc_addr(m[t]@[i]),
            ) && r.levels_map()[desc_addr(m[t]@[i])] == r.levels_map()[t] - 1 by {
                assert(t == root);
                assert(m[t]@[i] == 0);
                assert(!desc_table(0));
            }
        }
        r
    }

    /// Whether the arena holds a table at frame `t`.
    fn contains_table(&self, t: u64) -> (r: bool)
        ensures
            r == self.mem().dom().contains(t),
    {
        self.tables.contains_key(&t)
    }

    /// Reads the descriptor at `idx` of the table at frame `t`.
    fn table_entry(&self, t: u64, idx: u16) -> (r: PageTableEntry)
        requires
            self.mem().dom().contains(t),
            self.mem()[t]@.len() == 512,
            idx < 512,
        ensures
            r@ == self.mem()[t]@[idx as int],
    {
        let table = self.tables.get(&t).unwrap();
        table.entry(idx)
    }

    /// Replaces the descriptor at `idx` of the table at frame `t`.
    fn set_table_entry(&mut self, t: u64, idx: u16, e: PageTableEntry)
        requires
            old(self).mem().dom().contains(t),
            old(self).mem()[t]@.len() == 512,
            idx < 512,
        ensures
            final(self).mem().dom() == old(self).mem().dom(),
            final(self).mem()[t]@ == old(self).mem()[t]@.update(idx as int, e@),
            forall|k: u64|
                k != t && old(self).mem().dom().contains(k) ==> final(self).mem()[k] == old(
                    self,
                ).mem()[k],
            final(self).levels_map() == old(self).levels_map(),
            final(self).root() == old(self).root(),
            final(self).rec_index() == old(self).rec_index(),
    {
        let mut table = self.tables.remove(&t).unwrap();
        table.set_entry(idx, e);
        self.tables.insert(t, table);
        proof {
            assert(self.mem().dom() =~= old(self).mem().dom());
        }
    }

    /// Creates the next-level table behind the descriptor at `index` of
    /// the table at frame `t`, if needed.
    ///
    /// An unused descriptor is filled with a freshly allocated frame,
    /// carrying default table flags and the normal-cacheable memory
    /// attribute, and the fresh table is zeroed before it becomes
    /// reachable (on hardware, a store-ordering barrier sits between
    /// linking the frame and trusting its contents). An existing table
    /// descriptor is followed directly. A block descriptor stops the
    /// descent with `ParentEntryHugePage`; a frame that cannot be used —
    /// none available, or one already backing a live table — stops it
    /// with `FrameAllocationFailed`.
    fn create_next_table<A: FrameAllocator>(
        &mut self,
        t: u64,
        index: u16,
        allocator: &mut A,
    ) -> (r: Result<u64, MapToError>)
        requires
            old(self).wf(),
            old(self).mem().dom().contains(t),
            old(self).levels_map()[t] >= 2,
            index < 512,
            !(t == old(self).root() && index as u64 == old(self).rec_index()),
        ensures
            final(self).wf(),
            final(self).root() == old(self).root(),
            final(self).rec_index() == old(self).rec_index(),
            final(self).mem().dom().contains(t),
            ({
                let e = old(self).mem()[t]@[index as int];
                &&& (e != 0 && !desc_table(e)) ==> r == Err::<u64, MapToError>(
                    MapToError::ParentEntryHugePage,
                ) && *final(self) == *old(self)
                &&& (e != 0 && desc_table(e)) ==> r == Ok::<u64, MapToError>(desc_addr(e))
                    && *final(self) == *old(self)
                &&& (e == 0 && r is Err) ==> r == Err::<u64, MapToError>(
                    MapToError::FrameAllocationFailed,
                ) && *final(self) == *old(self)
                &&& (e == 0 && r is Ok) ==> (r matches Ok(tn) && {
                    &&& !old(self).mem().dom().contains(tn)
                    &&& final(self).mem().dom() == old(self).mem().dom().insert(tn)
                    &&& final(self).levels_map() == old(self).levels_map().insert(
                        tn,
                        old(self).levels_map()[t] - 1,
                    )
                    &&& final(self).mem()[t]@ == old(self).mem()[t]@.update(
                        index as int,
                        tn | 0x3u64 | 0x300u64,
                    )
                    &&& (forall|k: u64|
                        k != t && old(self).mem().dom().contains(k) ==> final(self).mem()[k] == old(
                            self,
                        ).mem()[k])
                    &&& (forall|i: int| 0 <= i < 512 ==> final(self).mem()[tn]@[i] == 0)
                })
                &&& (r matches Ok(tn) ==> final(self).mem().dom().contains(tn)
                    && final(self).levels_map()[tn] == old(self).levels_map()[t] - 1 && walk_step(
                    final(self).mem(),
                    t,
                    index as u64,
                    false,
                ) == Ok::<u64, EntryGetError>(tn))
            }),
    {
        proof {
            crate::paging::page_table::lemma_constant_masks();
        }
        let entry = self.table_entry(t, index);
        if entry.is_unused() {
            let frame = match allocator.allocate_frame() {
                Some(frame) => frame,
                None => {
                    return Err(MapToError::FrameAllocationFailed);
                },
            };
            proof {
                use_type_invariant(frame);
                frame.spec_size().lemma_size_power_of_two();
            }
            let tn = frame.start_address().as_u64();
            if self.contains_table(tn) {
                // The allocator handed out a frame that already backs a
                // live table; accepting it would corrupt the hierarchy.
                return Err(MapToError::FrameAllocationFailed);
            }
            let mut desc = PageTableEntry::new();
            desc.set_frame(
                frame,
                PageTableFlags::default_table(),
                crate::paging::memory_attribute::MairNormal::attr_value(),
            );
            self.set_table_entry(t, index, desc);
            let fresh = PageTable::new();
            self.tables.insert(tn, fresh);
            proof {
                let ghost lvl = self.levels@[t];
                self.levels = Ghost(self.levels@.insert(tn, lvl - 1));
            }
            proof {
                crate::paging::page_table::lemma_encode(tn, 0x3u64, 0x300u64);
                let m0 = old(self).mem();
                let lv0 = old(self).levels_map();
                let m = self.mem();
                let lv = self.levels_map();
                let root = self.root();
                let rec = self.rec_index();
                assert(m.dom() =~= m0.dom().insert(tn));
                assert(m[t]@ == m0[t]@.update(index as int, tn | 0x3u64 | 0x300u64));
                assert forall|t0: u64| #[trigger] m.dom().contains(t0) implies m[t0]@.len() == 512
                    && spec_is_aligned(t0, 0x1000) && t0 < MAX_PHYS_ADDR && 1 <= lv[t0] <= 4 && (
                lv[t0] == 4 ==> t0 == root) by {
                    if t0 == tn {
                        assert(m[tn]@.len() == 512);
                    } else if t0 == t {
                        assert(m[t]@.len() == m0[t]@.len());
                    } else {
                        assert(m[t0] == m0[t0]);
                    }
                }
                assert(m[root]@[rec as int] == m0[root]@[rec as int]);
                assert forall|t0: u64, i: int|
                    #![trigger m[t0]@[i]]
                    m.dom().contains(t0) && 0 <= i < 512 && lv[t0] >= 2 && !(t0 == root && i
                        == rec as int) && desc_table(m[t0]@[i]) implies m.dom().contains(
                    desc_addr(m[t0]@[i]),
                ) && lv[desc_addr(m[t0]@[i])] == lv[t0] - 1 by {
                    if t0 == tn {
                        assert(m[tn]@[i] == 0);
                        assert(!desc_table(0u64));
                    } else if t0 == t && i == index as int {
                        assert(desc_addr(m[t]@[i]) == tn);
                    } else {
                        assert(m[t0]@[i] == m0[t0]@[i]);
                        let tgt = desc_addr(m0[t0]@[i]);
                        assert(m0.dom().contains(tgt) && lv0[tgt] == lv0[t0] - 1);
                        assert(tgt != tn);
                    }
                }
                assert(state_wf(m, lv, root, rec));
            }
            Ok(tn)
        } else if entry.is_block() {
            Err(MapToError::ParentEntryHugePage)
        } else {
            proof {
                crate::paging::page_table::lemma_entry_masks(entry@);
                assert(walk_step(self.mem(), t, index as u64, false) == Ok::<u64, EntryGetError>(
                    desc_addr(entry@),
                ));
            }
            Ok(entry.addr().as_u64())
        }
    }

    /// Creates a new leaf mapping from `page` to `frame`.
    ///
    /// The walk descends from the root to the level matching the page
    /// size, creating missing intermediate tables from `allocator` on the
    /// way — at most three for a 4KiB page in an otherwise empty address
    /// space, none where the path already exists. A block along the path
    /// fails with `ParentEntryHugePage`; an unusable allocator frame with
    /// `FrameAllocationFailed` (intermediate tables created so far
    /// remain); a leaf already in use with `PageAlreadyMapped`, leaving
    /// every table untouched. On success the descriptor holds exactly
    /// `frame`, `flags` and `attr`, and the returned token carries the
    /// flush obligation for `page`.
    ///
    /// The caller must guarantee that `frame` is not in use elsewhere,
    /// must keep the page out of the recursive region, and must pass
    /// `TABLE_OR_PAGE` exactly for 4KiB pages (larger pages are mapped by
    /// block descriptors, which carry that bit cleared).
    pub fn map_to<A: FrameAllocator>(
        &mut self,
        page: Page,
        frame: PhysFrame,
        flags: PageTableFlags,
        attr: PageTableAttribute,
        allocator: &mut A,
    ) -> (r: Result<MapperFlush, MapToError>)
        requires
            old(self).wf(),
            page.spec_size() == frame.spec_size(),
            va_level_index(page.spec_start(), 4) != old(self).rec_index(),
            (page.spec_size() == PageSize::Size4KiB) <==> (flags@ & 0x2u64 == 0x2u64),
        ensures
            final(self).wf(),
            final(self).root() == old(self).root(),
            final(self).rec_index() == old(self).rec_index(),
            ({
                let m0 = old(self).mem();
                let mf = final(self).mem();
                let root = old(self).root();
                let va = page.spec_start();
                let leaf = page.spec_size().leaf_level();
                let li = va_level_index(va, leaf) as int;
                &&& (r == Err::<MapperFlush, MapToError>(MapToError::ParentEntryHugePage) <==>
                    lookup_table(m0, root, va, leaf, false) == Err::<u64, EntryGetError>(
                    EntryGetError::ParentEntryHugePage,
                ))
                &&& (r == Err::<MapperFlush, MapToError>(MapToError::PageAlreadyMapped) <==> (
                lookup_table(m0, root, va, leaf, false) matches Ok(tl) && m0[tl]@[li] != 0))
                &&& (r == Err::<MapperFlush, MapToError>(MapToError::ParentEntryHugePage) || r
                    == Err::<MapperFlush, MapToError>(MapToError::PageAlreadyMapped))
                    ==> *final(self) == *old(self)
                &&& r == Err::<MapperFlush, MapToError>(MapToError::FrameAllocationFailed) ==> {
                    &&& missing_tables(m0, root, va, leaf) > 0
                    &&& m0.dom().subset_of(mf.dom())
                    &&& lookup_leaf_entry(mf, root, va, leaf, false) == Err::<u64, EntryGetError>(
                        EntryGetError::PageNotMapped,
                    )
                }
                &&& (r matches Ok(fl) ==> {
                    &&& fl.spec_page() == page
                    &&& lookup_leaf_entry(mf, root, va, leaf, false) == Ok::<u64, EntryGetError>(
                        frame.spec_start() | flags@ | attr@,
                    )
                    &&& m0.dom().subset_of(mf.dom())
                    &&& mf.dom().len() == m0.dom().len() + missing_tables(m0, root, va, leaf)
                    &&& (forall|k: u64, j: int|
                        m0.dom().contains(k) && 0 <= j < 512 && !(k == root && j == va_level_index(
                            va,
                            4,
                        ) as int) && !(lookup_table(mf, root, va, 3, false) == Ok::<
                            u64,
                            EntryGetError,
                        >(k) && j == va_level_index(va, 3) as int) && !(lookup_table(
                            mf,
                            root,
                            va,
                            2,
                            false,
                        ) == Ok::<u64, EntryGetError>(k) && j == va_level_index(va, 2) as int) && !(
                        lookup_table(mf, root, va, 1, false) == Ok::<u64, EntryGetError>(k) && j
                            == va_level_index(va, 1) as int) ==> #[trigger] mf[k]@[j] == m0[k]@[j])
                })
                &&& (lookup_table(m0, root, va, leaf, false) matches Ok(tl) && m0[tl]@[li] == 0)
                    ==> r is Ok
            }),
    {
        proof {
            crate::paging::page_table::lemma_constant_masks();
            crate::paging::page_table::lemma_entry_masks(flags@);
            use_type_invariant(flags);
            use_type_invariant(attr);
            use_type_invariant(frame);
            frame.spec_size().lemma_size_power_of_two();
        }
        let ghost m0 = self.mem();
        let ghost va = page.spec_start();
        let ghost rec = self.rec_index();
        let root = self.root_table;
        let i4 = page.p4_index();
        let i3 = page.p3_index();
        let i2 = page.p2_index();
        let i1 = page.p1_index();
        let ghost e4 = m0[root]@[i4 as int];
        let ghost leaf = page.spec_size().leaf_level();
        proof {
            lemma_lookup_table_unfold(m0, root, va, false);
            lemma_missing_tables_unfold(m0, root, va, leaf);
        }
        let t3 = match self.create_next_table(root, i4, allocator) {
            Ok(t) => t,
            Err(e) => {
                return Err(e);
            },
        };
        let ghost m1 = self.mem();
        let ghost created4 = e4 == 0;
        proof {
            if created4 {
                assert(forall|i: int| 0 <= i < 512 ==> m1[t3]@[i] == 0);
            } else {
                assert(m1 == m0 && t3 == desc_addr(e4));
            }
            assert(t3 != root && self.levels_map()[t3] == 3) by {
                assert(self.levels_map()[root] == 4);
            }
        }
        let ghost e3 = m1[t3]@[i3 as int];
        if let PageSize::Size1GiB = page.size() {
            let entry3 = self.table_entry(t3, i3);
            if !entry3.is_unused() {
                proof {
                    assert(!created4);
                }
                return Err(MapToError::PageAlreadyMapped);
            }
            let mut desc = PageTableEntry::new();
            desc.set_block(frame.start_address(), PageSize::Size1GiB, flags, attr);
            let ghost mb = self.mem();
            self.set_table_entry(t3, i3, desc);
            proof {
                crate::addr::lemma_align_down_identity(
                    frame.spec_start(),
                    PageSize::Size1GiB.spec_size(),
                );
                lemma_wf_after_leaf_write(
                    mb,
                    self.levels_map(),
                    root,
                    rec,
                    t3,
                    i3 as int,
                    self.mem(),
                    frame.spec_start() | flags@ | attr@,
                );
                lemma_lookup_table_unfold(self.mem(), root, va, false);
                assert(self.mem()[root]@[i4 as int] == mb[root]@[i4 as int]);
                assert(lookup_table(self.mem(), root, va, 3, false) == Ok::<u64, EntryGetError>(
                    t3,
                ));
                if created4 {
                    assert(self.mem().dom().len() == m0.dom().len() + 1);
                } else {
                    assert(self.mem().dom() =~= m0.dom());
                }
            }
            return Ok(MapperFlush::new(page));
        }
        let t2 = match self.create_next_table(t3, i3, allocator) {
            Ok(t) => t,
            Err(e) => {
                proof {
                    if created4 {
                        assert(e3 == 0);
                    }
                    lemma_lookup_table_unfold(self.mem(), root, va, false);
                    assert(self.mem()[root]@[i4 as int] == m1[root]@[i4 as int]);
                }
                return Err(e);
            },
        };
        let ghost m2 = self.mem();
        let ghost created3 = e3 == 0;
        proof {
            if created3 {
                assert(forall|i: int| 0 <= i < 512 ==> m2[t2]@[i] == 0);
            } else {
                assert(m2 == m1 && t2 == desc_addr(e3));
            }
            assert(created4 ==> created3);
            assert(t2 != root && t2 != t3 && self.levels_map()[t2] == 2) by {
                assert(self.levels_map()[root] == 4 && self.levels_map()[t3] == 3);
            }
            assert(m2[root]@[i4 as int] == m1[root]@[i4 as int]);
        }
        let ghost e2 = m2[t2]@[i2 as int];
        if let PageSize::Size2MiB = page.size() {
            let entry2 = self.table_entry(t2, i2);
            if !entry2.is_unused() {
                proof {
                    assert(!created3 && !created4);
                    lemma_lookup_table_unfold(m0, root, va, false);
                }
                return Err(MapToError::PageAlreadyMapped);
            }
            let mut desc = PageTableEntry::new();
            desc.set_block(frame.start_address(), PageSize::Size2MiB, flags, attr);
            let ghost mb = self.mem();
            self.set_table_entry(t2, i2, desc);
            proof {
                crate::addr::lemma_align_down_identity(
                    frame.spec_start(),
                    PageSize::Size2MiB.spec_size(),
                );
                lemma_wf_after_leaf_write(
                    mb,
                    self.levels_map(),
                    root,
                    rec,
                    t2,
                    i2 as int,
                    self.mem(),
                    frame.spec_start() | flags@ | attr@,
                );
                lemma_lookup_table_unfold(self.mem(), root, va, false);
                assert(self.mem()[root]@[i4 as int] == mb[root]@[i4 as int]);
                assert(self.mem()[t3]@[i3 as int] == mb[t3]@[i3 as int]);
                if created4 {
                    assert(self.mem().dom().len() == m0.dom().len() + 2);
                } else if created3 {
                    assert(self.mem().dom().len() == m0.dom().len() + 1);
                } else {
                    assert(self.mem().dom() =~= m0.dom());
                }
            }
            return Ok(MapperFlush::new(page));
        }
        let t1 = match self.create_next_table(t2, i2, allocator) {
            Ok(t) => t,
            Err(e) => {
                proof {
                    if created3 {
                        assert(e2 == 0);
                    }
                    lemma_lookup_table_unfold(self.mem(), root, va, false);
                    assert(self.mem()[root]@[i4 as int] == m2[root]@[i4 as int]);
                    assert(self.mem()[t3]@[i3 as int] == m2[t3]@[i3 as int]);
                }
                return Err(e);
            },
        };
        let ghost m3 = self.mem();
        let ghost created2 = e2 == 0;
        proof {
            if created2 {
                assert(forall|i: int| 0 <= i < 512 ==> m3[t1]@[i] == 0);
            } else {
                assert(m3 == m2 && t1 == desc_addr(e2));
            }
            assert(created3 ==> created2);
            assert(t1 != root && t1 != t3 && t1 != t2 && self.levels_map()[t1] == 1) by {
                assert(self.levels_map()[root] == 4 && self.levels_map()[t3] == 3
                    && self.levels_map()[t2] == 2);
            }
            assert(m3[root]@[i4 as int] == m2[root]@[i4 as int]);
            assert(m3[t3]@[i3 as int] == m2[t3]@[i3 as int]);
        }
        let entry1 = self.table_entry(t1, i1);
        if !entry1.is_unused() {
            proof {
                assert(!created2 && !created3 && !created4);
                lemma_lookup_table_unfold(m0, root, va, false);
            }
            return Err(MapToError::PageAlreadyMapped);
        }
        let mut desc = PageTableEntry::new();
        desc.set_frame(frame, flags, attr);
        let ghost mb = self.mem();
        self.set_table_entry(t1, i1, desc);
        proof {
            lemma_wf_after_leaf_write(
                mb,
                self.levels_map(),
                root,
                rec,
                t1,
                i1 as int,
                self.mem(),
                frame.spec_start() | flags@ | attr@,
            );
            lemma_lookup_table_unfold(self.mem(), root, va, false);
            lemma_lookup_table_unfold(m0, root, va, false);
            assert(self.mem()[root]@[i4 as int] == mb[root]@[i4 as int]);
            assert(self.mem()[t3]@[i3 as int] == mb[t3]@[i3 as int]);
            assert(self.mem()[t2]@[i2 as int] == mb[t2]@[i2 as int]);
            assert(lookup_table(self.mem(), root, va, 1, false) == Ok::<u64, EntryGetError>(t1));
            if created4 {
                assert(self.mem().dom().len() == m0.dom().len() + 3);
            } else if created3 {
                assert(self.mem().dom().len() == m0.dom().len() + 2);
            } else if created2 {
                assert(self.mem().dom().len() == m0.dom().len() + 1);
            } else {
                assert(self.mem().dom() =~= m0.dom());
            }
        }
        Ok(MapperFlush::new(page))
    }

    /// Performs one walk step in the executable walk.
    fn walk_one(&self, t: u64, idx: u16, strict: bool) -> (r: Result<u64, EntryGetError>)
        requires
            self.wf(),
            self.mem().dom().contains(t),
            self.levels_map()[t] >= 2,
            idx < 512,
        ensures
            r == walk_step(self.mem(), t, idx as u64, strict),
            r matches Ok(t2) ==> self.mem().dom().contains(t2) && ((t == self.root() && idx as u64
                == self.rec_index() && t2 == self.root() && self.levels_map()[t2] == 4) || (!(t
                == self.root() && idx as u64 == self.rec_index()) && self.levels_map()[t2]
                == self.levels_map()[t] - 1)),
    {
        let e = self.table_entry(t, idx);
        proof {
            crate::paging::page_table::lemma_constant_masks();
            crate::paging::page_table::lemma_entry_masks(e@);
        }
        let absent = if strict {
            !e.flags().contains(PageTableFlags::VALID())
        } else {
            e.is_unused()
        };
        if absent {
            Err(EntryGetError::PageNotMapped)
        } else if e.is_block() {
            Err(EntryGetError::ParentEntryHugePage)
        } else {
            proof {
                lemma_step_target(
                    self.mem(),
                    self.levels_map(),
                    self.root(),
                    self.rec_index(),
                    t,
                    idx as u64,
                );
            }
            Ok(e.addr().as_u64())
        }
    }

    /// Walks from the root down to the table holding the leaf descriptor
    /// for `page`.
    fn leaf_table_of(&self, page: Page, strict: bool) -> (r: Result<u64, EntryGetError>)
        requires
            self.wf(),
        ensures
            r == lookup_table(
                self.mem(),
                self.root(),
                page.spec_start(),
                page.spec_size().leaf_level(),
                strict,
            ),
            r matches Ok(t) ==> self.mem().dom().contains(t) && self.mem()[t]@.len() == 512
                && self.levels_map()[t] >= page.spec_size().leaf_level(),
            r matches Ok(t) ==> (va_level_index(page.spec_start(), 4) != self.rec_index()
                ==> self.levels_map()[t] == page.spec_size().leaf_level()),
    {
        proof {
            lemma_lookup_table_unfold(self.mem(), self.root(), page.spec_start(), strict);
        }
        let root = self.root_table;
        let i4 = page.p4_index();
        let t3 = match self.walk_one(root, i4, strict) {
            Ok(t) => t,
            Err(e) => {
                return Err(e);
            },
        };
        if let PageSize::Size1GiB = page.size() {
            return Ok(t3);
        }
        let i3 = page.p3_index();
        let t2 = match self.walk_one(t3, i3, strict) {
            Ok(t) => t,
            Err(e) => {
                return Err(e);
            },
        };
        if let PageSize::Size2MiB = page.size() {
            return Ok(t2);
        }
        let i2 = page.p2_index();
        let t1 = match self.walk_one(t2, i2, strict) {
            Ok(t) => t,
            Err(e) => {
                return Err(e);
            },
        };
        Ok(t1)
    }

    /// The index selecting the leaf descriptor for `page` in its leaf
    /// table.
    fn leaf_index_of(&self, page: Page) -> (r: u16)
        ensures
            r as u64 == va_level_index(page.spec_start(), page.spec_size().leaf_level()),
            r < 512,
    {
        match page.size() {
            PageSize::Size4KiB => page.p1_index(),
            PageSize::Size2MiB => page.p2_index(),
            PageSize::Size1GiB => page.p3_index(),
        }
    }

    /// Looks up the leaf descriptor for `page`.
    ///
    /// Fails with `PageNotMapped` when any descriptor along the path —
    /// the leaf included — is unused, and with `ParentEntryHugePage` when
    /// a block descriptor cuts the path short.
    pub fn get_entry(&self, page: Page) -> (r: Result<PageTableEntry, EntryGetError>)
        requires
            self.wf(),
        ensures
            ({
                let ge = spec_get_entry(
                    self.mem(),
                    self.root(),
                    page.spec_start(),
                    page.spec_size().leaf_level(),
                );
                &&& (ge matches Err(e) ==> r == Err::<PageTableEntry, EntryGetError>(e))
                &&& (ge matches Ok(ev) ==> (r matches Ok(en) && en@ == ev))
            }),
    {
        let t = match self.leaf_table_of(page, false) {
            Ok(t) => t,
            Err(e) => {
                return Err(e);
            },
        };
        let li = self.leaf_index_of(page);
        let e = self.table_entry(t, li);
        if e.is_unused() {
            Err(EntryGetError::PageNotMapped)
        } else {
            Ok(e)
        }
    }

    /// The frame that `page` is mapped to.
    ///
    /// The page must be mapped at exactly the size of `page`: a stored
    /// output address that is not aligned to that size fails with
    /// `InvalidFrameAddress`.
    pub fn translate_page(&self, page: Page) -> (r: Result<PhysFrame, TranslateError>)
        requires
            self.wf(),
        ensures
            ({
                let le = lookup_leaf_entry(
                    self.mem(),
                    self.root(),
                    page.spec_start(),
                    page.spec_size().leaf_level(),
                    false,
                );
                &&& le == Err::<u64, EntryGetError>(EntryGetError::PageNotMapped) ==> r == Err::<
                    PhysFrame,
                    TranslateError,
                >(TranslateError::PageNotMapped)
                &&& le == Err::<u64, EntryGetError>(EntryGetError::ParentEntryHugePage) ==> r
                    == Err::<PhysFrame, TranslateError>(TranslateError::ParentEntryHugePage)
                &&& (le matches Ok(ev) ==> {
                    &&& ev == 0 ==> r == Err::<PhysFrame, TranslateError>(
                        TranslateError::PageNotMapped,
                    )
                    &&& (ev != 0 && !spec_is_aligned(desc_addr(ev), page.spec_size().spec_size()))
                        ==> (r matches Err(TranslateError::InvalidFrameAddress(a)) && a@
                        == desc_addr(ev))
                    &&& (ev != 0 && spec_is_aligned(desc_addr(ev), page.spec_size().spec_size()))
                        ==> (r matches Ok(f) && f.spec_start() == desc_addr(ev) && f.spec_size()
                        == page.spec_size())
                })
            }),
    {
        let entry = match self.get_entry(page) {
            Ok(e) => e,
            Err(EntryGetError::PageNotMapped) => {
                return Err(TranslateError::PageNotMapped);
            },
            Err(EntryGetError::ParentEntryHugePage) => {
                return Err(TranslateError::ParentEntryHugePage);
            },
        };
        match PhysFrame::from_start_address(entry.addr(), page.size()) {
            Ok(f) => Ok(f),
            Err(()) => Err(TranslateError::InvalidFrameAddress(entry.addr())),
        }
    }

    /// Replaces the flag bits of the leaf descriptor for `page`, leaving
    /// its output address and memory attribute fields untouched.
    ///
    /// Fails with `PageNotMapped` when the leaf — or anything on the way
    /// to it — is unused, and with `ParentEntryHugePage` when a block
    /// descriptor cuts the path short. The page must stay out of the
    /// recursive region, and flags for a block-mapped page must keep
    /// `TABLE_OR_PAGE` cleared.
    pub fn update_flags(&mut self, page: Page, flags: PageTableFlags) -> (r: Result<
        MapperFlush,
        FlagUpdateError,
    >)
        requires
            old(self).wf(),
            va_level_index(page.spec_start(), 4) != old(self).rec_index(),
            page.spec_size() != PageSize::Size4KiB ==> flags@ & 0x2u64 == 0,
        ensures
            final(self).wf(),
            final(self).root() == old(self).root(),
            final(self).rec_index() == old(self).rec_index(),
            ({
                let m0 = old(self).mem();
                let mf = final(self).mem();
                let root = old(self).root();
                let va = page.spec_start();
                let leaf = page.spec_size().leaf_level();
                let le = lookup_leaf_entry(m0, root, va, leaf, false);
                &&& le == Err::<u64, EntryGetError>(EntryGetError::PageNotMapped) ==> r == Err::<
                    MapperFlush,
                    FlagUpdateError,
                >(FlagUpdateError::PageNotMapped) && *final(self) == *old(self)
                &&& le == Err::<u64, EntryGetError>(EntryGetError::ParentEntryHugePage) ==> r
                    == Err::<MapperFlush, FlagUpdateError>(FlagUpdateError::ParentEntryHugePage)
                    && *final(self) == *old(self)
                &&& (le matches Ok(ev) ==> {
                    &&& ev == 0 ==> r == Err::<MapperFlush, FlagUpdateError>(
                        FlagUpdateError::PageNotMapped,
                    ) && *final(self) == *old(self)
                    &&& ev != 0 ==> (r matches Ok(fl) && fl.spec_page() == page
                        && lookup_leaf_entry(mf, root, va, leaf, false) == Ok::<u64, EntryGetError>(
                        (ev & !crate::paging::page_table::FLAGS_MASK) | flags@,
                    ) && mf.dom() == m0.dom() && final(self).levels_map() == old(self).levels_map())
                })
            }),
    {
        proof {
            crate::paging::page_table::lemma_constant_masks();
            use_type_invariant(flags);
        }
        let t = match self.leaf_table_of(page, false) {
            Ok(t) => t,
            Err(EntryGetError::PageNotMapped) => {
                return Err(FlagUpdateError::PageNotMapped);
            },
            Err(EntryGetError::ParentEntryHugePage) => {
                return Err(FlagUpdateError::ParentEntryHugePage);
            },
        };
        let li = self.leaf_index_of(page);
        let mut e = self.table_entry(t, li);
        if e.is_unused() {
            return Err(FlagUpdateError::PageNotMapped);
        }
        e.set_flags(flags);
        let ghost mb = self.mem();
        self.set_table_entry(t, li, e);
        proof {
            crate::paging::page_table::lemma_entry_masks(e@);
            lemma_wf_after_leaf_write(
                mb,
                self.levels_map(),
                self.root(),
                self.rec_index(),
                t,
                li as int,
                self.mem(),
                e@,
            );
            lemma_lookup_frame(
                mb,
                self.mem(),
                self.levels_map(),
                self.root(),
                self.rec_index(),
                page.spec_start(),
                page.spec_size().leaf_level(),
                t,
                false,
            );
        }
        Ok(MapperFlush::new(page))
    }

    /// Removes the mapping of `page` and returns the frame that was
    /// mapped, leaving intermediate tables in place even when they become
    /// entirely empty.
    ///
    /// The walk checks every descriptor on the way strictly: an invalid
    /// one fails with `PageNotMapped`, a block with `ParentEntryHugePage`.
    /// At the leaf, a 4KiB page needs a valid page descriptor (a block
    /// there means the huge mapping must be removed at its own size);
    /// a 2MiB or 1GiB page needs a valid block descriptor (a table there
    /// means the region is mapped at finer granularity, so no mapping of
    /// this size exists), whose stored address must be aligned to the
    /// page size or the call fails with `InvalidFrameAddress`. The page
    /// must stay out of the recursive region.
    pub fn unmap(&mut self, page: Page) -> (r: Result<(PhysFrame, MapperFlush), UnmapError>)
        requires
            old(self).wf(),
            va_level_index(page.spec_start(), 4) != old(self).rec_index(),
        ensures
            final(self).wf(),
            final(self).root() == old(self).root(),
            final(self).rec_index() == old(self).rec_index(),
            ({
                let m0 = old(self).mem();
                let mf = final(self).mem();
                let root = old(self).root();
                let va = page.spec_start();
                let leaf = page.spec_size().leaf_level();
                let li = va_level_index(va, leaf) as int;
                let lt = lookup_table(m0, root, va, leaf, true);
                &&& lt == Err::<u64, EntryGetError>(EntryGetError::PageNotMapped) ==> r == Err::<
                    (PhysFrame, MapperFlush),
                    UnmapError,
                >(UnmapError::PageNotMapped) && *final(self) == *old(self)
                &&& lt == Err::<u64, EntryGetError>(EntryGetError::ParentEntryHugePage) ==> r
                    == Err::<(PhysFrame, MapperFlush), UnmapError>(UnmapError::ParentEntryHugePage)
                    && *final(self) == *old(self)
                &&& (lt matches Ok(t) ==> {
                    let ev = m0[t]@[li];
                    &&& !desc_valid(ev) ==> r == Err::<(PhysFrame, MapperFlush), UnmapError>(
                        UnmapError::PageNotMapped,
                    ) && *final(self) == *old(self)
                    &&& (desc_valid(ev) && page.spec_size() == PageSize::Size4KiB && !desc_table(
                        ev,
                    )) ==> r == Err::<(PhysFrame, MapperFlush), UnmapError>(
                        UnmapError::ParentEntryHugePage,
                    ) && *final(self) == *old(self)
                    &&& (desc_valid(ev) && page.spec_size() != PageSize::Size4KiB && desc_table(
                        ev,
                    )) ==> r == Err::<(PhysFrame, MapperFlush), UnmapError>(
                        UnmapError::PageNotMapped,
                    ) && *final(self) == *old(self)
                    &&& (desc_valid(ev) && (desc_table(ev) <==> page.spec_size()
                        == PageSize::Size4KiB) && !spec_is_aligned(
                        desc_addr(ev),
                        page.spec_size().spec_size(),
                    )) ==> (r matches Err(UnmapError::InvalidFrameAddress(a)) && a@ == desc_addr(ev)
                        && *final(self) == *old(self))
                    &&& (desc_valid(ev) && (desc_table(ev) <==> page.spec_size()
                        == PageSize::Size4KiB) && spec_is_aligned(
                        desc_addr(ev),
                        page.spec_size().spec_size(),
                    )) ==> (r matches Ok(p) && p.0.spec_start() == desc_addr(ev)
                        && p.0.spec_size() == page.spec_size() && p.1.spec_page() == page
                        && mf.dom() == m0.dom() && mf[t]@ == m0[t]@.update(li, 0)
                        && final(self).levels_map() == old(self).levels_map() && lookup_leaf_entry(
                        mf,
                        root,
                        va,
                        leaf,
                        false,
                    ) == Ok::<u64, EntryGetError>(0))
                })
            }),
    {
        proof {
            crate::paging::page_table::lemma_constant_masks();
        }
        let t = match self.leaf_table_of(page, true) {
            Ok(t) => t,
            Err(EntryGetError::PageNotMapped) => {
                return Err(UnmapError::PageNotMapped);
            },
            Err(EntryGetError::ParentEntryHugePage) => {
                return Err(UnmapError::ParentEntryHugePage);
            },
        };
        let li = self.leaf_index_of(page);
        let e = self.table_entry(t, li);
        proof {
            crate::paging::page_table::lemma_entry_masks(e@);
        }
        let frame = match page.size() {
            PageSize::Size4KiB => {
                match e.frame() {
                    Ok(f) => f,
                    Err(FrameError::FrameNotPresent) => {
                        return Err(UnmapError::PageNotMapped);
                    },
                    Err(FrameError::HugeFrame) => {
                        return Err(UnmapError::ParentEntryHugePage);
                    },
                }
            },
            _ => {
                if !e.flags().contains(PageTableFlags::VALID()) {
                    return Err(UnmapError::PageNotMapped);
                }
                if !e.is_block() {
                    return Err(UnmapError::PageNotMapped);
                }
                match PhysFrame::from_start_address(e.addr(), page.size()) {
                    Ok(f) => f,
                    Err(()) => {
                        return Err(UnmapError::InvalidFrameAddress(e.addr()));
                    },
                }
            },
        };
        let ghost mb = self.mem();
        self.set_table_entry(t, li, PageTableEntry::new());
        proof {
            lemma_wf_after_leaf_write(
                mb,
                self.levels_map(),
                self.root(),
                self.rec_index(),
                t,
                li as int,
                self.mem(),
                0,
            );
            lemma_lookup_strict_implies_lax(
                mb,
                self.root(),
                page.spec_start(),
                page.spec_size().leaf_level(),
            );
            lemma_lookup_frame(
                mb,
                self.mem(),
                self.levels_map(),
                self.root(),
                self.rec_index(),
                page.spec_start(),
                page.spec_size().leaf_level(),
                t,
                false,
            );
        }
        Ok((frame, MapperFlush::new(page)))
    }

    /// Resolves a virtual address the way the hardware walker does,
    /// reporting the mapped frame of whatever size terminates the walk
    /// and the offset within it.
    pub fn translate(&self, addr: VirtAddr) -> (r: TranslateResult)
        requires
            self.wf(),
        ensures
            ({
                let s = spec_translate_addr(self.mem(), self.root(), addr@);
                &&& ((r is PageNotMapped || r is InvalidFrameAddress) <==> s is None)
                &&& (r matches TranslateResult::Frame4KiB { frame, offset } ==> offset == (addr@
                    & 0xfff) && frame.spec_size() == PageSize::Size4KiB && s == Some((
                frame.spec_start() + offset) as u64))
                &&& (r matches TranslateResult::Frame2MiB { frame, offset } ==> offset == (addr@
                    & 0x1f_ffff) && frame.spec_size() == PageSize::Size2MiB && s == Some((
                frame.spec_start() + offset) as u64))
                &&& (r matches TranslateResult::Frame1GiB { frame, offset } ==> offset == (addr@
                    & 0x3fff_ffff) && frame.spec_size() == PageSize::Size1GiB && s == Some((
                frame.spec_start() + offset) as u64))
                &&& (r matches TranslateResult::Frame4KiB { frame, offset } ==> (lookup_leaf_entry(
                    self.mem(),
                    self.root(),
                    addr@,
                    1,
                    false,
                ) matches Ok(ev) && ev != 0 && desc_addr(ev) == frame.spec_start()))
                &&& (r matches TranslateResult::Frame2MiB { frame, offset } ==> (lookup_leaf_entry(
                    self.mem(),
                    self.root(),
                    addr@,
                    2,
                    false,
                ) matches Ok(ev) && ev != 0 && !desc_table(ev) && desc_addr(ev)
                    == frame.spec_start()))
                &&& (r matches TranslateResult::Frame1GiB { frame, offset } ==> (lookup_leaf_entry(
                    self.mem(),
                    self.root(),
                    addr@,
                    3,
                    false,
                ) matches Ok(ev) && ev != 0 && !desc_table(ev) && desc_addr(ev)
                    == frame.spec_start()))
                &&& (r matches TranslateResult::InvalidFrameAddress(a) ==> ((lookup_leaf_entry(
                    self.mem(),
                    self.root(),
                    addr@,
                    3,
                    false,
                ) matches Ok(ev) && ev != 0 && !desc_table(ev) && desc_addr(ev) == a@
                    && !spec_is_aligned(a@, 0x4000_0000)) || (lookup_leaf_entry(
                    self.mem(),
                    self.root(),
                    addr@,
                    2,
                    false,
                ) matches Ok(ev) && ev != 0 && !desc_table(ev) && desc_addr(ev) == a@
                    && !spec_is_aligned(a@, 0x20_0000))))
            }),
    {
        proof {
            crate::paging::page::lemma_indices_align4k(addr@);
            crate::paging::page_table::lemma_constant_masks();
        }
        let page = Page::containing_address(addr, PageSize::Size4KiB);
        let i4 = page.p4_index();
        let i3 = page.p3_index();
        let i2 = page.p2_index();
        let i1 = page.p1_index();
        let root = self.root_table;
        let t3 = match self.walk_one(root, i4, false) {
            Ok(t) => t,
            Err(_) => {
                return TranslateResult::PageNotMapped;
            },
        };
        let e3 = self.table_entry(t3, i3);
        proof {
            crate::paging::page_table::lemma_entry_masks(e3@);
        }
        if e3.is_unused() {
            return TranslateResult::PageNotMapped;
        }
        if e3.is_block() {
            return match PhysFrame::from_start_address(e3.addr(), PageSize::Size1GiB) {
                Ok(frame) => TranslateResult::Frame1GiB {
                    frame,
                    offset: addr.as_u64() & 0x3fff_ffff,
                },
                Err(()) => TranslateResult::InvalidFrameAddress(e3.addr()),
            };
        }
        let t2 = e3.addr().as_u64();
        proof {
            lemma_step_target(
                self.mem(),
                self.levels_map(),
                self.root(),
                self.rec_index(),
                t3,
                i3 as u64,
            );
        }
        let e2 = self.table_entry(t2, i2);
        proof {
            crate::paging::page_table::lemma_entry_masks(e2@);
        }
        if e2.is_unused() {
            return TranslateResult::PageNotMapped;
        }
        if e2.is_block() {
            return match PhysFrame::from_start_address(e2.addr(), PageSize::Size2MiB) {
                Ok(frame) => TranslateResult::Frame2MiB {
                    frame,
                    offset: addr.as_u64() & 0x1f_ffff,
                },
                Err(()) => TranslateResult::InvalidFrameAddress(e2.addr()),
            };
        }
        let t1 = e2.addr().as_u64();
        proof {
            lemma_step_target(
                self.mem(),
                self.levels_map(),
                self.root(),
                self.rec_index(),
                t2,
                i2 as u64,
            );
        }
        let e1 = self.table_entry(t1, i1);
        proof {
            crate::paging::page_table::lemma_entry_masks(e1@);
        }
        if e1.is_unused() {
            return TranslateResult::PageNotMapped;
        }
        TranslateResult::Frame4KiB {
            frame: PhysFrame::containing_address(e1.addr(), PageSize::Size4KiB),
            offset: addr.as_u64() & 0xfff,
        }
    }

    /// Translates a virtual address to the physical address it maps to,
    /// or `None` when no valid mapping covers it.
    pub fn translate_addr(&self, addr: VirtAddr) -> (r: Option<PhysAddr>)
        requires
            self.wf(),
        ensures
            r matches Some(a) ==> spec_translate_addr(self.mem(), self.root(), addr@) == Some(a@),
            r is None <==> spec_translate_addr(self.mem(), self.root(), addr@) is None,
    {
        proof {
            crate::paging::page::lemma_frame_offset_fits(0, addr@);
        }
        match self.translate(addr) {
            TranslateResult::Frame4KiB { frame, offset } => {
                proof {
                    use_type_invariant(frame);
                    crate::paging::page::lemma_frame_offset_fits(frame.spec_start(), addr@);
                }
                Some(PhysAddr::new(frame.start_address().as_u64() + offset))
            },
            TranslateResult::Frame2MiB { frame, offset } => {
                proof {
                    use_type_invariant(frame);
                    crate::paging::page::lemma_frame_offset_fits(frame.spec_start(), addr@);
                }
                Some(PhysAddr::new(frame.start_address().as_u64() + offset))
            },
            TranslateResult::Frame1GiB { frame, offset } => {
                proof {
                    use_type_invariant(frame);
                    crate::paging::page::lemma_frame_offset_fits(frame.spec_start(), addr@);
                }
                Some(PhysAddr::new(frame.start_address().as_u64() + offset))
            },
            TranslateResult::PageNotMapped => None,
            TranslateResult::InvalidFrameAddress(_) => None,
        }
    }

    /// Maps `frame` at the virtual page with the numerically identical
    /// base address; a convenience over [`RecursivePageTable::map_to`],
    /// with the same contract read at that address.
    pub fn identity_map<A: FrameAllocator>(
        &mut self,
        frame: PhysFrame,
        flags: PageTableFlags,
        attr: PageTableAttribute,
        allocator: &mut A,
    ) -> (r: Result<MapperFlush, MapToError>)
        requires
            old(self).wf(),
            va_level_index(frame.spec_start(), 4) != old(self).rec_index(),
            (frame.spec_size() == PageSize::Size4KiB) <==> (flags@ & 0x2u64 == 0x2u64),
        ensures
            final(self).wf(),
            final(self).root() == old(self).root(),
            final(self).rec_index() == old(self).rec_index(),
            ({
                let m0 = old(self).mem();
                let mf = final(self).mem();
                let root = old(self).root();
                let va = frame.spec_start();
                let leaf = frame.spec_size().leaf_level();
                let li = va_level_index(va, leaf) as int;
                &&& (r == Err::<MapperFlush, MapToError>(MapToError::ParentEntryHugePage) <==>
                    lookup_table(m0, root, va, leaf, false) == Err::<u64, EntryGetError>(
                    EntryGetError::ParentEntryHugePage,
                ))
                &&& (r == Err::<MapperFlush, MapToError>(MapToError::PageAlreadyMapped) <==> (
                lookup_table(m0, root, va, leaf, false) matches Ok(tl) && m0[tl]@[li] != 0))
                &&& (r == Err::<MapperFlush, MapToError>(MapToError::ParentEntryHugePage) || r
                    == Err::<MapperFlush, MapToError>(MapToError::PageAlreadyMapped))
                    ==> *final(self) == *old(self)
                &&& r == Err::<MapperFlush, MapToError>(MapToError::FrameAllocationFailed) ==> {
                    &&& missing_tables(m0, root, va, leaf) > 0
                    &&& m0.dom().subset_of(mf.dom())
                    &&& lookup_leaf_entry(mf, root, va, leaf, false) == Err::<u64, EntryGetError>(
                        EntryGetError::PageNotMapped,
                    )
                }
                &&& (r matches Ok(fl) ==> {
                    &&& fl.spec_page().spec_start() == frame.spec_start()
                    &&& fl.spec_page().spec_size() == frame.spec_size()
                    &&& lookup_leaf_entry(mf, root, va, leaf, false) == Ok::<u64, EntryGetError>(
                        frame.spec_start() | flags@ | attr@,
                    )
                    &&& m0.dom().subset_of(mf.dom())
                    &&& mf.dom().len() == m0.dom().len() + missing_tables(m0, root, va, leaf)
                    &&& (forall|k: u64, j: int|
                        m0.dom().contains(k) && 0 <= j < 512 && !(k == root && j == va_level_index(
                            va,
                            4,
                        ) as int) && !(lookup_table(mf, root, va, 3, false) == Ok::<
                            u64,
                            EntryGetError,
                        >(k) && j == va_level_index(va, 3) as int) && !(lookup_table(
                            mf,
                            root,
                            va,
                            2,
                            false,
                        ) == Ok::<u64, EntryGetError>(k) && j == va_level_index(va, 2) as int) && !(
                        lookup_table(mf, root, va, 1, false) == Ok::<u64, EntryGetError>(k) && j
                            == va_level_index(va, 1) as int) ==> #[trigger] mf[k]@[j] == m0[k]@[j])
                })
                &&& (lookup_table(m0, root, va, leaf, false) matches Ok(tl) && m0[tl]@[li] == 0)
                    ==> r is Ok
            }),
    {
        proof {
            use_type_invariant(frame);
            frame.spec_size().lemma_size_power_of_two();
            crate::addr::lemma_align_down_identity(
                frame.spec_start(),
                frame.spec_size().spec_size(),
            );
        }
        let page = Page::containing_address(
            VirtAddr::new(frame.start_address().as_u64()),
            frame.size(),
        );
        self.map_to(page, frame, flags, attr, allocator)
    }

    /// The page through which the root table itself is reachable: all
    /// four indices repeat the recursive index.
    pub fn p4_page(&self, page: Page) -> (r: Page)
        requires
            self.wf(),
        ensures
            r.spec_size() == PageSize::Size4KiB,
            r.spec_start() == ((self.rec_index() << 39) | (self.rec_index() << 30) | (
            self.rec_index() << 21) | (self.rec_index() << 12)),
    {
        let rec = self.recursive_index;
        Page::from_page_table_indices(rec, rec, rec, rec)
    }

    /// The page through which the level-3 table governing `page` is
    /// reachable: three recursive indices, then the page's root index.
    pub fn p3_page(&self, page: Page) -> (r: Page)
        requires
            self.wf(),
        ensures
            r.spec_size() == PageSize::Size4KiB,
            r.spec_start() == ((self.rec_index() << 39) | (self.rec_index() << 30) | (
            self.rec_index() << 21) | (va_level_index(page.spec_start(), 4) << 12)),
    {
        let rec = self.recursive_index;
        Page::from_page_table_indices(rec, rec, rec, page.p4_index())
    }

    /// The page through which the level-2 table governing `page` is
    /// reachable: two recursive indices, then the page's upper indices.
    pub fn p2_page(&self, page: Page) -> (r: Page)
        requires
            self.wf(),
        ensures
            r.spec_size() == PageSize::Size4KiB,
            r.spec_start() == ((self.rec_index() << 39) | (self.rec_index() << 30) | (
            va_level_index(page.spec_start(), 4) << 21) | (va_level_index(page.spec_start(), 3)
                << 12)),
    {
        let rec = self.recursive_index;
        Page::from_page_table_indices(rec, rec, page.p4_index(), page.p3_index())
    }

    /// The page through which the level-1 table governing `page` is
    /// reachable: one recursive index, then the page's three upper
    /// indices.
    pub fn p1_page(&self, page: Page) -> (r: Page)
        requires
            self.wf(),
        ensures
            r.spec_size() == PageSize::Size4KiB,
            r.spec_start() == ((self.rec_index() << 39) | (va_level_index(page.spec_start(), 4)
                << 30) | (va_level_index(page.spec_start(), 3) << 21) | (va_level_index(
                page.spec_start(),
                2,
            ) << 12)),
    {
        let rec = self.recursive_index;
        Page::from_page_table_indices(rec, page.p4_index(), page.p3_index(), page.p2_index())
    }
}


/// Recursive addressing is consistent: the virtual address assembled
/// from (R, i4, i3, i2) — the scheme `p1_page` computes — resolves,
/// through the very tables the mapper maintains, to the physical frame
/// of the level-1 table that actually governs the page. The hardware
/// walker, pointed at that address, lands on the same table the walk
/// from the root reaches.
pub proof fn lemma_recursive_level1_address(
    m: Map<u64, PageTable>,
    lv: Map<u64, int>,
    root: u64,
    rec: u64,
    va: u64,
)
    requires
        state_wf(m, lv, root, rec),
        lookup_table(m, root, va, 1, false) is Ok,
    ensures
        ({
            let t1 = lookup_table(m, root, va, 1, false)->Ok_0;
            let p1va = (rec << 39) | (va_level_index(va, 4) << 30) | (va_level_index(va, 3) << 21)
                | (va_level_index(va, 2) << 12);
            spec_translate_addr(m, root, p1va) == Some(t1)
        }),
{
    crate::paging::page_table::lemma_constant_masks();
    crate::paging::page::lemma_va_index_bounds(va);
    lemma_lookup_table_unfold(m, root, va, false);
    let i4 = va_level_index(va, 4);
    let i3 = va_level_index(va, 3);
    let i2 = va_level_index(va, 2);
    crate::paging::page::lemma_indices_round_trip(rec, i4, i3, i2);
    let p1va = (rec << 39) | (i4 << 30) | (i3 << 21) | (i2 << 12);
    assert(va_level_index(p1va, 4) == rec);
    assert(va_level_index(p1va, 3) == i4);
    assert(va_level_index(p1va, 2) == i3);
    assert(va_level_index(p1va, 1) == i2);
    // The walker's first step goes through the recursive slot, back to
    // the root table itself.
    let er = m[root]@[rec as int];
    assert(desc_valid(er) && desc_table(er) && desc_addr(er) == root);
    assert(er != 0);
    assert(walk_step(m, root, rec, false) == Ok::<u64, EntryGetError>(root));
    // The remaining levels retrace the page's own walk, shifted up by
    // one level, ending on the level-1 table as the mapped "data" frame.
    let e4 = m[root]@[i4 as int];
    let t3 = desc_addr(e4);
    let e3 = m[t3]@[i3 as int];
    let t2 = desc_addr(e3);
    let e2 = m[t2]@[i2 as int];
    let t1 = desc_addr(e2);
    assert(e4 != 0 && desc_table(e4));
    assert(e3 != 0 && desc_table(e3));
    assert(e2 != 0 && desc_table(e2));
    assert(p1va & 0xfffu64 == 0);
    assert(spec_translate_addr(m, root, p1va) == Some((t1 + (p1va & 0xfff)) as u64));
}

/// A page just mapped translates back to the very frame that was
/// mapped: the descriptor a successful `map_to` installs is nonzero, its
/// output address is exactly the frame base, and that base is aligned to
/// the page size — precisely the conditions under which
/// `translate_page` returns that frame.
///
/// The one excluded input is the descriptor that encodes to all-zero
/// bits (base address zero with empty flags and attribute), which is
/// indistinguishable from an unused entry.
pub proof fn lemma_map_then_translate_page(
    m: Map<u64, PageTable>,
    root: u64,
    va: u64,
    size: PageSize,
    fstart: u64,
    flags: u64,
    attr: u64,
)
    requires
        lookup_leaf_entry(m, root, va, size.leaf_level(), false) == Ok::<u64, EntryGetError>(
            fstart | flags | attr,
        ),
        flags & !crate::paging::page_table::FLAG_BITS_ALL == 0,
        attr & !crate::paging::page_table::MEMORY_ATTR_MASK == 0,
        fstart < MAX_PHYS_ADDR,
        spec_is_aligned(fstart, size.spec_size()),
        fstart != 0 || flags != 0 || attr != 0,
    ensures
        ({
            let le = lookup_leaf_entry(m, root, va, size.leaf_level(), false);
            &&& le matches Ok(ev)
            &&& le->Ok_0 != 0
            &&& desc_addr(le->Ok_0) == fstart
            &&& spec_is_aligned(desc_addr(le->Ok_0), size.spec_size())
        }),
{
    size.lemma_size_power_of_two();
    crate::paging::page_table::lemma_coarser_alignment(fstart);
    crate::paging::page_table::lemma_encode(fstart, flags, attr);
}

/// Unmapping a page that a successful `map_to` installed returns the
/// very frame that was mapped: the installed descriptor is valid, is a
/// page descriptor exactly for 4KiB pages and a block descriptor for the
/// larger sizes, and carries the frame base as its aligned output
/// address — precisely the conditions under which `unmap` clears the
/// leaf and hands the frame back. Afterwards the leaf reads as unused,
/// so `get_entry` reports `PageNotMapped` (see the contracts of `unmap`
/// and `get_entry`).
pub proof fn lemma_unmap_returns_mapped_frame(
    ev: u64,
    size: PageSize,
    fstart: u64,
    flags: u64,
    attr: u64,
)
    requires
        ev == (fstart | flags | attr),
        flags & !crate::paging::page_table::FLAG_BITS_ALL == 0,
        attr & !crate::paging::page_table::MEMORY_ATTR_MASK == 0,
        fstart < MAX_PHYS_ADDR,
        spec_is_aligned(fstart, size.spec_size()),
        flags & 0x1u64 == 0x1u64,
        (flags & 0x2u64 == 0x2u64) <==> size == PageSize::Size4KiB,
    ensures
        desc_valid(ev),
        desc_table(ev) <==> size == PageSize::Size4KiB,
        desc_addr(ev) == fstart,
        spec_is_aligned(desc_addr(ev), size.spec_size()),
{
    size.lemma_size_power_of_two();
    crate::paging::page_table::lemma_coarser_alignment(fstart);
    crate::paging::page_table::lemma_encode(fstart, flags, attr);
}

/// Once a page is unmapped its leaf descriptor reads as unused, so a
/// subsequent lookup reports the page as not mapped: `unmap` leaves the
/// leaf at zero, and `get_entry` then returns `PageNotMapped`.
pub proof fn lemma_unmapped_page_reads_not_mapped(
    m: Map<u64, PageTable>,
    root: u64,
    va: u64,
    leaf: int,
)
    requires
        lookup_leaf_entry(m, root, va, leaf, false) == Ok::<u64, EntryGetError>(0),
    ensures
        spec_get_entry(m, root, va, leaf) == Err::<u64, EntryGetError>(
            EntryGetError::PageNotMapped,
        ),
{
}

/// A single 4KiB mapping into an otherwise empty address space — a root
/// table whose only live descriptor is the recursive slot — must create
/// the level-3, level-2 and level-1 tables: exactly three intermediate
/// frames.
pub proof fn lemma_empty_space_needs_three_tables(
    m: Map<u64, PageTable>,
    root: u64,
    rec: u64,
    va: u64,
)
    requires
        forall|i: int| 0 <= i < 512 && i != rec as int ==> m[root]@[i] == 0,
        va_level_index(va, 4) != rec,
        va_level_index(va, 4) < 512,
    ensures
        missing_tables(m, root, va, 1) == 3,
{
    lemma_missing_tables_unfold(m, root, va, 1);
    assert(m[root]@[va_level_index(va, 4) as int] == 0);
}

/// Once the walk for one page exists, a sibling page sharing the same
/// three upper indices needs no further tables: repeating a mapping
/// under the same level-3 and level-2 tables allocates nothing.
pub proof fn lemma_sibling_needs_no_tables(m: Map<u64, PageTable>, root: u64, va: u64, va2: u64)
    requires
        lookup_table(m, root, va, 1, false) is Ok,
        va_level_index(va2, 4) == va_level_index(va, 4),
        va_level_index(va2, 3) == va_level_index(va, 3),
        va_level_index(va2, 2) == va_level_index(va, 2),
    ensures
        missing_tables(m, root, va2, 1) == 0,
{
    lemma_lookup_table_unfold(m, root, va, false);
    lemma_missing_tables_unfold(m, root, va2, 1);
    let e4 = m[root]@[va_level_index(va, 4) as int];
    let t3 = desc_addr(e4);
    let e3 = m[t3]@[va_level_index(va, 3) as int];
    let t2 = desc_addr(e3);
    let e2 = m[t2]@[va_level_index(va, 2) as int];
    assert(e4 != 0 && desc_table(e4));
    assert(e3 != 0 && desc_table(e3));
    assert(e2 != 0 && desc_table(e2));
    assert(missing_tables_from(m, t3, va2, 3, 1) == missing_tables_from(m, t2, va2, 2, 1));
    assert(missing_tables_from(m, desc_addr(e2), va2, 1, 1) == 0);
}

/// A region covered by a 1GiB block mapping admits no 4KiB descent: the
/// walk for a 4KiB page beneath the block stops with
/// `ParentEntryHugePage`, which is exactly what `map_to` then returns.
pub proof fn lemma_block_mapping_blocks_descent(m: Map<u64, PageTable>, root: u64, va: u64)
    requires
        lookup_table(m, root, va, 3, false) is Ok,
        ({
            let e = m[lookup_table(m, root, va, 3, false)->Ok_0]@[va_level_index(va, 3) as int];
            e != 0 && !desc_table(e)
        }),
    ensures
        lookup_table(m, root, va, 1, false) == Err::<u64, EntryGetError>(
            EntryGetError::ParentEntryHugePage,
        ),
{
    lemma_lookup_table_unfold(m, root, va, false);
}

impl crate::paging::mapper::MapperAllSizes for RecursivePageTable {
    /// The structural invariant of the recursive hierarchy.
    open spec fn mapper_wf(&self) -> bool {
        self.wf()
    }

    fn translate(&self, addr: VirtAddr) -> TranslateResult {
        RecursivePageTable::translate(self, addr)
    }

    fn translate_addr(&self, addr: VirtAddr) -> Option<PhysAddr> {
        RecursivePageTable::translate_addr(self, addr)
    }
}

/// A walk is unaffected by changes to a table at or below its leaf
/// level: outside the recursive region, every table the walk steps out
/// of sits strictly above the leaf level.
proof fn lemma_lookup_frame(
    m: Map<u64, PageTable>,
    m2: Map<u64, PageTable>,
    lv: Map<u64, int>,
    root: u64,
    rec: u64,
    va: u64,
    leaf: int,
    t: u64,
    strict: bool,
)
    requires
        state_wf(m, lv, root, rec),
        1 <= leaf <= 3,
        va_level_index(va, 4) != rec,
        lookup_table(m, root, va, leaf, strict) is Ok,
        m.dom().contains(t),
        lv[t] <= leaf,
        m2.dom() == m.dom(),
        forall|k: u64| k != t && m.dom().contains(k) ==> m2[k] == m[k],
    ensures
        lookup_table(m2, root, va, leaf, strict) == lookup_table(m, root, va, leaf, strict),
{
    crate::paging::page::lemma_va_index_bounds(va);
    lemma_lookup_table_unfold(m, root, va, strict);
    lemma_lookup_table_unfold(m2, root, va, strict);
    assert(root != t);
    assert(m2[root] == m[root]);
    let i4 = va_level_index(va, 4);
    let s4 = walk_step(m, root, i4, strict);
    if leaf == 3 {
    } else {
        assert(s4 is Ok);
        let t3 = s4->Ok_0;
        assert(desc_table(m[root]@[i4 as int]));
        lemma_step_target(m, lv, root, rec, root, i4);
        assert(lv[t3] == 3);
        assert(t3 != t);
        assert(m2[t3] == m[t3]);
        if leaf == 2 {
        } else {
            let i3 = va_level_index(va, 3);
            let s3 = walk_step(m, t3, i3, strict);
            assert(s3 is Ok);
            let t2 = s3->Ok_0;
            assert(desc_table(m[t3]@[i3 as int]));
            lemma_step_target(m, lv, root, rec, t3, i3);
            assert(lv[t2] == 2);
            assert(t2 != t);
            assert(m2[t2] == m[t2]);
        }
    }
}

/// A walk that succeeds in strict mode (every descriptor valid) succeeds
/// identically in the lax mode that only rules out all-zero descriptors.
proof fn lemma_lookup_strict_implies_lax(m: Map<u64, PageTable>, root: u64, va: u64, leaf: int)
    requires
        1 <= leaf <= 3,
        lookup_table(m, root, va, leaf, true) is Ok,
    ensures
        lookup_table(m, root, va, leaf, false) == lookup_table(m, root, va, leaf, true),
{
    crate::paging::page_table::lemma_constant_masks();
    lemma_lookup_table_unfold(m, root, va, true);
    lemma_lookup_table_unfold(m, root, va, false);
    let i4 = va_level_index(va, 4);
    assert(walk_step(m, root, i4, true) is Ok ==> walk_step(m, root, i4, false) == walk_step(
        m,
        root,
        i4,
        true,
    ));
    if leaf <= 2 {
        let t3 = walk_step(m, root, i4, true)->Ok_0;
        let i3 = va_level_index(va, 3);
        assert(walk_step(m, t3, i3, true) is Ok ==> walk_step(m, t3, i3, false) == walk_step(
            m,
            t3,
            i3,
            true,
        ));
        if leaf == 1 {
            let t2 = walk_step(m, t3, i3, true)->Ok_0;
            let i2 = va_level_index(va, 2);
            assert(walk_step(m, t2, i2, true) is Ok ==> walk_step(m, t2, i2, false) == walk_step(
                m,
                t2,
                i2,
                true,
            ));
        }
    }
}

/// Writing a leaf descriptor preserves the structural invariant: into a
/// level-1 table any descriptor may go, and into a higher table only a
/// non-table descriptor (a block, or zero), never over the recursive
/// slot.
proof fn lemma_wf_after_leaf_write(
    m: Map<u64, PageTable>,
    lv: Map<u64, int>,
    root: u64,
    rec: u64,
    t: u64,
    i: int,
    m2: Map<u64, PageTable>,
    v: u64,
)
    requires
        state_wf(m, lv, root, rec),
        m.dom().contains(t),
        0 <= i < 512,
        m2.dom() == m.dom(),
        m2[t]@ == m[t]@.update(i, v),
        forall|k: u64| k != t && m.dom().contains(k) ==> m2[k] == m[k],
        lv[t] >= 2 ==> !desc_table(v),
        !(t == root && i == rec as int),
    ensures
        state_wf(m2, lv, root, rec),
{
    assert(m2[root]@[rec as int] == m[root]@[rec as int]);
    assert forall|t0: u64| #[trigger] m2.dom().contains(t0) implies m2[t0]@.len() == 512
        && spec_is_aligned(t0, 0x1000) && t0 < MAX_PHYS_ADDR && 1 <= lv[t0] <= 4 && (lv[t0] == 4
        ==> t0 == root) by {
        if t0 == t {
            assert(m2[t]@.len() == m[t]@.len());
        } else {
            assert(m2[t0] == m[t0]);
        }
    }
    assert forall|t0: u64, i0: int|
        #![trigger m2[t0]@[i0]]
        m2.dom().contains(t0) && 0 <= i0 < 512 && lv[t0] >= 2 && !(t0 == root && i0 == rec as int)
            && desc_table(m2[t0]@[i0]) implies m2.dom().contains(desc_addr(m2[t0]@[i0])) && lv[
    desc_addr(m2[t0]@[i0])] == lv[t0] - 1 by {
        if t0 == t && i0 == i {
            assert(!desc_table(v));
            assert(false);
        } else if t0 == t {
            assert(m2[t0]@[i0] == m[t0]@[i0]);
        } else {
            assert(m2[t0]@[i0] == m[t0]@[i0]);
        }
    }
}

/// From a well-formed state, a successful walk step out of a table above
/// level 1 lands in a present table: one level below, or back at the
/// root when the step goes through the recursive slot.
pub proof fn lemma_step_target(
    m: Map<u64, PageTable>,
    lv: Map<u64, int>,
    root: u64,
    rec: u64,
    t: u64,
    idx: u64,
)
    requires
        state_wf(m, lv, root, rec),
        m.dom().contains(t),
        lv[t] >= 2,
        idx < 512,
        desc_table(m[t]@[idx as int]),
    ensures
        ({
            let t2 = desc_addr(m[t]@[idx as int]);
            &&& m.dom().contains(t2)
            &&& (t == root && idx == rec) ==> t2 == root && lv[t2] == 4
            &&& !(t == root && idx == rec) ==> lv[t2] == lv[t] - 1
        }),
{
    if t == root && idx == rec {
        assert(desc_addr(m[root]@[rec as int]) == root);
    } else {
        assert(desc_table(m[t]@[idx as int]));
    }
}

} // verus!

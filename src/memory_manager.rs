//! Fixed-capacity pool of the page tables and shadow pages that hooks need,
//! keyed by the guest physical 4 KiB page they serve.

use std::collections::HashMap;
use vstd::prelude::*;

use crate::ept::PageTable;
use crate::error::HypervisorError;

verus! {

broadcast use vstd::std_specs::hash::group_hash_axioms;

/// Bytes in a shadow page.
pub const SHADOW_PAGE_SIZE: usize = 4096;

/// `base` with `patch` written over it from `offset` on.
pub open spec fn patched(base: Seq<u8>, offset: int, patch: Seq<u8>) -> Seq<u8> {
    Seq::new(
        base.len(),
        |i: int|
            if offset <= i < offset + patch.len() {
                patch[i - offset]
            } else {
                base[i]
            },
    )
}

/// A host-owned copy of one guest page.
pub struct ShadowPage {
    pub bytes: Vec<u8>,
}

impl ShadowPage {
    pub open spec fn wf(&self) -> bool {
        self.bytes@.len() == SHADOW_PAGE_SIZE
    }

    /// A zeroed shadow page.
    pub fn new() -> (r: ShadowPage)
        ensures
            r.wf(),
            r.bytes@ == Seq::new(4096, |i: int| 0u8),
    {
        let mut bytes: Vec<u8> = Vec::new();
        while bytes.len() < SHADOW_PAGE_SIZE
            invariant
                bytes@.len() <= 4096,
                forall|i: int| 0 <= i < bytes@.len() ==> bytes@[i] == 0u8,
            decreases 4096 - bytes@.len(),
        {
            bytes.push(0u8);
        }
        assert(bytes@ =~= Seq::new(4096, |i: int| 0u8));
        ShadowPage { bytes }
    }
}

/// The pool. A guest page has at most one page table and one shadow page;
/// both are made on first request and handed out again afterwards.
pub struct MemoryManager {
    pub capacity: usize,
    pub page_table_slots: HashMap<u64, usize>,
    /// The guest page that each page table serves, by slot.
    pub page_table_owners: Vec<u64>,
    pub page_tables: Vec<PageTable>,
    pub shadow_page_slots: HashMap<u64, usize>,
    pub shadow_pages: Vec<ShadowPage>,
}

/// `slots` assigns each key its own slot below `n`, and uses every such slot.
pub open spec fn slots_wf(slots: Map<u64, usize>, n: nat) -> bool {
    &&& slots.dom().finite()
    &&& slots.dom().len() == n
    &&& forall|k: u64| #[trigger] slots.contains_key(k) ==> slots[k] < n
    &&& forall|k1: u64, k2: u64|
        #[trigger] slots.contains_key(k1) && #[trigger] slots.contains_key(k2) && k1 != k2 ==> slots[k1]
            != slots[k2]
}

impl MemoryManager {
    pub open spec fn wf(&self) -> bool {
        &&& slots_wf(self.page_table_slots@, self.page_tables@.len())
        &&& self.page_table_owners@.len() == self.page_tables@.len()
        &&& forall|i: int|
            0 <= i < self.page_table_owners@.len() ==> #[trigger] self.page_table_slots@.contains_key(
                self.page_table_owners@[i],
            ) && self.page_table_slots@[self.page_table_owners@[i]] == i
        &&& slots_wf(self.shadow_page_slots@, self.shadow_pages@.len())
        &&& self.page_tables@.len() <= self.capacity
        &&& self.shadow_pages@.len() <= self.capacity
        &&& forall|i: int| 0 <= i < self.page_tables@.len() ==> (#[trigger] self.page_tables@[i]).wf()
        &&& forall|i: int| 0 <= i < self.shadow_pages@.len() ==> (#[trigger] self.shadow_pages@[i]).wf()
    }

    /// Entries of the page table of the guest page `pa`.
    pub open spec fn page_table_of(&self, pa: u64) -> Seq<u8> {
        self.page_tables@[self.page_table_slots@[pa] as int].entries@
    }

    /// Bytes of the shadow page of the guest page `pa`.
    pub open spec fn shadow_page_of(&self, pa: u64) -> Seq<u8> {
        self.shadow_pages@[self.shadow_page_slots@[pa] as int].bytes@
    }

    /// The page table of `pa` was made for `pa`.
    pub proof fn lemma_owner_of_slot(&self, pa: u64)
        requires
            self.wf(),
            self.page_table_slots@.contains_key(pa),
        ensures
            self.page_table_slots@[pa] < self.page_table_owners@.len(),
            self.page_table_owners@[self.page_table_slots@[pa] as int] == pa,
    {
        let s = self.page_table_slots@[pa] as int;
        let o = self.page_table_owners@[s];
        assert(self.page_table_slots@.contains_key(o));
    }

    /// An empty pool for at most `capacity` guest pages.
    pub fn new(capacity: usize) -> (r: MemoryManager)
        ensures
            r.wf(),
            r.capacity == capacity,
            r.page_table_slots@ == Map::<u64, usize>::empty(),
            r.shadow_page_slots@ == Map::<u64, usize>::empty(),
    {
        let r = MemoryManager {
            capacity,
            page_table_slots: HashMap::new(),
            page_table_owners: Vec::new(),
            page_tables: Vec::new(),
            shadow_page_slots: HashMap::new(),
            shadow_pages: Vec::new(),
        };
        assert(r.page_table_slots@.dom() =~= Set::<u64>::empty());
        assert(r.shadow_page_slots@.dom() =~= Set::<u64>::empty());
        r
    }

    /// Whether the guest page `pa` has a page table, that is, whether its
    /// 2 MiB leaf was split on its behalf.
    pub fn is_page_split(&self, pa: u64) -> (r: bool)
        ensures
            r == self.page_table_slots@.contains_key(pa),
    {
        self.page_table_slots.contains_key(&pa)
    }

    /// Whether the guest page `pa` has a shadow copy.
    pub fn is_page_copied(&self, pa: u64) -> (r: bool)
        ensures
            r == self.shadow_page_slots@.contains_key(pa),
    {
        self.shadow_page_slots.contains_key(&pa)
    }

    /// Slot of the page table of `pa`, if it has one.
    pub fn get_page_table(&self, pa: u64) -> (r: Option<usize>)
        ensures
            r == (if self.page_table_slots@.contains_key(pa) {
                Some(self.page_table_slots@[pa])
            } else {
                None::<usize>
            }),
    {
        match self.page_table_slots.get(&pa) {
            Some(slot) => Some(*slot),
            None => None,
        }
    }

    /// Slot of the shadow page of `pa`, if it has one.
    pub fn get_shadow_page(&self, pa: u64) -> (r: Option<usize>)
        ensures
            r == (if self.shadow_page_slots@.contains_key(pa) {
                Some(self.shadow_page_slots@[pa])
            } else {
                None::<usize>
            }),
    {
        match self.shadow_page_slots.get(&pa) {
            Some(slot) => Some(*slot),
            None => None,
        }
    }

    /// Slot of the page table of `pa`; a zeroed one is taken from the pool
    /// if `pa` has none yet.
    pub fn get_or_create_page_table(&mut self, pa: u64) -> (r: Result<usize, HypervisorError>)
        requires
            old(self).wf(),
        ensures
            final(self).wf(),
            final(self).capacity == old(self).capacity,
            final(self).shadow_page_slots@ == old(self).shadow_page_slots@,
            final(self).shadow_pages@ == old(self).shadow_pages@,
            old(self).page_table_slots@.contains_key(pa) ==> r == Ok::<usize, HypervisorError>(
                old(self).page_table_slots@[pa],
            ) && *final(self) == *old(self),
            !old(self).page_table_slots@.contains_key(pa) ==> if old(self).page_tables@.len() < old(self).capacity {
                &&& r == Ok::<usize, HypervisorError>(old(self).page_tables@.len() as usize)
                &&& final(self).page_table_slots@ == old(self).page_table_slots@.insert(pa, r->Ok_0)
                &&& final(self).page_table_owners@ == old(self).page_table_owners@.push(pa)
                &&& final(self).page_tables@ == old(self).page_tables@.push(final(self).page_tables@.last())
                &&& final(self).page_tables@.last().entries@ == Seq::new(512, |i: int| 0u8)
            } else {
                r == Err::<usize, HypervisorError>(HypervisorError::PageTablesUnavailable) && *final(self) == *old(self)
            },
    {
        match self.page_table_slots.get(&pa) {
            Some(slot) => {
                return Ok(*slot);
            },
            None => {},
        }
        if self.page_tables.len() >= self.capacity {
            return Err(HypervisorError::PageTablesUnavailable);
        }
        let slot = self.page_tables.len();
        let ghost old_slots = self.page_table_slots@;
        self.page_tables.push(PageTable::new());
        self.page_table_owners.push(pa);
        self.page_table_slots.insert(pa, slot);
        proof {
            assert(!old_slots.contains_key(pa));
            assert(self.page_table_slots@.dom() =~= old_slots.dom().insert(pa));
            assert forall|k: u64| #[trigger] self.page_table_slots@.contains_key(k) implies self.page_table_slots@[k]
                < self.page_tables@.len() by {
                if k != pa {
                    assert(old_slots.contains_key(k));
                }
            }
            assert forall|i: int| 0 <= i < self.page_tables@.len() implies (
            #[trigger] self.page_tables@[i]).wf() by {
                if i < slot {
                    assert(self.page_tables@[i] == old(self).page_tables@[i]);
                }
            }
            assert forall|i: int| 0 <= i < self.page_table_owners@.len() implies #[trigger] self.page_table_slots@.contains_key(
                self.page_table_owners@[i],
            ) && self.page_table_slots@[self.page_table_owners@[i]] == i by {
                if i < slot {
                    assert(self.page_table_owners@[i] == old(self).page_table_owners@[i]);
                    assert(old_slots.contains_key(self.page_table_owners@[i]));
                }
            }
        }
        Ok(slot)
    }

    /// Slot of the shadow page of `pa`; a zeroed one is taken from the pool
    /// if `pa` has none yet.
    pub fn get_or_create_shadow_page(&mut self, pa: u64) -> (r: Result<usize, HypervisorError>)
        requires
            old(self).wf(),
        ensures
            final(self).wf(),
            final(self).capacity == old(self).capacity,
            final(self).page_table_slots@ == old(self).page_table_slots@,
            final(self).page_table_owners@ == old(self).page_table_owners@,
            final(self).page_tables@ == old(self).page_tables@,
            old(self).shadow_page_slots@.contains_key(pa) ==> r == Ok::<usize, HypervisorError>(
                old(self).shadow_page_slots@[pa],
            ) && *final(self) == *old(self),
            !old(self).shadow_page_slots@.contains_key(pa) ==> if old(self).shadow_pages@.len() < old(self).capacity {
                &&& r == Ok::<usize, HypervisorError>(old(self).shadow_pages@.len() as usize)
                &&& final(self).shadow_page_slots@ == old(self).shadow_page_slots@.insert(pa, r->Ok_0)
                &&& final(self).shadow_pages@ == old(self).shadow_pages@.push(final(self).shadow_pages@.last())
                &&& final(self).shadow_pages@.last().bytes@ == Seq::new(4096, |i: int| 0u8)
            } else {
                r == Err::<usize, HypervisorError>(HypervisorError::ShadowPagesUnavailable) && *final(self) == *old(self)
            },
    {
        match self.shadow_page_slots.get(&pa) {
            Some(slot) => {
                return Ok(*slot);
            },
            None => {},
        }
        if self.shadow_pages.len() >= self.capacity {
            return Err(HypervisorError::ShadowPagesUnavailable);
        }
        let slot = self.shadow_pages.len();
        let ghost old_slots = self.shadow_page_slots@;
        self.shadow_pages.push(ShadowPage::new());
        self.shadow_page_slots.insert(pa, slot);
        proof {
            assert(!old_slots.contains_key(pa));
            assert(self.shadow_page_slots@.dom() =~= old_slots.dom().insert(pa));
            assert forall|k: u64| #[trigger] self.shadow_page_slots@.contains_key(k) implies self.shadow_page_slots@[k]
                < self.shadow_pages@.len() by {
                if k != pa {
                    assert(old_slots.contains_key(k));
                }
            }
            assert forall|i: int| 0 <= i < self.shadow_pages@.len() implies (
            #[trigger] self.shadow_pages@[i]).wf() by {
                if i < slot {
                    assert(self.shadow_pages@[i] == old(self).shadow_pages@[i]);
                }
            }
        }
        Ok(slot)
    }
    /// Fills the shadow page in `slot` with `bytes`, a whole guest page.
    pub fn fill_shadow_page(&mut self, slot: usize, bytes: &Vec<u8>)
        requires
            old(self).wf(),
            slot < old(self).shadow_pages@.len(),
            bytes@.len() == SHADOW_PAGE_SIZE,
        ensures
            final(self).wf(),
            final(self).shadow_pages@.len() == old(self).shadow_pages@.len(),
            final(self).shadow_pages@[slot as int].bytes@ == bytes@,
            forall|i: int|
                0 <= i < old(self).shadow_pages@.len() && i != slot ==> #[trigger] final(self).shadow_pages@[i]
                    == old(self).shadow_pages@[i],
            *final(self) == (MemoryManager { shadow_pages: final(self).shadow_pages, ..*old(self) }),
    {
        let copy = bytes.clone();
        assert(copy@ =~= bytes@);
        self.shadow_pages.set(slot, ShadowPage { bytes: copy });
    }

    /// Writes `patch` into the shadow page in `slot` from `offset` on.
    pub fn patch_shadow_page(&mut self, slot: usize, offset: usize, patch: &Vec<u8>)
        requires
            old(self).wf(),
            slot < old(self).shadow_pages@.len(),
            offset + patch@.len() <= SHADOW_PAGE_SIZE,
        ensures
            final(self).wf(),
            final(self).shadow_pages@.len() == old(self).shadow_pages@.len(),
            final(self).shadow_pages@[slot as int].bytes@ == patched(
                old(self).shadow_pages@[slot as int].bytes@,
                offset as int,
                patch@,
            ),
            forall|i: int|
                0 <= i < old(self).shadow_pages@.len() && i != slot ==> #[trigger] final(self).shadow_pages@[i]
                    == old(self).shadow_pages@[i],
            *final(self) == (MemoryManager { shadow_pages: final(self).shadow_pages, ..*old(self) }),
    {
        let mut bytes = self.shadow_pages[slot].bytes.clone();
        let ghost base = self.shadow_pages@[slot as int].bytes@;
        assert(bytes@ =~= base);
        let mut i: usize = 0;
        while i < patch.len()
            invariant
                offset + patch@.len() <= 4096,
                base.len() == 4096,
                bytes@.len() == 4096,
                i <= patch@.len(),
                forall|j: int|
                    0 <= j < 4096 ==> #[trigger] bytes@[j] == if offset <= j < offset + i {
                        patch@[j - offset]
                    } else {
                        base[j]
                    },
            decreases patch@.len() - i,
        {
            bytes.set(offset + i, patch[i]);
            i = i + 1;
        }
        assert(bytes@ =~= patched(base, offset as int, patch@));
        self.shadow_pages.set(slot, ShadowPage { bytes });
    }
}

} // verus!

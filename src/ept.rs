//! The primary extended page tables: an identity map of guest physical memory
//! in 2 MiB leaves, of which some are split into 4 KiB page tables so that
//! single pages can carry their own access rights.

use std::collections::HashMap;
use vstd::prelude::*;

use crate::error::HypervisorError;
use crate::paging::pt_index_of;

verus! {

broadcast use vstd::std_specs::hash::group_hash_axioms;

/// Read access bit of an EPT entry.
pub const READ: u8 = 1;

/// Write access bit of an EPT entry.
pub const WRITE: u8 = 2;

/// Execute access bit of an EPT entry.
pub const EXECUTE: u8 = 4;

/// Read and write, no execute.
pub const READ_WRITE: u8 = 3;

/// Full access, the right of every identity-mapped page.
pub const READ_WRITE_EXECUTE: u8 = 7;

/// Entries in one page table.
pub const PAGE_TABLE_ENTRIES: usize = 512;

/// End of the identity-mapped guest physical range (512 GiB).
pub const IDENTITY_MAP_LIMIT: u64 = 0x80_0000_0000;

/// A 4 KiB-granular page table that replaces one 2 MiB leaf: entry `i` holds
/// the access rights of the `i`-th 4 KiB page of that leaf.
pub struct PageTable {
    pub entries: Vec<u8>,
}

impl PageTable {
    pub open spec fn wf(&self) -> bool {
        self.entries@.len() == PAGE_TABLE_ENTRIES
    }

    /// A zeroed page table.
    pub fn new() -> (r: PageTable)
        ensures
            r.wf(),
            r.entries@ == Seq::new(512, |i: int| 0u8),
    {
        let mut entries: Vec<u8> = Vec::new();
        while entries.len() < PAGE_TABLE_ENTRIES
            invariant
                entries@.len() <= 512,
                forall|i: int| 0 <= i < entries@.len() ==> entries@[i] == 0u8,
            decreases 512 - entries@.len(),
        {
            entries.push(0u8);
        }
        assert(entries@ =~= Seq::new(512, |i: int| 0u8));
        PageTable { entries }
    }
}

/// Rights of the 512 pages of a leaf that was never split.
pub fn full_access_entries() -> (r: Vec<u8>)
    ensures
        r@ == Seq::new(512, |i: int| READ_WRITE_EXECUTE),
{
    let mut r: Vec<u8> = Vec::new();
    while r.len() < PAGE_TABLE_ENTRIES
        invariant
            r@.len() <= 512,
            forall|i: int| 0 <= i < r@.len() ==> r@[i] == READ_WRITE_EXECUTE,
        decreases 512 - r@.len(),
    {
        r.push(READ_WRITE_EXECUTE);
    }
    assert(r@ =~= Seq::new(512, |i: int| READ_WRITE_EXECUTE));
    r
}

/// The primary EPT. Every 2 MiB page below `IDENTITY_MAP_LIMIT` is mapped to
/// itself with full access, unless the view maps it to the slot of the page
/// table that replaced its leaf.
pub struct Ept {
    pub split_leaves: HashMap<u64, usize>,
}

impl View for Ept {
    type V = Map<u64, usize>;

    open spec fn view(&self) -> Map<u64, usize> {
        self.split_leaves@
    }
}

impl Ept {
    /// The identity map of the whole guest physical range, in 2 MiB leaves.
    pub fn new() -> (r: Ept)
        ensures
            r@ == Map::<u64, usize>::empty(),
    {
        Ept { split_leaves: HashMap::new() }
    }

    /// Replaces the 2 MiB leaf at `large_pa` by the page table `pt`, which
    /// stands in slot `slot` of the page-table pool. Entry `i` of the table
    /// takes `rights[i]`, the rights that the `i`-th 4 KiB page of the leaf
    /// has now, so no page of the leaf changes its access.
    pub fn split_2mb_to_4kb(&mut self, large_pa: u64, slot: usize, pt: &mut PageTable, rights: &Vec<u8>) -> (r: Result<(), HypervisorError>)
        requires
            old(pt).wf(),
            rights@.len() == PAGE_TABLE_ENTRIES,
        ensures
            final(pt).wf(),
            r == (if large_pa % 0x20_0000 != 0 {
                Err(HypervisorError::UnalignedAddress)
            } else if large_pa >= IDENTITY_MAP_LIMIT {
                Err(HypervisorError::AddressNotMapped)
            } else {
                Ok(())
            }),
            r is Ok ==> final(self)@ == old(self)@.insert(large_pa, slot) && final(pt).entries@ == rights@,
            r is Err ==> final(self)@ == old(self)@ && *final(pt) == *old(pt),
    {
        if large_pa % 0x20_0000 != 0 {
            return Err(HypervisorError::UnalignedAddress);
        }
        if large_pa >= IDENTITY_MAP_LIMIT {
            return Err(HypervisorError::AddressNotMapped);
        }
        pt.entries = rights.clone();
        self.split_leaves.insert(large_pa, slot);
        Ok(())
    }

    /// Slot of the page table that replaced the 2 MiB leaf at `large_pa`.
    pub fn table_of(&self, large_pa: u64) -> (r: Option<usize>)
        ensures
            r == (if self@.contains_key(large_pa) {
                Some(self@[large_pa])
            } else {
                None::<usize>
            }),
    {
        match self.split_leaves.get(&large_pa) {
            Some(slot) => Some(*slot),
            None => None,
        }
    }

    /// Gives the 4 KiB page at `guest_pa` the access rights `access` in the
    /// page table `pt` that replaced its 2 MiB leaf.
    pub fn modify_page_permissions(&self, guest_pa: u64, access: u8, pt: &mut PageTable) -> (r: Result<(), HypervisorError>)
        requires
            old(pt).wf(),
        ensures
            final(pt).wf(),
            r == (if guest_pa % 4096 != 0 {
                Err(HypervisorError::UnalignedAddress)
            } else if guest_pa >= IDENTITY_MAP_LIMIT {
                Err(HypervisorError::AddressNotMapped)
            } else {
                Ok(())
            }),
            r is Ok ==> final(pt).entries@ == old(pt).entries@.update(pt_index_of(guest_pa), access),
            r is Err ==> *final(pt) == *old(pt),
    {
        if guest_pa % 4096 != 0 {
            return Err(HypervisorError::UnalignedAddress);
        }
        if guest_pa >= IDENTITY_MAP_LIMIT {
            return Err(HypervisorError::AddressNotMapped);
        }
        let index: usize = ((guest_pa % 0x20_0000) / 4096) as usize;
        pt.entries.set(index, access);
        Ok(())
    }
}

} // verus!

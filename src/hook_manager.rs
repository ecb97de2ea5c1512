//! Installation of EPT function hooks: the guest page that holds a function
//! keeps its contents but loses execute access, and a shadow copy of it with
//! a detour at the function is what executes in its place.

use vstd::prelude::*;

use crate::ept::{full_access_entries, Ept, IDENTITY_MAP_LIMIT, READ_WRITE, READ_WRITE_EXECUTE};
use crate::error::HypervisorError;
use crate::memory_manager::{patched, MemoryManager, SHADOW_PAGE_SIZE};
use crate::msr_bitmap::{msr_bit_index, MsrAccessType, MsrBitmap, MsrOperation, IA32_FEATURE_CONTROL, IA32_LSTAR};
use crate::paging::{
    base_page, base_page_offset, base_page_of, large_page, large_page_of, lemma_page_decomposition, page_offset_of,
    pt_index_of,
};
use crate::vm::Vm;

verus! {

/// Hooks that can be installed, and pages that the pool holds.
pub const MAX_HOOKS: usize = 64;

/// The instruction that a detour places at the hooked function.
#[derive(Debug, Clone, Copy, PartialEq, Eq, Structural)]
pub enum InlineHookType {
    /// VMCALL: the function's first instruction traps to the hypervisor.
    Vmcall,
    /// INT3: the function's first instruction raises a breakpoint.
    Int3,
}

/// Machine code of each detour.
pub open spec fn detour_bytes_of(t: InlineHookType) -> Seq<u8> {
    match t {
        InlineHookType::Vmcall => seq![0x0fu8, 0x01u8, 0xc1u8],
        InlineHookType::Int3 => seq![0xccu8],
    }
}

/// Machine code of the detour `t`.
pub fn detour_bytes(t: InlineHookType) -> (r: Vec<u8>)
    ensures
        r@ == detour_bytes_of(t),
{
    let r = match t {
        InlineHookType::Vmcall => vec![0x0fu8, 0x01u8, 0xc1u8],
        InlineHookType::Int3 => vec![0xccu8],
    };
    assert(r@ =~= detour_bytes_of(t));
    r
}

/// Kinds of hooks that can be asked for.
#[derive(Debug, Clone, Copy, PartialEq, Eq, Structural)]
pub enum EptHookType {
    /// Redirect a function through the given detour.
    Function(InlineHookType),
    /// Hide or watch a whole page; not implemented.
    Page,
}

/// Where an installed hook stands. The caller invalidates the EPT and VPID
/// caches of all contexts where the flags ask for it, before any core
/// enters a guest again.
#[derive(Debug, Clone, Copy, PartialEq, Eq, Structural)]
pub struct EptHookSite {
    pub guest_page_pa: u64,
    /// Slot of the shadow page in the pool.
    pub shadow_slot: usize,
    /// Offset of the detour in the shadow page.
    pub shadow_offset: u64,
    pub invalidate_ept_all_contexts: bool,
    pub invalidate_vpid_all_contexts: bool,
}

/// What is known of the guest kernel: its syscall entry, taken from the
/// first write of IA32_LSTAR, and the image that holds it.
#[derive(Debug, Clone, Copy, Default, PartialEq, Eq, Structural)]
pub struct KernelHook {
    pub syscall_entry: u64,
    pub base: u64,
    pub size: u64,
}

/// State shared by all cores for hooking.
pub struct HookManager {
    pub memory_manager: MemoryManager,
    pub msr_bitmap: MsrBitmap,
    /// Hooks installed so far.
    pub current_hook_index: u64,
    pub kernel_hook: KernelHook,
    /// Whether the guest has asked CPUID for its cache information.
    pub has_cpuid_cache_info_been_called: bool,
}

/// Every split leaf of `ept` is a page table of `mm` that was made for a page
/// of that leaf.
pub open spec fn ept_backed_by(ept: Map<u64, usize>, mm: MemoryManager) -> bool {
    forall|l: u64|
        #[trigger] ept.contains_key(l) ==> ept[l] < mm.page_tables@.len() && large_page_of(
            mm.page_table_owners@[ept[l] as int],
        ) == l
}

/// Access rights that `ept` gives the page that holds `p`.
pub open spec fn page_access(ept: Map<u64, usize>, mm: MemoryManager, p: u64) -> u8 {
    let l = large_page_of(p);
    if ept.contains_key(l) {
        mm.page_tables@[ept[l] as int].entries@[pt_index_of(p)]
    } else {
        READ_WRITE_EXECUTE
    }
}

/// The failure, if any, of a hook request at `pa` with `index` hooks installed.
pub open spec fn hook_install_error(index: u64, pa: u64, kind: EptHookType) -> Option<HypervisorError> {
    match kind {
        EptHookType::Page => Some(HypervisorError::PageHookUnimplemented),
        EptHookType::Function(t) => if index >= MAX_HOOKS {
            Some(HypervisorError::HookCapacityExceeded)
        } else if pa >= IDENTITY_MAP_LIMIT {
            Some(HypervisorError::AddressNotMapped)
        } else if page_offset_of(pa) + detour_bytes_of(t).len() > SHADOW_PAGE_SIZE {
            Some(HypervisorError::InlineHookFailed)
        } else {
            None
        },
    }
}

/// Access rights that `ept` gives the page that holds `pa`.
pub fn effective_access(ept: &Ept, mm: &MemoryManager, pa: u64) -> (r: u8)
    requires
        mm.wf(),
        ept_backed_by(ept@, *mm),
    ensures
        r == page_access(ept@, *mm, pa),
{
    proof {
        lemma_page_decomposition(pa);
    }
    let large = large_page(pa);
    match ept.table_of(large) {
        Some(slot) => {
            let index: usize = ((pa % 0x20_0000) / 4096) as usize;
            mm.page_tables[slot].entries[index]
        },
        None => READ_WRITE_EXECUTE,
    }
}

/// Makes sure that the EPT maps the 2 MiB page of `page` through a page
/// table and that `page` has a table of its own. Where either is missing, the
/// leaf is split into the page's table, which takes the rights that the
/// leaf's pages have now: no page changes its access.
#[verifier::spinoff_prover]
fn split_for_page(mm: &mut MemoryManager, ept: &mut Ept, page: u64)
    requires
        old(mm).wf(),
        ept_backed_by(old(ept)@, *old(mm)),
        page % 4096 == 0,
        page < IDENTITY_MAP_LIMIT,
        old(mm).page_tables@.len() < old(mm).capacity,
    ensures
        final(mm).wf(),
        ept_backed_by(final(ept)@, *final(mm)),
        final(ept)@.contains_key(large_page_of(page)),
        final(mm).page_table_slots@.dom() == old(mm).page_table_slots@.dom().insert(page),
        final(mm).page_tables@.len() == old(mm).page_tables@.len() + if old(mm).page_table_slots@.contains_key(
            page,
        ) {
            0int
        } else {
            1int
        },
        final(mm).shadow_page_slots@ == old(mm).shadow_page_slots@,
        final(mm).shadow_pages@ == old(mm).shadow_pages@,
        final(mm).capacity == old(mm).capacity,
        forall|q: u64| #[trigger] page_access(final(ept)@, *final(mm), q) == page_access(old(ept)@, *old(mm), q),
{
    proof {
        lemma_page_decomposition(page);
    }
    let ghost old_ept = ept@;
    let ghost old_mm = *mm;
    let large = large_page(page);
    let current = ept.table_of(large);
    if current.is_some() && mm.is_page_split(page) {
        assert(mm.page_table_slots@.dom() =~= old_mm.page_table_slots@.dom().insert(page));
        return;
    }
    let slot = match mm.get_or_create_page_table(page) {
        Ok(s) => s,
        Err(_) => {
            return;
        },
    };
    let rights = match current {
        Some(s) => mm.page_tables[s].entries.clone(),
        None => full_access_entries(),
    };
    proof {
        if let Some(s) = current {
            assert(rights@ =~= old_mm.page_tables@[s as int].entries@);
        }
    }
    let ghost mid_mm = *mm;
    match ept.split_2mb_to_4kb(large, slot, &mut mm.page_tables[slot], &rights) {
        Ok(()) => {},
        Err(_) => {
            return;
        },
    }
    proof {
        assert forall|i: int| 0 <= i < mm.page_tables@.len() implies (#[trigger] mm.page_tables@[i]).wf() by {
            if i != slot {
                assert(mm.page_tables@[i] == mid_mm.page_tables@[i]);
            }
        }
        assert(mm.page_table_slots@ == mid_mm.page_table_slots@);
        assert(mm.page_table_owners@ == mid_mm.page_table_owners@);
        assert(mm.wf());
        mid_mm.lemma_owner_of_slot(page);
        assert forall|l: u64| #[trigger] old_ept.contains_key(l) implies old_ept[l] != slot
            && mid_mm.page_table_owners@[old_ept[l] as int] == old_mm.page_table_owners@[old_ept[l] as int] by {
            if old_ept[l] == slot {
                assert(large_page_of(old_mm.page_table_owners@[slot as int]) == l);
            }
        }
        assert forall|q: u64| #[trigger] page_access(ept@, *mm, q) == page_access(old_ept, old_mm, q) by {
            lemma_page_decomposition(q);
            let lq = large_page_of(q);
            if lq != large && old_ept.contains_key(lq) {
                assert(mm.page_tables@[old_ept[lq] as int] == old_mm.page_tables@[old_ept[lq] as int]);
            }
        }
        assert(mm.page_table_slots@.dom() =~= old_mm.page_table_slots@.dom().insert(page));
    }
}

/// Takes execute access from `page` in the page table through which the EPT
/// maps its 2 MiB page; every other page keeps its rights.
#[verifier::spinoff_prover]
fn restrict_page(mm: &mut MemoryManager, ept: &Ept, page: u64)
    requires
        old(mm).wf(),
        ept_backed_by(ept@, *old(mm)),
        page % 4096 == 0,
        page < IDENTITY_MAP_LIMIT,
        ept@.contains_key(large_page_of(page)),
    ensures
        final(mm).wf(),
        ept_backed_by(ept@, *final(mm)),
        page_access(ept@, *final(mm), page) == READ_WRITE,
        forall|q: u64|
            base_page_of(q) != page ==> #[trigger] page_access(ept@, *final(mm), q) == page_access(
                ept@,
                *old(mm),
                q,
            ),
        *final(mm) == (MemoryManager { page_tables: final(mm).page_tables, ..*old(mm) }),
        final(mm).page_tables@.len() == old(mm).page_tables@.len(),
{
    proof {
        lemma_page_decomposition(page);
    }
    let ghost old_mm = *mm;
    let large = large_page(page);
    let table = match ept.table_of(large) {
        Some(t) => t,
        None => {
            return;
        },
    };
    match ept.modify_page_permissions(page, READ_WRITE, &mut mm.page_tables[table]) {
        Ok(()) => {},
        Err(_) => {
            return;
        },
    }
    proof {
        assert forall|i: int| 0 <= i < mm.page_tables@.len() implies (#[trigger] mm.page_tables@[i]).wf() by {
            if i != table {
                assert(mm.page_tables@[i] == old_mm.page_tables@[i]);
            }
        }
        assert(mm.wf());
        assert forall|q: u64| base_page_of(q) != page implies #[trigger] page_access(ept@, *mm, q) == page_access(
            ept@,
            old_mm,
            q,
        ) by {
            lemma_page_decomposition(q);
            let lq = large_page_of(q);
            if ept@.contains_key(lq) && ept@[lq] != table {
                assert(mm.page_tables@[ept@[lq] as int] == old_mm.page_tables@[ept@[lq] as int]);
            }
            if lq == large {
                assert(pt_index_of(q) != pt_index_of(page));
            }
        }
    }
}

impl HookManager {
    pub open spec fn wf(&self) -> bool {
        &&& self.memory_manager.wf()
        &&& self.memory_manager.capacity == MAX_HOOKS
        &&& self.memory_manager.page_tables@.len() <= self.current_hook_index
        &&& self.memory_manager.shadow_pages@.len() <= self.current_hook_index
        &&& self.current_hook_index <= MAX_HOOKS
        &&& self.msr_bitmap.wf()
    }

    /// A hook manager with no hooks, a pool for `MAX_HOOKS` pages, and an MSR
    /// bitmap that intercepts reads and writes of IA32_LSTAR and reads of
    /// IA32_FEATURE_CONTROL.
    pub fn new() -> (r: Result<Box<HookManager>, HypervisorError>)
        ensures
            r matches Ok(hm) && {
                &&& hm.wf()
                &&& hm.current_hook_index == 0
                &&& hm.memory_manager.page_table_slots@ == Map::<u64, usize>::empty()
                &&& hm.memory_manager.shadow_page_slots@ == Map::<u64, usize>::empty()
                &&& hm.kernel_hook == KernelHook { syscall_entry: 0, base: 0, size: 0 }
                &&& !hm.has_cpuid_cache_info_been_called
                &&& forall|m: u32, a: MsrAccessType| #[trigger]
                    hm.msr_bitmap.intercepts(m, a) <==> msr_bit_index(m, a) is None || (m == IA32_LSTAR) || (m
                        == IA32_FEATURE_CONTROL && a == MsrAccessType::Read)
            },
    {
        let memory_manager = MemoryManager::new(MAX_HOOKS);
        let mut msr_bitmap = MsrBitmap::new();
        msr_bitmap.modify_msr_interception(IA32_LSTAR, MsrAccessType::Read, MsrOperation::Hook);
        msr_bitmap.modify_msr_interception(IA32_LSTAR, MsrAccessType::Write, MsrOperation::Hook);
        msr_bitmap.modify_msr_interception(IA32_FEATURE_CONTROL, MsrAccessType::Read, MsrOperation::Hook);
        assert forall|m: u32, a: MsrAccessType| #[trigger]
            msr_bitmap.intercepts(m, a) <==> msr_bit_index(m, a) is None || (m == IA32_LSTAR) || (m
                == IA32_FEATURE_CONTROL && a == MsrAccessType::Read) by {
            assert(a == MsrAccessType::Read || a == MsrAccessType::Write);
        }
        Ok(
            Box::new(
                HookManager {
                    memory_manager,
                    msr_bitmap,
                    current_hook_index: 0,
                    kernel_hook: KernelHook { syscall_entry: 0, base: 0, size: 0 },
                    has_cpuid_cache_info_been_called: false,
                },
            ),
        )
    }
    /// Copies `guest_page`, the bytes of a guest page, into the shadow page in
    /// `shadow_slot`: a copy between two owned buffers of one page each.
    pub fn unsafe_copy_guest_to_shadow(&mut self, guest_page: &Vec<u8>, shadow_slot: usize)
        requires
            old(self).memory_manager.wf(),
            shadow_slot < old(self).memory_manager.shadow_pages@.len(),
            guest_page@.len() == SHADOW_PAGE_SIZE,
        ensures
            final(self).memory_manager.wf(),
            final(self).memory_manager.shadow_pages@.len() == old(self).memory_manager.shadow_pages@.len(),
            final(self).memory_manager.shadow_pages@[shadow_slot as int].bytes@ == guest_page@,
            forall|i: int|
                0 <= i < old(self).memory_manager.shadow_pages@.len() && i != shadow_slot
                    ==> #[trigger] final(self).memory_manager.shadow_pages@[i]
                    == old(self).memory_manager.shadow_pages@[i],
            final(self).memory_manager == (MemoryManager {
                shadow_pages: final(self).memory_manager.shadow_pages,
                ..old(self).memory_manager
            }),
            *final(self) == (HookManager { memory_manager: final(self).memory_manager, ..*old(self) }),
    {
        self.memory_manager.fill_shadow_page(shadow_slot, guest_page);
    }

    /// Records the base and size of the kernel image that holds the syscall entry.
    pub fn set_kernel_base_and_size(&mut self, base: u64, size: u64)
        ensures
            *final(self) == (HookManager {
                kernel_hook: KernelHook { base, size, ..old(self).kernel_hook },
                ..*old(self)
            }),
    {
        self.kernel_hook.base = base;
        self.kernel_hook.size = size;
    }

    /// Installs a function hook for the guest function at guest physical
    /// address `guest_function_pa` in the primary EPT of `vm`; `guest_page`
    /// holds the current bytes of the guest page that contains it.
    ///
    /// The page's 2 MiB leaf is split into a page table, unless the page
    /// already has one that the EPT uses; the page is copied into a shadow
    /// page, unless it already has one; the detour is written into the shadow
    /// page at the function's offset; and the guest page loses execute access
    /// while every other page keeps its rights. A failing request changes
    /// nothing.
    #[verifier::spinoff_prover]
    pub fn ept_hook_function(&mut self, vm: &mut Vm, guest_function_pa: u64, guest_page: &Vec<u8>, ept_hook_type: EptHookType) -> (r: Result<EptHookSite, HypervisorError>)
        requires
            old(self).wf(),
            ept_backed_by(old(vm).primary_ept@, old(self).memory_manager),
            guest_page@.len() == SHADOW_PAGE_SIZE,
        ensures
            final(self).wf(),
            ept_backed_by(final(vm).primary_ept@, final(self).memory_manager),
            r is Err <==> hook_install_error(old(self).current_hook_index, guest_function_pa, ept_hook_type) is Some,
            r matches Err(e) ==> hook_install_error(old(self).current_hook_index, guest_function_pa, ept_hook_type)
                == Some(e) && *final(self) == *old(self) && *final(vm) == *old(vm),
            r matches Ok(site) ==> {
                let page = base_page_of(guest_function_pa);
                let old_mm = old(self).memory_manager;
                let mm = final(self).memory_manager;
                &&& ept_hook_type matches EptHookType::Function(t) && mm.shadow_page_of(page) == patched(
                    if old_mm.shadow_page_slots@.contains_key(page) {
                        old_mm.shadow_page_of(page)
                    } else {
                        guest_page@
                    },
                    page_offset_of(guest_function_pa) as int,
                    detour_bytes_of(t),
                )
                &&& final(self).current_hook_index == old(self).current_hook_index + 1
                &&& mm.page_table_slots@.dom() == old_mm.page_table_slots@.dom().insert(page)
                &&& mm.shadow_page_slots@.dom() == old_mm.shadow_page_slots@.dom().insert(page)
                &&& mm.page_tables@.len() == old_mm.page_tables@.len() + if old_mm.page_table_slots@.contains_key(
                    page,
                ) {
                    0int
                } else {
                    1int
                }
                &&& mm.shadow_pages@.len() == old_mm.shadow_pages@.len() + if old_mm.shadow_page_slots@.contains_key(
                    page,
                ) {
                    0int
                } else {
                    1int
                }
                &&& forall|p: u64|
                    p != page && #[trigger] old_mm.shadow_page_slots@.contains_key(p) ==> mm.shadow_page_of(p)
                        == old_mm.shadow_page_of(p)
                &&& final(vm).primary_ept@.contains_key(large_page_of(guest_function_pa))
                &&& page_access(final(vm).primary_ept@, mm, page) == READ_WRITE
                &&& forall|q: u64|
                    base_page_of(q) != page ==> #[trigger] page_access(final(vm).primary_ept@, mm, q) == page_access(
                        old(vm).primary_ept@,
                        old_mm,
                        q,
                    )
                &&& site == EptHookSite {
                    guest_page_pa: page,
                    shadow_slot: mm.shadow_page_slots@[page],
                    shadow_offset: page_offset_of(guest_function_pa),
                    invalidate_ept_all_contexts: true,
                    invalidate_vpid_all_contexts: true,
                }
                &&& *final(vm) == (Vm { primary_ept: final(vm).primary_ept, ..*old(vm) })
                &&& final(self).msr_bitmap == old(self).msr_bitmap
                &&& final(self).kernel_hook == old(self).kernel_hook
                &&& final(self).has_cpuid_cache_info_been_called == old(self).has_cpuid_cache_info_been_called
            },
    {
        let inline_hook_type = match ept_hook_type {
            EptHookType::Function(t) => t,
            EptHookType::Page => {
                return Err(HypervisorError::PageHookUnimplemented);
            },
        };
        if self.current_hook_index >= MAX_HOOKS as u64 {
            return Err(HypervisorError::HookCapacityExceeded);
        }
        if guest_function_pa >= IDENTITY_MAP_LIMIT {
            return Err(HypervisorError::AddressNotMapped);
        }
        let guest_page_pa = base_page(guest_function_pa);
        let offset = base_page_offset(guest_function_pa);
        let detour = detour_bytes(inline_hook_type);
        if offset as usize + detour.len() > SHADOW_PAGE_SIZE {
            return Err(HypervisorError::InlineHookFailed);
        }
        let ghost old_ept = vm.primary_ept@;
        let ghost old_mm = self.memory_manager;
        proof {
            lemma_page_decomposition(guest_function_pa);
        }

        split_for_page(&mut self.memory_manager, &mut vm.primary_ept, guest_page_pa);
        let ghost split_mm = self.memory_manager;

        // Copy the guest page where it has no shadow page yet.
        if !self.memory_manager.is_page_copied(guest_page_pa) {
            let shadow_slot = self.memory_manager.get_or_create_shadow_page(guest_page_pa)?;
            self.unsafe_copy_guest_to_shadow(guest_page, shadow_slot);
        }
        let shadow_slot = match self.memory_manager.get_shadow_page(guest_page_pa) {
            Some(s) => s,
            None => {
                return Err(HypervisorError::ShadowPagesUnavailable);
            },
        };
        self.memory_manager.patch_shadow_page(shadow_slot, offset as usize, &detour);
        let ghost copied_mm = self.memory_manager;
        proof {
            assert(copied_mm.page_tables@ == split_mm.page_tables@);
            assert(copied_mm.page_table_owners@ == split_mm.page_table_owners@);
            assert(ept_backed_by(vm.primary_ept@, copied_mm));
        }

        restrict_page(&mut self.memory_manager, &vm.primary_ept, guest_page_pa);
        proof {
            assert forall|q: u64| base_page_of(q) != guest_page_pa implies #[trigger] page_access(
                vm.primary_ept@,
                self.memory_manager,
                q,
            ) == page_access(old_ept, old_mm, q) by {
                assert(page_access(vm.primary_ept@, copied_mm, q) == page_access(vm.primary_ept@, split_mm, q));
            }
            assert forall|p: u64| p != guest_page_pa && #[trigger] old_mm.shadow_page_slots@.contains_key(p)
                implies self.memory_manager.shadow_page_of(p) == old_mm.shadow_page_of(p) by {
                assert(self.memory_manager.shadow_page_slots@.contains_key(guest_page_pa));
                assert(self.memory_manager.shadow_page_slots@[p] != shadow_slot);
            }
            assert(self.memory_manager.shadow_page_slots@.dom() =~= old_mm.shadow_page_slots@.dom().insert(
                guest_page_pa,
            ));
        }
        self.current_hook_index = self.current_hook_index + 1;
        Ok(
            EptHookSite {
                guest_page_pa,
                shadow_slot,
                shadow_offset: offset,
                invalidate_ept_all_contexts: true,
                invalidate_vpid_all_contexts: true,
            },
        )
    }
}

/// Hooking two addresses of one page splits and copies that page once: the
/// second request finds the page in both pools, so they do not grow.
pub proof fn lemma_hook_pools_idempotent(split: Set<u64>, copied: Set<u64>, pa1: u64, pa2: u64)
    requires
        base_page_of(pa1) == base_page_of(pa2),
    ensures
        split.insert(base_page_of(pa1)).contains(base_page_of(pa2)),
        copied.insert(base_page_of(pa1)).contains(base_page_of(pa2)),
        split.insert(base_page_of(pa1)).insert(base_page_of(pa2)) == split.insert(base_page_of(pa1)),
        copied.insert(base_page_of(pa1)).insert(base_page_of(pa2)) == copied.insert(base_page_of(pa1)),
{
    assert(split.insert(base_page_of(pa1)).insert(base_page_of(pa2)) =~= split.insert(base_page_of(pa1)));
    assert(copied.insert(base_page_of(pa1)).insert(base_page_of(pa2)) =~= copied.insert(base_page_of(pa1)));
}

/// Once `MAX_HOOKS` hooks are installed every further function hook fails
/// with the capacity error, on any page; below that a hook in the mapped
/// range whose detour fits in its page is installed.
pub proof fn lemma_hook_capacity(index: u64, pa: u64, t: InlineHookType)
    ensures
        index >= MAX_HOOKS ==> hook_install_error(index, pa, EptHookType::Function(t)) == Some(
            HypervisorError::HookCapacityExceeded,
        ),
        index < MAX_HOOKS && pa < IDENTITY_MAP_LIMIT && page_offset_of(pa) + detour_bytes_of(t).len()
            <= SHADOW_PAGE_SIZE ==> hook_install_error(index, pa, EptHookType::Function(t)) is None,
{
}

} // verus!

use illusion_core::ept::{Ept, PageTable, READ_WRITE, READ_WRITE_EXECUTE};
use illusion_core::error::HypervisorError;
use illusion_core::hook_manager::{effective_access, EptHookType, HookManager, InlineHookType, MAX_HOOKS};
use illusion_core::memory_manager::MemoryManager;
use illusion_core::paging::{base_page, base_page_offset, calculate_function_offset_in_host_shadow_page, large_page};
use illusion_core::registers::GuestRegisters;
use illusion_core::vm::{CpuFeatureInfo, PlatformInfo, Vm};

fn ready_vm() -> Vm {
    let mut vm = Vm::zeroed();
    let platform = PlatformInfo {
        vmcs_revision_id: 4,
        ept_pml4_pa: 0x5000,
        feature_info: Some(CpuFeatureInfo { eax: 0x906ea, ebx: 0, ecx: 0, edx: 0 }),
        xsave_eax: 7,
        xsave_edx: 0,
    };
    vm.init(&GuestRegisters::default(), &platform).unwrap();
    vm
}

fn guest_page() -> Vec<u8> {
    (0..4096u32).map(|i| (i % 251) as u8).collect()
}

#[test]
fn page_address_arithmetic() {
    assert_eq!(base_page(0x1234_5678), 0x1234_5000);
    assert_eq!(large_page(0x1234_5678), 0x1220_0000);
    assert_eq!(base_page_offset(0x1234_5678), 0x678);
    assert_eq!(base_page(0x1000), 0x1000);
    assert_eq!(large_page(0x1f_ffff), 0);
    assert_eq!(calculate_function_offset_in_host_shadow_page(0x7000, 0x1234_5678), 0x7678);
}

#[test]
fn function_hook_end_to_end() {
    let mut hm = HookManager::new().unwrap();
    let mut vm = ready_vm();
    let page = guest_page();
    assert!(!hm.memory_manager.is_page_split(0x1234_5000));
    let site = hm
        .ept_hook_function(&mut vm, 0x1234_5678, &page, EptHookType::Function(InlineHookType::Vmcall))
        .unwrap();
    assert_eq!(site.guest_page_pa, 0x1234_5000);
    assert_eq!(site.shadow_offset, 0x678);
    assert!(site.invalidate_ept_all_contexts);
    assert!(site.invalidate_vpid_all_contexts);
    assert!(hm.memory_manager.is_page_split(0x1234_5000));
    assert!(hm.memory_manager.is_page_copied(0x1234_5000));
    assert_eq!(vm.primary_ept.table_of(0x1220_0000), Some(0));
    let shadow = &hm.memory_manager.shadow_pages[site.shadow_slot].bytes;
    for i in 0..4096usize {
        let expected = match i {
            0x678 => 0x0f,
            0x679 => 0x01,
            0x67a => 0xc1,
            _ => page[i],
        };
        assert_eq!(shadow[i], expected, "byte {:#x}", i);
    }
    assert_eq!(effective_access(&vm.primary_ept, &hm.memory_manager, 0x1234_5000), READ_WRITE);
    assert_eq!(effective_access(&vm.primary_ept, &hm.memory_manager, 0x1234_5fff), READ_WRITE);
    assert_eq!(effective_access(&vm.primary_ept, &hm.memory_manager, 0x1234_6000), READ_WRITE_EXECUTE);
    assert_eq!(effective_access(&vm.primary_ept, &hm.memory_manager, 0x4000_0000), READ_WRITE_EXECUTE);
    assert_eq!(hm.current_hook_index, 1);
}

#[test]
fn hooking_one_page_twice_splits_and_copies_once() {
    let mut hm = HookManager::new().unwrap();
    let mut vm = ready_vm();
    let page = guest_page();
    hm.ept_hook_function(&mut vm, 0x1234_5678, &page, EptHookType::Function(InlineHookType::Vmcall)).unwrap();
    let site = hm
        .ept_hook_function(&mut vm, 0x1234_5100, &page, EptHookType::Function(InlineHookType::Int3))
        .unwrap();
    assert!(hm.memory_manager.is_page_split(0x1234_5000));
    assert!(hm.memory_manager.is_page_copied(0x1234_5000));
    assert_eq!(hm.memory_manager.page_tables.len(), 1);
    assert_eq!(hm.memory_manager.shadow_pages.len(), 1);
    assert_eq!(hm.current_hook_index, 2);
    let shadow = &hm.memory_manager.shadow_pages[site.shadow_slot].bytes;
    assert_eq!(shadow[0x100], 0xcc);
    assert_eq!(shadow[0x678], 0x0f);
    assert_eq!(shadow[0x101], page[0x101]);
    assert_eq!(effective_access(&vm.primary_ept, &hm.memory_manager, 0x1234_5000), READ_WRITE);
}

#[test]
fn sibling_hooks_keep_each_other() {
    let mut hm = HookManager::new().unwrap();
    let mut vm = ready_vm();
    let page = guest_page();
    hm.ept_hook_function(&mut vm, 0x20_1000, &page, EptHookType::Function(InlineHookType::Int3)).unwrap();
    hm.ept_hook_function(&mut vm, 0x20_3000, &page, EptHookType::Function(InlineHookType::Int3)).unwrap();
    assert_eq!(effective_access(&vm.primary_ept, &hm.memory_manager, 0x20_1000), READ_WRITE);
    assert_eq!(effective_access(&vm.primary_ept, &hm.memory_manager, 0x20_3000), READ_WRITE);
    assert_eq!(effective_access(&vm.primary_ept, &hm.memory_manager, 0x20_2000), READ_WRITE_EXECUTE);
}

#[test]
fn hook_capacity_is_enforced() {
    let mut hm = HookManager::new().unwrap();
    let mut vm = ready_vm();
    let page = guest_page();
    for i in 0..MAX_HOOKS as u64 {
        hm.ept_hook_function(&mut vm, i * 0x1000, &page, EptHookType::Function(InlineHookType::Int3)).unwrap();
    }
    let r = hm.ept_hook_function(&mut vm, 64 * 0x1000, &page, EptHookType::Function(InlineHookType::Int3));
    assert_eq!(r, Err(HypervisorError::HookCapacityExceeded));
    assert!(!hm.memory_manager.is_page_split(64 * 0x1000));
    assert_eq!(hm.current_hook_index, 64);
    assert_eq!(hm.memory_manager.page_tables.len(), 64);
    assert_eq!(hm.memory_manager.shadow_pages.len(), 64);
    for i in 0..MAX_HOOKS as u64 {
        assert!(hm.memory_manager.is_page_split(i * 0x1000));
        assert!(hm.memory_manager.is_page_copied(i * 0x1000));
        assert_eq!(effective_access(&vm.primary_ept, &hm.memory_manager, i * 0x1000), READ_WRITE);
    }
    assert_eq!(effective_access(&vm.primary_ept, &hm.memory_manager, 64 * 0x1000), READ_WRITE_EXECUTE);
}

#[test]
fn page_hooks_are_refused() {
    let mut hm = HookManager::new().unwrap();
    let mut vm = ready_vm();
    let r = hm.ept_hook_function(&mut vm, 0x1234_5678, &guest_page(), EptHookType::Page);
    assert_eq!(r, Err(HypervisorError::PageHookUnimplemented));
    assert!(!hm.memory_manager.is_page_split(0x1234_5000));
    assert_eq!(hm.current_hook_index, 0);
}

#[test]
fn hook_outside_identity_map_is_refused() {
    let mut hm = HookManager::new().unwrap();
    let mut vm = ready_vm();
    let r = hm.ept_hook_function(&mut vm, 0x80_0000_0000, &guest_page(), EptHookType::Function(InlineHookType::Int3));
    assert_eq!(r, Err(HypervisorError::AddressNotMapped));
}

#[test]
fn detour_must_fit_in_page() {
    let mut hm = HookManager::new().unwrap();
    let mut vm = ready_vm();
    let r = hm.ept_hook_function(&mut vm, 0x3ffe, &guest_page(), EptHookType::Function(InlineHookType::Vmcall));
    assert_eq!(r, Err(HypervisorError::InlineHookFailed));
    assert_eq!(hm.memory_manager.shadow_pages.len(), 0);
    let site = hm
        .ept_hook_function(&mut vm, 0x3fff, &guest_page(), EptHookType::Function(InlineHookType::Int3))
        .unwrap();
    assert_eq!(site.shadow_offset, 0xfff);
}

#[test]
fn memory_manager_pools() {
    let mut mm = MemoryManager::new(2);
    assert_eq!(mm.get_or_create_page_table(0x1000), Ok(0));
    assert_eq!(mm.get_or_create_page_table(0x1000), Ok(0));
    assert_eq!(mm.get_or_create_page_table(0x2000), Ok(1));
    assert_eq!(mm.get_or_create_page_table(0x3000), Err(HypervisorError::PageTablesUnavailable));
    assert_eq!(mm.get_page_table(0x2000), Some(1));
    assert_eq!(mm.get_page_table(0x3000), None);
    assert_eq!(mm.get_or_create_shadow_page(0x5000), Ok(0));
    assert_eq!(mm.get_or_create_shadow_page(0x6000), Ok(1));
    assert_eq!(mm.get_or_create_shadow_page(0x5000), Ok(0));
    assert_eq!(mm.get_or_create_shadow_page(0x7000), Err(HypervisorError::ShadowPagesUnavailable));
    assert_eq!(mm.get_shadow_page(0x6000), Some(1));
    assert!(mm.is_page_split(0x1000));
    assert!(!mm.is_page_copied(0x1000));
}

#[test]
fn ept_split_and_permissions() {
    let mut ept = Ept::new();
    let mut pt = PageTable::new();
    let rights = vec![READ_WRITE_EXECUTE; 512];
    assert_eq!(ept.split_2mb_to_4kb(0x1000, 0, &mut pt, &rights), Err(HypervisorError::UnalignedAddress));
    assert_eq!(ept.split_2mb_to_4kb(0x80_0000_0000, 0, &mut pt, &rights), Err(HypervisorError::AddressNotMapped));
    assert_eq!(ept.table_of(0x20_0000), None);
    assert_eq!(ept.split_2mb_to_4kb(0x20_0000, 3, &mut pt, &rights), Ok(()));
    assert_eq!(ept.table_of(0x20_0000), Some(3));
    assert!(pt.entries.iter().all(|e| *e == READ_WRITE_EXECUTE));
    assert_eq!(ept.modify_page_permissions(0x20_5001, READ_WRITE, &mut pt), Err(HypervisorError::UnalignedAddress));
    assert_eq!(ept.modify_page_permissions(0x20_5000, READ_WRITE, &mut pt), Ok(()));
    assert_eq!(pt.entries[5], READ_WRITE);
    assert_eq!(pt.entries[4], READ_WRITE_EXECUTE);
}

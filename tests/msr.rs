use illusion_core::hook_manager::HookManager;
use illusion_core::msr::{handle_msr_access, is_msr_access_allowed, ExitType, MsrExit};
use illusion_core::msr_bitmap::{MsrAccessType, MsrBitmap, MsrOperation, IA32_FEATURE_CONTROL, IA32_GS_BASE, IA32_LSTAR};
use illusion_core::vm::Vm;

const FAULT: MsrExit = MsrExit { exit_type: ExitType::Continue, inject_gp: true, hardware_write: None };

fn vm_with(rcx: u64, rdx: u64, rax: u64) -> Vm {
    let mut vm = Vm::zeroed();
    vm.guest_registers.rcx = rcx;
    vm.guest_registers.rdx = rdx;
    vm.guest_registers.rax = rax;
    vm
}

#[test]
fn msr_ranges() {
    assert!(is_msr_access_allowed(0));
    assert!(is_msr_access_allowed(0x1fff));
    assert!(!is_msr_access_allowed(0x2000));
    assert!(is_msr_access_allowed(0xc000_0000));
    assert!(is_msr_access_allowed(0xc000_1fff));
    assert!(!is_msr_access_allowed(0xc000_2000));
    assert!(!is_msr_access_allowed(0x4000_0000));
    assert!(!is_msr_access_allowed(0x4000_00ff));
    assert!(!is_msr_access_allowed(0xbfff_ffff));
}

#[test]
fn invalid_msr_injects_fault_and_changes_nothing() {
    for msr in [0x2000u64, 0x4000_0000, 0x4000_00ff, 0xc000_2000, 0xffff_ffff] {
        for access in [MsrAccessType::Read, MsrAccessType::Write] {
            let mut hm = HookManager::new().unwrap();
            let mut vm = vm_with(msr, 0x11, 0x22);
            let before = vm.guest_registers;
            let r = handle_msr_access(&mut vm, &mut hm, access, 0x1234);
            assert_eq!(r, FAULT);
            assert_eq!(vm.guest_registers, before);
            assert!(hm.msr_bitmap.is_intercepted(IA32_LSTAR, MsrAccessType::Write));
        }
    }
}

#[test]
fn first_syscall_entry_write_reads_back() {
    let mut hm = HookManager::new().unwrap();
    let mut vm = vm_with(IA32_LSTAR as u64, 0xffff_f800, 0x1234_5678);
    let v = 0xffff_f800_1234_5678u64;
    let r = handle_msr_access(&mut vm, &mut hm, MsrAccessType::Write, 0);
    assert_eq!(r, MsrExit { exit_type: ExitType::IncrementRIP, inject_gp: false, hardware_write: Some(v) });
    assert_eq!(vm.guest_registers.original_lstar, v);
    assert_eq!(vm.guest_registers.hook_lstar, v);
    assert_eq!(hm.kernel_hook.syscall_entry, v);
    assert!(!hm.msr_bitmap.is_intercepted(IA32_LSTAR, MsrAccessType::Write));
    assert!(hm.msr_bitmap.is_intercepted(IA32_LSTAR, MsrAccessType::Read));

    vm.guest_registers.rax = 0;
    vm.guest_registers.rdx = 0;
    let r = handle_msr_access(&mut vm, &mut hm, MsrAccessType::Read, 0xdead_beef);
    assert_eq!(r, MsrExit { exit_type: ExitType::IncrementRIP, inject_gp: false, hardware_write: None });
    assert_eq!(vm.guest_registers.rax, 0x1234_5678);
    assert_eq!(vm.guest_registers.rdx, 0xffff_f800);
}

#[test]
fn rewriting_original_syscall_entry_commits_hook() {
    let mut hm = HookManager::new().unwrap();
    let mut vm = vm_with(IA32_LSTAR as u64, 0xffff_f800, 0x1234_5678);
    let v = 0xffff_f800_1234_5678u64;
    handle_msr_access(&mut vm, &mut hm, MsrAccessType::Write, 0);
    let hook = 0xffff_f800_0000_1000u64;
    vm.guest_registers.hook_lstar = hook;

    let r = handle_msr_access(&mut vm, &mut hm, MsrAccessType::Write, 0);
    assert_eq!(r.hardware_write, Some(hook));
    assert_eq!(vm.guest_registers.original_lstar, v);

    let r = handle_msr_access(&mut vm, &mut hm, MsrAccessType::Read, hook);
    assert_eq!(r.exit_type, ExitType::IncrementRIP);
    assert_eq!(vm.guest_registers.rax, 0x1234_5678);
    assert_eq!(vm.guest_registers.rdx, 0xffff_f800);
}

#[test]
fn other_syscall_entry_value_is_not_committed() {
    let mut hm = HookManager::new().unwrap();
    let mut vm = vm_with(IA32_LSTAR as u64, 0xffff_f800, 0x1234_5678);
    handle_msr_access(&mut vm, &mut hm, MsrAccessType::Write, 0);
    vm.guest_registers.rax = 0x9999;
    let r = handle_msr_access(&mut vm, &mut hm, MsrAccessType::Write, 0);
    assert_eq!(r, MsrExit { exit_type: ExitType::IncrementRIP, inject_gp: false, hardware_write: None });
    assert_eq!(vm.guest_registers.original_lstar, 0xffff_f800_1234_5678);
}

#[test]
fn syscall_entry_read_before_capture_is_live() {
    let mut hm = HookManager::new().unwrap();
    let mut vm = vm_with(IA32_LSTAR as u64, 0, 0);
    handle_msr_access(&mut vm, &mut hm, MsrAccessType::Read, 0x0000_0001_8000_0000);
    assert_eq!(vm.guest_registers.rax, 0x8000_0000);
    assert_eq!(vm.guest_registers.rdx, 1);
}

#[test]
fn feature_control_reads_locked() {
    let mut hm = HookManager::new().unwrap();
    let mut vm = vm_with(IA32_FEATURE_CONTROL as u64, 0, 0);
    handle_msr_access(&mut vm, &mut hm, MsrAccessType::Read, 0x4);
    assert_eq!(vm.guest_registers.rax, 0x1);
    assert_eq!(vm.guest_registers.rdx, 0);
    handle_msr_access(&mut vm, &mut hm, MsrAccessType::Read, 0xffff_ffff_0000_0006);
    assert_eq!(vm.guest_registers.rax, 0x3);
    assert_eq!(vm.guest_registers.rdx, 0xffff_ffff);
}

#[test]
fn other_msrs_pass_through() {
    let mut hm = HookManager::new().unwrap();
    let mut vm = vm_with(0x1_0000_0010, 0, 0);
    let r = handle_msr_access(&mut vm, &mut hm, MsrAccessType::Read, 0x1_0000_0002);
    assert_eq!(r, MsrExit { exit_type: ExitType::IncrementRIP, inject_gp: false, hardware_write: None });
    assert_eq!(vm.guest_registers.rax, 2);
    assert_eq!(vm.guest_registers.rdx, 1);

    let mut vm = vm_with(IA32_GS_BASE as u64, 0xffff_f806, 0x1000);
    let r = handle_msr_access(&mut vm, &mut hm, MsrAccessType::Write, 0);
    assert_eq!(r.hardware_write, Some(0xffff_f806_0000_1000));
    assert_eq!(vm.guest_registers.original_lstar, 0);
}

#[test]
fn msr_bitmap_interception() {
    let hm = HookManager::new().unwrap();
    assert!(hm.msr_bitmap.is_intercepted(IA32_LSTAR, MsrAccessType::Read));
    assert!(hm.msr_bitmap.is_intercepted(IA32_LSTAR, MsrAccessType::Write));
    assert!(hm.msr_bitmap.is_intercepted(IA32_FEATURE_CONTROL, MsrAccessType::Read));
    assert!(!hm.msr_bitmap.is_intercepted(IA32_FEATURE_CONTROL, MsrAccessType::Write));
    assert!(!hm.msr_bitmap.is_intercepted(0x10, MsrAccessType::Read));
    assert!(hm.msr_bitmap.is_intercepted(0x4000_0000, MsrAccessType::Read));

    let mut bitmap = MsrBitmap::new();
    bitmap.modify_msr_interception(0x1fff, MsrAccessType::Write, MsrOperation::Hook);
    assert_eq!(bitmap.bytes[2048 + 1023], 0x80);
    bitmap.modify_msr_interception(0xc000_0001, MsrAccessType::Read, MsrOperation::Hook);
    assert_eq!(bitmap.bytes[1024], 0x02);
    bitmap.modify_msr_interception(0x1fff, MsrAccessType::Write, MsrOperation::Unhook);
    assert!(!bitmap.is_intercepted(0x1fff, MsrAccessType::Write));
    assert!(bitmap.is_intercepted(0xc000_0001, MsrAccessType::Read));
}

use illusion_core::boot::{processor_plan, start_hypervisor, BootAction, ProcessorPlan, VIRTUALIZED_MARKER};
use illusion_core::error::HypervisorError;
use illusion_core::registers::GuestRegisters;
use illusion_core::vm::{CpuFeatureInfo, PlatformInfo, Vm, VmExitInfo, VmState, VmcsFields, VmxonInputs, VmxonSetup};
use illusion_core::vmerror::{is_known_instruction_error, VmxBasicExitReason};

fn platform() -> PlatformInfo {
    PlatformInfo {
        vmcs_revision_id: 0x8000_0004,
        ept_pml4_pa: 0x5000,
        feature_info: Some(CpuFeatureInfo { eax: 0x906ea, ebx: 0x100800, ecx: 0x7ffafbff, edx: 0xbfebfbff }),
        xsave_eax: 0x7,
        xsave_edx: 0,
    }
}

fn vmxon_inputs(feature_control: u64) -> VmxonInputs {
    VmxonInputs {
        cr0: 0x11,
        cr4: 0x20,
        cr0_fixed0: 0x8000_0021,
        cr0_fixed1: 0xffff_ffff,
        cr4_fixed0: 0x2000,
        cr4_fixed1: 0x3727ff,
        feature_control,
    }
}

fn registers() -> GuestRegisters {
    GuestRegisters { rip: 0x1000, rsp: 0x8000, rflags: 0x2, rbx: 7, ..GuestRegisters::default() }
}

fn active_vm() -> Vm {
    let mut vm = Vm::zeroed();
    vm.init(&registers(), &platform()).unwrap();
    vm.activate_vmxon(&vmxon_inputs(0x5)).unwrap();
    vm.activate_vmcs().unwrap();
    vm
}

fn exit(reason: u32) -> VmExitInfo {
    VmExitInfo { guest_rip: 0x2000, guest_rsp: 0x9000, guest_rflags: 0x46, exit_reason: reason }
}

#[test]
fn zeroed_vm_is_not_launched() {
    let vm = Vm::zeroed();
    assert_eq!(vm.state, VmState::Uninitialized);
    assert!(!vm.has_launched);
}

#[test]
fn init_sets_up_control_block() {
    let mut vm = Vm::zeroed();
    assert_eq!(vm.init(&registers(), &platform()), Ok(()));
    assert_eq!(vm.state, VmState::Initialized);
    assert_eq!(vm.vmxon_region.len(), 4096);
    assert_eq!(&vm.vmxon_region[0..4], &[4, 0, 0, 0]);
    assert_eq!(&vm.vmcs_region[0..4], &[4, 0, 0, 0]);
    assert!(vm.vmcs_region[4..].iter().all(|b| *b == 0));
    assert_eq!(vm.primary_eptp, 0x501e);
    assert_eq!(vm.guest_registers, registers());
    assert!(!vm.has_launched);
    assert_eq!(vm.old_rflags, None);
    assert_eq!(vm.mtf_counter, None);
    assert_eq!(vm.cpuid_feature_info.eax, 0x906ea);
    assert_eq!(vm.xcr0_unsupported_mask, !0x7u64);
}

#[test]
fn init_revision_bytes_are_little_endian() {
    let mut vm = Vm::zeroed();
    let p = PlatformInfo { vmcs_revision_id: 0x1234_5678, ..platform() };
    vm.init(&registers(), &p).unwrap();
    assert_eq!(&vm.vmxon_region[0..4], &[0x78, 0x56, 0x34, 0x12]);
}

#[test]
fn init_errors_leave_vm_unchanged() {
    let mut vm = Vm::zeroed();
    let p = PlatformInfo { ept_pml4_pa: 0x5008, ..platform() };
    assert_eq!(vm.init(&registers(), &p), Err(HypervisorError::UnalignedAddress));
    assert_eq!(vm.state, VmState::Uninitialized);
    let p = PlatformInfo { feature_info: None, ..platform() };
    assert_eq!(vm.init(&registers(), &p), Err(HypervisorError::CPUUnsupported));
    assert_eq!(vm.state, VmState::Uninitialized);
    assert_eq!(vm.vmxon_region.len(), 0);
}

#[test]
fn vmxon_setup_values() {
    let mut vm = Vm::zeroed();
    vm.init(&registers(), &platform()).unwrap();
    let setup = vm.activate_vmxon(&vmxon_inputs(0)).unwrap();
    assert_eq!(setup, VmxonSetup { cr0: 0x8000_0031, cr4: 0x2020, feature_control_write: Some(0x5) });
    assert_eq!(vm.state, VmState::VmxOn);
    assert_eq!(vm.activate_vmxon(&vmxon_inputs(0)), Err(HypervisorError::InvalidVmState));
}

#[test]
fn vmxon_keeps_firmware_lock() {
    let mut vm = Vm::zeroed();
    vm.init(&registers(), &platform()).unwrap();
    let setup = vm.activate_vmxon(&vmxon_inputs(0x5)).unwrap();
    assert_eq!(setup.feature_control_write, None);
}

#[test]
fn vmxon_refused_under_bios_lock() {
    let mut vm = Vm::zeroed();
    vm.init(&registers(), &platform()).unwrap();
    assert_eq!(vm.activate_vmxon(&vmxon_inputs(0x1)), Err(HypervisorError::VMXBIOSLock));
    assert_eq!(vm.state, VmState::Initialized);
}

#[test]
fn lifecycle_order_is_enforced() {
    let mut vm = Vm::zeroed();
    assert_eq!(vm.activate_vmxon(&vmxon_inputs(0)), Err(HypervisorError::InvalidVmState));
    vm.init(&registers(), &platform()).unwrap();
    assert_eq!(vm.activate_vmcs(), Err(HypervisorError::InvalidVmState));
    assert_eq!(vm.run(0x2, 0, &exit(10)), Err(HypervisorError::InvalidVmState));
    assert!(!vm.has_launched);
    vm.activate_vmxon(&vmxon_inputs(0)).unwrap();
    assert_eq!(vm.run(0x2, 0, &exit(10)), Err(HypervisorError::InvalidVmState));
    let fields = vm.activate_vmcs().unwrap();
    assert_eq!(fields, VmcsFields { ept_pointer: 0x501e, guest_rip: 0x1000, guest_rsp: 0x8000, guest_rflags: 0x2 });
    assert_eq!(vm.setup_vmcs(), fields);
    assert_eq!(vm.state, VmState::VmcsActive);
}

#[test]
fn launch_state_after_entries() {
    let mut vm = active_vm();
    assert!(!vm.has_launched);
    assert_eq!(vm.run(0x2, 0, &exit(10)), Ok(VmxBasicExitReason::Cpuid));
    assert!(vm.has_launched);
    assert_eq!(vm.guest_registers.rip, 0x2000);
    assert_eq!(vm.guest_registers.rsp, 0x9000);
    assert_eq!(vm.guest_registers.rflags, 0x46);
    assert_eq!(vm.guest_registers.rbx, 7);
    assert_eq!(vm.run(0x3, 0, &exit(10)), Err(HypervisorError::VMFailToLaunch));
    assert!(vm.has_launched);
    assert_eq!(vm.run(0x2, 0, &exit(48)), Ok(VmxBasicExitReason::EptViolation));
    assert!(vm.has_launched);
}

#[test]
fn failed_first_entry_is_not_launched() {
    let mut vm = active_vm();
    assert_eq!(vm.run(0x42, 7, &exit(10)), Err(HypervisorError::VmInstructionError));
    assert!(!vm.has_launched);
    assert_eq!(vm.guest_registers.rip, 0x1000);
}

#[test]
fn unknown_exit_reason_is_fatal() {
    let mut vm = active_vm();
    assert_eq!(vm.run(0x2, 0, &exit(35)), Err(HypervisorError::UnknownVMExitReason));
    assert!(vm.has_launched);
    assert_eq!(vm.run(0x2, 0, &exit(70)), Err(HypervisorError::UnknownVMExitReason));
}

#[test]
fn entry_status_from_flags() {
    assert_eq!(Vm::vm_succeed(0x2, 0), Ok(()));
    assert_eq!(Vm::vm_succeed(0x1, 0), Err(HypervisorError::VMFailToLaunch));
    assert_eq!(Vm::vm_succeed(0x40, 7), Err(HypervisorError::VmInstructionError));
    assert_eq!(Vm::vm_succeed(0x40, 14), Err(HypervisorError::UnknownVMInstructionError));
    assert_eq!(Vm::vm_succeed(0x41, 28), Err(HypervisorError::VmInstructionError));
    assert_eq!(Vm::vm_succeed(0xffff_ffbe, 0), Ok(()));
}

#[test]
fn exit_reason_decoding() {
    assert_eq!(VmxBasicExitReason::from_u32(0), Some(VmxBasicExitReason::ExceptionOrNmi));
    assert_eq!(VmxBasicExitReason::from_u32(31), Some(VmxBasicExitReason::Rdmsr));
    assert_eq!(VmxBasicExitReason::from_u32(32), Some(VmxBasicExitReason::Wrmsr));
    assert_eq!(VmxBasicExitReason::from_u32(37), Some(VmxBasicExitReason::MonitorTrapFlag));
    assert_eq!(VmxBasicExitReason::from_u32(69), Some(VmxBasicExitReason::Loadiwkey));
    assert_eq!(VmxBasicExitReason::from_u32(38), None);
    assert_eq!(VmxBasicExitReason::from_u32(42), None);
    assert_eq!(VmxBasicExitReason::from_u32(0x8000_0021), None);
    assert!(is_known_instruction_error(1));
    assert!(!is_known_instruction_error(0));
    assert!(!is_known_instruction_error(21));
    assert!(!is_known_instruction_error(27));
    assert!(is_known_instruction_error(28));
}

#[test]
fn boot_marker_decides() {
    let mut regs = GuestRegisters { rax: 0, rbx: 3, ..GuestRegisters::default() };
    assert_eq!(start_hypervisor(&mut regs, false), BootAction::Virtualize);
    assert_eq!(regs.rax, VIRTUALIZED_MARKER);
    assert_eq!(regs.rbx, 3);
    assert_eq!(start_hypervisor(&mut regs, true), BootAction::AlreadyVirtualized);
}

#[test]
fn processor_plan_by_count() {
    assert_eq!(processor_plan(1), ProcessorPlan::CurrentProcessor);
    assert_eq!(processor_plan(4), ProcessorPlan::ApplicationProcessors);
    assert_eq!(processor_plan(0), ProcessorPlan::ApplicationProcessors);
}

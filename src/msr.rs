//! Emulation of the RDMSR and WRMSR instructions that the guest executed and
//! that caused a VM exit.
//!
//! The handler decides; the caller carries out the hardware access. It reads
//! the live MSR value only where `is_msr_access_allowed` holds and the access
//! is a read, and it writes `hardware_write` to the MSR where there is one.

use bit_field::BitField;
use vstd::prelude::*;

use crate::hook_manager::{HookManager, KernelHook};
use crate::msr_bitmap::{msr_bit_index, MsrAccessType, MsrOperation, IA32_FEATURE_CONTROL, IA32_LSTAR};
use crate::registers::GuestRegisters;
use crate::vm::Vm;

verus! {

/// Low 32 bits of a 64-bit MSR value.
pub const MSR_MASK_LOW: u64 = 0xffff_ffff;

/// Lock bit of IA32_FEATURE_CONTROL.
pub const VMX_LOCK_BIT: usize = 0;

/// "Enable VMX outside SMX operation" bit of IA32_FEATURE_CONTROL.
pub const VMXON_OUTSIDE_SMX: usize = 2;

/// How the VM resumes after an exit has been handled.
#[derive(Debug, Clone, Copy, PartialEq, Eq, Structural)]
pub enum ExitType {
    /// Leave the hypervisor.
    ExitHypervisor,
    /// Resume after the instruction that caused the exit.
    IncrementRIP,
    /// Resume without moving the instruction pointer.
    Continue,
}

/// The disposition of an intercepted MSR access.
#[derive(Debug, Clone, Copy, PartialEq, Eq, Structural)]
pub struct MsrExit {
    pub exit_type: ExitType,
    /// Whether a general-protection fault is injected into the guest.
    pub inject_gp: bool,
    /// The value committed to the MSR, if any.
    pub hardware_write: Option<u64>,
}

/// An MSR in the low (0 to 1FFFh) or high (C0000000h to C0001FFFh) range.
pub open spec fn msr_in_valid_range(msr: u32) -> bool {
    msr <= 0x1fff || (0xc000_0000 <= msr && msr <= 0xc000_1fff)
}

/// An MSR of the range that hypervisors reserve for synthetic registers.
pub open spec fn msr_is_synthetic(msr: u32) -> bool {
    0x4000_0000 <= msr && msr <= 0x4000_00ff
}

/// Whether the guest may access `msr` at all.
pub open spec fn msr_access_allowed(msr: u32) -> bool {
    msr_in_valid_range(msr) && !msr_is_synthetic(msr)
}

/// The MSR that RDMSR and WRMSR name: ECX.
pub open spec fn msr_id_of(regs: GuestRegisters) -> u32 {
    regs.rcx as u32
}

/// The value that WRMSR writes: EDX:EAX.
pub open spec fn msr_value_of(regs: GuestRegisters) -> u64 {
    (regs.rdx << 32u64) | (regs.rax & MSR_MASK_LOW)
}

/// What the guest reads from `msr` when the hardware holds `live`: the
/// captured syscall entry for IA32_LSTAR once there is one;
/// IA32_FEATURE_CONTROL locked with VMX outside SMX disabled; else `live`.
pub open spec fn msr_read_value(regs: GuestRegisters, msr: u32, live: u64) -> u64 {
    if msr == IA32_LSTAR && regs.original_lstar != 0 {
        regs.original_lstar
    } else if msr == IA32_FEATURE_CONTROL {
        (live | 1u64) & !4u64
    } else {
        live
    }
}

/// Registers after RDMSR returned `value`: EDX:EAX hold it.
pub open spec fn after_read(regs: GuestRegisters, value: u64) -> GuestRegisters {
    GuestRegisters { rax: value & MSR_MASK_LOW, rdx: value >> 32u64, ..regs }
}

/// Registers after a write of `value` to IA32_LSTAR: the first nonzero
/// value written is captured as the original, and the hook starts as it.
pub open spec fn after_lstar_write(regs: GuestRegisters, value: u64) -> GuestRegisters {
    if regs.original_lstar == 0 {
        GuestRegisters { original_lstar: value, hook_lstar: value, ..regs }
    } else {
        regs
    }
}

/// What a write of `value` to IA32_LSTAR commits to hardware: where the guest
/// writes the captured original, the hook (or the original, while no hook is
/// set); any other value is not committed.
pub open spec fn lstar_hardware_write(regs: GuestRegisters, value: u64) -> Option<u64> {
    let r = after_lstar_write(regs, value);
    if value == r.original_lstar {
        Some(
            if r.hook_lstar != 0 {
                r.hook_lstar
            } else {
                r.original_lstar
            },
        )
    } else {
        None
    }
}

/// Whether the guest may access `msr` at all: it lies in one of the two
/// architectural ranges and outside the synthetic range.
pub fn is_msr_access_allowed(msr: u32) -> (r: bool)
    ensures
        r == msr_access_allowed(msr),
{
    let low = msr <= 0x1fff;
    let high = 0xc000_0000 <= msr && msr <= 0xc000_1fff;
    let synthetic = 0x4000_0000 <= msr && msr <= 0x4000_00ff;
    (low || high) && !synthetic
}

/// Relies on bit_field's `BitField::set_bit` for `u64`, which sets bit `bit`
/// of the value where `on` holds and clears it otherwise (and panics where
/// `bit` is 64 or more).
#[verifier::external_body]
fn u64_set_bit(value: u64, bit: usize, on: bool) -> (r: u64)
    requires
        bit < 64,
    ensures
        r == if on {
            value | (1u64 << bit as u64)
        } else {
            value & !(1u64 << bit as u64)
        },
{
    let mut v = value;
    v.set_bit(bit, on);
    v
}

/// Emulates the RDMSR or WRMSR (as `access_type` says) that the guest of
/// `vm` executed. `live_value` is what the hardware MSR holds, where the
/// access is an allowed read.
pub fn handle_msr_access(vm: &mut Vm, hook_manager: &mut HookManager, access_type: MsrAccessType, live_value: u64) -> (r: MsrExit)
    requires
        old(hook_manager).wf(),
    ensures
        final(hook_manager).wf(),
        ({
            let regs = old(vm).guest_registers;
            let msr = msr_id_of(regs);
            let value = msr_value_of(regs);
            if !msr_access_allowed(msr) {
                &&& r == MsrExit { exit_type: ExitType::Continue, inject_gp: true, hardware_write: None }
                &&& *final(vm) == *old(vm)
                &&& *final(hook_manager) == *old(hook_manager)
            } else if access_type == MsrAccessType::Read {
                &&& r == MsrExit { exit_type: ExitType::IncrementRIP, inject_gp: false, hardware_write: None }
                &&& *final(vm) == (Vm {
                    guest_registers: after_read(regs, msr_read_value(regs, msr, live_value)),
                    ..*old(vm)
                })
                &&& *final(hook_manager) == *old(hook_manager)
            } else if msr == IA32_LSTAR {
                &&& r == MsrExit {
                    exit_type: ExitType::IncrementRIP,
                    inject_gp: false,
                    hardware_write: lstar_hardware_write(regs, value),
                }
                &&& *final(vm) == (Vm { guest_registers: after_lstar_write(regs, value), ..*old(vm) })
                &&& final(hook_manager).kernel_hook == (KernelHook {
                    syscall_entry: value,
                    ..old(hook_manager).kernel_hook
                })
                &&& forall|m: u32, a: MsrAccessType| #[trigger]
                    final(hook_manager).msr_bitmap.intercepts(m, a) == if m == IA32_LSTAR && a
                        == MsrAccessType::Write {
                        false
                    } else {
                        old(hook_manager).msr_bitmap.intercepts(m, a)
                    }
                &&& final(hook_manager).memory_manager == old(hook_manager).memory_manager
                &&& final(hook_manager).current_hook_index == old(hook_manager).current_hook_index
                &&& final(hook_manager).has_cpuid_cache_info_been_called
                    == old(hook_manager).has_cpuid_cache_info_been_called
            } else {
                &&& r == MsrExit {
                    exit_type: ExitType::IncrementRIP,
                    inject_gp: false,
                    hardware_write: Some(value),
                }
                &&& *final(vm) == *old(vm)
                &&& *final(hook_manager) == *old(hook_manager)
            }
        }),
{
    let msr_id = #[verifier::truncate] (vm.guest_registers.rcx as u32);
    let msr_value = (vm.guest_registers.rdx << 32u64) | (vm.guest_registers.rax & MSR_MASK_LOW);

    if !is_msr_access_allowed(msr_id) {
        return MsrExit { exit_type: ExitType::Continue, inject_gp: true, hardware_write: None };
    }
    match access_type {
        MsrAccessType::Read => {
            let result_value = if msr_id == IA32_LSTAR && vm.guest_registers.original_lstar != 0 {
                vm.guest_registers.original_lstar
            } else if msr_id == IA32_FEATURE_CONTROL {
                let locked = u64_set_bit(live_value, VMX_LOCK_BIT, true);
                assert(1u64 << 0u64 == 1u64 && 1u64 << 2u64 == 4u64) by (bit_vector);
                u64_set_bit(locked, VMXON_OUTSIDE_SMX, false)
            } else {
                live_value
            };
            vm.guest_registers.rax = result_value & MSR_MASK_LOW;
            vm.guest_registers.rdx = result_value >> 32u64;
            MsrExit { exit_type: ExitType::IncrementRIP, inject_gp: false, hardware_write: None }
        },
        MsrAccessType::Write => {
            if msr_id == IA32_LSTAR {
                hook_manager.msr_bitmap.modify_msr_interception(
                    IA32_LSTAR,
                    MsrAccessType::Write,
                    MsrOperation::Unhook,
                );
                hook_manager.kernel_hook.syscall_entry = msr_value;
                if vm.guest_registers.original_lstar == 0 {
                    vm.guest_registers.original_lstar = msr_value;
                    vm.guest_registers.hook_lstar = vm.guest_registers.original_lstar;
                }
                let hardware_write = if msr_value == vm.guest_registers.original_lstar {
                    if vm.guest_registers.hook_lstar != 0 {
                        Some(vm.guest_registers.hook_lstar)
                    } else {
                        Some(vm.guest_registers.original_lstar)
                    }
                } else {
                    None
                };
                MsrExit { exit_type: ExitType::IncrementRIP, inject_gp: false, hardware_write }
            } else {
                MsrExit { exit_type: ExitType::IncrementRIP, inject_gp: false, hardware_write: Some(msr_value) }
            }
        },
    }
}

/// Writing a nonzero value V to IA32_LSTAR for the first time commits V to
/// hardware, and reading the register back then gives V in EDX:EAX.
pub proof fn lemma_syscall_entry_first_write(regs: GuestRegisters, live: u64)
    requires
        msr_id_of(regs) == IA32_LSTAR,
        regs.original_lstar == 0,
        msr_value_of(regs) != 0,
    ensures
        ({
            let v = msr_value_of(regs);
            let written = after_lstar_write(regs, v);
            &&& lstar_hardware_write(regs, v) == Some(v)
            &&& msr_read_value(written, IA32_LSTAR, live) == v
            &&& msr_value_of(after_read(written, msr_read_value(written, IA32_LSTAR, live))) == v
        }),
{
    let v = msr_value_of(regs);
    assert(((v >> 32u64) << 32u64) | ((v & 0xffff_ffffu64) & 0xffff_ffffu64) == v) by (bit_vector);
}

/// Writing IA32_LSTAR again with the captured original commits the hook
/// value instead, and leaves the captured original, which reads still report.
pub proof fn lemma_syscall_entry_rewrite(regs: GuestRegisters, live: u64)
    requires
        regs.original_lstar != 0,
        msr_value_of(regs) == regs.original_lstar,
    ensures
        lstar_hardware_write(regs, msr_value_of(regs)) == Some(
            if regs.hook_lstar != 0 {
                regs.hook_lstar
            } else {
                regs.original_lstar
            },
        ),
        after_lstar_write(regs, msr_value_of(regs)) == regs,
        msr_read_value(after_lstar_write(regs, msr_value_of(regs)), IA32_LSTAR, live) == regs.original_lstar,
{
}

} // verus!

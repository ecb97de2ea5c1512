//! The per-core VM control block and the state machine that brings VMX
//! operation online and drives guest entries and exits.
//!
//! The privileged instructions themselves (VMXON, VMCLEAR, VMPTRLD, VMREAD,
//! VM entry) are carried out by the caller; each step here takes the values
//! those instructions produced and decides what follows.

use vstd::prelude::*;
use x86::bits64::rflags::RFlags;

use crate::ept::Ept;
use crate::error::HypervisorError;
use crate::registers::GuestRegisters;
use crate::vmerror::{
    exit_reason_code, is_defined_exit_reason, is_defined_instruction_error, is_known_instruction_error, VmxBasicExitReason,
};

verus! {

/// Bytes in a VMXON or VMCS region.
pub const VMX_REGION_SIZE: usize = 4096;

/// The zero flag of RFLAGS.
pub const FLAGS_ZF: u64 = 0x40;

/// The carry flag of RFLAGS.
pub const FLAGS_CF: u64 = 0x1;

/// CR4.VMXE, which enables VMX operation.
pub const CR4_VMXE: u64 = 0x2000;

/// Lock bit of IA32_FEATURE_CONTROL.
pub const FEATURE_CONTROL_LOCK: u64 = 0x1;

/// "Enable VMX outside SMX operation" bit of IA32_FEATURE_CONTROL.
pub const FEATURE_CONTROL_VMXON_OUTSIDE_SMX: u64 = 0x4;

/// EPT pointer bits for write-back memory and a four-level walk.
pub const EPTP_WB_4LVL: u64 = 0x1e;

/// Where a VM control block stands in its lifecycle.
#[derive(Debug, Clone, Copy, PartialEq, Eq, Structural)]
pub enum VmState {
    /// Allocated, nothing set up.
    Uninitialized,
    /// Regions, EPT and guest snapshot are set up.
    Initialized,
    /// VMX operation is on for this core.
    VmxOn,
    /// The VMCS is the current one of this core and populated.
    VmcsActive,
}

/// CPUID leaf 1 (feature information), as the four registers it returns.
#[derive(Debug, Clone, Copy, Default, PartialEq, Eq, Structural)]
pub struct CpuFeatureInfo {
    pub eax: u32,
    pub ebx: u32,
    pub ecx: u32,
    pub edx: u32,
}

/// What `Vm::init` reads from the machine.
#[derive(Debug, Clone, Copy, PartialEq, Eq, Structural)]
pub struct PlatformInfo {
    /// VMCS revision identifier, bits 30:0 of IA32_VMX_BASIC.
    pub vmcs_revision_id: u32,
    /// Host physical address of the PML4 table of the primary EPT.
    pub ept_pml4_pa: u64,
    /// CPUID leaf 1, if the processor reports it.
    pub feature_info: Option<CpuFeatureInfo>,
    /// EAX of CPUID leaf 0Dh, sub-leaf 0: supported XCR0 bits 31:0.
    pub xsave_eax: u32,
    /// EDX of CPUID leaf 0Dh, sub-leaf 0: supported XCR0 bits 63:32.
    pub xsave_edx: u32,
}

/// Control registers and MSRs that decide how VMX operation is entered.
#[derive(Debug, Clone, Copy, PartialEq, Eq, Structural)]
pub struct VmxonInputs {
    pub cr0: u64,
    pub cr4: u64,
    pub cr0_fixed0: u64,
    pub cr0_fixed1: u64,
    pub cr4_fixed0: u64,
    pub cr4_fixed1: u64,
    pub feature_control: u64,
}

/// What the caller writes to the machine before executing VMXON.
#[derive(Debug, Clone, Copy, PartialEq, Eq, Structural)]
pub struct VmxonSetup {
    pub cr0: u64,
    pub cr4: u64,
    /// A new IA32_FEATURE_CONTROL value, where the current one is unlocked.
    pub feature_control_write: Option<u64>,
}

/// Values the VMCS is populated with from this control block.
#[derive(Debug, Clone, Copy, PartialEq, Eq, Structural)]
pub struct VmcsFields {
    pub ept_pointer: u64,
    pub guest_rip: u64,
    pub guest_rsp: u64,
    pub guest_rflags: u64,
}

/// What the VMCS reports after a VM exit.
#[derive(Debug, Clone, Copy, Default, PartialEq, Eq, Structural)]
pub struct VmExitInfo {
    pub guest_rip: u64,
    pub guest_rsp: u64,
    pub guest_rflags: u64,
    pub exit_reason: u32,
}

/// A VMXON or VMCS region holding `revision_id`: bits 30:0 of it in the
/// first four bytes, little endian, and zeros everywhere else.
pub open spec fn region_holds(bytes: Seq<u8>, revision_id: u32) -> bool {
    &&& bytes.len() == VMX_REGION_SIZE
    &&& bytes[0] == (revision_id & 0xff) as u8
    &&& bytes[1] == ((revision_id >> 8u32) & 0xff) as u8
    &&& bytes[2] == ((revision_id >> 16u32) & 0xff) as u8
    &&& bytes[3] == ((revision_id >> 24u32) & 0x7f) as u8
    &&& forall|i: int| 4 <= i < VMX_REGION_SIZE ==> bytes[i] == 0u8
}

/// The EPT pointer for a PML4 table at `pml4_pa`.
pub open spec fn eptp_of(pml4_pa: u64) -> u64 {
    pml4_pa | EPTP_WB_4LVL
}

/// The outcome that the RFLAGS left by a VM entry stand for.
pub open spec fn entry_status(flags: u64, instruction_error: u32) -> Result<(), HypervisorError> {
    if flags & FLAGS_ZF == FLAGS_ZF {
        if is_defined_instruction_error(instruction_error) {
            Err(HypervisorError::VmInstructionError)
        } else {
            Err(HypervisorError::UnknownVMInstructionError)
        }
    } else if flags & FLAGS_CF == FLAGS_CF {
        Err(HypervisorError::VMFailToLaunch)
    } else {
        Ok(())
    }
}

/// The machine writes that enter VMX operation from `inputs`: CR4.VMXE set;
/// IA32_FEATURE_CONTROL locked with VMX outside SMX enabled, unless firmware
/// already locked it (an error where it left VMX outside SMX disabled); then
/// the bits that the fixed MSRs force in CR0 and CR4.
pub open spec fn vmxon_setup_of(inputs: VmxonInputs) -> Result<VmxonSetup, HypervisorError> {
    let fc = inputs.feature_control;
    if fc & FEATURE_CONTROL_LOCK != 0 && fc & FEATURE_CONTROL_VMXON_OUTSIDE_SMX == 0 {
        Err(HypervisorError::VMXBIOSLock)
    } else {
        Ok(
            VmxonSetup {
                cr0: (inputs.cr0 | inputs.cr0_fixed0) & inputs.cr0_fixed1,
                cr4: ((inputs.cr4 | CR4_VMXE) | inputs.cr4_fixed0) & inputs.cr4_fixed1,
                feature_control_write: if fc & FEATURE_CONTROL_LOCK == 0 {
                    Some(fc | FEATURE_CONTROL_VMXON_OUTSIDE_SMX | FEATURE_CONTROL_LOCK)
                } else {
                    None
                },
            },
        )
    }
}

/// Relies on x86's `RFlags::contains` (through `RFlags::from_raw` and
/// `RFlags::from_bits_truncate`): whether every bit of `flag` is set in `raw`.
#[verifier::external_body]
fn rflags_contains(raw: u64, flag: u64) -> (r: bool)
    requires
        flag == FLAGS_ZF || flag == FLAGS_CF,
    ensures
        r == (raw & flag == flag),
{
    RFlags::from_raw(raw).contains(RFlags::from_bits_truncate(flag))
}

/// A zeroed region of `VMX_REGION_SIZE` bytes that holds `revision_id`.
fn new_region(revision_id: u32) -> (r: Vec<u8>)
    ensures
        region_holds(r@, revision_id),
{
    let mut r: Vec<u8> = Vec::new();
    while r.len() < VMX_REGION_SIZE
        invariant
            r@.len() <= 4096,
            forall|i: int| 0 <= i < r@.len() ==> r@[i] == 0u8,
        decreases 4096 - r@.len(),
    {
        r.push(0u8);
    }
    r.set(0, (revision_id & 0xff) as u8);
    r.set(1, ((revision_id >> 8u32) & 0xff) as u8);
    r.set(2, ((revision_id >> 16u32) & 0xff) as u8);
    r.set(3, ((revision_id >> 24u32) & 0x7f) as u8);
    r
}

/// The per-core VM control block.
pub struct Vm {
    pub vmxon_region: Vec<u8>,
    pub vmcs_region: Vec<u8>,
    pub primary_ept: Ept,
    pub primary_eptp: u64,
    pub guest_registers: GuestRegisters,
    pub has_launched: bool,
    /// RFLAGS saved while the guest is single-stepped to restore overwritten bytes.
    pub old_rflags: Option<u64>,
    /// Monitor-trap-flag steps left in such a restore.
    pub mtf_counter: Option<u64>,
    pub cpuid_feature_info: CpuFeatureInfo,
    /// XCR0 bits that the processor does not support.
    pub xcr0_unsupported_mask: u64,
    pub state: VmState,
}

impl Vm {
    /// Whether the regions hold the revision identifier, as every state after
    /// `init` needs.
    pub open spec fn regions_ready(&self) -> bool {
        exists|rev: u32| region_holds(self.vmxon_region@, rev) && region_holds(self.vmcs_region@, rev)
    }

    /// A control block with every field zero, not yet initialized.
    pub fn zeroed() -> (r: Vm)
        ensures
            r.state == VmState::Uninitialized,
            !r.has_launched,
            r.primary_ept@ == Map::<u64, usize>::empty(),
            r.guest_registers == GuestRegisters::zero_spec(),
    {
        Vm {
            vmxon_region: Vec::new(),
            vmcs_region: Vec::new(),
            primary_ept: Ept::new(),
            primary_eptp: 0,
            guest_registers: GuestRegisters::zero(),
            has_launched: false,
            old_rflags: None,
            mtf_counter: None,
            cpuid_feature_info: CpuFeatureInfo { eax: 0, ebx: 0, ecx: 0, edx: 0 },
            xcr0_unsupported_mask: 0,
            state: VmState::Uninitialized,
        }
    }

    /// Sets the control block up for a core whose registers were captured as
    /// `guest_registers`: fresh VMXON and VMCS regions with the revision
    /// identifier, an identity-mapped primary EPT and its pointer (write-back,
    /// four-level walk), the guest snapshot, launch state cleared, and the
    /// CPU feature data. Nothing changes when it fails.
    pub fn init(&mut self, guest_registers: &GuestRegisters, platform: &PlatformInfo) -> (r: Result<(), HypervisorError>)
        ensures
            r == (if platform.ept_pml4_pa % 4096 != 0 {
                Err(HypervisorError::UnalignedAddress)
            } else if platform.feature_info is None {
                Err(HypervisorError::CPUUnsupported)
            } else {
                Ok(())
            }),
            r is Err ==> *final(self) == *old(self),
            r is Ok ==> {
                &&& final(self).state == VmState::Initialized
                &&& region_holds(final(self).vmxon_region@, platform.vmcs_revision_id)
                &&& region_holds(final(self).vmcs_region@, platform.vmcs_revision_id)
                &&& final(self).regions_ready()
                &&& final(self).primary_ept@ == Map::<u64, usize>::empty()
                &&& final(self).primary_eptp == eptp_of(platform.ept_pml4_pa)
                &&& final(self).guest_registers == *guest_registers
                &&& !final(self).has_launched
                &&& final(self).old_rflags is None
                &&& final(self).mtf_counter is None
                &&& final(self).cpuid_feature_info == platform.feature_info->Some_0
                &&& final(self).xcr0_unsupported_mask == !(((platform.xsave_edx as u64) << 32u64)
                    | platform.xsave_eax as u64)
            },
    {
        if platform.ept_pml4_pa % 4096 != 0 {
            return Err(HypervisorError::UnalignedAddress);
        }
        let feature_info = match platform.feature_info {
            Some(f) => f,
            None => {
                return Err(HypervisorError::CPUUnsupported);
            },
        };
        self.vmxon_region = new_region(platform.vmcs_revision_id);
        self.vmcs_region = new_region(platform.vmcs_revision_id);
        self.primary_ept = Ept::new();
        self.primary_eptp = platform.ept_pml4_pa | EPTP_WB_4LVL;
        self.guest_registers = *guest_registers;
        self.has_launched = false;
        self.old_rflags = None;
        self.mtf_counter = None;
        self.cpuid_feature_info = feature_info;
        self.xcr0_unsupported_mask = !(((platform.xsave_edx as u64) << 32u64) | platform.xsave_eax as u64);
        self.state = VmState::Initialized;
        Ok(())
    }
    /// Decides the machine writes that prepare VMX operation.
    fn setup_vmxon(&self, inputs: &VmxonInputs) -> (r: Result<VmxonSetup, HypervisorError>)
        ensures
            r == vmxon_setup_of(*inputs),
    {
        let cr4 = inputs.cr4 | CR4_VMXE;
        let fc = inputs.feature_control;
        let feature_control_write = if fc & FEATURE_CONTROL_LOCK == 0 {
            Some(fc | FEATURE_CONTROL_VMXON_OUTSIDE_SMX | FEATURE_CONTROL_LOCK)
        } else if fc & FEATURE_CONTROL_VMXON_OUTSIDE_SMX == 0 {
            return Err(HypervisorError::VMXBIOSLock);
        } else {
            None
        };
        let cr0 = (inputs.cr0 | inputs.cr0_fixed0) & inputs.cr0_fixed1;
        let cr4 = (cr4 | inputs.cr4_fixed0) & inputs.cr4_fixed1;
        Ok(VmxonSetup { cr0, cr4, feature_control_write })
    }

    /// Turns VMX operation on for an initialized control block: returns the
    /// writes the caller makes before it executes VMXON on `vmxon_region`.
    pub fn activate_vmxon(&mut self, inputs: &VmxonInputs) -> (r: Result<VmxonSetup, HypervisorError>)
        ensures
            r == (if old(self).state != VmState::Initialized {
                Err(HypervisorError::InvalidVmState)
            } else {
                vmxon_setup_of(*inputs)
            }),
            final(self).state == (if r is Ok {
                VmState::VmxOn
            } else {
                old(self).state
            }),
            *final(self) == (Vm { state: final(self).state, ..*old(self) }),
    {
        if self.state != VmState::Initialized {
            return Err(HypervisorError::InvalidVmState);
        }
        let setup = self.setup_vmxon(inputs)?;
        self.state = VmState::VmxOn;
        Ok(setup)
    }

    /// Makes the VMCS the current one of this core, once VMX operation is on,
    /// and returns what it is populated with.
    pub fn activate_vmcs(&mut self) -> (r: Result<VmcsFields, HypervisorError>)
        ensures
            r == (if old(self).state == VmState::VmxOn || old(self).state == VmState::VmcsActive {
                Ok(old(self).vmcs_fields())
            } else {
                Err(HypervisorError::InvalidVmState)
            }),
            final(self).state == (if r is Ok {
                VmState::VmcsActive
            } else {
                old(self).state
            }),
            *final(self) == (Vm { state: final(self).state, ..*old(self) }),
    {
        if self.state != VmState::VmxOn && self.state != VmState::VmcsActive {
            return Err(HypervisorError::InvalidVmState);
        }
        let fields = self.setup_vmcs();
        self.state = VmState::VmcsActive;
        Ok(fields)
    }

    /// The VMCS fields that come from this control block.
    pub open spec fn vmcs_fields(&self) -> VmcsFields {
        VmcsFields {
            ept_pointer: self.primary_eptp,
            guest_rip: self.guest_registers.rip,
            guest_rsp: self.guest_registers.rsp,
            guest_rflags: self.guest_registers.rflags,
        }
    }

    /// The VMCS fields that come from this control block: the EPT pointer and
    /// the guest's instruction pointer, stack pointer and flags.
    pub fn setup_vmcs(&self) -> (r: VmcsFields)
        ensures
            r == self.vmcs_fields(),
    {
        VmcsFields {
            ept_pointer: self.primary_eptp,
            guest_rip: self.guest_registers.rip,
            guest_rsp: self.guest_registers.rsp,
            guest_rflags: self.guest_registers.rflags,
        }
    }

    /// Checks the RFLAGS that a VM entry left: with ZF set the entry failed
    /// and `instruction_error` (read from the VMCS) says why; with CF set it
    /// failed before any error number was recorded.
    pub fn vm_succeed(flags: u64, instruction_error: u32) -> (r: Result<(), HypervisorError>)
        ensures
            r == entry_status(flags, instruction_error),
    {
        if rflags_contains(flags, FLAGS_ZF) {
            if is_known_instruction_error(instruction_error) {
                Err(HypervisorError::VmInstructionError)
            } else {
                Err(HypervisorError::UnknownVMInstructionError)
            }
        } else if rflags_contains(flags, FLAGS_CF) {
            Err(HypervisorError::VMFailToLaunch)
        } else {
            Ok(())
        }
    }

    /// Takes the outcome of one guest entry (launch when `has_launched` is
    /// false, resume otherwise): `flags` are the RFLAGS the entry left,
    /// `instruction_error` the VMCS error number where ZF is set, and `exit`
    /// what the VMCS reports after the exit. On a successful entry the
    /// control block is launched from then on, its snapshot takes the guest's
    /// RIP, RSP and RFLAGS, and the exit reason is decoded.
    pub fn run(&mut self, flags: u64, instruction_error: u32, exit: &VmExitInfo) -> (r: Result<VmxBasicExitReason, HypervisorError>)
        ensures
            old(self).state != VmState::VmcsActive ==> r == Err::<VmxBasicExitReason, HypervisorError>(
                HypervisorError::InvalidVmState,
            ) && *final(self) == *old(self),
            old(self).state == VmState::VmcsActive && entry_status(flags, instruction_error) is Err ==> r
                == Err::<VmxBasicExitReason, HypervisorError>(
                entry_status(flags, instruction_error)->Err_0,
            ) && *final(self) == *old(self),
            old(self).state == VmState::VmcsActive && entry_status(flags, instruction_error) is Ok ==> {
                &&& final(self).has_launched
                &&& final(self).guest_registers == (GuestRegisters {
                    rip: exit.guest_rip,
                    rsp: exit.guest_rsp,
                    rflags: exit.guest_rflags,
                    ..old(self).guest_registers
                })
                &&& *final(self) == (Vm {
                    has_launched: true,
                    guest_registers: final(self).guest_registers,
                    ..*old(self)
                })
                &&& match r {
                    Ok(e) => is_defined_exit_reason(exit.exit_reason) && exit_reason_code(e)
                        == exit.exit_reason,
                    Err(e) => !is_defined_exit_reason(exit.exit_reason) && e
                        == HypervisorError::UnknownVMExitReason,
                }
            },
            final(self).has_launched == launched_after_entry(
                old(self).has_launched,
                old(self).state,
                flags,
                instruction_error,
            ),
    {
        if self.state != VmState::VmcsActive {
            return Err(HypervisorError::InvalidVmState);
        }
        Self::vm_succeed(flags, instruction_error)?;
        self.has_launched = true;
        self.guest_registers.rip = exit.guest_rip;
        self.guest_registers.rsp = exit.guest_rsp;
        self.guest_registers.rflags = exit.guest_rflags;
        match VmxBasicExitReason::from_u32(exit.exit_reason) {
            Some(reason) => Ok(reason),
            None => Err(HypervisorError::UnknownVMExitReason),
        }
    }
}

/// Launch state after one entry attempt: launched once an entry from an
/// active VMCS succeeded, and for good.
pub open spec fn launched_after_entry(has_launched: bool, state: VmState, flags: u64, instruction_error: u32) -> bool {
    has_launched || (state == VmState::VmcsActive && entry_status(flags, instruction_error) is Ok)
}

/// A control block that has never been entered is not launched; the first
/// successful entry from an active VMCS launches it, and it stays launched
/// whatever later entries do.
pub proof fn lemma_launch_state(state: VmState, flags: u64, instruction_error: u32)
    ensures
        launched_after_entry(false, VmState::VmcsActive, flags, instruction_error) <==> entry_status(
            flags,
            instruction_error,
        ) is Ok,
        launched_after_entry(true, state, flags, instruction_error),
{
}

/// An entry that left CF set and ZF clear failed to launch, which is told
/// apart from the failures with ZF set, whose error number was recorded.
pub proof fn lemma_carry_flag_failure(flags: u64, instruction_error: u32)
    requires
        flags & FLAGS_CF == FLAGS_CF,
        flags & FLAGS_ZF == 0,
    ensures
        entry_status(flags, instruction_error) == Err::<(), HypervisorError>(HypervisorError::VMFailToLaunch),
        entry_status(flags | FLAGS_ZF, instruction_error) is Err,
        entry_status(flags | FLAGS_ZF, instruction_error) != Err::<(), HypervisorError>(
            HypervisorError::VMFailToLaunch,
        ),
{
    assert((flags | 0x40u64) & 0x40u64 == 0x40u64) by (bit_vector);
}

} // verus!

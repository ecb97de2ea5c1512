//! Failures of the control core.

use vstd::prelude::*;

verus! {

/// Every typed failure that the control core reports.
#[derive(Debug, Clone, Copy, PartialEq, Eq, Structural)]
pub enum HypervisorError {
    /// CPU feature identification is unavailable.
    CPUUnsupported,
    /// Firmware locked IA32_FEATURE_CONTROL with VMX outside SMX disabled.
    VMXBIOSLock,
    /// An operation was asked for out of the lifecycle order of the VM.
    InvalidVmState,
    /// VM entry failed with a recorded, known VM-instruction error.
    VmInstructionError,
    /// VM entry failed with a VM-instruction error number that is not defined.
    UnknownVMInstructionError,
    /// VM entry failed before any VM-instruction error could be recorded.
    VMFailToLaunch,
    /// The hardware reported an exit reason that is not defined.
    UnknownVMExitReason,
    /// Every hook slot is in use.
    HookCapacityExceeded,
    /// The pool of page tables for split large pages is exhausted.
    PageTablesUnavailable,
    /// The pool of shadow pages is exhausted.
    ShadowPagesUnavailable,
    /// The address lies outside the identity-mapped guest physical range.
    AddressNotMapped,
    /// The address does not have the alignment that the structure needs.
    UnalignedAddress,
    /// The detour would not fit inside the shadow page.
    InlineHookFailed,
    /// Page-level hooks are not implemented.
    PageHookUnimplemented,
}

} // verus!

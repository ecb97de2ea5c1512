//! Decisions of the per-core boot path.
//!
//! Register capture returns twice at the same place: once before the core is
//! virtualized, and once more as the guest resumes there after the first VM
//! entry, with RAX of the snapshot, the marker, set. The branch depends on
//! the marker alone.

use vstd::prelude::*;

use crate::registers::GuestRegisters;

verus! {

/// RAX of the snapshot, as the guest finds it when it resumes at the capture point.
pub const VIRTUALIZED_MARKER: u64 = 1;

/// What a core does after its registers were captured.
#[derive(Debug, Clone, Copy, PartialEq, Eq, Structural)]
pub enum BootAction {
    /// Set up and enter the VM with the snapshot.
    Virtualize,
    /// This is the guest resuming at the capture point: nothing is left to do.
    AlreadyVirtualized,
}

/// Which processors the hypervisor is started on.
#[derive(Debug, Clone, Copy, PartialEq, Eq, Structural)]
pub enum ProcessorPlan {
    /// Only the processor that runs the boot code.
    CurrentProcessor,
    /// Every enabled application processor, one at a time.
    ApplicationProcessors,
}

/// Decides the boot path of a core from `is_virtualized`, the marker that
/// register capture returned, and sets the marker in the snapshot so that
/// the guest takes the other branch when it resumes there.
pub fn start_hypervisor(guest_registers: &mut GuestRegisters, is_virtualized: bool) -> (r: BootAction)
    ensures
        *final(guest_registers) == (GuestRegisters { rax: VIRTUALIZED_MARKER, ..*old(guest_registers) }),
        r == if is_virtualized {
            BootAction::AlreadyVirtualized
        } else {
            BootAction::Virtualize
        },
{
    guest_registers.rax = VIRTUALIZED_MARKER;
    if is_virtualized {
        BootAction::AlreadyVirtualized
    } else {
        BootAction::Virtualize
    }
}

/// Decides where the hypervisor is started from the number of enabled
/// processors: the current one where it is alone, the application
/// processors otherwise.
pub fn processor_plan(enabled_processors: usize) -> (r: ProcessorPlan)
    ensures
        r == if enabled_processors == 1 {
            ProcessorPlan::CurrentProcessor
        } else {
            ProcessorPlan::ApplicationProcessors
        },
{
    if enabled_processors == 1 {
        ProcessorPlan::CurrentProcessor
    } else {
        ProcessorPlan::ApplicationProcessors
    }
}

} // verus!

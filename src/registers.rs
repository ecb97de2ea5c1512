//! The snapshot of guest registers that the VM enters with and refreshes on
//! every exit.

use vstd::prelude::*;

verus! {

/// General-purpose and flag registers of the guest, with the shadowed values
/// of the syscall-entry register.
#[derive(Debug, Clone, Copy, Default, PartialEq, Eq, Structural)]
pub struct GuestRegisters {
    pub rax: u64,
    pub rbx: u64,
    pub rcx: u64,
    pub rdx: u64,
    pub rsi: u64,
    pub rdi: u64,
    pub rbp: u64,
    pub r8: u64,
    pub r9: u64,
    pub r10: u64,
    pub r11: u64,
    pub r12: u64,
    pub r13: u64,
    pub r14: u64,
    pub r15: u64,
    pub rip: u64,
    pub rsp: u64,
    pub rflags: u64,
    /// The syscall entry that the guest first wrote; zero until then.
    pub original_lstar: u64,
    /// The syscall entry that stands in hardware in place of the original.
    pub hook_lstar: u64,
}

impl GuestRegisters {
    /// Every register zero.
    pub open spec fn zero_spec() -> GuestRegisters {
        GuestRegisters {
            rax: 0,
            rbx: 0,
            rcx: 0,
            rdx: 0,
            rsi: 0,
            rdi: 0,
            rbp: 0,
            r8: 0,
            r9: 0,
            r10: 0,
            r11: 0,
            r12: 0,
            r13: 0,
            r14: 0,
            r15: 0,
            rip: 0,
            rsp: 0,
            rflags: 0,
            original_lstar: 0,
            hook_lstar: 0,
        }
    }

    /// Every register zero.
    pub fn zero() -> (r: GuestRegisters)
        ensures
            r == GuestRegisters::zero_spec(),
    {
        GuestRegisters {
            rax: 0,
            rbx: 0,
            rcx: 0,
            rdx: 0,
            rsi: 0,
            rdi: 0,
            rbp: 0,
            r8: 0,
            r9: 0,
            r10: 0,
            r11: 0,
            r12: 0,
            r13: 0,
            r14: 0,
            r15: 0,
            rip: 0,
            rsp: 0,
            rflags: 0,
            original_lstar: 0,
            hook_lstar: 0,
        }
    }
}

} // verus!

//! Decoding of the numbers that the hardware reports after a VM entry: basic
//! exit reasons and VM-instruction error numbers.

use vstd::prelude::*;

verus! {

/// Basic exit reasons, bits 15:0 of the exit-reason field.
#[derive(Debug, Clone, Copy, PartialEq, Eq, Structural)]
pub enum VmxBasicExitReason {
    ExceptionOrNmi,
    ExternalInterrupt,
    TripleFault,
    InitSignal,
    StartupIpi,
    IoSystemManagementInterrupt,
    OtherSmi,
    InterruptWindow,
    NmiWindow,
    TaskSwitch,
    Cpuid,
    Getsec,
    Hlt,
    Invd,
    Invlpg,
    Rdpmc,
    Rdtsc,
    Rsm,
    Vmcall,
    Vmclear,
    Vmlaunch,
    Vmptrld,
    Vmptrst,
    Vmread,
    Vmresume,
    Vmwrite,
    Vmxoff,
    Vmxon,
    ControlRegisterAccesses,
    MovDr,
    IoInstruction,
    Rdmsr,
    Wrmsr,
    VmEntryFailureInvalidGuestState,
    VmEntryFailureMsrLoading,
    Mwait,
    MonitorTrapFlag,
    Monitor,
    Pause,
    VmEntryFailureMachineCheckEvent,
    TprBelowThreshold,
    ApicAccess,
    VirtualizedEoi,
    AccessToGdtrOrIdtr,
    AccessToLdtrOrTr,
    EptViolation,
    EptMisconfiguration,
    Invept,
    Rdtscp,
    VmxPreemptionTimerExpired,
    Invvpid,
    WbinvdOrWbnoinvd,
    Xsetbv,
    ApicWrite,
    Rdrand,
    Invpcid,
    Vmfunc,
    Encls,
    Rdseed,
    PageModificationLogFull,
    Xsaves,
    Xrstors,
    Pconfig,
    SppRelatedEvent,
    Umwait,
    Tpause,
    Loadiwkey,
}

/// The number that the hardware reports for each exit reason.
pub open spec fn exit_reason_code(r: VmxBasicExitReason) -> u32 {
    match r {
        VmxBasicExitReason::ExceptionOrNmi => 0,
        VmxBasicExitReason::ExternalInterrupt => 1,
        VmxBasicExitReason::TripleFault => 2,
        VmxBasicExitReason::InitSignal => 3,
        VmxBasicExitReason::StartupIpi => 4,
        VmxBasicExitReason::IoSystemManagementInterrupt => 5,
        VmxBasicExitReason::OtherSmi => 6,
        VmxBasicExitReason::InterruptWindow => 7,
        VmxBasicExitReason::NmiWindow => 8,
        VmxBasicExitReason::TaskSwitch => 9,
        VmxBasicExitReason::Cpuid => 10,
        VmxBasicExitReason::Getsec => 11,
        VmxBasicExitReason::Hlt => 12,
        VmxBasicExitReason::Invd => 13,
        VmxBasicExitReason::Invlpg => 14,
        VmxBasicExitReason::Rdpmc => 15,
        VmxBasicExitReason::Rdtsc => 16,
        VmxBasicExitReason::Rsm => 17,
        VmxBasicExitReason::Vmcall => 18,
        VmxBasicExitReason::Vmclear => 19,
        VmxBasicExitReason::Vmlaunch => 20,
        VmxBasicExitReason::Vmptrld => 21,
        VmxBasicExitReason::Vmptrst => 22,
        VmxBasicExitReason::Vmread => 23,
        VmxBasicExitReason::Vmresume => 24,
        VmxBasicExitReason::Vmwrite => 25,
        VmxBasicExitReason::Vmxoff => 26,
        VmxBasicExitReason::Vmxon => 27,
        VmxBasicExitReason::ControlRegisterAccesses => 28,
        VmxBasicExitReason::MovDr => 29,
        VmxBasicExitReason::IoInstruction => 30,
        VmxBasicExitReason::Rdmsr => 31,
        VmxBasicExitReason::Wrmsr => 32,
        VmxBasicExitReason::VmEntryFailureInvalidGuestState => 33,
        VmxBasicExitReason::VmEntryFailureMsrLoading => 34,
        VmxBasicExitReason::Mwait => 36,
        VmxBasicExitReason::MonitorTrapFlag => 37,
        VmxBasicExitReason::Monitor => 39,
        VmxBasicExitReason::Pause => 40,
        VmxBasicExitReason::VmEntryFailureMachineCheckEvent => 41,
        VmxBasicExitReason::TprBelowThreshold => 43,
        VmxBasicExitReason::ApicAccess => 44,
        VmxBasicExitReason::VirtualizedEoi => 45,
        VmxBasicExitReason::AccessToGdtrOrIdtr => 46,
        VmxBasicExitReason::AccessToLdtrOrTr => 47,
        VmxBasicExitReason::EptViolation => 48,
        VmxBasicExitReason::EptMisconfiguration => 49,
        VmxBasicExitReason::Invept => 50,
        VmxBasicExitReason::Rdtscp => 51,
        VmxBasicExitReason::VmxPreemptionTimerExpired => 52,
        VmxBasicExitReason::Invvpid => 53,
        VmxBasicExitReason::WbinvdOrWbnoinvd => 54,
        VmxBasicExitReason::Xsetbv => 55,
        VmxBasicExitReason::ApicWrite => 56,
        VmxBasicExitReason::Rdrand => 57,
        VmxBasicExitReason::Invpcid => 58,
        VmxBasicExitReason::Vmfunc => 59,
        VmxBasicExitReason::Encls => 60,
        VmxBasicExitReason::Rdseed => 61,
        VmxBasicExitReason::PageModificationLogFull => 62,
        VmxBasicExitReason::Xsaves => 63,
        VmxBasicExitReason::Xrstors => 64,
        VmxBasicExitReason::Pconfig => 65,
        VmxBasicExitReason::SppRelatedEvent => 66,
        VmxBasicExitReason::Umwait => 67,
        VmxBasicExitReason::Tpause => 68,
        VmxBasicExitReason::Loadiwkey => 69,
    }
}

/// Whether `code` is the number of a defined basic exit reason.
pub open spec fn is_defined_exit_reason(code: u32) -> bool {
    code <= 69 && code != 35 && code != 38 && code != 42
}

impl VmxBasicExitReason {
    /// The exit reason with number `code`, if one is defined.
    pub fn from_u32(code: u32) -> (r: Option<VmxBasicExitReason>)
        ensures
            r is Some <==> is_defined_exit_reason(code),
            r matches Some(e) ==> exit_reason_code(e) == code,
    {
        match code {
            0 => Some(VmxBasicExitReason::ExceptionOrNmi),
            1 => Some(VmxBasicExitReason::ExternalInterrupt),
            2 => Some(VmxBasicExitReason::TripleFault),
            3 => Some(VmxBasicExitReason::InitSignal),
            4 => Some(VmxBasicExitReason::StartupIpi),
            5 => Some(VmxBasicExitReason::IoSystemManagementInterrupt),
            6 => Some(VmxBasicExitReason::OtherSmi),
            7 => Some(VmxBasicExitReason::InterruptWindow),
            8 => Some(VmxBasicExitReason::NmiWindow),
            9 => Some(VmxBasicExitReason::TaskSwitch),
            10 => Some(VmxBasicExitReason::Cpuid),
            11 => Some(VmxBasicExitReason::Getsec),
            12 => Some(VmxBasicExitReason::Hlt),
            13 => Some(VmxBasicExitReason::Invd),
            14 => Some(VmxBasicExitReason::Invlpg),
            15 => Some(VmxBasicExitReason::Rdpmc),
            16 => Some(VmxBasicExitReason::Rdtsc),
            17 => Some(VmxBasicExitReason::Rsm),
            18 => Some(VmxBasicExitReason::Vmcall),
            19 => Some(VmxBasicExitReason::Vmclear),
            20 => Some(VmxBasicExitReason::Vmlaunch),
            21 => Some(VmxBasicExitReason::Vmptrld),
            22 => Some(VmxBasicExitReason::Vmptrst),
            23 => Some(VmxBasicExitReason::Vmread),
            24 => Some(VmxBasicExitReason::Vmresume),
            25 => Some(VmxBasicExitReason::Vmwrite),
            26 => Some(VmxBasicExitReason::Vmxoff),
            27 => Some(VmxBasicExitReason::Vmxon),
            28 => Some(VmxBasicExitReason::ControlRegisterAccesses),
            29 => Some(VmxBasicExitReason::MovDr),
            30 => Some(VmxBasicExitReason::IoInstruction),
            31 => Some(VmxBasicExitReason::Rdmsr),
            32 => Some(VmxBasicExitReason::Wrmsr),
            33 => Some(VmxBasicExitReason::VmEntryFailureInvalidGuestState),
            34 => Some(VmxBasicExitReason::VmEntryFailureMsrLoading),
            36 => Some(VmxBasicExitReason::Mwait),
            37 => Some(VmxBasicExitReason::MonitorTrapFlag),
            39 => Some(VmxBasicExitReason::Monitor),
            40 => Some(VmxBasicExitReason::Pause),
            41 => Some(VmxBasicExitReason::VmEntryFailureMachineCheckEvent),
            43 => Some(VmxBasicExitReason::TprBelowThreshold),
            44 => Some(VmxBasicExitReason::ApicAccess),
            45 => Some(VmxBasicExitReason::VirtualizedEoi),
            46 => Some(VmxBasicExitReason::AccessToGdtrOrIdtr),
            47 => Some(VmxBasicExitReason::AccessToLdtrOrTr),
            48 => Some(VmxBasicExitReason::EptViolation),
            49 => Some(VmxBasicExitReason::EptMisconfiguration),
            50 => Some(VmxBasicExitReason::Invept),
            51 => Some(VmxBasicExitReason::Rdtscp),
            52 => Some(VmxBasicExitReason::VmxPreemptionTimerExpired),
            53 => Some(VmxBasicExitReason::Invvpid),
            54 => Some(VmxBasicExitReason::WbinvdOrWbnoinvd),
            55 => Some(VmxBasicExitReason::Xsetbv),
            56 => Some(VmxBasicExitReason::ApicWrite),
            57 => Some(VmxBasicExitReason::Rdrand),
            58 => Some(VmxBasicExitReason::Invpcid),
            59 => Some(VmxBasicExitReason::Vmfunc),
            60 => Some(VmxBasicExitReason::Encls),
            61 => Some(VmxBasicExitReason::Rdseed),
            62 => Some(VmxBasicExitReason::PageModificationLogFull),
            63 => Some(VmxBasicExitReason::Xsaves),
            64 => Some(VmxBasicExitReason::Xrstors),
            65 => Some(VmxBasicExitReason::Pconfig),
            66 => Some(VmxBasicExitReason::SppRelatedEvent),
            67 => Some(VmxBasicExitReason::Umwait),
            68 => Some(VmxBasicExitReason::Tpause),
            69 => Some(VmxBasicExitReason::Loadiwkey),
            _ => None,
        }
    }
}

/// Whether `code` is a defined VM-instruction error number.
pub open spec fn is_defined_instruction_error(code: u32) -> bool {
    (1 <= code <= 13) || (15 <= code <= 20) || (22 <= code <= 26) || code == 28
}

/// Whether `code` is a defined VM-instruction error number.
pub fn is_known_instruction_error(code: u32) -> (r: bool)
    ensures
        r == is_defined_instruction_error(code),
{
    (1 <= code && code <= 13) || (15 <= code && code <= 20) || (22 <= code && code <= 26) || code == 28
}

} // verus!

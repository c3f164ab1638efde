//! The fixed enumerations the VMX architecture defines for diagnosing an
//! entry/exit cycle: the basic VM-exit reasons and the VM-instruction error
//! numbers, each a total classification of a 32-bit code.

use vstd::prelude::*;

verus! {

/// The basic VM-exit reasons, one per code the VMX architecture assigns in
/// the 32-bit basic exit-reason field of the VMCS read-only data area.
#[derive(Clone, Copy, Debug, PartialEq, Eq, Structural)]
pub enum VmxBasicExitReason {
    ExceptionOrNmi,
    ExternalInterrupt,
    TripleFault,
    InitSignal,
    StartupIpi,
    IoSystemManagementInterrupt,
    OtherSmiExit,
    InterruptWindow,
    NmiWindow,
    TaskSwitch,
    Cpuid,
    Getsec,
    Hlt,
    Invd,
    Invlpg,
    Rdpmc,
    Rdtsc,
    Rsm,
    Vmcall,
    Vmclear,
    Vmlaunch,
    Vmptrld,
    Vmptrst,
    Vmread,
    Vmresume,
    Vmwrite,
    Vmxoff,
    Vmxon,
    ControlRegisterAccesses,
    MovDr,
    IoInstruction,
    Rdmsr,
    Wrmsr,
    VmEntryFailureInvalidGuestState,
    VmEntryFailureMsrLoading,
    Mwait,
    MonitorTrapFlag,
    Monitor,
    Pause,
    VmEntryFailureMachineCheckEvent,
    TprBelowThreshold,
    ApicAccess,
    VirtualizedEoi,
    AccessToGdtrOrIdtr,
    AccessToLdtrOrTr,
    EptViolation,
    EptMisconfiguration,
    Invept,
    Rdtscp,
    VmxPreemptionTimerExpired,
    Invvpid,
    WbinvdOrWbnoinvd,
    Xsetbv,
    ApicWrite,
    Rdrand,
    Invpcid,
    Vmfunc,
    Encls,
    Rdseed,
    PageModificationLogFull,
    Xsaves,
    Xrstors,
}

/// The total mapping from a raw 32-bit basic exit-reason code to the named
/// reason, `None` for every code outside the known enumeration.
pub open spec fn exit_reason_of(code: u32) -> Option<VmxBasicExitReason> {
    if code == 0 { Some(VmxBasicExitReason::ExceptionOrNmi) }
    else if code == 1 { Some(VmxBasicExitReason::ExternalInterrupt) }
    else if code == 2 { Some(VmxBasicExitReason::TripleFault) }
    else if code == 3 { Some(VmxBasicExitReason::InitSignal) }
    else if code == 4 { Some(VmxBasicExitReason::StartupIpi) }
    else if code == 5 { Some(VmxBasicExitReason::IoSystemManagementInterrupt) }
    else if code == 6 { Some(VmxBasicExitReason::OtherSmiExit) }
    else if code == 7 { Some(VmxBasicExitReason::InterruptWindow) }
    else if code == 8 { Some(VmxBasicExitReason::NmiWindow) }
    else if code == 9 { Some(VmxBasicExitReason::TaskSwitch) }
    else if code == 10 { Some(VmxBasicExitReason::Cpuid) }
    else if code == 11 { Some(VmxBasicExitReason::Getsec) }
    else if code == 12 { Some(VmxBasicExitReason::Hlt) }
    else if code == 13 { Some(VmxBasicExitReason::Invd) }
    else if code == 14 { Some(VmxBasicExitReason::Invlpg) }
    else if code == 15 { Some(VmxBasicExitReason::Rdpmc) }
    else if code == 16 { Some(VmxBasicExitReason::Rdtsc) }
    else if code == 17 { Some(VmxBasicExitReason::Rsm) }
    else if code == 18 { Some(VmxBasicExitReason::Vmcall) }
    else if code == 19 { Some(VmxBasicExitReason::Vmclear) }
    else if code == 20 { Some(VmxBasicExitReason::Vmlaunch) }
    else if code == 21 { Some(VmxBasicExitReason::Vmptrld) }
    else if code == 22 { Some(VmxBasicExitReason::Vmptrst) }
    else if code == 23 { Some(VmxBasicExitReason::Vmread) }
    else if code == 24 { Some(VmxBasicExitReason::Vmresume) }
    else if code == 25 { Some(VmxBasicExitReason::Vmwrite) }
    else if code == 26 { Some(VmxBasicExitReason::Vmxoff) }
    else if code == 27 { Some(VmxBasicExitReason::Vmxon) }
    else if code == 28 { Some(VmxBasicExitReason::ControlRegisterAccesses) }
    else if code == 29 { Some(VmxBasicExitReason::MovDr) }
    else if code == 30 { Some(VmxBasicExitReason::IoInstruction) }
    else if code == 31 { Some(VmxBasicExitReason::Rdmsr) }
    else if code == 32 { Some(VmxBasicExitReason::Wrmsr) }
    else if code == 33 { Some(VmxBasicExitReason::VmEntryFailureInvalidGuestState) }
    else if code == 34 { Some(VmxBasicExitReason::VmEntryFailureMsrLoading) }
    else if code == 36 { Some(VmxBasicExitReason::Mwait) }
    else if code == 37 { Some(VmxBasicExitReason::MonitorTrapFlag) }
    else if code == 39 { Some(VmxBasicExitReason::Monitor) }
    else if code == 40 { Some(VmxBasicExitReason::Pause) }
    else if code == 41 { Some(VmxBasicExitReason::VmEntryFailureMachineCheckEvent) }
    else if code == 43 { Some(VmxBasicExitReason::TprBelowThreshold) }
    else if code == 44 { Some(VmxBasicExitReason::ApicAccess) }
    else if code == 45 { Some(VmxBasicExitReason::VirtualizedEoi) }
    else if code == 46 { Some(VmxBasicExitReason::AccessToGdtrOrIdtr) }
    else if code == 47 { Some(VmxBasicExitReason::AccessToLdtrOrTr) }
    else if code == 48 { Some(VmxBasicExitReason::EptViolation) }
    else if code == 49 { Some(VmxBasicExitReason::EptMisconfiguration) }
    else if code == 50 { Some(VmxBasicExitReason::Invept) }
    else if code == 51 { Some(VmxBasicExitReason::Rdtscp) }
    else if code == 52 { Some(VmxBasicExitReason::VmxPreemptionTimerExpired) }
    else if code == 53 { Some(VmxBasicExitReason::Invvpid) }
    else if code == 54 { Some(VmxBasicExitReason::WbinvdOrWbnoinvd) }
    else if code == 55 { Some(VmxBasicExitReason::Xsetbv) }
    else if code == 56 { Some(VmxBasicExitReason::ApicWrite) }
    else if code == 57 { Some(VmxBasicExitReason::Rdrand) }
    else if code == 58 { Some(VmxBasicExitReason::Invpcid) }
    else if code == 59 { Some(VmxBasicExitReason::Vmfunc) }
    else if code == 60 { Some(VmxBasicExitReason::Encls) }
    else if code == 61 { Some(VmxBasicExitReason::Rdseed) }
    else if code == 62 { Some(VmxBasicExitReason::PageModificationLogFull) }
    else if code == 63 { Some(VmxBasicExitReason::Xsaves) }
    else if code == 64 { Some(VmxBasicExitReason::Xrstors) }
    else { None }
}

impl VmxBasicExitReason {
    /// Classifies a raw basic exit-reason code. Total: every known code yields
    /// exactly its named reason, every other code yields `None` — never a
    /// default.
    pub fn from_u32(code: u32) -> (r: Option<VmxBasicExitReason>)
        ensures
            r == exit_reason_of(code),
    {
        match code {
            0 => Some(VmxBasicExitReason::ExceptionOrNmi),
            1 => Some(VmxBasicExitReason::ExternalInterrupt),
            2 => Some(VmxBasicExitReason::TripleFault),
            3 => Some(VmxBasicExitReason::InitSignal),
            4 => Some(VmxBasicExitReason::StartupIpi),
            5 => Some(VmxBasicExitReason::IoSystemManagementInterrupt),
            6 => Some(VmxBasicExitReason::OtherSmiExit),
            7 => Some(VmxBasicExitReason::InterruptWindow),
            8 => Some(VmxBasicExitReason::NmiWindow),
            9 => Some(VmxBasicExitReason::TaskSwitch),
            10 => Some(VmxBasicExitReason::Cpuid),
            11 => Some(VmxBasicExitReason::Getsec),
            12 => Some(VmxBasicExitReason::Hlt),
            13 => Some(VmxBasicExitReason::Invd),
            14 => Some(VmxBasicExitReason::Invlpg),
            15 => Some(VmxBasicExitReason::Rdpmc),
            16 => Some(VmxBasicExitReason::Rdtsc),
            17 => Some(VmxBasicExitReason::Rsm),
            18 => Some(VmxBasicExitReason::Vmcall),
            19 => Some(VmxBasicExitReason::Vmclear),
            20 => Some(VmxBasicExitReason::Vmlaunch),
            21 => Some(VmxBasicExitReason::Vmptrld),
            22 => Some(VmxBasicExitReason::Vmptrst),
            23 => Some(VmxBasicExitReason::Vmread),
            24 => Some(VmxBasicExitReason::Vmresume),
            25 => Some(VmxBasicExitReason::Vmwrite),
            26 => Some(VmxBasicExitReason::Vmxoff),
            27 => Some(VmxBasicExitReason::Vmxon),
            28 => Some(VmxBasicExitReason::ControlRegisterAccesses),
            29 => Some(VmxBasicExitReason::MovDr),
            30 => Some(VmxBasicExitReason::IoInstruction),
            31 => Some(VmxBasicExitReason::Rdmsr),
            32 => Some(VmxBasicExitReason::Wrmsr),
            33 => Some(VmxBasicExitReason::VmEntryFailureInvalidGuestState),
            34 => Some(VmxBasicExitReason::VmEntryFailureMsrLoading),
            36 => Some(VmxBasicExitReason::Mwait),
            37 => Some(VmxBasicExitReason::MonitorTrapFlag),
            39 => Some(VmxBasicExitReason::Monitor),
            40 => Some(VmxBasicExitReason::Pause),
            41 => Some(VmxBasicExitReason::VmEntryFailureMachineCheckEvent),
            43 => Some(VmxBasicExitReason::TprBelowThreshold),
            44 => Some(VmxBasicExitReason::ApicAccess),
            45 => Some(VmxBasicExitReason::VirtualizedEoi),
            46 => Some(VmxBasicExitReason::AccessToGdtrOrIdtr),
            47 => Some(VmxBasicExitReason::AccessToLdtrOrTr),
            48 => Some(VmxBasicExitReason::EptViolation),
            49 => Some(VmxBasicExitReason::EptMisconfiguration),
            50 => Some(VmxBasicExitReason::Invept),
            51 => Some(VmxBasicExitReason::Rdtscp),
            52 => Some(VmxBasicExitReason::VmxPreemptionTimerExpired),
            53 => Some(VmxBasicExitReason::Invvpid),
            54 => Some(VmxBasicExitReason::WbinvdOrWbnoinvd),
            55 => Some(VmxBasicExitReason::Xsetbv),
            56 => Some(VmxBasicExitReason::ApicWrite),
            57 => Some(VmxBasicExitReason::Rdrand),
            58 => Some(VmxBasicExitReason::Invpcid),
            59 => Some(VmxBasicExitReason::Vmfunc),
            60 => Some(VmxBasicExitReason::Encls),
            61 => Some(VmxBasicExitReason::Rdseed),
            62 => Some(VmxBasicExitReason::PageModificationLogFull),
            63 => Some(VmxBasicExitReason::Xsaves),
            64 => Some(VmxBasicExitReason::Xrstors),
            _ => None,
        }
    }
}

/// The VM-instruction error numbers the VMX architecture records in the
/// VM-instruction-error field when a VMX instruction fails with its zero
/// flag set.
#[derive(Clone, Copy, Debug, PartialEq, Eq, Structural)]
pub enum VmInstructionError {
    VmcallInVmxRootOperation,
    VmclearWithInvalidPhysicalAddress,
    VmclearWithVmxonPointer,
    VmlaunchWithNonClearVmcs,
    VmresumeWithNonLaunchedVmcs,
    VmresumeAfterVmxoff,
    VmentryWithInvalidControlFields,
    VmentryWithInvalidHostStateFields,
    VmptrldWithInvalidPhysicalAddress,
    VmptrldWithVmxonPointer,
    VmptrldWithIncorrectVmcsRevisionIdentifier,
    VmreadVmwriteFromToUnsupportedVmcsComponent,
    VmwriteToReadOnlyVmcsComponent,
    VmxonExecutedInVmxRootOperation,
    VmentryWithInvalidExecutiveVmcsPointer,
    VmentryWithNonLaunchedExecutiveVmcs,
    VmentryWithExecutiveVmcsPointerNotVmxonPointer,
    VmcallWithNonClearVmcs,
    VmcallWithInvalidVmExitControlFields,
    VmcallWithIncorrectMsegRevisionIdentifier,
    VmxoffUnderDualMonitorTreatmentOfSmisAndSmm,
    VmcallWithInvalidSmmMonitorFeatures,
    VmentryWithInvalidVmExecutionControlFieldsInExecutiveVmcs,
    VmentryWithEventsBlockedByMovSs,
    InvalidOperandToInveptInvvpid,
}

/// The total mapping from a raw 32-bit VM-instruction-error code to the named
/// error, `None` for every code the architecture does not assign.
pub open spec fn instruction_error_of(code: u32) -> Option<VmInstructionError> {
    if code == 1 { Some(VmInstructionError::VmcallInVmxRootOperation) }
    else if code == 2 { Some(VmInstructionError::VmclearWithInvalidPhysicalAddress) }
    else if code == 3 { Some(VmInstructionError::VmclearWithVmxonPointer) }
    else if code == 4 { Some(VmInstructionError::VmlaunchWithNonClearVmcs) }
    else if code == 5 { Some(VmInstructionError::VmresumeWithNonLaunchedVmcs) }
    else if code == 6 { Some(VmInstructionError::VmresumeAfterVmxoff) }
    else if code == 7 { Some(VmInstructionError::VmentryWithInvalidControlFields) }
    else if code == 8 { Some(VmInstructionError::VmentryWithInvalidHostStateFields) }
    else if code == 9 { Some(VmInstructionError::VmptrldWithInvalidPhysicalAddress) }
    else if code == 10 { Some(VmInstructionError::VmptrldWithVmxonPointer) }
    else if code == 11 { Some(VmInstructionError::VmptrldWithIncorrectVmcsRevisionIdentifier) }
    else if code == 12 { Some(VmInstructionError::VmreadVmwriteFromToUnsupportedVmcsComponent) }
    else if code == 13 { Some(VmInstructionError::VmwriteToReadOnlyVmcsComponent) }
    else if code == 15 { Some(VmInstructionError::VmxonExecutedInVmxRootOperation) }
    else if code == 16 { Some(VmInstructionError::VmentryWithInvalidExecutiveVmcsPointer) }
    else if code == 17 { Some(VmInstructionError::VmentryWithNonLaunchedExecutiveVmcs) }
    else if code == 18 { Some(VmInstructionError::VmentryWithExecutiveVmcsPointerNotVmxonPointer) }
    else if code == 19 { Some(VmInstructionError::VmcallWithNonClearVmcs) }
    else if code == 20 { Some(VmInstructionError::VmcallWithInvalidVmExitControlFields) }
    else if code == 22 { Some(VmInstructionError::VmcallWithIncorrectMsegRevisionIdentifier) }
    else if code == 23 { Some(VmInstructionError::VmxoffUnderDualMonitorTreatmentOfSmisAndSmm) }
    else if code == 24 { Some(VmInstructionError::VmcallWithInvalidSmmMonitorFeatures) }
    else if code == 25 { Some(VmInstructionError::VmentryWithInvalidVmExecutionControlFieldsInExecutiveVmcs) }
    else if code == 26 { Some(VmInstructionError::VmentryWithEventsBlockedByMovSs) }
    else if code == 28 { Some(VmInstructionError::InvalidOperandToInveptInvvpid) }
    else { None }
}

impl VmInstructionError {
    /// Classifies a raw VM-instruction-error code. Total: every assigned code
    /// yields exactly its named error, every other code yields `None`.
    pub fn from_u32(code: u32) -> (r: Option<VmInstructionError>)
        ensures
            r == instruction_error_of(code),
    {
        match code {
            1 => Some(VmInstructionError::VmcallInVmxRootOperation),
            2 => Some(VmInstructionError::VmclearWithInvalidPhysicalAddress),
            3 => Some(VmInstructionError::VmclearWithVmxonPointer),
            4 => Some(VmInstructionError::VmlaunchWithNonClearVmcs),
            5 => Some(VmInstructionError::VmresumeWithNonLaunchedVmcs),
            6 => Some(VmInstructionError::VmresumeAfterVmxoff),
            7 => Some(VmInstructionError::VmentryWithInvalidControlFields),
            8 => Some(VmInstructionError::VmentryWithInvalidHostStateFields),
            9 => Some(VmInstructionError::VmptrldWithInvalidPhysicalAddress),
            10 => Some(VmInstructionError::VmptrldWithVmxonPointer),
            11 => Some(VmInstructionError::VmptrldWithIncorrectVmcsRevisionIdentifier),
            12 => Some(VmInstructionError::VmreadVmwriteFromToUnsupportedVmcsComponent),
            13 => Some(VmInstructionError::VmwriteToReadOnlyVmcsComponent),
            15 => Some(VmInstructionError::VmxonExecutedInVmxRootOperation),
            16 => Some(VmInstructionError::VmentryWithInvalidExecutiveVmcsPointer),
            17 => Some(VmInstructionError::VmentryWithNonLaunchedExecutiveVmcs),
            18 => Some(VmInstructionError::VmentryWithExecutiveVmcsPointerNotVmxonPointer),
            19 => Some(VmInstructionError::VmcallWithNonClearVmcs),
            20 => Some(VmInstructionError::VmcallWithInvalidVmExitControlFields),
            22 => Some(VmInstructionError::VmcallWithIncorrectMsegRevisionIdentifier),
            23 => Some(VmInstructionError::VmxoffUnderDualMonitorTreatmentOfSmisAndSmm),
            24 => Some(VmInstructionError::VmcallWithInvalidSmmMonitorFeatures),
            25 => Some(VmInstructionError::VmentryWithInvalidVmExecutionControlFieldsInExecutiveVmcs),
            26 => Some(VmInstructionError::VmentryWithEventsBlockedByMovSs),
            28 => Some(VmInstructionError::InvalidOperandToInveptInvvpid),
            _ => None,
        }
    }
}

} // verus!

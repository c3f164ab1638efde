//! The VM control object: per-logical-processor virtualization state, the
//! VMCS activation sequence, and the VM-entry/VM-exit run loop.
//!
//! The privileged VMX instructions (VMCLEAR, VMPTRLD, VMREAD, the
//! VMLAUNCH/VMRESUME trampoline) are issued by the hardware port that drives
//! this object; they are assumed to succeed where the architecture gives no
//! value back, and where they do give one back (the flags register after the
//! entry instruction, the fields read out of the VMCS) the port hands the
//! observed values in, and every decision on them is made — and verified —
//! here.

use vstd::prelude::*;
use crate::descriptor::Descriptors;
use crate::error::HypervisorError;
use crate::page::Page;
use crate::page::page_zeroed;
use crate::paging::PageTables;
use crate::registers::GuestRegisters;
use crate::vmcs::Vmcs;
use crate::vmerror::{VmInstructionError, VmxBasicExitReason, exit_reason_of, instruction_error_of};

verus! {

/// Carry-flag bit of the RFLAGS register.
pub const RFLAGS_CF: u64 = 0x1;

/// Zero-flag bit of the RFLAGS register.
pub const RFLAGS_ZF: u64 = 0x40;

/// The zero flag of a raw RFLAGS value. A VMX instruction sets it to signal
/// failure with an error code recorded in the VM-instruction-error field.
pub open spec fn zero_flag_set(flags: u64) -> bool {
    flags & RFLAGS_ZF != 0
}

/// The carry flag of a raw RFLAGS value. A VMX instruction sets it to signal
/// failure with no recorded error code (for instance, no current VMCS).
pub open spec fn carry_flag_set(flags: u64) -> bool {
    flags & RFLAGS_CF != 0
}

/// The VMX success convention: an entry/exit instruction succeeded exactly
/// when it left both the zero flag and the carry flag clear.
pub open spec fn entry_succeeded(flags: u64) -> bool {
    !zero_flag_set(flags) && !carry_flag_set(flags)
}

/// The error owed when a VMX instruction failed with its zero flag set: the
/// named error when the VM-instruction-error field holds a recognized code,
/// the distinct unrecognized kind (carrying the raw code) otherwise.
pub open spec fn instruction_failure(code: u32) -> HypervisorError {
    match instruction_error_of(code) {
        Some(error) => HypervisorError::VmInstructionError(error),
        None => HypervisorError::UnknownVMInstructionError(code),
    }
}

/// What the run loop owes for a raw basic exit-reason code: the named reason
/// when the code is in the known enumeration, otherwise the unknown-exit
/// error carrying the raw code — never a default reason.
pub open spec fn classified_exit(code: u32) -> Result<VmxBasicExitReason, HypervisorError> {
    match exit_reason_of(code) {
        Some(reason) => Ok(reason),
        None => Err(HypervisorError::UnknownVMExitReason(code)),
    }
}

/// Progress of the one-time activation sequence of a VMCS region. Each step
/// is reachable only from the one before it, which is what enforces the
/// architectural order: revision identifier finalized, then VMCLEAR and
/// VMPTRLD, then field programming.
#[derive(Clone, Copy, Debug, PartialEq, Eq, Structural)]
pub enum ActivationState {
    /// Constructed; no VMX instruction has targeted the region yet.
    Created,
    /// Bit 31 of the revision identifier has been cleared, marking the
    /// region an ordinary (non-shadow) VMCS; it may now be loaded.
    NonShadowMarked,
    /// VMCLEAR and then VMPTRLD have been issued on the region: it is the
    /// processor's currently loaded VMCS, still unprogrammed.
    RegionLoaded,
    /// The configurator has programmed the guest-state, host-state and
    /// control fields.
    Configured,
}

/// What the VMCS configurator reported for the two fallible programming
/// steps of the setup sequence. Guest-state programming cannot fail and so
/// reports nothing.
#[derive(Clone, Copy, Debug)]
pub struct SetupReport {
    /// Outcome of programming the host-state fields from the host descriptor
    /// tables and host page tables.
    pub host_state: Result<(), HypervisorError>,
    /// Outcome of programming the control fields (pin-based, processor-based,
    /// exit and entry controls, exception bitmap, MSR-bitmap address) from
    /// the shared data and the MSR bitmap page.
    pub control_fields: Result<(), HypervisorError>,
}

/// The outcome the fixed-order setup sequence owes for a given configurator
/// report: the host-state error if host-state programming failed — control
/// fields are then never attempted — else the control-field error if that
/// step failed, else success.
pub open spec fn setup_outcome(report: SetupReport) -> Result<(), HypervisorError> {
    match report.host_state {
        Err(e) => Err(e),
        Ok(_) => match report.control_fields {
            Err(e) => Err(e),
            Ok(_) => Ok(()),
        },
    }
}

/// What the hardware port observed over one entry/exit cycle: the flags
/// register right after the entry instruction, the VM-instruction-error
/// field, the register file as the entry trampoline wrote it back, and the
/// guest-state and exit-reason fields read out of the VMCS.
#[derive(Clone, Copy, Debug)]
pub struct VmExitSnapshot {
    /// RFLAGS immediately after the VMLAUNCH/VMRESUME trampoline returned to
    /// root mode.
    pub flags: u64,
    /// The 32-bit VM-instruction-error field of the VMCS; consulted only
    /// when the zero flag is set.
    pub instruction_error: u32,
    /// The general-purpose register file as the trampoline wrote it into the
    /// snapshot on VM-exit (its RIP/RSP/RFLAGS entries are stale).
    pub registers: GuestRegisters,
    /// Guest RIP read back from the VMCS guest-state area.
    pub rip: u64,
    /// Guest RSP read back from the VMCS guest-state area.
    pub rsp: u64,
    /// Guest RFLAGS read back from the VMCS guest-state area.
    pub rflags: u64,
    /// The raw 32-bit basic exit reason from the VMCS read-only data area.
    pub exit_reason: u32,
}

/// The guest snapshot after resynchronization: the trampoline-written
/// register file with RIP, RSP and RFLAGS replaced by the authoritative
/// values read back from the VMCS guest-state area.
pub open spec fn resynchronized(exit: VmExitSnapshot) -> GuestRegisters {
    GuestRegisters { rip: exit.rip, rsp: exit.rsp, rflags: exit.rflags, ..exit.registers }
}

/// Mathematical view of a control object: each resource as a plain value,
/// together with the activation progress.
pub struct VmView {
    /// The VMCS region header.
    pub vmcs_region: Vmcs,
    /// The captured guest descriptor-table state.
    pub guest_descriptor: Descriptors,
    /// The freshly built host descriptor-table state.
    pub host_descriptor: Descriptors,
    /// Whether the host page tables carry their identity mapping.
    pub host_paging_identity_mapped: bool,
    /// The guest register snapshot.
    pub guest_registers: GuestRegisters,
    /// Index of this processor's shared data in the caller-owned registry.
    pub shared_data: usize,
    /// Contents of the MSR-interception bitmap page.
    pub msr_bitmap: Seq<u8>,
    /// Whether the first successful VM-entry has happened.
    pub has_launched: bool,
    /// Progress of the activation sequence.
    pub activation: ActivationState,
}

/// The parts of a control object that the activation sequence never touches:
/// everything built at construction time, and the launched flag.
pub open spec fn construction_unchanged(pre: VmView, post: VmView) -> bool {
    &&& post.guest_descriptor == pre.guest_descriptor
    &&& post.host_descriptor == pre.host_descriptor
    &&& post.host_paging_identity_mapped == pre.host_paging_identity_mapped
    &&& post.guest_registers == pre.guest_registers
    &&& post.shared_data == pre.shared_data
    &&& post.msr_bitmap == pre.msr_bitmap
    &&& post.has_launched == pre.has_launched
}

/// The parts of a control object that the run loop never touches:
/// everything but the guest snapshot and the launched flag.
pub open spec fn platform_unchanged(pre: VmView, post: VmView) -> bool {
    &&& post.vmcs_region == pre.vmcs_region
    &&& post.guest_descriptor == pre.guest_descriptor
    &&& post.host_descriptor == pre.host_descriptor
    &&& post.host_paging_identity_mapped == pre.host_paging_identity_mapped
    &&& post.shared_data == pre.shared_data
    &&& post.msr_bitmap == pre.msr_bitmap
    &&& post.activation == pre.activation
}

/// The VM control object: everything one logical processor needs to run one
/// guest, and the operations that activate its VMCS and drive the
/// entry/exit cycle. Every resource is exclusively owned (the shared data
/// only by reference, as an index into a registry the caller owns), so two
/// control objects never share a region, a bitmap or page tables.
pub struct Vm {
    vmcs_region: Vmcs,
    guest_descriptor: Descriptors,
    host_descriptor: Descriptors,
    host_paging: PageTables,
    guest_registers: GuestRegisters,
    shared_data: usize,
    msr_bitmap: Page,
    has_launched: bool,
    activation: ActivationState,
}

impl View for Vm {
    type V = VmView;

    closed spec fn view(&self) -> VmView {
        VmView {
            vmcs_region: self.vmcs_region,
            guest_descriptor: self.guest_descriptor,
            host_descriptor: self.host_descriptor,
            host_paging_identity_mapped: self.host_paging.is_identity_mapped(),
            guest_registers: self.guest_registers,
            shared_data: self.shared_data,
            msr_bitmap: self.msr_bitmap.contents(),
            has_launched: self.has_launched,
            activation: self.activation,
        }
    }
}

impl Vm {
    /// VMCLEAR and VMPTRLD have been issued on the region: it is the
    /// processor's currently loaded VMCS.
    pub open spec fn region_loaded(&self) -> bool {
        self@.activation is RegionLoaded || self@.activation is Configured
    }

    /// The configurator has programmed all VMCS fields; the region is ready
    /// for VM-entry.
    pub open spec fn configured(&self) -> bool {
        self@.activation is Configured
    }

    /// Activation order: a configured region is necessarily the loaded one,
    /// and a loaded region necessarily had its revision identifier finalized
    /// first — field programming can never have preceded VMCLEAR/VMPTRLD.
    pub proof fn lemma_activation_order(&self)
        ensures
            self.configured() ==> self.region_loaded(),
            self.region_loaded() ==> !(self@.activation is Created),
    {
    }

    /// Builds the control object for one logical processor. No VMX
    /// instruction is issued during construction.
    ///
    /// The caller captures `guest_registers` and `guest_descriptor` from the
    /// live pre-virtualization CPU state, builds `host_descriptor` fresh for
    /// root mode, and reads `vmcs_revision_id` from the IA32_VMX_BASIC
    /// capability MSR. `shared_data` indexes this processor's entry in the
    /// caller-owned registry of shared data, which must outlive the object.
    pub fn new(
        guest_registers: &GuestRegisters,
        guest_descriptor: Descriptors,
        host_descriptor: Descriptors,
        vmcs_revision_id: u32,
        shared_data: usize,
    ) -> (vm: Vm)
        ensures
            vm@.vmcs_region.revision_id == vmcs_revision_id,
            vm@.vmcs_region.abort_indicator == 0,
            vm@.guest_descriptor == guest_descriptor,
            vm@.host_descriptor == host_descriptor,
            vm@.host_paging_identity_mapped,
            vm@.guest_registers == *guest_registers,
            vm@.shared_data == shared_data,
            page_zeroed(vm@.msr_bitmap),
            !vm@.has_launched,
            vm@.activation is Created,
    {
        let vmcs_region = Vmcs::new(vmcs_revision_id);
        let mut host_paging = PageTables::new_zeroed();
        host_paging.build_identity();
        let msr_bitmap = Page::zeroed();
        Vm {
            vmcs_region,
            guest_descriptor,
            host_descriptor,
            host_paging,
            guest_registers: *guest_registers,
            shared_data,
            msr_bitmap,
            has_launched: false,
            activation: ActivationState::Created,
        }
    }

    /// First activation step: clears bit 31 of the revision identifier,
    /// marking the region an ordinary (non-shadow) VMCS as the architecture
    /// requires before first use. Only after this may the region be loaded.
    pub fn mark_non_shadow(&mut self)
        requires
            old(self)@.activation is Created,
        ensures
            final(self)@.vmcs_region.revision_id == old(self)@.vmcs_region.revision_id
                & 0x7fff_ffff,
            final(self)@.vmcs_region.abort_indicator == old(self)@.vmcs_region.abort_indicator,
            final(self)@.activation is NonShadowMarked,
            construction_unchanged(old(self)@, final(self)@),
    {
        self.vmcs_region.revision_id = self.vmcs_region.revision_id & 0x7fff_ffff;
        self.activation = ActivationState::NonShadowMarked;
    }

    /// Second activation step: records that the hardware port has issued
    /// VMCLEAR and then VMPTRLD on the region's physical address, putting it
    /// in a clean inactive state and making it the processor's currently
    /// loaded VMCS. The two instructions are assumed to succeed — a valid
    /// physical address and already-enabled VMX operation are the caller's
    /// preconditions — and give no value back.
    pub fn note_region_loaded(&mut self)
        requires
            old(self)@.activation is NonShadowMarked,
        ensures
            final(self)@.activation is RegionLoaded,
            final(self)@.vmcs_region == old(self)@.vmcs_region,
            construction_unchanged(old(self)@, final(self)@),
    {
        self.activation = ActivationState::RegionLoaded;
    }

    /// Programs the VMCS through the configurator in the fixed order:
    /// guest-state fields from the guest descriptor tables and register
    /// snapshot (cannot fail), then host-state fields from the host
    /// descriptor tables and page tables, then control fields from the
    /// shared data and the MSR bitmap page. A failing step aborts the
    /// sequence and is propagated; later steps are never attempted. The
    /// region must already be the loaded VMCS: field programming targets the
    /// processor's current VMCS, so running this earlier would program the
    /// wrong region.
    pub fn setup_vmcs(&mut self, report: &SetupReport) -> (r: Result<(), HypervisorError>)
        requires
            old(self).region_loaded(),
        ensures
            r == setup_outcome(*report),
            final(self).configured() <==> r is Ok,
            final(self).region_loaded(),
            final(self)@.vmcs_region == old(self)@.vmcs_region,
            construction_unchanged(old(self)@, final(self)@),
    {
        // Guest-state programming consumes the guest descriptor tables and
        // the register snapshot and reports nothing.
        match report.host_state {
            Err(e) => {
                // Host-state programming failed: the region stays loaded but
                // is not configured, and control fields are never attempted.
                self.activation = ActivationState::RegionLoaded;
                return Err(e);
            },
            Ok(_) => {},
        }
        match report.control_fields {
            Err(e) => {
                self.activation = ActivationState::RegionLoaded;
                return Err(e);
            },
            Ok(_) => {},
        }
        self.activation = ActivationState::Configured;
        Ok(())
    }

    /// One-time activation of the VMCS, the three steps in the order the
    /// architecture demands: `mark_non_shadow`, then `note_region_loaded`
    /// (the port's VMCLEAR and VMPTRLD), then field programming through
    /// `setup_vmcs`. Any configurator failure is surfaced, never silently
    /// ignored; after a failure the region is loaded but not configured, and
    /// no VM-entry can run against it. A driver that must interleave the
    /// port's instructions itself calls the three steps directly.
    pub fn activate_vmcs(&mut self, report: &SetupReport) -> (r: Result<(), HypervisorError>)
        requires
            old(self)@.activation is Created,
        ensures
            r == setup_outcome(*report),
            final(self).configured() <==> r is Ok,
            final(self).region_loaded(),
            final(self)@.vmcs_region.revision_id == old(self)@.vmcs_region.revision_id
                & 0x7fff_ffff,
            final(self)@.vmcs_region.abort_indicator == old(self)@.vmcs_region.abort_indicator,
            construction_unchanged(old(self)@, final(self)@),
    {
        self.mark_non_shadow();
        self.note_region_loaded();
        self.setup_vmcs(report)
    }

    /// The launched-state value handed to the entry trampoline: 0 selects
    /// VMLAUNCH (the very first entry), 1 selects VMRESUME (every later
    /// one).
    pub fn launch_selector(&self) -> (s: u64)
        ensures
            s == if self@.has_launched { 1u64 } else { 0u64 },
    {
        if self.has_launched {
            1
        } else {
            0
        }
    }

    /// Success verification for a VMX entry/exit instruction, per the
    /// architecture's error-reporting convention. `flags` is the raw RFLAGS
    /// value captured immediately after the instruction;
    /// `instruction_error` is the 32-bit VM-instruction-error field of the
    /// VMCS, consulted only when the zero flag is set.
    ///
    /// Zero flag set: the instruction failed with a recorded error code —
    /// classified into the named error, or the distinct unrecognized kind.
    /// Else carry flag set: it failed with no recorded code. Else: success.
    /// The architecture defines the two failure flag states as mutually
    /// exclusive; the zero flag is checked first.
    pub fn vm_succeed(flags: u64, instruction_error: u32) -> (r: Result<(), HypervisorError>)
        ensures
            entry_succeeded(flags) ==> r == Ok::<(), HypervisorError>(()),
            r is Ok ==> entry_succeeded(flags),
            zero_flag_set(flags) ==> r == Err::<(), HypervisorError>(
                instruction_failure(instruction_error),
            ),
            !zero_flag_set(flags) && carry_flag_set(flags) ==> r == Err::<(), HypervisorError>(
                HypervisorError::VMFailToLaunch,
            ),
    {
        if flags & RFLAGS_ZF != 0 {
            match VmInstructionError::from_u32(instruction_error) {
                Some(error) => Err(HypervisorError::VmInstructionError(error)),
                None => Err(HypervisorError::UnknownVMInstructionError(instruction_error)),
            }
        } else if flags & RFLAGS_CF != 0 {
            Err(HypervisorError::VMFailToLaunch)
        } else {
            Ok(())
        }
    }

    /// Completes one VM-entry/VM-exit cycle from what the port observed.
    ///
    /// The port first entered the guest through the entry trampoline,
    /// selecting VMLAUNCH or VMRESUME by `launch_selector`; the call
    /// returned only on VM-exit (or failed entry), with the values gathered
    /// in `exit`. This function then makes every decision of the cycle: it
    /// verifies entry success from the flags — on failure the error is
    /// propagated and the object is left exactly as it was — and on success
    /// marks the object launched, resynchronizes the register snapshot with
    /// the values read back from the VMCS, and classifies the basic exit
    /// reason, surfacing an unknown code as a fatal error rather than any
    /// default.
    pub fn run(&mut self, exit: &VmExitSnapshot) -> (r: Result<
        VmxBasicExitReason,
        HypervisorError,
    >)
        requires
            old(self).configured(),
        ensures
            final(self).configured(),
            platform_unchanged(old(self)@, final(self)@),
            !entry_succeeded(exit.flags) ==> *final(self) == *old(self),
            zero_flag_set(exit.flags) ==> r == Err::<VmxBasicExitReason, HypervisorError>(
                instruction_failure(exit.instruction_error),
            ),
            !zero_flag_set(exit.flags) && carry_flag_set(exit.flags) ==> r == Err::<
                VmxBasicExitReason,
                HypervisorError,
            >(HypervisorError::VMFailToLaunch),
            entry_succeeded(exit.flags) ==> r == classified_exit(exit.exit_reason),
            entry_succeeded(exit.flags) ==> final(self)@.guest_registers == resynchronized(*exit),
            final(self)@.has_launched == (old(self)@.has_launched || entry_succeeded(exit.flags)),
    {
        match Self::vm_succeed(exit.flags, exit.instruction_error) {
            Err(e) => {
                return Err(e);
            },
            Ok(_) => {},
        }
        self.has_launched = true;
        // Resynchronize the snapshot: the trampoline already wrote the
        // general-purpose registers into it on exit; RIP, RSP and RFLAGS are
        // taken from the authoritative VMCS guest-state reads.
        self.guest_registers = exit.registers;
        self.guest_registers.rip = exit.rip;
        self.guest_registers.rsp = exit.rsp;
        self.guest_registers.rflags = exit.rflags;
        match VmxBasicExitReason::from_u32(exit.exit_reason) {
            Some(reason) => Ok(reason),
            None => Err(HypervisorError::UnknownVMExitReason(exit.exit_reason)),
        }
    }

    /// The VMCS region header.
    pub fn vmcs_region(&self) -> (v: Vmcs)
        ensures
            v == self@.vmcs_region,
    {
        self.vmcs_region
    }

    /// The captured guest descriptor-table state.
    pub fn guest_descriptor(&self) -> (d: Descriptors)
        ensures
            d == self@.guest_descriptor,
    {
        self.guest_descriptor
    }

    /// The host descriptor-table state built for root mode.
    pub fn host_descriptor(&self) -> (d: Descriptors)
        ensures
            d == self@.host_descriptor,
    {
        self.host_descriptor
    }

    /// The guest register snapshot.
    pub fn guest_registers(&self) -> (r: GuestRegisters)
        ensures
            r == self@.guest_registers,
    {
        self.guest_registers
    }

    /// Index of this processor's shared data in the caller-owned registry.
    pub fn shared_data(&self) -> (d: usize)
        ensures
            d == self@.shared_data,
    {
        self.shared_data
    }

    /// One byte of the MSR-interception bitmap page.
    pub fn msr_bitmap_byte(&self, index: usize) -> (b: u8)
        requires
            index < self@.msr_bitmap.len(),
        ensures
            b == self@.msr_bitmap[index as int],
    {
        self.msr_bitmap.byte_at(index)
    }

    /// Whether the first successful VM-entry has happened.
    pub fn has_launched(&self) -> (b: bool)
        ensures
            b == self@.has_launched,
    {
        self.has_launched
    }

    /// How far the one-time activation sequence has progressed.
    pub fn activation_stage(&self) -> (s: ActivationState)
        ensures
            s == self@.activation,
    {
        self.activation
    }
}

} // verus!

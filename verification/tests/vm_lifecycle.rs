//! Construction, activation order, the run loop and the launched flag.

use hypervisor::descriptor::Descriptors;
use hypervisor::error::HypervisorError;
use hypervisor::page::PAGE_SIZE;
use hypervisor::registers::GuestRegisters;
use hypervisor::vm::{ActivationState, SetupReport, Vm, VmExitSnapshot};
use hypervisor::vmerror::VmxBasicExitReason;

fn descriptors(base: u64) -> Descriptors {
    Descriptors {
        gdtr_base: base,
        gdtr_limit: 0x7f,
        idtr_base: base + 0x1000,
        idtr_limit: 0xfff,
        cs_selector: 0x8,
        tr_selector: 0x20,
    }
}

fn registers(rip: u64) -> GuestRegisters {
    let mut r = GuestRegisters::zeroed();
    r.rip = rip;
    r.rsp = 0x9000;
    r.rflags = 0x2;
    r
}

fn setup_ok() -> SetupReport {
    SetupReport { host_state: Ok(()), control_fields: Ok(()) }
}

/// A fake VMCS backing store standing in for the hardware port: scripted
/// flag and field values, read back into an exit snapshot the way the real
/// driver reads them out of the loaded VMCS.
struct FakeVmcsStore {
    flags: u64,
    instruction_error: u32,
    rip: u64,
    rsp: u64,
    rflags: u64,
    exit_reason: u32,
}

impl FakeVmcsStore {
    fn observe(&self, trampoline_written: GuestRegisters) -> VmExitSnapshot {
        VmExitSnapshot {
            flags: self.flags,
            instruction_error: self.instruction_error,
            registers: trampoline_written,
            rip: self.rip,
            rsp: self.rsp,
            rflags: self.rflags,
            exit_reason: self.exit_reason,
        }
    }
}

#[test]
fn construction_leaves_everything_fresh() {
    let regs = registers(0x401000);
    let vm = Vm::new(&regs, descriptors(0x1000), descriptors(0x200000), 0x12, 3);
    assert!(!vm.has_launched());
    assert_eq!(vm.activation_stage(), ActivationState::Created);
    assert_eq!(vm.vmcs_region().revision_id, 0x12);
    assert_eq!(vm.vmcs_region().abort_indicator, 0);
    assert_eq!(vm.guest_registers(), regs);
    assert_eq!(vm.guest_descriptor(), descriptors(0x1000));
    assert_eq!(vm.host_descriptor(), descriptors(0x200000));
    assert_eq!(vm.shared_data(), 3);
    for i in 0..PAGE_SIZE {
        assert_eq!(vm.msr_bitmap_byte(i), 0);
    }
}

#[test]
fn activation_clears_shadow_bit_and_configures() {
    let regs = registers(0x1000);
    let mut vm = Vm::new(&regs, descriptors(0), descriptors(0x10000), 0x8000_0042, 0);
    assert_eq!(vm.activate_vmcs(&setup_ok()), Ok(()));
    // Bit 31 of the revision identifier is cleared before the region is
    // loaded; the rest of the identifier is kept.
    assert_eq!(vm.vmcs_region().revision_id, 0x42);
    assert_eq!(vm.activation_stage(), ActivationState::Configured);
    assert!(!vm.has_launched());
}

#[test]
fn activation_steps_happen_in_order() {
    let regs = registers(0x1000);
    let mut vm = Vm::new(&regs, descriptors(0), descriptors(0x10000), 0x8000_0001, 0);
    assert_eq!(vm.activation_stage(), ActivationState::Created);
    vm.mark_non_shadow();
    assert_eq!(vm.activation_stage(), ActivationState::NonShadowMarked);
    assert_eq!(vm.vmcs_region().revision_id, 1);
    vm.note_region_loaded();
    assert_eq!(vm.activation_stage(), ActivationState::RegionLoaded);
    assert_eq!(vm.setup_vmcs(&setup_ok()), Ok(()));
    assert_eq!(vm.activation_stage(), ActivationState::Configured);
}

#[test]
fn setup_propagates_host_state_failure_before_control_fields() {
    let regs = registers(0x1000);
    let mut vm = Vm::new(&regs, descriptors(0), descriptors(0x10000), 1, 0);
    let report = SetupReport {
        host_state: Err(HypervisorError::HostStateConfigurationFailure),
        // Even a failing control-field step is never reached.
        control_fields: Err(HypervisorError::ControlFieldConfigurationFailure),
    };
    assert_eq!(
        vm.activate_vmcs(&report),
        Err(HypervisorError::HostStateConfigurationFailure)
    );
    // The region stays loaded but was never configured.
    assert_eq!(vm.activation_stage(), ActivationState::RegionLoaded);
}

#[test]
fn setup_propagates_control_field_failure() {
    let regs = registers(0x1000);
    let mut vm = Vm::new(&regs, descriptors(0), descriptors(0x10000), 1, 0);
    let report = SetupReport {
        host_state: Ok(()),
        control_fields: Err(HypervisorError::ControlFieldConfigurationFailure),
    };
    assert_eq!(
        vm.activate_vmcs(&report),
        Err(HypervisorError::ControlFieldConfigurationFailure)
    );
    assert_eq!(vm.activation_stage(), ActivationState::RegionLoaded);
}

#[test]
fn launched_flips_on_first_successful_run_only() {
    let regs = registers(0x1000);
    let mut vm = Vm::new(&regs, descriptors(0), descriptors(0x10000), 1, 0);
    assert!(!vm.has_launched());
    assert_eq!(vm.activate_vmcs(&setup_ok()), Ok(()));
    assert!(!vm.has_launched());
    assert_eq!(vm.launch_selector(), 0);

    // A failed entry does not set the flag.
    let store = FakeVmcsStore {
        flags: 0x1,
        instruction_error: 0,
        rip: 0,
        rsp: 0,
        rflags: 0,
        exit_reason: 0,
    };
    let exit = store.observe(vm.guest_registers());
    assert_eq!(vm.run(&exit), Err(HypervisorError::VMFailToLaunch));
    assert!(!vm.has_launched());
    assert_eq!(vm.launch_selector(), 0);

    // The first successful cycle sets it; later ones keep it.
    let store = FakeVmcsStore {
        flags: 0,
        instruction_error: 0,
        rip: 0x1005,
        rsp: 0x9000,
        rflags: 0x202,
        exit_reason: 10,
    };
    let exit = store.observe(vm.guest_registers());
    assert_eq!(vm.run(&exit), Ok(VmxBasicExitReason::Cpuid));
    assert!(vm.has_launched());
    assert_eq!(vm.launch_selector(), 1);

    let exit = store.observe(vm.guest_registers());
    assert_eq!(vm.run(&exit), Ok(VmxBasicExitReason::Cpuid));
    assert!(vm.has_launched());
    assert_eq!(vm.launch_selector(), 1);
}

#[test]
fn run_resynchronizes_snapshot_from_vmcs_reads() {
    let regs = registers(0x1000);
    let mut vm = Vm::new(&regs, descriptors(0), descriptors(0x10000), 1, 0);
    assert_eq!(vm.activate_vmcs(&setup_ok()), Ok(()));

    // The trampoline wrote the general-purpose registers on exit; the fake
    // store scripts the RIP/RSP/RFLAGS values the driver reads back.
    let mut trampoline_written = vm.guest_registers();
    trampoline_written.rax = 0xaaaa;
    trampoline_written.r15 = 0x1515;
    let store = FakeVmcsStore {
        flags: 0,
        instruction_error: 0,
        rip: 0xdead_0010,
        rsp: 0xbeef_0020,
        rflags: 0x246,
        exit_reason: 12,
    };
    let exit = store.observe(trampoline_written);
    assert_eq!(vm.run(&exit), Ok(VmxBasicExitReason::Hlt));

    let after = vm.guest_registers();
    // Round trip: exactly the values the fake store held.
    assert_eq!(after.rip, 0xdead_0010);
    assert_eq!(after.rsp, 0xbeef_0020);
    assert_eq!(after.rflags, 0x246);
    // And the trampoline-written file is kept for everything else.
    assert_eq!(after.rax, 0xaaaa);
    assert_eq!(after.r15, 0x1515);
}

#[test]
fn run_surfaces_failures_and_leaves_snapshot_alone() {
    let regs = registers(0x7000);
    let mut vm = Vm::new(&regs, descriptors(0), descriptors(0x10000), 1, 0);
    assert_eq!(vm.activate_vmcs(&setup_ok()), Ok(()));
    let before = vm.guest_registers();

    // Zero-flag failure consults the instruction-error field.
    let store = FakeVmcsStore {
        flags: 0x40,
        instruction_error: 5,
        rip: 0x1,
        rsp: 0x2,
        rflags: 0x3,
        exit_reason: 10,
    };
    let exit = store.observe(before);
    assert!(matches!(
        vm.run(&exit),
        Err(HypervisorError::VmInstructionError(_))
    ));
    assert_eq!(vm.guest_registers(), before);
    assert!(!vm.has_launched());

    // An unknown exit reason is fatal, never mapped to a default.
    let store = FakeVmcsStore {
        flags: 0,
        instruction_error: 0,
        rip: 0x7005,
        rsp: 0x9000,
        rflags: 0x202,
        exit_reason: 0xffff_ffff,
    };
    let exit = store.observe(before);
    assert_eq!(
        vm.run(&exit),
        Err(HypervisorError::UnknownVMExitReason(0xffff_ffff))
    );
    // The entry itself succeeded, so the object did launch.
    assert!(vm.has_launched());
}

#[test]
fn independent_objects_share_nothing() {
    let regs_a = registers(0x1000);
    let regs_b = registers(0x2000);
    let mut a = Vm::new(&regs_a, descriptors(0x100), descriptors(0x10000), 0x8000_0001, 0);
    let b = Vm::new(&regs_b, descriptors(0x300), descriptors(0x30000), 0x8000_0002, 1);

    // Each object's state is fixed by its own construction inputs.
    assert_eq!(a.guest_registers(), regs_a);
    assert_eq!(b.guest_registers(), regs_b);
    assert_eq!(a.shared_data(), 0);
    assert_eq!(b.shared_data(), 1);

    // Driving one all the way through a cycle moves nothing in the other.
    assert_eq!(a.activate_vmcs(&setup_ok()), Ok(()));
    let store = FakeVmcsStore {
        flags: 0,
        instruction_error: 0,
        rip: 0x1111,
        rsp: 0x2222,
        rflags: 0x202,
        exit_reason: 48,
    };
    let exit = store.observe(a.guest_registers());
    assert_eq!(a.run(&exit), Ok(VmxBasicExitReason::EptViolation));
    assert!(a.has_launched());

    assert!(!b.has_launched());
    assert_eq!(b.activation_stage(), ActivationState::Created);
    assert_eq!(b.vmcs_region().revision_id, 0x8000_0002);
    assert_eq!(b.guest_registers(), regs_b);
    for i in 0..PAGE_SIZE {
        assert_eq!(b.msr_bitmap_byte(i), 0);
    }
}

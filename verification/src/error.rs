//! The typed errors the control core reports upward. None is retried inside
//! the core and none is silently downgraded to a default or a success value.

use vstd::prelude::*;
use crate::vmerror::VmInstructionError;

verus! {

/// Failure of an activation or run operation.
#[derive(Clone, Copy, Debug, PartialEq, Eq, Structural)]
pub enum HypervisorError {
    /// A VMX instruction failed with its zero flag set and the
    /// VM-instruction-error field held a recognized code, carried here as the
    /// named error.
    VmInstructionError(VmInstructionError),
    /// A VMX instruction failed with its zero flag set but the
    /// VM-instruction-error field held a code outside the known enumeration;
    /// the raw code is carried.
    UnknownVMInstructionError(u32),
    /// A VMX instruction failed with its carry flag set: no error code was
    /// recorded (for instance, no VMCS was loaded at the time).
    VMFailToLaunch,
    /// The basic exit-reason field held a code outside the known enumeration;
    /// the raw code is carried.
    UnknownVMExitReason(u32),
    /// Programming the host-state fields of the VMCS failed in the
    /// configurator.
    HostStateConfigurationFailure,
    /// Programming the control fields of the VMCS failed in the configurator.
    ControlFieldConfigurationFailure,
}

} // verus!

//! The VMCS region header. The field layout of the body of the region and
//! its guest/host/control programming belong to the configurator and the
//! processor; the control core owns the region and touches only its header.

use vstd::prelude::*;

verus! {

/// Header of a 4KB VMCS region.
#[derive(Clone, Copy, Debug, PartialEq, Eq, Structural)]
pub struct Vmcs {
    /// VMCS revision identifier; bit 31 set would mark a shadow VMCS, so the
    /// activation sequence clears it before the region is first loaded.
    pub revision_id: u32,
    /// VMX-abort indicator, written by the processor on a VMX abort; zero in
    /// a fresh region.
    pub abort_indicator: u32,
}

impl Vmcs {
    /// A fresh, zeroed region carrying the revision identifier the processor
    /// dictates (the caller reads it from the IA32_VMX_BASIC capability MSR).
    pub fn new(revision_id: u32) -> (v: Vmcs)
        ensures
            v.revision_id == revision_id,
            v.abort_indicator == 0,
    {
        Vmcs { revision_id, abort_indicator: 0 }
    }
}

} // verus!

//! Descriptor-table snapshots. The guest copy is captured from the current
//! environment before virtualization; the host copy is freshly built for
//! root-mode execution. Both are immutable after construction and are
//! consumed by the VMCS configurator.

use vstd::prelude::*;

verus! {

/// The register state that locates a descriptor-table set, plus the
/// selectors the configurator programs into the VMCS.
#[derive(Clone, Copy, Debug, PartialEq, Eq, Structural)]
pub struct Descriptors {
    /// Base linear address of the global descriptor table.
    pub gdtr_base: u64,
    /// Limit of the global descriptor table.
    pub gdtr_limit: u16,
    /// Base linear address of the interrupt descriptor table.
    pub idtr_base: u64,
    /// Limit of the interrupt descriptor table.
    pub idtr_limit: u16,
    /// Code-segment selector.
    pub cs_selector: u16,
    /// Task-register selector.
    pub tr_selector: u16,
}

} // verus!

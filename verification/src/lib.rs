//! Root-mode control core of a hardware-assisted hypervisor for x86-64 CPUs
//! using Intel VT-x.
//!
//! The crate owns the per-logical-processor virtual-machine control state: the
//! VMCS region, descriptor-table snapshots, host page tables, the guest
//! register snapshot and the MSR-interception bitmap. It drives the VMCS
//! activation sequence and the VM-entry/VM-exit cycle, validates VM-entry
//! success from the CPU flags, and classifies basic VM-exit reasons.
//!
//! The privileged VMX instructions themselves (VMCLEAR, VMPTRLD, VMREAD,
//! VMLAUNCH/VMRESUME) cannot be issued from verified code; the driver that
//! owns the hardware issues them and hands the observed values (the flags
//! register after the entry instruction, the guest-state fields read back
//! from the VMCS) to this crate, which makes every decision on them.

pub mod descriptor;
pub mod error;
pub mod page;
pub mod paging;
pub mod registers;
pub mod vm;
pub mod vmcs;
pub mod vmerror;

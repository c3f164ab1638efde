//! The guest register snapshot: the general-purpose register file plus the
//! flow-control registers RIP, RSP and RFLAGS.

use vstd::prelude::*;

verus! {

/// Snapshot of the guest's general-purpose registers and flow-control
/// registers.
///
/// The caller captures one from the live CPU state before virtualization; the
/// run loop overwrites RIP, RSP and RFLAGS with the authoritative values read
/// back from the VMCS after every VM-exit. During guest execution the true
/// values live in CPU/VMCS state, not in this snapshot.
#[derive(Clone, Copy, Debug, PartialEq, Eq, Structural)]
pub struct GuestRegisters {
    pub rax: u64,
    pub rbx: u64,
    pub rcx: u64,
    pub rdx: u64,
    pub rsi: u64,
    pub rdi: u64,
    pub rbp: u64,
    pub r8: u64,
    pub r9: u64,
    pub r10: u64,
    pub r11: u64,
    pub r12: u64,
    pub r13: u64,
    pub r14: u64,
    pub r15: u64,
    /// Instruction pointer at which guest execution (re)starts.
    pub rip: u64,
    /// Guest stack pointer.
    pub rsp: u64,
    /// Guest flags register.
    pub rflags: u64,
}

impl GuestRegisters {
    /// A zeroed register file, the state before any capture.
    pub fn zeroed() -> (r: GuestRegisters)
        ensures
            r == (GuestRegisters {
                rax: 0u64, rbx: 0u64, rcx: 0u64, rdx: 0u64, rsi: 0u64, rdi: 0u64,
                rbp: 0u64, r8: 0u64, r9: 0u64, r10: 0u64, r11: 0u64, r12: 0u64,
                r13: 0u64, r14: 0u64, r15: 0u64, rip: 0u64, rsp: 0u64, rflags: 0u64,
            }),
    {
        GuestRegisters {
            rax: 0, rbx: 0, rcx: 0, rdx: 0, rsi: 0, rdi: 0,
            rbp: 0, r8: 0, r9: 0, r10: 0, r11: 0, r12: 0,
            r13: 0, r14: 0, r15: 0, rip: 0, rsp: 0, rflags: 0,
        }
    }
}

} // verus!

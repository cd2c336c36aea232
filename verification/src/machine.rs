//! The host register state saved on entry to an interrupt handler.
use vstd::prelude::*;

verus! {

/// General purpose registers, flags and instruction pointer of the host, in
/// the order the interrupt entry code pushes them.
#[derive(Clone, Copy, Debug, PartialEq, Eq, Structural)]
pub struct MachineContext {
    pub rax: u64,
    pub rcx: u64,
    pub rdx: u64,
    pub rbx: u64,
    pub rsi: u64,
    pub rdi: u64,
    pub rbp: u64,
    pub rsp: u64,
    pub r8: u64,
    pub r9: u64,
    pub r10: u64,
    pub r11: u64,
    pub r12: u64,
    pub r13: u64,
    pub r14: u64,
    pub r15: u64,
    pub rflags: u64,
    pub rip: u64,
}

impl MachineContext {
    /// A context with every register zero.
    pub fn empty() -> (r: MachineContext)
        ensures
            r == (MachineContext {
                rax: 0,
                rcx: 0,
                rdx: 0,
                rbx: 0,
                rsi: 0,
                rdi: 0,
                rbp: 0,
                rsp: 0,
                r8: 0,
                r9: 0,
                r10: 0,
                r11: 0,
                r12: 0,
                r13: 0,
                r14: 0,
                r15: 0,
                rflags: 0,
                rip: 0,
            }),
    {
        MachineContext {
            rax: 0,
            rcx: 0,
            rdx: 0,
            rbx: 0,
            rsi: 0,
            rdi: 0,
            rbp: 0,
            rsp: 0,
            r8: 0,
            r9: 0,
            r10: 0,
            r11: 0,
            r12: 0,
            r13: 0,
            r14: 0,
            r15: 0,
            rflags: 0,
            rip: 0,
        }
    }
}

} // verus!

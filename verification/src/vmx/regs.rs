//! The guest's general-purpose register file.

use vstd::prelude::*;

verus! {

/// General-purpose registers of a guest, in the order in which the entry and
/// exit code pushes and pops them. The guest's `RSP` is not kept here: it lives
/// in the control block, and its slot is only a placeholder.
#[derive(Clone, Copy, Debug, PartialEq, Eq, Structural)]
pub struct GeneralRegisters {
    pub rax: u64,
    pub rcx: u64,
    pub rdx: u64,
    pub rbx: u64,
    pub _unused_rsp: u64,
    pub rbp: u64,
    pub rsi: u64,
    pub rdi: u64,
    pub r8: u64,
    pub r9: u64,
    pub r10: u64,
    pub r11: u64,
    pub r12: u64,
    pub r13: u64,
    pub r14: u64,
    pub r15: u64,
}

impl GeneralRegisters {
    /// The register file with every register zero.
    pub open spec fn zeroed() -> GeneralRegisters {
        GeneralRegisters {
            rax: 0,
            rcx: 0,
            rdx: 0,
            rbx: 0,
            _unused_rsp: 0,
            rbp: 0,
            rsi: 0,
            rdi: 0,
            r8: 0,
            r9: 0,
            r10: 0,
            r11: 0,
            r12: 0,
            r13: 0,
            r14: 0,
            r15: 0,
        }
    }
}

impl Default for GeneralRegisters {
    fn default() -> (r: GeneralRegisters)
        ensures
            r == GeneralRegisters::zeroed(),
    {
        GeneralRegisters {
            rax: 0,
            rcx: 0,
            rdx: 0,
            rbx: 0,
            _unused_rsp: 0,
            rbp: 0,
            rsi: 0,
            rdi: 0,
            r8: 0,
            r9: 0,
            r10: 0,
            r11: 0,
            r12: 0,
            r13: 0,
            r14: 0,
            r15: 0,
        }
    }
}

} // verus!

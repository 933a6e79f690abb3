//! The x86-64 back-end: a virtual CPU on Intel VMX.
//!
//! The processor keeps most guest state in a control block that only
//! privileged instructions reach. This module works on a copy of that block
//! held as plain values ([`vmcs::Vmcs`]); the embedding code moves the copy to
//! the processor before an entry and back after an exit.

pub mod regs;
pub mod definitions;
pub mod vmcs;
pub mod region;
pub mod cpuid;
pub mod xstate;
pub mod vcpu;
pub mod laws;

//! Core of a bare-metal hypervisor: the per-vCPU state machines for x86-64 VMX
//! and RISC-V H-mode guests, with the hardware kept behind plain values.

pub mod bits;
pub mod error;
pub mod vmx;
pub mod riscv;

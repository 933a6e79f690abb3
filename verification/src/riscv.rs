//! The RISC-V back-end: a virtual machine on the hypervisor extension.
//!
//! Entering the guest, calling the firmware and reading guest memory are left
//! to the embedding code. This module decides what each VM exit leads to, and
//! says so as an [`vm::ExitAction`].

pub mod regs;
pub mod sbi;
pub mod decode;
pub mod plic;
pub mod vcpu;
pub mod vm;
pub mod laws;

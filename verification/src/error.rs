//! Error kinds shared by both back-ends.

use vstd::prelude::*;

verus! {

/// Why an operation of the hypervisor core could not be completed.
#[derive(Clone, Copy, Debug, PartialEq, Eq, Structural)]
pub enum HyperError {
    /// A parameter was rejected.
    InvalidParam,
    /// The operation is not supported by this core or by the processor.
    NotSupported,
    /// The hardware control block was in the wrong state for the operation.
    BadState,
    /// A guest page fault that no device model claims.
    PageFault,
    /// The trapping instruction is not one the emulation accepts.
    InvalidInstruction,
    /// A vCPU with the requested identifier does not exist.
    NotFound,
    /// A vCPU with the requested identifier exists already.
    AlreadyExists,
}

pub type HyperResult<T = ()> = Result<T, HyperError>;

} // verus!

//! Calls of the guest into the supervisor binary interface.

use vstd::prelude::*;

verus! {

/// What the firmware hands back from a call: an error number and a value.
#[derive(Clone, Copy, Debug, PartialEq, Eq, Structural)]
pub struct SbiRet {
    pub error: usize,
    pub value: usize,
}

/// Functions of the base extension.
#[derive(Clone, Copy, Debug, PartialEq, Eq, Structural)]
pub enum BaseFunction {
    GetSepcificationVersion,
    GetImplementationID,
    GetImplementationVersion,
    ProbeSbiExtension(usize),
    GetMachineVendorID,
    GetMachineArchitectureID,
    GetMachineImplementationID,
}

/// Functions of the performance-monitoring extension.
#[derive(Clone, Copy, Debug, PartialEq, Eq, Structural)]
pub enum PmuFunction {
    GetNumCounters,
    GetCounterInfo(usize),
    StopCounter { counter_index: usize, counter_mask: usize, stop_flags: usize },
}

/// Functions of the remote-fence extension.
#[derive(Clone, Copy, Debug, PartialEq, Eq, Structural)]
pub enum RemoteFenceFunction {
    FenceI { hart_mask: usize, hart_mask_base: usize },
    RemoteSFenceVMA { hart_mask: usize, hart_mask_base: usize, start_addr: usize, size: usize },
}

/// A request of the guest to reset the system.
#[derive(Clone, Copy, Debug, PartialEq, Eq, Structural)]
pub struct ResetFunction {
    pub reset_type: usize,
    pub reset_reason: usize,
}

/// A call of the guest into the supervisor binary interface.
#[derive(Clone, Copy, Debug, PartialEq, Eq, Structural)]
pub enum HyperCallMsg {
    Base(BaseFunction),
    PutChar(usize),
    GetChar,
    SetTimer(usize),
    Reset(ResetFunction),
    RemoteFence(RemoteFenceFunction),
    PMU(PmuFunction),
}

/// A call that the firmware is to make on behalf of the guest.
#[derive(Clone, Copy, Debug, PartialEq, Eq, Structural)]
pub enum FirmwareCall {
    /// A function of the base extension.
    Base(BaseFunction),
    /// Write one character to the console.
    PutChar(usize),
    /// Shut the system down, with system failure as the reason.
    Shutdown,
    /// A function of the remote-fence extension.
    RemoteFence(RemoteFenceFunction),
    /// A function of the performance-monitoring extension.
    Pmu(PmuFunction),
}

/// The word that the guest reads as the version of the interface: the major
/// number above bit 24, the minor number below.
pub open spec fn version_word(major: usize, minor: usize) -> usize {
    (major << 24) | minor
}

/// Packs the major and minor number of the interface's version into the word
/// that the guest reads.
pub fn specification_version(major: usize, minor: usize) -> (r: usize)
    ensures
        r == version_word(major, minor),
{
    major << 24 | minor
}

} // verus!

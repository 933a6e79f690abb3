//! Extended processor state: `XCR0` and `IA32_XSS` of host and guest.

use vstd::prelude::*;
use x86::controlregs::Xcr0;
use crate::vmx::definitions::CR4_OSXSAVE;

verus! {

/// `XCR0`: x87 state.
pub const XCR0_FPU_MMX_STATE: u64 = 0x1;
/// `XCR0`: SSE state.
pub const XCR0_SSE_STATE: u64 = 0x2;
/// `XCR0`: AVX state.
pub const XCR0_AVX_STATE: u64 = 0x4;
/// `XCR0`: MPX bound registers.
pub const XCR0_BNDREG_STATE: u64 = 0x8;
/// `XCR0`: MPX bound configuration and status.
pub const XCR0_BNDCSR_STATE: u64 = 0x10;
/// `XCR0`: AVX-512 opmask registers.
pub const XCR0_OPMASK_STATE: u64 = 0x20;
/// `XCR0`: upper halves of the lower ZMM registers.
pub const XCR0_ZMM_HI256_STATE: u64 = 0x40;
/// `XCR0`: the upper ZMM registers.
pub const XCR0_HI16_ZMM_STATE: u64 = 0x80;
/// `XCR0`: protection-key rights.
pub const XCR0_PKRU_STATE: u64 = 0x200;
/// Every bit of `XCR0` that stands for a state component.
pub const XCR0_DEFINED: u64 = 0x2ff;

/// Whether `value` has every bit of `flags`.
pub open spec fn has(value: u64, flags: u64) -> bool {
    value & flags == flags
}

/// Whether a guest may load `value` into `XCR0`: only defined bits; x87 state
/// always; AVX only with SSE; the two MPX components together or not at all;
/// any AVX-512 component only with all three of them and AVX.
pub open spec fn xcr0_valid(value: u64) -> bool {
    &&& value & !XCR0_DEFINED == 0
    &&& has(value, XCR0_FPU_MMX_STATE)
    &&& (has(value, XCR0_AVX_STATE) ==> has(value, XCR0_SSE_STATE))
    &&& (has(value, XCR0_BNDCSR_STATE) <==> has(value, XCR0_BNDREG_STATE))
    &&& (has(value, XCR0_OPMASK_STATE) || has(value, XCR0_ZMM_HI256_STATE) || has(
        value,
        XCR0_HI16_ZMM_STATE,
    ) ==> has(value, XCR0_AVX_STATE) && has(value, XCR0_OPMASK_STATE) && has(
        value,
        XCR0_ZMM_HI256_STATE,
    ) && has(value, XCR0_HI16_ZMM_STATE))
}

/// `Xcr0::from_bits` of the `x86` crate, with the flags handed back as their
/// bits: `Some` with the value unchanged where it has no bit but those of the
/// nine flags that the crate defines (bits 0 to 7 and bit 9), else `None`.
#[verifier::external_body]
pub(crate) fn xcr0_from_bits(value: u64) -> (r: Option<u64>)
    ensures
        r == (if value & !XCR0_DEFINED == 0 {
            Some(value)
        } else {
            None
        }),
{
    match Xcr0::from_bits(value) {
        Some(flags) => Some(flags.bits()),
        None => None,
    }
}

/// Checks a value that the guest wants in `XCR0`.
pub fn check_xcr0(value: u64) -> (r: Option<u64>)
    ensures
        r == (if xcr0_valid(value) {
            Some(value)
        } else {
            None
        }),
{
    match xcr0_from_bits(value) {
        Some(x) => {
            if x & XCR0_FPU_MMX_STATE != XCR0_FPU_MMX_STATE {
                return None;
            }
            if x & XCR0_AVX_STATE == XCR0_AVX_STATE && x & XCR0_SSE_STATE != XCR0_SSE_STATE {
                return None;
            }
            if (x & XCR0_BNDCSR_STATE == XCR0_BNDCSR_STATE) != (x & XCR0_BNDREG_STATE
                == XCR0_BNDREG_STATE) {
                return None;
            }
            if x & XCR0_OPMASK_STATE == XCR0_OPMASK_STATE || x & XCR0_ZMM_HI256_STATE
                == XCR0_ZMM_HI256_STATE || x & XCR0_HI16_ZMM_STATE == XCR0_HI16_ZMM_STATE {
                if x & XCR0_AVX_STATE != XCR0_AVX_STATE || x & XCR0_OPMASK_STATE
                    != XCR0_OPMASK_STATE || x & XCR0_ZMM_HI256_STATE != XCR0_ZMM_HI256_STATE || x
                    & XCR0_HI16_ZMM_STATE != XCR0_HI16_ZMM_STATE {
                    return None;
                }
            }
            Some(x)
        },
        None => None,
    }
}

/// The extended-state registers that are switched around every guest run.
#[derive(Clone, Copy, Debug, PartialEq, Eq, Structural)]
pub struct XState {
    pub host_xcr0: u64,
    pub guest_xcr0: u64,
    pub host_xss: u64,
    pub guest_xss: u64,
}

impl XState {
    /// The state in which the guest starts with the host's `XCR0` and
    /// `IA32_XSS`.
    pub open spec fn initial(xcr0: u64, xss: u64) -> XState {
        XState { host_xcr0: xcr0, guest_xcr0: xcr0, host_xss: xss, guest_xss: xss }
    }

    /// Creates the state from the host's current `XCR0` and `IA32_XSS`.
    pub fn new(xcr0: u64, xss: u64) -> (r: XState)
        ensures
            r == XState::initial(xcr0, xss),
    {
        XState { host_xcr0: xcr0, guest_xcr0: xcr0, host_xss: xss, guest_xss: xss }
    }

    /// The value of `CR4` that lets the processor use `XSAVE`: `cr4` with
    /// `OSXSAVE` set.
    pub fn enable_xsave(cr4: usize) -> (r: usize)
        ensures
            r == cr4 | CR4_OSXSAVE,
    {
        cr4 | CR4_OSXSAVE
    }
}

} // verus!

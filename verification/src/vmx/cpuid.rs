//! What the guest sees when it executes `CPUID`.

use vstd::prelude::*;
use crate::bits::{set_bit, with_bit};

verus! {

/// Leaf of the feature information.
pub const LEAF_FEATURE_INFO: u32 = 0x1;
/// Leaf of the structured extended feature flags.
pub const LEAF_STRUCTURED_EXTENDED_FEATURE_FLAGS_ENUMERATION: u32 = 0x7;
/// Leaf of the processor extended state enumeration.
pub const LEAF_PROCESSOR_EXTENDED_STATE_ENUMERATION: u32 = 0xd;
/// Leaf on which a hypervisor names itself.
pub const LEAF_HYPERVISOR_INFO: u32 = 0x4000_0000;
/// Leaf of the hypervisor's features.
pub const LEAF_HYPERVISOR_FEATURE: u32 = 0x4000_0001;
/// Feature bit of leaf 1, `ECX`: the processor has VMX.
pub const FEATURE_VMX: u32 = 0x20;
/// Feature bit of leaf 1, `ECX`: a hypervisor is present.
pub const FEATURE_HYPERVISOR: u32 = 0x8000_0000;
/// Bit of leaf 7, `ECX`: the processor has `UMWAIT` and `TPAUSE`.
pub const FEATURE_WAITPKG_BIT: usize = 5;
/// Bytes 0 to 3 of the vendor string `RVMRVMRVMRVM`, as `EBX` returns them.
pub const VENDOR_EBX: u32 = 0x524d_5652;
/// Bytes 4 to 7 of the vendor string, as `ECX` returns them.
pub const VENDOR_ECX: u32 = 0x5652_4d56;
/// Bytes 8 to 11 of the vendor string, as `EDX` returns them.
pub const VENDOR_EDX: u32 = 0x4d56_524d;

/// The four registers that `CPUID` returns.
#[derive(Clone, Copy, Debug, PartialEq, Eq, Structural)]
pub struct CpuIdResult {
    pub eax: u32,
    pub ebx: u32,
    pub ecx: u32,
    pub edx: u32,
}

/// The `CPUID` leaf that a guest asks for: the low half of its `RAX`.
pub open spec fn leaf_of(rax: u64) -> u32 {
    rax as u32
}

/// The sub-leaf that a guest asks for: the low half of its `RCX`.
pub open spec fn subleaf_of(rcx: u64) -> u32 {
    rcx as u32
}

/// A query of the host processor that answering the guest takes.
#[derive(Clone, Copy, Debug, PartialEq, Eq, Structural)]
pub struct CpuidQuery {
    /// What goes into `EAX`.
    pub leaf: u32,
    /// What goes into `ECX`.
    pub subleaf: u32,
    /// Whether the guest's `XCR0` and `IA32_XSS` must be loaded while the
    /// host is asked: the extended-state leaf reports sizes that depend on
    /// them.
    pub guest_xstate: bool,
}

/// The query of the host processor that answers the guest's `CPUID` with
/// the leaf in `rax` and the sub-leaf in `rcx`; `None` for the two
/// hypervisor leaves, which are answered without the host.
pub open spec fn query_of(rax: u64, rcx: u64) -> Option<CpuidQuery> {
    if leaf_of(rax) == LEAF_HYPERVISOR_INFO || leaf_of(rax) == LEAF_HYPERVISOR_FEATURE {
        None
    } else {
        Some(
            CpuidQuery {
                leaf: leaf_of(rax),
                subleaf: subleaf_of(rcx),
                guest_xstate: leaf_of(rax) == LEAF_PROCESSOR_EXTENDED_STATE_ENUMERATION,
            },
        )
    }
}

/// Works out the query of the host processor that answers a `CPUID` of the
/// guest.
pub fn query(rax: u64, rcx: u64) -> (r: Option<CpuidQuery>)
    ensures
        r == query_of(rax, rcx),
{
    let leaf: u32 = rax as u32;
    if leaf == LEAF_HYPERVISOR_INFO || leaf == LEAF_HYPERVISOR_FEATURE {
        None
    } else {
        Some(
            CpuidQuery {
                leaf,
                subleaf: rcx as u32,
                guest_xstate: leaf == LEAF_PROCESSOR_EXTENDED_STATE_ENUMERATION,
            },
        )
    }
}

/// What the guest is told for the leaf in `rax` and the sub-leaf in `rcx`,
/// where the host processor answers `host` to the same query.
///
/// The feature leaf hides VMX and shows a hypervisor; sub-leaf 0 of the
/// extended feature leaf hides `WAITPKG`; the two hypervisor leaves are
/// answered without the host; every other leaf is the host's answer. Leaf
/// and sub-leaf are the low halves of the two registers.
pub open spec fn emulated(rax: u64, rcx: u64, host: CpuIdResult) -> CpuIdResult {
    if leaf_of(rax) == LEAF_FEATURE_INFO {
        CpuIdResult { ecx: (host.ecx & !FEATURE_VMX) | FEATURE_HYPERVISOR, ..host }
    } else if leaf_of(rax) == LEAF_STRUCTURED_EXTENDED_FEATURE_FLAGS_ENUMERATION {
        if subleaf_of(rcx) == 0 {
            CpuIdResult { ecx: with_bit(host.ecx, FEATURE_WAITPKG_BIT, false), ..host }
        } else {
            host
        }
    } else if leaf_of(rax) == LEAF_HYPERVISOR_INFO {
        CpuIdResult {
            eax: LEAF_HYPERVISOR_FEATURE,
            ebx: VENDOR_EBX,
            ecx: VENDOR_ECX,
            edx: VENDOR_EDX,
        }
    } else if leaf_of(rax) == LEAF_HYPERVISOR_FEATURE {
        CpuIdResult { eax: 0, ebx: 0, ecx: 0, edx: 0 }
    } else {
        host
    }
}

/// The twelve bytes that three registers hold, lowest byte of the first
/// register first.
pub open spec fn register_bytes(ebx: u32, ecx: u32, edx: u32) -> Seq<u8> {
    seq![
        (ebx & 0xff) as u8,
        ((ebx >> 8) & 0xff) as u8,
        ((ebx >> 16) & 0xff) as u8,
        ((ebx >> 24) & 0xff) as u8,
        (ecx & 0xff) as u8,
        ((ecx >> 8) & 0xff) as u8,
        ((ecx >> 16) & 0xff) as u8,
        ((ecx >> 24) & 0xff) as u8,
        (edx & 0xff) as u8,
        ((edx >> 8) & 0xff) as u8,
        ((edx >> 16) & 0xff) as u8,
        ((edx >> 24) & 0xff) as u8,
    ]
}

/// `cpuid_count` of the `raw_cpuid` crate: executes `CPUID` on the processor
/// that runs this code, with `leaf` in `EAX` and `subleaf` in `ECX`, and hands
/// back the four registers. What they hold depends on the machine and on its
/// current state, so nothing is claimed of them.
#[verifier::external_body]
pub(crate) fn host_cpuid(leaf: u32, subleaf: u32) -> (r: CpuIdResult) {
    let res = raw_cpuid::native_cpuid::cpuid_count(leaf, subleaf);
    CpuIdResult { eax: res.eax, ebx: res.ebx, ecx: res.ecx, edx: res.edx }
}

/// Computes what the guest is told for a query, from the host's answer to the
/// same query.
pub fn emulate(rax: u64, rcx: u64, host: CpuIdResult) -> (r: CpuIdResult)
    ensures
        r == emulated(rax, rcx, host),
{
    let function: u32 = rax as u32;
    if function == LEAF_FEATURE_INFO {
        let mut res = host;
        res.ecx = res.ecx & !FEATURE_VMX;
        res.ecx = res.ecx | FEATURE_HYPERVISOR;
        res
    } else if function == LEAF_STRUCTURED_EXTENDED_FEATURE_FLAGS_ENUMERATION {
        let mut res = host;
        if rcx as u32 == 0 {
            res.ecx = set_bit(res.ecx, FEATURE_WAITPKG_BIT, false);
        }
        res
    } else if function == LEAF_HYPERVISOR_INFO {
        CpuIdResult {
            eax: LEAF_HYPERVISOR_FEATURE,
            ebx: VENDOR_EBX,
            ecx: VENDOR_ECX,
            edx: VENDOR_EDX,
        }
    } else if function == LEAF_HYPERVISOR_FEATURE {
        CpuIdResult { eax: 0, ebx: 0, ecx: 0, edx: 0 }
    } else {
        host
    }
}

/// Whatever the host answers, the feature leaf shows the guest no VMX (bit 5
/// of `ECX` is 0) and a hypervisor (bit 31 of `ECX` is 1), and leaves every
/// other bit of the host's answer as it is.
pub proof fn lemma_feature_leaf_masked(rax: u64, rcx: u64, host: CpuIdResult)
    requires
        leaf_of(rax) == LEAF_FEATURE_INFO,
    ensures
        emulated(rax, rcx, host).ecx & 0x20 == 0,
        emulated(rax, rcx, host).ecx & 0x8000_0000 == 0x8000_0000,
        emulated(rax, rcx, host).ecx & !0x8000_0020u32 == host.ecx & !0x8000_0020u32,
        emulated(rax, rcx, host).eax == host.eax,
        emulated(rax, rcx, host).ebx == host.ebx,
        emulated(rax, rcx, host).edx == host.edx,
{
    let ecx = host.ecx;
    assert({
        let e = (ecx & !0x20u32) | 0x8000_0000u32;
        e & 0x20 == 0 && e & 0x8000_0000 == 0x8000_0000 && e & !0x8000_0020u32 == ecx
            & !0x8000_0020u32
    }) by (bit_vector);
}

/// Sub-leaf 0 of the extended feature leaf shows the guest no `WAITPKG` (bit
/// 5 of `ECX` is 0) and leaves every other bit of the host's answer as it
/// is, whatever the upper half of the guest's `RCX` holds; every other
/// sub-leaf is the host's answer.
pub proof fn lemma_waitpkg_hidden(rax: u64, rcx: u64, host: CpuIdResult)
    requires
        leaf_of(rax) == LEAF_STRUCTURED_EXTENDED_FEATURE_FLAGS_ENUMERATION,
    ensures
        subleaf_of(rcx) == 0 ==> emulated(rax, rcx, host).ecx & 0x20 == 0,
        subleaf_of(rcx) == 0 ==> emulated(rax, rcx, host).ecx & !0x20u32 == host.ecx & !0x20u32,
        subleaf_of(rcx) != 0 ==> emulated(rax, rcx, host).ecx == host.ecx,
        emulated(rax, rcx, host).eax == host.eax,
        emulated(rax, rcx, host).ebx == host.ebx,
        emulated(rax, rcx, host).edx == host.edx,
{
    let ecx = host.ecx;
    assert({
        let e = ecx & !(1u32 << 5u32);
        e & 0x20 == 0 && e & !0x20u32 == ecx & !0x20u32
    }) by (bit_vector);
}

/// On the hypervisor leaf the guest reads `RVMRVMRVMRVM` from `EBX`, `ECX`
/// and `EDX`, and the number of the feature leaf from `EAX`, whatever the
/// sub-leaf and the host.
pub proof fn lemma_vendor_leaf(rax: u64, rcx: u64, host: CpuIdResult)
    requires
        leaf_of(rax) == LEAF_HYPERVISOR_INFO,
    ensures
        emulated(rax, rcx, host).eax == 0x4000_0001,
        register_bytes(
            emulated(rax, rcx, host).ebx,
            emulated(rax, rcx, host).ecx,
            emulated(rax, rcx, host).edx,
        ) == seq![
            0x52u8,
            0x56u8,
            0x4du8,
            0x52u8,
            0x56u8,
            0x4du8,
            0x52u8,
            0x56u8,
            0x4du8,
            0x52u8,
            0x56u8,
            0x4du8,
        ],
{
    let b: u32 = 0x524d_5652;
    let c: u32 = 0x5652_4d56;
    let d: u32 = 0x4d56_524d;
    assert((b & 0xff) as u8 == 0x52u8 && ((b >> 8) & 0xff) as u8 == 0x56u8 && ((b >> 16)
        & 0xff) as u8 == 0x4du8 && ((b >> 24) & 0xff) as u8 == 0x52u8 && (c & 0xff) as u8
        == 0x56u8 && ((c >> 8) & 0xff) as u8 == 0x4du8 && ((c >> 16) & 0xff) as u8 == 0x52u8
        && ((c >> 24) & 0xff) as u8 == 0x56u8 && (d & 0xff) as u8 == 0x4du8 && ((d >> 8)
        & 0xff) as u8 == 0x52u8 && ((d >> 16) & 0xff) as u8 == 0x56u8 && ((d >> 24) & 0xff) as u8
        == 0x4du8) by (bit_vector)
        requires
            b == 0x524d_5652u32,
            c == 0x5652_4d56u32,
            d == 0x4d56_524du32,
    ;
    assert(register_bytes(b, c, d) =~= seq![
        0x52u8,
        0x56u8,
        0x4du8,
        0x52u8,
        0x56u8,
        0x4du8,
        0x52u8,
        0x56u8,
        0x4du8,
        0x52u8,
        0x56u8,
        0x4du8,
    ]);
}

} // verus!

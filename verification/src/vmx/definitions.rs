//! Architectural numbers of VMX: exit reasons and control bits.

use vstd::prelude::*;

verus! {

/// Pin-based control: external interrupts cause VM exits.
pub const PIN_EXTERNAL_INTERRUPT_EXITING: u32 = 0x1;
/// Pin-based control: non-maskable interrupts cause VM exits.
pub const PIN_NMI_EXITING: u32 = 0x8;

/// Primary control: exit as soon as the guest can take an interrupt.
pub const CPU_INTERRUPT_WINDOW_EXITING: u32 = 0x4;
/// Primary control: loads of CR3 cause VM exits.
pub const CPU_CR3_LOAD_EXITING: u32 = 0x8000;
/// Primary control: stores of CR3 cause VM exits.
pub const CPU_CR3_STORE_EXITING: u32 = 0x1_0000;
/// Primary control: loads of CR8 cause VM exits.
pub const CPU_CR8_LOAD_EXITING: u32 = 0x8_0000;
/// Primary control: stores of CR8 cause VM exits.
pub const CPU_CR8_STORE_EXITING: u32 = 0x10_0000;
/// Primary control: every I/O instruction causes a VM exit.
pub const CPU_UNCOND_IO_EXITING: u32 = 0x100_0000;
/// Primary control: MSR accesses are filtered through the MSR bitmap.
pub const CPU_USE_MSR_BITMAPS: u32 = 0x1000_0000;
/// Primary control: the secondary controls are in use.
pub const CPU_SECONDARY_CONTROLS: u32 = 0x8000_0000;

/// Secondary control: extended page tables.
pub const CPU2_ENABLE_EPT: u32 = 0x2;
/// Secondary control: the guest may execute `RDTSCP`.
pub const CPU2_ENABLE_RDTSCP: u32 = 0x8;
/// Secondary control: the guest may run unpaged or in real mode.
pub const CPU2_UNRESTRICTED_GUEST: u32 = 0x80;
/// Secondary control: the guest may execute `INVPCID`.
pub const CPU2_ENABLE_INVPCID: u32 = 0x1000;
/// Secondary control: the guest may execute `XSAVES` and `XRSTORS`.
pub const CPU2_ENABLE_XSAVES_XRSTORS: u32 = 0x10_0000;

/// Exit control: the host runs in 64-bit mode after an exit.
pub const EXIT_HOST_ADDRESS_SPACE_SIZE: u32 = 0x200;
/// Exit control: an external interrupt is acknowledged at exit.
pub const EXIT_ACK_INTERRUPT_ON_EXIT: u32 = 0x8000;
/// Exit control: save the guest's `IA32_PAT`.
pub const EXIT_SAVE_IA32_PAT: u32 = 0x4_0000;
/// Exit control: load the host's `IA32_PAT`.
pub const EXIT_LOAD_IA32_PAT: u32 = 0x8_0000;
/// Exit control: save the guest's `IA32_EFER`.
pub const EXIT_SAVE_IA32_EFER: u32 = 0x10_0000;
/// Exit control: load the host's `IA32_EFER`.
pub const EXIT_LOAD_IA32_EFER: u32 = 0x20_0000;

/// Entry control: load the guest's `IA32_PAT`.
pub const ENTRY_LOAD_IA32_PAT: u32 = 0x4000;
/// Entry control: load the guest's `IA32_EFER`.
pub const ENTRY_LOAD_IA32_EFER: u32 = 0x8000;

/// `CR0.ET`.
pub const CR0_EXTENSION_TYPE: usize = 0x10;
/// `CR0.NE`.
pub const CR0_NUMERIC_ERROR: usize = 0x20;
/// `CR4.VMXE`.
pub const CR4_VIRTUAL_MACHINE_EXTENSIONS: usize = 0x2000;
/// `CR4.OSXSAVE`.
pub const CR4_OSXSAVE: usize = 0x4_0000;
/// `RFLAGS.IF`.
pub const RFLAGS_INTERRUPT_FLAG: u64 = 0x200;

/// The MSR that holds the local APIC's base address.
pub const IA32_APIC_BASE: u32 = 0x1b;
/// First MSR of the x2APIC range.
pub const X2APIC_MSR_FIRST: u32 = 0x800;
/// Last MSR of the x2APIC range.
pub const X2APIC_MSR_LAST: u32 = 0x83f;

/// Why the processor left the guest: the basic exit reasons that the
/// architecture defines.
#[allow(non_camel_case_types)]
#[derive(Clone, Copy, Debug, PartialEq, Eq, Structural)]
pub enum VmxExitReason {
    EXCEPTION_NMI,
    EXTERNAL_INTERRUPT,
    TRIPLE_FAULT,
    INIT,
    SIPI,
    SMI,
    OTHER_SMI,
    INTERRUPT_WINDOW,
    NMI_WINDOW,
    TASK_SWITCH,
    CPUID,
    GETSEC,
    HLT,
    INVD,
    INVLPG,
    RDPMC,
    RDTSC,
    RSM,
    VMCALL,
    VMCLEAR,
    VMLAUNCH,
    VMPTRLD,
    VMPTRST,
    VMREAD,
    VMRESUME,
    VMWRITE,
    VMOFF,
    VMON,
    CR_ACCESS,
    DR_ACCESS,
    IO_INSTRUCTION,
    MSR_READ,
    MSR_WRITE,
    INVALID_GUEST_STATE,
    MSR_LOAD_FAIL,
    MWAIT_INSTRUCTION,
    MONITOR_TRAP_FLAG,
    MONITOR_INSTRUCTION,
    PAUSE_INSTRUCTION,
    MCE_DURING_VMENTRY,
    TPR_BELOW_THRESHOLD,
    APIC_ACCESS,
    VIRTUALIZED_EOI,
    GDTR_IDTR,
    LDTR_TR,
    EPT_VIOLATION,
    EPT_MISCONFIG,
    INVEPT,
    RDTSCP,
    PREEMPTION_TIMER,
    INVVPID,
    WBINVD,
    XSETBV,
    APIC_WRITE,
    RDRAND,
    INVPCID,
    VMFUNC,
    ENCLS,
    RDSEED,
    PML_FULL,
    XSAVES,
    XRSTORS,
    PCONFIG,
    SPP_EVENT,
    UMWAIT,
    TPAUSE,
    LOADIWKEY,
}

impl VmxExitReason {
    /// The reason that the architecture numbers `raw`, if it defines one.
    pub open spec fn of_raw(raw: u32) -> Option<VmxExitReason> {
        match raw {
            0 => Some(VmxExitReason::EXCEPTION_NMI),
            1 => Some(VmxExitReason::EXTERNAL_INTERRUPT),
            2 => Some(VmxExitReason::TRIPLE_FAULT),
            3 => Some(VmxExitReason::INIT),
            4 => Some(VmxExitReason::SIPI),
            5 => Some(VmxExitReason::SMI),
            6 => Some(VmxExitReason::OTHER_SMI),
            7 => Some(VmxExitReason::INTERRUPT_WINDOW),
            8 => Some(VmxExitReason::NMI_WINDOW),
            9 => Some(VmxExitReason::TASK_SWITCH),
            10 => Some(VmxExitReason::CPUID),
            11 => Some(VmxExitReason::GETSEC),
            12 => Some(VmxExitReason::HLT),
            13 => Some(VmxExitReason::INVD),
            14 => Some(VmxExitReason::INVLPG),
            15 => Some(VmxExitReason::RDPMC),
            16 => Some(VmxExitReason::RDTSC),
            17 => Some(VmxExitReason::RSM),
            18 => Some(VmxExitReason::VMCALL),
            19 => Some(VmxExitReason::VMCLEAR),
            20 => Some(VmxExitReason::VMLAUNCH),
            21 => Some(VmxExitReason::VMPTRLD),
            22 => Some(VmxExitReason::VMPTRST),
            23 => Some(VmxExitReason::VMREAD),
            24 => Some(VmxExitReason::VMRESUME),
            25 => Some(VmxExitReason::VMWRITE),
            26 => Some(VmxExitReason::VMOFF),
            27 => Some(VmxExitReason::VMON),
            28 => Some(VmxExitReason::CR_ACCESS),
            29 => Some(VmxExitReason::DR_ACCESS),
            30 => Some(VmxExitReason::IO_INSTRUCTION),
            31 => Some(VmxExitReason::MSR_READ),
            32 => Some(VmxExitReason::MSR_WRITE),
            33 => Some(VmxExitReason::INVALID_GUEST_STATE),
            34 => Some(VmxExitReason::MSR_LOAD_FAIL),
            36 => Some(VmxExitReason::MWAIT_INSTRUCTION),
            37 => Some(VmxExitReason::MONITOR_TRAP_FLAG),
            39 => Some(VmxExitReason::MONITOR_INSTRUCTION),
            40 => Some(VmxExitReason::PAUSE_INSTRUCTION),
            41 => Some(VmxExitReason::MCE_DURING_VMENTRY),
            43 => Some(VmxExitReason::TPR_BELOW_THRESHOLD),
            44 => Some(VmxExitReason::APIC_ACCESS),
            45 => Some(VmxExitReason::VIRTUALIZED_EOI),
            46 => Some(VmxExitReason::GDTR_IDTR),
            47 => Some(VmxExitReason::LDTR_TR),
            48 => Some(VmxExitReason::EPT_VIOLATION),
            49 => Some(VmxExitReason::EPT_MISCONFIG),
            50 => Some(VmxExitReason::INVEPT),
            51 => Some(VmxExitReason::RDTSCP),
            52 => Some(VmxExitReason::PREEMPTION_TIMER),
            53 => Some(VmxExitReason::INVVPID),
            54 => Some(VmxExitReason::WBINVD),
            55 => Some(VmxExitReason::XSETBV),
            56 => Some(VmxExitReason::APIC_WRITE),
            57 => Some(VmxExitReason::RDRAND),
            58 => Some(VmxExitReason::INVPCID),
            59 => Some(VmxExitReason::VMFUNC),
            60 => Some(VmxExitReason::ENCLS),
            61 => Some(VmxExitReason::RDSEED),
            62 => Some(VmxExitReason::PML_FULL),
            63 => Some(VmxExitReason::XSAVES),
            64 => Some(VmxExitReason::XRSTORS),
            65 => Some(VmxExitReason::PCONFIG),
            66 => Some(VmxExitReason::SPP_EVENT),
            67 => Some(VmxExitReason::UMWAIT),
            68 => Some(VmxExitReason::TPAUSE),
            69 => Some(VmxExitReason::LOADIWKEY),
            _ => None,
        }
    }

    /// Reads a basic exit reason from its architectural number.
    pub fn from_raw(raw: u32) -> (r: Option<VmxExitReason>)
        ensures
            r == VmxExitReason::of_raw(raw),
    {
        match raw {
            0 => Some(VmxExitReason::EXCEPTION_NMI),
            1 => Some(VmxExitReason::EXTERNAL_INTERRUPT),
            2 => Some(VmxExitReason::TRIPLE_FAULT),
            3 => Some(VmxExitReason::INIT),
            4 => Some(VmxExitReason::SIPI),
            5 => Some(VmxExitReason::SMI),
            6 => Some(VmxExitReason::OTHER_SMI),
            7 => Some(VmxExitReason::INTERRUPT_WINDOW),
            8 => Some(VmxExitReason::NMI_WINDOW),
            9 => Some(VmxExitReason::TASK_SWITCH),
            10 => Some(VmxExitReason::CPUID),
            11 => Some(VmxExitReason::GETSEC),
            12 => Some(VmxExitReason::HLT),
            13 => Some(VmxExitReason::INVD),
            14 => Some(VmxExitReason::INVLPG),
            15 => Some(VmxExitReason::RDPMC),
            16 => Some(VmxExitReason::RDTSC),
            17 => Some(VmxExitReason::RSM),
            18 => Some(VmxExitReason::VMCALL),
            19 => Some(VmxExitReason::VMCLEAR),
            20 => Some(VmxExitReason::VMLAUNCH),
            21 => Some(VmxExitReason::VMPTRLD),
            22 => Some(VmxExitReason::VMPTRST),
            23 => Some(VmxExitReason::VMREAD),
            24 => Some(VmxExitReason::VMRESUME),
            25 => Some(VmxExitReason::VMWRITE),
            26 => Some(VmxExitReason::VMOFF),
            27 => Some(VmxExitReason::VMON),
            28 => Some(VmxExitReason::CR_ACCESS),
            29 => Some(VmxExitReason::DR_ACCESS),
            30 => Some(VmxExitReason::IO_INSTRUCTION),
            31 => Some(VmxExitReason::MSR_READ),
            32 => Some(VmxExitReason::MSR_WRITE),
            33 => Some(VmxExitReason::INVALID_GUEST_STATE),
            34 => Some(VmxExitReason::MSR_LOAD_FAIL),
            36 => Some(VmxExitReason::MWAIT_INSTRUCTION),
            37 => Some(VmxExitReason::MONITOR_TRAP_FLAG),
            39 => Some(VmxExitReason::MONITOR_INSTRUCTION),
            40 => Some(VmxExitReason::PAUSE_INSTRUCTION),
            41 => Some(VmxExitReason::MCE_DURING_VMENTRY),
            43 => Some(VmxExitReason::TPR_BELOW_THRESHOLD),
            44 => Some(VmxExitReason::APIC_ACCESS),
            45 => Some(VmxExitReason::VIRTUALIZED_EOI),
            46 => Some(VmxExitReason::GDTR_IDTR),
            47 => Some(VmxExitReason::LDTR_TR),
            48 => Some(VmxExitReason::EPT_VIOLATION),
            49 => Some(VmxExitReason::EPT_MISCONFIG),
            50 => Some(VmxExitReason::INVEPT),
            51 => Some(VmxExitReason::RDTSCP),
            52 => Some(VmxExitReason::PREEMPTION_TIMER),
            53 => Some(VmxExitReason::INVVPID),
            54 => Some(VmxExitReason::WBINVD),
            55 => Some(VmxExitReason::XSETBV),
            56 => Some(VmxExitReason::APIC_WRITE),
            57 => Some(VmxExitReason::RDRAND),
            58 => Some(VmxExitReason::INVPCID),
            59 => Some(VmxExitReason::VMFUNC),
            60 => Some(VmxExitReason::ENCLS),
            61 => Some(VmxExitReason::RDSEED),
            62 => Some(VmxExitReason::PML_FULL),
            63 => Some(VmxExitReason::XSAVES),
            64 => Some(VmxExitReason::XRSTORS),
            65 => Some(VmxExitReason::PCONFIG),
            66 => Some(VmxExitReason::SPP_EVENT),
            67 => Some(VmxExitReason::UMWAIT),
            68 => Some(VmxExitReason::TPAUSE),
            69 => Some(VmxExitReason::LOADIWKEY),
            _ => None,
        }
    }
}

} // verus!

//! The VMX control block as plain values.
//!
//! [`Vmcs`] holds the fields of the control block that this core programs or
//! reads. Nothing here touches the processor: the embedding code writes the
//! fields to the current control block before an entry, and reads the guest
//! state and the exit fields back after an exit.

use vstd::prelude::*;
use crate::error::HyperError;
use crate::vmx::definitions::VmxExitReason;

verus! {

/// One segment register as the control block describes it.
#[derive(Clone, Copy, Debug, PartialEq, Eq, Structural)]
pub struct Segment {
    pub selector: u16,
    pub base: usize,
    pub limit: u32,
    pub access_rights: u32,
}

/// The guest-state area.
#[derive(Clone, Copy, Debug, PartialEq, Eq, Structural)]
pub struct GuestState {
    pub es: Segment,
    pub cs: Segment,
    pub ss: Segment,
    pub ds: Segment,
    pub fs: Segment,
    pub gs: Segment,
    pub tr: Segment,
    pub ldtr: Segment,
    pub gdtr_base: usize,
    pub gdtr_limit: u32,
    pub idtr_base: usize,
    pub idtr_limit: u32,
    pub cr0: usize,
    pub cr3: usize,
    pub cr4: usize,
    pub dr7: usize,
    pub rsp: usize,
    pub rip: usize,
    pub rflags: usize,
    pub pending_dbg_exceptions: usize,
    pub ia32_sysenter_esp: usize,
    pub ia32_sysenter_eip: usize,
    pub ia32_sysenter_cs: u32,
    pub interruptibility_state: u32,
    pub activity_state: u32,
    pub vmx_preemption_timer_value: u32,
    pub link_ptr: u64,
    pub ia32_debugctl: u64,
    pub ia32_pat: u64,
    pub ia32_efer: u64,
}

/// The host-state area: what the processor loads on every exit.
#[derive(Clone, Copy, Debug, PartialEq, Eq, Structural)]
pub struct HostState {
    pub ia32_pat: u64,
    pub ia32_efer: u64,
    pub cr0: usize,
    pub cr3: usize,
    pub cr4: usize,
    pub es_selector: u16,
    pub cs_selector: u16,
    pub ss_selector: u16,
    pub ds_selector: u16,
    pub fs_selector: u16,
    pub gs_selector: u16,
    pub tr_selector: u16,
    pub fs_base: usize,
    pub gs_base: usize,
    pub tr_base: usize,
    pub gdtr_base: usize,
    pub idtr_base: usize,
    pub rip: usize,
    pub rsp: usize,
    pub ia32_sysenter_esp: usize,
    pub ia32_sysenter_eip: usize,
    pub ia32_sysenter_cs: u32,
}

/// The control fields: which events exit, and what an entry injects.
#[derive(Clone, Copy, Debug, PartialEq, Eq, Structural)]
pub struct Controls {
    pub pinbased_exec_controls: u32,
    pub primary_procbased_exec_controls: u32,
    pub secondary_procbased_exec_controls: u32,
    pub vmexit_controls: u32,
    pub vmentry_controls: u32,
    pub cr0_guest_host_mask: usize,
    pub cr0_read_shadow: usize,
    pub cr4_guest_host_mask: usize,
    pub cr4_read_shadow: usize,
    pub eptp: u64,
    pub vmexit_msr_store_count: u32,
    pub vmexit_msr_load_count: u32,
    pub vmentry_msr_load_count: u32,
    pub exception_bitmap: u32,
    pub io_bitmap_a_addr: u64,
    pub io_bitmap_b_addr: u64,
    pub msr_bitmaps_addr: u64,
    pub vmentry_interruption_info: u32,
    pub vmentry_exception_err_code: u32,
    pub vmentry_instruction_len: u32,
}

/// The read-only fields that describe the last exit.
#[derive(Clone, Copy, Debug, PartialEq, Eq, Structural)]
pub struct ExitFields {
    pub exit_reason: u32,
    pub vmexit_instruction_len: u32,
    pub vmexit_interruption_info: u32,
    pub vmexit_interruption_err_code: u32,
    pub exit_qualification: usize,
    pub guest_physical_addr: usize,
    pub vm_instruction_error: u32,
}

/// The control block of one virtual CPU.
#[derive(Clone, Copy, Debug, PartialEq, Eq, Structural)]
pub struct Vmcs {
    pub guest: GuestState,
    pub host: HostState,
    pub control: Controls,
    pub exit: ExitFields,
}

impl Segment {
    /// A segment with selector 0, base 0, the given limit and access rights.
    pub open spec fn flat(limit: u32, access_rights: u32) -> Segment {
        Segment { selector: 0, base: 0, limit, access_rights }
    }

    /// Builds a segment with selector 0 and base 0.
    pub fn new_flat(limit: u32, access_rights: u32) -> (r: Segment)
        ensures
            r == Segment::flat(limit, access_rights),
    {
        Segment { selector: 0, base: 0, limit, access_rights }
    }
}

impl GuestState {
    /// The guest-state area with every field zero.
    pub open spec fn zero() -> GuestState {
        GuestState {
            es: Segment::flat(0, 0),
            cs: Segment::flat(0, 0),
            ss: Segment::flat(0, 0),
            ds: Segment::flat(0, 0),
            fs: Segment::flat(0, 0),
            gs: Segment::flat(0, 0),
            tr: Segment::flat(0, 0),
            ldtr: Segment::flat(0, 0),
            gdtr_base: 0,
            gdtr_limit: 0,
            idtr_base: 0,
            idtr_limit: 0,
            cr0: 0,
            cr3: 0,
            cr4: 0,
            dr7: 0,
            rsp: 0,
            rip: 0,
            rflags: 0,
            pending_dbg_exceptions: 0,
            ia32_sysenter_esp: 0,
            ia32_sysenter_eip: 0,
            ia32_sysenter_cs: 0,
            interruptibility_state: 0,
            activity_state: 0,
            vmx_preemption_timer_value: 0,
            link_ptr: 0,
            ia32_debugctl: 0,
            ia32_pat: 0,
            ia32_efer: 0,
        }
    }
}

impl HostState {
    /// The host-state area with every field zero.
    pub open spec fn zero() -> HostState {
        HostState {
            ia32_pat: 0,
            ia32_efer: 0,
            cr0: 0,
            cr3: 0,
            cr4: 0,
            es_selector: 0,
            cs_selector: 0,
            ss_selector: 0,
            ds_selector: 0,
            fs_selector: 0,
            gs_selector: 0,
            tr_selector: 0,
            fs_base: 0,
            gs_base: 0,
            tr_base: 0,
            gdtr_base: 0,
            idtr_base: 0,
            rip: 0,
            rsp: 0,
            ia32_sysenter_esp: 0,
            ia32_sysenter_eip: 0,
            ia32_sysenter_cs: 0,
        }
    }
}

impl Controls {
    /// The control fields with every field zero.
    pub open spec fn zero() -> Controls {
        Controls {
            pinbased_exec_controls: 0,
            primary_procbased_exec_controls: 0,
            secondary_procbased_exec_controls: 0,
            vmexit_controls: 0,
            vmentry_controls: 0,
            cr0_guest_host_mask: 0,
            cr0_read_shadow: 0,
            cr4_guest_host_mask: 0,
            cr4_read_shadow: 0,
            eptp: 0,
            vmexit_msr_store_count: 0,
            vmexit_msr_load_count: 0,
            vmentry_msr_load_count: 0,
            exception_bitmap: 0,
            io_bitmap_a_addr: 0,
            io_bitmap_b_addr: 0,
            msr_bitmaps_addr: 0,
            vmentry_interruption_info: 0,
            vmentry_exception_err_code: 0,
            vmentry_instruction_len: 0,
        }
    }
}

impl ExitFields {
    /// The exit fields before any exit has happened.
    pub open spec fn zero() -> ExitFields {
        ExitFields {
            exit_reason: 0,
            vmexit_instruction_len: 0,
            vmexit_interruption_info: 0,
            vmexit_interruption_err_code: 0,
            exit_qualification: 0,
            guest_physical_addr: 0,
            vm_instruction_error: 0,
        }
    }
}

impl Vmcs {
    /// A cleared control block: every field zero.
    pub open spec fn zero() -> Vmcs {
        Vmcs {
            guest: GuestState::zero(),
            host: HostState::zero(),
            control: Controls::zero(),
            exit: ExitFields::zero(),
        }
    }

    /// Builds a cleared control block.
    pub fn new() -> (r: Vmcs)
        ensures
            r == Vmcs::zero(),
    {
        let seg = Segment::new_flat(0, 0);
        Vmcs {
            guest: GuestState {
                es: seg,
                cs: seg,
                ss: seg,
                ds: seg,
                fs: seg,
                gs: seg,
                tr: seg,
                ldtr: seg,
                gdtr_base: 0,
                gdtr_limit: 0,
                idtr_base: 0,
                idtr_limit: 0,
                cr0: 0,
                cr3: 0,
                cr4: 0,
                dr7: 0,
                rsp: 0,
                rip: 0,
                rflags: 0,
                pending_dbg_exceptions: 0,
                ia32_sysenter_esp: 0,
                ia32_sysenter_eip: 0,
                ia32_sysenter_cs: 0,
                interruptibility_state: 0,
                activity_state: 0,
                vmx_preemption_timer_value: 0,
                link_ptr: 0,
                ia32_debugctl: 0,
                ia32_pat: 0,
                ia32_efer: 0,
            },
            host: HostState {
                ia32_pat: 0,
                ia32_efer: 0,
                cr0: 0,
                cr3: 0,
                cr4: 0,
                es_selector: 0,
                cs_selector: 0,
                ss_selector: 0,
                ds_selector: 0,
                fs_selector: 0,
                gs_selector: 0,
                tr_selector: 0,
                fs_base: 0,
                gs_base: 0,
                tr_base: 0,
                gdtr_base: 0,
                idtr_base: 0,
                rip: 0,
                rsp: 0,
                ia32_sysenter_esp: 0,
                ia32_sysenter_eip: 0,
                ia32_sysenter_cs: 0,
            },
            control: Controls {
                pinbased_exec_controls: 0,
                primary_procbased_exec_controls: 0,
                secondary_procbased_exec_controls: 0,
                vmexit_controls: 0,
                vmentry_controls: 0,
                cr0_guest_host_mask: 0,
                cr0_read_shadow: 0,
                cr4_guest_host_mask: 0,
                cr4_read_shadow: 0,
                eptp: 0,
                vmexit_msr_store_count: 0,
                vmexit_msr_load_count: 0,
                vmentry_msr_load_count: 0,
                exception_bitmap: 0,
                io_bitmap_a_addr: 0,
                io_bitmap_b_addr: 0,
                msr_bitmaps_addr: 0,
                vmentry_interruption_info: 0,
                vmentry_exception_err_code: 0,
                vmentry_instruction_len: 0,
            },
            exit: ExitFields {
                exit_reason: 0,
                vmexit_instruction_len: 0,
                vmexit_interruption_info: 0,
                vmexit_interruption_err_code: 0,
                exit_qualification: 0,
                guest_physical_addr: 0,
                vm_instruction_error: 0,
            },
        }
    }
}

/// Basic information about a VM exit.
#[derive(Clone, Copy, Debug, PartialEq, Eq, Structural)]
pub struct VmxExitInfo {
    /// Whether the exit reports a failed VM entry.
    pub entry_failure: bool,
    /// The basic exit reason.
    pub exit_reason: VmxExitReason,
    /// Length in bytes of the instruction that caused the exit, where one did.
    pub exit_instruction_length: u32,
    /// The guest's `RIP` at the exit.
    pub guest_rip: usize,
}

/// The kind of an event, as the interruption-information fields number it.
#[derive(Clone, Copy, Debug, PartialEq, Eq, Structural)]
pub enum VmxInterruptionType {
    /// External interrupt.
    External,
    /// The number that the architecture reserves.
    Reserved,
    /// Non-maskable interrupt.
    NMI,
    /// Hardware exception.
    HardException,
    /// Software interrupt (`INT n`).
    SoftIntr,
    /// Privileged software exception (`INT1`).
    PrivSoftException,
    /// Software exception (`INT3`, `INTO`).
    SoftException,
    /// Other event.
    Other,
}

impl VmxInterruptionType {
    /// The number of this kind in an interruption-information field.
    pub open spec fn number(self) -> u32 {
        match self {
            VmxInterruptionType::External => 0,
            VmxInterruptionType::Reserved => 1,
            VmxInterruptionType::NMI => 2,
            VmxInterruptionType::HardException => 3,
            VmxInterruptionType::SoftIntr => 4,
            VmxInterruptionType::PrivSoftException => 5,
            VmxInterruptionType::SoftException => 6,
            VmxInterruptionType::Other => 7,
        }
    }

    /// The kind with the given number, for a number below 8.
    pub open spec fn of_number(n: u32) -> VmxInterruptionType {
        if n == 0 {
            VmxInterruptionType::External
        } else if n == 1 {
            VmxInterruptionType::Reserved
        } else if n == 2 {
            VmxInterruptionType::NMI
        } else if n == 3 {
            VmxInterruptionType::HardException
        } else if n == 4 {
            VmxInterruptionType::SoftIntr
        } else if n == 5 {
            VmxInterruptionType::PrivSoftException
        } else if n == 6 {
            VmxInterruptionType::SoftException
        } else {
            VmxInterruptionType::Other
        }
    }

    /// Whether an exception with this vector pushes an error code: the double
    /// fault, invalid TSS, segment not present, stack fault, general
    /// protection, page fault and alignment check.
    pub open spec fn has_error_code(vector: u8) -> bool {
        vector == 8 || vector == 10 || vector == 11 || vector == 12 || vector == 13
            || vector == 14 || vector == 17
    }

    /// The kind of event that a vector stands for when it is injected.
    pub open spec fn of_vector(vector: u8) -> VmxInterruptionType {
        if vector == 1 {
            VmxInterruptionType::PrivSoftException
        } else if vector == 2 {
            VmxInterruptionType::NMI
        } else if vector == 3 || vector == 4 {
            VmxInterruptionType::SoftException
        } else if vector <= 21 {
            VmxInterruptionType::HardException
        } else if vector >= 32 {
            VmxInterruptionType::External
        } else {
            VmxInterruptionType::Other
        }
    }

    /// Whether an event of this kind comes from an instruction, so that an
    /// entry which injects it needs the instruction's length.
    pub open spec fn soft(self) -> bool {
        self == VmxInterruptionType::SoftIntr || self == VmxInterruptionType::SoftException
            || self == VmxInterruptionType::PrivSoftException
    }

    /// The number of this kind in an interruption-information field.
    pub fn as_number(self) -> (n: u32)
        ensures
            n == self.number(),
            n < 8,
    {
        match self {
            VmxInterruptionType::External => 0,
            VmxInterruptionType::Reserved => 1,
            VmxInterruptionType::NMI => 2,
            VmxInterruptionType::HardException => 3,
            VmxInterruptionType::SoftIntr => 4,
            VmxInterruptionType::PrivSoftException => 5,
            VmxInterruptionType::SoftException => 6,
            VmxInterruptionType::Other => 7,
        }
    }

    /// The kind with the given number; a number above 7 counts as 7.
    pub fn from_number(n: u32) -> (r: VmxInterruptionType)
        ensures
            r == VmxInterruptionType::of_number(n),
    {
        if n == 0 {
            VmxInterruptionType::External
        } else if n == 1 {
            VmxInterruptionType::Reserved
        } else if n == 2 {
            VmxInterruptionType::NMI
        } else if n == 3 {
            VmxInterruptionType::HardException
        } else if n == 4 {
            VmxInterruptionType::SoftIntr
        } else if n == 5 {
            VmxInterruptionType::PrivSoftException
        } else if n == 6 {
            VmxInterruptionType::SoftException
        } else {
            VmxInterruptionType::Other
        }
    }

    /// Whether an exception with this vector pushes an error code.
    pub fn vector_has_error_code(vector: u8) -> (r: bool)
        ensures
            r == VmxInterruptionType::has_error_code(vector),
    {
        vector == 8 || vector == 10 || vector == 11 || vector == 12 || vector == 13
            || vector == 14 || vector == 17
    }

    /// The kind of event that a vector stands for when it is injected.
    pub fn from_vector(vector: u8) -> (r: VmxInterruptionType)
        ensures
            r == VmxInterruptionType::of_vector(vector),
    {
        if vector == 1 {
            VmxInterruptionType::PrivSoftException
        } else if vector == 2 {
            VmxInterruptionType::NMI
        } else if vector == 3 || vector == 4 {
            VmxInterruptionType::SoftException
        } else if vector <= 21 {
            VmxInterruptionType::HardException
        } else if vector >= 32 {
            VmxInterruptionType::External
        } else {
            VmxInterruptionType::Other
        }
    }

    /// Whether an event of this kind comes from an instruction.
    pub fn is_soft(self) -> (r: bool)
        ensures
            r == self.soft(),
    {
        match self {
            VmxInterruptionType::SoftIntr => true,
            VmxInterruptionType::SoftException => true,
            VmxInterruptionType::PrivSoftException => true,
            _ => false,
        }
    }
}

/// An event as an interruption-information field describes it.
#[derive(Clone, Copy, Debug, PartialEq, Eq, Structural)]
pub struct VmxInterruptInfo {
    /// The kind of event.
    pub int_type: VmxInterruptionType,
    /// Its vector.
    pub vector: u8,
    /// Its error code, where it has one.
    pub err_code: Option<u32>,
    /// Whether the field is valid.
    pub valid: bool,
}

impl VmxInterruptInfo {
    /// The event to inject for a vector and an optional error code.
    pub open spec fn for_event(vector: u8, err_code: Option<u32>) -> VmxInterruptInfo {
        VmxInterruptInfo {
            int_type: VmxInterruptionType::of_vector(vector),
            vector,
            err_code,
            valid: true,
        }
    }

    /// The interruption-information word of this event: the vector in bits
    /// 0 to 7, the kind in bits 8 to 10, bit 11 where there is an error code,
    /// bit 31 where the event is valid.
    pub open spec fn word(self) -> u32 {
        (self.vector as u32) | (self.int_type.number() << 8) | (if self.err_code is Some {
            0x800u32
        } else {
            0u32
        }) | (if self.valid {
            0x8000_0000u32
        } else {
            0u32
        })
    }

    /// The event that an interruption-information word and the error-code
    /// field beside it describe.
    pub open spec fn of_word(word: u32, err_code: u32) -> VmxInterruptInfo {
        VmxInterruptInfo {
            int_type: VmxInterruptionType::of_number((word >> 8) & 0x7),
            vector: (word & 0xff) as u8,
            err_code: if word & 0x800 != 0 {
                Some(err_code)
            } else {
                None
            },
            valid: word & 0x8000_0000 != 0,
        }
    }

    /// The event to inject for a vector and an optional error code.
    pub fn from(vector: u8, err_code: Option<u32>) -> (r: VmxInterruptInfo)
        ensures
            r == VmxInterruptInfo::for_event(vector, err_code),
    {
        VmxInterruptInfo {
            int_type: VmxInterruptionType::from_vector(vector),
            vector,
            err_code,
            valid: true,
        }
    }

    /// The interruption-information word of this event.
    pub fn bits(&self) -> (r: u32)
        ensures
            r == self.word(),
    {
        let type_bits: u32 = self.int_type.as_number() << 8;
        let code_bit: u32 = if self.err_code.is_some() {
            0x800
        } else {
            0
        };
        let valid_bit: u32 = if self.valid {
            0x8000_0000
        } else {
            0
        };
        (self.vector as u32) | type_bits | code_bit | valid_bit
    }

    /// Reads an event from an interruption-information word and the
    /// error-code field beside it.
    pub fn from_bits(word: u32, err_code: u32) -> (r: VmxInterruptInfo)
        ensures
            r == VmxInterruptInfo::of_word(word, err_code),
    {
        VmxInterruptInfo {
            int_type: VmxInterruptionType::from_number((word >> 8) & 0x7),
            vector: (word & 0xff) as u8,
            err_code: if word & 0x800 != 0 {
                Some(err_code)
            } else {
                None
            },
            valid: word & 0x8000_0000 != 0,
        }
    }
}

/// An exit caused by an I/O instruction.
#[derive(Clone, Copy, Debug, PartialEq, Eq, Structural)]
pub struct VmxIoExitInfo {
    /// Size of the access in bytes.
    pub access_size: u8,
    /// Whether the instruction reads from the port.
    pub is_in: bool,
    /// Whether it is a string instruction.
    pub is_string: bool,
    /// Whether it carries a `REP` prefix.
    pub is_repeat: bool,
    /// The port.
    pub port: u16,
}

impl VmxIoExitInfo {
    /// What an exit qualification says of an I/O instruction: the size less
    /// one in bits 0 to 2, the direction in bit 3, string in bit 4, `REP` in
    /// bit 5, the port in bits 16 to 31.
    pub open spec fn of_qualification(q: usize) -> VmxIoExitInfo {
        VmxIoExitInfo {
            access_size: (((q & 0x7) as u8) + 1) as u8,
            is_in: q & 0x8 != 0,
            is_string: q & 0x10 != 0,
            is_repeat: q & 0x20 != 0,
            port: ((q >> 16) & 0xffff) as u16,
        }
    }

    /// Reads the description of an I/O instruction from an exit qualification.
    pub fn from_qualification(q: usize) -> (r: VmxIoExitInfo)
        ensures
            r == VmxIoExitInfo::of_qualification(q),
            1 <= r.access_size <= 8,
    {
        let size_less_one: u8 = (q & 0x7) as u8;
        assert(size_less_one <= 7) by (bit_vector)
            requires
                size_less_one == (q & 0x7) as u8,
        ;
        VmxIoExitInfo {
            access_size: size_less_one + 1,
            is_in: q & 0x8 != 0,
            is_string: q & 0x10 != 0,
            is_repeat: q & 0x20 != 0,
            port: ((q >> 16) & 0xffff) as u16,
        }
    }
}

/// The kinds of access that a nested page fault reports.
#[derive(Clone, Copy, Debug, PartialEq, Eq, Structural)]
pub struct AccessFlags {
    pub read: bool,
    pub write: bool,
    pub execute: bool,
}

/// An exit caused by a fault in the second-stage translation.
#[derive(Clone, Copy, Debug, PartialEq, Eq, Structural)]
pub struct NestedPageFaultInfo {
    /// What the guest tried to do.
    pub access_flags: AccessFlags,
    /// The guest-physical address that it touched.
    pub fault_guest_paddr: usize,
}

/// What the exit fields say of the last exit, where the exit reason is one
/// that the architecture defines.
pub open spec fn exit_info_of(vmcs: Vmcs) -> Option<VmxExitInfo> {
    match VmxExitReason::of_raw(vmcs.exit.exit_reason & 0xffff) {
        Some(reason) => Some(
            VmxExitInfo {
                entry_failure: vmcs.exit.exit_reason & 0x8000_0000 != 0,
                exit_reason: reason,
                exit_instruction_length: vmcs.exit.vmexit_instruction_len,
                guest_rip: vmcs.guest.rip,
            },
        ),
        None => None,
    }
}

/// What the exit fields say of a nested page fault: read, write and execute
/// in bits 0 to 2 of the qualification, and the faulting address.
pub open spec fn nested_page_fault_of(vmcs: Vmcs) -> NestedPageFaultInfo {
    NestedPageFaultInfo {
        access_flags: AccessFlags {
            read: vmcs.exit.exit_qualification & 0x1 != 0,
            write: vmcs.exit.exit_qualification & 0x2 != 0,
            execute: vmcs.exit.exit_qualification & 0x4 != 0,
        },
        fault_guest_paddr: vmcs.exit.guest_physical_addr,
    }
}

/// Bits of a capability word that the processor lets be 0 (a bit set here
/// must be 1 in the control).
pub open spec fn allowed0(capability: u64) -> u32 {
    capability as u32
}

/// Bits of a capability word that the processor lets be 1.
pub open spec fn allowed1(capability: u64) -> u32 {
    (capability >> 32) as u32
}

/// Why a control word cannot be had, if it cannot: setting and clearing one
/// bit is a contradiction; setting a bit that must be 0, or clearing one that
/// must be 1, the processor does not support.
pub open spec fn control_error(capability: u64, set: u32, clear: u32) -> Option<HyperError> {
    if set & clear != 0 {
        Some(HyperError::InvalidParam)
    } else if allowed1(capability) & set != set {
        Some(HyperError::NotSupported)
    } else if allowed0(capability) & clear != 0 {
        Some(HyperError::NotSupported)
    } else {
        None
    }
}

/// The control word that has the bits of `set`, lacks those of `clear`, has
/// every bit that the capability fixes to 1, and takes each remaining bit
/// that the capability leaves free from `old_value`.
pub open spec fn control_word(capability: u64, old_value: u32, set: u32, clear: u32) -> u32 {
    allowed0(capability) | ((!allowed0(capability) & allowed1(capability)) & !(set | clear)
        & old_value) | set
}

/// Computes a control word from a capability MSR: the bits of `set` on, the
/// bits of `clear` off, the others as the processor fixes them or, where it
/// leaves them free, as in `old_value`.
pub fn set_control(capability: u64, old_value: u32, set: u32, clear: u32) -> (r: Result<
    u32,
    HyperError,
>)
    ensures
        match control_error(capability, set, clear) {
            Some(e) => r == Err::<u32, HyperError>(e),
            None => r == Ok::<u32, HyperError>(control_word(capability, old_value, set, clear)),
        },
{
    let allowed0: u32 = capability as u32;
    let allowed1: u32 = (capability >> 32) as u32;
    if (set & clear) != 0 {
        return Err(HyperError::InvalidParam);
    }
    if (allowed1 & set) != set {
        return Err(HyperError::NotSupported);
    }
    if (allowed0 & clear) != 0 {
        return Err(HyperError::NotSupported);
    }
    let flexible: u32 = !allowed0 & allowed1;
    let unknown: u32 = flexible & !(set | clear);
    let default: u32 = unknown & old_value;
    let fixed1: u32 = allowed0;
    Ok(fixed1 | default | set)
}

/// A control word that `set_control` gives has every bit of `set`, none of
/// `clear`, and every bit that the processor fixes to 1.
pub proof fn lemma_control_word(capability: u64, old_value: u32, set: u32, clear: u32)
    requires
        control_error(capability, set, clear) is None,
    ensures
        control_word(capability, old_value, set, clear) & set == set,
        control_word(capability, old_value, set, clear) & clear == 0,
        control_word(capability, old_value, set, clear) & allowed0(capability) == allowed0(
            capability,
        ),
{
    let a0 = allowed0(capability);
    let a1 = allowed1(capability);
    assert({
        let w = a0 | ((!a0 & a1) & !(set | clear) & old_value) | set;
        w & set == set && w & clear == 0 && w & a0 == a0
    }) by (bit_vector)
        requires
            set & clear == 0,
            a0 & clear == 0,
    ;
}

/// The EPT pointer for a table root: the page-aligned root, write-back
/// memory type (6 in bits 0 to 2) and a walk of four levels (3 in bits 3 to 5).
pub open spec fn ept_pointer_of(root: usize) -> u64 {
    ((root & !0xfffusize) as u64) | 0x1e
}

/// Computes the EPT pointer for a table root.
pub fn ept_pointer(root: usize) -> (r: u64)
    ensures
        r == ept_pointer_of(root),
{
    ((root & !0xfffusize) as u64) | 0x1e
}

} // verus!

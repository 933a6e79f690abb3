//! A virtual CPU on VMX: its state, its setup, and what happens around every
//! guest run.

use std::collections::VecDeque;
use vstd::prelude::*;
use crate::bits::{bits_of, get_bits};
use crate::error::HyperError;
use crate::vmx::cpuid::{emulate, emulated, host_cpuid, query, query_of, CpuIdResult, CpuidQuery};
use crate::vmx::definitions::{
    VmxExitReason, CPU2_ENABLE_EPT, CPU2_ENABLE_INVPCID, CPU2_ENABLE_RDTSCP,
    CPU2_ENABLE_XSAVES_XRSTORS, CPU2_UNRESTRICTED_GUEST, CPU_CR3_LOAD_EXITING,
    CPU_CR3_STORE_EXITING, CPU_CR8_LOAD_EXITING, CPU_CR8_STORE_EXITING,
    CPU_INTERRUPT_WINDOW_EXITING, CPU_SECONDARY_CONTROLS, CPU_UNCOND_IO_EXITING,
    CPU_USE_MSR_BITMAPS, CR0_EXTENSION_TYPE, CR0_NUMERIC_ERROR, CR4_VIRTUAL_MACHINE_EXTENSIONS,
    ENTRY_LOAD_IA32_EFER, ENTRY_LOAD_IA32_PAT, EXIT_ACK_INTERRUPT_ON_EXIT,
    EXIT_HOST_ADDRESS_SPACE_SIZE, EXIT_LOAD_IA32_EFER, EXIT_LOAD_IA32_PAT, EXIT_SAVE_IA32_EFER,
    EXIT_SAVE_IA32_PAT, IA32_APIC_BASE, PIN_EXTERNAL_INTERRUPT_EXITING, PIN_NMI_EXITING,
    RFLAGS_INTERRUPT_FLAG, X2APIC_MSR_FIRST, X2APIC_MSR_LAST,
};
use crate::vmx::region::{MsrBitmap, VmxRegion, intercepts, msr_in_bitmap, MSR_BITMAP_SIZE};
use crate::vmx::regs::GeneralRegisters;
use crate::vmx::vmcs::{
    control_error, control_word, ept_pointer, ept_pointer_of, exit_info_of, nested_page_fault_of,
    set_control, AccessFlags, Controls, ExitFields, GuestState, HostState, NestedPageFaultInfo,
    Segment, Vmcs, VmxExitInfo, VmxInterruptInfo, VmxInterruptionType, VmxIoExitInfo,
};
use crate::vmx::xstate::{check_xcr0, xcr0_valid, XState};

verus! {

/// The capability MSRs that say which control bits the processor supports.
/// The low half of each names the bits that must be 1, the high half the bits
/// that may be 1.
#[derive(Clone, Copy, Debug, PartialEq, Eq, Structural)]
pub struct VmxCapabilities {
    pub pinbased_ctls: u64,
    pub true_pinbased_ctls: u64,
    pub procbased_ctls: u64,
    pub true_procbased_ctls: u64,
    pub procbased_ctls2: u64,
    pub exit_ctls: u64,
    pub true_exit_ctls: u64,
    pub entry_ctls: u64,
    pub true_entry_ctls: u64,
}

/// What a new virtual CPU takes over from the processor that creates it: the
/// live values of the host's registers, the pages set aside for it, and the
/// processor's capabilities.
#[derive(Clone, Copy, Debug, PartialEq, Eq, Structural)]
pub struct HostContext {
    /// The host's `XCR0`.
    pub xcr0: u64,
    /// The host's `IA32_XSS`.
    pub xss: u64,
    /// Physical address of the page for the control block.
    pub vmcs_phys_addr: usize,
    /// Physical address of the page for the MSR bitmap.
    pub msr_bitmap_phys_addr: usize,
    pub ia32_pat: u64,
    pub ia32_efer: u64,
    pub cr0: usize,
    pub cr3: usize,
    pub cr4: usize,
    pub es_selector: u16,
    pub cs_selector: u16,
    pub ss_selector: u16,
    pub ds_selector: u16,
    pub fs_selector: u16,
    pub gs_selector: u16,
    pub tr_selector: u16,
    pub fs_base: usize,
    pub gs_base: usize,
    /// Base of the task-state segment, as [`get_tr_base`] reads it from the
    /// descriptor table.
    pub tr_base: usize,
    pub gdtr_base: usize,
    pub idtr_base: usize,
    /// Address at which the processor continues after a VM exit.
    pub vmx_exit: usize,
    pub capabilities: VmxCapabilities,
}

/// Bits that the pin-based controls must have: exits on NMIs and on external
/// interrupts.
pub const PINBASED_SET: u32 = PIN_NMI_EXITING | PIN_EXTERNAL_INTERRUPT_EXITING;
/// Bits that the primary controls must have: exits on every I/O instruction,
/// the MSR bitmap, the secondary controls.
pub const PRIMARY_SET: u32 = CPU_UNCOND_IO_EXITING | CPU_USE_MSR_BITMAPS | CPU_SECONDARY_CONTROLS;
/// Bits that the primary controls must lack: exits on loads and stores of
/// CR3 and CR8.
pub const PRIMARY_CLEAR: u32 = CPU_CR3_LOAD_EXITING | CPU_CR3_STORE_EXITING | CPU_CR8_LOAD_EXITING
    | CPU_CR8_STORE_EXITING;
/// Bits that the secondary controls must have.
pub const SECONDARY_SET: u32 = CPU2_ENABLE_EPT | CPU2_ENABLE_RDTSCP | CPU2_ENABLE_INVPCID
    | CPU2_UNRESTRICTED_GUEST | CPU2_ENABLE_XSAVES_XRSTORS;
/// Bits that the exit controls must have.
pub const EXIT_SET: u32 = EXIT_HOST_ADDRESS_SPACE_SIZE | EXIT_ACK_INTERRUPT_ON_EXIT
    | EXIT_SAVE_IA32_PAT | EXIT_LOAD_IA32_PAT | EXIT_SAVE_IA32_EFER | EXIT_LOAD_IA32_EFER;
/// Bits that the entry controls must have.
pub const ENTRY_SET: u32 = ENTRY_LOAD_IA32_PAT | ENTRY_LOAD_IA32_EFER;
/// The exception bitmap: only the invalid-opcode exception (vector 6) exits.
pub const EXCEPTION_BITMAP: u32 = 0x40;
/// Length in bytes of `CPUID`.
pub const VM_EXIT_INSTR_LEN_CPUID: u8 = 2;
/// Length in bytes of `XSETBV`.
pub const VM_EXIT_INSTR_LEN_XSETBV: u8 = 3;

/// The host-state area that makes the processor return to `host` on an exit.
/// The stack pointer is not known before the first entry and stays as it is.
pub open spec fn host_state_of(host: HostContext, rsp: usize) -> HostState {
    HostState {
        ia32_pat: host.ia32_pat,
        ia32_efer: host.ia32_efer,
        cr0: host.cr0,
        cr3: host.cr3,
        cr4: host.cr4,
        es_selector: host.es_selector,
        cs_selector: host.cs_selector,
        ss_selector: host.ss_selector,
        ds_selector: host.ds_selector,
        fs_selector: host.fs_selector,
        gs_selector: host.gs_selector,
        tr_selector: host.tr_selector,
        fs_base: host.fs_base,
        gs_base: host.gs_base,
        tr_base: host.tr_base,
        gdtr_base: host.gdtr_base,
        idtr_base: host.idtr_base,
        rip: host.vmx_exit,
        rsp,
        ia32_sysenter_esp: 0,
        ia32_sysenter_eip: 0,
        ia32_sysenter_cs: 0,
    }
}

/// The state in which a guest starts: 16-bit segments with base 0 and limit
/// `0xffff`, paging off, `RIP` at `entry`, and the host's memory types.
pub open spec fn guest_state_at_reset(entry: usize, ia32_pat: u64) -> GuestState {
    GuestState {
        es: Segment::flat(0xffff, 0x93),
        cs: Segment::flat(0xffff, 0x9b),
        ss: Segment::flat(0xffff, 0x93),
        ds: Segment::flat(0xffff, 0x93),
        fs: Segment::flat(0xffff, 0x93),
        gs: Segment::flat(0xffff, 0x93),
        tr: Segment::flat(0xffff, 0x8b),
        ldtr: Segment::flat(0xffff, 0x82),
        gdtr_base: 0,
        gdtr_limit: 0xffff,
        idtr_base: 0,
        idtr_limit: 0xffff,
        cr0: CR0_EXTENSION_TYPE | CR0_NUMERIC_ERROR,
        cr3: 0,
        cr4: CR4_VIRTUAL_MACHINE_EXTENSIONS,
        dr7: 0x400,
        rsp: 0,
        rip: entry,
        rflags: 0x2,
        pending_dbg_exceptions: 0,
        ia32_sysenter_esp: 0,
        ia32_sysenter_eip: 0,
        ia32_sysenter_cs: 0,
        interruptibility_state: 0,
        activity_state: 0,
        vmx_preemption_timer_value: 0,
        link_ptr: u64::MAX,
        ia32_debugctl: 0,
        ia32_pat,
        ia32_efer: 0,
    }
}

/// The control fields after the guest state has been set up: the host owns
/// `CR0.NE` and `CR4.VMXE`, and the guest reads `CR4.VMXE` as 0.
pub open spec fn with_cr_shadows(c: Controls) -> Controls {
    Controls {
        cr0_guest_host_mask: CR0_NUMERIC_ERROR,
        cr0_read_shadow: CR0_NUMERIC_ERROR,
        cr4_guest_host_mask: CR4_VIRTUAL_MACHINE_EXTENSIONS,
        cr4_read_shadow: 0,
        ..c
    }
}

/// The first of the five control words that the processor cannot have as
/// this core wants it, with the reason; `None` where it supports them all.
pub open spec fn controls_error(caps: VmxCapabilities) -> Option<(int, HyperError)> {
    if control_error(caps.true_pinbased_ctls, PINBASED_SET, 0) is Some {
        Some((0, control_error(caps.true_pinbased_ctls, PINBASED_SET, 0).unwrap()))
    } else if control_error(caps.true_procbased_ctls, PRIMARY_SET, PRIMARY_CLEAR) is Some {
        Some((1, control_error(caps.true_procbased_ctls, PRIMARY_SET, PRIMARY_CLEAR).unwrap()))
    } else if control_error(caps.procbased_ctls2, SECONDARY_SET, 0) is Some {
        Some((2, control_error(caps.procbased_ctls2, SECONDARY_SET, 0).unwrap()))
    } else if control_error(caps.true_exit_ctls, EXIT_SET, 0) is Some {
        Some((3, control_error(caps.true_exit_ctls, EXIT_SET, 0).unwrap()))
    } else if control_error(caps.true_entry_ctls, ENTRY_SET, 0) is Some {
        Some((4, control_error(caps.true_entry_ctls, ENTRY_SET, 0).unwrap()))
    } else {
        None
    }
}

/// The control fields with the first `n` of the five control words written:
/// pin-based, primary, secondary, exit, entry, in this order.
pub open spec fn with_control_words(c: Controls, caps: VmxCapabilities, n: int) -> Controls {
    Controls {
        pinbased_exec_controls: if n > 0 {
            control_word(caps.true_pinbased_ctls, caps.pinbased_ctls as u32, PINBASED_SET, 0)
        } else {
            c.pinbased_exec_controls
        },
        primary_procbased_exec_controls: if n > 1 {
            control_word(
                caps.true_procbased_ctls,
                caps.procbased_ctls as u32,
                PRIMARY_SET,
                PRIMARY_CLEAR,
            )
        } else {
            c.primary_procbased_exec_controls
        },
        secondary_procbased_exec_controls: if n > 2 {
            control_word(caps.procbased_ctls2, 0, SECONDARY_SET, 0)
        } else {
            c.secondary_procbased_exec_controls
        },
        vmexit_controls: if n > 3 {
            control_word(caps.true_exit_ctls, caps.exit_ctls as u32, EXIT_SET, 0)
        } else {
            c.vmexit_controls
        },
        vmentry_controls: if n > 4 {
            control_word(caps.true_entry_ctls, caps.entry_ctls as u32, ENTRY_SET, 0)
        } else {
            c.vmentry_controls
        },
        ..c
    }
}

/// The control fields after a complete setup: the five control words, the EPT
/// pointer for `ept_root`, no MSR switching, exits on the invalid-opcode
/// exception only, no I/O bitmaps, and the MSR bitmap at `msr_bitmap_addr`.
pub open spec fn controls_programmed(
    c: Controls,
    caps: VmxCapabilities,
    ept_root: usize,
    msr_bitmap_addr: usize,
) -> Controls {
    Controls {
        eptp: ept_pointer_of(ept_root),
        vmexit_msr_store_count: 0,
        vmexit_msr_load_count: 0,
        vmentry_msr_load_count: 0,
        exception_bitmap: EXCEPTION_BITMAP,
        io_bitmap_a_addr: 0,
        io_bitmap_b_addr: 0,
        msr_bitmaps_addr: msr_bitmap_addr as u64,
        ..with_control_words(c, caps, 5)
    }
}

/// `rip` moved forward by `n` bytes, wrapping round at the end of the
/// address space as the processor does.
pub open spec fn advanced(rip: usize, n: u8) -> usize {
    if rip + n > usize::MAX {
        (rip + n - usize::MAX - 1) as usize
    } else {
        (rip + n) as usize
    }
}

/// How the processor is to enter the guest.
#[derive(Clone, Copy, Debug, PartialEq, Eq, Structural)]
pub enum EntryKind {
    /// The first entry of a virtual CPU.
    Launch,
    /// Every later entry.
    Resume,
}

/// Why a VM exit cannot be dealt with at all.
#[derive(Clone, Copy, Debug, PartialEq, Eq, Structural)]
pub enum FatalExit {
    /// The exit reason is none that the architecture defines.
    UnknownExitReason(u32),
    /// The processor refused the VM entry.
    EntryFailure(VmxExitInfo),
    /// The guest touched a control register that it owns by setup.
    CrAccess(VmxExitInfo),
    /// A built-in handler failed.
    HandlerFailed(VmxExitInfo, HyperError),
}

/// What became of a VM exit.
#[derive(Clone, Copy, Debug, PartialEq, Eq, Structural)]
pub enum ExitOutcome {
    /// The virtual CPU dealt with it; the guest can be entered again.
    Handled,
    /// It is left to the caller.
    Unhandled(VmxExitInfo),
    /// The guest has executed `CPUID`, and the host processor has the
    /// answer: the caller makes the query and hands the answer to
    /// [`VmxVcpu::complete_cpuid`].
    Cpuid(CpuidQuery),
    /// It cannot be dealt with: the virtual CPU must not run on.
    Fatal(FatalExit),
}

/// The state of a virtual CPU as contracts speak of it.
pub struct VcpuView {
    pub guest_regs: GeneralRegisters,
    pub host_stack_top: u64,
    pub vcpu_id: usize,
    /// Whether the guest has run: false only before the first successful
    /// entry.
    pub launched: bool,
    /// Whether an entry has been prepared whose exit has not been taken over
    /// yet.
    pub entering: bool,
    /// Whether the control block is current on the processor.
    pub bound: bool,
    pub region: VmxRegion,
    pub vmcs: Vmcs,
    pub msr_bitmap: Seq<u8>,
    pub msr_bitmap_addr: usize,
    pub pending_events: Seq<(u8, Option<u32>)>,
    pub xstate: XState,
}

/// A virtual CPU within a guest.
#[derive(Debug)]
pub struct VmxVcpu {
    guest_regs: GeneralRegisters,
    host_stack_top: u64,
    vcpu_id: usize,
    launched: bool,
    entering: bool,
    bound: bool,
    region: VmxRegion,
    vmcs: Vmcs,
    msr_bitmap: MsrBitmap,
    pending_events: VecDeque<(u8, Option<u32>)>,
    xstate: XState,
}

impl View for VmxVcpu {
    type V = VcpuView;

    closed spec fn view(&self) -> VcpuView {
        VcpuView {
            guest_regs: self.guest_regs,
            host_stack_top: self.host_stack_top,
            vcpu_id: self.vcpu_id,
            launched: self.launched,
            entering: self.entering,
            bound: self.bound,
            region: self.region,
            vmcs: self.vmcs,
            msr_bitmap: self.msr_bitmap@,
            msr_bitmap_addr: self.msr_bitmap.addr(),
            pending_events: self.pending_events@,
            xstate: self.xstate,
        }
    }
}

impl VcpuView {
    /// The state with the control block replaced.
    pub open spec fn with_vmcs(self, vmcs: Vmcs) -> VcpuView {
        VcpuView { vmcs, ..self }
    }

    /// The state with the guest's `RIP` moved forward by `n` bytes.
    pub open spec fn with_rip_advanced(self, n: u8) -> VcpuView {
        self.with_vmcs(
            Vmcs {
                guest: GuestState { rip: advanced(self.vmcs.guest.rip, n), ..self.vmcs.guest },
                ..self.vmcs
            },
        )
    }

    /// The state with interrupt-window exiting switched on or off.
    pub open spec fn with_interrupt_window(self, enable: bool) -> VcpuView {
        self.with_vmcs(
            Vmcs {
                control: Controls {
                    primary_procbased_exec_controls: if enable {
                        self.vmcs.control.primary_procbased_exec_controls
                            | CPU_INTERRUPT_WINDOW_EXITING
                    } else {
                        self.vmcs.control.primary_procbased_exec_controls
                            & !CPU_INTERRUPT_WINDOW_EXITING
                    },
                    ..self.vmcs.control
                },
                ..self.vmcs
            },
        )
    }

    /// Whether the guest would take an interrupt now: `RFLAGS.IF` is set and
    /// nothing blocks interrupts.
    pub open spec fn allows_interrupt(self) -> bool {
        (self.vmcs.guest.rflags as u64) & RFLAGS_INTERRUPT_FLAG != 0
            && self.vmcs.guest.interruptibility_state == 0
    }
}

/// Whether `msr` belongs to the local APIC: its base-address MSR, or one of
/// the x2APIC range.
pub open spec fn apic_msr(msr: u32) -> bool {
    msr == IA32_APIC_BASE || (X2APIC_MSR_FIRST <= msr && msr <= X2APIC_MSR_LAST)
}

impl VmxVcpu {
    /// Whether the MSR bitmap is one page long.
    pub open spec fn wf(&self) -> bool {
        self@.msr_bitmap.len() == MSR_BITMAP_SIZE
    }

    /// Get the identifier of this virtual CPU.
    pub fn vcpu_id(&self) -> (r: usize)
        ensures
            r == self@.vcpu_id,
    {
        self.vcpu_id
    }

    /// Whether the first entry has been made.
    pub fn launched(&self) -> (r: bool)
        ensures
            r == self@.launched,
    {
        self.launched
    }

    /// Whether the control block is current on the processor.
    pub fn is_bound(&self) -> (r: bool)
        ensures
            r == self@.bound,
    {
        self.bound
    }

    /// Where the control block lives.
    pub fn region(&self) -> (r: VmxRegion)
        ensures
            r == self@.region,
    {
        self.region
    }

    /// The control block as this virtual CPU has programmed it.
    pub fn vmcs(&self) -> (r: &Vmcs)
        ensures
            *r == self@.vmcs,
    {
        &self.vmcs
    }

    /// The MSR bitmap of this virtual CPU.
    pub fn msr_bitmap(&self) -> (r: &MsrBitmap)
        ensures
            r@ == self@.msr_bitmap,
            r.addr() == self@.msr_bitmap_addr,
    {
        &self.msr_bitmap
    }

    /// The extended-state registers of host and guest.
    pub fn xstate(&self) -> (r: XState)
        ensures
            r == self@.xstate,
    {
        self.xstate
    }

    /// Number of events that wait to be injected.
    pub fn pending_event_count(&self) -> (r: usize)
        ensures
            r == self@.pending_events.len(),
    {
        self.pending_events.len()
    }

    /// Records that the control block has become current on the processor.
    pub fn bind_to_current_processor(&mut self)
        ensures
            final(self)@ == (VcpuView { bound: true, ..old(self)@ }),
    {
        self.bound = true;
    }

    /// Records that the control block has been cleared from the processor.
    pub fn unbind_from_current_processor(&mut self)
        ensures
            final(self)@ == (VcpuView { bound: false, ..old(self)@ }),
    {
        self.bound = false;
    }

    /// Guest general-purpose registers.
    pub fn regs(&self) -> (r: &GeneralRegisters)
        ensures
            *r == self@.guest_regs,
    {
        &self.guest_regs
    }

    /// Mutable reference of guest general-purpose registers.
    pub fn regs_mut(&mut self) -> (r: &mut GeneralRegisters)
        ensures
            *r == old(self)@.guest_regs,
            final(self)@ == (VcpuView { guest_regs: *final(r), ..old(self)@ }),
    {
        &mut self.guest_regs
    }

    /// Guest stack pointer (`RSP`).
    pub fn stack_pointer(&self) -> (r: usize)
        requires
            self@.bound,
        ensures
            r == self@.vmcs.guest.rsp,
    {
        self.vmcs.guest.rsp
    }

    /// Set guest stack pointer (`RSP`).
    pub fn set_stack_pointer(&mut self, rsp: usize)
        requires
            old(self)@.bound,
        ensures
            final(self)@ == old(self)@.with_vmcs(
                Vmcs {
                    guest: GuestState { rsp, ..old(self)@.vmcs.guest },
                    ..old(self)@.vmcs
                },
            ),
    {
        self.vmcs.guest.rsp = rsp;
    }

    /// Guest instruction pointer (`RIP`).
    pub fn rip(&self) -> (r: usize)
        requires
            self@.bound,
        ensures
            r == self@.vmcs.guest.rip,
    {
        self.vmcs.guest.rip
    }

    /// Guest code-segment selector.
    pub fn cs(&self) -> (r: u16)
        requires
            self@.bound,
        ensures
            r == self@.vmcs.guest.cs.selector,
    {
        self.vmcs.guest.cs.selector
    }

    /// Advance guest `RIP` by `instr_len` bytes. Fails with `BadState`, and
    /// changes nothing, where the control block is not current.
    pub fn advance_rip(&mut self, instr_len: u8) -> (r: Result<(), HyperError>)
        ensures
            old(self)@.bound ==> r == Ok::<(), HyperError>(()) && final(self)@ == old(self)@.with_rip_advanced(instr_len),
            !old(self)@.bound ==> r == Err::<(), HyperError>(HyperError::BadState) && final(self)@
                == old(self)@,
    {
        if !self.bound {
            return Err(HyperError::BadState);
        }
        self.vmcs.guest.rip = self.vmcs.guest.rip.wrapping_add(instr_len as usize);
        Ok(())
    }

    /// Add a virtual interrupt or exception to the pending events list, to be
    /// injected before a later VM entry.
    pub fn queue_event(&mut self, vector: u8, err_code: Option<u32>)
        ensures
            final(self)@ == (VcpuView {
                pending_events: old(self)@.pending_events.push((vector, err_code)),
                ..old(self)@
            }),
    {
        self.pending_events.push_back((vector, err_code));
    }

    /// If enabled, a VM exit occurs at the beginning of any instruction at
    /// which `RFLAGS.IF` is 1 and nothing else blocks interrupts. Fails with
    /// `BadState`, and changes nothing, where the control block is not
    /// current.
    pub fn set_interrupt_window(&mut self, enable: bool) -> (r: Result<(), HyperError>)
        ensures
            old(self)@.bound ==> r == Ok::<(), HyperError>(()) && final(self)@ == old(self)@.with_interrupt_window(
                enable,
            ),
            !old(self)@.bound ==> r == Err::<(), HyperError>(HyperError::BadState) && final(self)@
                == old(self)@,
    {
        if !self.bound {
            return Err(HyperError::BadState);
        }
        let mut ctrl: u32 = self.vmcs.control.primary_procbased_exec_controls;
        let bits: u32 = CPU_INTERRUPT_WINDOW_EXITING;
        if enable {
            ctrl = ctrl | bits;
        } else {
            ctrl = ctrl & !bits;
        }
        self.vmcs.control.primary_procbased_exec_controls = ctrl;
        Ok(())
    }

    /// Makes every access of the guest to an MSR of the local APIC exit: to
    /// its base-address MSR and to the whole x2APIC range. Other MSRs keep
    /// what the bitmap said of them.
    pub fn setup_msr_bitmap(&mut self) -> (r: Result<(), HyperError>)
        requires
            old(self).wf(),
        ensures
            r == Ok::<(), HyperError>(()),
            final(self).wf(),
            final(self)@ == (VcpuView { msr_bitmap: final(self)@.msr_bitmap, ..old(self)@ }),
            forall|m: u32, w: bool|
                msr_in_bitmap(m) ==> #[trigger] intercepts(final(self)@.msr_bitmap, m, w) == (apic_msr(m)
                    || intercepts(old(self)@.msr_bitmap, m, w)),
    {
        let ghost before = self@;
        // Intercept IA32_APIC_BASE MSR accesses
        let msr: u32 = IA32_APIC_BASE;
        self.msr_bitmap.set_read_intercept(msr, true);
        self.msr_bitmap.set_write_intercept(msr, true);
        // Intercept all x2APIC MSR accesses
        let mut msr: u32 = X2APIC_MSR_FIRST;
        while msr <= X2APIC_MSR_LAST
            invariant
                X2APIC_MSR_FIRST <= msr <= X2APIC_MSR_LAST + 1,
                self.wf(),
                before.msr_bitmap.len() == MSR_BITMAP_SIZE,
                self@ == (VcpuView { msr_bitmap: self@.msr_bitmap, ..before }),
                forall|m: u32, w: bool|
                    msr_in_bitmap(m) ==> #[trigger] intercepts(self@.msr_bitmap, m, w) == (m
                        == IA32_APIC_BASE || (X2APIC_MSR_FIRST <= m && m < msr) || intercepts(
                        before.msr_bitmap,
                        m,
                        w,
                    )),
            decreases X2APIC_MSR_LAST + 1 - msr,
        {
            self.msr_bitmap.set_read_intercept(msr, true);
            self.msr_bitmap.set_write_intercept(msr, true);
            msr = msr + 1;
        }
        Ok(())
    }

    /// Writes the host-state area from the live values in `host`. Fails with
    /// `BadState`, and changes nothing, where the control block is not
    /// current.
    pub fn setup_vmcs_host(&mut self, host: &HostContext) -> (r: Result<(), HyperError>)
        ensures
            old(self)@.bound ==> r == Ok::<(), HyperError>(()) && final(self)@ == old(self)@.with_vmcs(
                Vmcs {
                    host: host_state_of(*host, old(self)@.vmcs.host.rsp),
                    ..old(self)@.vmcs
                },
            ),
            !old(self)@.bound ==> r == Err::<(), HyperError>(HyperError::BadState) && final(self)@
                == old(self)@,
    {
        if !self.bound {
            return Err(HyperError::BadState);
        }
        self.vmcs.host.ia32_pat = host.ia32_pat;
        self.vmcs.host.ia32_efer = host.ia32_efer;

        self.vmcs.host.cr0 = host.cr0;
        self.vmcs.host.cr3 = host.cr3;
        self.vmcs.host.cr4 = host.cr4;

        self.vmcs.host.es_selector = host.es_selector;
        self.vmcs.host.cs_selector = host.cs_selector;
        self.vmcs.host.ss_selector = host.ss_selector;
        self.vmcs.host.ds_selector = host.ds_selector;
        self.vmcs.host.fs_selector = host.fs_selector;
        self.vmcs.host.gs_selector = host.gs_selector;
        self.vmcs.host.fs_base = host.fs_base;
        self.vmcs.host.gs_base = host.gs_base;

        self.vmcs.host.tr_selector = host.tr_selector;
        self.vmcs.host.tr_base = host.tr_base;
        self.vmcs.host.gdtr_base = host.gdtr_base;
        self.vmcs.host.idtr_base = host.idtr_base;
        self.vmcs.host.rip = host.vmx_exit;

        self.vmcs.host.ia32_sysenter_esp = 0;
        self.vmcs.host.ia32_sysenter_eip = 0;
        self.vmcs.host.ia32_sysenter_cs = 0;
        Ok(())
    }

    /// Writes the state in which the guest starts at `entry`, and the masks
    /// and shadows of `CR0` and `CR4`. Fails with `BadState`, and changes
    /// nothing, where the control block is not current.
    pub fn setup_vmcs_guest(&mut self, entry: usize, host: &HostContext) -> (r: Result<
        (),
        HyperError,
    >)
        ensures
            old(self)@.bound ==> r == Ok::<(), HyperError>(()) && final(self)@ == old(self)@.with_vmcs(
                Vmcs {
                    guest: guest_state_at_reset(entry, host.ia32_pat),
                    control: with_cr_shadows(old(self)@.vmcs.control),
                    ..old(self)@.vmcs
                },
            ),
            !old(self)@.bound ==> r == Err::<(), HyperError>(HyperError::BadState) && final(self)@
                == old(self)@,
    {
        if !self.bound {
            return Err(HyperError::BadState);
        }
        let cr0_guest: usize = CR0_EXTENSION_TYPE | CR0_NUMERIC_ERROR;
        let cr0_host_owned: usize = CR0_NUMERIC_ERROR;
        let cr0_read_shadow: usize = CR0_NUMERIC_ERROR;
        self.vmcs.guest.cr0 = cr0_guest;
        self.vmcs.control.cr0_guest_host_mask = cr0_host_owned;
        self.vmcs.control.cr0_read_shadow = cr0_read_shadow;

        let cr4_guest: usize = CR4_VIRTUAL_MACHINE_EXTENSIONS;
        let cr4_host_owned: usize = CR4_VIRTUAL_MACHINE_EXTENSIONS;
        let cr4_read_shadow: usize = 0;
        self.vmcs.guest.cr4 = cr4_guest;
        self.vmcs.control.cr4_guest_host_mask = cr4_host_owned;
        self.vmcs.control.cr4_read_shadow = cr4_read_shadow;

        self.vmcs.guest.es = Segment::new_flat(0xffff, 0x93);  // 16-bit, present, data, read/write, accessed
        self.vmcs.guest.cs = Segment::new_flat(0xffff, 0x9b);  // 16-bit, present, code, exec/read, accessed
        self.vmcs.guest.ss = Segment::new_flat(0xffff, 0x93);
        self.vmcs.guest.ds = Segment::new_flat(0xffff, 0x93);
        self.vmcs.guest.fs = Segment::new_flat(0xffff, 0x93);
        self.vmcs.guest.gs = Segment::new_flat(0xffff, 0x93);
        self.vmcs.guest.tr = Segment::new_flat(0xffff, 0x8b);  // present, system, 32-bit TSS busy
        self.vmcs.guest.ldtr = Segment::new_flat(0xffff, 0x82);  // present, system, LDT

        self.vmcs.guest.gdtr_base = 0;
        self.vmcs.guest.gdtr_limit = 0xffff;
        self.vmcs.guest.idtr_base = 0;
        self.vmcs.guest.idtr_limit = 0xffff;

        self.vmcs.guest.cr3 = 0;
        self.vmcs.guest.dr7 = 0x400;
        self.vmcs.guest.rsp = 0;
        self.vmcs.guest.rip = entry;
        self.vmcs.guest.rflags = 0x2;
        self.vmcs.guest.pending_dbg_exceptions = 0;
        self.vmcs.guest.ia32_sysenter_esp = 0;
        self.vmcs.guest.ia32_sysenter_eip = 0;
        self.vmcs.guest.ia32_sysenter_cs = 0;

        self.vmcs.guest.interruptibility_state = 0;
        self.vmcs.guest.activity_state = 0;
        self.vmcs.guest.vmx_preemption_timer_value = 0;

        self.vmcs.guest.link_ptr = u64::MAX;
        self.vmcs.guest.ia32_debugctl = 0;
        self.vmcs.guest.ia32_pat = host.ia32_pat;
        self.vmcs.guest.ia32_efer = 0;
        Ok(())
    }

    /// Writes the control fields: which events exit, how exits and entries
    /// switch state, where the second-stage page table and the MSR bitmap
    /// are.
    ///
    /// Fails with `BadState`, and changes nothing, where the control block is
    /// not current. Fails with the error of the first control word that the
    /// processor cannot have as wanted; the control words before that one are
    /// then written, and nothing else.
    pub fn setup_vmcs_control(&mut self, ept_root: usize, caps: &VmxCapabilities) -> (r: Result<
        (),
        HyperError,
    >)
        ensures
            !old(self)@.bound ==> r == Err::<(), HyperError>(HyperError::BadState) && final(self)@
                == old(self)@,
            old(self)@.bound ==> match controls_error(*caps) {
                Some((n, e)) => r == Err::<(), HyperError>(e) && final(self)@ == old(
                    self,
                )@.with_vmcs(
                    Vmcs {
                        control: with_control_words(old(self)@.vmcs.control, *caps, n),
                        ..old(self)@.vmcs
                    },
                ),
                None => r == Ok::<(), HyperError>(()) && final(self)@ == old(self)@.with_vmcs(
                    Vmcs {
                        control: controls_programmed(
                            old(self)@.vmcs.control,
                            *caps,
                            ept_root,
                            old(self)@.msr_bitmap_addr,
                        ),
                        ..old(self)@.vmcs
                    },
                ),
            },
    {
        if !self.bound {
            return Err(HyperError::BadState);
        }
        // Intercept NMI and external interrupts.
        match set_control(
            caps.true_pinbased_ctls,
            caps.pinbased_ctls as u32,
            PIN_NMI_EXITING | PIN_EXTERNAL_INTERRUPT_EXITING,
            0,
        ) {
            Ok(word) => {
                self.vmcs.control.pinbased_exec_controls = word;
            },
            Err(e) => {
                return Err(e);
            },
        }

        // Intercept all I/O instructions, use MSR bitmaps, activate secondary controls,
        // disable CR3 load/store interception.
        match set_control(
            caps.true_procbased_ctls,
            caps.procbased_ctls as u32,
            CPU_UNCOND_IO_EXITING | CPU_USE_MSR_BITMAPS | CPU_SECONDARY_CONTROLS,
            CPU_CR3_LOAD_EXITING | CPU_CR3_STORE_EXITING | CPU_CR8_LOAD_EXITING
                | CPU_CR8_STORE_EXITING,
        ) {
            Ok(word) => {
                self.vmcs.control.primary_procbased_exec_controls = word;
            },
            Err(e) => {
                return Err(e);
            },
        }

        // Enable EPT, RDTSCP, INVPCID, and unrestricted guest.
        match set_control(
            caps.procbased_ctls2,
            0,
            CPU2_ENABLE_EPT | CPU2_ENABLE_RDTSCP | CPU2_ENABLE_INVPCID | CPU2_UNRESTRICTED_GUEST
                | CPU2_ENABLE_XSAVES_XRSTORS,
            0,
        ) {
            Ok(word) => {
                self.vmcs.control.secondary_procbased_exec_controls = word;
            },
            Err(e) => {
                return Err(e);
            },
        }

        // Switch to 64-bit host, acknowledge interrupt info, switch IA32_PAT/IA32_EFER on VM exit.
        match set_control(
            caps.true_exit_ctls,
            caps.exit_ctls as u32,
            EXIT_HOST_ADDRESS_SPACE_SIZE | EXIT_ACK_INTERRUPT_ON_EXIT | EXIT_SAVE_IA32_PAT
                | EXIT_LOAD_IA32_PAT | EXIT_SAVE_IA32_EFER | EXIT_LOAD_IA32_EFER,
            0,
        ) {
            Ok(word) => {
                self.vmcs.control.vmexit_controls = word;
            },
            Err(e) => {
                return Err(e);
            },
        }

        // Load guest IA32_PAT/IA32_EFER on VM entry.
        match set_control(
            caps.true_entry_ctls,
            caps.entry_ctls as u32,
            ENTRY_LOAD_IA32_PAT | ENTRY_LOAD_IA32_EFER,
            0,
        ) {
            Ok(word) => {
                self.vmcs.control.vmentry_controls = word;
            },
            Err(e) => {
                return Err(e);
            },
        }

        self.vmcs.control.eptp = ept_pointer(ept_root);

        // No MSR switches if hypervisor doesn't use and there is only one vCPU.
        self.vmcs.control.vmexit_msr_store_count = 0;
        self.vmcs.control.vmexit_msr_load_count = 0;
        self.vmcs.control.vmentry_msr_load_count = 0;

        // Pass-through exceptions (except #UD(6)), don't use I/O bitmap, set MSR bitmaps.
        self.vmcs.control.exception_bitmap = EXCEPTION_BITMAP;
        self.vmcs.control.io_bitmap_a_addr = 0;
        self.vmcs.control.io_bitmap_b_addr = 0;
        self.vmcs.control.msr_bitmaps_addr = self.msr_bitmap.phys_addr() as u64;
        Ok(())
    }

    /// Programs the control block of a new virtual CPU: clears it, makes it
    /// current, writes the host state, the guest state and the controls, and
    /// clears it from the processor again.
    ///
    /// Fails with the error of the first control word that the processor
    /// cannot have as wanted; the control block is then still current, with
    /// what was written before the failure.
    pub fn setup_vmcs(&mut self, entry: usize, ept_root: usize, host: &HostContext) -> (r: Result<
        (),
        HyperError,
    >)
        ensures
            match controls_error(host.capabilities) {
                Some((n, e)) => r == Err::<(), HyperError>(e) && final(self)@ == (VcpuView {
                    bound: true,
                    vmcs: Vmcs {
                        host: host_state_of(*host, old(self)@.vmcs.host.rsp),
                        guest: guest_state_at_reset(entry, host.ia32_pat),
                        control: with_control_words(
                            with_cr_shadows(old(self)@.vmcs.control),
                            host.capabilities,
                            n,
                        ),
                        exit: old(self)@.vmcs.exit,
                    },
                    ..old(self)@
                }),
                None => r == Ok::<(), HyperError>(()) && final(self)@ == (VcpuView {
                    bound: false,
                    vmcs: Vmcs {
                        host: host_state_of(*host, old(self)@.vmcs.host.rsp),
                        guest: guest_state_at_reset(entry, host.ia32_pat),
                        control: controls_programmed(
                            with_cr_shadows(old(self)@.vmcs.control),
                            host.capabilities,
                            ept_root,
                            old(self)@.msr_bitmap_addr,
                        ),
                        exit: old(self)@.vmcs.exit,
                    },
                    ..old(self)@
                }),
            },
    {
        self.unbind_from_current_processor();
        self.bind_to_current_processor();
        match self.setup_vmcs_host(host) {
            Ok(()) => {},
            Err(e) => {
                return Err(e);
            },
        }
        match self.setup_vmcs_guest(entry, host) {
            Ok(()) => {},
            Err(e) => {
                return Err(e);
            },
        }
        match self.setup_vmcs_control(ept_root, &host.capabilities) {
            Ok(()) => {},
            Err(e) => {
                return Err(e);
            },
        }
        self.unbind_from_current_processor();
        Ok(())
    }

    /// Create a new virtual CPU that starts at `entry` and translates guest
    /// memory through the table at `ept_root`.
    ///
    /// It comes back unbound and not launched, with no pending event, the
    /// guest's extended state equal to the host's, the MSR bitmap set to exit
    /// on the MSRs of the local APIC and on no other, and the control block
    /// programmed. It fails exactly where the processor lacks a control that
    /// this core needs.
    pub fn new(
        vcpu_id: usize,
        vmcs_revision_id: u32,
        entry: usize,
        ept_root: usize,
        host: &HostContext,
    ) -> (r: Result<VmxVcpu, HyperError>)
        ensures
            match controls_error(host.capabilities) {
                Some((n, e)) => r == Err::<VmxVcpu, HyperError>(e),
                None => r is Ok && r.unwrap().wf() && r.unwrap()@ == (VcpuView {
                    guest_regs: GeneralRegisters::zeroed(),
                    host_stack_top: 0,
                    vcpu_id,
                    launched: false,
                    entering: false,
                    bound: false,
                    region: VmxRegion {
                        phys_addr: host.vmcs_phys_addr,
                        revision_id: vmcs_revision_id,
                    },
                    vmcs: Vmcs {
                        host: host_state_of(*host, 0),
                        guest: guest_state_at_reset(entry, host.ia32_pat),
                        control: controls_programmed(
                            with_cr_shadows(Controls::zero()),
                            host.capabilities,
                            ept_root,
                            host.msr_bitmap_phys_addr,
                        ),
                        exit: ExitFields::zero(),
                    },
                    msr_bitmap: r.unwrap()@.msr_bitmap,
                    msr_bitmap_addr: host.msr_bitmap_phys_addr,
                    pending_events: Seq::empty(),
                    xstate: XState::initial(host.xcr0, host.xss),
                }) && (forall|m: u32, w: bool|
                    msr_in_bitmap(m) ==> #[trigger] intercepts(r.unwrap()@.msr_bitmap, m, w)
                        == apic_msr(m)),
            },
    {
        let mut vcpu = VmxVcpu {
            guest_regs: GeneralRegisters::default(),
            host_stack_top: 0,
            vcpu_id,
            launched: false,
            entering: false,
            bound: false,
            region: VmxRegion { phys_addr: host.vmcs_phys_addr, revision_id: vmcs_revision_id },
            vmcs: Vmcs::new(),
            msr_bitmap: MsrBitmap::passthrough_all(host.msr_bitmap_phys_addr),
            pending_events: VecDeque::with_capacity(8),
            xstate: XState::new(host.xcr0, host.xss),
        };
        match vcpu.setup_msr_bitmap() {
            Ok(()) => {},
            Err(e) => {
                return Err(e);
            },
        }
        match vcpu.setup_vmcs(entry, ept_root, host) {
            Ok(()) => {},
            Err(e) => {
                return Err(e);
            },
        }
        Ok(vcpu)
    }

    /// Basic information about the last VM exit. Fails with `BadState` where
    /// the control block is not current, and where the exit reason is none
    /// that the architecture defines.
    pub fn exit_info(&self) -> (r: Result<VmxExitInfo, HyperError>)
        ensures
            self@.bound && exit_info_of(self@.vmcs) is Some ==> r == Ok::<VmxExitInfo, HyperError>(
                exit_info_of(self@.vmcs).unwrap(),
            ),
            !self@.bound || exit_info_of(self@.vmcs) is None ==> r == Err::<
                VmxExitInfo,
                HyperError,
            >(HyperError::BadState),
    {
        if !self.bound {
            return Err(HyperError::BadState);
        }
        match self.decode_exit() {
            Some(info) => Ok(info),
            None => Err(HyperError::BadState),
        }
    }

    /// Reads the exit fields, where the exit reason is one that the
    /// architecture defines.
    fn decode_exit(&self) -> (r: Option<VmxExitInfo>)
        ensures
            r == exit_info_of(self@.vmcs),
    {
        let full_reason: u32 = self.vmcs.exit.exit_reason;
        match VmxExitReason::from_raw(full_reason & 0xffff) {
            Some(exit_reason) => Some(
                VmxExitInfo {
                    entry_failure: full_reason & 0x8000_0000 != 0,
                    exit_reason,
                    exit_instruction_length: self.vmcs.exit.vmexit_instruction_len,
                    guest_rip: self.vmcs.guest.rip,
                },
            ),
            None => None,
        }
    }

    /// Information for VM exits due to external interrupts and exceptions.
    /// Fails with `BadState` where the control block is not current.
    pub fn interrupt_exit_info(&self) -> (r: Result<VmxInterruptInfo, HyperError>)
        ensures
            self@.bound ==> r == Ok::<VmxInterruptInfo, HyperError>(
                VmxInterruptInfo::of_word(
                    self@.vmcs.exit.vmexit_interruption_info,
                    self@.vmcs.exit.vmexit_interruption_err_code,
                ),
            ),
            !self@.bound ==> r == Err::<VmxInterruptInfo, HyperError>(HyperError::BadState),
    {
        if !self.bound {
            return Err(HyperError::BadState);
        }
        Ok(
            VmxInterruptInfo::from_bits(
                self.vmcs.exit.vmexit_interruption_info,
                self.vmcs.exit.vmexit_interruption_err_code,
            ),
        )
    }

    /// Information for VM exits due to I/O instructions. Fails with
    /// `BadState` where the control block is not current.
    pub fn io_exit_info(&self) -> (r: Result<VmxIoExitInfo, HyperError>)
        ensures
            self@.bound ==> r == Ok::<VmxIoExitInfo, HyperError>(
                VmxIoExitInfo::of_qualification(self@.vmcs.exit.exit_qualification),
            ),
            !self@.bound ==> r == Err::<VmxIoExitInfo, HyperError>(HyperError::BadState),
    {
        if !self.bound {
            return Err(HyperError::BadState);
        }
        Ok(VmxIoExitInfo::from_qualification(self.vmcs.exit.exit_qualification))
    }

    /// Information for VM exits due to nested page table faults (EPT
    /// violation). Fails with `BadState` where the control block is not
    /// current.
    pub fn nested_page_fault_info(&self) -> (r: Result<NestedPageFaultInfo, HyperError>)
        ensures
            self@.bound ==> r == Ok::<NestedPageFaultInfo, HyperError>(
                nested_page_fault_of(self@.vmcs),
            ),
            !self@.bound ==> r == Err::<NestedPageFaultInfo, HyperError>(HyperError::BadState),
    {
        if !self.bound {
            return Err(HyperError::BadState);
        }
        let qualification: usize = self.vmcs.exit.exit_qualification;
        let fault_guest_paddr: usize = self.vmcs.exit.guest_physical_addr;
        Ok(
            NestedPageFaultInfo {
                access_flags: AccessFlags {
                    read: qualification & 0x1 != 0,
                    write: qualification & 0x2 != 0,
                    execute: qualification & 0x4 != 0,
                },
                fault_guest_paddr,
            },
        )
    }

    /// Takes over what a VM exit leaves behind: the guest's registers, its
    /// state in the control block and the exit fields, as the processor
    /// reports them. The event that the last entry delivered is no longer
    /// armed: the processor clears the valid bit of the entry's
    /// interruption information on every exit, and so does this. Where an
    /// entry was prepared and the exit does not report that the processor
    /// refused it, the virtual CPU is launched from now on.
    pub fn record_exit(&mut self, regs: GeneralRegisters, guest: GuestState, exit: ExitFields)
        ensures
            final(self)@ == old(self)@.exit_recorded(regs, guest, exit),
    {
        self.guest_regs = regs;
        self.vmcs.guest = guest;
        self.vmcs.exit = exit;
        if self.entering && exit.exit_reason & 0x8000_0000 == 0 {
            self.launched = true;
        }
        self.entering = false;
        self.vmcs.control.vmentry_interruption_info = self.vmcs.control.vmentry_interruption_info
            & 0x7fff_ffff;
    }

    /// Whether the guest would take an interrupt now.
    pub fn allow_interrupt(&self) -> (r: bool)
        requires
            self@.bound,
        ensures
            r == self@.allows_interrupt(),
    {
        let rflags: usize = self.vmcs.guest.rflags;
        let block_state: u32 = self.vmcs.guest.interruptibility_state;
        (rflags as u64) & RFLAGS_INTERRUPT_FLAG != 0 && block_state == 0
    }

    /// Programs the next VM entry to deliver an event to the guest. Fails
    /// with `BadState`, and changes nothing, where the control block is not
    /// current.
    pub fn inject_event(&mut self, vector: u8, err_code: Option<u32>) -> (r: Result<
        (),
        HyperError,
    >)
        ensures
            old(self)@.bound ==> r == Ok::<(), HyperError>(()) && final(self)@ == old(self)@.with_event_injected(
                vector,
                err_code,
            ),
            !old(self)@.bound ==> r == Err::<(), HyperError>(HyperError::BadState) && final(self)@
                == old(self)@,
    {
        if !self.bound {
            return Err(HyperError::BadState);
        }
        let err_code: Option<u32> = if VmxInterruptionType::vector_has_error_code(vector) {
            match err_code {
                Some(code) => Some(code),
                None => Some(self.vmcs.exit.vmexit_interruption_err_code),
            }
        } else {
            None
        };
        let int_info = VmxInterruptInfo::from(vector, err_code);
        match int_info.err_code {
            Some(code) => {
                self.vmcs.control.vmentry_exception_err_code = code;
            },
            None => {},
        }
        if int_info.int_type.is_soft() {
            self.vmcs.control.vmentry_instruction_len = self.vmcs.exit.vmexit_instruction_len;
        }
        self.vmcs.control.vmentry_interruption_info = int_info.bits();
        Ok(())
    }

    /// Try to inject a pending event before the next VM entry.
    ///
    /// The event at the head of the queue is injected and leaves the queue
    /// where it is an exception (a vector below 32) or the guest would take
    /// an interrupt now. Otherwise it stays where it is, and interrupt-window
    /// exiting is switched on. With an empty queue nothing happens.
    pub fn inject_pending_events(&mut self) -> (r: Result<(), HyperError>)
        requires
            old(self)@.bound,
        ensures
            r == Ok::<(), HyperError>(()),
            final(self)@ == old(self)@.after_injection(),
    {
        if self.pending_events.len() > 0 {
            let event: (u8, Option<u32>) = self.pending_events[0];
            if event.0 < 32 || self.allow_interrupt() {
                // if it's an exception, or an interrupt that is not blocked, inject it directly.
                match self.inject_event(event.0, event.1) {
                    Ok(()) => {},
                    Err(e) => {
                        return Err(e);
                    },
                }
                self.pending_events.pop_front();
            } else {
                // interrupts are blocked, enable interrupt-window exiting.
                match self.set_interrupt_window(true) {
                    Ok(()) => {},
                    Err(e) => {
                        return Err(e);
                    },
                }
            }
        }
        Ok(())
    }
}

impl VcpuView {
    /// The state with the next VM entry programmed to deliver an event. An
    /// exception that pushes an error code gets the given one or, where none
    /// is given, the one of the last exit; an event that comes from an
    /// instruction gets the instruction length of the last exit.
    pub open spec fn with_event_injected(self, vector: u8, err_code: Option<u32>) -> VcpuView {
        let code: Option<u32> = if VmxInterruptionType::has_error_code(vector) {
            if err_code is Some {
                err_code
            } else {
                Some(self.vmcs.exit.vmexit_interruption_err_code)
            }
        } else {
            None
        };
        let info = VmxInterruptInfo::for_event(vector, code);
        self.with_vmcs(
            Vmcs {
                control: Controls {
                    vmentry_exception_err_code: if code is Some {
                        code.unwrap()
                    } else {
                        self.vmcs.control.vmentry_exception_err_code
                    },
                    vmentry_instruction_len: if info.int_type.soft() {
                        self.vmcs.exit.vmexit_instruction_len
                    } else {
                        self.vmcs.control.vmentry_instruction_len
                    },
                    vmentry_interruption_info: info.word(),
                    ..self.vmcs.control
                },
                ..self.vmcs
            },
        )
    }

    /// Whether the event at the head of the queue can be injected now: it is
    /// an exception, or the guest would take an interrupt.
    pub open spec fn head_injectable(self) -> bool
        recommends
            self.pending_events.len() > 0,
    {
        self.pending_events[0].0 < 32 || self.allows_interrupt()
    }

    /// The state after one attempt to inject the head of the queue.
    pub open spec fn after_injection(self) -> VcpuView {
        if self.pending_events.len() == 0 {
            self
        } else if self.head_injectable() {
            VcpuView {
                pending_events: self.pending_events.subrange(
                    1,
                    self.pending_events.len() as int,
                ),
                ..self.with_event_injected(self.pending_events[0].0, self.pending_events[0].1)
            }
        } else {
            self.with_interrupt_window(true)
        }
    }

    /// The register of the extended control registers that an `XSETBV` of
    /// the guest names: the low half of its `RCX`.
    pub open spec fn xsetbv_index(self) -> u64 {
        bits_of(self.guest_regs.rcx, 0, 32)
    }

    /// The value that an `XSETBV` of the guest wants to load: the low half of
    /// `RDX` above the low half of `RAX`.
    pub open spec fn xsetbv_value(self) -> u64 {
        (bits_of(self.guest_regs.rdx, 0, 32) << 32) | bits_of(self.guest_regs.rax, 0, 32)
    }

    /// State and result after an `XSETBV` of the guest has been handled.
    ///
    /// Only `XCR0` is supported. A value that [`xcr0_valid`] rejects is
    /// refused with `InvalidParam`. A valid value becomes the guest's `XCR0`,
    /// and `RIP` moves past the instruction; where the control block is not
    /// current that cannot be done, and the result is `BadState`. Every
    /// failure leaves the state as it is.
    pub open spec fn after_xsetbv(self) -> (VcpuView, Result<(), HyperError>) {
        if self.xsetbv_index() != 0 {
            (self, Err(HyperError::NotSupported))
        } else if !xcr0_valid(self.xsetbv_value()) {
            (self, Err(HyperError::InvalidParam))
        } else if !self.bound {
            (self, Err(HyperError::BadState))
        } else {
            (
                (VcpuView {
                    xstate: XState { guest_xcr0: self.xsetbv_value(), ..self.xstate },
                    ..self
                }).with_rip_advanced(VM_EXIT_INSTR_LEN_XSETBV),
                Ok(()),
            )
        }
    }

    /// State and result after a `CPUID` of the guest has been handled, where
    /// the host processor answers `host` to the guest's query: the guest's
    /// `RAX`, `RBX`, `RCX` and `RDX` hold the emulated answer, and `RIP` moves
    /// past the instruction. Where the control block is not current, nothing
    /// changes and the result is `BadState`.
    pub open spec fn after_cpuid(self, host: CpuIdResult) -> (VcpuView, Result<(), HyperError>) {
        let res = emulated(self.guest_regs.rax, self.guest_regs.rcx, host);
        if self.bound {
            (
                (VcpuView {
                    guest_regs: GeneralRegisters {
                        rax: res.eax as u64,
                        rbx: res.ebx as u64,
                        rcx: res.ecx as u64,
                        rdx: res.edx as u64,
                        ..self.guest_regs
                    },
                    ..self
                }).with_rip_advanced(VM_EXIT_INSTR_LEN_CPUID),
                Ok(()),
            )
        } else {
            (self, Err(HyperError::BadState))
        }
    }

    /// The vector of the exception or interrupt that caused the last exit.
    pub open spec fn exit_vector(self) -> u8 {
        VmxInterruptInfo::of_word(
            self.vmcs.exit.vmexit_interruption_info,
            self.vmcs.exit.vmexit_interruption_err_code,
        ).vector
    }

    /// State and result after the built-in handler for `reason` has run,
    /// where the host processor answers `host` to a `CPUID` query of the
    /// guest. `None` stands for an exit that has no built-in handler.
    pub open spec fn after_builtin_handler(self, reason: VmxExitReason, host: CpuIdResult) -> (
        VcpuView,
        Option<Result<(), HyperError>>,
    ) {
        match reason {
            VmxExitReason::INTERRUPT_WINDOW => if self.bound {
                (self.with_interrupt_window(false), Some(Ok(())))
            } else {
                (self, Some(Err(HyperError::BadState)))
            },
            VmxExitReason::XSETBV => (self.after_xsetbv().0, Some(self.after_xsetbv().1)),
            VmxExitReason::EXCEPTION_NMI => (
                VcpuView {
                    pending_events: self.pending_events.push((self.exit_vector(), None)),
                    ..self
                },
                Some(Ok(())),
            ),
            VmxExitReason::CPUID => (self.after_cpuid(host).0, Some(self.after_cpuid(host).1)),
            _ => (self, None),
        }
    }

    /// The answer that stands for the host's where the host is not asked.
    pub open spec fn no_answer() -> CpuIdResult {
        CpuIdResult { eax: 0, ebx: 0, ecx: 0, edx: 0 }
    }

    /// The query of the host processor that answers the `CPUID` which the
    /// guest has executed, if it takes one.
    pub open spec fn cpuid_query(self) -> Option<CpuidQuery> {
        query_of(self.guest_regs.rax, self.guest_regs.rcx)
    }

    /// Whether the `CPUID` which the guest has executed is answered by the
    /// host with the guest's `XCR0` and `IA32_XSS` loaded.
    pub open spec fn cpuid_takes_guest_xstate(self) -> bool {
        self.cpuid_query() is Some && self.cpuid_query().unwrap().guest_xstate
    }

    /// State and outcome after the last VM exit has been dealt with.
    ///
    /// An exit with an undefined reason, a failed entry and an access to a
    /// control register are fatal, and so is a built-in handler that fails.
    /// A `CPUID` that takes the host's answer changes nothing yet: the query
    /// is handed out. An exit without a built-in handler is left to the
    /// caller.
    pub open spec fn after_exit(self) -> (VcpuView, ExitOutcome) {
        match exit_info_of(self.vmcs) {
            None => (
                self,
                ExitOutcome::Fatal(
                    FatalExit::UnknownExitReason(self.vmcs.exit.exit_reason & 0xffff),
                ),
            ),
            Some(info) => if info.entry_failure {
                (self, ExitOutcome::Fatal(FatalExit::EntryFailure(info)))
            } else if info.exit_reason == VmxExitReason::CR_ACCESS {
                (self, ExitOutcome::Fatal(FatalExit::CrAccess(info)))
            } else if info.exit_reason == VmxExitReason::CPUID && self.cpuid_query() is Some {
                (self, ExitOutcome::Cpuid(self.cpuid_query().unwrap()))
            } else {
                let handled = self.after_builtin_handler(info.exit_reason, Self::no_answer());
                match handled.1 {
                    Some(Ok(())) => (handled.0, ExitOutcome::Handled),
                    Some(Err(e)) => (
                        handled.0,
                        ExitOutcome::Fatal(FatalExit::HandlerFailed(info, e)),
                    ),
                    None => (handled.0, ExitOutcome::Unhandled(info)),
                }
            },
        }
    }

    /// Whether an exit reason reports a VM entry that the processor refused
    /// (bit 31).
    pub open spec fn entry_failed(exit_reason: u32) -> bool {
        exit_reason & 0x8000_0000 != 0
    }

    /// The state after a VM exit has been taken over: the guest's registers,
    /// its state in the control block and the exit fields are what the
    /// processor reports, and the entry's interruption information has lost
    /// its valid bit (bit 31). The exit of an entry that the processor did
    /// not refuse shows that the guest has run: the virtual CPU is launched
    /// from then on.
    pub open spec fn exit_recorded(self, regs: GeneralRegisters, guest: GuestState, exit: ExitFields)
        -> VcpuView {
        VcpuView {
            guest_regs: regs,
            launched: self.launched || (self.entering && !Self::entry_failed(exit.exit_reason)),
            entering: false,
            vmcs: Vmcs {
                guest,
                exit,
                control: Controls {
                    vmentry_interruption_info: self.vmcs.control.vmentry_interruption_info
                        & 0x7fff_ffff,
                    ..self.vmcs.control
                },
                ..self.vmcs
            },
            ..self
        }
    }

    /// The state with `host_rsp` as the stack pointer that the processor
    /// loads on every exit. It is written for a launch only: a virtual CPU
    /// that is launched stays as it is.
    pub open spec fn host_rsp_recorded(self, host_rsp: usize) -> VcpuView {
        if self.launched {
            self
        } else {
            self.with_vmcs(
                Vmcs { host: HostState { rsp: host_rsp, ..self.vmcs.host }, ..self.vmcs },
            )
        }
    }

    /// The state in which the guest is entered next: the host's stack
    /// pointer is written where the entry is a launch, and before every
    /// entry one attempt is made to inject the head of the queue.
    pub open spec fn entry_prepared(self, host_rsp: usize) -> VcpuView {
        VcpuView { entering: true, ..self.host_rsp_recorded(host_rsp).after_injection() }
    }
}

impl VmxVcpu {
    /// Handles an `XSETBV` of the guest.
    ///
    /// Only `XCR0` (index 0) can be set: another index fails with
    /// `NotSupported`. A value that breaks the rules of `XCR0` fails with
    /// `InvalidParam`. A valid value is stored and `RIP` moves forward by 3;
    /// where the control block is not current, this fails with `BadState`.
    /// The guest's `XCR0` and `RIP` change on success only.
    pub fn handle_xsetbv(&mut self) -> (r: Result<(), HyperError>)
        ensures
            final(self)@ == old(self)@.after_xsetbv().0,
            r == old(self)@.after_xsetbv().1,
            old(self)@.xsetbv_index() == 0 && !xcr0_valid(old(self)@.xsetbv_value()) ==> r == Err::<
                (),
                HyperError,
            >(HyperError::InvalidParam) && final(self)@ == old(self)@,
            r is Err ==> final(self)@ == old(self)@,
    {
        let index: u64 = get_bits(self.guest_regs.rcx, 0, 32);
        let value: u64 = get_bits(self.guest_regs.rdx, 0, 32) << 32 | get_bits(
            self.guest_regs.rax,
            0,
            32,
        );
        if index == 0 {
            match check_xcr0(value) {
                Some(x) => {
                    if !self.bound {
                        return Err(HyperError::BadState);
                    }
                    self.xstate.guest_xcr0 = x;
                    self.advance_rip(VM_EXIT_INSTR_LEN_XSETBV)
                },
                None => Err(HyperError::InvalidParam),
            }
        } else {
            // xcr0 only
            Err(HyperError::NotSupported)
        }
    }

    /// The query of the host processor that answers the `CPUID` which the
    /// guest has executed: the leaf and the sub-leaf that it asks for, and
    /// whether the guest's extended state must be loaded while the host is
    /// asked. `None` where the answer does not take the host.
    pub fn cpuid_query(&self) -> (r: Option<CpuidQuery>)
        ensures
            r == self@.cpuid_query(),
    {
        query(self.guest_regs.rax, self.guest_regs.rcx)
    }

    /// Finishes a `CPUID` of the guest with the host processor's answer to
    /// the same query: writes the emulated answer to the guest's registers
    /// and moves `RIP` forward by 2. Fails with `BadState`, and changes
    /// nothing, where the control block is not current.
    pub fn complete_cpuid(&mut self, host: CpuIdResult) -> (r: Result<(), HyperError>)
        ensures
            final(self)@ == old(self)@.after_cpuid(host).0,
            r == old(self)@.after_cpuid(host).1,
    {
        if !self.bound {
            return Err(HyperError::BadState);
        }
        let res = emulate(self.guest_regs.rax, self.guest_regs.rcx, host);
        let regs = self.regs_mut();
        regs.rax = res.eax as u64;
        regs.rbx = res.ebx as u64;
        regs.rcx = res.ecx as u64;
        regs.rdx = res.edx as u64;
        self.advance_rip(VM_EXIT_INSTR_LEN_CPUID)
    }

    /// Handles a `CPUID` of the guest: asks the host processor with the
    /// query of [`VmxVcpu::cpuid_query`] where there is one, and finishes as
    /// [`VmxVcpu::complete_cpuid`] does with the answer.
    ///
    /// The host is asked in the extended state that is loaded when this is
    /// called, so this is not for a query that takes the guest's: that one is
    /// made by the caller, who can load it. What the host answers depends on
    /// the machine, so of the guest's registers only that much is said: they
    /// are what some answer gives.
    pub fn handle_cpuid(&mut self) -> (r: Result<(), HyperError>)
        requires
            !old(self)@.cpuid_takes_guest_xstate(),
        ensures
            exists|host: CpuIdResult| #[trigger] old(self)@.after_cpuid(host) == (final(self)@, r),
            old(self)@.cpuid_query() is None ==> old(self)@.after_cpuid(VcpuView::no_answer()) == (
                final(self)@,
                r,
            ),
    {
        let ghost before = self@;
        let host = match self.cpuid_query() {
            None => CpuIdResult { eax: 0, ebx: 0, ecx: 0, edx: 0 },
            Some(q) => host_cpuid(q.leaf, q.subleaf),
        };
        let r = self.complete_cpuid(host);
        assert(before.after_cpuid(host) == (self@, r));
        r
    }

    /// Handle VM exits that can and should be handled by the virtual CPU
    /// itself: an interrupt window switches interrupt-window exiting off; an
    /// `XSETBV` sets the guest's `XCR0`; an exception is queued to be
    /// injected again; a `CPUID` is emulated.
    ///
    /// Returns the handler's result, or `None` where the exit has no built-in
    /// handler.
    pub fn builtin_vmexit_handler(&mut self, exit_info: &VmxExitInfo) -> (r: Option<
        Result<(), HyperError>,
    >)
        requires
            !exit_info.entry_failure,
            exit_info.exit_reason != VmxExitReason::CR_ACCESS,
            exit_info.exit_reason == VmxExitReason::EXCEPTION_NMI ==> old(self)@.bound,
            exit_info.exit_reason == VmxExitReason::CPUID ==> !old(self)@.cpuid_takes_guest_xstate(),
        ensures
            exists|host: CpuIdResult| #[trigger]
                old(self)@.after_builtin_handler(exit_info.exit_reason, host) == (final(self)@, r),
    {
        let ghost before = self@;
        let ghost any = CpuIdResult { eax: 0, ebx: 0, ecx: 0, edx: 0 };
        match exit_info.exit_reason {
            VmxExitReason::INTERRUPT_WINDOW => {
                let r = Some(self.set_interrupt_window(false));
                assert(before.after_builtin_handler(exit_info.exit_reason, any) == (self@, r));
                r
            },
            VmxExitReason::XSETBV => {
                let r = Some(self.handle_xsetbv());
                assert(before.after_builtin_handler(exit_info.exit_reason, any) == (self@, r));
                r
            },
            VmxExitReason::EXCEPTION_NMI => {
                let int_info = match self.interrupt_exit_info() {
                    Ok(info) => info,
                    Err(e) => {
                        return Some(Err(e));
                    },
                };
                self.queue_event(int_info.vector, None);
                let r = Some(Ok(()));
                assert(before.after_builtin_handler(exit_info.exit_reason, any) == (self@, r));
                r
            },
            VmxExitReason::CPUID => {
                let res = self.handle_cpuid();
                let r = Some(res);
                let ghost host = choose|host: CpuIdResult|
                    #[trigger] before.after_cpuid(host) == (self@, res);
                assert(before.after_builtin_handler(exit_info.exit_reason, host) == (self@, r));
                r
            },
            _ => {
                let r = None;
                assert(before.after_builtin_handler(exit_info.exit_reason, any) == (self@, r));
                r
            },
        }
    }

    /// Makes the virtual CPU ready for the next VM entry and says how the
    /// processor is to enter: with a launch until the guest has run once,
    /// with a resume every time after that. Before every entry, the first
    /// one too, one attempt is made to inject the head of the queue.
    ///
    /// `host_rsp` is the stack pointer that the processor is to load on the
    /// exit that follows; it is written for a launch only. The virtual CPU
    /// does not count as launched before [`VmxVcpu::record_exit`] has seen
    /// the exit of a successful entry.
    pub fn prepare_entry(&mut self, host_rsp: usize) -> (r: EntryKind)
        requires
            old(self)@.bound,
        ensures
            final(self)@ == old(self)@.entry_prepared(host_rsp),
            final(self)@.launched == old(self)@.launched,
            r == (if old(self)@.launched {
                EntryKind::Resume
            } else {
                EntryKind::Launch
            }),
    {
        let kind = if self.launched {
            EntryKind::Resume
        } else {
            self.vmcs.host.rsp = host_rsp;
            EntryKind::Launch
        };
        // Inject pending events
        let _ = self.inject_pending_events();
        self.entering = true;
        kind
    }

    /// Deals with the VM exit that [`VmxVcpu::record_exit`] has stored: runs
    /// the built-in handler for its reason, hands out the query of the host
    /// that a `CPUID` takes, or leaves the exit to the caller.
    pub fn handle_exit(&mut self) -> (r: ExitOutcome)
        requires
            old(self)@.bound,
        ensures
            final(self)@ == old(self)@.after_exit().0,
            r == old(self)@.after_exit().1,
    {
        let ghost before = self@;
        let exit_info = match self.decode_exit() {
            Some(info) => info,
            None => {
                return ExitOutcome::Fatal(
                    FatalExit::UnknownExitReason(self.vmcs.exit.exit_reason & 0xffff),
                );
            },
        };
        if exit_info.entry_failure {
            return ExitOutcome::Fatal(FatalExit::EntryFailure(exit_info));
        }
        if let VmxExitReason::CR_ACCESS = exit_info.exit_reason {
            return ExitOutcome::Fatal(FatalExit::CrAccess(exit_info));
        }
        if let VmxExitReason::CPUID = exit_info.exit_reason {
            if let Some(q) = self.cpuid_query() {
                return ExitOutcome::Cpuid(q);
            }
        }
        let handled = self.builtin_vmexit_handler(&exit_info);
        proof {
            let host = choose|host: CpuIdResult|
                #[trigger] before.after_builtin_handler(exit_info.exit_reason, host) == (
                    self@,
                    handled,
                );
            if exit_info.exit_reason == VmxExitReason::CPUID {
                // Without a query the answer does not depend on the host.
                assert(before.after_cpuid(host) == before.after_cpuid(VcpuView::no_answer()));
            }
            assert(before.after_builtin_handler(exit_info.exit_reason, VcpuView::no_answer()) == (
                self@,
                handled,
            ));
        }
        match handled {
            Some(Ok(())) => ExitOutcome::Handled,
            Some(Err(e)) => ExitOutcome::Fatal(FatalExit::HandlerFailed(exit_info, e)),
            None => ExitOutcome::Unhandled(exit_info),
        }
    }
}

/// The base address of the task-state segment that `tr` selects in the
/// descriptor table `gdt`, or 0 if its descriptor is not present (bit 47).
/// Bits 16 to 39 of the descriptor hold bits 0 to 23 of the base, bits 56 to
/// 63 hold bits 24 to 31, and the low half of the next entry holds the upper
/// half of the base.
pub open spec fn tr_base_of(tr: u16, gdt: Seq<u64>) -> u64
    recommends
        (tr >> 3) < gdt.len(),
{
    let index = (tr >> 3) as int;
    let entry = gdt[index];
    if entry & 0x8000_0000_0000u64 != 0 {
        let base_low = bits_of(entry, 16, 40) | (bits_of(entry, 56, 64) << 24);
        let base_high = gdt[index + 1] & 0xffff_ffff;
        base_low | (base_high << 32)
    } else {
        0
    }
}

/// Reads the base address of the task-state segment from the descriptor
/// table. The descriptor that `tr` selects must lie in the table, and so
/// must the entry after it where the descriptor is present.
pub fn get_tr_base(tr: u16, gdt: &[u64]) -> (r: u64)
    requires
        (tr >> 3) < gdt@.len(),
        gdt@[(tr >> 3) as int] & 0x8000_0000_0000u64 != 0 ==> (tr >> 3) + 1 < gdt@.len(),
    ensures
        r == tr_base_of(tr, gdt@),
{
    let index: usize = (tr >> 3) as usize;
    let entry: u64 = gdt[index];
    if entry & 0x8000_0000_0000u64 != 0 {
        // present
        let base_low: u64 = get_bits(entry, 16, 40) | get_bits(entry, 56, 64) << 24;
        let base_high: u64 = gdt[index + 1] & 0xffff_ffff;
        base_low | base_high << 32
    } else {
        // no present
        0
    }
}

} // verus!

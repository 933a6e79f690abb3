//! What holds of a virtual CPU over several steps.

use vstd::prelude::*;
use crate::bits::lemma_bits_of;
use crate::error::HyperError;
use crate::vmx::cpuid::{
    leaf_of, lemma_feature_leaf_masked, lemma_waitpkg_hidden, subleaf_of, CpuIdResult,
    LEAF_FEATURE_INFO, LEAF_STRUCTURED_EXTENDED_FEATURE_FLAGS_ENUMERATION,
};
use crate::vmx::definitions::{VmxExitReason, CPU_INTERRUPT_WINDOW_EXITING, RFLAGS_INTERRUPT_FLAG};
use crate::vmx::regs::GeneralRegisters;
use crate::vmx::vcpu::{
    controls_error, controls_programmed, ExitOutcome, FatalExit, VcpuView, VmxCapabilities,
    ENTRY_SET, EXIT_SET, PINBASED_SET, PRIMARY_CLEAR, PRIMARY_SET, SECONDARY_SET,
};
use crate::vmx::vmcs::{exit_info_of, lemma_control_word, Controls, ExitFields, GuestState};
use crate::vmx::xstate::xcr0_valid;

verus! {

/// What a VM exit leaves behind, as the processor reports it.
pub struct ExitRecord {
    pub regs: GeneralRegisters,
    pub guest: GuestState,
    pub exit: ExitFields,
}

impl ExitRecord {
    /// Whether the guest would take an interrupt as it is left: `RFLAGS.IF`
    /// is set and nothing blocks interrupts.
    pub open spec fn takes_interrupts(self) -> bool {
        (self.guest.rflags as u64) & RFLAGS_INTERRUPT_FLAG != 0
            && self.guest.interruptibility_state == 0
    }
}

impl VcpuView {
    /// The state after one run of the guest: an entry is prepared, the guest
    /// runs, and the exit that ends the run is taken over.
    pub open spec fn ran(self, host_rsp: usize, exit: ExitRecord) -> VcpuView {
        self.entry_prepared(host_rsp).exit_recorded(exit.regs, exit.guest, exit.exit)
    }

    /// The state after one run of the guest for each of `exits`, in order.
    pub open spec fn ran_all(self, host_rsp: usize, exits: Seq<ExitRecord>) -> VcpuView
        decreases exits.len(),
    {
        if exits.len() == 0 {
            self
        } else {
            self.ran_all(host_rsp, exits.drop_last()).ran(host_rsp, exits.last())
        }
    }

    /// Whether the guest takes interrupts at the start and after each of the
    /// first `n` of `exits`.
    pub open spec fn window_open(self, exits: Seq<ExitRecord>, n: nat) -> bool {
        &&& self.allows_interrupt()
        &&& forall|i: int| 0 <= i < n && i < exits.len() ==> (#[trigger] exits[i]).takes_interrupts()
    }
}

/// The first successful entry of a virtual CPU is a launch and every later
/// entry a resume. A virtual CPU is not launched before an exit has shown
/// that the guest has run: preparing an entry does not launch it, and the
/// exit of a refused entry does not, nor does an exit that no entry went
/// before. Once launched, it stays launched.
pub proof fn lemma_launched_for_good(v: VcpuView, host_rsp: usize, exit: ExitRecord)
    ensures
        v.entry_prepared(host_rsp).launched == v.launched,
        !v.launched ==> v.entry_prepared(host_rsp).vmcs.host.rsp == host_rsp,
        v.launched ==> v.entry_prepared(host_rsp).vmcs.host == v.vmcs.host,
        v.ran(host_rsp, exit).launched == (v.launched || !VcpuView::entry_failed(
            exit.exit.exit_reason,
        )),
        !v.entering ==> v.exit_recorded(exit.regs, exit.guest, exit.exit).launched == v.launched,
        v.after_exit().0.launched == v.launched,
        v.after_injection().launched == v.launched,
{
}

/// After `k` runs of a guest that takes interrupts, the first `k` events
/// have left the queue.
pub proof fn lemma_queue_after_runs(v: VcpuView, host_rsp: usize, exits: Seq<ExitRecord>, k: nat)
    requires
        k <= v.pending_events.len(),
        k <= exits.len(),
        v.window_open(exits, k),
    ensures
        v.ran_all(host_rsp, exits.take(k as int)).pending_events == v.pending_events.skip(k as int),
        v.ran_all(host_rsp, exits.take(k as int)).allows_interrupt(),
    decreases k,
{
    if k == 0 {
        assert(exits.take(0).len() == 0);
        assert(v.pending_events.skip(0) =~= v.pending_events);
    } else {
        lemma_queue_after_runs(v, host_rsp, exits, (k - 1) as nat);
        let taken = exits.take(k as int);
        assert(taken.drop_last() =~= exits.take(k - 1));
        assert(taken.last() == exits[k - 1]);
        let before = v.ran_all(host_rsp, exits.take(k - 1));
        assert(v.ran_all(host_rsp, taken) == before.ran(host_rsp, exits[k - 1]));
        let launched = before.host_rsp_recorded(host_rsp);
        assert(launched.pending_events == before.pending_events);
        assert(launched.allows_interrupt());
        assert(launched.pending_events.len() > 0);
        assert(launched.head_injectable());
        assert(launched.pending_events.subrange(1, launched.pending_events.len() as int)
            =~= v.pending_events.skip(k as int));
        assert(exits[k - 1].takes_interrupts());
    }
}

/// Events leave the queue in the order in which they were queued, one per
/// entry, from the first entry on: where the guest takes interrupts at
/// every entry, the entry that follows `k` runs injects the event that was
/// queued as number `k` (counted from 0), removes it from the queue, and
/// leaves the events behind it where they are.
pub proof fn lemma_event_fifo(v: VcpuView, host_rsp: usize, exits: Seq<ExitRecord>, k: nat)
    requires
        k < v.pending_events.len(),
        k <= exits.len(),
        v.window_open(exits, k),
    ensures
        v.ran_all(host_rsp, exits.take(k as int)).entry_prepared(host_rsp) == (VcpuView {
            pending_events: v.pending_events.skip(k as int + 1),
            entering: true,
            ..v.ran_all(host_rsp, exits.take(k as int)).host_rsp_recorded(
                host_rsp,
            ).with_event_injected(v.pending_events[k as int].0, v.pending_events[k as int].1)
        }),
        v.ran_all(host_rsp, exits.take(k as int)).entry_prepared(
            host_rsp,
        ).vmcs.control.vmentry_interruption_info & 0x8000_00ff == 0x8000_0000u32
            | v.pending_events[k as int].0 as u32,
{
    lemma_queue_after_runs(v, host_rsp, exits, k);
    let before = v.ran_all(host_rsp, exits.take(k as int));
    let launched = before.host_rsp_recorded(host_rsp);
    assert(launched.pending_events == before.pending_events);
    assert(launched.allows_interrupt());
    assert(launched.head_injectable());
    assert(launched.pending_events[0] == v.pending_events[k as int]);
    assert(launched.pending_events.subrange(1, launched.pending_events.len() as int)
        =~= v.pending_events.skip(k as int + 1));
    let vector = v.pending_events[k as int].0;
    let word = before.entry_prepared(host_rsp).vmcs.control.vmentry_interruption_info;
    lemma_injection_word(launched, vector, v.pending_events[k as int].1);
}

/// The interruption information of an injected event holds its vector in the
/// low byte and has the valid bit set.
pub proof fn lemma_injection_word(v: VcpuView, vector: u8, err_code: Option<u32>)
    ensures
        v.with_event_injected(vector, err_code).vmcs.control.vmentry_interruption_info
            & 0x8000_00ff == 0x8000_0000u32 | vector as u32,
{
    let word = v.with_event_injected(vector, err_code).vmcs.control.vmentry_interruption_info;
    let low = vector as u32;
    assert(forall|t: u32, c: u32|
        t < 8 && (c == 0 || c == 0x800) ==> #[trigger] ((low | (t << 8) | c | 0x8000_0000u32)
            & 0x8000_00ff) == 0x8000_0000u32 | low) by (bit_vector)
        requires
            low < 256,
    ;
}

/// An event is delivered once: the exit that follows an entry disarms what
/// the entry injected, and an entry that injects nothing (the queue is
/// empty, or its head has to wait) leaves it disarmed.
pub proof fn lemma_injected_once(v: VcpuView, host_rsp: usize, exit: ExitRecord)
    requires
        v.ran(host_rsp, exit).pending_events.len() == 0 || !v.ran(
            host_rsp,
            exit,
        ).head_injectable(),
    ensures
        v.ran(host_rsp, exit).vmcs.control.vmentry_interruption_info & 0x8000_0000 == 0,
        v.ran(host_rsp, exit).entry_prepared(
            host_rsp,
        ).vmcs.control.vmentry_interruption_info & 0x8000_0000 == 0,
        v.ran(host_rsp, exit).entry_prepared(host_rsp).pending_events == v.ran(
            host_rsp,
            exit,
        ).pending_events,
{
    let w = v.entry_prepared(host_rsp).vmcs.control.vmentry_interruption_info;
    assert((w & 0x7fff_ffffu32) & 0x8000_0000u32 == 0) by (bit_vector);
}

/// An interrupt that the guest cannot take yet stays at the head of the
/// queue: preparing an entry then leaves the queue as it is, injects
/// nothing, and switches interrupt-window exiting on.
pub proof fn lemma_gated_injection(v: VcpuView, host_rsp: usize)
    requires
        v.pending_events.len() > 0,
        v.pending_events[0].0 >= 32,
        !v.allows_interrupt(),
    ensures
        v.entry_prepared(host_rsp).pending_events == v.pending_events,
        v.entry_prepared(host_rsp) == (VcpuView {
            entering: true,
            ..v.host_rsp_recorded(host_rsp).with_interrupt_window(true)
        }),
        v.entry_prepared(host_rsp).vmcs.control.vmentry_interruption_info
            == v.vmcs.control.vmentry_interruption_info,
        v.entry_prepared(host_rsp).vmcs.control.primary_procbased_exec_controls
            & CPU_INTERRUPT_WINDOW_EXITING == CPU_INTERRUPT_WINDOW_EXITING,
{
    let c = v.vmcs.control.primary_procbased_exec_controls;
    assert((c | 0x4u32) & 0x4u32 == 0x4u32) by (bit_vector);
}

/// The exit that the interrupt window causes switches interrupt-window
/// exiting off again, and changes nothing else.
pub proof fn lemma_interrupt_window_closes(v: VcpuView, host: CpuIdResult)
    requires
        v.bound,
    ensures
        v.after_builtin_handler(VmxExitReason::INTERRUPT_WINDOW, host).0
            == v.with_interrupt_window(false),
        v.with_interrupt_window(false).vmcs.control.primary_procbased_exec_controls
            & CPU_INTERRUPT_WINDOW_EXITING == 0,
{
    let c = v.vmcs.control.primary_procbased_exec_controls;
    assert((c & !0x4u32) & 0x4u32 == 0) by (bit_vector);
}

/// A value that breaks the rules of `XCR0` changes nothing: the handler of
/// `XSETBV` fails with `InvalidParam`, the guest's `XCR0` and its `RIP` stay
/// as they are, and the exit is fatal for the virtual CPU.
pub proof fn lemma_xsetbv_rejected(v: VcpuView)
    requires
        v.xsetbv_index() == 0,
        !xcr0_valid(v.xsetbv_value()),
    ensures
        v.after_xsetbv() == (v, Err::<(), HyperError>(HyperError::InvalidParam)),
        v.after_xsetbv().0.xstate.guest_xcr0 == v.xstate.guest_xcr0,
        v.after_xsetbv().0.vmcs.guest.rip == v.vmcs.guest.rip,
        exit_info_of(v.vmcs) is Some && !exit_info_of(v.vmcs).unwrap().entry_failure
            && exit_info_of(v.vmcs).unwrap().exit_reason == VmxExitReason::XSETBV ==> v.after_exit()
            == (
            v,
            ExitOutcome::Fatal(
                FatalExit::HandlerFailed(exit_info_of(v.vmcs).unwrap(), HyperError::InvalidParam),
            ),
        ),
{
}

/// After a `CPUID` for the feature leaf has been answered, the guest's `RCX`
/// has bit 5 clear and bit 31 set, whatever the host processor answers.
pub proof fn lemma_cpuid_hides_vmx(v: VcpuView, host: CpuIdResult)
    requires
        v.bound,
        leaf_of(v.guest_regs.rax) == LEAF_FEATURE_INFO,
    ensures
        v.after_cpuid(host).0.guest_regs.rcx & 0x20 == 0,
        v.after_cpuid(host).0.guest_regs.rcx & 0x8000_0000 == 0x8000_0000,
{
    lemma_feature_leaf_masked(v.guest_regs.rax, v.guest_regs.rcx, host);
    let ecx = crate::vmx::cpuid::emulated(v.guest_regs.rax, v.guest_regs.rcx, host).ecx;
    assert((ecx as u64) & 0x20 == 0 && (ecx as u64) & 0x8000_0000 == 0x8000_0000) by (bit_vector)
        requires
            ecx & 0x20 == 0,
            ecx & 0x8000_0000 == 0x8000_0000,
    ;
}

/// After a `CPUID` for sub-leaf 0 of the extended feature leaf the guest's
/// `RCX` has bit 5 clear, whatever the host processor answers and whatever
/// the upper halves of the guest's `RAX` and `RCX` held.
pub proof fn lemma_cpuid_hides_waitpkg(v: VcpuView, host: CpuIdResult)
    requires
        v.bound,
        leaf_of(v.guest_regs.rax) == LEAF_STRUCTURED_EXTENDED_FEATURE_FLAGS_ENUMERATION,
        subleaf_of(v.guest_regs.rcx) == 0,
    ensures
        v.after_cpuid(host).0.guest_regs.rcx & 0x20 == 0,
        v.after_cpuid(host).0.guest_regs.rax == host.eax,
        v.after_cpuid(host).0.guest_regs.rbx == host.ebx,
        v.after_cpuid(host).0.guest_regs.rdx == host.edx,
{
    lemma_waitpkg_hidden(v.guest_regs.rax, v.guest_regs.rcx, host);
    let ecx = crate::vmx::cpuid::emulated(v.guest_regs.rax, v.guest_regs.rcx, host).ecx;
    assert((ecx as u64) & 0x20 == 0) by (bit_vector)
        requires
            ecx & 0x20 == 0,
    ;
}

/// An `XSETBV` of the guest names its register by the low half of `RCX` and
/// its value by the low half of `RDX` above the low half of `RAX`; the upper
/// halves of the three registers play no part.
pub proof fn lemma_xsetbv_operands(v: VcpuView)
    ensures
        v.xsetbv_index() == v.guest_regs.rcx & 0xffff_ffff,
        v.xsetbv_value() == ((v.guest_regs.rdx & 0xffff_ffff) << 32) | (v.guest_regs.rax
            & 0xffff_ffff),
{
    lemma_bits_of(v.guest_regs.rcx);
    lemma_bits_of(v.guest_regs.rdx);
    lemma_bits_of(v.guest_regs.rax);
}

proof fn lemma_word_has(word: u32, set: u32, part: u32)
    by (bit_vector)
    requires
        word & set == set,
        set & part == part,
    ensures
        word & part == part,
{
}

proof fn lemma_word_lacks(word: u32, clear: u32, part: u32)
    by (bit_vector)
    requires
        word & clear == 0,
        clear & part == part,
    ensures
        word & part == 0,
{
}

/// Where the processor supports what this core needs, every control that the
/// setup switches on is on in the control words, and every control that it
/// switches off is off: NMIs and external interrupts exit; every I/O
/// instruction exits, the MSR bitmap and the secondary controls are in use,
/// loads and stores of CR3 and CR8 do not exit; EPT, `RDTSCP`, `INVPCID`,
/// unrestricted guest and `XSAVES` are enabled; exits and entries switch
/// `IA32_PAT` and `IA32_EFER`, and exits go to a 64-bit host that
/// acknowledges the interrupt.
pub proof fn lemma_controls_programmed(
    c: Controls,
    caps: VmxCapabilities,
    ept_root: usize,
    msr_bitmap_addr: usize,
    flag: u32,
)
    requires
        controls_error(caps) is None,
    ensures
        PINBASED_SET & flag == flag ==> controls_programmed(
            c,
            caps,
            ept_root,
            msr_bitmap_addr,
        ).pinbased_exec_controls & flag == flag,
        PRIMARY_SET & flag == flag ==> controls_programmed(
            c,
            caps,
            ept_root,
            msr_bitmap_addr,
        ).primary_procbased_exec_controls & flag == flag,
        PRIMARY_CLEAR & flag == flag ==> controls_programmed(
            c,
            caps,
            ept_root,
            msr_bitmap_addr,
        ).primary_procbased_exec_controls & flag == 0,
        SECONDARY_SET & flag == flag ==> controls_programmed(
            c,
            caps,
            ept_root,
            msr_bitmap_addr,
        ).secondary_procbased_exec_controls & flag == flag,
        EXIT_SET & flag == flag ==> controls_programmed(
            c,
            caps,
            ept_root,
            msr_bitmap_addr,
        ).vmexit_controls & flag == flag,
        ENTRY_SET & flag == flag ==> controls_programmed(
            c,
            caps,
            ept_root,
            msr_bitmap_addr,
        ).vmentry_controls & flag == flag,
        controls_programmed(c, caps, ept_root, msr_bitmap_addr).exception_bitmap == 0x40,
        controls_programmed(c, caps, ept_root, msr_bitmap_addr).io_bitmap_a_addr == 0,
        controls_programmed(c, caps, ept_root, msr_bitmap_addr).io_bitmap_b_addr == 0,
{
    let p = controls_programmed(c, caps, ept_root, msr_bitmap_addr);
    lemma_control_word(caps.true_pinbased_ctls, caps.pinbased_ctls as u32, PINBASED_SET, 0);
    lemma_control_word(
        caps.true_procbased_ctls,
        caps.procbased_ctls as u32,
        PRIMARY_SET,
        PRIMARY_CLEAR,
    );
    lemma_control_word(caps.procbased_ctls2, 0, SECONDARY_SET, 0);
    lemma_control_word(caps.true_exit_ctls, caps.exit_ctls as u32, EXIT_SET, 0);
    lemma_control_word(caps.true_entry_ctls, caps.entry_ctls as u32, ENTRY_SET, 0);
    if PINBASED_SET & flag == flag {
        lemma_word_has(p.pinbased_exec_controls, PINBASED_SET, flag);
    }
    if PRIMARY_SET & flag == flag {
        lemma_word_has(p.primary_procbased_exec_controls, PRIMARY_SET, flag);
    }
    if PRIMARY_CLEAR & flag == flag {
        lemma_word_lacks(p.primary_procbased_exec_controls, PRIMARY_CLEAR, flag);
    }
    if SECONDARY_SET & flag == flag {
        lemma_word_has(p.secondary_procbased_exec_controls, SECONDARY_SET, flag);
    }
    if EXIT_SET & flag == flag {
        lemma_word_has(p.vmexit_controls, EXIT_SET, flag);
    }
    if ENTRY_SET & flag == flag {
        lemma_word_has(p.vmentry_controls, ENTRY_SET, flag);
    }
}

} // verus!

use hypercraft::error::HyperError;
use hypercraft::vmx::cpuid::{emulate, query, CpuIdResult, CpuidQuery};
use hypercraft::vmx::definitions::VmxExitReason;
use hypercraft::vmx::region::MsrBitmap;
use hypercraft::vmx::regs::GeneralRegisters;
use hypercraft::vmx::vcpu::{
    get_tr_base, EntryKind, ExitOutcome, FatalExit, HostContext, VmxCapabilities, VmxVcpu,
};
use hypercraft::vmx::vmcs::{
    ept_pointer, set_control, AccessFlags, ExitFields, GuestState, Segment, Vmcs, VmxExitInfo,
    VmxInterruptInfo, VmxInterruptionType, VmxIoExitInfo,
};
use hypercraft::vmx::xstate::{check_xcr0, XState};

const ENTRY: usize = 0x7c00;
const EPT_ROOT: usize = 0x12_3456_7000;
const ANY: u64 = 0xffff_ffff_0000_0000;
const RFLAGS_IF: usize = 0x200;

fn capabilities() -> VmxCapabilities {
    VmxCapabilities {
        pinbased_ctls: 0,
        true_pinbased_ctls: 0xffff_ffff_0000_0016,
        procbased_ctls: 0x0401_e172,
        true_procbased_ctls: 0xffff_ffff_0400_6172,
        procbased_ctls2: ANY,
        exit_ctls: 0,
        true_exit_ctls: ANY,
        entry_ctls: 0,
        true_entry_ctls: ANY,
    }
}

fn host() -> HostContext {
    HostContext {
        xcr0: 0x7,
        xss: 0x100,
        vmcs_phys_addr: 0x5000,
        msr_bitmap_phys_addr: 0x6000,
        ia32_pat: 0x0007_0406_0007_0406,
        ia32_efer: 0xd01,
        cr0: 0x8005_0033,
        cr3: 0x1000,
        cr4: 0x0004_26f0,
        es_selector: 0x10,
        cs_selector: 0x8,
        ss_selector: 0x10,
        ds_selector: 0x10,
        fs_selector: 0,
        gs_selector: 0,
        tr_selector: 0x28,
        fs_base: 0x11,
        gs_base: 0x22,
        tr_base: 0x33,
        gdtr_base: 0x44,
        idtr_base: 0x55,
        vmx_exit: 0xffff_8000_0010_0000,
        capabilities: capabilities(),
    }
}

fn vcpu() -> VmxVcpu {
    VmxVcpu::new(3, 0x12, ENTRY, EPT_ROOT, &host()).unwrap()
}

/// A virtual CPU that is bound and has run once.
fn launched() -> VmxVcpu {
    let mut vcpu = vcpu();
    vcpu.bind_to_current_processor();
    assert_eq!(vcpu.prepare_entry(0xfff0), EntryKind::Launch);
    exit_with(&mut vcpu, GeneralRegisters::default(), 12);
    assert!(vcpu.launched());
    vcpu
}

fn exit_with(vcpu: &mut VmxVcpu, regs: GeneralRegisters, reason: u32) {
    let guest = vcpu.vmcs().guest;
    let exit = ExitFields { exit_reason: reason, ..vcpu.vmcs().exit };
    vcpu.record_exit(regs, guest, exit);
}

fn set_rflags(vcpu: &mut VmxVcpu, rflags: usize) {
    let regs = *vcpu.regs();
    let guest = GuestState { rflags, ..vcpu.vmcs().guest };
    let exit = vcpu.vmcs().exit;
    vcpu.record_exit(regs, guest, exit);
}

#[test]
fn new_vcpu_starts_in_real_mode_at_the_entry() {
    let vcpu = vcpu();
    assert_eq!(vcpu.vcpu_id(), 3);
    assert!(!vcpu.launched());
    assert!(!vcpu.is_bound());
    assert_eq!(vcpu.pending_event_count(), 0);
    assert_eq!(*vcpu.regs(), GeneralRegisters::default());
    assert_eq!(vcpu.region().phys_addr, 0x5000);
    assert_eq!(vcpu.region().revision_id, 0x12);
    let data = Segment { selector: 0, base: 0, limit: 0xffff, access_rights: 0x93 };
    let guest = vcpu.vmcs().guest;
    assert_eq!(guest.es, data);
    assert_eq!(guest.ss, data);
    assert_eq!(guest.ds, data);
    assert_eq!(guest.fs, data);
    assert_eq!(guest.gs, data);
    assert_eq!(guest.cs, Segment { access_rights: 0x9b, ..data });
    assert_eq!(guest.tr, Segment { access_rights: 0x8b, ..data });
    assert_eq!(guest.ldtr, Segment { access_rights: 0x82, ..data });
    assert_eq!(guest.gdtr_base, 0);
    assert_eq!(guest.gdtr_limit, 0xffff);
    assert_eq!(guest.idtr_base, 0);
    assert_eq!(guest.idtr_limit, 0xffff);
    assert_eq!(guest.cr0, 0x30);
    assert_eq!(guest.cr3, 0);
    assert_eq!(guest.cr4, 0x2000);
    assert_eq!(guest.dr7, 0x400);
    assert_eq!(guest.rsp, 0);
    assert_eq!(guest.rip, ENTRY);
    assert_eq!(guest.rflags, 0x2);
    assert_eq!(guest.link_ptr, u64::MAX);
    assert_eq!(guest.ia32_pat, 0x0007_0406_0007_0406);
    assert_eq!(guest.ia32_efer, 0);
    assert_eq!(guest.interruptibility_state, 0);
    assert_eq!(guest.activity_state, 0);
}

#[test]
fn new_vcpu_takes_the_host_state_over() {
    let vcpu = vcpu();
    let h = vcpu.vmcs().host;
    assert_eq!(h.ia32_pat, 0x0007_0406_0007_0406);
    assert_eq!(h.ia32_efer, 0xd01);
    assert_eq!(h.cr0, 0x8005_0033);
    assert_eq!(h.cr3, 0x1000);
    assert_eq!(h.cr4, 0x0004_26f0);
    assert_eq!(h.cs_selector, 0x8);
    assert_eq!(h.es_selector, 0x10);
    assert_eq!(h.tr_selector, 0x28);
    assert_eq!(h.fs_base, 0x11);
    assert_eq!(h.gs_base, 0x22);
    assert_eq!(h.tr_base, 0x33);
    assert_eq!(h.gdtr_base, 0x44);
    assert_eq!(h.idtr_base, 0x55);
    assert_eq!(h.rip, 0xffff_8000_0010_0000);
    assert_eq!(h.rsp, 0);
    assert_eq!(h.ia32_sysenter_cs, 0);
    assert_eq!(vcpu.xstate(), XState { host_xcr0: 7, guest_xcr0: 7, host_xss: 0x100, guest_xss: 0x100 });
    assert_eq!(XState::new(3, 4), XState { host_xcr0: 3, guest_xcr0: 3, host_xss: 4, guest_xss: 4 });
    assert_eq!(XState::enable_xsave(0x20), 0x4_0020);
}

#[test]
fn new_vcpu_programs_the_controls() {
    let vcpu = vcpu();
    let c = vcpu.vmcs().control;
    // Fixed bits 0x16, the two wanted bits, nothing taken from the old value.
    assert_eq!(c.pinbased_exec_controls, 0x1f);
    // Fixed bits 0x0400_6172, the wanted bits 0x9100_0000; of the old value
    // 0x0401_e172 only bit 16 is free, and that one is to be cleared.
    assert_eq!(c.primary_procbased_exec_controls, 0x9500_6172);
    assert_eq!(c.secondary_procbased_exec_controls, 0x0010_108a);
    assert_eq!(c.vmexit_controls, 0x003c_8200);
    assert_eq!(c.vmentry_controls, 0xc000);
    assert_eq!(c.exception_bitmap, 1 << 6);
    assert_eq!(c.io_bitmap_a_addr, 0);
    assert_eq!(c.io_bitmap_b_addr, 0);
    assert_eq!(c.msr_bitmaps_addr, 0x6000);
    assert_eq!(c.eptp, 0x12_3456_701e);
    assert_eq!(c.vmexit_msr_store_count, 0);
    assert_eq!(c.vmexit_msr_load_count, 0);
    assert_eq!(c.vmentry_msr_load_count, 0);
    assert_eq!(c.cr0_guest_host_mask, 0x20);
    assert_eq!(c.cr0_read_shadow, 0x20);
    assert_eq!(c.cr4_guest_host_mask, 0x2000);
    assert_eq!(c.cr4_read_shadow, 0);
    assert_eq!(c.vmentry_interruption_info, 0);
    assert_eq!(ept_pointer(0x8000_0fff), 0x8000_001e);
}

#[test]
fn new_vcpu_fails_where_a_control_is_missing() {
    let mut h = host();
    h.capabilities.procbased_ctls2 = 0xffef_ffff_0000_0000;
    assert_eq!(VmxVcpu::new(0, 1, ENTRY, EPT_ROOT, &h).err(), Some(HyperError::NotSupported));
    let mut h = host();
    h.capabilities.true_procbased_ctls = 0xffff_ffff_0000_8000;
    assert_eq!(VmxVcpu::new(0, 1, ENTRY, EPT_ROOT, &h).err(), Some(HyperError::NotSupported));
    let mut h = host();
    h.capabilities.true_entry_ctls = 0;
    assert_eq!(VmxVcpu::new(0, 1, ENTRY, EPT_ROOT, &h).err(), Some(HyperError::NotSupported));
}

#[test]
fn set_control_follows_the_capability() {
    assert_eq!(set_control(ANY, 0, 0x9, 0), Ok(0x9));
    assert_eq!(set_control(0x0000_00ff_0000_0016, 0xffff_ffff, 0x9, 0x20), Ok(0xdf));
    assert_eq!(set_control(0x0000_00ff_0000_0016, 0, 0x9, 0x20), Ok(0x1f));
    assert_eq!(set_control(ANY, 0x1234_5678, 0, 0), Ok(0x1234_5678));
    assert_eq!(set_control(ANY, 0, 0x3, 0x2), Err(HyperError::InvalidParam));
    assert_eq!(set_control(0x0000_00f7_0000_0000, 0, 0x9, 0), Err(HyperError::NotSupported));
    assert_eq!(set_control(0x0000_00ff_0000_0010, 0, 0x1, 0x10), Err(HyperError::NotSupported));
    // Setting and clearing one bit is reported before what the processor lacks.
    assert_eq!(set_control(0, 0, 0x1, 0x1), Err(HyperError::InvalidParam));
}

#[test]
fn setup_needs_the_control_block_to_be_current() {
    let mut vcpu = vcpu();
    let before = *vcpu.vmcs();
    assert_eq!(vcpu.setup_vmcs_host(&host()), Err(HyperError::BadState));
    assert_eq!(vcpu.setup_vmcs_guest(0x1000, &host()), Err(HyperError::BadState));
    assert_eq!(vcpu.setup_vmcs_control(0, &capabilities()), Err(HyperError::BadState));
    assert_eq!(vcpu.advance_rip(2), Err(HyperError::BadState));
    assert_eq!(vcpu.set_interrupt_window(true), Err(HyperError::BadState));
    assert_eq!(vcpu.inject_event(3, None), Err(HyperError::BadState));
    assert_eq!(vcpu.exit_info(), Err(HyperError::BadState));
    assert_eq!(vcpu.interrupt_exit_info().err(), Some(HyperError::BadState));
    assert_eq!(vcpu.io_exit_info().err(), Some(HyperError::BadState));
    assert_eq!(vcpu.nested_page_fault_info().err(), Some(HyperError::BadState));
    assert_eq!(*vcpu.vmcs(), before);
    vcpu.bind_to_current_processor();
    assert!(vcpu.is_bound());
    assert_eq!(vcpu.setup_vmcs_guest(0x1000, &host()), Ok(()));
    assert_eq!(vcpu.rip(), 0x1000);
    assert_eq!(vcpu.setup_vmcs(0x2000, EPT_ROOT, &host()), Ok(()));
    assert!(!vcpu.is_bound());
    let mut h = host();
    h.capabilities.true_exit_ctls = 0;
    assert_eq!(vcpu.setup_vmcs(0x3000, EPT_ROOT, &h), Err(HyperError::NotSupported));
    assert!(vcpu.is_bound());
    assert_eq!(vcpu.rip(), 0x3000);
    vcpu.unbind_from_current_processor();
    assert!(!vcpu.is_bound());
}

#[test]
fn msr_bitmap_intercepts_the_local_apic_only() {
    let vcpu = vcpu();
    let bitmap = vcpu.msr_bitmap();
    assert_eq!(bitmap.phys_addr(), 0x6000);
    for write in [false, true] {
        assert!(bitmap.is_intercepted(0x1b, write));
        assert!(bitmap.is_intercepted(0x800, write));
        assert!(bitmap.is_intercepted(0x820, write));
        assert!(bitmap.is_intercepted(0x83f, write));
        assert!(!bitmap.is_intercepted(0x1a, write));
        assert!(!bitmap.is_intercepted(0x1c, write));
        assert!(!bitmap.is_intercepted(0x7ff, write));
        assert!(!bitmap.is_intercepted(0x840, write));
        assert!(!bitmap.is_intercepted(0, write));
        assert!(!bitmap.is_intercepted(0x1fff, write));
        assert!(!bitmap.is_intercepted(0xc000_0080, write));
        assert!(!bitmap.is_intercepted(0xc000_081b, write));
    }
    let bytes = bitmap.as_bytes();
    assert_eq!(bytes.len(), 4096);
    let mut expected = vec![0u8; 4096];
    for quarter in [0usize, 2048] {
        expected[quarter + 3] = 0x08;
        for byte in 0x100..0x108 {
            expected[quarter + byte] = 0xff;
        }
    }
    assert_eq!(*bytes, expected);
}

#[test]
fn msr_bitmap_sets_and_clears_single_bits() {
    let mut bitmap = MsrBitmap::passthrough_all(0x9000);
    assert!(bitmap.as_bytes().iter().all(|b| *b == 0));
    bitmap.set_read_intercept(0xc000_0081, true);
    bitmap.set_write_intercept(0x9, true);
    bitmap.set_write_intercept(0xa, true);
    assert_eq!(bitmap.as_bytes()[1024 + 0x10], 0x02);
    assert_eq!(bitmap.as_bytes()[2048 + 1], 0x06);
    assert!(bitmap.is_intercepted(0xc000_0081, false));
    assert!(!bitmap.is_intercepted(0xc000_0081, true));
    assert!(!bitmap.is_intercepted(0x9, false));
    bitmap.set_write_intercept(0x9, false);
    assert_eq!(bitmap.as_bytes()[2048 + 1], 0x04);
    bitmap.set_write_intercept(0xc000_1fff, true);
    assert_eq!(bitmap.as_bytes()[4095], 0x80);
}

#[test]
fn first_entry_is_a_launch_and_every_later_one_a_resume() {
    let mut vcpu = vcpu();
    vcpu.bind_to_current_processor();
    assert!(!vcpu.launched());
    assert_eq!(vcpu.prepare_entry(0xaaa0), EntryKind::Launch);
    // Nothing has shown yet that the guest has run.
    assert!(!vcpu.launched());
    assert_eq!(vcpu.vmcs().host.rsp, 0xaaa0);
    exit_with(&mut vcpu, GeneralRegisters::default(), 12);
    assert!(vcpu.launched());
    assert!(matches!(vcpu.handle_exit(), ExitOutcome::Unhandled(_)));
    assert_eq!(vcpu.prepare_entry(0xbbb0), EntryKind::Resume);
    assert_eq!(vcpu.prepare_entry(0xbbb0), EntryKind::Resume);
    assert!(vcpu.launched());
    assert_eq!(vcpu.vmcs().host.rsp, 0xaaa0);
    exit_with(&mut vcpu, GeneralRegisters::default(), 0x8000_0021);
    assert!(vcpu.launched());
    assert_eq!(vcpu.prepare_entry(0), EntryKind::Resume);
}

#[test]
fn a_refused_entry_does_not_launch() {
    let mut vcpu = vcpu();
    vcpu.bind_to_current_processor();
    assert_eq!(vcpu.prepare_entry(0x1000), EntryKind::Launch);
    exit_with(&mut vcpu, GeneralRegisters::default(), 0x8000_0021);
    assert!(!vcpu.launched());
    assert!(matches!(vcpu.handle_exit(), ExitOutcome::Fatal(FatalExit::EntryFailure(_))));
    assert!(!vcpu.launched());
    assert_eq!(vcpu.prepare_entry(0x2000), EntryKind::Launch);
    assert_eq!(vcpu.vmcs().host.rsp, 0x2000);
}

#[test]
fn launch_injects_the_head_of_the_queue() {
    let mut vcpu = vcpu();
    vcpu.bind_to_current_processor();
    vcpu.queue_event(6, None);
    vcpu.queue_event(13, Some(0));
    assert_eq!(vcpu.prepare_entry(0x7000), EntryKind::Launch);
    assert_eq!(vcpu.pending_event_count(), 1);
    assert_eq!(vcpu.vmcs().control.vmentry_interruption_info, 0x8000_0306);
    assert_eq!(vcpu.vmcs().host.rsp, 0x7000);
    exit_with(&mut vcpu, GeneralRegisters::default(), 12);
    assert_eq!(vcpu.prepare_entry(0), EntryKind::Resume);
    assert_eq!(vcpu.pending_event_count(), 0);
    assert_eq!(vcpu.vmcs().control.vmentry_interruption_info, 0x8000_0b0d);
}

#[test]
fn events_queued_before_any_entry_go_in_from_the_first_entry_on() {
    let mut vcpu = vcpu();
    vcpu.bind_to_current_processor();
    set_rflags(&mut vcpu, 0x2 | RFLAGS_IF);
    vcpu.queue_event(40, None);
    vcpu.queue_event(41, None);
    vcpu.queue_event(42, None);
    let mut injected = Vec::new();
    for run in 0..3usize {
        let kind = vcpu.prepare_entry(0x7000);
        assert_eq!(kind == EntryKind::Launch, run == 0);
        injected.push(vcpu.vmcs().control.vmentry_interruption_info);
        assert_eq!(vcpu.pending_event_count(), 2 - run);
        exit_with(&mut vcpu, GeneralRegisters::default(), 12);
        assert!(matches!(vcpu.handle_exit(), ExitOutcome::Unhandled(_)));
    }
    assert_eq!(injected, [0x8000_0028, 0x8000_0029, 0x8000_002a]);
}

#[test]
fn an_injected_event_is_delivered_once() {
    let mut vcpu = launched();
    exit_with(&mut vcpu, GeneralRegisters::default(), 12);
    set_rflags(&mut vcpu, 0x2 | RFLAGS_IF);
    vcpu.queue_event(33, None);
    vcpu.prepare_entry(0);
    assert_eq!(vcpu.vmcs().control.vmentry_interruption_info, 0x8000_0021);
    // The exit disarms the event; the next entry has nothing to inject.
    exit_with(&mut vcpu, GeneralRegisters::default(), 12);
    assert_eq!(vcpu.vmcs().control.vmentry_interruption_info, 0x0000_0021);
    vcpu.prepare_entry(0);
    assert_eq!(vcpu.pending_event_count(), 0);
    assert_eq!(vcpu.vmcs().control.vmentry_interruption_info & 0x8000_0000, 0);
    // A gated entry injects nothing either.
    set_rflags(&mut vcpu, 0x2);
    vcpu.queue_event(34, None);
    vcpu.prepare_entry(0);
    assert_eq!(vcpu.pending_event_count(), 1);
    assert_eq!(vcpu.vmcs().control.vmentry_interruption_info & 0x8000_0000, 0);
}

#[test]
fn events_are_injected_in_the_order_queued() {
    let mut vcpu = launched();
    set_rflags(&mut vcpu, 0x2 | RFLAGS_IF);
    assert!(vcpu.allow_interrupt());
    vcpu.queue_event(33, None);
    vcpu.queue_event(14, Some(0x7));
    vcpu.queue_event(0x80, None);
    assert_eq!(vcpu.pending_event_count(), 3);
    vcpu.prepare_entry(0);
    assert_eq!(vcpu.vmcs().control.vmentry_interruption_info, 0x8000_0021);
    assert_eq!(vcpu.pending_event_count(), 2);
    vcpu.prepare_entry(0);
    assert_eq!(vcpu.vmcs().control.vmentry_interruption_info, 0x8000_0b0e);
    assert_eq!(vcpu.vmcs().control.vmentry_exception_err_code, 0x7);
    assert_eq!(vcpu.pending_event_count(), 1);
    vcpu.prepare_entry(0);
    assert_eq!(vcpu.vmcs().control.vmentry_interruption_info, 0x8000_0080);
    assert_eq!(vcpu.pending_event_count(), 0);
    vcpu.prepare_entry(0);
    assert_eq!(vcpu.vmcs().control.vmentry_interruption_info, 0x8000_0080);
    assert_eq!(vcpu.inject_pending_events(), Ok(()));
}

#[test]
fn interrupt_window_gate() {
    let mut vcpu = launched();
    assert!(!vcpu.allow_interrupt());
    vcpu.queue_event(33, None);
    let before = vcpu.vmcs().control.primary_procbased_exec_controls;
    assert_eq!(before & 0x4, 0);
    assert_eq!(vcpu.prepare_entry(0), EntryKind::Resume);
    assert_eq!(vcpu.pending_event_count(), 1);
    assert_eq!(vcpu.vmcs().control.primary_procbased_exec_controls, before | 0x4);
    assert_eq!(vcpu.vmcs().control.vmentry_interruption_info, 0);

    // The guest sets IF: the window opens and the processor exits.
    set_rflags(&mut vcpu, 0x2 | RFLAGS_IF);
    exit_with(&mut vcpu, GeneralRegisters::default(), 7);
    assert_eq!(vcpu.handle_exit(), ExitOutcome::Handled);
    assert_eq!(vcpu.vmcs().control.primary_procbased_exec_controls, before);
    assert_eq!(vcpu.pending_event_count(), 1);

    assert_eq!(vcpu.prepare_entry(0), EntryKind::Resume);
    assert_eq!(vcpu.pending_event_count(), 0);
    assert_eq!(vcpu.vmcs().control.vmentry_interruption_info, 0x8000_0021);
}

#[test]
fn blocked_interrupts_gate_the_injection_too() {
    let mut vcpu = launched();
    let regs = *vcpu.regs();
    let guest = GuestState {
        rflags: 0x2 | RFLAGS_IF,
        interruptibility_state: 1,
        ..vcpu.vmcs().guest
    };
    let exit = vcpu.vmcs().exit;
    vcpu.record_exit(regs, guest, exit);
    assert!(!vcpu.allow_interrupt());
    vcpu.queue_event(32, None);
    vcpu.queue_event(3, None);
    vcpu.prepare_entry(0);
    assert_eq!(vcpu.pending_event_count(), 2);
    assert_eq!(vcpu.vmcs().control.primary_procbased_exec_controls & 0x4, 0x4);
}

#[test]
fn cpuid_vendor() {
    let mut vcpu = launched();
    let regs = GeneralRegisters {
        rax: 0xabcd_0000_4000_0000,
        rbx: u64::MAX,
        rcx: u64::MAX,
        rdx: u64::MAX,
        rsi: 5,
        ..GeneralRegisters::default()
    };
    exit_with(&mut vcpu, regs, 10);
    assert_eq!(vcpu.handle_exit(), ExitOutcome::Handled);
    let regs = *vcpu.regs();
    assert_eq!(regs.rax, 0x4000_0001);
    let mut vendor = Vec::new();
    vendor.extend_from_slice(&(regs.rbx as u32).to_le_bytes());
    vendor.extend_from_slice(&(regs.rcx as u32).to_le_bytes());
    vendor.extend_from_slice(&(regs.rdx as u32).to_le_bytes());
    assert_eq!(vendor, b"RVMRVMRVMRVM");
    assert_eq!(regs.rbx >> 32, 0);
    assert_eq!(regs.rcx >> 32, 0);
    assert_eq!(regs.rdx >> 32, 0);
    assert_eq!(regs.rsi, 5);
    assert_eq!(vcpu.rip(), ENTRY + 2);
}

#[test]
fn cpuid_hypervisor_feature_leaf_is_zero() {
    let mut vcpu = launched();
    vcpu.regs_mut().rax = 0x4000_0001;
    vcpu.regs_mut().rbx = 9;
    assert_eq!(vcpu.handle_cpuid(), Ok(()));
    assert_eq!(vcpu.regs().rax, 0);
    assert_eq!(vcpu.regs().rbx, 0);
    assert_eq!(vcpu.regs().rcx, 0);
    assert_eq!(vcpu.regs().rdx, 0);
    assert_eq!(vcpu.rip(), ENTRY + 2);
}

#[test]
fn cpuid_feature_leaf_hides_vmx_on_this_machine() {
    let mut vcpu = launched();
    vcpu.regs_mut().rax = 1;
    assert_eq!(vcpu.handle_cpuid(), Ok(()));
    assert_eq!(vcpu.regs().rcx & (1 << 5), 0);
    assert_eq!(vcpu.regs().rcx & (1 << 31), 1 << 31);
    assert_eq!(vcpu.regs().rcx >> 32, 0);
    assert_eq!(vcpu.rip(), ENTRY + 2);
    // Leaf 0 is the host's own: the highest leaf and a vendor string.
    vcpu.regs_mut().rax = 0;
    vcpu.regs_mut().rcx = 0;
    assert_eq!(vcpu.handle_cpuid(), Ok(()));
    assert!(vcpu.regs().rax >= 1);
    assert_ne!(vcpu.regs().rbx, 0);
    assert_eq!(vcpu.rip(), ENTRY + 4);
}

#[test]
fn cpuid_exit_hands_the_query_out() {
    let mut vcpu = launched();
    let regs = GeneralRegisters {
        rax: 0xffff_ffff_0000_0007,
        rcx: 0x1_0000_0000,
        ..GeneralRegisters::default()
    };
    exit_with(&mut vcpu, regs, 10);
    let q = CpuidQuery { leaf: 7, subleaf: 0, guest_xstate: false };
    assert_eq!(vcpu.cpuid_query(), Some(q));
    assert_eq!(vcpu.handle_exit(), ExitOutcome::Cpuid(q));
    assert_eq!(*vcpu.regs(), regs);
    assert_eq!(vcpu.rip(), ENTRY);
    let host = CpuIdResult { eax: 1, ebx: 2, ecx: 0x20, edx: 4 };
    assert_eq!(vcpu.complete_cpuid(host), Ok(()));
    assert_eq!(vcpu.regs().rax, 1);
    assert_eq!(vcpu.regs().rbx, 2);
    assert_eq!(vcpu.regs().rcx, 0);
    assert_eq!(vcpu.regs().rdx, 4);
    assert_eq!(vcpu.rip(), ENTRY + 2);

    assert_eq!(query(0xd, 1), Some(CpuidQuery { leaf: 0xd, subleaf: 1, guest_xstate: true }));
    assert_eq!(query(0x1_0000_000d, 0), Some(CpuidQuery { leaf: 0xd, subleaf: 0, guest_xstate: true }));
    assert_eq!(query(1, 0xffff_ffff), Some(CpuidQuery { leaf: 1, subleaf: 0xffff_ffff, guest_xstate: false }));
    assert_eq!(query(0x4000_0000, 0), None);
    assert_eq!(query(0x4000_0001, 3), None);
    assert_eq!(query(0x4000_0002, 3), Some(CpuidQuery { leaf: 0x4000_0002, subleaf: 3, guest_xstate: false }));

    // A failed entry is seen before the query is handed out.
    exit_with(&mut vcpu, regs, 0x8000_000a);
    assert!(matches!(vcpu.handle_exit(), ExitOutcome::Fatal(FatalExit::EntryFailure(_))));
}

#[test]
fn cpuid_emulation_of_given_host_answers() {
    let host = CpuIdResult { eax: 0x000a_0655, ebx: 0x1234, ecx: 0x7ffa_fbff, edx: 0xbfeb_fbff };
    let guest = emulate(1, 0, host);
    assert_eq!(guest, CpuIdResult { ecx: 0xfffa_fbdf, ..host });
    let all = CpuIdResult { eax: 1, ebx: 2, ecx: 0xffff_ffff, edx: 4 };
    assert_eq!(emulate(7, 0, all), CpuIdResult { ecx: 0xffff_ffdf, ..all });
    assert_eq!(emulate(7, 1, all), all);
    assert_eq!(emulate(0x1_0000_0007, 0x1_0000_0000, all), CpuIdResult { ecx: 0xffff_ffdf, ..all });
    assert_eq!(emulate(7, 0x1_0000_0001, all), all);
    assert_eq!(emulate(0xd, 0, all), all);
    assert_eq!(emulate(0x8000_0001, 0, all), all);
    assert_eq!(
        emulate(0x4000_0000, 7, all),
        CpuIdResult { eax: 0x4000_0001, ebx: 0x524d_5652, ecx: 0x5652_4d56, edx: 0x4d56_524d }
    );
    assert_eq!(emulate(0x4000_0001, 0, all), CpuIdResult { eax: 0, ebx: 0, ecx: 0, edx: 0 });
    let mut vcpu = launched();
    vcpu.regs_mut().rax = 0xd;
    vcpu.regs_mut().rcx = 1;
    assert_eq!(vcpu.complete_cpuid(all), Ok(()));
    assert_eq!(vcpu.regs().rax, 1);
    assert_eq!(vcpu.regs().rbx, 2);
    assert_eq!(vcpu.regs().rcx, 0xffff_ffff);
    assert_eq!(vcpu.regs().rdx, 4);
    assert_eq!(vcpu.rip(), ENTRY + 2);
    vcpu.unbind_from_current_processor();
    let before = *vcpu.regs();
    assert_eq!(vcpu.complete_cpuid(host), Err(HyperError::BadState));
    assert_eq!(*vcpu.regs(), before);
}

#[test]
fn xsetbv_rejects_avx_without_sse() {
    let mut vcpu = launched();
    let regs = GeneralRegisters { rax: 0b101, rcx: 0, rdx: 0, ..GeneralRegisters::default() };
    exit_with(&mut vcpu, regs, 55);
    assert_eq!(vcpu.handle_xsetbv(), Err(HyperError::InvalidParam));
    assert_eq!(vcpu.xstate().guest_xcr0, 7);
    assert_eq!(vcpu.rip(), ENTRY);
    match vcpu.handle_exit() {
        ExitOutcome::Fatal(FatalExit::HandlerFailed(info, error)) => {
            assert_eq!(info.exit_reason, VmxExitReason::XSETBV);
            assert_eq!(error, HyperError::InvalidParam);
        }
        other => panic!("{:?}", other),
    }
    assert_eq!(vcpu.xstate().guest_xcr0, 7);
    assert_eq!(vcpu.rip(), ENTRY);
}

#[test]
fn xsetbv_validates_every_rule() {
    for bad in [
        0u64,
        0b10,
        0b101,
        0b1011,
        0b1_0011,
        0b10_0111,
        0b110_0111,
        0b1110_0011,
        0b1010_0111,
        0x1_0000_0003,
        0x103,
        0x403,
        1 << 63 | 1,
    ] {
        assert_eq!(check_xcr0(bad), None, "{:#x}", bad);
        let mut vcpu = launched();
        vcpu.regs_mut().rax = bad & 0xffff_ffff;
        vcpu.regs_mut().rdx = bad >> 32;
        assert_eq!(vcpu.handle_xsetbv(), Err(HyperError::InvalidParam));
        assert_eq!(vcpu.xstate().guest_xcr0, 7);
        assert_eq!(vcpu.rip(), ENTRY);
    }
    for good in [0b1u64, 0b11, 0b111, 0b1_1011, 0b1_1111, 0b1110_0111, 0xff, 0x203, 0x2ff] {
        assert_eq!(check_xcr0(good), Some(good), "{:#x}", good);
    }
}

#[test]
fn xsetbv_loads_a_valid_value() {
    let mut vcpu = launched();
    let regs = GeneralRegisters {
        rax: 0xdead_beef_0000_00e7,
        rcx: 0xffff_ffff_0000_0000,
        rdx: 0x1234_5678_0000_0000,
        ..GeneralRegisters::default()
    };
    exit_with(&mut vcpu, regs, 55);
    assert_eq!(vcpu.handle_exit(), ExitOutcome::Handled);
    assert_eq!(vcpu.xstate().guest_xcr0, 0xe7);
    assert_eq!(vcpu.xstate().host_xcr0, 7);
    assert_eq!(vcpu.rip(), ENTRY + 3);
    vcpu.regs_mut().rcx = 1;
    assert_eq!(vcpu.handle_xsetbv(), Err(HyperError::NotSupported));
    assert_eq!(vcpu.xstate().guest_xcr0, 0xe7);
    assert_eq!(vcpu.rip(), ENTRY + 3);
    // Without the control block nothing is stored.
    vcpu.regs_mut().rcx = 0;
    vcpu.regs_mut().rax = 0x3;
    vcpu.regs_mut().rdx = 0;
    vcpu.unbind_from_current_processor();
    assert_eq!(vcpu.handle_xsetbv(), Err(HyperError::BadState));
    assert_eq!(vcpu.xstate().guest_xcr0, 0xe7);
    assert_eq!(vcpu.vmcs().guest.rip, ENTRY + 3);
}

#[test]
fn exits_without_a_handler_are_left_to_the_caller() {
    let mut vcpu = launched();
    let exit = ExitFields {
        exit_reason: 30,
        vmexit_instruction_len: 1,
        exit_qualification: 0x03f8_0029,
        ..vcpu.vmcs().exit
    };
    let guest = vcpu.vmcs().guest;
    vcpu.record_exit(GeneralRegisters::default(), guest, exit);
    let info = VmxExitInfo {
        entry_failure: false,
        exit_reason: VmxExitReason::IO_INSTRUCTION,
        exit_instruction_length: 1,
        guest_rip: ENTRY,
    };
    assert_eq!(vcpu.exit_info(), Ok(info));
    assert_eq!(vcpu.handle_exit(), ExitOutcome::Unhandled(info));
    assert_eq!(vcpu.rip(), ENTRY);
    assert_eq!(vcpu.builtin_vmexit_handler(&info), None);
    assert_eq!(
        vcpu.io_exit_info(),
        Ok(VmxIoExitInfo {
            access_size: 2,
            is_in: true,
            is_string: false,
            is_repeat: true,
            port: 0x3f8,
        })
    );
}

#[test]
fn fatal_exits() {
    let mut vcpu = launched();
    exit_with(&mut vcpu, GeneralRegisters::default(), 0x8000_0021);
    match vcpu.handle_exit() {
        ExitOutcome::Fatal(FatalExit::EntryFailure(info)) => {
            assert!(info.entry_failure);
            assert_eq!(info.exit_reason, VmxExitReason::INVALID_GUEST_STATE);
        }
        other => panic!("{:?}", other),
    }
    exit_with(&mut vcpu, GeneralRegisters::default(), 28);
    assert!(matches!(vcpu.handle_exit(), ExitOutcome::Fatal(FatalExit::CrAccess(_))));
    for unknown in [35u32, 38, 42, 70, 0xffff] {
        exit_with(&mut vcpu, GeneralRegisters::default(), unknown);
        assert_eq!(
            vcpu.handle_exit(),
            ExitOutcome::Fatal(FatalExit::UnknownExitReason(unknown))
        );
    }
    assert_eq!(VmxExitReason::from_raw(0), Some(VmxExitReason::EXCEPTION_NMI));
    assert_eq!(VmxExitReason::from_raw(48), Some(VmxExitReason::EPT_VIOLATION));
    assert_eq!(VmxExitReason::from_raw(69), Some(VmxExitReason::LOADIWKEY));
    assert_eq!(VmxExitReason::from_raw(35), None);
    assert_eq!(vcpu.exit_info(), Err(HyperError::BadState));
}

#[test]
fn exception_exit_queues_the_vector_again() {
    let mut vcpu = launched();
    let exit = ExitFields {
        exit_reason: 0,
        vmexit_interruption_info: 0x8000_0b0d,
        vmexit_interruption_err_code: 0x18,
        ..vcpu.vmcs().exit
    };
    let guest = vcpu.vmcs().guest;
    vcpu.record_exit(GeneralRegisters::default(), guest, exit);
    assert_eq!(
        vcpu.interrupt_exit_info(),
        Ok(VmxInterruptInfo {
            int_type: VmxInterruptionType::HardException,
            vector: 13,
            err_code: Some(0x18),
            valid: true,
        })
    );
    assert_eq!(vcpu.handle_exit(), ExitOutcome::Handled);
    assert_eq!(vcpu.pending_event_count(), 1);
    // The vector is queued without an error code; the injection takes the
    // one of the exit.
    vcpu.prepare_entry(0);
    assert_eq!(vcpu.pending_event_count(), 0);
    assert_eq!(vcpu.vmcs().control.vmentry_interruption_info, 0x8000_0b0d);
    assert_eq!(vcpu.vmcs().control.vmentry_exception_err_code, 0x18);
}

#[test]
fn interruption_info_words() {
    assert_eq!(VmxInterruptInfo::from(33, None).bits(), 0x8000_0021);
    assert_eq!(VmxInterruptInfo::from(2, None).bits(), 0x8000_0202);
    assert_eq!(VmxInterruptInfo::from(1, None).bits(), 0x8000_0501);
    assert_eq!(VmxInterruptInfo::from(3, None).bits(), 0x8000_0603);
    assert_eq!(VmxInterruptInfo::from(4, None).bits(), 0x8000_0604);
    assert_eq!(VmxInterruptInfo::from(6, None).bits(), 0x8000_0306);
    assert_eq!(VmxInterruptInfo::from(14, Some(2)).bits(), 0x8000_0b0e);
    assert_eq!(VmxInterruptInfo::from(25, None).bits(), 0x8000_0719);
    assert_eq!(VmxInterruptionType::from_vector(255), VmxInterruptionType::External);
    assert_eq!(VmxInterruptionType::from_vector(21), VmxInterruptionType::HardException);
    assert_eq!(VmxInterruptionType::from_vector(22), VmxInterruptionType::Other);
    assert!(VmxInterruptionType::vector_has_error_code(8));
    assert!(VmxInterruptionType::vector_has_error_code(17));
    assert!(!VmxInterruptionType::vector_has_error_code(6));
    assert!(!VmxInterruptionType::vector_has_error_code(9));
    assert!(VmxInterruptionType::SoftIntr.is_soft());
    assert!(!VmxInterruptionType::NMI.is_soft());
    assert_eq!(VmxInterruptionType::from_number(1), VmxInterruptionType::Reserved);
    assert_eq!(VmxInterruptionType::Other.as_number(), 7);
    let read = VmxInterruptInfo::from_bits(0x0000_0420, 9);
    assert_eq!(
        read,
        VmxInterruptInfo {
            int_type: VmxInterruptionType::SoftIntr,
            vector: 0x20,
            err_code: None,
            valid: false,
        }
    );
}

#[test]
fn software_events_take_the_instruction_length_of_the_exit() {
    let mut vcpu = launched();
    let exit = ExitFields { vmexit_instruction_len: 1, ..vcpu.vmcs().exit };
    let guest = vcpu.vmcs().guest;
    vcpu.record_exit(GeneralRegisters::default(), guest, exit);
    assert_eq!(vcpu.inject_event(6, Some(5)), Ok(()));
    assert_eq!(vcpu.vmcs().control.vmentry_instruction_len, 0);
    assert_eq!(vcpu.vmcs().control.vmentry_exception_err_code, 0);
    assert_eq!(vcpu.vmcs().control.vmentry_interruption_info, 0x8000_0306);
    assert_eq!(vcpu.inject_event(3, None), Ok(()));
    assert_eq!(vcpu.vmcs().control.vmentry_instruction_len, 1);
    assert_eq!(vcpu.vmcs().control.vmentry_interruption_info, 0x8000_0603);
}

#[test]
fn accessors_reach_the_control_block() {
    let mut vcpu = vcpu();
    vcpu.bind_to_current_processor();
    assert_eq!(vcpu.stack_pointer(), 0);
    vcpu.set_stack_pointer(0x8000);
    assert_eq!(vcpu.stack_pointer(), 0x8000);
    assert_eq!(vcpu.vmcs().guest.rsp, 0x8000);
    assert_eq!(vcpu.cs(), 0);
    assert_eq!(vcpu.rip(), ENTRY);
    assert_eq!(vcpu.advance_rip(255), Ok(()));
    assert_eq!(vcpu.rip(), ENTRY + 255);
    let guest = GuestState { rip: usize::MAX, ..vcpu.vmcs().guest };
    let exit = vcpu.vmcs().exit;
    vcpu.record_exit(GeneralRegisters::default(), guest, exit);
    assert_eq!(vcpu.advance_rip(3), Ok(()));
    assert_eq!(vcpu.rip(), 2);
    vcpu.regs_mut().r15 = 15;
    assert_eq!(vcpu.regs().r15, 15);
    assert_eq!(vcpu.set_interrupt_window(true), Ok(()));
    assert_eq!(vcpu.vmcs().control.primary_procbased_exec_controls, 0x9500_6176);
    assert_eq!(vcpu.set_interrupt_window(true), Ok(()));
    assert_eq!(vcpu.set_interrupt_window(false), Ok(()));
    assert_eq!(vcpu.vmcs().control.primary_procbased_exec_controls, 0x9500_6172);
    assert_eq!(*Vmcs::new().control.eptp.to_le_bytes().first().unwrap(), 0);
}

#[test]
fn nested_page_fault_info_reads_the_qualification() {
    let mut vcpu = launched();
    let exit = ExitFields {
        exit_reason: 48,
        exit_qualification: 0x182,
        guest_physical_addr: 0xfee0_0300,
        ..vcpu.vmcs().exit
    };
    let guest = vcpu.vmcs().guest;
    vcpu.record_exit(GeneralRegisters::default(), guest, exit);
    let info = vcpu.nested_page_fault_info().unwrap();
    assert_eq!(info.access_flags, AccessFlags { read: false, write: true, execute: false });
    assert_eq!(info.fault_guest_paddr, 0xfee0_0300);
    assert_eq!(VmxIoExitInfo::from_qualification(0xffff_0007).access_size, 8);
    assert_eq!(VmxIoExitInfo::from_qualification(0xffff_0007).port, 0xffff);
}

#[test]
fn task_segment_base_is_read_from_the_descriptor_table() {
    // A 64-bit TSS descriptor at index 5 with base 0xffff_8000_1234_5678.
    let low: u64 = 0x0067 | (0x34_5678 << 16) | (0x89 << 40) | (0x12 << 56);
    let high: u64 = 0xffff_8000;
    let gdt = [0, 0x00af_9b00_0000_ffff, 0x00cf_9300_0000_ffff, 0, 0, low, high];
    assert_eq!(get_tr_base(5 << 3, &gdt), 0xffff_8000_1234_5678);
    assert_eq!(get_tr_base((5 << 3) | 3, &gdt), 0xffff_8000_1234_5678);
    // The upper half of the next entry is not part of the base.
    let gdt = [0, low, 0xdead_beef_0000_0001];
    assert_eq!(get_tr_base(1 << 3, &gdt), 0x0000_0001_1234_5678);
    // A descriptor that is not present has no base.
    let gdt = [0, low & !(1 << 47)];
    assert_eq!(get_tr_base(1 << 3, &gdt), 0);
    assert_eq!(get_tr_base(0, &gdt), 0);
}

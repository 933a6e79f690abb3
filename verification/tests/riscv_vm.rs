use hypercraft::error::HyperError;
use hypercraft::riscv::decode::MmioInstruction;
use hypercraft::riscv::plic::{PlicState, MAX_CONTEXTS};
use hypercraft::riscv::regs::{GeneralPurposeRegisters, GprIndex};
use hypercraft::riscv::sbi::{
    specification_version, BaseFunction, FirmwareCall, HyperCallMsg, PmuFunction,
    RemoteFenceFunction, ResetFunction, SbiRet,
};
use hypercraft::riscv::vcpu::{VCpu, VmCpus, VM_CPUS_MAX};
use hypercraft::riscv::vm::{
    ExitAction, FatalExit, GuestPageTableTrait, PrivilegeLevel, VMState, VmExitInfo, VmmTrap, VM,
};

const SW_A1_0_A0: u32 = 0x00b5_2023;
const LW_A2_0_A0: u32 = 0x0005_2603;
const ADD_A0_A0_A1: u32 = 0x00b5_0533;
const C_SW_A2_64_A5: u32 = 0xc3b0;
const C_LW_A2_64_A5: u32 = 0x43b0;
const CUSTOM_0: u32 = 0x0000_000b;
const CLAIM_CONTEXT_0: usize = 0x0c20_0004;

struct Root(usize);

impl GuestPageTableTrait for Root {
    fn root_token(&self) -> usize {
        self.0
    }

    fn token(&self) -> usize {
        self.0
    }
}

fn vm() -> VM<Root> {
    let mut vcpus = VmCpus::new();
    vcpus.add_vcpu(VCpu::new(0, 0x9000_0000)).unwrap();
    VM::new(vcpus, Root(0x8000_1234)).unwrap()
}

fn supervisor_fault(fault_addr: usize, inst: u32) -> VmExitInfo {
    VmExitInfo::PageFault {
        fault_addr,
        falut_pc: 0x8020_0000,
        inst,
        priv_level: PrivilegeLevel::Supervisor,
    }
}

#[test]
fn new_vm_has_no_timer_and_default_state() {
    let vm = vm();
    assert_eq!(vm.get_timer(), u64::MAX);
    assert!(!vm.advance_pc());
    assert_eq!(vm.instruction_length(), 4);
    assert_eq!(vm.plic().base(), 0x0c00_0000);
    assert_eq!(vm.page_table_token(), 0x8000_1234);
    assert_eq!(vm.page_table().token(), 0x8000_1234);
    assert!(vm.has_vcpu(0));
    assert!(!vm.has_vcpu(1));
    assert!(!vm.has_vcpu(VM_CPUS_MAX));
    let state = VMState::new();
    assert!(!state.advance_pc);
    assert_eq!(state.instruction_length, 4);
    assert_eq!(state.general_purpose_registers.reg(GprIndex::A0), 0);
}

#[test]
fn init_vcpu_installs_the_token_and_snapshots_registers() {
    let mut vm = vm();
    vm.gprs_mut().set_reg(GprIndex::S0, 77);
    vm.init_vcpu(0);
    let vcpu = vm.vcpus().get_vcpu(0).unwrap();
    assert_eq!(vcpu.page_map(), 0x8000_1234);
    assert_eq!(vcpu.pc(), 0x9000_0000);
    assert_eq!(vm.gprs().reg(GprIndex::S0), 0);
}

#[test]
fn sbi_getchar_on_empty_buffer() {
    let mut vm = vm();
    vm.prepare_run(0);
    let action = vm.handle_exit(VmExitInfo::Ecall(Some(HyperCallMsg::GetChar)));
    assert_eq!(action, ExitAction::Continue);
    assert_eq!(vm.gprs().reg(GprIndex::A0), usize::MAX);
    assert!(vm.advance_pc());
    assert_eq!(vm.instruction_length(), 4);
}

#[test]
fn sbi_getchar_pops_one_character() {
    let mut vm = vm();
    vm.add_char_to_input_buffer(104);
    vm.add_char_to_input_buffer(105);
    assert_eq!(
        vm.handle_exit(VmExitInfo::Ecall(Some(HyperCallMsg::GetChar))),
        ExitAction::Continue
    );
    assert_eq!(vm.gprs().reg(GprIndex::A0), 104);
    vm.handle_exit(VmExitInfo::Ecall(Some(HyperCallMsg::GetChar)));
    assert_eq!(vm.gprs().reg(GprIndex::A0), 105);
    vm.handle_exit(VmExitInfo::Ecall(Some(HyperCallMsg::GetChar)));
    assert_eq!(vm.gprs().reg(GprIndex::A0), usize::MAX);
}

#[test]
fn sbi_set_timer_surfaces() {
    let mut vm = vm();
    vm.prepare_run(0);
    let action = vm.handle_exit(VmExitInfo::Ecall(Some(HyperCallMsg::SetTimer(0xdead_beef))));
    assert_eq!(action, ExitAction::Return(VmmTrap::SetTimer(0xdead_beef)));
    assert_eq!(vm.get_timer(), 0xdead_beef);
    assert!(vm.advance_pc());
}

#[test]
fn timer_interrupt_surfaces() {
    let mut vm = vm();
    assert_eq!(
        vm.handle_exit(VmExitInfo::TimerInterruptEmulation),
        ExitAction::Return(VmmTrap::TimerInterruptEmulation)
    );
    assert!(!vm.advance_pc());
}

#[test]
fn plic_sw_lw_round_trip() {
    let mut vm = vm();
    vm.gprs_mut().set_reg(GprIndex::A0, CLAIM_CONTEXT_0);
    vm.gprs_mut().set_reg(GprIndex::A1, 3);
    let action = vm.handle_exit(supervisor_fault(CLAIM_CONTEXT_0, SW_A1_0_A0));
    assert_eq!(action, ExitAction::Continue);
    assert_eq!(vm.plic().claim_complete(0), 3);
    assert!(vm.advance_pc());
    assert_eq!(vm.instruction_length(), 4);

    let action = vm.handle_exit(supervisor_fault(CLAIM_CONTEXT_0, LW_A2_0_A0));
    assert_eq!(action, ExitAction::Continue);
    assert_eq!(vm.gprs().reg(GprIndex::A2), 3);
    assert_eq!(vm.plic().claim_complete(0), 3);
    assert_eq!(vm.plic().read_u32(CLAIM_CONTEXT_0), 3);
}

#[test]
fn plic_store_keeps_only_the_low_word_of_the_register() {
    let mut vm = vm();
    vm.gprs_mut().set_reg(GprIndex::A1, 0x1_0000_0007);
    assert_eq!(vm.handle_plic(0, SW_A1_0_A0, 0x0c00_0004), Ok(4));
    assert_eq!(vm.plic().read_u32(0x0c00_0004), 7);
}

#[test]
fn plic_compressed_instructions_are_two_bytes_long() {
    let mut vm = vm();
    vm.gprs_mut().set_reg(GprIndex::A2, 9);
    let action = vm.handle_exit(supervisor_fault(0x0c20_1000, 0x1234_0000 | C_SW_A2_64_A5));
    assert_eq!(action, ExitAction::Continue);
    assert_eq!(vm.instruction_length(), 2);
    assert_eq!(vm.plic().read_u32(0x0c20_1000), 9);
    vm.gprs_mut().set_reg(GprIndex::A2, 0);
    assert_eq!(vm.handle_page_fault(0, C_LW_A2_64_A5, 0x0c20_1000), Ok(2));
    assert_eq!(vm.gprs().reg(GprIndex::A2), 9);
}

#[test]
fn plic_rejects_other_instructions() {
    let mut vm = vm();
    vm.gprs_mut().set_reg(GprIndex::A1, 5);
    assert_eq!(
        vm.handle_plic(0x8020_0000, ADD_A0_A0_A1, CLAIM_CONTEXT_0),
        Err(HyperError::InvalidInstruction)
    );
    assert_eq!(vm.plic().claim_complete(0), 0);
    assert_eq!(
        vm.handle_exit(supervisor_fault(CLAIM_CONTEXT_0, ADD_A0_A0_A1)),
        ExitAction::Fatal(FatalExit::PageFault {
            fault_pc: 0x8020_0000,
            fault_addr: CLAIM_CONTEXT_0,
            error: HyperError::InvalidInstruction,
        })
    );
    assert!(!vm.advance_pc());
}

#[test]
fn plic_refuses_words_that_do_not_decode() {
    let mut vm = vm();
    vm.gprs_mut().set_reg(GprIndex::A0, 5);
    assert_eq!(vm.handle_plic(0, CUSTOM_0, CLAIM_CONTEXT_0), Err(HyperError::InvalidInstruction));
    // c.addi a0, 1 is an instruction that the decoder lacks.
    assert_eq!(vm.handle_plic(0, 0x0505, CLAIM_CONTEXT_0), Err(HyperError::InvalidInstruction));
    assert_eq!(
        vm.handle_exit(supervisor_fault(CLAIM_CONTEXT_0, 0x0505)),
        ExitAction::Fatal(FatalExit::PageFault {
            fault_pc: 0x8020_0000,
            fault_addr: CLAIM_CONTEXT_0,
            error: HyperError::InvalidInstruction,
        })
    );
    assert_eq!(vm.gprs().reg(GprIndex::A0), 5);
    assert_eq!(vm.plic().claim_complete(0), 0);
    assert_eq!(
        vm.complete_page_fault(0x10, 0xffff_ffff, CLAIM_CONTEXT_0),
        ExitAction::Fatal(FatalExit::InstructionLength {
            fault_pc: 0x10,
            fault_addr: CLAIM_CONTEXT_0,
        })
    );
}

#[test]
fn decoded_accesses_are_applied() {
    let mut vm = vm();
    vm.gprs_mut().set_reg(GprIndex::T0, 0xabcd);
    let sw = MmioInstruction::Sw { rs2: 5 };
    assert_eq!(vm.apply_plic_access(sw, 4, 0x0c00_0010), Ok(4));
    assert_eq!(vm.plic().read_u32(0x0c00_0010), 0xabcd);
    let lw = MmioInstruction::Lw { rd: 31 };
    assert_eq!(vm.apply_plic_access(lw, 2, 0x0c00_0010), Ok(2));
    assert_eq!(vm.gprs().reg(GprIndex::T6), 0xabcd);
    for refused in [
        MmioInstruction::Other,
        MmioInstruction::Undecodable,
        MmioInstruction::Sw { rs2: 32 },
        MmioInstruction::Lw { rd: 0xffff_ffff },
    ] {
        assert_eq!(
            vm.apply_plic_access(refused, 4, 0x0c00_0010),
            Err(HyperError::InvalidInstruction)
        );
    }
    assert_eq!(vm.plic().read_u32(0x0c00_0010), 0xabcd);
    assert_eq!(vm.gprs().reg(GprIndex::T6), 0xabcd);
}

fn numbered(vm: &mut VM<Root>) {
    for n in 1..32u32 {
        vm.gprs_mut().set_reg(GprIndex::from_raw(n).unwrap(), 1000 + n as usize);
    }
}

fn value_of(register: u32) -> u32 {
    if register == 0 {
        0
    } else {
        1000 + register
    }
}

#[test]
fn every_compressed_word_access_names_its_register() {
    let mut vm = vm();
    let addr = 0x0c00_0040;
    let mut seen = 0;
    for word in 0..=0xffffu32 {
        let store = if word & 0xe003 == 0xc000 {
            Some(((word >> 2) & 0x7) | 0x8)
        } else if word & 0xe003 == 0xc002 {
            Some((word >> 2) & 0x1f)
        } else {
            None
        };
        let load = if word & 0xe003 == 0x4000 { Some(((word >> 2) & 0x7) | 0x8) } else { None };
        if let Some(rs2) = store {
            numbered(&mut vm);
            vm.plic().read_u32(addr);
            assert_eq!(vm.handle_plic(0, word, addr), Ok(2), "{:#x}", word);
            assert_eq!(vm.plic().read_u32(addr), value_of(rs2), "{:#x}", word);
            seen += 1;
        }
        if let Some(rd) = load {
            numbered(&mut vm);
            vm.apply_plic_access(MmioInstruction::Sw { rs2: 0 }, 4, addr).unwrap();
            vm.gprs_mut().set_reg(GprIndex::RA, 77);
            vm.apply_plic_access(MmioInstruction::Sw { rs2: 1 }, 4, addr).unwrap();
            numbered(&mut vm);
            assert_eq!(vm.handle_plic(0, word, addr), Ok(2), "{:#x}", word);
            for n in 0..32u32 {
                let expected = if n == rd { 77 } else { value_of(n) as usize };
                assert_eq!(vm.gprs().reg(GprIndex::from_raw(n).unwrap()), expected, "{:#x}", word);
            }
            seen += 1;
        }
    }
    assert_eq!(seen, 3 * 2048);
}

#[test]
fn every_base_word_access_names_its_register() {
    let mut vm = vm();
    let addr = 0x0c00_0044;
    for register in 0..32u32 {
        for other in [0u32, 0x1f, 0x0a, 0x15] {
            for imm in [0u32, 0x7f, 0x2a] {
                let sw = (imm << 25) | (register << 20) | (other << 15) | (2 << 12)
                    | ((imm & 0x1f) << 7) | 0x23;
                numbered(&mut vm);
                assert_eq!(vm.handle_plic(0, sw, addr), Ok(4), "{:#x}", sw);
                assert_eq!(vm.plic().read_u32(addr), value_of(register), "{:#x}", sw);

                let lw = (imm << 25) | (other << 20) | (other << 15) | (2 << 12)
                    | (register << 7) | 0x03;
                vm.gprs_mut().set_reg(GprIndex::RA, 77);
                vm.apply_plic_access(MmioInstruction::Sw { rs2: 1 }, 4, addr).unwrap();
                numbered(&mut vm);
                assert_eq!(vm.handle_plic(0, lw, addr), Ok(4), "{:#x}", lw);
                for n in 0..32u32 {
                    let expected =
                        if n == register && n != 0 { 77 } else { value_of(n) as usize };
                    let index = GprIndex::from_raw(n).unwrap();
                    assert_eq!(vm.gprs().reg(index), expected, "{:#x}", lw);
                }
            }
        }
    }
}

#[test]
fn page_fault_without_instruction_asks_for_a_fetch() {
    let mut vm = vm();
    assert_eq!(
        vm.handle_exit(supervisor_fault(CLAIM_CONTEXT_0, 0)),
        ExitAction::FetchInstruction { inst_addr: 0x8020_0000, fault_addr: CLAIM_CONTEXT_0 }
    );
    vm.gprs_mut().set_reg(GprIndex::A1, 11);
    assert_eq!(
        vm.complete_page_fault(0x8020_0000, SW_A1_0_A0, CLAIM_CONTEXT_0),
        ExitAction::Continue
    );
    assert_eq!(vm.plic().claim_complete(0), 11);
    // A fetched word of zero is the illegal instruction.
    assert_eq!(
        vm.complete_page_fault(0x8020_0000, 0, CLAIM_CONTEXT_0),
        ExitAction::Fatal(FatalExit::PageFault {
            fault_pc: 0x8020_0000,
            fault_addr: CLAIM_CONTEXT_0,
            error: HyperError::InvalidInstruction,
        })
    );
}

#[test]
fn page_fault_outside_the_window_is_fatal() {
    let mut vm = vm();
    for addr in [0x0bff_fffc_usize, 0x1000_0000, 0x8000_0000] {
        assert_eq!(vm.handle_page_fault(0, SW_A1_0_A0, addr), Err(HyperError::PageFault));
        assert_eq!(
            vm.handle_exit(supervisor_fault(addr, SW_A1_0_A0)),
            ExitAction::Fatal(FatalExit::PageFault {
                fault_pc: 0x8020_0000,
                fault_addr: addr,
                error: HyperError::PageFault,
            })
        );
    }
    assert_eq!(vm.handle_page_fault(0, SW_A1_0_A0, 0x0fff_fffc), Ok(4));
    assert_eq!(vm.handle_page_fault(0, SW_A1_0_A0, 0x0c00_0000), Ok(4));
}

#[test]
fn user_page_fault_and_unreadable_ecall_are_fatal() {
    let mut vm = vm();
    let exit = VmExitInfo::PageFault {
        fault_addr: CLAIM_CONTEXT_0,
        falut_pc: 0,
        inst: SW_A1_0_A0,
        priv_level: PrivilegeLevel::User,
    };
    assert_eq!(vm.handle_exit(exit), ExitAction::Fatal(FatalExit::UserPageFault));
    assert_eq!(
        vm.handle_exit(VmExitInfo::Ecall(None)),
        ExitAction::Fatal(FatalExit::EcallWithoutMessage)
    );
    assert!(!vm.advance_pc());
}

#[test]
fn external_interrupt_is_claimed_for_context_one() {
    let mut vm = vm();
    assert_eq!(
        vm.handle_exit(VmExitInfo::ExternalInterruptEmulation),
        ExitAction::ClaimInterrupt { claim_addr: 0x0c20_1004 }
    );
    vm.handle_irq(10);
    assert_eq!(vm.plic().claim_complete(1), 10);
    assert_eq!(vm.plic().claim_complete(0), 0);
    assert_eq!(vm.plic().read_u32(0x0c20_1004), 10);
}

#[test]
fn firmware_calls_are_handed_out_and_completed() {
    let mut vm = vm();
    let base = BaseFunction::ProbeSbiExtension(0x10);
    assert_eq!(
        vm.handle_exit(VmExitInfo::Ecall(Some(HyperCallMsg::Base(base)))),
        ExitAction::Firmware(FirmwareCall::Base(base))
    );
    assert!(vm.advance_pc());
    vm.gprs_mut().set_reg(GprIndex::A0, 99);
    vm.complete_firmware_call(FirmwareCall::Base(base), SbiRet { error: 5, value: 1 });
    assert_eq!(vm.gprs().reg(GprIndex::A0), 0);
    assert_eq!(vm.gprs().reg(GprIndex::A1), 1);

    assert_eq!(
        vm.handle_exit(VmExitInfo::Ecall(Some(HyperCallMsg::PutChar(65)))),
        ExitAction::Firmware(FirmwareCall::PutChar(65))
    );
    vm.complete_firmware_call(FirmwareCall::PutChar(65), SbiRet { error: 3, value: 4 });
    assert_eq!(vm.gprs().reg(GprIndex::A0), 0);
    assert_eq!(vm.gprs().reg(GprIndex::A1), 1);

    let reset = ResetFunction { reset_type: 0, reset_reason: 0 };
    assert_eq!(
        vm.handle_exit(VmExitInfo::Ecall(Some(HyperCallMsg::Reset(reset)))),
        ExitAction::Firmware(FirmwareCall::Shutdown)
    );

    let fence = RemoteFenceFunction::RemoteSFenceVMA {
        hart_mask: 1,
        hart_mask_base: 0,
        start_addr: 0x1000,
        size: 0x2000,
    };
    assert_eq!(
        vm.handle_exit(VmExitInfo::Ecall(Some(HyperCallMsg::RemoteFence(fence)))),
        ExitAction::Firmware(FirmwareCall::RemoteFence(fence))
    );
    vm.complete_firmware_call(FirmwareCall::RemoteFence(fence), SbiRet { error: 7, value: 8 });
    assert_eq!(vm.gprs().reg(GprIndex::A0), 7);
    assert_eq!(vm.gprs().reg(GprIndex::A1), 8);

    let pmu = PmuFunction::GetNumCounters;
    assert_eq!(
        vm.handle_exit(VmExitInfo::Ecall(Some(HyperCallMsg::PMU(pmu)))),
        ExitAction::Firmware(FirmwareCall::Pmu(pmu))
    );
    vm.complete_firmware_call(FirmwareCall::Pmu(pmu), SbiRet { error: 9, value: 29 });
    assert_eq!(vm.gprs().reg(GprIndex::A0), 0);
    assert_eq!(vm.gprs().reg(GprIndex::A1), 29);
}

#[test]
fn handlers_write_error_and_value_verbatim() {
    let mut vm = vm();
    assert_eq!(vm.handle_base_function(0x0100_0000), Ok(()));
    assert_eq!(vm.gprs().reg(GprIndex::A0), 0);
    assert_eq!(vm.gprs().reg(GprIndex::A1), 0x0100_0000);
    let ret = SbiRet { error: usize::MAX - 1, value: 42 };
    assert_eq!(vm.handle_pmu_function(PmuFunction::GetCounterInfo(2), ret), Ok(()));
    assert_eq!(vm.gprs().reg(GprIndex::A0), usize::MAX - 1);
    assert_eq!(vm.gprs().reg(GprIndex::A1), 42);
    let stop = PmuFunction::StopCounter { counter_index: 0, counter_mask: 1, stop_flags: 0 };
    assert_eq!(vm.handle_pmu_function(stop, SbiRet { error: 1, value: 2 }), Ok(()));
    assert_eq!(vm.gprs().reg(GprIndex::A0), 1);
    assert_eq!(vm.gprs().reg(GprIndex::A1), 2);
    assert_eq!(vm.handle_rfnc_function(SbiRet { error: 0, value: 6 }), Ok(()));
    assert_eq!(vm.gprs().reg(GprIndex::A0), 0);
    assert_eq!(vm.gprs().reg(GprIndex::A1), 6);
    assert_eq!(specification_version(1, 0), 0x0100_0000);
    assert_eq!(specification_version(2, 3), 0x0200_0003);
}

#[test]
fn state_round_trip_through_the_vcpu() {
    let mut vm = vm();
    vm.gprs_mut().set_reg(GprIndex::A0, 1);
    vm.gprs_mut().set_reg(GprIndex::T6, 31);
    vm.prepare_run(0);
    let loaded = *vm.vcpus().get_vcpu(0).unwrap().gprs();
    assert_eq!(loaded.reg(GprIndex::A0), 1);
    assert_eq!(loaded.reg(GprIndex::T6), 31);
    // A guest that leaves at once hands the same registers back.
    vm.run_and_save_state(0, &loaded, 0x9000_0000);
    assert_eq!(vm.gprs().reg(GprIndex::A0), 1);
    assert_eq!(vm.gprs().reg(GprIndex::T6), 31);
    // A guest that changes a register is saved with the change.
    let mut after = loaded;
    after.set_reg(GprIndex::A0, 2);
    vm.prepare_run(0);
    vm.run_and_save_state(0, &after, 0x9000_0010);
    assert_eq!(vm.gprs().reg(GprIndex::A0), 2);
    assert_eq!(vm.gprs().reg(GprIndex::T6), 31);
    let vcpu = vm.vcpus().get_vcpu(0).unwrap();
    assert_eq!(vcpu.pc(), 0x9000_0010);
    assert_eq!(vcpu.gprs().reg(GprIndex::A0), 2);
}

#[test]
fn emulated_instruction_is_stepped_over_once() {
    let mut vm = vm();
    vm.prepare_run(0);
    assert_eq!(vm.vcpus().get_vcpu(0).unwrap().pc(), 0x9000_0000);
    vm.handle_exit(supervisor_fault(0x0c20_1000, C_SW_A2_64_A5));
    vm.prepare_run(0);
    assert_eq!(vm.vcpus().get_vcpu(0).unwrap().pc(), 0x9000_0002);
    assert!(!vm.advance_pc());
    assert_eq!(vm.instruction_length(), 4);
    vm.prepare_run(0);
    assert_eq!(vm.vcpus().get_vcpu(0).unwrap().pc(), 0x9000_0002);
    vm.handle_exit(VmExitInfo::Ecall(Some(HyperCallMsg::GetChar)));
    vm.restore_state(0);
    assert_eq!(vm.vcpus().get_vcpu(0).unwrap().pc(), 0x9000_0006);
}

#[test]
fn pc_wraps_at_the_end_of_the_address_space() {
    let mut vcpu = VCpu::new(3, usize::MAX - 1);
    vcpu.advance_pc(4);
    assert_eq!(vcpu.pc(), 2);
    assert_eq!(vcpu.vcpu_id(), 3);
}

#[test]
fn vcpus_are_kept_by_identifier() {
    let mut vcpus = VmCpus::new();
    assert_eq!(vcpus.get_vcpu(0).err(), Some(HyperError::NotFound));
    assert_eq!(vcpus.add_vcpu(VCpu::new(2, 0x100)), Ok(()));
    assert_eq!(vcpus.add_vcpu(VCpu::new(2, 0x200)), Err(HyperError::AlreadyExists));
    assert_eq!(vcpus.add_vcpu(VCpu::new(VM_CPUS_MAX, 0)), Err(HyperError::InvalidParam));
    assert_eq!(vcpus.get_vcpu(2).unwrap().pc(), 0x100);
    assert_eq!(vcpus.get_vcpu(1).err(), Some(HyperError::NotFound));
    assert_eq!(vcpus.get_vcpu(VM_CPUS_MAX + 5).err(), Some(HyperError::NotFound));
    let mut changed = vcpus.get_vcpu(2).unwrap();
    changed.init_page_map(7);
    vcpus.set_vcpu(changed);
    assert_eq!(vcpus.get_vcpu(2).unwrap().page_map(), 7);
}

#[test]
fn register_zero_cannot_be_written() {
    let mut gprs = GeneralPurposeRegisters::default();
    gprs.set_reg(GprIndex::Zero, 5);
    assert_eq!(gprs.reg(GprIndex::Zero), 0);
    gprs.set_reg(GprIndex::RA, 5);
    assert_eq!(gprs.reg(GprIndex::RA), 5);
    assert_eq!(GprIndex::from_raw(0), Some(GprIndex::Zero));
    assert_eq!(GprIndex::from_raw(10), Some(GprIndex::A0));
    assert_eq!(GprIndex::from_raw(31), Some(GprIndex::T6));
    assert_eq!(GprIndex::from_raw(32), None);
    assert_eq!(GprIndex::A7.as_usize(), 17);
    let mut vm = vm();
    // lw zero, 0(a0) loads into the register that cannot be written.
    assert_eq!(vm.handle_plic(0, 0x0005_2003, CLAIM_CONTEXT_0), Ok(4));
    assert_eq!(vm.gprs().reg(GprIndex::Zero), 0);
}

#[test]
fn plic_registers_follow_the_memory_map() {
    let mut plic = PlicState::new(0x0c00_0000);
    let base = 0x0c00_0000_usize;
    plic.write_u32(base + 4 * 7, 1);
    plic.write_u32(base + 0x1000, 2);
    plic.write_u32(base + 0x107c, 3);
    plic.write_u32(base + 0x2000 + 0x80, 4);
    plic.write_u32(base + 0x1f_1ffc, 5);
    plic.write_u32(base + 0x20_0000, 6);
    plic.write_u32(base + 0x20_0000 + 0x1000 * (MAX_CONTEXTS - 1) + 4, 8);
    assert_eq!(plic.read_u32(base + 4 * 7), 1);
    assert_eq!(plic.read_u32(base + 0x1000), 2);
    assert_eq!(plic.read_u32(base + 0x107c), 3);
    assert_eq!(plic.read_u32(base + 0x2080), 4);
    assert_eq!(plic.read_u32(base + 0x1f_1ffc), 5);
    assert_eq!(plic.read_u32(base + 0x20_0000), 6);
    assert_eq!(plic.claim_complete(MAX_CONTEXTS - 1), 8);
    assert_eq!(plic.read_u32(base + 0x3ff_f004), 8);
    assert_eq!(plic.read_u32(base + 4 * 8), 0);
    // No register lies at these offsets: stores are dropped, loads give 0.
    for offset in [0x1080_usize, 0x1ffc, 0x1f_2000, 0x20_0008, 0x20_0ffc, 0x2, 0x20_0005] {
        plic.write_u32(base + offset, 0xffff_ffff);
        assert_eq!(plic.read_u32(base + offset), 0);
    }
    assert_eq!(plic.read_u32(base), 0);
    assert_eq!(plic.read_u32(base + 0x20_0004), 0);
    plic.set_claim_complete(1, 12);
    assert_eq!(plic.read_u32(base + 0x20_1004), 12);
}

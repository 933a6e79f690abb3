//! A virtual machine: its virtual CPUs, its interrupt controller, and what
//! each VM exit leads to.

use std::collections::VecDeque;
use vstd::prelude::*;
use crate::error::HyperError;
use crate::riscv::decode::{
    decode, decoded, instruction_length, length_of, word_access, MmioInstruction,
};
use crate::riscv::plic::{PlicState, PlicView, PLIC_SIZE};
use crate::riscv::regs::{with_reg, GeneralPurposeRegisters, GprIndex};
use crate::riscv::sbi::{
    BaseFunction, FirmwareCall, HyperCallMsg, PmuFunction, RemoteFenceFunction, SbiRet,
};
use crate::riscv::vcpu::{advanced_pc, VCpuView, VmCpus};

verus! {

/// Guest-physical address of the interrupt controller's window.
pub const PLIC_BASE: usize = 0x0c00_0000;

/// Offset of the claim/complete register of context 1, the context of the
/// first hart's supervisor mode.
pub const CLAIM_COMPLETE_OFFSET: usize = 0x20_1004;

/// The context whose interrupts are handed to the guest.
pub const GUEST_CONTEXT: usize = 1;

/// The second-stage page table of a guest, as far as this core reads it.
pub trait GuestPageTableTrait {
    /// The root of the table, as `hgatp` takes it.
    spec fn root_token(&self) -> usize;

    /// Returns the root of the table, as `hgatp` takes it.
    fn token(&self) -> (r: usize)
        ensures
            r == self.root_token(),
    ;
}

/// A VM exit that is handed to the caller of the run loop.
#[derive(Clone, Copy, Debug, PartialEq, Eq, Structural)]
pub enum VmmTrap {
    /// The guest has set its timer to the given deadline.
    SetTimer(u64),
    /// The timer of the host has fired.
    TimerInterruptEmulation,
}

/// The privilege level at which the guest ran when it trapped.
#[derive(Clone, Copy, Debug, PartialEq, Eq, Structural)]
pub enum PrivilegeLevel {
    User,
    Supervisor,
}

/// Why the guest has left the processor.
#[derive(Clone, Copy, Debug, PartialEq, Eq, Structural)]
pub enum VmExitInfo {
    /// An environment call, with the message that it carries where it could
    /// be read.
    Ecall(Option<HyperCallMsg>),
    /// A page fault of the second stage. `inst` is the trapping instruction
    /// as the processor reports it, or 0 where it reports none.
    PageFault { fault_addr: usize, falut_pc: usize, inst: u32, priv_level: PrivilegeLevel },
    /// The timer of the host has fired.
    TimerInterruptEmulation,
    /// An external interrupt is pending for the guest.
    ExternalInterruptEmulation,
}

/// Why a VM exit cannot be dealt with at all.
#[derive(Clone, Copy, Debug, PartialEq, Eq, Structural)]
pub enum FatalExit {
    /// An environment call whose message could not be read.
    EcallWithoutMessage,
    /// A page fault of the guest's user mode.
    UserPageFault,
    /// The trapping instruction is longer than any instruction of the
    /// base or the compressed instruction set.
    InstructionLength { fault_pc: usize, fault_addr: usize },
    /// A page fault that could not be emulated.
    PageFault { fault_pc: usize, fault_addr: usize, error: HyperError },
}

/// What the run loop is to do after a VM exit.
#[derive(Clone, Copy, Debug, PartialEq, Eq, Structural)]
pub enum ExitAction {
    /// Enter the guest again.
    Continue,
    /// Return to the caller with a trap.
    Return(VmmTrap),
    /// Make a call into the firmware, and hand its answer to
    /// [`VM::complete_firmware_call`].
    Firmware(FirmwareCall),
    /// Read the instruction at `inst_addr` from guest memory, and hand it to
    /// [`VM::complete_page_fault`].
    FetchInstruction { inst_addr: usize, fault_addr: usize },
    /// Claim the pending interrupt from the controller of the host at
    /// `claim_addr`, and hand it to [`VM::handle_irq`].
    ClaimInterrupt { claim_addr: usize },
    /// Stop: the exit is a fault of the guest or of this program that cannot
    /// be recovered from.
    Fatal(FatalExit),
}

/// The state of a virtual CPU that its caller may change between two runs.
#[derive(Clone, Copy, Debug)]
pub struct VMState {
    pub general_purpose_registers: GeneralPurposeRegisters,
    pub advance_pc: bool,
    pub instruction_length: usize,
}

impl VMState {
    /// The state before the first run: every register zero, and no
    /// instruction to step over.
    pub fn new() -> (r: VMState)
        ensures
            r.general_purpose_registers@ == Seq::new(32, |i: int| 0usize),
            !r.advance_pc,
            r.instruction_length == 4,
    {
        VMState {
            general_purpose_registers: GeneralPurposeRegisters::default(),
            advance_pc: false,
            instruction_length: 4,
        }
    }
}

/// The state of a virtual machine as contracts speak of it.
pub struct VmView {
    pub vcpus: Seq<Option<VCpuView>>,
    /// The root of the guest's second-stage page table.
    pub token: usize,
    pub plic: PlicView,
    /// The general-purpose registers that are loaded into the virtual CPU
    /// before a run and saved after it.
    pub gprs: Seq<usize>,
    /// Whether the virtual CPU is to step over an instruction before the
    /// next run.
    pub advance_pc: bool,
    /// Length in bytes of the instruction to step over.
    pub instruction_length: usize,
    /// The deadline that the guest has set, `u64::MAX` where it has set none.
    pub timer: u64,
    /// Characters that wait to be read by the guest, oldest first.
    pub input_buffer: Seq<usize>,
}

/// A VM that is being run.
pub struct VM<G: GuestPageTableTrait> {
    vcpus: VmCpus,
    gpt: G,
    plic: PlicState,
    state: VMState,
    timer: u64,
    input_buffer: VecDeque<usize>,
}

impl<G: GuestPageTableTrait> View for VM<G> {
    type V = VmView;

    closed spec fn view(&self) -> VmView {
        VmView {
            vcpus: self.vcpus@,
            token: self.gpt.root_token(),
            plic: self.plic@,
            gprs: self.state.general_purpose_registers@,
            advance_pc: self.state.advance_pc,
            instruction_length: self.state.instruction_length,
            timer: self.timer,
            input_buffer: self.input_buffer@,
        }
    }
}

impl VmView {
    /// Whether the parts of the machine are well formed.
    pub open spec fn wf(self) -> bool {
        &&& self.vcpus.len() == crate::riscv::vcpu::VM_CPUS_MAX
        &&& forall|i: int|
            0 <= i < self.vcpus.len() && self.vcpus[i] is Some ==> (#[trigger] self.vcpus[i]).unwrap().vcpu_id
                == i
        &&& self.plic.wf()
        &&& self.gprs.len() == 32
    }

    /// Whether a virtual CPU with the identifier `vcpu_id` exists.
    pub open spec fn has(self, vcpu_id: usize) -> bool {
        vcpu_id < self.vcpus.len() && self.vcpus[vcpu_id as int] is Some
    }

    /// The virtual CPU with the identifier `vcpu_id`.
    pub open spec fn vcpu(self, vcpu_id: usize) -> VCpuView
        recommends
            self.has(vcpu_id),
    {
        self.vcpus[vcpu_id as int].unwrap()
    }

    /// The machine with one virtual CPU replaced.
    pub open spec fn with_vcpu(self, vcpu: VCpuView) -> VmView {
        VmView { vcpus: self.vcpus.update(vcpu.vcpu_id as int, Some(vcpu)), ..self }
    }

    /// The machine with `val` written to the register with number `index`.
    pub open spec fn with_gpr(self, index: int, val: usize) -> VmView {
        VmView { gprs: with_reg(self.gprs, index, val), ..self }
    }

    /// The machine after the state has been loaded into a virtual CPU: the
    /// virtual CPU has the registers of the state and, where the state says
    /// so, has stepped over one instruction.
    pub open spec fn state_restored(self, vcpu_id: usize) -> VmView
        recommends
            self.has(vcpu_id),
    {
        let loaded = VCpuView { gprs: self.gprs, ..self.vcpu(vcpu_id) };
        self.with_vcpu(
            if self.advance_pc {
                VCpuView { sepc: advanced_pc(loaded.sepc, self.instruction_length), ..loaded }
            } else {
                loaded
            },
        )
    }

    /// The machine as a run of the guest starts: the state is loaded into
    /// the virtual CPU, and then says that there is no instruction to step
    /// over and that an instruction is four bytes long.
    pub open spec fn run_prepared(self, vcpu_id: usize) -> VmView
        recommends
            self.has(vcpu_id),
    {
        VmView { advance_pc: false, instruction_length: 4, ..self.state_restored(vcpu_id) }
    }

    /// The machine after a run of the guest has ended with the registers
    /// `gprs` and at the address `sepc`: both are stored in the virtual CPU,
    /// and the registers in the state.
    pub open spec fn state_saved(self, vcpu_id: usize, gprs: Seq<usize>, sepc: usize) -> VmView
        recommends
            self.has(vcpu_id),
    {
        VmView { gprs, ..self.with_vcpu(VCpuView { gprs, sepc, ..self.vcpu(vcpu_id) }) }
    }

    /// The machine after the guest has read one character, and the character
    /// that it has read: the oldest of the input buffer, or `usize::MAX`
    /// where the buffer is empty.
    pub open spec fn char_read(self) -> (VmView, usize) {
        if self.input_buffer.len() == 0 {
            (self, usize::MAX)
        } else {
            (
                VmView {
                    input_buffer: self.input_buffer.subrange(1, self.input_buffer.len() as int),
                    ..self
                },
                self.input_buffer[0],
            )
        }
    }
}

impl VmView {
    /// The machine with `a0` and `a1` of the guest set to the error and the
    /// value of a firmware call.
    pub open spec fn with_sbi_ret(self, ret: SbiRet) -> VmView {
        self.with_gpr(GprIndex::A0.number(), ret.error).with_gpr(GprIndex::A1.number(), ret.value)
    }

    /// The machine after a call of the base extension has been answered with
    /// `value`: `a1` holds the value and `a0` holds 0.
    pub open spec fn base_function_handled(self, value: usize) -> VmView {
        self.with_gpr(GprIndex::A1.number(), value).with_gpr(GprIndex::A0.number(), 0)
    }

    /// The machine after a call of the performance-monitoring extension has
    /// been answered: the number of counters comes back in `a1` with 0 in
    /// `a0`; the other functions hand the firmware's error and value on.
    pub open spec fn pmu_function_handled(self, pmu: PmuFunction, ret: SbiRet) -> VmView {
        match pmu {
            PmuFunction::GetNumCounters => self.with_gpr(GprIndex::A0.number(), 0).with_gpr(
                GprIndex::A1.number(),
                ret.value,
            ),
            _ => self.with_gpr(GprIndex::A0.number(), 0).with_sbi_ret(ret),
        }
    }

    /// The machine after a call of the remote-fence extension has been
    /// answered: the firmware's error and value are handed on.
    pub open spec fn rfnc_function_handled(self, ret: SbiRet) -> VmView {
        self.with_gpr(GprIndex::A0.number(), 0).with_sbi_ret(ret)
    }

    /// The machine after the firmware has answered `ret` to `call`.
    pub open spec fn firmware_call_completed(self, call: FirmwareCall, ret: SbiRet) -> VmView {
        match call {
            FirmwareCall::Base(_) => self.base_function_handled(ret.value),
            FirmwareCall::PutChar(_) => self,
            FirmwareCall::Shutdown => self,
            FirmwareCall::RemoteFence(_) => self.rfnc_function_handled(ret),
            FirmwareCall::Pmu(pmu) => self.pmu_function_handled(pmu, ret),
        }
    }

    /// The word that is decoded for a trapping instruction: its low half
    /// where that starts an instruction of two bytes, else the whole.
    pub open spec fn instruction_word(inst: u32) -> u32 {
        if length_of(inst as u16) == 2 {
            (inst as u16) as u32
        } else {
            inst
        }
    }

    /// The machine after a decoded access to the interrupt controller at
    /// `fault_addr` has been emulated, and the length `len` of the
    /// instruction.
    ///
    /// A `sw` stores the low 32 bits of its source register in the
    /// controller; a `lw` loads its destination register from the
    /// controller, zero-extended. Anything else fails with
    /// `InvalidInstruction` and changes nothing: another instruction, a word
    /// that does not decode, and a register number that no register has.
    pub open spec fn plic_access_applied(self, access: MmioInstruction, len: usize, fault_addr: usize)
        -> (VmView, Result<usize, HyperError>) {
        match access {
            MmioInstruction::Sw { rs2 } => if rs2 < 32 {
                (
                    VmView {
                        plic: self.plic.written(fault_addr, self.gprs[rs2 as int] as u32),
                        ..self
                    },
                    Ok(len),
                )
            } else {
                (self, Err(HyperError::InvalidInstruction))
            },
            MmioInstruction::Lw { rd } => if rd < 32 {
                (self.with_gpr(rd as int, self.plic.read(fault_addr) as usize), Ok(len))
            } else {
                (self, Err(HyperError::InvalidInstruction))
            },
            MmioInstruction::Other => (self, Err(HyperError::InvalidInstruction)),
            MmioInstruction::Undecodable => (self, Err(HyperError::InvalidInstruction)),
        }
    }

    /// The machine after the access of `inst` to the interrupt controller at
    /// `fault_addr` has been emulated, and the length of the instruction:
    /// what [`VmView::plic_access_applied`] gives for the decoder's answer.
    pub open spec fn plic_handled(self, inst: u32, fault_addr: usize) -> (
        VmView,
        Result<usize, HyperError>,
    ) {
        self.plic_access_applied(
            decoded(Self::instruction_word(inst)),
            length_of(inst as u16),
            fault_addr,
        )
    }

    /// The machine after a page fault at `fault_addr` has been handled: a
    /// fault in the window of the interrupt controller is emulated, any other
    /// fails with `PageFault`.
    pub open spec fn page_fault_handled(self, inst: u32, fault_addr: usize) -> (
        VmView,
        Result<usize, HyperError>,
    ) {
        if self.plic.in_window(fault_addr) {
            self.plic_handled(inst, fault_addr)
        } else {
            (self, Err(HyperError::PageFault))
        }
    }

    /// Whether an instruction has a length that the emulation can decode.
    pub open spec fn decodable_length(inst: u32) -> bool {
        length_of(inst as u16) == 2 || length_of(inst as u16) == 4
    }

    /// The machine after the page fault of the trapping instruction `inst`
    /// has been dealt with, and what the run loop is to do next.
    pub open spec fn page_fault_completed(self, fault_pc: usize, inst: u32, fault_addr: usize) -> (
        VmView,
        ExitAction,
    ) {
        if self.plic.in_window(fault_addr) && !Self::decodable_length(inst) {
            (self, ExitAction::Fatal(FatalExit::InstructionLength { fault_pc, fault_addr }))
        } else {
            match self.page_fault_handled(inst, fault_addr).1 {
                Ok(len) => (
                    VmView {
                        instruction_length: len,
                        advance_pc: true,
                        ..self.page_fault_handled(inst, fault_addr).0
                    },
                    ExitAction::Continue,
                ),
                Err(error) => (
                    self.page_fault_handled(inst, fault_addr).0,
                    ExitAction::Fatal(FatalExit::PageFault { fault_pc, fault_addr, error }),
                ),
            }
        }
    }

    /// The machine after an environment call with the message `msg` has been
    /// dealt with, and what the run loop is to do next.
    pub open spec fn ecall_handled(self, msg: HyperCallMsg) -> (VmView, ExitAction) {
        let stepping = VmView { advance_pc: true, ..self };
        match msg {
            HyperCallMsg::Base(base) => (stepping, ExitAction::Firmware(FirmwareCall::Base(base))),
            HyperCallMsg::GetChar => (
                stepping.char_read().0.with_gpr(GprIndex::A0.number(), stepping.char_read().1),
                ExitAction::Continue,
            ),
            HyperCallMsg::PutChar(c) => (stepping, ExitAction::Firmware(FirmwareCall::PutChar(c))),
            HyperCallMsg::SetTimer(timer) => (
                VmView { timer: timer as u64, ..stepping },
                ExitAction::Return(VmmTrap::SetTimer(timer as u64)),
            ),
            HyperCallMsg::Reset(_) => (stepping, ExitAction::Firmware(FirmwareCall::Shutdown)),
            HyperCallMsg::RemoteFence(rfnc) => (
                stepping,
                ExitAction::Firmware(FirmwareCall::RemoteFence(rfnc)),
            ),
            HyperCallMsg::PMU(pmu) => (stepping, ExitAction::Firmware(FirmwareCall::Pmu(pmu))),
        }
    }

    /// The machine after a VM exit has been dealt with, and what the run
    /// loop is to do next.
    pub open spec fn exit_handled(self, exit: VmExitInfo) -> (VmView, ExitAction) {
        match exit {
            VmExitInfo::Ecall(Some(msg)) => self.ecall_handled(msg),
            VmExitInfo::Ecall(None) => (self, ExitAction::Fatal(FatalExit::EcallWithoutMessage)),
            VmExitInfo::PageFault { fault_addr, falut_pc, inst, priv_level } => match priv_level {
                PrivilegeLevel::User => (self, ExitAction::Fatal(FatalExit::UserPageFault)),
                PrivilegeLevel::Supervisor => if self.plic.in_window(fault_addr) && inst == 0 {
                    (self, ExitAction::FetchInstruction { inst_addr: falut_pc, fault_addr })
                } else {
                    self.page_fault_completed(falut_pc, inst, fault_addr)
                },
            },
            VmExitInfo::TimerInterruptEmulation => (
                self,
                ExitAction::Return(VmmTrap::TimerInterruptEmulation),
            ),
            VmExitInfo::ExternalInterruptEmulation => (
                self,
                ExitAction::ClaimInterrupt {
                    claim_addr: (self.plic.base + CLAIM_COMPLETE_OFFSET) as usize,
                },
            ),
        }
    }
}

impl<G: GuestPageTableTrait> VM<G> {
    /// The guest page table that the machine was created with.
    pub closed spec fn guest_page_table(&self) -> G {
        self.gpt
    }

    /// The root that the machine installs in its virtual CPUs is the root of
    /// its guest page table.
    pub proof fn lemma_token(&self)
        ensures
            self@.token == self.guest_page_table().root_token(),
    {
    }

    /// Create a new VM with `vcpus` vCPUs and `gpt` as the guest page table.
    /// Its interrupt controller has every register zero, no timer is set, and
    /// no character waits to be read.
    pub fn new(vcpus: VmCpus, gpt: G) -> (r: Result<VM<G>, HyperError>)
        requires
            vcpus.wf(),
        ensures
            r is Ok,
            r.unwrap()@.wf(),
            r.unwrap().guest_page_table() == gpt,
            r.unwrap()@ == (VmView {
                vcpus: vcpus@,
                token: gpt.root_token(),
                plic: PlicState::initial(PLIC_BASE),
                gprs: Seq::new(32, |i: int| 0usize),
                advance_pc: false,
                instruction_length: 4,
                timer: u64::MAX,
                input_buffer: Seq::empty(),
            }),
    {
        Ok(
            VM {
                vcpus,
                gpt,
                plic: PlicState::new(PLIC_BASE),
                state: VMState::new(),
                timer: u64::MAX,
                input_buffer: VecDeque::new(),
            },
        )
    }

    /// Adds a character to the input buffer of the guest.
    pub fn add_char_to_input_buffer(&mut self, c: usize)
        ensures
            final(self).guest_page_table() == old(self).guest_page_table(),
            final(self)@ == (VmView {
                input_buffer: old(self)@.input_buffer.push(c),
                ..old(self)@
            }),
    {
        self.input_buffer.push_back(c);
    }

    /// Takes the oldest character from the input buffer. An empty buffer
    /// gives `usize::MAX`.
    pub fn read_from_input_buffer(&mut self) -> (r: usize)
        ensures
            final(self).guest_page_table() == old(self).guest_page_table(),
            final(self)@ == old(self)@.char_read().0,
            r == old(self)@.char_read().1,
    {
        if let Some(c) = self.input_buffer.pop_front() {
            return c;
        }
        return usize::MAX;
    }

    /// Whether a virtual CPU with the identifier `vcpu_id` exists.
    pub fn has_vcpu(&self, vcpu_id: usize) -> (r: bool)
        requires
            self@.wf(),
        ensures
            r == self@.has(vcpu_id),
    {
        self.vcpus.get_vcpu(vcpu_id).is_ok()
    }

    /// Initialize the vCPU `vcpu_id`: installs the root of the guest page
    /// table in it, and takes its general-purpose registers over into the
    /// state.
    pub fn init_vcpu(&mut self, vcpu_id: usize)
        requires
            old(self)@.wf(),
            old(self)@.has(vcpu_id),
        ensures
            final(self).guest_page_table() == old(self).guest_page_table(),
            final(self)@.wf(),
            final(self)@ == (VmView {
                gprs: old(self)@.vcpu(vcpu_id).gprs,
                ..old(self)@.with_vcpu(
                    VCpuView { hgatp: old(self)@.token, ..old(self)@.vcpu(vcpu_id) },
                )
            }),
    {
        match self.vcpus.get_vcpu(vcpu_id) {
            Ok(mut vcpu) => {
                vcpu.init_page_map(self.gpt.token());
                vcpu.save_gprs(&mut self.state.general_purpose_registers);
                self.vcpus.set_vcpu(vcpu);
                proof {
                    self.state.general_purpose_registers.lemma_len();
                }
            },
            Err(_) => {},
        }
    }

    /// The guest page table that the machine was created with.
    pub fn page_table(&self) -> (r: &G)
        ensures
            *r == self.guest_page_table(),
    {
        &self.gpt
    }

    /// The root of the guest page table.
    pub fn page_table_token(&self) -> (r: usize)
        ensures
            r == self@.token,
    {
        self.gpt.token()
    }

    /// The deadline that the guest has set, `u64::MAX` where it has set none.
    pub fn get_timer(&self) -> (r: u64)
        ensures
            r == self@.timer,
    {
        self.timer
    }

    /// Records the deadline that the guest has set.
    pub fn set_timer(&mut self, timer: u64)
        ensures
            final(self).guest_page_table() == old(self).guest_page_table(),
            final(self)@ == (VmView { timer, ..old(self)@ }),
    {
        self.timer = timer;
    }

    /// The general-purpose registers of the state.
    pub fn gprs(&self) -> (r: &GeneralPurposeRegisters)
        ensures
            r@ == self@.gprs,
    {
        &self.state.general_purpose_registers
    }

    /// The general-purpose registers of the state, to be changed between two
    /// runs.
    pub fn gprs_mut(&mut self) -> (r: &mut GeneralPurposeRegisters)
        ensures
            final(self).guest_page_table() == old(self).guest_page_table(),
            r@ == old(self)@.gprs,
            final(self)@ == (VmView { gprs: final(r)@, ..old(self)@ }),
    {
        &mut self.state.general_purpose_registers
    }

    /// Whether the virtual CPU is to step over an instruction before the
    /// next run.
    pub fn advance_pc(&self) -> (r: bool)
        ensures
            r == self@.advance_pc,
    {
        self.state.advance_pc
    }

    /// Length in bytes of the instruction to step over.
    pub fn instruction_length(&self) -> (r: usize)
        ensures
            r == self@.instruction_length,
    {
        self.state.instruction_length
    }

    /// The interrupt controller of the guest.
    pub fn plic(&self) -> (r: &PlicState)
        ensures
            r@ == self@.plic,
    {
        &self.plic
    }

    /// The virtual CPUs of the guest.
    pub fn vcpus(&self) -> (r: &VmCpus)
        ensures
            r@ == self@.vcpus,
    {
        &self.vcpus
    }

    /// Loads the state into the virtual CPU `vcpu_id`: its general-purpose
    /// registers and, where an instruction has been emulated, the step over
    /// that instruction.
    pub fn restore_state(&mut self, vcpu_id: usize)
        requires
            old(self)@.wf(),
            old(self)@.has(vcpu_id),
        ensures
            final(self).guest_page_table() == old(self).guest_page_table(),
            final(self)@.wf(),
            final(self)@ == old(self)@.state_restored(vcpu_id),
    {
        match self.vcpus.get_vcpu(vcpu_id) {
            Ok(mut vcpu) => {
                vcpu.restore_gprs(&self.state.general_purpose_registers);
                if self.state.advance_pc {
                    vcpu.advance_pc(self.state.instruction_length);
                }
                self.vcpus.set_vcpu(vcpu);
            },
            Err(_) => {},
        }
    }

    /// Makes the machine ready for a run of the guest on the virtual CPU
    /// `vcpu_id`: loads the state into it, and resets what the state says of
    /// an instruction to step over.
    pub fn prepare_run(&mut self, vcpu_id: usize)
        requires
            old(self)@.wf(),
            old(self)@.has(vcpu_id),
        ensures
            final(self).guest_page_table() == old(self).guest_page_table(),
            final(self)@.wf(),
            final(self)@ == old(self)@.run_prepared(vcpu_id),
    {
        self.restore_state(vcpu_id);
        self.state.advance_pc = false;
        self.state.instruction_length = 4;
    }

    /// Takes over what the processor holds after a run of the guest on the
    /// virtual CPU `vcpu_id`: the guest's general-purpose registers and the
    /// address at which it stopped.
    pub fn run_and_save_state(
        &mut self,
        vcpu_id: usize,
        gprs: &GeneralPurposeRegisters,
        sepc: usize,
    )
        requires
            old(self)@.wf(),
            old(self)@.has(vcpu_id),
        ensures
            final(self).guest_page_table() == old(self).guest_page_table(),
            final(self)@.wf(),
            final(self)@ == old(self)@.state_saved(vcpu_id, gprs@, sepc),
    {
        match self.vcpus.get_vcpu(vcpu_id) {
            Ok(mut vcpu) => {
                vcpu.save_exit(gprs, sepc);
                vcpu.save_gprs(&mut self.state.general_purpose_registers);
                self.vcpus.set_vcpu(vcpu);
                proof {
                    gprs.lemma_len();
                }
            },
            Err(_) => {},
        }
    }

    /// Handles a page fault of the guest's supervisor mode at `fault_addr`,
    /// caused by the instruction `inst`: emulates the access where it goes to
    /// the interrupt controller, and gives the length of the instruction.
    /// A fault outside the controller's window fails with `PageFault`.
    pub fn handle_page_fault(&mut self, inst_addr: usize, inst: u32, fault_addr: usize) -> (r:
        Result<usize, HyperError>)
        requires
            old(self)@.wf(),
            old(self)@.plic.in_window(fault_addr) ==> VmView::decodable_length(inst),
        ensures
            final(self).guest_page_table() == old(self).guest_page_table(),
            final(self)@.wf(),
            final(self)@ == old(self)@.page_fault_handled(inst, fault_addr).0,
            r == old(self)@.page_fault_handled(inst, fault_addr).1,
    {
        //  plic
        if fault_addr >= self.plic.base() && fault_addr < self.plic.base() + PLIC_SIZE {
            self.handle_plic(inst_addr, inst, fault_addr)
        } else {
            Err(HyperError::PageFault)
        }
    }

    /// Emulates a decoded access to the register of the interrupt
    /// controller at `fault_addr`, and gives the length `len` of the
    /// instruction. Only `sw` and `lw` are accepted: anything else fails with
    /// `InvalidInstruction` and changes nothing.
    pub fn apply_plic_access(&mut self, access: MmioInstruction, len: usize, fault_addr: usize)
        -> (r: Result<usize, HyperError>)
        requires
            old(self)@.wf(),
            old(self)@.plic.in_window(fault_addr),
        ensures
            final(self).guest_page_table() == old(self).guest_page_table(),
            final(self)@.wf(),
            final(self)@ == old(self)@.plic_access_applied(access, len, fault_addr).0,
            r == old(self)@.plic_access_applied(access, len, fault_addr).1,
    {
        proof {
            self.state.general_purpose_registers.lemma_len();
        }
        match access {
            MmioInstruction::Sw { rs2 } => {
                match GprIndex::from_raw(rs2) {
                    Some(index) => {
                        let val: u32 = self.state.general_purpose_registers.reg(index) as u32;
                        self.plic.write_u32(fault_addr, val);
                    },
                    None => {
                        return Err(HyperError::InvalidInstruction);
                    },
                }
            },
            MmioInstruction::Lw { rd } => {
                match GprIndex::from_raw(rd) {
                    Some(index) => {
                        let val: u32 = self.plic.read_u32(fault_addr);
                        self.state.general_purpose_registers.set_reg(index, val as usize);
                    },
                    None => {
                        return Err(HyperError::InvalidInstruction);
                    },
                }
            },
            _ => {
                return Err(HyperError::InvalidInstruction);
            },
        }
        Ok(len)
    }

    /// Emulates the access of the instruction `inst` to the register of the
    /// interrupt controller at `fault_addr`, and gives the length of the
    /// instruction: decodes the instruction, and goes on as
    /// [`VM::apply_plic_access`] does.
    ///
    /// For the `sw`, `lw`, `c.sw`, `c.swsp` and `c.lw` that
    /// [`word_access`] lists, the register that is stored or loaded is the
    /// one that the word names.
    pub fn handle_plic(&mut self, inst_addr: usize, inst: u32, fault_addr: usize) -> (r: Result<
        usize,
        HyperError,
    >)
        requires
            old(self)@.wf(),
            old(self)@.plic.in_window(fault_addr),
            VmView::decodable_length(inst),
        ensures
            final(self).guest_page_table() == old(self).guest_page_table(),
            final(self)@.wf(),
            final(self)@ == old(self)@.plic_handled(inst, fault_addr).0,
            r == old(self)@.plic_handled(inst, fault_addr).1,
            word_access(VmView::instruction_word(inst)) is Some ==> (final(self)@, r) == old(
                self,
            )@.plic_access_applied(
                word_access(VmView::instruction_word(inst)).unwrap(),
                length_of(inst as u16),
                fault_addr,
            ),
    {
        let i1: u16 = inst as u16;
        let len: usize = instruction_length(i1);
        let inst: u32 = if len == 2 {
            i1 as u32
        } else {
            inst
        };
        let access = decode(inst);
        self.apply_plic_access(access, len, fault_addr)
    }

    /// Hands the interrupt `irq`, claimed from the controller of the host,
    /// to the guest: stores it in the claim/complete register of the guest's
    /// context. The caller then raises the external interrupt of the guest.
    pub fn handle_irq(&mut self, irq: u32)
        requires
            old(self)@.wf(),
            irq != 0,
        ensures
            final(self).guest_page_table() == old(self).guest_page_table(),
            final(self)@.wf(),
            final(self)@ == (VmView {
                plic: PlicView {
                    claim_complete: old(self)@.plic.claim_complete.update(
                        GUEST_CONTEXT as int,
                        irq,
                    ),
                    ..old(self)@.plic
                },
                ..old(self)@
            }),
    {
        let context_id: usize = GUEST_CONTEXT;
        self.plic.set_claim_complete(context_id, irq);
    }

    /// Finishes a call of the base extension with the value that the
    /// firmware has answered: the guest reads it from `a1`, and 0 from `a0`.
    pub fn handle_base_function(&mut self, value: usize) -> (r: Result<(), HyperError>)
        ensures
            final(self).guest_page_table() == old(self).guest_page_table(),
            r == Ok::<(), HyperError>(()),
            final(self)@ == old(self)@.base_function_handled(value),
    {
        let gprs = &mut self.state.general_purpose_registers;
        gprs.set_reg(GprIndex::A1, value);
        gprs.set_reg(GprIndex::A0, 0);
        Ok(())
    }

    /// Finishes a call of the performance-monitoring extension with the
    /// firmware's answer.
    pub fn handle_pmu_function(&mut self, pmu: PmuFunction, ret: SbiRet) -> (r: Result<
        (),
        HyperError,
    >)
        ensures
            final(self).guest_page_table() == old(self).guest_page_table(),
            r == Ok::<(), HyperError>(()),
            final(self)@ == old(self)@.pmu_function_handled(pmu, ret),
    {
        let gprs = &mut self.state.general_purpose_registers;
        gprs.set_reg(GprIndex::A0, 0);
        match pmu {
            PmuFunction::GetNumCounters => {
                gprs.set_reg(GprIndex::A1, ret.value);
            },
            PmuFunction::GetCounterInfo(_) => {
                gprs.set_reg(GprIndex::A0, ret.error);
                gprs.set_reg(GprIndex::A1, ret.value);
            },
            PmuFunction::StopCounter { .. } => {
                gprs.set_reg(GprIndex::A0, ret.error);
                gprs.set_reg(GprIndex::A1, ret.value);
            },
        }
        Ok(())
    }

    /// Finishes a call of the remote-fence extension with the firmware's
    /// answer.
    pub fn handle_rfnc_function(&mut self, ret: SbiRet) -> (r: Result<(), HyperError>)
        ensures
            final(self).guest_page_table() == old(self).guest_page_table(),
            r == Ok::<(), HyperError>(()),
            final(self)@ == old(self)@.rfnc_function_handled(ret),
    {
        let gprs = &mut self.state.general_purpose_registers;
        gprs.set_reg(GprIndex::A0, 0);
        gprs.set_reg(GprIndex::A0, ret.error);
        gprs.set_reg(GprIndex::A1, ret.value);
        Ok(())
    }

    /// Finishes the firmware call that [`VM::handle_exit`] has asked for,
    /// with the firmware's answer.
    pub fn complete_firmware_call(&mut self, call: FirmwareCall, ret: SbiRet)
        ensures
            final(self).guest_page_table() == old(self).guest_page_table(),
            final(self)@ == old(self)@.firmware_call_completed(call, ret),
    {
        match call {
            FirmwareCall::Base(_) => {
                let _ = self.handle_base_function(ret.value);
            },
            FirmwareCall::PutChar(_) => {},
            FirmwareCall::Shutdown => {},
            FirmwareCall::RemoteFence(_) => {
                let _ = self.handle_rfnc_function(ret);
            },
            FirmwareCall::Pmu(pmu) => {
                let _ = self.handle_pmu_function(pmu, ret);
            },
        }
    }

    /// Deals with a page fault of the guest's supervisor mode once the
    /// trapping instruction `inst` is known, and says what the run loop is to
    /// do next.
    pub fn complete_page_fault(&mut self, fault_pc: usize, inst: u32, fault_addr: usize) -> (r:
        ExitAction)
        requires
            old(self)@.wf(),
        ensures
            final(self).guest_page_table() == old(self).guest_page_table(),
            final(self)@.wf(),
            final(self)@ == old(self)@.page_fault_completed(fault_pc, inst, fault_addr).0,
            r == old(self)@.page_fault_completed(fault_pc, inst, fault_addr).1,
    {
        let in_window = fault_addr >= self.plic.base() && fault_addr < self.plic.base()
            + PLIC_SIZE;
        if in_window {
            let len = instruction_length(inst as u16);
            if len != 2 && len != 4 {
                return ExitAction::Fatal(FatalExit::InstructionLength { fault_pc, fault_addr });
            }
        }
        match self.handle_page_fault(fault_pc, inst, fault_addr) {
            Ok(inst_len) => {
                self.state.instruction_length = inst_len;
                self.state.advance_pc = true;
                ExitAction::Continue
            },
            Err(error) => ExitAction::Fatal(
                FatalExit::PageFault { fault_pc, fault_addr, error },
            ),
        }
    }

    /// Deals with a VM exit, and says what the run loop is to do next.
    ///
    /// A read of a character and a timer that the guest sets are finished
    /// here. What takes the firmware, the memory of the guest or the
    /// controller of the host is left to the run loop, which comes back with
    /// the outcome.
    pub fn handle_exit(&mut self, vm_exit_info: VmExitInfo) -> (r: ExitAction)
        requires
            old(self)@.wf(),
        ensures
            final(self).guest_page_table() == old(self).guest_page_table(),
            final(self)@.wf(),
            final(self)@ == old(self)@.exit_handled(vm_exit_info).0,
            r == old(self)@.exit_handled(vm_exit_info).1,
    {
        proof {
            self.state.general_purpose_registers.lemma_len();
        }
        match vm_exit_info {
            VmExitInfo::Ecall(sbi_msg) => {
                if let Some(sbi_msg) = sbi_msg {
                    self.state.advance_pc = true;
                    match sbi_msg {
                        HyperCallMsg::Base(base) => ExitAction::Firmware(FirmwareCall::Base(base)),
                        HyperCallMsg::GetChar => {
                            let c = self.read_from_input_buffer();
                            self.state.general_purpose_registers.set_reg(GprIndex::A0, c);
                            proof {
                                self.state.general_purpose_registers.lemma_len();
                            }
                            ExitAction::Continue
                        },
                        HyperCallMsg::PutChar(c) => ExitAction::Firmware(FirmwareCall::PutChar(c)),
                        HyperCallMsg::SetTimer(timer) => {
                            self.set_timer(timer as u64);
                            ExitAction::Return(VmmTrap::SetTimer(timer as u64))
                        },
                        HyperCallMsg::Reset(_) => ExitAction::Firmware(FirmwareCall::Shutdown),
                        HyperCallMsg::RemoteFence(rfnc) => ExitAction::Firmware(
                            FirmwareCall::RemoteFence(rfnc),
                        ),
                        HyperCallMsg::PMU(pmu) => ExitAction::Firmware(FirmwareCall::Pmu(pmu)),
                    }
                } else {
                    ExitAction::Fatal(FatalExit::EcallWithoutMessage)
                }
            },
            VmExitInfo::PageFault { fault_addr, falut_pc, inst, priv_level } => match priv_level {
                PrivilegeLevel::Supervisor => {
                    let in_window = fault_addr >= self.plic.base() && fault_addr
                        < self.plic.base() + PLIC_SIZE;
                    if in_window && inst == 0 {
                        // The processor does not say which instruction trapped:
                        // it must be read from the memory of the guest.
                        ExitAction::FetchInstruction { inst_addr: falut_pc, fault_addr }
                    } else {
                        self.complete_page_fault(falut_pc, inst, fault_addr)
                    }
                },
                PrivilegeLevel::User => ExitAction::Fatal(FatalExit::UserPageFault),
            },
            VmExitInfo::TimerInterruptEmulation => ExitAction::Return(
                VmmTrap::TimerInterruptEmulation,
            ),
            VmExitInfo::ExternalInterruptEmulation => ExitAction::ClaimInterrupt {
                claim_addr: self.plic.base() + CLAIM_COMPLETE_OFFSET,
            },
        }
    }
}

} // verus!

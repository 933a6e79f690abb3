//! What holds of a virtual machine over several steps.

use vstd::prelude::*;
use crate::error::HyperError;
use crate::riscv::decode::{decoded, length_of, MmioInstruction};
use crate::riscv::regs::{with_reg, GprIndex};
use crate::riscv::sbi::HyperCallMsg;
use crate::riscv::vm::{ExitAction, VmExitInfo, VmView, VmmTrap};

verus! {

impl VmView {
    /// The machine after the guest has read `n` characters one after the
    /// other.
    pub open spec fn chars_read(self, n: nat) -> VmView
        decreases n,
    {
        if n == 0 {
            self
        } else {
            self.chars_read((n - 1) as nat).char_read().0
        }
    }
}

/// State makes the round trip through a virtual CPU unchanged: the registers
/// that are saved after a run are the registers with which the guest left
/// the processor, and a guest that changes nothing leaves the state with the
/// registers that were loaded before the run.
pub proof fn lemma_state_round_trip(v: VmView, vcpu_id: usize, gprs: Seq<usize>, sepc: usize)
    requires
        v.wf(),
        v.has(vcpu_id),
    ensures
        v.run_prepared(vcpu_id).vcpu(vcpu_id).gprs == v.gprs,
        v.run_prepared(vcpu_id).gprs == v.gprs,
        v.run_prepared(vcpu_id).state_saved(vcpu_id, gprs, sepc).gprs == gprs,
        v.run_prepared(vcpu_id).state_saved(vcpu_id, gprs, sepc).vcpu(vcpu_id).gprs == gprs,
        v.run_prepared(vcpu_id).state_saved(vcpu_id, gprs, sepc).vcpu(vcpu_id).sepc == sepc,
        v.run_prepared(vcpu_id).state_saved(
            vcpu_id,
            v.run_prepared(vcpu_id).vcpu(vcpu_id).gprs,
            sepc,
        ).gprs == v.gprs,
{
}

/// The step over an emulated instruction is made once: the state asks for
/// it after an instruction has been emulated, the next run makes it, and the
/// state then asks for none.
pub proof fn lemma_pc_advanced_once(v: VmView, vcpu_id: usize)
    requires
        v.wf(),
        v.has(vcpu_id),
    ensures
        !v.run_prepared(vcpu_id).advance_pc,
        v.run_prepared(vcpu_id).instruction_length == 4,
        v.advance_pc ==> v.run_prepared(vcpu_id).vcpu(vcpu_id).sepc
            == crate::riscv::vcpu::advanced_pc(v.vcpu(vcpu_id).sepc, v.instruction_length),
        !v.advance_pc ==> v.run_prepared(vcpu_id).vcpu(vcpu_id).sepc == v.vcpu(vcpu_id).sepc,
{
}

/// The guest reads characters in the order in which they were added: the
/// `k`-th read gives the `k`-th character of the buffer, and `n` reads leave
/// what comes after the first `n`. A read from an empty buffer gives
/// `usize::MAX` and changes nothing.
pub proof fn lemma_input_fifo(v: VmView, n: nat)
    requires
        n <= v.input_buffer.len(),
    ensures
        v.chars_read(n).input_buffer == v.input_buffer.skip(n as int),
        n < v.input_buffer.len() ==> v.chars_read(n).char_read().1 == v.input_buffer[n as int],
        n == v.input_buffer.len() ==> v.chars_read(n).char_read() == (
            v.chars_read(n),
            usize::MAX,
        ),
    decreases n,
{
    if n == 0 {
        assert(v.input_buffer.skip(0) =~= v.input_buffer);
    } else {
        lemma_input_fifo(v, (n - 1) as nat);
        let before = v.chars_read((n - 1) as nat);
        assert(before.input_buffer.subrange(1, before.input_buffer.len() as int)
            =~= v.input_buffer.skip(n as int));
    }
}

/// An access to the interrupt controller is emulated for `sw` and `lw`
/// only. A `sw` leaves the controller as a store of the source register
/// leaves it, and the guest's registers as they are; a `lw` leaves the
/// destination register with what a load from the controller gives, and the
/// controller as it is; anything else fails with `InvalidInstruction` and
/// changes nothing.
pub proof fn lemma_plic_decoder(v: VmView, access: MmioInstruction, len: usize, fault_addr: usize)
    ensures
        match access {
            MmioInstruction::Sw { rs2 } => rs2 < 32 ==> v.plic_access_applied(
                access,
                len,
                fault_addr,
            ).0.plic == v.plic.written(fault_addr, v.gprs[rs2 as int] as u32)
                && v.plic_access_applied(access, len, fault_addr).0.gprs == v.gprs
                && v.plic_access_applied(access, len, fault_addr).1 == Ok::<usize, HyperError>(len),
            MmioInstruction::Lw { rd } => rd < 32 ==> v.plic_access_applied(
                access,
                len,
                fault_addr,
            ).0.plic == v.plic && v.plic_access_applied(access, len, fault_addr).0.gprs
                == with_reg(v.gprs, rd as int, v.plic.read(fault_addr) as usize)
                && v.plic_access_applied(access, len, fault_addr).1 == Ok::<usize, HyperError>(len),
            _ => v.plic_access_applied(access, len, fault_addr) == (
                v,
                Err::<usize, HyperError>(HyperError::InvalidInstruction),
            ),
        },
{
}

/// What the emulation makes of a trapping instruction is what it makes of
/// the decoder's answer to it: a word that the decoder does not decode is
/// refused with `InvalidInstruction` like any instruction that is no `sw`
/// and no `lw`.
pub proof fn lemma_plic_handled(v: VmView, inst: u32, fault_addr: usize)
    ensures
        v.plic_handled(inst, fault_addr) == v.plic_access_applied(
            decoded(VmView::instruction_word(inst)),
            length_of(inst as u16),
            fault_addr,
        ),
        decoded(VmView::instruction_word(inst)) is Undecodable || decoded(
            VmView::instruction_word(inst),
        ) is Other ==> v.plic_handled(inst, fault_addr) == (
            v,
            Err::<usize, HyperError>(HyperError::InvalidInstruction),
        ),
{
}

/// A word stored by a `sw` is read back by a `lw` from the same address:
/// where the address holds a register of the controller, the destination
/// register of the load ends with the low 32 bits that the source register
/// of the store held.
pub proof fn lemma_sw_lw_round_trip(v: VmView, rs2: u32, rd: u32, fault_addr: usize)
    requires
        v.wf(),
        v.plic.in_window(fault_addr),
        crate::riscv::plic::register_at(fault_addr - v.plic.base) is Some,
        rs2 < 32,
        0 < rd < 32,
    ensures
        v.plic_access_applied(MmioInstruction::Sw { rs2 }, 4, fault_addr).0.plic_access_applied(
            MmioInstruction::Lw { rd },
            4,
            fault_addr,
        ).0.gprs[rd as int] == (v.gprs[rs2 as int] as u32) as usize,
{
    crate::riscv::plic::lemma_written_then_read(
        v.plic,
        fault_addr,
        v.gprs[rs2 as int] as u32,
        fault_addr,
    );
}

/// A read of a character from an empty input buffer hands the guest
/// `usize::MAX` in `a0`, and makes it step over the call, which is four
/// bytes long.
pub proof fn lemma_getchar_on_empty(v: VmView, vcpu_id: usize)
    requires
        v.wf(),
        v.has(vcpu_id),
        v.input_buffer.len() == 0,
    ensures
        v.run_prepared(vcpu_id).exit_handled(VmExitInfo::Ecall(Some(HyperCallMsg::GetChar))).1
            == ExitAction::Continue,
        v.run_prepared(vcpu_id).exit_handled(
            VmExitInfo::Ecall(Some(HyperCallMsg::GetChar)),
        ).0.gprs[GprIndex::A0.number()] == usize::MAX,
        v.run_prepared(vcpu_id).exit_handled(
            VmExitInfo::Ecall(Some(HyperCallMsg::GetChar)),
        ).0.advance_pc,
        v.run_prepared(vcpu_id).exit_handled(
            VmExitInfo::Ecall(Some(HyperCallMsg::GetChar)),
        ).0.instruction_length == 4,
{
}

/// A timer that the guest sets is recorded and handed to the caller of the
/// run loop.
pub proof fn lemma_set_timer_surfaces(v: VmView, deadline: usize)
    ensures
        v.exit_handled(VmExitInfo::Ecall(Some(HyperCallMsg::SetTimer(deadline)))).1
            == ExitAction::Return(VmmTrap::SetTimer(deadline as u64)),
        v.exit_handled(VmExitInfo::Ecall(Some(HyperCallMsg::SetTimer(deadline)))).0.timer
            == deadline as u64,
{
}

} // verus!

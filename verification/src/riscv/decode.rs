//! Decoding of the instruction that caused a guest page fault.

use riscv_decode::Instruction;
use vstd::prelude::*;

verus! {

/// An instruction, as far as the emulation of memory-mapped registers reads
/// it.
#[derive(Clone, Copy, Debug, PartialEq, Eq, Structural)]
pub enum MmioInstruction {
    /// A store of the low 32 bits of register `rs2`.
    Sw { rs2: u32 },
    /// A load of 32 bits into register `rd`.
    Lw { rd: u32 },
    /// Any other instruction.
    Other,
    /// A word that the decoder does not decode: no instruction, or one that
    /// it lacks.
    Undecodable,
}

/// What the decoder of the `riscv_decode` crate makes of an instruction word.
pub uninterp spec fn decoded(inst: u32) -> MmioInstruction;

/// The length in bytes of the instruction that starts with the 16 bits `i`:
/// 2 unless the two lowest bits are set, 4 unless the three bits above them
/// are set too, and longer for encodings that no defined instruction uses.
pub open spec fn length_of(i: u16) -> usize {
    if i & 0b11 != 0b11 {
        2
    } else if i & 0b11100 != 0b11100 {
        4
    } else if i & 0b111111 == 0b011111 {
        6
    } else if i & 0b1111111 == 0b011111 {
        8
    } else {
        (10 + 2 * ((i >> 12) & 0b111)) as usize
    }
}

/// `instruction_length` of the `riscv_decode` crate: the length in bytes of
/// an instruction, from its low 16 bits, by the rule that [`length_of`]
/// writes out.
#[verifier::external_body]
pub(crate) fn instruction_length(i: u16) -> (r: usize)
    ensures
        r == length_of(i),
{
    riscv_decode::instruction_length(i)
}

/// Whether a word is a `sw` of the base instruction set: opcode `0100011`
/// in bits 0 to 6 and width `010` in bits 12 to 14.
pub open spec fn is_sw(inst: u32) -> bool {
    inst & 0x707f == 0x2023
}

/// Whether a word is a `lw` of the base instruction set: opcode `0000011`
/// in bits 0 to 6 and width `010` in bits 12 to 14.
pub open spec fn is_lw(inst: u32) -> bool {
    inst & 0x707f == 0x2003
}

/// Whether a word is a `c.lw`: quadrant 0 in bits 0 and 1, `010` in bits 13
/// to 15, and nothing above its 16 bits.
pub open spec fn is_c_lw(inst: u32) -> bool {
    inst & 0xffff_e003 == 0x4000
}

/// Whether a word is a `c.sw`: quadrant 0 in bits 0 and 1, `110` in bits 13
/// to 15, and nothing above its 16 bits.
pub open spec fn is_c_sw(inst: u32) -> bool {
    inst & 0xffff_e003 == 0xc000
}

/// Whether a word is a `c.swsp`: quadrant 2 in bits 0 and 1, `110` in bits
/// 13 to 15, and nothing above its 16 bits.
pub open spec fn is_c_swsp(inst: u32) -> bool {
    inst & 0xffff_e003 == 0xc002
}

/// The accesses of 32 bits that the instruction sets define, as far as the
/// decoder knows them, with the register that each names:
/// `sw` (source register in bits 20 to 24), `lw` (destination register in
/// bits 7 to 11), `c.lw` and `c.sw` (register `x8` to `x15`, by bits 2 to 4)
/// and `c.swsp` (source register in bits 2 to 6).
pub open spec fn word_access(inst: u32) -> Option<MmioInstruction> {
    if is_sw(inst) {
        Some(MmioInstruction::Sw { rs2: (inst >> 20) & 0x1f })
    } else if is_lw(inst) {
        Some(MmioInstruction::Lw { rd: (inst >> 7) & 0x1f })
    } else if is_c_lw(inst) {
        Some(MmioInstruction::Lw { rd: ((inst >> 2) & 0x7) | 0x8 })
    } else if is_c_sw(inst) {
        Some(MmioInstruction::Sw { rs2: ((inst >> 2) & 0x7) | 0x8 })
    } else if is_c_swsp(inst) {
        Some(MmioInstruction::Sw { rs2: (inst >> 2) & 0x1f })
    } else {
        None
    }
}

/// `decode` of the `riscv_decode` crate, with the result reduced to what the
/// emulation reads: the source register of a `sw`, the destination register
/// of a `lw`, and whether the word is another instruction or none that the
/// crate decodes.
///
/// The crate takes both register numbers from five bits of the word it
/// decodes or expands to, so they are below 32. The words that
/// [`word_access`] lists it decodes as that function says: a word with the
/// opcode of a store or of a load and the width of a word goes to `Sw` or
/// `Lw` with the register field of the word; `c.lw`, `c.sw` and `c.swsp` are
/// expanded to the `lw` or `sw` that they stand for.
#[verifier::external_body]
pub(crate) fn decode(inst: u32) -> (r: MmioInstruction)
    ensures
        r == decoded(inst),
        r matches MmioInstruction::Sw { rs2 } ==> rs2 < 32,
        r matches MmioInstruction::Lw { rd } ==> rd < 32,
        word_access(inst) is Some ==> r == word_access(inst).unwrap(),
{
    match riscv_decode::decode(inst) {
        Ok(Instruction::Sw(i)) => MmioInstruction::Sw { rs2: i.rs2() },
        Ok(Instruction::Lw(i)) => MmioInstruction::Lw { rd: i.rd() },
        Ok(_) => MmioInstruction::Other,
        Err(_) => MmioInstruction::Undecodable,
    }
}

/// A `sw` and a `lw` of the base instruction set are four bytes long, and
/// the compressed forms two.
pub proof fn lemma_word_access_length(inst: u32)
    ensures
        is_sw(inst) || is_lw(inst) ==> length_of(inst as u16) == 4,
        is_c_lw(inst) || is_c_sw(inst) || is_c_swsp(inst) ==> length_of(inst as u16) == 2,
{
    let low = inst as u16;
    assert((inst & 0x707f == 0x2023 || inst & 0x707f == 0x2003 ==> low & 0b11 == 0b11 && low
        & 0b11100 != 0b11100) && (inst & 0xffff_e003 == 0x4000 || inst & 0xffff_e003 == 0xc000
        || inst & 0xffff_e003 == 0xc002 ==> low & 0b11 != 0b11)) by (bit_vector)
        requires
            low == inst as u16,
    ;
}

} // verus!

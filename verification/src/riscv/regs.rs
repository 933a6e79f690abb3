//! The guest's general-purpose registers.

use vstd::prelude::*;

verus! {

/// Index of a general-purpose register.
#[derive(Clone, Copy, Debug, PartialEq, Eq, Structural)]
pub enum GprIndex {
    Zero,
    RA,
    SP,
    GP,
    TP,
    T0,
    T1,
    T2,
    S0,
    S1,
    A0,
    A1,
    A2,
    A3,
    A4,
    A5,
    A6,
    A7,
    S2,
    S3,
    S4,
    S5,
    S6,
    S7,
    S8,
    S9,
    S10,
    S11,
    T3,
    T4,
    T5,
    T6,
}

impl GprIndex {
    /// The number of the register, from 0 for `zero` to 31 for `t6`.
    pub open spec fn number(self) -> int {
        match self {
            GprIndex::Zero => 0,
            GprIndex::RA => 1,
            GprIndex::SP => 2,
            GprIndex::GP => 3,
            GprIndex::TP => 4,
            GprIndex::T0 => 5,
            GprIndex::T1 => 6,
            GprIndex::T2 => 7,
            GprIndex::S0 => 8,
            GprIndex::S1 => 9,
            GprIndex::A0 => 10,
            GprIndex::A1 => 11,
            GprIndex::A2 => 12,
            GprIndex::A3 => 13,
            GprIndex::A4 => 14,
            GprIndex::A5 => 15,
            GprIndex::A6 => 16,
            GprIndex::A7 => 17,
            GprIndex::S2 => 18,
            GprIndex::S3 => 19,
            GprIndex::S4 => 20,
            GprIndex::S5 => 21,
            GprIndex::S6 => 22,
            GprIndex::S7 => 23,
            GprIndex::S8 => 24,
            GprIndex::S9 => 25,
            GprIndex::S10 => 26,
            GprIndex::S11 => 27,
            GprIndex::T3 => 28,
            GprIndex::T4 => 29,
            GprIndex::T5 => 30,
            GprIndex::T6 => 31,
        }
    }

    /// The number of the register.
    pub fn as_usize(self) -> (r: usize)
        ensures
            r == self.number(),
            r < 32,
    {
        match self {
            GprIndex::Zero => 0,
            GprIndex::RA => 1,
            GprIndex::SP => 2,
            GprIndex::GP => 3,
            GprIndex::TP => 4,
            GprIndex::T0 => 5,
            GprIndex::T1 => 6,
            GprIndex::T2 => 7,
            GprIndex::S0 => 8,
            GprIndex::S1 => 9,
            GprIndex::A0 => 10,
            GprIndex::A1 => 11,
            GprIndex::A2 => 12,
            GprIndex::A3 => 13,
            GprIndex::A4 => 14,
            GprIndex::A5 => 15,
            GprIndex::A6 => 16,
            GprIndex::A7 => 17,
            GprIndex::S2 => 18,
            GprIndex::S3 => 19,
            GprIndex::S4 => 20,
            GprIndex::S5 => 21,
            GprIndex::S6 => 22,
            GprIndex::S7 => 23,
            GprIndex::S8 => 24,
            GprIndex::S9 => 25,
            GprIndex::S10 => 26,
            GprIndex::S11 => 27,
            GprIndex::T3 => 28,
            GprIndex::T4 => 29,
            GprIndex::T5 => 30,
            GprIndex::T6 => 31,
        }
    }

    /// The register with the given number, if the number is below 32.
    pub fn from_raw(raw: u32) -> (r: Option<GprIndex>)
        ensures
            raw < 32 <==> r is Some,
            r is Some ==> r.unwrap().number() == raw,
    {
        let index = match raw {
            0 => GprIndex::Zero,
            1 => GprIndex::RA,
            2 => GprIndex::SP,
            3 => GprIndex::GP,
            4 => GprIndex::TP,
            5 => GprIndex::T0,
            6 => GprIndex::T1,
            7 => GprIndex::T2,
            8 => GprIndex::S0,
            9 => GprIndex::S1,
            10 => GprIndex::A0,
            11 => GprIndex::A1,
            12 => GprIndex::A2,
            13 => GprIndex::A3,
            14 => GprIndex::A4,
            15 => GprIndex::A5,
            16 => GprIndex::A6,
            17 => GprIndex::A7,
            18 => GprIndex::S2,
            19 => GprIndex::S3,
            20 => GprIndex::S4,
            21 => GprIndex::S5,
            22 => GprIndex::S6,
            23 => GprIndex::S7,
            24 => GprIndex::S8,
            25 => GprIndex::S9,
            26 => GprIndex::S10,
            27 => GprIndex::S11,
            28 => GprIndex::T3,
            29 => GprIndex::T4,
            30 => GprIndex::T5,
            31 => GprIndex::T6,
            _ => {
                return None;
            },
        };
        Some(index)
    }
}

/// What a register file holds after a write of `val` to the register with
/// number `index`: a write to register 0 changes nothing.
pub open spec fn with_reg(regs: Seq<usize>, index: int, val: usize) -> Seq<usize> {
    if index == 0 {
        regs
    } else {
        regs.update(index, val)
    }
}

/// The general-purpose registers of a guest, `x0` to `x31`.
#[derive(Clone, Copy, Debug)]
pub struct GeneralPurposeRegisters {
    regs: [usize; 32],
}

impl View for GeneralPurposeRegisters {
    type V = Seq<usize>;

    closed spec fn view(&self) -> Seq<usize> {
        self.regs@
    }
}

impl GeneralPurposeRegisters {
    /// A register file has 32 registers.
    pub proof fn lemma_len(&self)
        ensures
            self@.len() == 32,
    {
    }

    /// The register file with every register zero.
    pub fn new() -> (r: GeneralPurposeRegisters)
        ensures
            r@ == Seq::new(32, |i: int| 0usize),
    {
        let r = GeneralPurposeRegisters { regs: [0usize;32] };
        assert(r@ =~= Seq::new(32, |i: int| 0usize));
        r
    }

    /// Returns the value of the given register.
    pub fn reg(&self, reg_index: GprIndex) -> (r: usize)
        ensures
            r == self@[reg_index.number()],
    {
        self.regs[reg_index.as_usize()]
    }

    /// Sets the value of the given register. The register `zero` cannot be
    /// written: a write to it is ignored.
    pub fn set_reg(&mut self, reg_index: GprIndex, val: usize)
        ensures
            final(self)@ == with_reg(old(self)@, reg_index.number(), val),
    {
        if let GprIndex::Zero = reg_index {
            return ;
        }
        self.regs[reg_index.as_usize()] = val;
        assert(self@ =~= with_reg(old(self)@, reg_index.number(), val));
    }
}

impl Default for GeneralPurposeRegisters {
    fn default() -> (r: GeneralPurposeRegisters)
        ensures
            r@ == Seq::new(32, |i: int| 0usize),
    {
        GeneralPurposeRegisters::new()
    }
}

} // verus!

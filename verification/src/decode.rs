//! What the decode stage hands to the later stages.

use crate::x_register::XREG_COUNT;
use vstd::prelude::*;

verus! {

/// The instruction classes that the writeback stage tells apart.
#[derive(Clone, Copy, Debug, PartialEq, Eq, Structural)]
pub enum Opcode {
    /// Load byte, sign-extended.
    LB,
    /// Load byte, zero-extended.
    LBU,
    /// Load half-word, sign-extended.
    LH,
    /// Load half-word, zero-extended.
    LHU,
    /// Load word.
    LW,
    /// Store byte.
    SB,
    /// Store half-word.
    SH,
    /// Store word.
    SW,
    /// Branch if equal.
    BEQ,
    /// Branch if not equal.
    BNE,
    /// Branch if less than, signed.
    BLT,
    /// Branch if greater than or equal, signed.
    BGE,
    /// Branch if less than, unsigned.
    BLTU,
    /// Branch if greater than or equal, unsigned.
    BGEU,
    /// Atomic read and write of a CSR.
    CSRRW,
    /// `CSRRW` with the immediate in place of `rs1`.
    CSRRWI,
    /// Atomic read of a CSR and set of the bits given in `rs1`.
    CSRRS,
    /// `CSRRS` with the immediate in place of `rs1`.
    CSRRSI,
    /// Atomic read of a CSR and clear of the bits given in `rs1`.
    CSRRC,
    /// `CSRRC` with the immediate in place of `rs1`.
    CSRRCI,
    /// Environment call.
    ECALL,
    /// Return from a machine-mode trap.
    MRET,
    /// Memory ordering fence.
    FENCE,
    /// Every other instruction: its result is the plain output of the ALU
    /// (arithmetic, logic, shifts, comparisons, upper immediates, jump links).
    ALU,
}

impl Opcode {
    /// The five load instructions.
    pub open spec fn is_load(self) -> bool {
        self is LB || self is LBU || self is LH || self is LHU || self is LW
    }

    /// The three store instructions.
    pub open spec fn is_store(self) -> bool {
        self is SB || self is SH || self is SW
    }

    /// The six conditional branches.
    pub open spec fn is_branch(self) -> bool {
        self is BEQ || self is BNE || self is BLT || self is BGE || self is BLTU || self is BGEU
    }

    /// The six CSR read-modify-write instructions.
    pub open spec fn is_csr(self) -> bool {
        self is CSRRW || self is CSRRWI || self is CSRRS || self is CSRRSI || self is CSRRC
            || self is CSRRCI
    }

    /// The instructions that commit a value to their destination register:
    /// loads, CSR instructions and those with a plain ALU result.
    pub open spec fn writes_rd(self) -> bool {
        self.is_load() || self.is_csr() || self is ALU
    }
}

/// One decoded instruction, with its source registers already read.
#[derive(Clone, Copy, Debug)]
pub struct DecodeResult {
    pub opcode: Opcode,
    /// Index of the destination register.
    pub rd: u8,
    /// Value of the first source register.
    pub rs1_data: u32,
    /// Value of the second source register.
    pub rs2_data: u32,
    /// The zero-extended immediate of the immediate CSR forms.
    pub imm_z: u32,
    /// Address of the CSR that the instruction names.
    pub csr: u16,
}

impl DecodeResult {
    /// The destination register exists, where the instruction commits a
    /// value to one. The decode stage hands on nothing else.
    pub open spec fn valid(self) -> bool {
        self.opcode.writes_rd() ==> self.rd < XREG_COUNT
    }

    /// Whether the record is valid.
    pub fn is_valid(&self) -> (valid: bool)
        ensures
            valid == self.valid(),
    {
        match self.opcode {
            Opcode::LB
            | Opcode::LBU
            | Opcode::LH
            | Opcode::LHU
            | Opcode::LW
            | Opcode::CSRRW
            | Opcode::CSRRWI
            | Opcode::CSRRS
            | Opcode::CSRRSI
            | Opcode::CSRRC
            | Opcode::CSRRCI
            | Opcode::ALU => (self.rd as usize) < XREG_COUNT,
            _ => true,
        }
    }
}

} // verus!

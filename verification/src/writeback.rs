//! The writeback stage: commits one decoded and executed instruction to the
//! registers, the CSR bank and memory.

use crate::bus::{access_fault, store_value, stored_value, AccessWidth, Bus};
use crate::cs_register::{csr_value, ControlAndStatusRegister};
use crate::decode::{DecodeResult, Opcode};
use crate::execute::ExecuteResult;
use crate::x_register::{XRegisters, XREG_COUNT};
use vstd::prelude::*;

verus! {

/// Address of the CSR that holds the cause of the last trap (`mcause`).
pub const MCAUSE: u16 = 0x342;

/// The cause that `ECALL` records: an environment call from machine mode.
pub const CAUSE_ENVIRONMENT_CALL: u32 = 11;

/// The direction of a memory access.
#[derive(Clone, Copy, Debug, PartialEq, Eq, Structural)]
pub enum MemoryAccess {
    Read,
    Write,
}

/// The ways in which writeback fails.
#[derive(Clone, Copy, Debug, PartialEq, Eq, Structural)]
pub enum WritebackErrorType {
    /// The bus refused the access of a load or store.
    MemoryFault { access: MemoryAccess, width: AccessWidth, address: u32 },
}

/// The failure of one writeback.
#[derive(Clone, Copy, Debug, PartialEq, Eq)]
pub struct WritebackError {
    error_type: WritebackErrorType,
}

impl View for WritebackError {
    type V = WritebackErrorType;

    /// The kind of failure.
    closed spec fn view(&self) -> WritebackErrorType {
        self.error_type
    }
}

impl WritebackError {
    /// An error of the given kind.
    pub fn new(error_type: WritebackErrorType) -> (error: Box<Self>)
        ensures
            error@ == error_type,
    {
        Box::new(WritebackError { error_type })
    }

    /// The kind of failure.
    pub fn error_type(&self) -> (error_type: WritebackErrorType)
        ensures
            error_type == self@,
    {
        self.error_type
    }
}

/// The width of the memory access that an instruction makes, if it makes one.
pub open spec fn access_width(opcode: Opcode) -> Option<AccessWidth> {
    match opcode {
        Opcode::LB | Opcode::LBU | Opcode::SB => Some(AccessWidth::Byte),
        Opcode::LH | Opcode::LHU | Opcode::SH => Some(AccessWidth::Half),
        Opcode::LW | Opcode::SW => Some(AccessWidth::Word),
        _ => None,
    }
}

/// A loaded byte or half-word widened to 32 bits by copies of its top bit.
pub open spec fn sign_extended(value: u32, width: AccessWidth) -> u32 {
    match width {
        AccessWidth::Byte => if value < 0x80 {
            value
        } else {
            (value + 0xffff_ff00) as u32
        },
        AccessWidth::Half => if value < 0x8000 {
            value
        } else {
            (value + 0xffff_0000) as u32
        },
        AccessWidth::Word => value,
    }
}

/// The operand of a CSR instruction: the immediate for the immediate forms,
/// the value of `rs1` for the others.
pub open spec fn csr_operand(decode: DecodeResult) -> u32 {
    match decode.opcode {
        Opcode::CSRRWI | Opcode::CSRRSI | Opcode::CSRRCI => decode.imm_z,
        _ => decode.rs1_data,
    }
}

/// What a CSR instruction leaves in the register it names, which held
/// `current` before.
pub open spec fn csr_update(decode: DecodeResult, current: u32) -> u32 {
    match decode.opcode {
        Opcode::CSRRW | Opcode::CSRRWI => csr_operand(decode),
        Opcode::CSRRS | Opcode::CSRRSI => current | csr_operand(decode),
        Opcode::CSRRC | Opcode::CSRRCI => current & !csr_operand(decode),
        _ => current,
    }
}

/// The fault that stops the instruction, if its memory access is refused.
pub open spec fn memory_fault(decode: DecodeResult, execute: ExecuteResult, mem: Map<int, u8>) -> Option<
    WritebackErrorType,
> {
    match access_width(decode.opcode) {
        Some(width) => if access_fault(mem, execute.alu_out, width) is Some {
            Some(
                WritebackErrorType::MemoryFault {
                    access: if decode.opcode.is_load() {
                        MemoryAccess::Read
                    } else {
                        MemoryAccess::Write
                    },
                    width,
                    address: execute.alu_out,
                },
            )
        } else {
            None
        },
        None => None,
    }
}

/// The value that an instruction which does not fault commits to `rd`: the
/// extended memory contents for a load, the CSR as it was before the
/// instruction for a CSR instruction, the ALU output for plain arithmetic,
/// and nothing for every other instruction.
pub open spec fn rd_value(
    decode: DecodeResult,
    execute: ExecuteResult,
    csr: Map<u16, u32>,
    mem: Map<int, u8>,
) -> Option<u32> {
    let address = execute.alu_out as int;
    match decode.opcode {
        Opcode::LB => Some(
            sign_extended(stored_value(mem, address, AccessWidth::Byte), AccessWidth::Byte),
        ),
        Opcode::LH => Some(
            sign_extended(stored_value(mem, address, AccessWidth::Half), AccessWidth::Half),
        ),
        Opcode::LBU => Some(stored_value(mem, address, AccessWidth::Byte)),
        Opcode::LHU => Some(stored_value(mem, address, AccessWidth::Half)),
        Opcode::LW => Some(stored_value(mem, address, AccessWidth::Word)),
        Opcode::CSRRW | Opcode::CSRRWI | Opcode::CSRRS | Opcode::CSRRSI | Opcode::CSRRC
        | Opcode::CSRRCI => Some(csr_value(csr, decode.csr)),
        Opcode::ALU => Some(execute.alu_out),
        _ => None,
    }
}

/// The register file after an instruction that does not fault. Register 0
/// takes no value.
pub open spec fn xregs_after(
    decode: DecodeResult,
    execute: ExecuteResult,
    xregs: Seq<u32>,
    csr: Map<u16, u32>,
    mem: Map<int, u8>,
) -> Seq<u32> {
    match rd_value(decode, execute, csr, mem) {
        Some(value) => if decode.rd == 0 {
            xregs
        } else {
            xregs.update(decode.rd as int, value)
        },
        None => xregs,
    }
}

/// The CSR bank after an instruction that does not fault.
pub open spec fn csr_after(decode: DecodeResult, csr: Map<u16, u32>) -> Map<u16, u32> {
    if decode.opcode.is_csr() {
        csr.insert(decode.csr, csr_update(decode, csr_value(csr, decode.csr)))
    } else if decode.opcode is ECALL {
        csr.insert(MCAUSE, CAUSE_ENVIRONMENT_CALL)
    } else {
        csr
    }
}

/// Memory after an instruction that does not fault.
pub open spec fn memory_after(decode: DecodeResult, execute: ExecuteResult, mem: Map<int, u8>) -> Map<
    int,
    u8,
> {
    if decode.opcode.is_store() {
        store_value(mem, execute.alu_out as int, access_width(decode.opcode).unwrap(), decode.rs2_data)
    } else {
        mem
    }
}

/// Widens a loaded byte to 32 bits, keeping its sign.
fn sign_extend_byte(byte: u8) -> (value: u32)
    ensures
        value == sign_extended(byte as u32, AccessWidth::Byte),
{
    assert(byte as i8 as i32 as u32 == (if byte < 0x80u8 {
        byte as u32
    } else {
        (byte as u32 + 0xffff_ff00u32) as u32
    })) by (bit_vector);
    byte as i8 as i32 as u32
}

/// Widens a loaded half-word to 32 bits, keeping its sign.
fn sign_extend_half(half: u16) -> (value: u32)
    ensures
        value == sign_extended(half as u32, AccessWidth::Half),
{
    assert(half as i16 as i32 as u32 == (if half < 0x8000u16 {
        half as u32
    } else {
        (half as u32 + 0xffff_0000u32) as u32
    })) by (bit_vector);
    half as i16 as i32 as u32
}

/// The low-order byte of a register value.
fn low_byte(value: u32) -> (byte: u8)
    ensures
        byte == value % 0x100,
{
    assert(value as u8 == value % 0x100) by (bit_vector);
    #[verifier::truncate]
    (value as u8)
}

/// The low-order half-word of a register value.
fn low_half(value: u32) -> (half: u16)
    ensures
        half == value % 0x1_0000,
{
    assert(value as u16 == value % 0x1_0000) by (bit_vector);
    #[verifier::truncate]
    (value as u16)
}

/// The error of a refused access.
fn fault(access: MemoryAccess, width: AccessWidth, address: u32) -> (error: Box<WritebackError>)
    ensures
        error@ == (WritebackErrorType::MemoryFault { access, width, address }),
{
    WritebackError::new(WritebackErrorType::MemoryFault { access, width, address })
}

/// The writeback stage. It holds no state of its own.
#[derive(Clone, Copy, Debug)]
pub struct Writeback();

impl Writeback {
    /// Commits one instruction.
    ///
    /// The CSR that the instruction names is read first. A CSR instruction
    /// then writes its new value to that CSR, and only after that does the
    /// value read at the start go to `rd`. A load puts the extended memory
    /// contents at `execute.alu_out` into `rd`, a store puts the low bytes
    /// of `rs2` there, `ECALL` records its cause in `mcause`, branches,
    /// `MRET` and `FENCE` change nothing, and every other instruction puts
    /// `execute.alu_out` into `rd`. Register 0 stays zero throughout.
    ///
    /// If the bus refuses the access of a load or store, the instruction is
    /// abandoned with nothing changed, and the error names the access. No
    /// other instruction touches the bus.
    pub fn writeback(
        &self,
        decode: DecodeResult,
        execute: ExecuteResult,
        xregs: &mut XRegisters,
        csr: &mut ControlAndStatusRegister,
        bus: &mut Bus,
    ) -> (result: Result<(), Box<WritebackError>>)
        requires
            decode.valid(),
        ensures
            match memory_fault(decode, execute, old(bus)@) {
                Some(error_type) => {
                    &&& result matches Err(error)
                    &&& error@ == error_type
                    &&& final(xregs)@ == old(xregs)@
                    &&& final(csr)@ == old(csr)@
                    &&& final(bus)@ == old(bus)@
                },
                None => {
                    &&& result is Ok
                    &&& final(xregs)@ == xregs_after(
                        decode,
                        execute,
                        old(xregs)@,
                        old(csr)@,
                        old(bus)@,
                    )
                    &&& final(csr)@ == csr_after(decode, old(csr)@)
                    &&& final(bus)@ == memory_after(decode, execute, old(bus)@)
                },
            },
            final(xregs)@.len() == XREG_COUNT,
            final(xregs)@[0] == 0,
    {
        proof {
            xregs.lemma_zero_register();
        }
        let address = execute.alu_out;
        let csr_data = csr.read(decode.csr);

        match decode.opcode {
            Opcode::CSRRW => csr.write(decode.csr, decode.rs1_data),
            Opcode::CSRRWI => csr.write(decode.csr, decode.imm_z),
            Opcode::CSRRS => csr.write(decode.csr, csr_data | decode.rs1_data),
            Opcode::CSRRSI => csr.write(decode.csr, csr_data | decode.imm_z),
            Opcode::CSRRC => csr.write(decode.csr, csr_data & !decode.rs1_data),
            Opcode::CSRRCI => csr.write(decode.csr, csr_data & !decode.imm_z),
            _ => (),
        }

        match decode.opcode {
            Opcode::LB => match bus.read8(address) {
                Ok(byte) => xregs.write(decode.rd, sign_extend_byte(byte)),
                Err(_) => return Err(fault(MemoryAccess::Read, AccessWidth::Byte, address)),
            },
            Opcode::LBU => match bus.read8(address) {
                Ok(byte) => xregs.write(decode.rd, byte as u32),
                Err(_) => return Err(fault(MemoryAccess::Read, AccessWidth::Byte, address)),
            },
            Opcode::LH => match bus.read16(address) {
                Ok(half) => xregs.write(decode.rd, sign_extend_half(half)),
                Err(_) => return Err(fault(MemoryAccess::Read, AccessWidth::Half, address)),
            },
            Opcode::LHU => match bus.read16(address) {
                Ok(half) => xregs.write(decode.rd, half as u32),
                Err(_) => return Err(fault(MemoryAccess::Read, AccessWidth::Half, address)),
            },
            Opcode::LW => match bus.read32(address) {
                Ok(word) => xregs.write(decode.rd, word),
                Err(_) => return Err(fault(MemoryAccess::Read, AccessWidth::Word, address)),
            },
            Opcode::SB => {
                let byte = low_byte(decode.rs2_data);
                match bus.write8(address, byte) {
                    Ok(()) => (),
                    Err(_) => return Err(fault(MemoryAccess::Write, AccessWidth::Byte, address)),
                }
            },
            Opcode::SH => {
                let half = low_half(decode.rs2_data);
                match bus.write16(address, half) {
                    Ok(()) => (),
                    Err(_) => return Err(fault(MemoryAccess::Write, AccessWidth::Half, address)),
                }
            },
            Opcode::SW => match bus.write32(address, decode.rs2_data) {
                Ok(()) => (),
                Err(_) => return Err(fault(MemoryAccess::Write, AccessWidth::Word, address)),
            },
            Opcode::BEQ | Opcode::BNE | Opcode::BLT | Opcode::BGE | Opcode::BLTU | Opcode::BGEU => (),
            Opcode::CSRRW | Opcode::CSRRWI | Opcode::CSRRS | Opcode::CSRRSI | Opcode::CSRRC
            | Opcode::CSRRCI => xregs.write(decode.rd, csr_data),
            Opcode::ECALL => csr.write(MCAUSE, CAUSE_ENVIRONMENT_CALL),
            // Privilege levels are not modelled: the return from a trap
            // changes nothing here.
            Opcode::MRET => (),
            // Memory accesses are never reordered: the fence has nothing to
            // wait for.
            Opcode::FENCE => (),
            Opcode::ALU => xregs.write(decode.rd, execute.alu_out),
        }
        Ok(())
    }
}

} // verus!

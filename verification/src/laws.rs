//! What holds of every writeback, stated over the functions that its
//! contract is written in.

use crate::bus::{access_fault, mapped, stored_value, AccessWidth};
use crate::cs_register::csr_value;
use crate::decode::{DecodeResult, Opcode};
use crate::execute::ExecuteResult;
use crate::writeback::{
    access_width, csr_after, memory_after, memory_fault, rd_value, sign_extended, xregs_after,
    MemoryAccess, WritebackErrorType,
};
use crate::x_register::XREG_COUNT;
use vstd::prelude::*;

verus! {

/// No instruction changes register 0, nor the number of registers.
pub proof fn law_register_zero_is_kept(
    decode: DecodeResult,
    execute: ExecuteResult,
    xregs: Seq<u32>,
    csr: Map<u16, u32>,
    mem: Map<int, u8>,
)
    requires
        decode.valid(),
        xregs.len() == XREG_COUNT,
    ensures
        xregs_after(decode, execute, xregs, csr, mem).len() == XREG_COUNT,
        xregs_after(decode, execute, xregs, csr, mem)[0] == xregs[0],
{
}

/// An instruction changes no register but its destination, and none at all
/// where it commits no value or its destination is register 0. Any other
/// destination takes the committed value.
pub proof fn law_only_rd_changes(
    decode: DecodeResult,
    execute: ExecuteResult,
    xregs: Seq<u32>,
    csr: Map<u16, u32>,
    mem: Map<int, u8>,
    index: int,
)
    requires
        decode.valid(),
        xregs.len() == XREG_COUNT,
        0 <= index < XREG_COUNT,
    ensures
        index != decode.rd ==> xregs_after(decode, execute, xregs, csr, mem)[index] == xregs[index],
        decode.rd == 0 || rd_value(decode, execute, csr, mem) is None ==> xregs_after(
            decode,
            execute,
            xregs,
            csr,
            mem,
        ) == xregs,
        index == decode.rd && index != 0 ==> (rd_value(decode, execute, csr, mem) matches Some(
            value,
        ) ==> xregs_after(decode, execute, xregs, csr, mem)[index] == value),
{
}

/// A load widens what memory holds at its address: `LBU`, `LHU` and `LW`
/// commit the stored value itself, `LB` and `LH` fill the upper bits with
/// copies of its top bit. So a stored byte `0xFF` is loaded as `0xFFFF_FFFF`
/// by `LB` and as `0xFF` by `LBU`, and a stored half-word `0xFFFF` as
/// `0xFFFF_FFFF` by `LH` and as `0xFFFF` by `LHU`.
pub proof fn law_loads_extend(
    decode: DecodeResult,
    execute: ExecuteResult,
    csr: Map<u16, u32>,
    mem: Map<int, u8>,
)
    requires
        decode.opcode.is_load(),
    ensures
        ({
            let stored = stored_value(
                mem,
                execute.alu_out as int,
                access_width(decode.opcode).unwrap(),
            );
            &&& rd_value(decode, execute, csr, mem) matches Some(value)
            &&& decode.opcode is LBU || decode.opcode is LHU || decode.opcode is LW ==> value
                == stored
            &&& decode.opcode is LB ==> value % 0x100 == stored && value / 0x100 == (if stored
                >= 0x80 {
                0xff_ffff
            } else {
                0int
            })
            &&& decode.opcode is LH ==> value % 0x1_0000 == stored && value / 0x1_0000 == (
            if stored >= 0x8000 {
                0xffff
            } else {
                0int
            })
            &&& decode.opcode is LB && stored == 0xff ==> value == 0xffff_ffff
            &&& decode.opcode is LBU && stored == 0xff ==> value == 0xff
            &&& decode.opcode is LH && stored == 0xffff ==> value == 0xffff_ffff
            &&& decode.opcode is LHU && stored == 0xffff ==> value == 0xffff
        }),
{
}

/// A word that `SW` stored is what `LW` then loads from the same address:
/// where the store is not refused, neither is the load, and the value it
/// commits is the stored one. Every destination but register 0 then holds
/// that value.
pub proof fn law_store_load_round_trip(
    store: DecodeResult,
    load: DecodeResult,
    execute: ExecuteResult,
    xregs: Seq<u32>,
    csr: Map<u16, u32>,
    mem: Map<int, u8>,
)
    requires
        store.opcode is SW,
        load.opcode is LW,
        memory_fault(store, execute, mem) is None,
    ensures
        memory_fault(load, execute, memory_after(store, execute, mem)) is None,
        rd_value(load, execute, csr, memory_after(store, execute, mem)) == Some(store.rs2_data),
        xregs.len() == XREG_COUNT && 0 < load.rd < XREG_COUNT ==> xregs_after(
            load,
            execute,
            xregs,
            csr,
            memory_after(store, execute, mem),
        )[load.rd as int] == store.rs2_data,
{
    let address = execute.alu_out;
    let after = memory_after(store, execute, mem);
    assert(mapped(mem, address, AccessWidth::Word));
    assert(mem.contains_key(address as int));
    assert forall|a: int| address <= a < address + 4 implies after.contains_key(a) by {
        assert(mem.contains_key(a));
    }
    assert(mapped(after, address, AccessWidth::Word));
    let value = store.rs2_data;
    assert(value % 0x100 + 0x100 * (value / 0x100 % 0x100) + 0x1_0000 * (value / 0x1_0000 % 0x100)
        + 0x100_0000 * (value / 0x100_0000 % 0x100) == value);
}

/// What a narrow store put into memory, the load of the same width reads
/// back: the low-order bytes of the stored register, zero-extended by `LBU`
/// and `LHU` and sign-extended by `LB` and `LH`.
pub proof fn law_narrow_store_load_round_trip(
    store: DecodeResult,
    load: DecodeResult,
    execute: ExecuteResult,
    csr: Map<u16, u32>,
    mem: Map<int, u8>,
)
    requires
        store.opcode is SB && (load.opcode is LB || load.opcode is LBU) || store.opcode is SH && (
        load.opcode is LH || load.opcode is LHU),
        memory_fault(store, execute, mem) is None,
    ensures
        memory_fault(load, execute, memory_after(store, execute, mem)) is None,
        load.opcode is LBU ==> rd_value(load, execute, csr, memory_after(store, execute, mem))
            == Some((store.rs2_data % 0x100) as u32),
        load.opcode is LHU ==> rd_value(load, execute, csr, memory_after(store, execute, mem))
            == Some((store.rs2_data % 0x1_0000) as u32),
        load.opcode is LB ==> rd_value(load, execute, csr, memory_after(store, execute, mem))
            == Some(sign_extended((store.rs2_data % 0x100) as u32, AccessWidth::Byte)),
        load.opcode is LH ==> rd_value(load, execute, csr, memory_after(store, execute, mem))
            == Some(sign_extended((store.rs2_data % 0x1_0000) as u32, AccessWidth::Half)),
{
    let address = execute.alu_out;
    let after = memory_after(store, execute, mem);
    let width = access_width(store.opcode).unwrap();
    assert(mapped(mem, address, width));
    assert forall|a: int| address <= a < address + width.bytes() implies after.contains_key(a) by {
        assert(mem.contains_key(a));
    }
    assert(mapped(after, address, width));
    let value = store.rs2_data;
    assert(value % 0x100 + 0x100 * (value / 0x100 % 0x100) == value % 0x1_0000);
}

/// `CSRRS` and `CSRRC` read before they write: the addressed CSR takes its
/// old value with the bits of `rs1` set, or cleared, while the destination
/// register, unless it is register 0, takes the old value itself. No other
/// CSR changes.
pub proof fn law_csr_read_precedes_write(
    decode: DecodeResult,
    execute: ExecuteResult,
    xregs: Seq<u32>,
    csr: Map<u16, u32>,
    mem: Map<int, u8>,
)
    requires
        decode.opcode is CSRRS || decode.opcode is CSRRC,
    ensures
        memory_fault(decode, execute, mem) is None,
        decode.opcode is CSRRS ==> csr_value(csr_after(decode, csr), decode.csr) == csr_value(
            csr,
            decode.csr,
        ) | decode.rs1_data,
        decode.opcode is CSRRC ==> csr_value(csr_after(decode, csr), decode.csr) == csr_value(
            csr,
            decode.csr,
        ) & !decode.rs1_data,
        rd_value(decode, execute, csr, mem) == Some(csr_value(csr, decode.csr)),
        xregs.len() == XREG_COUNT && 0 < decode.rd < XREG_COUNT ==> xregs_after(
            decode,
            execute,
            xregs,
            csr,
            mem,
        )[decode.rd as int] == csr_value(csr, decode.csr),
        forall|other: u16|
            other != decode.csr ==> csr_value(csr_after(decode, csr), other) == csr_value(
                csr,
                other,
            ),
{
}

/// The register form of an immediate CSR instruction: the same instruction
/// with the immediate as the value of `rs1`.
pub open spec fn register_form(decode: DecodeResult) -> DecodeResult {
    DecodeResult {
        opcode: match decode.opcode {
            Opcode::CSRRWI => Opcode::CSRRW,
            Opcode::CSRRSI => Opcode::CSRRS,
            Opcode::CSRRCI => Opcode::CSRRC,
            other => other,
        },
        rs1_data: decode.imm_z,
        ..decode
    }
}

/// `CSRRWI`, `CSRRSI` and `CSRRCI` do what `CSRRW`, `CSRRS` and `CSRRC` do
/// with the immediate in place of the value of `rs1`.
pub proof fn law_csr_immediate_forms(
    decode: DecodeResult,
    execute: ExecuteResult,
    xregs: Seq<u32>,
    csr: Map<u16, u32>,
    mem: Map<int, u8>,
)
    requires
        decode.opcode is CSRRWI || decode.opcode is CSRRSI || decode.opcode is CSRRCI,
    ensures
        register_form(decode).valid() == decode.valid(),
        memory_fault(decode, execute, mem) == memory_fault(register_form(decode), execute, mem),
        csr_after(decode, csr) == csr_after(register_form(decode), csr),
        xregs_after(decode, execute, xregs, csr, mem) == xregs_after(
            register_form(decode),
            execute,
            xregs,
            csr,
            mem,
        ),
        memory_after(decode, execute, mem) == memory_after(register_form(decode), execute, mem),
{
}

/// A branch changes nothing at writeback, whatever the other fields of the
/// decoded instruction and the result of the execute stage are.
pub proof fn law_branches_change_nothing(
    decode: DecodeResult,
    execute: ExecuteResult,
    xregs: Seq<u32>,
    csr: Map<u16, u32>,
    mem: Map<int, u8>,
)
    requires
        decode.opcode.is_branch(),
    ensures
        decode.valid(),
        memory_fault(decode, execute, mem) is None,
        xregs_after(decode, execute, xregs, csr, mem) == xregs,
        csr_after(decode, csr) == csr,
        memory_after(decode, execute, mem) == mem,
{
}

/// Only loads and stores fault, and one whose address is backed by nothing
/// does: the fault names the address, the width and the direction of the
/// access.
pub proof fn law_unmapped_access_faults(
    decode: DecodeResult,
    execute: ExecuteResult,
    mem: Map<int, u8>,
)
    ensures
        memory_fault(decode, execute, mem) is Some ==> decode.opcode.is_load()
            || decode.opcode.is_store(),
        decode.opcode.is_load() && !mem.contains_key(execute.alu_out as int) ==> memory_fault(
            decode,
            execute,
            mem,
        ) == Some(
            WritebackErrorType::MemoryFault {
                access: MemoryAccess::Read,
                width: access_width(decode.opcode).unwrap(),
                address: execute.alu_out,
            },
        ),
        decode.opcode.is_store() && !mem.contains_key(execute.alu_out as int) ==> memory_fault(
            decode,
            execute,
            mem,
        ) == Some(
            WritebackErrorType::MemoryFault {
                access: MemoryAccess::Write,
                width: access_width(decode.opcode).unwrap(),
                address: execute.alu_out,
            },
        ),
{
    if (decode.opcode.is_load() || decode.opcode.is_store()) && !mem.contains_key(
        execute.alu_out as int,
    ) {
        let width = access_width(decode.opcode).unwrap();
        assert(!mapped(mem, execute.alu_out, width));
        assert(access_fault(mem, execute.alu_out, width) is Some);
    }
}

} // verus!

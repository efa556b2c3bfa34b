use rv32ui::bus::{Bus, BusError};
use rv32ui::cs_register::ControlAndStatusRegister;
use rv32ui::decode::{DecodeResult, Opcode};
use rv32ui::writeback::{MemoryAccess, WritebackError, WritebackErrorType};
use rv32ui::bus::AccessWidth;
use rv32ui::x_register::{XRegisters, XREG_COUNT};

#[test]
fn new_register_file_is_cleared() {
    let regs = XRegisters::new();
    assert_eq!(XREG_COUNT, 32);
    for index in 0..32u8 {
        assert_eq!(regs.read(index), 0);
    }
}

#[test]
fn register_write_is_read_back() {
    let mut regs = XRegisters::new();
    for index in 1..32u8 {
        regs.write(index, 0x1000_0000 + index as u32);
    }
    for index in 1..32u8 {
        assert_eq!(regs.read(index), 0x1000_0000 + index as u32);
    }
    regs.write(7, 0xDEAD_BEEF);
    assert_eq!(regs.read(7), 0xDEAD_BEEF);
    assert_eq!(regs.read(6), 0x1000_0006);
    assert_eq!(regs.read(8), 0x1000_0008);
}

#[test]
fn register_zero_discards_writes() {
    let mut regs = XRegisters::new();
    regs.write(0, 0xFFFF_FFFF);
    assert_eq!(regs.read(0), 0);
    regs.write(1, 5);
    regs.write(0, 1);
    assert_eq!(regs.read(0), 0);
    assert_eq!(regs.read(1), 5);
}

#[test]
fn unwritten_csr_reads_zero() {
    let csr = ControlAndStatusRegister::new();
    assert_eq!(csr.read(0x000), 0);
    assert_eq!(csr.read(0x342), 0);
    assert_eq!(csr.read(0xFFF), 0);
}

#[test]
fn csr_write_is_read_back() {
    let mut csr = ControlAndStatusRegister::new();
    csr.write(0x300, 0x0000_1800);
    csr.write(0x305, 0x8000_0000);
    assert_eq!(csr.read(0x300), 0x0000_1800);
    assert_eq!(csr.read(0x305), 0x8000_0000);
    assert_eq!(csr.read(0x301), 0);
    csr.write(0x300, 7);
    assert_eq!(csr.read(0x300), 7);
    assert_eq!(csr.read(0x305), 0x8000_0000);
}

#[test]
fn csr_read_leaves_the_bank_alone() {
    let mut csr = ControlAndStatusRegister::new();
    csr.write(0x005, 0x0F);
    assert_eq!(csr.read(0x006), 0);
    assert_eq!(csr.read(0x005), 0x0F);
    assert_eq!(csr.read(0x005), 0x0F);
    assert_eq!(csr.read(0x006), 0);
}

#[test]
fn new_bus_is_zeroed_inside_its_region() {
    let bus = Bus::new(0x1000, 0x10);
    for address in 0x1000..0x1010u32 {
        assert_eq!(bus.read8(address), Ok(0));
    }
    assert_eq!(bus.read8(0x0FFF), Err(BusError::Unmapped));
    assert_eq!(bus.read8(0x1010), Err(BusError::Unmapped));
    assert_eq!(bus.read8(0), Err(BusError::Unmapped));
    assert_eq!(bus.read8(0xFFFF_FFFF), Err(BusError::Unmapped));
}

#[test]
fn empty_bus_maps_nothing() {
    let mut bus = Bus::new(0x1000, 0);
    assert_eq!(bus.read8(0x1000), Err(BusError::Unmapped));
    assert_eq!(bus.read32(0x1000), Err(BusError::Unmapped));
    assert_eq!(bus.write8(0x1000, 1), Err(BusError::Unmapped));
}

#[test]
fn bus_is_little_endian() {
    let mut bus = Bus::new(0, 0x20);
    assert_eq!(bus.write32(0x10, 0x1234_5678), Ok(()));
    assert_eq!(bus.read8(0x10), Ok(0x78));
    assert_eq!(bus.read8(0x11), Ok(0x56));
    assert_eq!(bus.read8(0x12), Ok(0x34));
    assert_eq!(bus.read8(0x13), Ok(0x12));
    assert_eq!(bus.read16(0x10), Ok(0x5678));
    assert_eq!(bus.read16(0x12), Ok(0x1234));
    assert_eq!(bus.read32(0x10), Ok(0x1234_5678));
    assert_eq!(bus.read8(0x0F), Ok(0));
    assert_eq!(bus.read8(0x14), Ok(0));
}

#[test]
fn bus_assembles_words_from_bytes() {
    let mut bus = Bus::new(0, 8);
    assert_eq!(bus.write8(4, 0xEF), Ok(()));
    assert_eq!(bus.write8(5, 0xBE), Ok(()));
    assert_eq!(bus.write8(6, 0xAD), Ok(()));
    assert_eq!(bus.write8(7, 0xDE), Ok(()));
    assert_eq!(bus.read32(4), Ok(0xDEAD_BEEF));
    assert_eq!(bus.read16(4), Ok(0xBEEF));
    assert_eq!(bus.read16(6), Ok(0xDEAD));
    assert_eq!(bus.read32(0), Ok(0));
}

#[test]
fn bus_half_write_touches_two_bytes() {
    let mut bus = Bus::new(0, 8);
    assert_eq!(bus.write32(0, 0xFFFF_FFFF), Ok(()));
    assert_eq!(bus.write16(2, 0xA1B2), Ok(()));
    assert_eq!(bus.read32(0), Ok(0xA1B2_FFFF));
    assert_eq!(bus.write8(1, 0x00), Ok(()));
    assert_eq!(bus.read32(0), Ok(0xA1B2_00FF));
    assert_eq!(bus.read32(4), Ok(0));
}

#[test]
fn bus_refuses_misaligned_accesses() {
    let mut bus = Bus::new(0, 0x20);
    assert_eq!(bus.read16(1), Err(BusError::Misaligned));
    assert_eq!(bus.read32(2), Err(BusError::Misaligned));
    assert_eq!(bus.read32(5), Err(BusError::Misaligned));
    assert_eq!(bus.write16(3, 0xFFFF), Err(BusError::Misaligned));
    assert_eq!(bus.write32(6, 0xFFFF_FFFF), Err(BusError::Misaligned));
    for address in 0..0x20u32 {
        assert_eq!(bus.read8(address), Ok(0));
    }
}

#[test]
fn bus_checks_alignment_before_mapping() {
    let bus = Bus::new(0, 0x20);
    assert_eq!(bus.read32(0x101), Err(BusError::Misaligned));
    assert_eq!(bus.read16(0x101), Err(BusError::Misaligned));
    assert_eq!(bus.read32(0x100), Err(BusError::Unmapped));
    assert_eq!(bus.read16(0x100), Err(BusError::Unmapped));
}

#[test]
fn bus_refuses_an_access_that_leaves_the_region() {
    let mut bus = Bus::new(0x100, 6);
    assert_eq!(bus.read32(0x100), Ok(0));
    assert_eq!(bus.read16(0x104), Ok(0));
    assert_eq!(bus.read32(0x104), Err(BusError::Unmapped));
    assert_eq!(bus.write32(0x104, 0xFFFF_FFFF), Err(BusError::Unmapped));
    assert_eq!(bus.read8(0x104), Ok(0));
    assert_eq!(bus.read8(0x105), Ok(0));
    assert_eq!(bus.read32(0xFC), Err(BusError::Unmapped));
    assert_eq!(bus.read16(0xFE), Err(BusError::Unmapped));
}

#[test]
fn bus_reaches_the_top_of_the_address_space() {
    let mut bus = Bus::new(0xFFFF_FFF0, 0x10);
    assert_eq!(bus.write32(0xFFFF_FFFC, 0x0102_0304), Ok(()));
    assert_eq!(bus.read32(0xFFFF_FFFC), Ok(0x0102_0304));
    assert_eq!(bus.read8(0xFFFF_FFFF), Ok(0x01));
    assert_eq!(bus.read16(0xFFFF_FFFE), Ok(0x0102));
    assert_eq!(bus.read8(0xFFFF_FFEF), Err(BusError::Unmapped));
    assert_eq!(bus.read8(0), Err(BusError::Unmapped));
}

#[test]
fn bus_region_is_cut_at_the_end_of_the_address_space() {
    let mut bus = Bus::new(0xFFFF_FFFC, 0x10);
    assert_eq!(bus.write32(0xFFFF_FFFC, 0xCAFE_F00D), Ok(()));
    assert_eq!(bus.read32(0xFFFF_FFFC), Ok(0xCAFE_F00D));
    assert_eq!(bus.read32(0), Err(BusError::Unmapped));
    assert_eq!(bus.read8(4), Err(BusError::Unmapped));
}

#[test]
fn decode_result_with_a_register_is_valid() {
    let opcodes = [
        Opcode::LB, Opcode::LBU, Opcode::LH, Opcode::LHU, Opcode::LW, Opcode::CSRRW,
        Opcode::CSRRWI, Opcode::CSRRS, Opcode::CSRRSI, Opcode::CSRRC, Opcode::CSRRCI,
        Opcode::ALU,
    ];
    for opcode in opcodes {
        for rd in 0..=255u8 {
            let decode =
                DecodeResult { opcode, rd, rs1_data: 0, rs2_data: 0, imm_z: 0, csr: 0 };
            assert_eq!(decode.is_valid(), rd < 32);
        }
    }
}

#[test]
fn decode_result_without_a_destination_is_always_valid() {
    let opcodes = [
        Opcode::SB, Opcode::SH, Opcode::SW, Opcode::BEQ, Opcode::BNE, Opcode::BLT,
        Opcode::BGE, Opcode::BLTU, Opcode::BGEU, Opcode::ECALL, Opcode::MRET, Opcode::FENCE,
    ];
    for opcode in opcodes {
        for rd in [0u8, 31, 32, 255] {
            let decode =
                DecodeResult { opcode, rd, rs1_data: 0, rs2_data: 0, imm_z: 0, csr: 0 };
            assert!(decode.is_valid());
        }
    }
}

#[test]
fn error_keeps_its_kind() {
    let kind = WritebackErrorType::MemoryFault {
        access: MemoryAccess::Write,
        width: AccessWidth::Half,
        address: 0x8000_0002,
    };
    let error = WritebackError::new(kind);
    assert_eq!(error.error_type(), kind);
    let other = WritebackError::new(WritebackErrorType::MemoryFault {
        access: MemoryAccess::Read,
        width: AccessWidth::Half,
        address: 0x8000_0002,
    });
    assert_ne!(error.error_type(), other.error_type());
    assert_ne!(error, other);
}

//! The decoder: from the bytes at an address to an instruction.

use vstd::prelude::*;
use crate::addr::Addr;
use crate::error::Error;
use crate::instructions::{ExtendedInstruction, Instruction};
use crate::mapper::Mapper;
use crate::memory::{Memory, MemoryModel};

verus! {

/// The opcode that leads to the extended table.
pub const PREFIX: u8 = 0xCB;

/// The byte `value` read as a signed displacement in two's complement.
pub open spec fn signed(value: u8) -> i8 {
    if value < 128 {
        value as i8
    } else {
        (value - 256) as i8
    }
}

/// Reads `value` as a signed displacement.
pub fn to_signed(value: u8) -> (r: i8)
    ensures
        r == signed(value),
{
    if value < 128 {
        value as i8
    } else {
        (value as i16 - 256) as i8
    }
}

impl ExtendedInstruction {
    /// The extended instruction whose opcode is the byte at `addr`.
    pub open spec fn spec_decode<M: Mapper>(mem: MemoryModel<M>, addr: u16) -> Result<ExtendedInstruction, Error> {
        match mem.read_u8(addr) {
            0x07 => Ok(ExtendedInstruction::RLC_A),
            0x00 => Ok(ExtendedInstruction::RLC_B),
            0x01 => Ok(ExtendedInstruction::RLC_C),
            0x02 => Ok(ExtendedInstruction::RLC_D),
            0x03 => Ok(ExtendedInstruction::RLC_E),
            0x04 => Ok(ExtendedInstruction::RLC_H),
            0x05 => Ok(ExtendedInstruction::RLC_L),
            0x0F => Ok(ExtendedInstruction::RRC_A),
            0x08 => Ok(ExtendedInstruction::RRC_B),
            0x09 => Ok(ExtendedInstruction::RRC_C),
            0x0A => Ok(ExtendedInstruction::RRC_D),
            0x0B => Ok(ExtendedInstruction::RRC_E),
            0x0C => Ok(ExtendedInstruction::RRC_H),
            0x0D => Ok(ExtendedInstruction::RRC_L),
            0x38 => Ok(ExtendedInstruction::SRL_B),
            0x19 => Ok(ExtendedInstruction::RR_C),
            0x1A => Ok(ExtendedInstruction::RR_D),
            0x1B => Ok(ExtendedInstruction::RR_E),
            0x37 => Ok(ExtendedInstruction::SWAP_A),
            0x30 => Ok(ExtendedInstruction::SWAP_B),
            0x31 => Ok(ExtendedInstruction::SWAP_C),
            0x32 => Ok(ExtendedInstruction::SWAP_D),
            0x33 => Ok(ExtendedInstruction::SWAP_E),
            0x34 => Ok(ExtendedInstruction::SWAP_H),
            0x35 => Ok(ExtendedInstruction::SWAP_L),
            opcode => Err(Error::UnknownExtendedOpcode { addr, opcode }),
        }
    }

    /// Decodes the extended instruction at `addr`. Fails on a byte that the
    /// extended table does not hold, with the address and the byte.
    pub fn decode<M: Mapper>(mem: &Memory<M>, addr: Addr) -> (r: Result<ExtendedInstruction, Error>)
        ensures
            r == ExtendedInstruction::spec_decode(mem@, addr.0),
    {
        match mem.read_u8(addr) {
            0x07 => Ok(ExtendedInstruction::RLC_A),
            0x00 => Ok(ExtendedInstruction::RLC_B),
            0x01 => Ok(ExtendedInstruction::RLC_C),
            0x02 => Ok(ExtendedInstruction::RLC_D),
            0x03 => Ok(ExtendedInstruction::RLC_E),
            0x04 => Ok(ExtendedInstruction::RLC_H),
            0x05 => Ok(ExtendedInstruction::RLC_L),
            0x0F => Ok(ExtendedInstruction::RRC_A),
            0x08 => Ok(ExtendedInstruction::RRC_B),
            0x09 => Ok(ExtendedInstruction::RRC_C),
            0x0A => Ok(ExtendedInstruction::RRC_D),
            0x0B => Ok(ExtendedInstruction::RRC_E),
            0x0C => Ok(ExtendedInstruction::RRC_H),
            0x0D => Ok(ExtendedInstruction::RRC_L),
            0x38 => Ok(ExtendedInstruction::SRL_B),
            0x19 => Ok(ExtendedInstruction::RR_C),
            0x1A => Ok(ExtendedInstruction::RR_D),
            0x1B => Ok(ExtendedInstruction::RR_E),
            0x37 => Ok(ExtendedInstruction::SWAP_A),
            0x30 => Ok(ExtendedInstruction::SWAP_B),
            0x31 => Ok(ExtendedInstruction::SWAP_C),
            0x32 => Ok(ExtendedInstruction::SWAP_D),
            0x33 => Ok(ExtendedInstruction::SWAP_E),
            0x34 => Ok(ExtendedInstruction::SWAP_H),
            0x35 => Ok(ExtendedInstruction::SWAP_L),
            opcode => Err(Error::UnknownExtendedOpcode { addr: addr.0, opcode }),
        }
    }
}

impl Instruction {
    /// The instruction whose opcode is the byte at `addr`. An immediate
    /// operand is read from the bytes that follow the opcode, a 16-bit one
    /// low byte first. Behind the prefix opcode stands an extended
    /// instruction.
    ///
    /// The table is opaque to the verifier until it is revealed.
    #[verifier::opaque]
    pub open spec fn spec_decode<M: Mapper>(mem: MemoryModel<M>, addr: u16) -> Result<Instruction, Error> {
        let next = Addr(addr).offset(1);
        match mem.read_u8(addr) {
            0x00 => Ok(Instruction::NOP),
            0xFB => Ok(Instruction::EI),
            0xF3 => Ok(Instruction::DI),
            0xC3 => Ok(Instruction::JP_nn(mem.read_u16(next.0))),
            0x7F => Ok(Instruction::LD_A_A),
            0x78 => Ok(Instruction::LD_A_B),
            0x79 => Ok(Instruction::LD_A_C),
            0x7A => Ok(Instruction::LD_A_D),
            0x7B => Ok(Instruction::LD_A_E),
            0x7C => Ok(Instruction::LD_A_H),
            0x7D => Ok(Instruction::LD_A_L),
            0x1A => Ok(Instruction::LD_A_MDE),
            0x7E => Ok(Instruction::LD_A_MHL),
            0x3E => Ok(Instruction::LD_A_n(mem.read_u8(next.0))),
            0xFA => Ok(Instruction::LD_A_Mnn(mem.read_u16(next.0))),
            0x47 => Ok(Instruction::LD_B_A),
            0x40 => Ok(Instruction::LD_B_B),
            0x41 => Ok(Instruction::LD_B_C),
            0x42 => Ok(Instruction::LD_B_D),
            0x43 => Ok(Instruction::LD_B_E),
            0x44 => Ok(Instruction::LD_B_H),
            0x45 => Ok(Instruction::LD_B_L),
            0x46 => Ok(Instruction::LD_B_MHL),
            0x06 => Ok(Instruction::LD_B_n(mem.read_u8(next.0))),
            0x4F => Ok(Instruction::LD_C_A),
            0x48 => Ok(Instruction::LD_C_B),
            0x49 => Ok(Instruction::LD_C_C),
            0x4A => Ok(Instruction::LD_C_D),
            0x4B => Ok(Instruction::LD_C_E),
            0x4C => Ok(Instruction::LD_C_H),
            0x4D => Ok(Instruction::LD_C_L),
            0x4E => Ok(Instruction::LD_C_MHL),
            0x57 => Ok(Instruction::LD_D_A),
            0x50 => Ok(Instruction::LD_D_B),
            0x51 => Ok(Instruction::LD_D_C),
            0x52 => Ok(Instruction::LD_D_D),
            0x53 => Ok(Instruction::LD_D_E),
            0x54 => Ok(Instruction::LD_D_H),
            0x55 => Ok(Instruction::LD_D_L),
            0x0E => Ok(Instruction::LD_C_n(mem.read_u8(next.0))),
            0x56 => Ok(Instruction::LD_D_MHL),
            0x5F => Ok(Instruction::LD_E_A),
            0x58 => Ok(Instruction::LD_E_B),
            0x59 => Ok(Instruction::LD_E_C),
            0x5A => Ok(Instruction::LD_E_D),
            0x5B => Ok(Instruction::LD_E_E),
            0x5C => Ok(Instruction::LD_E_H),
            0x5D => Ok(Instruction::LD_E_L),
            0x5E => Ok(Instruction::LD_E_MHL),
            0x67 => Ok(Instruction::LD_H_A),
            0x60 => Ok(Instruction::LD_H_B),
            0x61 => Ok(Instruction::LD_H_C),
            0x62 => Ok(Instruction::LD_H_D),
            0x63 => Ok(Instruction::LD_H_E),
            0x64 => Ok(Instruction::LD_H_H),
            0x65 => Ok(Instruction::LD_H_L),
            0x66 => Ok(Instruction::LD_H_MHL),
            0x26 => Ok(Instruction::LD_H_n(mem.read_u8(next.0))),
            0x6F => Ok(Instruction::LD_L_A),
            0x68 => Ok(Instruction::LD_L_B),
            0x69 => Ok(Instruction::LD_L_C),
            0x6A => Ok(Instruction::LD_L_D),
            0x6B => Ok(Instruction::LD_L_E),
            0x6C => Ok(Instruction::LD_L_H),
            0x6D => Ok(Instruction::LD_L_L),
            0x6E => Ok(Instruction::LD_L_MHL),
            0x2E => Ok(Instruction::LD_L_n(mem.read_u8(next.0))),
            0x01 => Ok(Instruction::LD_BC_nn(mem.read_u16(next.0))),
            0x11 => Ok(Instruction::LD_DE_nn(mem.read_u16(next.0))),
            0x21 => Ok(Instruction::LD_HL_nn(mem.read_u16(next.0))),
            0x31 => Ok(Instruction::LD_SP_nn(mem.read_u16(next.0))),
            0x12 => Ok(Instruction::LD_MDE_A),
            0x77 => Ok(Instruction::LD_MHL_A),
            0x70 => Ok(Instruction::LD_MHL_B),
            0x71 => Ok(Instruction::LD_MHL_C),
            0x72 => Ok(Instruction::LD_MHL_D),
            0x73 => Ok(Instruction::LD_MHL_E),
            0x74 => Ok(Instruction::LD_MHL_H),
            0x75 => Ok(Instruction::LD_MHL_L),
            0xEA => Ok(Instruction::LD_Mnn_A(mem.read_u16(next.0))),
            0xE0 => Ok(Instruction::LD_Mn_A(mem.read_u8(next.0))),
            0x2A => Ok(Instruction::LDI_A_MHL),
            0x22 => Ok(Instruction::LDI_MHL_A),
            0x32 => Ok(Instruction::LDD_MHL_A),
            0xF0 => Ok(Instruction::LD_A_Mn(mem.read_u8(next.0))),
            0xC4 => Ok(Instruction::CALL_NZ_nn(mem.read_u16(next.0))),
            0xCD => Ok(Instruction::CALL_nn(mem.read_u16(next.0))),
            0xE9 => Ok(Instruction::JP_HL),
            0xC2 => Ok(Instruction::JP_NZ_nn(mem.read_u16(next.0))),
            0x18 => Ok(Instruction::JR_n(signed(mem.read_u8(next.0)))),
            0x20 => Ok(Instruction::JR_NZ_n(signed(mem.read_u8(next.0)))),
            0x28 => Ok(Instruction::JR_Z_n(signed(mem.read_u8(next.0)))),
            0x38 => Ok(Instruction::JR_C_n(signed(mem.read_u8(next.0)))),
            0x30 => Ok(Instruction::JR_NC(signed(mem.read_u8(next.0)))),
            0xC9 => Ok(Instruction::RET),
            0xC8 => Ok(Instruction::RET_Z),
            0xC0 => Ok(Instruction::RET_NZ),
            0xD8 => Ok(Instruction::RET_C),
            0xD0 => Ok(Instruction::RET_NC),
            0xF5 => Ok(Instruction::PUSH_AF),
            0xC5 => Ok(Instruction::PUSH_BC),
            0xD5 => Ok(Instruction::PUSH_DE),
            0xE5 => Ok(Instruction::PUSH_HL),
            0xF1 => Ok(Instruction::POP_AF),
            0xC1 => Ok(Instruction::POP_BC),
            0xD1 => Ok(Instruction::POP_DE),
            0xE1 => Ok(Instruction::POP_HL),
            0x87 => Ok(Instruction::ADD_A),
            0x80 => Ok(Instruction::ADD_B),
            0x81 => Ok(Instruction::ADD_C),
            0x82 => Ok(Instruction::ADD_D),
            0x83 => Ok(Instruction::ADD_E),
            0x84 => Ok(Instruction::ADD_H),
            0x85 => Ok(Instruction::ADD_L),
            0x29 => Ok(Instruction::ADD_HL_HL),
            0xC6 => Ok(Instruction::ADD_n(mem.read_u8(next.0))),
            0x97 => Ok(Instruction::SUB_A),
            0x90 => Ok(Instruction::SUB_B),
            0x91 => Ok(Instruction::SUB_C),
            0x92 => Ok(Instruction::SUB_D),
            0x93 => Ok(Instruction::SUB_E),
            0x94 => Ok(Instruction::SUB_H),
            0x95 => Ok(Instruction::SUB_L),
            0xD6 => Ok(Instruction::SUB_n(mem.read_u8(next.0))),
            0x8F => Ok(Instruction::ADC_A),
            0x88 => Ok(Instruction::ADC_B),
            0x89 => Ok(Instruction::ADC_C),
            0x8A => Ok(Instruction::ADC_D),
            0x8B => Ok(Instruction::ADC_E),
            0x8C => Ok(Instruction::ADC_H),
            0x8D => Ok(Instruction::ADC_L),
            0xCE => Ok(Instruction::ADC_n(mem.read_u8(next.0))),
            0x9F => Ok(Instruction::SBC_A),
            0x98 => Ok(Instruction::SBC_B),
            0x99 => Ok(Instruction::SBC_C),
            0x9A => Ok(Instruction::SBC_D),
            0x9B => Ok(Instruction::SBC_E),
            0x9C => Ok(Instruction::SBC_H),
            0x9D => Ok(Instruction::SBC_L),
            0xDE => Ok(Instruction::SBC_n(mem.read_u8(next.0))),
            0x3C => Ok(Instruction::INC_A),
            0x04 => Ok(Instruction::INC_B),
            0x0C => Ok(Instruction::INC_C),
            0x14 => Ok(Instruction::INC_D),
            0x1C => Ok(Instruction::INC_E),
            0x24 => Ok(Instruction::INC_H),
            0x2C => Ok(Instruction::INC_L),
            0x03 => Ok(Instruction::INC_BC),
            0x13 => Ok(Instruction::INC_DE),
            0x23 => Ok(Instruction::INC_HL),
            0x34 => Ok(Instruction::INC_MHL),
            0x3D => Ok(Instruction::DEC_A),
            0x05 => Ok(Instruction::DEC_B),
            0x0D => Ok(Instruction::DEC_C),
            0x15 => Ok(Instruction::DEC_D),
            0x1D => Ok(Instruction::DEC_E),
            0x25 => Ok(Instruction::DEC_H),
            0x2D => Ok(Instruction::DEC_L),
            0x35 => Ok(Instruction::DEC_MHL),
            0xB7 => Ok(Instruction::OR_A),
            0xB0 => Ok(Instruction::OR_B),
            0xB1 => Ok(Instruction::OR_C),
            0xB2 => Ok(Instruction::OR_D),
            0xB3 => Ok(Instruction::OR_E),
            0xB4 => Ok(Instruction::OR_H),
            0xB5 => Ok(Instruction::OR_L),
            0xB6 => Ok(Instruction::OR_MHL),
            0xA7 => Ok(Instruction::AND_A),
            0xA0 => Ok(Instruction::AND_B),
            0xA1 => Ok(Instruction::AND_C),
            0xA2 => Ok(Instruction::AND_D),
            0xA3 => Ok(Instruction::AND_E),
            0xA4 => Ok(Instruction::AND_H),
            0xA5 => Ok(Instruction::AND_L),
            0xE6 => Ok(Instruction::AND_n(mem.read_u8(next.0))),
            0xAE => Ok(Instruction::XOR_MHL),
            0xAF => Ok(Instruction::XOR_A),
            0xA8 => Ok(Instruction::XOR_B),
            0xA9 => Ok(Instruction::XOR_C),
            0xAA => Ok(Instruction::XOR_D),
            0xAB => Ok(Instruction::XOR_E),
            0xAC => Ok(Instruction::XOR_H),
            0xAD => Ok(Instruction::XOR_L),
            0xEE => Ok(Instruction::XOR_n(mem.read_u8(next.0))),
            0xBF => Ok(Instruction::CP_A),
            0xB8 => Ok(Instruction::CP_B),
            0xB9 => Ok(Instruction::CP_C),
            0xBA => Ok(Instruction::CP_D),
            0xBB => Ok(Instruction::CP_E),
            0xBC => Ok(Instruction::CP_H),
            0xBD => Ok(Instruction::CP_L),
            0xFE => Ok(Instruction::CP_n(mem.read_u8(next.0))),
            0x2F => Ok(Instruction::CPL),
            0x07 => Ok(Instruction::RLC_A),
            0x17 => Ok(Instruction::RL_A),
            0x0F => Ok(Instruction::RRC_A),
            0x1F => Ok(Instruction::RR_A),
            0x37 => Ok(Instruction::SCF),
            0x3F => Ok(Instruction::CCF),
            0xCB => match ExtendedInstruction::spec_decode(mem, next.0) {
                Ok(instr) => Ok(Instruction::Extended(instr)),
                Err(e) => Err(e),
            },
            opcode => Err(Error::UnknownOpcode { addr, opcode }),
        }
    }

    /// Decodes the instruction at `addr`. Fails on an opcode that the primary
    /// table does not hold and, behind the prefix opcode, on one that the
    /// extended table does not hold, with the address of that byte and the
    /// byte. Memory is only read.
    pub fn decode<M: Mapper>(mem: &Memory<M>, addr: Addr) -> (r: Result<Instruction, Error>)
        ensures
            r == Instruction::spec_decode(mem@, addr.0),
    {
        reveal(Instruction::spec_decode);
        let next = addr + 1;
        match mem.read_u8(addr) {
            0x00 => Ok(Instruction::NOP),
            0xFB => Ok(Instruction::EI),
            0xF3 => Ok(Instruction::DI),
            0xC3 => Ok(Instruction::JP_nn(mem.read_u16(next))),
            0x7F => Ok(Instruction::LD_A_A),
            0x78 => Ok(Instruction::LD_A_B),
            0x79 => Ok(Instruction::LD_A_C),
            0x7A => Ok(Instruction::LD_A_D),
            0x7B => Ok(Instruction::LD_A_E),
            0x7C => Ok(Instruction::LD_A_H),
            0x7D => Ok(Instruction::LD_A_L),
            0x1A => Ok(Instruction::LD_A_MDE),
            0x7E => Ok(Instruction::LD_A_MHL),
            0x3E => Ok(Instruction::LD_A_n(mem.read_u8(next))),
            0xFA => Ok(Instruction::LD_A_Mnn(mem.read_u16(next))),
            0x47 => Ok(Instruction::LD_B_A),
            0x40 => Ok(Instruction::LD_B_B),
            0x41 => Ok(Instruction::LD_B_C),
            0x42 => Ok(Instruction::LD_B_D),
            0x43 => Ok(Instruction::LD_B_E),
            0x44 => Ok(Instruction::LD_B_H),
            0x45 => Ok(Instruction::LD_B_L),
            0x46 => Ok(Instruction::LD_B_MHL),
            0x06 => Ok(Instruction::LD_B_n(mem.read_u8(next))),
            0x4F => Ok(Instruction::LD_C_A),
            0x48 => Ok(Instruction::LD_C_B),
            0x49 => Ok(Instruction::LD_C_C),
            0x4A => Ok(Instruction::LD_C_D),
            0x4B => Ok(Instruction::LD_C_E),
            0x4C => Ok(Instruction::LD_C_H),
            0x4D => Ok(Instruction::LD_C_L),
            0x4E => Ok(Instruction::LD_C_MHL),
            0x57 => Ok(Instruction::LD_D_A),
            0x50 => Ok(Instruction::LD_D_B),
            0x51 => Ok(Instruction::LD_D_C),
            0x52 => Ok(Instruction::LD_D_D),
            0x53 => Ok(Instruction::LD_D_E),
            0x54 => Ok(Instruction::LD_D_H),
            0x55 => Ok(Instruction::LD_D_L),
            0x0E => Ok(Instruction::LD_C_n(mem.read_u8(next))),
            0x56 => Ok(Instruction::LD_D_MHL),
            0x5F => Ok(Instruction::LD_E_A),
            0x58 => Ok(Instruction::LD_E_B),
            0x59 => Ok(Instruction::LD_E_C),
            0x5A => Ok(Instruction::LD_E_D),
            0x5B => Ok(Instruction::LD_E_E),
            0x5C => Ok(Instruction::LD_E_H),
            0x5D => Ok(Instruction::LD_E_L),
            0x5E => Ok(Instruction::LD_E_MHL),
            0x67 => Ok(Instruction::LD_H_A),
            0x60 => Ok(Instruction::LD_H_B),
            0x61 => Ok(Instruction::LD_H_C),
            0x62 => Ok(Instruction::LD_H_D),
            0x63 => Ok(Instruction::LD_H_E),
            0x64 => Ok(Instruction::LD_H_H),
            0x65 => Ok(Instruction::LD_H_L),
            0x66 => Ok(Instruction::LD_H_MHL),
            0x26 => Ok(Instruction::LD_H_n(mem.read_u8(next))),
            0x6F => Ok(Instruction::LD_L_A),
            0x68 => Ok(Instruction::LD_L_B),
            0x69 => Ok(Instruction::LD_L_C),
            0x6A => Ok(Instruction::LD_L_D),
            0x6B => Ok(Instruction::LD_L_E),
            0x6C => Ok(Instruction::LD_L_H),
            0x6D => Ok(Instruction::LD_L_L),
            0x6E => Ok(Instruction::LD_L_MHL),
            0x2E => Ok(Instruction::LD_L_n(mem.read_u8(next))),
            0x01 => Ok(Instruction::LD_BC_nn(mem.read_u16(next))),
            0x11 => Ok(Instruction::LD_DE_nn(mem.read_u16(next))),
            0x21 => Ok(Instruction::LD_HL_nn(mem.read_u16(next))),
            0x31 => Ok(Instruction::LD_SP_nn(mem.read_u16(next))),
            0x12 => Ok(Instruction::LD_MDE_A),
            0x77 => Ok(Instruction::LD_MHL_A),
            0x70 => Ok(Instruction::LD_MHL_B),
            0x71 => Ok(Instruction::LD_MHL_C),
            0x72 => Ok(Instruction::LD_MHL_D),
            0x73 => Ok(Instruction::LD_MHL_E),
            0x74 => Ok(Instruction::LD_MHL_H),
            0x75 => Ok(Instruction::LD_MHL_L),
            0xEA => Ok(Instruction::LD_Mnn_A(mem.read_u16(next))),
            0xE0 => Ok(Instruction::LD_Mn_A(mem.read_u8(next))),
            0x2A => Ok(Instruction::LDI_A_MHL),
            0x22 => Ok(Instruction::LDI_MHL_A),
            0x32 => Ok(Instruction::LDD_MHL_A),
            0xF0 => Ok(Instruction::LD_A_Mn(mem.read_u8(next))),
            0xC4 => Ok(Instruction::CALL_NZ_nn(mem.read_u16(next))),
            0xCD => Ok(Instruction::CALL_nn(mem.read_u16(next))),
            0xE9 => Ok(Instruction::JP_HL),
            0xC2 => Ok(Instruction::JP_NZ_nn(mem.read_u16(next))),
            0x18 => Ok(Instruction::JR_n(to_signed(mem.read_u8(next)))),
            0x20 => Ok(Instruction::JR_NZ_n(to_signed(mem.read_u8(next)))),
            0x28 => Ok(Instruction::JR_Z_n(to_signed(mem.read_u8(next)))),
            0x38 => Ok(Instruction::JR_C_n(to_signed(mem.read_u8(next)))),
            0x30 => Ok(Instruction::JR_NC(to_signed(mem.read_u8(next)))),
            0xC9 => Ok(Instruction::RET),
            0xC8 => Ok(Instruction::RET_Z),
            0xC0 => Ok(Instruction::RET_NZ),
            0xD8 => Ok(Instruction::RET_C),
            0xD0 => Ok(Instruction::RET_NC),
            0xF5 => Ok(Instruction::PUSH_AF),
            0xC5 => Ok(Instruction::PUSH_BC),
            0xD5 => Ok(Instruction::PUSH_DE),
            0xE5 => Ok(Instruction::PUSH_HL),
            0xF1 => Ok(Instruction::POP_AF),
            0xC1 => Ok(Instruction::POP_BC),
            0xD1 => Ok(Instruction::POP_DE),
            0xE1 => Ok(Instruction::POP_HL),
            0x87 => Ok(Instruction::ADD_A),
            0x80 => Ok(Instruction::ADD_B),
            0x81 => Ok(Instruction::ADD_C),
            0x82 => Ok(Instruction::ADD_D),
            0x83 => Ok(Instruction::ADD_E),
            0x84 => Ok(Instruction::ADD_H),
            0x85 => Ok(Instruction::ADD_L),
            0x29 => Ok(Instruction::ADD_HL_HL),
            0xC6 => Ok(Instruction::ADD_n(mem.read_u8(next))),
            0x97 => Ok(Instruction::SUB_A),
            0x90 => Ok(Instruction::SUB_B),
            0x91 => Ok(Instruction::SUB_C),
            0x92 => Ok(Instruction::SUB_D),
            0x93 => Ok(Instruction::SUB_E),
            0x94 => Ok(Instruction::SUB_H),
            0x95 => Ok(Instruction::SUB_L),
            0xD6 => Ok(Instruction::SUB_n(mem.read_u8(next))),
            0x8F => Ok(Instruction::ADC_A),
            0x88 => Ok(Instruction::ADC_B),
            0x89 => Ok(Instruction::ADC_C),
            0x8A => Ok(Instruction::ADC_D),
            0x8B => Ok(Instruction::ADC_E),
            0x8C => Ok(Instruction::ADC_H),
            0x8D => Ok(Instruction::ADC_L),
            0xCE => Ok(Instruction::ADC_n(mem.read_u8(next))),
            0x9F => Ok(Instruction::SBC_A),
            0x98 => Ok(Instruction::SBC_B),
            0x99 => Ok(Instruction::SBC_C),
            0x9A => Ok(Instruction::SBC_D),
            0x9B => Ok(Instruction::SBC_E),
            0x9C => Ok(Instruction::SBC_H),
            0x9D => Ok(Instruction::SBC_L),
            0xDE => Ok(Instruction::SBC_n(mem.read_u8(next))),
            0x3C => Ok(Instruction::INC_A),
            0x04 => Ok(Instruction::INC_B),
            0x0C => Ok(Instruction::INC_C),
            0x14 => Ok(Instruction::INC_D),
            0x1C => Ok(Instruction::INC_E),
            0x24 => Ok(Instruction::INC_H),
            0x2C => Ok(Instruction::INC_L),
            0x03 => Ok(Instruction::INC_BC),
            0x13 => Ok(Instruction::INC_DE),
            0x23 => Ok(Instruction::INC_HL),
            0x34 => Ok(Instruction::INC_MHL),
            0x3D => Ok(Instruction::DEC_A),
            0x05 => Ok(Instruction::DEC_B),
            0x0D => Ok(Instruction::DEC_C),
            0x15 => Ok(Instruction::DEC_D),
            0x1D => Ok(Instruction::DEC_E),
            0x25 => Ok(Instruction::DEC_H),
            0x2D => Ok(Instruction::DEC_L),
            0x35 => Ok(Instruction::DEC_MHL),
            0xB7 => Ok(Instruction::OR_A),
            0xB0 => Ok(Instruction::OR_B),
            0xB1 => Ok(Instruction::OR_C),
            0xB2 => Ok(Instruction::OR_D),
            0xB3 => Ok(Instruction::OR_E),
            0xB4 => Ok(Instruction::OR_H),
            0xB5 => Ok(Instruction::OR_L),
            0xB6 => Ok(Instruction::OR_MHL),
            0xA7 => Ok(Instruction::AND_A),
            0xA0 => Ok(Instruction::AND_B),
            0xA1 => Ok(Instruction::AND_C),
            0xA2 => Ok(Instruction::AND_D),
            0xA3 => Ok(Instruction::AND_E),
            0xA4 => Ok(Instruction::AND_H),
            0xA5 => Ok(Instruction::AND_L),
            0xE6 => Ok(Instruction::AND_n(mem.read_u8(next))),
            0xAE => Ok(Instruction::XOR_MHL),
            0xAF => Ok(Instruction::XOR_A),
            0xA8 => Ok(Instruction::XOR_B),
            0xA9 => Ok(Instruction::XOR_C),
            0xAA => Ok(Instruction::XOR_D),
            0xAB => Ok(Instruction::XOR_E),
            0xAC => Ok(Instruction::XOR_H),
            0xAD => Ok(Instruction::XOR_L),
            0xEE => Ok(Instruction::XOR_n(mem.read_u8(next))),
            0xBF => Ok(Instruction::CP_A),
            0xB8 => Ok(Instruction::CP_B),
            0xB9 => Ok(Instruction::CP_C),
            0xBA => Ok(Instruction::CP_D),
            0xBB => Ok(Instruction::CP_E),
            0xBC => Ok(Instruction::CP_H),
            0xBD => Ok(Instruction::CP_L),
            0xFE => Ok(Instruction::CP_n(mem.read_u8(next))),
            0x2F => Ok(Instruction::CPL),
            0x07 => Ok(Instruction::RLC_A),
            0x17 => Ok(Instruction::RL_A),
            0x0F => Ok(Instruction::RRC_A),
            0x1F => Ok(Instruction::RR_A),
            0x37 => Ok(Instruction::SCF),
            0x3F => Ok(Instruction::CCF),
            0xCB => match ExtendedInstruction::decode(mem, next) {
                Ok(instr) => Ok(Instruction::Extended(instr)),
                Err(e) => Err(e),
            },
            opcode => Err(Error::UnknownOpcode { addr: addr.0, opcode }),
        }
    }
}

} // verus!

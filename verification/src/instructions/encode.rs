//! The encoding of the instructions: the bytes that stand for each of them.
//! The decoder is its inverse.

use vstd::prelude::*;
use crate::addr::Addr;
use crate::bits::{high_byte, low_byte};
use crate::error::Error;
use crate::instructions::decode::{signed, PREFIX};
use crate::instructions::execute::Group;
use crate::instructions::{ExtendedInstruction, Instruction};
use crate::mapper::Mapper;
use crate::memory::MemoryModel;

verus! {

/// The byte that spells the signed displacement `value` in two's complement.
pub open spec fn unsigned(value: i8) -> u8 {
    if value >= 0 {
        value as u8
    } else {
        (value + 256) as u8
    }
}

/// Whether the bytes from `addr` on are `bytes`. The address wraps behind the
/// last one.
pub open spec fn holds<M: Mapper>(mem: MemoryModel<M>, addr: u16, bytes: Seq<u8>) -> bool {
    forall|k: int| 0 <= k < bytes.len() ==> mem.read_u8(Addr(addr).offset(k).0) == #[trigger] bytes[k]
}

impl ExtendedInstruction {
    /// The opcode of the instruction in the extended table.
    pub open spec fn opcode(self) -> u8 {
        match self {
            ExtendedInstruction::RLC_A => 0x07,
            ExtendedInstruction::RLC_B => 0x00,
            ExtendedInstruction::RLC_C => 0x01,
            ExtendedInstruction::RLC_D => 0x02,
            ExtendedInstruction::RLC_E => 0x03,
            ExtendedInstruction::RLC_H => 0x04,
            ExtendedInstruction::RLC_L => 0x05,
            ExtendedInstruction::RRC_A => 0x0F,
            ExtendedInstruction::RRC_B => 0x08,
            ExtendedInstruction::RRC_C => 0x09,
            ExtendedInstruction::RRC_D => 0x0A,
            ExtendedInstruction::RRC_E => 0x0B,
            ExtendedInstruction::RRC_H => 0x0C,
            ExtendedInstruction::RRC_L => 0x0D,
            ExtendedInstruction::SRL_B => 0x38,
            ExtendedInstruction::RR_C => 0x19,
            ExtendedInstruction::RR_D => 0x1A,
            ExtendedInstruction::RR_E => 0x1B,
            ExtendedInstruction::SWAP_A => 0x37,
            ExtendedInstruction::SWAP_B => 0x30,
            ExtendedInstruction::SWAP_C => 0x31,
            ExtendedInstruction::SWAP_D => 0x32,
            ExtendedInstruction::SWAP_E => 0x33,
            ExtendedInstruction::SWAP_H => 0x34,
            ExtendedInstruction::SWAP_L => 0x35,
        }
    }
}

impl Instruction {
    /// The opcode of the instruction in the primary table.
    pub open spec fn opcode(self) -> u8 {
        match self {
            Instruction::NOP => 0x00,
            Instruction::EI => 0xFB,
            Instruction::DI => 0xF3,
            Instruction::JP_nn(_) => 0xC3,
            Instruction::LD_A_A => 0x7F,
            Instruction::LD_A_B => 0x78,
            Instruction::LD_A_C => 0x79,
            Instruction::LD_A_D => 0x7A,
            Instruction::LD_A_E => 0x7B,
            Instruction::LD_A_H => 0x7C,
            Instruction::LD_A_L => 0x7D,
            Instruction::LD_A_MDE => 0x1A,
            Instruction::LD_A_MHL => 0x7E,
            Instruction::LD_A_n(_) => 0x3E,
            Instruction::LD_A_Mnn(_) => 0xFA,
            Instruction::LD_B_A => 0x47,
            Instruction::LD_B_B => 0x40,
            Instruction::LD_B_C => 0x41,
            Instruction::LD_B_D => 0x42,
            Instruction::LD_B_E => 0x43,
            Instruction::LD_B_H => 0x44,
            Instruction::LD_B_L => 0x45,
            Instruction::LD_B_MHL => 0x46,
            Instruction::LD_B_n(_) => 0x06,
            Instruction::LD_C_A => 0x4F,
            Instruction::LD_C_B => 0x48,
            Instruction::LD_C_C => 0x49,
            Instruction::LD_C_D => 0x4A,
            Instruction::LD_C_E => 0x4B,
            Instruction::LD_C_H => 0x4C,
            Instruction::LD_C_L => 0x4D,
            Instruction::LD_C_MHL => 0x4E,
            Instruction::LD_D_A => 0x57,
            Instruction::LD_D_B => 0x50,
            Instruction::LD_D_C => 0x51,
            Instruction::LD_D_D => 0x52,
            Instruction::LD_D_E => 0x53,
            Instruction::LD_D_H => 0x54,
            Instruction::LD_D_L => 0x55,
            Instruction::LD_C_n(_) => 0x0E,
            Instruction::LD_D_MHL => 0x56,
            Instruction::LD_E_A => 0x5F,
            Instruction::LD_E_B => 0x58,
            Instruction::LD_E_C => 0x59,
            Instruction::LD_E_D => 0x5A,
            Instruction::LD_E_E => 0x5B,
            Instruction::LD_E_H => 0x5C,
            Instruction::LD_E_L => 0x5D,
            Instruction::LD_E_MHL => 0x5E,
            Instruction::LD_H_A => 0x67,
            Instruction::LD_H_B => 0x60,
            Instruction::LD_H_C => 0x61,
            Instruction::LD_H_D => 0x62,
            Instruction::LD_H_E => 0x63,
            Instruction::LD_H_H => 0x64,
            Instruction::LD_H_L => 0x65,
            Instruction::LD_H_MHL => 0x66,
            Instruction::LD_H_n(_) => 0x26,
            Instruction::LD_L_A => 0x6F,
            Instruction::LD_L_B => 0x68,
            Instruction::LD_L_C => 0x69,
            Instruction::LD_L_D => 0x6A,
            Instruction::LD_L_E => 0x6B,
            Instruction::LD_L_H => 0x6C,
            Instruction::LD_L_L => 0x6D,
            Instruction::LD_L_MHL => 0x6E,
            Instruction::LD_L_n(_) => 0x2E,
            Instruction::LD_BC_nn(_) => 0x01,
            Instruction::LD_DE_nn(_) => 0x11,
            Instruction::LD_HL_nn(_) => 0x21,
            Instruction::LD_SP_nn(_) => 0x31,
            Instruction::LD_MDE_A => 0x12,
            Instruction::LD_MHL_A => 0x77,
            Instruction::LD_MHL_B => 0x70,
            Instruction::LD_MHL_C => 0x71,
            Instruction::LD_MHL_D => 0x72,
            Instruction::LD_MHL_E => 0x73,
            Instruction::LD_MHL_H => 0x74,
            Instruction::LD_MHL_L => 0x75,
            Instruction::LD_Mnn_A(_) => 0xEA,
            Instruction::LD_Mn_A(_) => 0xE0,
            Instruction::LDI_A_MHL => 0x2A,
            Instruction::LDI_MHL_A => 0x22,
            Instruction::LDD_MHL_A => 0x32,
            Instruction::LD_A_Mn(_) => 0xF0,
            Instruction::CALL_NZ_nn(_) => 0xC4,
            Instruction::CALL_nn(_) => 0xCD,
            Instruction::JP_HL => 0xE9,
            Instruction::JP_NZ_nn(_) => 0xC2,
            Instruction::JR_n(_) => 0x18,
            Instruction::JR_NZ_n(_) => 0x20,
            Instruction::JR_Z_n(_) => 0x28,
            Instruction::JR_C_n(_) => 0x38,
            Instruction::JR_NC(_) => 0x30,
            Instruction::RET => 0xC9,
            Instruction::RET_Z => 0xC8,
            Instruction::RET_NZ => 0xC0,
            Instruction::RET_C => 0xD8,
            Instruction::RET_NC => 0xD0,
            Instruction::PUSH_AF => 0xF5,
            Instruction::PUSH_BC => 0xC5,
            Instruction::PUSH_DE => 0xD5,
            Instruction::PUSH_HL => 0xE5,
            Instruction::POP_AF => 0xF1,
            Instruction::POP_BC => 0xC1,
            Instruction::POP_DE => 0xD1,
            Instruction::POP_HL => 0xE1,
            Instruction::ADD_A => 0x87,
            Instruction::ADD_B => 0x80,
            Instruction::ADD_C => 0x81,
            Instruction::ADD_D => 0x82,
            Instruction::ADD_E => 0x83,
            Instruction::ADD_H => 0x84,
            Instruction::ADD_L => 0x85,
            Instruction::ADD_HL_HL => 0x29,
            Instruction::ADD_n(_) => 0xC6,
            Instruction::SUB_A => 0x97,
            Instruction::SUB_B => 0x90,
            Instruction::SUB_C => 0x91,
            Instruction::SUB_D => 0x92,
            Instruction::SUB_E => 0x93,
            Instruction::SUB_H => 0x94,
            Instruction::SUB_L => 0x95,
            Instruction::SUB_n(_) => 0xD6,
            Instruction::ADC_A => 0x8F,
            Instruction::ADC_B => 0x88,
            Instruction::ADC_C => 0x89,
            Instruction::ADC_D => 0x8A,
            Instruction::ADC_E => 0x8B,
            Instruction::ADC_H => 0x8C,
            Instruction::ADC_L => 0x8D,
            Instruction::ADC_n(_) => 0xCE,
            Instruction::SBC_A => 0x9F,
            Instruction::SBC_B => 0x98,
            Instruction::SBC_C => 0x99,
            Instruction::SBC_D => 0x9A,
            Instruction::SBC_E => 0x9B,
            Instruction::SBC_H => 0x9C,
            Instruction::SBC_L => 0x9D,
            Instruction::SBC_n(_) => 0xDE,
            Instruction::INC_A => 0x3C,
            Instruction::INC_B => 0x04,
            Instruction::INC_C => 0x0C,
            Instruction::INC_D => 0x14,
            Instruction::INC_E => 0x1C,
            Instruction::INC_H => 0x24,
            Instruction::INC_L => 0x2C,
            Instruction::INC_BC => 0x03,
            Instruction::INC_DE => 0x13,
            Instruction::INC_HL => 0x23,
            Instruction::INC_MHL => 0x34,
            Instruction::DEC_A => 0x3D,
            Instruction::DEC_B => 0x05,
            Instruction::DEC_C => 0x0D,
            Instruction::DEC_D => 0x15,
            Instruction::DEC_E => 0x1D,
            Instruction::DEC_H => 0x25,
            Instruction::DEC_L => 0x2D,
            Instruction::DEC_MHL => 0x35,
            Instruction::OR_A => 0xB7,
            Instruction::OR_B => 0xB0,
            Instruction::OR_C => 0xB1,
            Instruction::OR_D => 0xB2,
            Instruction::OR_E => 0xB3,
            Instruction::OR_H => 0xB4,
            Instruction::OR_L => 0xB5,
            Instruction::OR_MHL => 0xB6,
            Instruction::AND_A => 0xA7,
            Instruction::AND_B => 0xA0,
            Instruction::AND_C => 0xA1,
            Instruction::AND_D => 0xA2,
            Instruction::AND_E => 0xA3,
            Instruction::AND_H => 0xA4,
            Instruction::AND_L => 0xA5,
            Instruction::AND_n(_) => 0xE6,
            Instruction::XOR_MHL => 0xAE,
            Instruction::XOR_A => 0xAF,
            Instruction::XOR_B => 0xA8,
            Instruction::XOR_C => 0xA9,
            Instruction::XOR_D => 0xAA,
            Instruction::XOR_E => 0xAB,
            Instruction::XOR_H => 0xAC,
            Instruction::XOR_L => 0xAD,
            Instruction::XOR_n(_) => 0xEE,
            Instruction::CP_A => 0xBF,
            Instruction::CP_B => 0xB8,
            Instruction::CP_C => 0xB9,
            Instruction::CP_D => 0xBA,
            Instruction::CP_E => 0xBB,
            Instruction::CP_H => 0xBC,
            Instruction::CP_L => 0xBD,
            Instruction::CP_n(_) => 0xFE,
            Instruction::CPL => 0x2F,
            Instruction::RLC_A => 0x07,
            Instruction::RL_A => 0x17,
            Instruction::RRC_A => 0x0F,
            Instruction::RR_A => 0x1F,
            Instruction::SCF => 0x37,
            Instruction::CCF => 0x3F,
            Instruction::Extended(_) => PREFIX,
        }
    }

    /// The bytes behind the opcode: a 16-bit operand low byte first, an 8-bit
    /// operand or a displacement as one byte, and behind the prefix opcode
    /// the opcode of the extended instruction.
    pub open spec fn operand(self) -> Seq<u8> {
        match self {
            Instruction::Extended(instr) => seq![instr.opcode()],
            Instruction::JP_nn(n) => seq![low_byte(n), high_byte(n)],
            Instruction::LD_A_n(n) => seq![n],
            Instruction::LD_A_Mnn(n) => seq![low_byte(n), high_byte(n)],
            Instruction::LD_B_n(n) => seq![n],
            Instruction::LD_C_n(n) => seq![n],
            Instruction::LD_H_n(n) => seq![n],
            Instruction::LD_L_n(n) => seq![n],
            Instruction::LD_BC_nn(n) => seq![low_byte(n), high_byte(n)],
            Instruction::LD_DE_nn(n) => seq![low_byte(n), high_byte(n)],
            Instruction::LD_HL_nn(n) => seq![low_byte(n), high_byte(n)],
            Instruction::LD_SP_nn(n) => seq![low_byte(n), high_byte(n)],
            Instruction::LD_Mnn_A(n) => seq![low_byte(n), high_byte(n)],
            Instruction::LD_Mn_A(n) => seq![n],
            Instruction::LD_A_Mn(n) => seq![n],
            Instruction::CALL_NZ_nn(n) => seq![low_byte(n), high_byte(n)],
            Instruction::CALL_nn(n) => seq![low_byte(n), high_byte(n)],
            Instruction::JP_NZ_nn(n) => seq![low_byte(n), high_byte(n)],
            Instruction::JR_n(n) => seq![unsigned(n)],
            Instruction::JR_NZ_n(n) => seq![unsigned(n)],
            Instruction::JR_Z_n(n) => seq![unsigned(n)],
            Instruction::JR_C_n(n) => seq![unsigned(n)],
            Instruction::JR_NC(n) => seq![unsigned(n)],
            Instruction::ADD_n(n) => seq![n],
            Instruction::SUB_n(n) => seq![n],
            Instruction::ADC_n(n) => seq![n],
            Instruction::SBC_n(n) => seq![n],
            Instruction::AND_n(n) => seq![n],
            Instruction::XOR_n(n) => seq![n],
            Instruction::CP_n(n) => seq![n],
            _ => Seq::empty(),
        }
    }

    /// The bytes that stand for the instruction: its opcode, then its
    /// operand.
    pub open spec fn encoding(self) -> Seq<u8> {
        seq![self.opcode()] + self.operand()
    }
}

/// A displacement is the one that its byte spells.
pub proof fn law_signed_inverts_unsigned(value: i8)
    ensures
        signed(unsigned(value)) == value,
{
}

/// Where memory holds the opcode of an extended instruction, the extended
/// decoder gives that instruction.
pub proof fn law_extended_decode_inverts_opcode<M: Mapper>(
    mem: MemoryModel<M>,
    addr: u16,
    instr: ExtendedInstruction,
)
    requires
        mem.read_u8(addr) == instr.opcode(),
    ensures
        ExtendedInstruction::spec_decode(mem, addr) == Ok::<ExtendedInstruction, Error>(instr),
{
}

/// What the extended decoder gives has the opcode that memory holds.
pub proof fn law_extended_decoded_opcode<M: Mapper>(mem: MemoryModel<M>, addr: u16)
    ensures
        match ExtendedInstruction::spec_decode(mem, addr) {
            Ok(instr) => instr.opcode() == mem.read_u8(addr),
            Err(e) => {
                &&& e == (Error::UnknownExtendedOpcode { addr, opcode: mem.read_u8(addr) })
                &&& forall|instr: ExtendedInstruction| #[trigger] instr.opcode() != mem.read_u8(addr)
            },
        },
{
}

/// Where memory holds the encoding of an instruction, the decoder gives that
/// instruction.
pub proof fn law_decode_inverts_encoding<M: Mapper>(mem: MemoryModel<M>, addr: u16, inst: Instruction)
    requires
        holds(mem, addr, inst.encoding()),
    ensures
        Instruction::spec_decode(mem, addr) == Ok::<Instruction, Error>(inst),
{
    let bytes = inst.encoding();
    assert(bytes[0] == inst.opcode());
    assert(mem.read_u8(Addr(addr).offset(0).0) == bytes[0]);
    if bytes.len() > 1 {
        assert(mem.read_u8(Addr(addr).offset(1).0) == bytes[1]);
    }
    if bytes.len() > 2 {
        assert(mem.read_u8(Addr(addr).offset(2).0) == bytes[2]);
    }
    match inst.group() {
        Group::Load => lemma_decode_inverts_load(mem, addr, inst),
        Group::Transfer => lemma_decode_inverts_transfer(mem, addr, inst),
        Group::Flow => lemma_decode_inverts_flow(mem, addr, inst),
        Group::Arithmetic => lemma_decode_inverts_arithmetic(mem, addr, inst),
        Group::Logic => lemma_decode_inverts_logic(mem, addr, inst),
    }
}

proof fn lemma_decode_inverts_load<M: Mapper>(mem: MemoryModel<M>, addr: u16, inst: Instruction)
    requires
        inst.group() == Group::Load,
        mem.read_u8(addr) == inst.opcode(),
        inst.operand().len() >= 1 ==> mem.read_u8(Addr(addr).offset(1).0) == inst.operand()[0],
        inst.operand().len() >= 2 ==> mem.read_u8(Addr(addr).offset(2).0) == inst.operand()[1],
    ensures
        Instruction::spec_decode(mem, addr) == Ok::<Instruction, Error>(inst),
{
    reveal(Instruction::spec_decode);
}

proof fn lemma_decode_inverts_transfer<M: Mapper>(mem: MemoryModel<M>, addr: u16, inst: Instruction)
    requires
        inst.group() == Group::Transfer,
        mem.read_u8(addr) == inst.opcode(),
        inst.operand().len() >= 1 ==> mem.read_u8(Addr(addr).offset(1).0) == inst.operand()[0],
        inst.operand().len() >= 2 ==> mem.read_u8(Addr(addr).offset(2).0) == inst.operand()[1],
    ensures
        Instruction::spec_decode(mem, addr) == Ok::<Instruction, Error>(inst),
{
    reveal(Instruction::spec_decode);
}

proof fn lemma_decode_inverts_flow<M: Mapper>(mem: MemoryModel<M>, addr: u16, inst: Instruction)
    requires
        inst.group() == Group::Flow,
        mem.read_u8(addr) == inst.opcode(),
        inst.operand().len() >= 1 ==> mem.read_u8(Addr(addr).offset(1).0) == inst.operand()[0],
        inst.operand().len() >= 2 ==> mem.read_u8(Addr(addr).offset(2).0) == inst.operand()[1],
    ensures
        Instruction::spec_decode(mem, addr) == Ok::<Instruction, Error>(inst),
{
    reveal(Instruction::spec_decode);
}

proof fn lemma_decode_inverts_arithmetic<M: Mapper>(mem: MemoryModel<M>, addr: u16, inst: Instruction)
    requires
        inst.group() == Group::Arithmetic,
        mem.read_u8(addr) == inst.opcode(),
        inst.operand().len() >= 1 ==> mem.read_u8(Addr(addr).offset(1).0) == inst.operand()[0],
        inst.operand().len() >= 2 ==> mem.read_u8(Addr(addr).offset(2).0) == inst.operand()[1],
    ensures
        Instruction::spec_decode(mem, addr) == Ok::<Instruction, Error>(inst),
{
    reveal(Instruction::spec_decode);
}

proof fn lemma_decode_inverts_logic<M: Mapper>(mem: MemoryModel<M>, addr: u16, inst: Instruction)
    requires
        inst.group() == Group::Logic,
        mem.read_u8(addr) == inst.opcode(),
        inst.operand().len() >= 1 ==> mem.read_u8(Addr(addr).offset(1).0) == inst.operand()[0],
        inst.operand().len() >= 2 ==> mem.read_u8(Addr(addr).offset(2).0) == inst.operand()[1],
    ensures
        Instruction::spec_decode(mem, addr) == Ok::<Instruction, Error>(inst),
{
    reveal(Instruction::spec_decode);
}

/// An instruction is as long as its encoding: between one byte and three.
pub proof fn law_len_is_encoding_len(inst: Instruction)
    ensures
        inst.len() == inst.encoding().len(),
        1 <= inst.encoding().len() <= 3,
{
}

/// What the decoder gives has the encoding that memory holds; and where the
/// decoder fails, memory holds the encoding of no instruction.
pub proof fn law_decoded_encoding<M: Mapper>(mem: MemoryModel<M>, addr: u16)
    ensures
        match Instruction::spec_decode(mem, addr) {
            Ok(inst) => holds(mem, addr, inst.encoding()),
            Err(_) => forall|inst: Instruction| !holds(mem, addr, #[trigger] inst.encoding()),
        },
{
    match Instruction::spec_decode(mem, addr) {
        Ok(inst) => {
            match inst.group() {
                Group::Load => lemma_decoded_load(mem, addr, inst),
                Group::Transfer => lemma_decoded_transfer(mem, addr, inst),
                Group::Flow => lemma_decoded_flow(mem, addr, inst),
                Group::Arithmetic => lemma_decoded_arithmetic(mem, addr, inst),
                Group::Logic => lemma_decoded_logic(mem, addr, inst),
            }
            let bytes = inst.encoding();
            assert(Addr(addr).offset(0).0 == addr);
            assert forall|k: int| 0 <= k < bytes.len() implies mem.read_u8(Addr(addr).offset(k).0)
                == #[trigger] bytes[k] by {
                if k == 0 {
                } else if k == 1 {
                } else {
                    assert(k == 2);
                }
            }
        },
        Err(_) => {
            assert forall|inst: Instruction| !holds(mem, addr, #[trigger] inst.encoding()) by {
                if holds(mem, addr, inst.encoding()) {
                    law_decode_inverts_encoding(mem, addr, inst);
                }
            }
        },
    }
}

proof fn lemma_decoded_load<M: Mapper>(mem: MemoryModel<M>, addr: u16, inst: Instruction)
    requires
        Instruction::spec_decode(mem, addr) == Ok::<Instruction, Error>(inst),
        inst.group() == Group::Load,
    ensures
        mem.read_u8(addr) == inst.opcode(),
        inst.operand().len() <= 2,
        inst.len() == 1 + inst.operand().len(),
        inst.operand().len() >= 1 ==> mem.read_u8(Addr(addr).offset(1).0) == inst.operand()[0],
        inst.operand().len() >= 2 ==> mem.read_u8(Addr(addr).offset(2).0) == inst.operand()[1],
{
    reveal(Instruction::spec_decode);
    assert(Addr(Addr(addr).offset(1).0).offset(1).0 == Addr(addr).offset(2).0);
}

proof fn lemma_decoded_transfer<M: Mapper>(mem: MemoryModel<M>, addr: u16, inst: Instruction)
    requires
        Instruction::spec_decode(mem, addr) == Ok::<Instruction, Error>(inst),
        inst.group() == Group::Transfer,
    ensures
        mem.read_u8(addr) == inst.opcode(),
        inst.operand().len() <= 2,
        inst.len() == 1 + inst.operand().len(),
        inst.operand().len() >= 1 ==> mem.read_u8(Addr(addr).offset(1).0) == inst.operand()[0],
        inst.operand().len() >= 2 ==> mem.read_u8(Addr(addr).offset(2).0) == inst.operand()[1],
{
    reveal(Instruction::spec_decode);
    assert(Addr(Addr(addr).offset(1).0).offset(1).0 == Addr(addr).offset(2).0);
}

proof fn lemma_decoded_flow<M: Mapper>(mem: MemoryModel<M>, addr: u16, inst: Instruction)
    requires
        Instruction::spec_decode(mem, addr) == Ok::<Instruction, Error>(inst),
        inst.group() == Group::Flow,
    ensures
        mem.read_u8(addr) == inst.opcode(),
        inst.operand().len() <= 2,
        inst.len() == 1 + inst.operand().len(),
        inst.operand().len() >= 1 ==> mem.read_u8(Addr(addr).offset(1).0) == inst.operand()[0],
        inst.operand().len() >= 2 ==> mem.read_u8(Addr(addr).offset(2).0) == inst.operand()[1],
{
    reveal(Instruction::spec_decode);
    assert(Addr(Addr(addr).offset(1).0).offset(1).0 == Addr(addr).offset(2).0);
}

proof fn lemma_decoded_arithmetic<M: Mapper>(mem: MemoryModel<M>, addr: u16, inst: Instruction)
    requires
        Instruction::spec_decode(mem, addr) == Ok::<Instruction, Error>(inst),
        inst.group() == Group::Arithmetic,
    ensures
        mem.read_u8(addr) == inst.opcode(),
        inst.operand().len() <= 2,
        inst.len() == 1 + inst.operand().len(),
        inst.operand().len() >= 1 ==> mem.read_u8(Addr(addr).offset(1).0) == inst.operand()[0],
        inst.operand().len() >= 2 ==> mem.read_u8(Addr(addr).offset(2).0) == inst.operand()[1],
{
    reveal(Instruction::spec_decode);
    assert(Addr(Addr(addr).offset(1).0).offset(1).0 == Addr(addr).offset(2).0);
}

proof fn lemma_decoded_logic<M: Mapper>(mem: MemoryModel<M>, addr: u16, inst: Instruction)
    requires
        Instruction::spec_decode(mem, addr) == Ok::<Instruction, Error>(inst),
        inst.group() == Group::Logic,
    ensures
        mem.read_u8(addr) == inst.opcode(),
        inst.operand().len() <= 2,
        inst.len() == 1 + inst.operand().len(),
        inst.operand().len() >= 1 ==> mem.read_u8(Addr(addr).offset(1).0) == inst.operand()[0],
        inst.operand().len() >= 2 ==> mem.read_u8(Addr(addr).offset(2).0) == inst.operand()[1],
{
    reveal(Instruction::spec_decode);
    assert(Addr(Addr(addr).offset(1).0).offset(1).0 == Addr(addr).offset(2).0);
}

} // verus!

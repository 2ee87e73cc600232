//! The executor: what each instruction does to the registers and to memory.

use vstd::prelude::*;
use crate::addr::Addr;
use crate::cpu::{Cpu, Outcome, Reg8};
use crate::error::Error;
use crate::instructions::{ExtendedInstruction, Instruction};
use crate::mapper::Mapper;
use crate::memory::{Memory, MemoryModel};
use crate::stack::wrap16;

verus! {

/// The outcome of an instruction that leaves memory as it is.
pub open spec fn kept<M: Mapper>(cpu: Cpu, mem: MemoryModel<M>) -> Outcome<M, ()> {
    Outcome { cpu, mem, result: Ok(()) }
}

/// The outcome of an instruction that writes `value` to `addr` and leaves the
/// registers as they are.
pub open spec fn store<M: Mapper>(cpu: Cpu, mem: MemoryModel<M>, addr: u16, value: u8) -> Outcome<M, ()> {
    let written = mem.write_u8(addr, value);
    Outcome { cpu, mem: written.0, result: written.1 }
}

/// The outcome of an instruction that writes `value` to `addr` and then, if
/// the write did not fail, moves on to the registers `next`.
pub open spec fn store_then<M: Mapper>(
    cpu: Cpu,
    mem: MemoryModel<M>,
    addr: u16,
    value: u8,
    next: Cpu,
) -> Outcome<M, ()> {
    let written = mem.write_u8(addr, value);
    if written.1 is Ok {
        Outcome { cpu: next, mem: written.0, result: written.1 }
    } else {
        Outcome { cpu, mem: written.0, result: written.1 }
    }
}

/// The address in the high page at offset `n`.
pub open spec fn high_page(n: u8) -> u16 {
    (0xFF00 + n) as u16
}

/// The families of the primary table.
#[derive(Copy, Clone, Debug, PartialEq, Eq, Structural)]
pub enum Group {
    /// Loads of a register or a register pair from a register or an immediate operand.
    Load,
    /// Loads and stores between a register and memory.
    Transfer,
    /// Jumps, calls, returns, the stack, and the interrupt switch.
    Flow,
    /// Additions, subtractions, increments and decrements.
    Arithmetic,
    /// Logic operations, comparisons, rotations, the carry flag, and the extended table.
    Logic,
}

impl ExtendedInstruction {
    /// The registers after the instruction.
    pub open spec fn spec_execute(self, cpu: Cpu) -> Cpu {
        match self {
            ExtendedInstruction::RLC_A => cpu.spec_rotate_left_carry(Reg8::A),
            ExtendedInstruction::RLC_B => cpu.spec_rotate_left_carry(Reg8::B),
            ExtendedInstruction::RLC_C => cpu.spec_rotate_left_carry(Reg8::C),
            ExtendedInstruction::RLC_D => cpu.spec_rotate_left_carry(Reg8::D),
            ExtendedInstruction::RLC_E => cpu.spec_rotate_left_carry(Reg8::E),
            ExtendedInstruction::RLC_H => cpu.spec_rotate_left_carry(Reg8::H),
            ExtendedInstruction::RLC_L => cpu.spec_rotate_left_carry(Reg8::L),
            ExtendedInstruction::RRC_A => cpu.spec_rotate_right_carry(Reg8::A),
            ExtendedInstruction::RRC_B => cpu.spec_rotate_right_carry(Reg8::B),
            ExtendedInstruction::RRC_C => cpu.spec_rotate_right_carry(Reg8::C),
            ExtendedInstruction::RRC_D => cpu.spec_rotate_right_carry(Reg8::D),
            ExtendedInstruction::RRC_E => cpu.spec_rotate_right_carry(Reg8::E),
            ExtendedInstruction::RRC_H => cpu.spec_rotate_right_carry(Reg8::H),
            ExtendedInstruction::RRC_L => cpu.spec_rotate_right_carry(Reg8::L),
            ExtendedInstruction::SRL_B => cpu.spec_shift_right_logical_b(),
            ExtendedInstruction::RR_C => cpu.spec_rotate_right(Reg8::C),
            ExtendedInstruction::RR_D => cpu.spec_rotate_right(Reg8::D),
            ExtendedInstruction::RR_E => cpu.spec_rotate_right(Reg8::E),
            ExtendedInstruction::SWAP_A => cpu.spec_swap_nibbles(Reg8::A),
            ExtendedInstruction::SWAP_B => cpu.spec_swap_nibbles(Reg8::B),
            ExtendedInstruction::SWAP_C => cpu.spec_swap_nibbles(Reg8::C),
            ExtendedInstruction::SWAP_D => cpu.spec_swap_nibbles(Reg8::D),
            ExtendedInstruction::SWAP_E => cpu.spec_swap_nibbles(Reg8::E),
            ExtendedInstruction::SWAP_H => cpu.spec_swap_nibbles(Reg8::H),
            ExtendedInstruction::SWAP_L => cpu.spec_swap_nibbles(Reg8::L),
        }
    }

    /// Executes the instruction. An extended instruction works on registers
    /// alone and never fails.
    pub fn execute<M: Mapper>(&self, cpu: &mut Cpu, mem: &mut Memory<M>) -> (r: Result<(), Error>)
        ensures
            r == Ok::<(), Error>(()),
            *final(cpu) == self.spec_execute(*old(cpu)),
            final(mem)@ == old(mem)@,
    {
        match *self {
            ExtendedInstruction::RLC_A => cpu.rotate_left_carry(Reg8::A),
            ExtendedInstruction::RLC_B => cpu.rotate_left_carry(Reg8::B),
            ExtendedInstruction::RLC_C => cpu.rotate_left_carry(Reg8::C),
            ExtendedInstruction::RLC_D => cpu.rotate_left_carry(Reg8::D),
            ExtendedInstruction::RLC_E => cpu.rotate_left_carry(Reg8::E),
            ExtendedInstruction::RLC_H => cpu.rotate_left_carry(Reg8::H),
            ExtendedInstruction::RLC_L => cpu.rotate_left_carry(Reg8::L),
            ExtendedInstruction::RRC_A => cpu.rotate_right_carry(Reg8::A),
            ExtendedInstruction::RRC_B => cpu.rotate_right_carry(Reg8::B),
            ExtendedInstruction::RRC_C => cpu.rotate_right_carry(Reg8::C),
            ExtendedInstruction::RRC_D => cpu.rotate_right_carry(Reg8::D),
            ExtendedInstruction::RRC_E => cpu.rotate_right_carry(Reg8::E),
            ExtendedInstruction::RRC_H => cpu.rotate_right_carry(Reg8::H),
            ExtendedInstruction::RRC_L => cpu.rotate_right_carry(Reg8::L),
            ExtendedInstruction::SRL_B => cpu.shift_right_logical_b(),
            ExtendedInstruction::RR_C => cpu.rotate_right_c(),
            ExtendedInstruction::RR_D => cpu.rotate_right_d(),
            ExtendedInstruction::RR_E => cpu.rotate_right_e(),
            ExtendedInstruction::SWAP_A => cpu.swap_nibbles_a(),
            ExtendedInstruction::SWAP_B => cpu.swap_nibbles_b(),
            ExtendedInstruction::SWAP_C => cpu.swap_nibbles_c(),
            ExtendedInstruction::SWAP_D => cpu.swap_nibbles_d(),
            ExtendedInstruction::SWAP_E => cpu.swap_nibbles_e(),
            ExtendedInstruction::SWAP_H => cpu.swap_nibbles_h(),
            ExtendedInstruction::SWAP_L => cpu.swap_nibbles_l(),
        }
        Ok(())
    }
}

impl Instruction {
    /// The family of the instruction.
    pub open spec fn spec_group(&self) -> Group {
        match self {
            Instruction::LD_A_A | Instruction::LD_A_B | Instruction::LD_A_C | Instruction::LD_A_D
            | Instruction::LD_A_E | Instruction::LD_A_H | Instruction::LD_A_L
            | Instruction::LD_A_n(_) | Instruction::LD_B_A | Instruction::LD_B_B
            | Instruction::LD_B_C | Instruction::LD_B_D | Instruction::LD_B_E | Instruction::LD_B_H
            | Instruction::LD_B_L | Instruction::LD_B_n(_) | Instruction::LD_C_A
            | Instruction::LD_C_B | Instruction::LD_C_C | Instruction::LD_C_D | Instruction::LD_C_E
            | Instruction::LD_C_H | Instruction::LD_C_L | Instruction::LD_D_A | Instruction::LD_D_B
            | Instruction::LD_D_C | Instruction::LD_D_D | Instruction::LD_D_E | Instruction::LD_D_H
            | Instruction::LD_D_L | Instruction::LD_C_n(_) | Instruction::LD_E_A
            | Instruction::LD_E_B | Instruction::LD_E_C | Instruction::LD_E_D | Instruction::LD_E_E
            | Instruction::LD_E_H | Instruction::LD_E_L | Instruction::LD_H_A | Instruction::LD_H_B
            | Instruction::LD_H_C | Instruction::LD_H_D | Instruction::LD_H_E | Instruction::LD_H_H
            | Instruction::LD_H_L | Instruction::LD_H_n(_) | Instruction::LD_L_A
            | Instruction::LD_L_B | Instruction::LD_L_C | Instruction::LD_L_D | Instruction::LD_L_E
            | Instruction::LD_L_H | Instruction::LD_L_L | Instruction::LD_L_n(_)
            | Instruction::LD_BC_nn(_) | Instruction::LD_DE_nn(_) | Instruction::LD_HL_nn(_)
            | Instruction::LD_SP_nn(_) => Group::Load,
            Instruction::LD_A_MDE | Instruction::LD_A_MHL | Instruction::LD_A_Mnn(_)
            | Instruction::LD_B_MHL | Instruction::LD_C_MHL | Instruction::LD_D_MHL
            | Instruction::LD_E_MHL | Instruction::LD_H_MHL | Instruction::LD_L_MHL
            | Instruction::LD_MDE_A | Instruction::LD_MHL_A | Instruction::LD_MHL_B
            | Instruction::LD_MHL_C | Instruction::LD_MHL_D | Instruction::LD_MHL_E
            | Instruction::LD_MHL_H | Instruction::LD_MHL_L | Instruction::LD_Mnn_A(_)
            | Instruction::LD_Mn_A(_) | Instruction::LDI_A_MHL | Instruction::LDI_MHL_A
            | Instruction::LDD_MHL_A | Instruction::LD_A_Mn(_) => Group::Transfer,
            Instruction::NOP | Instruction::EI | Instruction::DI | Instruction::JP_nn(_)
            | Instruction::CALL_NZ_nn(_) | Instruction::CALL_nn(_) | Instruction::JP_HL
            | Instruction::JP_NZ_nn(_) | Instruction::JR_n(_) | Instruction::JR_NZ_n(_)
            | Instruction::JR_Z_n(_) | Instruction::JR_C_n(_) | Instruction::JR_NC(_)
            | Instruction::RET | Instruction::RET_Z | Instruction::RET_NZ | Instruction::RET_C
            | Instruction::RET_NC | Instruction::PUSH_AF | Instruction::PUSH_BC
            | Instruction::PUSH_DE | Instruction::PUSH_HL | Instruction::POP_AF
            | Instruction::POP_BC | Instruction::POP_DE | Instruction::POP_HL => Group::Flow,
            Instruction::ADD_A | Instruction::ADD_B | Instruction::ADD_C | Instruction::ADD_D
            | Instruction::ADD_E | Instruction::ADD_H | Instruction::ADD_L | Instruction::ADD_HL_HL
            | Instruction::ADD_n(_) | Instruction::SUB_A | Instruction::SUB_B | Instruction::SUB_C
            | Instruction::SUB_D | Instruction::SUB_E | Instruction::SUB_H | Instruction::SUB_L
            | Instruction::SUB_n(_) | Instruction::ADC_A | Instruction::ADC_B | Instruction::ADC_C
            | Instruction::ADC_D | Instruction::ADC_E | Instruction::ADC_H | Instruction::ADC_L
            | Instruction::ADC_n(_) | Instruction::SBC_A | Instruction::SBC_B | Instruction::SBC_C
            | Instruction::SBC_D | Instruction::SBC_E | Instruction::SBC_H | Instruction::SBC_L
            | Instruction::SBC_n(_) | Instruction::INC_A | Instruction::INC_B | Instruction::INC_C
            | Instruction::INC_D | Instruction::INC_E | Instruction::INC_H | Instruction::INC_L
            | Instruction::INC_BC | Instruction::INC_DE | Instruction::INC_HL | Instruction::INC_MHL
            | Instruction::DEC_A | Instruction::DEC_B | Instruction::DEC_C | Instruction::DEC_D
            | Instruction::DEC_E | Instruction::DEC_H | Instruction::DEC_L | Instruction::DEC_MHL => Group::Arithmetic,
            _ => Group::Logic,
        }
    }

    #[verifier::when_used_as_spec(spec_group)]
    pub fn group(&self) -> (r: Group)
        ensures
            r == self.spec_group(),
    {
        match *self {
            Instruction::LD_A_A | Instruction::LD_A_B | Instruction::LD_A_C | Instruction::LD_A_D
            | Instruction::LD_A_E | Instruction::LD_A_H | Instruction::LD_A_L
            | Instruction::LD_A_n(_) | Instruction::LD_B_A | Instruction::LD_B_B
            | Instruction::LD_B_C | Instruction::LD_B_D | Instruction::LD_B_E | Instruction::LD_B_H
            | Instruction::LD_B_L | Instruction::LD_B_n(_) | Instruction::LD_C_A
            | Instruction::LD_C_B | Instruction::LD_C_C | Instruction::LD_C_D | Instruction::LD_C_E
            | Instruction::LD_C_H | Instruction::LD_C_L | Instruction::LD_D_A | Instruction::LD_D_B
            | Instruction::LD_D_C | Instruction::LD_D_D | Instruction::LD_D_E | Instruction::LD_D_H
            | Instruction::LD_D_L | Instruction::LD_C_n(_) | Instruction::LD_E_A
            | Instruction::LD_E_B | Instruction::LD_E_C | Instruction::LD_E_D | Instruction::LD_E_E
            | Instruction::LD_E_H | Instruction::LD_E_L | Instruction::LD_H_A | Instruction::LD_H_B
            | Instruction::LD_H_C | Instruction::LD_H_D | Instruction::LD_H_E | Instruction::LD_H_H
            | Instruction::LD_H_L | Instruction::LD_H_n(_) | Instruction::LD_L_A
            | Instruction::LD_L_B | Instruction::LD_L_C | Instruction::LD_L_D | Instruction::LD_L_E
            | Instruction::LD_L_H | Instruction::LD_L_L | Instruction::LD_L_n(_)
            | Instruction::LD_BC_nn(_) | Instruction::LD_DE_nn(_) | Instruction::LD_HL_nn(_)
            | Instruction::LD_SP_nn(_) => Group::Load,
            Instruction::LD_A_MDE | Instruction::LD_A_MHL | Instruction::LD_A_Mnn(_)
            | Instruction::LD_B_MHL | Instruction::LD_C_MHL | Instruction::LD_D_MHL
            | Instruction::LD_E_MHL | Instruction::LD_H_MHL | Instruction::LD_L_MHL
            | Instruction::LD_MDE_A | Instruction::LD_MHL_A | Instruction::LD_MHL_B
            | Instruction::LD_MHL_C | Instruction::LD_MHL_D | Instruction::LD_MHL_E
            | Instruction::LD_MHL_H | Instruction::LD_MHL_L | Instruction::LD_Mnn_A(_)
            | Instruction::LD_Mn_A(_) | Instruction::LDI_A_MHL | Instruction::LDI_MHL_A
            | Instruction::LDD_MHL_A | Instruction::LD_A_Mn(_) => Group::Transfer,
            Instruction::NOP | Instruction::EI | Instruction::DI | Instruction::JP_nn(_)
            | Instruction::CALL_NZ_nn(_) | Instruction::CALL_nn(_) | Instruction::JP_HL
            | Instruction::JP_NZ_nn(_) | Instruction::JR_n(_) | Instruction::JR_NZ_n(_)
            | Instruction::JR_Z_n(_) | Instruction::JR_C_n(_) | Instruction::JR_NC(_)
            | Instruction::RET | Instruction::RET_Z | Instruction::RET_NZ | Instruction::RET_C
            | Instruction::RET_NC | Instruction::PUSH_AF | Instruction::PUSH_BC
            | Instruction::PUSH_DE | Instruction::PUSH_HL | Instruction::POP_AF
            | Instruction::POP_BC | Instruction::POP_DE | Instruction::POP_HL => Group::Flow,
            Instruction::ADD_A | Instruction::ADD_B | Instruction::ADD_C | Instruction::ADD_D
            | Instruction::ADD_E | Instruction::ADD_H | Instruction::ADD_L | Instruction::ADD_HL_HL
            | Instruction::ADD_n(_) | Instruction::SUB_A | Instruction::SUB_B | Instruction::SUB_C
            | Instruction::SUB_D | Instruction::SUB_E | Instruction::SUB_H | Instruction::SUB_L
            | Instruction::SUB_n(_) | Instruction::ADC_A | Instruction::ADC_B | Instruction::ADC_C
            | Instruction::ADC_D | Instruction::ADC_E | Instruction::ADC_H | Instruction::ADC_L
            | Instruction::ADC_n(_) | Instruction::SBC_A | Instruction::SBC_B | Instruction::SBC_C
            | Instruction::SBC_D | Instruction::SBC_E | Instruction::SBC_H | Instruction::SBC_L
            | Instruction::SBC_n(_) | Instruction::INC_A | Instruction::INC_B | Instruction::INC_C
            | Instruction::INC_D | Instruction::INC_E | Instruction::INC_H | Instruction::INC_L
            | Instruction::INC_BC | Instruction::INC_DE | Instruction::INC_HL | Instruction::INC_MHL
            | Instruction::DEC_A | Instruction::DEC_B | Instruction::DEC_C | Instruction::DEC_D
            | Instruction::DEC_E | Instruction::DEC_H | Instruction::DEC_L | Instruction::DEC_MHL => Group::Arithmetic,
            _ => Group::Logic,
        }
    }

    /// The machine after the instruction, and the failure of the write that
    /// the cartridge controller rejected, if it rejected one.
    ///
    /// The table is opaque to the verifier until it is revealed.
    #[verifier::opaque]
    pub open spec fn spec_execute<M: Mapper>(self, cpu: Cpu, mem: MemoryModel<M>) -> Outcome<M, ()> {
        match self {
            Instruction::NOP => kept(cpu, mem),
            Instruction::EI => kept(Cpu { interrupts_enabled: true, ..cpu }, mem),
            Instruction::DI => kept(Cpu { interrupts_enabled: false, ..cpu }, mem),
            Instruction::JP_nn(pc) => kept(Cpu { pc, ..cpu }, mem),
            Instruction::LD_A_A => kept(cpu.with_reg(Reg8::A, cpu.a), mem),
            Instruction::LD_A_B => kept(cpu.with_reg(Reg8::A, cpu.b), mem),
            Instruction::LD_A_C => kept(cpu.with_reg(Reg8::A, cpu.c), mem),
            Instruction::LD_A_D => kept(cpu.with_reg(Reg8::A, cpu.d), mem),
            Instruction::LD_A_E => kept(cpu.with_reg(Reg8::A, cpu.e), mem),
            Instruction::LD_A_H => kept(cpu.with_reg(Reg8::A, cpu.h), mem),
            Instruction::LD_A_L => kept(cpu.with_reg(Reg8::A, cpu.l), mem),
            Instruction::LD_A_MDE => kept(cpu.with_reg(Reg8::A, mem.read_u8(cpu.de())), mem),
            Instruction::LD_A_MHL => kept(cpu.with_reg(Reg8::A, mem.read_u8(cpu.hl())), mem),
            Instruction::LD_A_n(value) => kept(cpu.with_reg(Reg8::A, value), mem),
            Instruction::LD_A_Mnn(p) => kept(cpu.with_reg(Reg8::A, mem.read_u8(p)), mem),
            Instruction::LD_B_A => kept(cpu.with_reg(Reg8::B, cpu.a), mem),
            Instruction::LD_B_B => kept(cpu.with_reg(Reg8::B, cpu.b), mem),
            Instruction::LD_B_C => kept(cpu.with_reg(Reg8::B, cpu.c), mem),
            Instruction::LD_B_D => kept(cpu.with_reg(Reg8::B, cpu.d), mem),
            Instruction::LD_B_E => kept(cpu.with_reg(Reg8::B, cpu.e), mem),
            Instruction::LD_B_H => kept(cpu.with_reg(Reg8::B, cpu.h), mem),
            Instruction::LD_B_L => kept(cpu.with_reg(Reg8::B, cpu.l), mem),
            Instruction::LD_B_MHL => kept(cpu.with_reg(Reg8::B, mem.read_u8(cpu.hl())), mem),
            Instruction::LD_B_n(value) => kept(cpu.with_reg(Reg8::B, value), mem),
            Instruction::LD_C_A => kept(cpu.with_reg(Reg8::C, cpu.a), mem),
            Instruction::LD_C_B => kept(cpu.with_reg(Reg8::C, cpu.b), mem),
            Instruction::LD_C_C => kept(cpu.with_reg(Reg8::C, cpu.c), mem),
            Instruction::LD_C_D => kept(cpu.with_reg(Reg8::C, cpu.d), mem),
            Instruction::LD_C_E => kept(cpu.with_reg(Reg8::C, cpu.e), mem),
            Instruction::LD_C_H => kept(cpu.with_reg(Reg8::C, cpu.h), mem),
            Instruction::LD_C_L => kept(cpu.with_reg(Reg8::C, cpu.l), mem),
            Instruction::LD_C_MHL => kept(cpu.with_reg(Reg8::C, mem.read_u8(cpu.hl())), mem),
            Instruction::LD_D_A => kept(cpu.with_reg(Reg8::D, cpu.a), mem),
            Instruction::LD_D_B => kept(cpu.with_reg(Reg8::D, cpu.b), mem),
            Instruction::LD_D_C => kept(cpu.with_reg(Reg8::D, cpu.c), mem),
            Instruction::LD_D_D => kept(cpu.with_reg(Reg8::D, cpu.d), mem),
            Instruction::LD_D_E => kept(cpu.with_reg(Reg8::D, cpu.e), mem),
            Instruction::LD_D_H => kept(cpu.with_reg(Reg8::D, cpu.h), mem),
            Instruction::LD_D_L => kept(cpu.with_reg(Reg8::D, cpu.l), mem),
            Instruction::LD_C_n(value) => kept(cpu.with_reg(Reg8::C, value), mem),
            Instruction::LD_D_MHL => kept(cpu.with_reg(Reg8::D, mem.read_u8(cpu.hl())), mem),
            Instruction::LD_E_A => kept(cpu.with_reg(Reg8::E, cpu.a), mem),
            Instruction::LD_E_B => kept(cpu.with_reg(Reg8::E, cpu.b), mem),
            Instruction::LD_E_C => kept(cpu.with_reg(Reg8::E, cpu.c), mem),
            Instruction::LD_E_D => kept(cpu.with_reg(Reg8::E, cpu.d), mem),
            Instruction::LD_E_E => kept(cpu.with_reg(Reg8::E, cpu.e), mem),
            Instruction::LD_E_H => kept(cpu.with_reg(Reg8::E, cpu.h), mem),
            Instruction::LD_E_L => kept(cpu.with_reg(Reg8::E, cpu.l), mem),
            Instruction::LD_E_MHL => kept(cpu.with_reg(Reg8::E, mem.read_u8(cpu.hl())), mem),
            Instruction::LD_H_A => kept(cpu.with_reg(Reg8::H, cpu.a), mem),
            Instruction::LD_H_B => kept(cpu.with_reg(Reg8::H, cpu.b), mem),
            Instruction::LD_H_C => kept(cpu.with_reg(Reg8::H, cpu.c), mem),
            Instruction::LD_H_D => kept(cpu.with_reg(Reg8::H, cpu.d), mem),
            Instruction::LD_H_E => kept(cpu.with_reg(Reg8::H, cpu.e), mem),
            Instruction::LD_H_H => kept(cpu.with_reg(Reg8::H, cpu.h), mem),
            Instruction::LD_H_L => kept(cpu.with_reg(Reg8::H, cpu.l), mem),
            Instruction::LD_H_MHL => kept(cpu.with_reg(Reg8::H, mem.read_u8(cpu.hl())), mem),
            Instruction::LD_H_n(value) => kept(cpu.with_reg(Reg8::H, value), mem),
            Instruction::LD_L_A => kept(cpu.with_reg(Reg8::L, cpu.a), mem),
            Instruction::LD_L_B => kept(cpu.with_reg(Reg8::L, cpu.b), mem),
            Instruction::LD_L_C => kept(cpu.with_reg(Reg8::L, cpu.c), mem),
            Instruction::LD_L_D => kept(cpu.with_reg(Reg8::L, cpu.d), mem),
            Instruction::LD_L_E => kept(cpu.with_reg(Reg8::L, cpu.e), mem),
            Instruction::LD_L_H => kept(cpu.with_reg(Reg8::L, cpu.h), mem),
            Instruction::LD_L_L => kept(cpu.with_reg(Reg8::L, cpu.l), mem),
            Instruction::LD_L_MHL => kept(cpu.with_reg(Reg8::L, mem.read_u8(cpu.hl())), mem),
            Instruction::LD_L_n(value) => kept(cpu.with_reg(Reg8::L, value), mem),
            Instruction::LD_BC_nn(value) => kept(cpu.with_bc(value), mem),
            Instruction::LD_DE_nn(value) => kept(cpu.with_de(value), mem),
            Instruction::LD_HL_nn(value) => kept(cpu.with_hl(value), mem),
            Instruction::LD_SP_nn(value) => kept(Cpu { sp: value, ..cpu }, mem),
            Instruction::LD_MDE_A => store(cpu, mem, cpu.de(), cpu.a),
            Instruction::LD_MHL_A => store(cpu, mem, cpu.hl(), cpu.a),
            Instruction::LD_MHL_B => store(cpu, mem, cpu.hl(), cpu.b),
            Instruction::LD_MHL_C => store(cpu, mem, cpu.hl(), cpu.c),
            Instruction::LD_MHL_D => store(cpu, mem, cpu.hl(), cpu.d),
            Instruction::LD_MHL_E => store(cpu, mem, cpu.hl(), cpu.e),
            Instruction::LD_MHL_H => store(cpu, mem, cpu.hl(), cpu.h),
            Instruction::LD_MHL_L => store(cpu, mem, cpu.hl(), cpu.l),
            Instruction::LD_Mnn_A(p) => store(cpu, mem, p, cpu.a),
            Instruction::LD_Mn_A(p) => store(cpu, mem, high_page(p), cpu.a),
            Instruction::LDI_A_MHL => kept(cpu.with_reg(Reg8::A, mem.read_u8(cpu.hl())).with_hl(wrap16(cpu.hl(), 1)), mem),
            Instruction::LDI_MHL_A => store_then(cpu, mem, cpu.hl(), cpu.a, cpu.with_hl(wrap16(cpu.hl(), 1))),
            Instruction::LDD_MHL_A => store_then(cpu, mem, cpu.hl(), cpu.a, cpu.with_hl(wrap16(cpu.hl(), -1))),
            Instruction::LD_A_Mn(offset) => kept(cpu.with_reg(Reg8::A, mem.read_u8(high_page(offset))), mem),
            Instruction::CALL_NZ_nn(addr) => if !cpu.flag_z() { cpu.spec_call(mem, addr) } else { kept(cpu, mem) },
            Instruction::CALL_nn(addr) => cpu.spec_call(mem, addr),
            Instruction::JP_HL => kept(Cpu { pc: cpu.hl(), ..cpu }, mem),
            Instruction::JP_NZ_nn(addr) => kept(if !cpu.flag_z() { Cpu { pc: addr, ..cpu } } else { cpu }, mem),
            Instruction::JR_n(offset) => kept(cpu.spec_jump_routine(offset), mem),
            Instruction::JR_NZ_n(offset) => kept(if !cpu.flag_z() { cpu.spec_jump_routine(offset) } else { cpu }, mem),
            Instruction::JR_Z_n(offset) => kept(if cpu.flag_z() { cpu.spec_jump_routine(offset) } else { cpu }, mem),
            Instruction::JR_C_n(offset) => kept(if cpu.flag_c() { cpu.spec_jump_routine(offset) } else { cpu }, mem),
            Instruction::JR_NC(offset) => kept(if !cpu.flag_c() { cpu.spec_jump_routine(offset) } else { cpu }, mem),
            Instruction::RET => kept(cpu.spec_ret(mem), mem),
            Instruction::RET_Z => kept(if cpu.flag_z() { cpu.spec_ret(mem) } else { cpu }, mem),
            Instruction::RET_NZ => kept(if !cpu.flag_z() { cpu.spec_ret(mem) } else { cpu }, mem),
            Instruction::RET_C => kept(if cpu.flag_c() { cpu.spec_ret(mem) } else { cpu }, mem),
            Instruction::RET_NC => kept(if !cpu.flag_c() { cpu.spec_ret(mem) } else { cpu }, mem),
            Instruction::PUSH_AF => cpu.spec_push_u16(mem, cpu.af()),
            Instruction::PUSH_BC => cpu.spec_push_u16(mem, cpu.bc()),
            Instruction::PUSH_DE => cpu.spec_push_u16(mem, cpu.de()),
            Instruction::PUSH_HL => cpu.spec_push_u16(mem, cpu.hl()),
            Instruction::POP_AF => kept(cpu.spec_pop_u16().with_af(mem.read_u16(cpu.sp)), mem),
            Instruction::POP_BC => kept(cpu.spec_pop_u16().with_bc(mem.read_u16(cpu.sp)), mem),
            Instruction::POP_DE => kept(cpu.spec_pop_u16().with_de(mem.read_u16(cpu.sp)), mem),
            Instruction::POP_HL => kept(cpu.spec_pop_u16().with_hl(mem.read_u16(cpu.sp)), mem),
            Instruction::ADD_A => kept(cpu.spec_add(cpu.a), mem),
            Instruction::ADD_B => kept(cpu.spec_add(cpu.b), mem),
            Instruction::ADD_C => kept(cpu.spec_add(cpu.c), mem),
            Instruction::ADD_D => kept(cpu.spec_add(cpu.d), mem),
            Instruction::ADD_E => kept(cpu.spec_add(cpu.e), mem),
            Instruction::ADD_H => kept(cpu.spec_add(cpu.h), mem),
            Instruction::ADD_L => kept(cpu.spec_add(cpu.l), mem),
            Instruction::ADD_HL_HL => kept(cpu.spec_add_hl(cpu.hl()), mem),
            Instruction::ADD_n(amount) => kept(cpu.spec_add(amount), mem),
            Instruction::SUB_A => kept(cpu.spec_sub(cpu.a), mem),
            Instruction::SUB_B => kept(cpu.spec_sub(cpu.b), mem),
            Instruction::SUB_C => kept(cpu.spec_sub(cpu.c), mem),
            Instruction::SUB_D => kept(cpu.spec_sub(cpu.d), mem),
            Instruction::SUB_E => kept(cpu.spec_sub(cpu.e), mem),
            Instruction::SUB_H => kept(cpu.spec_sub(cpu.h), mem),
            Instruction::SUB_L => kept(cpu.spec_sub(cpu.l), mem),
            Instruction::SUB_n(amount) => kept(cpu.spec_sub(amount), mem),
            Instruction::ADC_A => kept(cpu.spec_add_carry(cpu.a), mem),
            Instruction::ADC_B => kept(cpu.spec_add_carry(cpu.b), mem),
            Instruction::ADC_C => kept(cpu.spec_add_carry(cpu.c), mem),
            Instruction::ADC_D => kept(cpu.spec_add_carry(cpu.d), mem),
            Instruction::ADC_E => kept(cpu.spec_add_carry(cpu.e), mem),
            Instruction::ADC_H => kept(cpu.spec_add_carry(cpu.h), mem),
            Instruction::ADC_L => kept(cpu.spec_add_carry(cpu.l), mem),
            Instruction::ADC_n(amount) => kept(cpu.spec_add_carry(amount), mem),
            Instruction::SBC_A => kept(cpu.spec_sub_carry(cpu.a), mem),
            Instruction::SBC_B => kept(cpu.spec_sub_carry(cpu.b), mem),
            Instruction::SBC_C => kept(cpu.spec_sub_carry(cpu.c), mem),
            Instruction::SBC_D => kept(cpu.spec_sub_carry(cpu.d), mem),
            Instruction::SBC_E => kept(cpu.spec_sub_carry(cpu.e), mem),
            Instruction::SBC_H => kept(cpu.spec_sub_carry(cpu.h), mem),
            Instruction::SBC_L => kept(cpu.spec_sub_carry(cpu.l), mem),
            Instruction::SBC_n(amount) => kept(cpu.spec_sub_carry(amount), mem),
            Instruction::INC_A => kept(cpu.spec_increment(Reg8::A), mem),
            Instruction::INC_B => kept(cpu.spec_increment(Reg8::B), mem),
            Instruction::INC_C => kept(cpu.spec_increment(Reg8::C), mem),
            Instruction::INC_D => kept(cpu.spec_increment(Reg8::D), mem),
            Instruction::INC_E => kept(cpu.spec_increment(Reg8::E), mem),
            Instruction::INC_H => kept(cpu.spec_increment(Reg8::H), mem),
            Instruction::INC_L => kept(cpu.spec_increment(Reg8::L), mem),
            Instruction::INC_BC => kept(cpu.with_bc(wrap16(cpu.bc(), 1)), mem),
            Instruction::INC_DE => kept(cpu.with_de(wrap16(cpu.de(), 1)), mem),
            Instruction::INC_HL => kept(cpu.with_hl(wrap16(cpu.hl(), 1)), mem),
            Instruction::INC_MHL => cpu.spec_increment_mhl(mem),
            Instruction::DEC_A => kept(cpu.spec_decrement(Reg8::A), mem),
            Instruction::DEC_B => kept(cpu.spec_decrement(Reg8::B), mem),
            Instruction::DEC_C => kept(cpu.spec_decrement(Reg8::C), mem),
            Instruction::DEC_D => kept(cpu.spec_decrement(Reg8::D), mem),
            Instruction::DEC_E => kept(cpu.spec_decrement(Reg8::E), mem),
            Instruction::DEC_H => kept(cpu.spec_decrement(Reg8::H), mem),
            Instruction::DEC_L => kept(cpu.spec_decrement(Reg8::L), mem),
            Instruction::DEC_MHL => cpu.spec_decrement_mhl(mem),
            Instruction::OR_A => kept(cpu.spec_or(cpu.a), mem),
            Instruction::OR_B => kept(cpu.spec_or(cpu.b), mem),
            Instruction::OR_C => kept(cpu.spec_or(cpu.c), mem),
            Instruction::OR_D => kept(cpu.spec_or(cpu.d), mem),
            Instruction::OR_E => kept(cpu.spec_or(cpu.e), mem),
            Instruction::OR_H => kept(cpu.spec_or(cpu.h), mem),
            Instruction::OR_L => kept(cpu.spec_or(cpu.l), mem),
            Instruction::OR_MHL => kept(cpu.spec_or(mem.read_u8(cpu.hl())), mem),
            Instruction::AND_A => kept(cpu.spec_and(cpu.a), mem),
            Instruction::AND_B => kept(cpu.spec_and(cpu.b), mem),
            Instruction::AND_C => kept(cpu.spec_and(cpu.c), mem),
            Instruction::AND_D => kept(cpu.spec_and(cpu.d), mem),
            Instruction::AND_E => kept(cpu.spec_and(cpu.e), mem),
            Instruction::AND_H => kept(cpu.spec_and(cpu.h), mem),
            Instruction::AND_L => kept(cpu.spec_and(cpu.l), mem),
            Instruction::AND_n(value) => kept(cpu.spec_and(value), mem),
            Instruction::XOR_MHL => kept(cpu.spec_xor(mem.read_u8(cpu.hl())), mem),
            Instruction::XOR_A => kept(cpu.spec_xor(cpu.a), mem),
            Instruction::XOR_B => kept(cpu.spec_xor(cpu.b), mem),
            Instruction::XOR_C => kept(cpu.spec_xor(cpu.c), mem),
            Instruction::XOR_D => kept(cpu.spec_xor(cpu.d), mem),
            Instruction::XOR_E => kept(cpu.spec_xor(cpu.e), mem),
            Instruction::XOR_H => kept(cpu.spec_xor(cpu.h), mem),
            Instruction::XOR_L => kept(cpu.spec_xor(cpu.l), mem),
            Instruction::XOR_n(value) => kept(cpu.spec_xor(value), mem),
            Instruction::CP_A => kept(cpu.spec_compare(cpu.a), mem),
            Instruction::CP_B => kept(cpu.spec_compare(cpu.b), mem),
            Instruction::CP_C => kept(cpu.spec_compare(cpu.c), mem),
            Instruction::CP_D => kept(cpu.spec_compare(cpu.d), mem),
            Instruction::CP_E => kept(cpu.spec_compare(cpu.e), mem),
            Instruction::CP_H => kept(cpu.spec_compare(cpu.h), mem),
            Instruction::CP_L => kept(cpu.spec_compare(cpu.l), mem),
            Instruction::CP_n(value) => kept(cpu.spec_compare(value), mem),
            Instruction::CPL => kept(cpu.spec_complement(), mem),
            Instruction::RLC_A => kept(cpu.spec_rotate_left_carry(Reg8::A), mem),
            Instruction::RL_A => kept(cpu.spec_rotate_left_a(), mem),
            Instruction::RRC_A => kept(cpu.spec_rotate_right_carry(Reg8::A), mem),
            Instruction::RR_A => kept(cpu.spec_rotate_right(Reg8::A), mem),
            Instruction::SCF => kept(cpu.spec_set_carry_flag(), mem),
            Instruction::CCF => kept(cpu.spec_complement_carry_flag(), mem),
            Instruction::Extended(instr) => kept(instr.spec_execute(cpu), mem),
        }
    }

    /// Executes the instruction on the registers `cpu` and the address space
    /// `mem`. Fails only where the cartridge controller rejects a write.
    pub fn execute<M: Mapper>(&self, cpu: &mut Cpu, mem: &mut Memory<M>) -> (r: Result<(), Error>)
        ensures
            self.spec_execute(*old(cpu), old(mem)@) == (Outcome { cpu: *final(cpu), mem: final(mem)@, result: r }),
    {
        match self.group() {
            Group::Load => self.execute_load(cpu, mem),
            Group::Transfer => self.execute_transfer(cpu, mem),
            Group::Flow => self.execute_flow(cpu, mem),
            Group::Arithmetic => self.execute_arithmetic(cpu, mem),
            Group::Logic => self.execute_logic(cpu, mem),
        }
    }

    fn execute_load<M: Mapper>(&self, cpu: &mut Cpu, mem: &mut Memory<M>) -> (r: Result<(), Error>)
        requires
            self.group() == Group::Load,
        ensures
            self.spec_execute(*old(cpu), old(mem)@) == (Outcome { cpu: *final(cpu), mem: final(mem)@, result: r }),
    {
        reveal(Instruction::spec_execute);
        match *self {
            Instruction::LD_A_A => {
                cpu.load(Reg8::A, Reg8::A);
                Ok(())
            },
            Instruction::LD_A_B => {
                cpu.load(Reg8::A, Reg8::B);
                Ok(())
            },
            Instruction::LD_A_C => {
                cpu.load(Reg8::A, Reg8::C);
                Ok(())
            },
            Instruction::LD_A_D => {
                cpu.load(Reg8::A, Reg8::D);
                Ok(())
            },
            Instruction::LD_A_E => {
                cpu.load(Reg8::A, Reg8::E);
                Ok(())
            },
            Instruction::LD_A_H => {
                cpu.load(Reg8::A, Reg8::H);
                Ok(())
            },
            Instruction::LD_A_L => {
                cpu.load(Reg8::A, Reg8::L);
                Ok(())
            },
            Instruction::LD_A_n(value) => {
                cpu.set_a(value);
                Ok(())
            },
            Instruction::LD_B_A => {
                cpu.load(Reg8::B, Reg8::A);
                Ok(())
            },
            Instruction::LD_B_B => {
                cpu.load(Reg8::B, Reg8::B);
                Ok(())
            },
            Instruction::LD_B_C => {
                cpu.load(Reg8::B, Reg8::C);
                Ok(())
            },
            Instruction::LD_B_D => {
                cpu.load(Reg8::B, Reg8::D);
                Ok(())
            },
            Instruction::LD_B_E => {
                cpu.load(Reg8::B, Reg8::E);
                Ok(())
            },
            Instruction::LD_B_H => {
                cpu.load(Reg8::B, Reg8::H);
                Ok(())
            },
            Instruction::LD_B_L => {
                cpu.load(Reg8::B, Reg8::L);
                Ok(())
            },
            Instruction::LD_B_n(value) => {
                cpu.set_b(value);
                Ok(())
            },
            Instruction::LD_C_A => {
                cpu.load(Reg8::C, Reg8::A);
                Ok(())
            },
            Instruction::LD_C_B => {
                cpu.load(Reg8::C, Reg8::B);
                Ok(())
            },
            Instruction::LD_C_C => {
                cpu.load(Reg8::C, Reg8::C);
                Ok(())
            },
            Instruction::LD_C_D => {
                cpu.load(Reg8::C, Reg8::D);
                Ok(())
            },
            Instruction::LD_C_E => {
                cpu.load(Reg8::C, Reg8::E);
                Ok(())
            },
            Instruction::LD_C_H => {
                cpu.load(Reg8::C, Reg8::H);
                Ok(())
            },
            Instruction::LD_C_L => {
                cpu.load(Reg8::C, Reg8::L);
                Ok(())
            },
            Instruction::LD_D_A => {
                cpu.load(Reg8::D, Reg8::A);
                Ok(())
            },
            Instruction::LD_D_B => {
                cpu.load(Reg8::D, Reg8::B);
                Ok(())
            },
            Instruction::LD_D_C => {
                cpu.load(Reg8::D, Reg8::C);
                Ok(())
            },
            Instruction::LD_D_D => {
                cpu.load(Reg8::D, Reg8::D);
                Ok(())
            },
            Instruction::LD_D_E => {
                cpu.load(Reg8::D, Reg8::E);
                Ok(())
            },
            Instruction::LD_D_H => {
                cpu.load(Reg8::D, Reg8::H);
                Ok(())
            },
            Instruction::LD_D_L => {
                cpu.load(Reg8::D, Reg8::L);
                Ok(())
            },
            Instruction::LD_C_n(value) => {
                cpu.set_c(value);
                Ok(())
            },
            Instruction::LD_E_A => {
                cpu.load(Reg8::E, Reg8::A);
                Ok(())
            },
            Instruction::LD_E_B => {
                cpu.load(Reg8::E, Reg8::B);
                Ok(())
            },
            Instruction::LD_E_C => {
                cpu.load(Reg8::E, Reg8::C);
                Ok(())
            },
            Instruction::LD_E_D => {
                cpu.load(Reg8::E, Reg8::D);
                Ok(())
            },
            Instruction::LD_E_E => {
                cpu.load(Reg8::E, Reg8::E);
                Ok(())
            },
            Instruction::LD_E_H => {
                cpu.load(Reg8::E, Reg8::H);
                Ok(())
            },
            Instruction::LD_E_L => {
                cpu.load(Reg8::E, Reg8::L);
                Ok(())
            },
            Instruction::LD_H_A => {
                cpu.load(Reg8::H, Reg8::A);
                Ok(())
            },
            Instruction::LD_H_B => {
                cpu.load(Reg8::H, Reg8::B);
                Ok(())
            },
            Instruction::LD_H_C => {
                cpu.load(Reg8::H, Reg8::C);
                Ok(())
            },
            Instruction::LD_H_D => {
                cpu.load(Reg8::H, Reg8::D);
                Ok(())
            },
            Instruction::LD_H_E => {
                cpu.load(Reg8::H, Reg8::E);
                Ok(())
            },
            Instruction::LD_H_H => {
                cpu.load(Reg8::H, Reg8::H);
                Ok(())
            },
            Instruction::LD_H_L => {
                cpu.load(Reg8::H, Reg8::L);
                Ok(())
            },
            Instruction::LD_H_n(value) => {
                cpu.set_h(value);
                Ok(())
            },
            Instruction::LD_L_A => {
                cpu.load(Reg8::L, Reg8::A);
                Ok(())
            },
            Instruction::LD_L_B => {
                cpu.load(Reg8::L, Reg8::B);
                Ok(())
            },
            Instruction::LD_L_C => {
                cpu.load(Reg8::L, Reg8::C);
                Ok(())
            },
            Instruction::LD_L_D => {
                cpu.load(Reg8::L, Reg8::D);
                Ok(())
            },
            Instruction::LD_L_E => {
                cpu.load(Reg8::L, Reg8::E);
                Ok(())
            },
            Instruction::LD_L_H => {
                cpu.load(Reg8::L, Reg8::H);
                Ok(())
            },
            Instruction::LD_L_L => {
                cpu.load(Reg8::L, Reg8::L);
                Ok(())
            },
            Instruction::LD_L_n(value) => {
                cpu.set_l(value);
                Ok(())
            },
            Instruction::LD_BC_nn(value) => {
                cpu.set_bc(value);
                Ok(())
            },
            Instruction::LD_DE_nn(value) => {
                cpu.set_de(value);
                Ok(())
            },
            Instruction::LD_HL_nn(value) => {
                cpu.set_hl(value);
                Ok(())
            },
            Instruction::LD_SP_nn(value) => {
                cpu.set_sp(value);
                Ok(())
            },
            _ => Ok(()),
        }
    }

    fn execute_transfer<M: Mapper>(&self, cpu: &mut Cpu, mem: &mut Memory<M>) -> (r: Result<(), Error>)
        requires
            self.group() == Group::Transfer,
        ensures
            self.spec_execute(*old(cpu), old(mem)@) == (Outcome { cpu: *final(cpu), mem: final(mem)@, result: r }),
    {
        reveal(Instruction::spec_execute);
        match *self {
            Instruction::LD_A_MDE => {
                let value = mem.read_u8(Addr(cpu.de()));
                cpu.set_a(value);
                Ok(())
            },
            Instruction::LD_A_MHL => {
                let value = mem.read_u8(Addr(cpu.hl()));
                cpu.set_a(value);
                Ok(())
            },
            Instruction::LD_A_Mnn(p) => {
                let value = mem.read_u8(Addr(p));
                cpu.set_a(value);
                Ok(())
            },
            Instruction::LD_B_MHL => {
                let value = mem.read_u8(Addr(cpu.hl()));
                cpu.set_b(value);
                Ok(())
            },
            Instruction::LD_C_MHL => {
                let value = mem.read_u8(Addr(cpu.hl()));
                cpu.set_c(value);
                Ok(())
            },
            Instruction::LD_D_MHL => {
                let value = mem.read_u8(Addr(cpu.hl()));
                cpu.set_d(value);
                Ok(())
            },
            Instruction::LD_E_MHL => {
                let value = mem.read_u8(Addr(cpu.hl()));
                cpu.set_e(value);
                Ok(())
            },
            Instruction::LD_H_MHL => {
                let value = mem.read_u8(Addr(cpu.hl()));
                cpu.set_h(value);
                Ok(())
            },
            Instruction::LD_L_MHL => {
                let value = mem.read_u8(Addr(cpu.hl()));
                cpu.set_l(value);
                Ok(())
            },
            Instruction::LD_MDE_A => mem.write_u8(Addr(cpu.de()), cpu.a()),
            Instruction::LD_MHL_A => mem.write_u8(Addr(cpu.hl()), cpu.a()),
            Instruction::LD_MHL_B => mem.write_u8(Addr(cpu.hl()), cpu.b()),
            Instruction::LD_MHL_C => mem.write_u8(Addr(cpu.hl()), cpu.c()),
            Instruction::LD_MHL_D => mem.write_u8(Addr(cpu.hl()), cpu.d()),
            Instruction::LD_MHL_E => mem.write_u8(Addr(cpu.hl()), cpu.e()),
            Instruction::LD_MHL_H => mem.write_u8(Addr(cpu.hl()), cpu.h()),
            Instruction::LD_MHL_L => mem.write_u8(Addr(cpu.hl()), cpu.l()),
            Instruction::LD_Mnn_A(p) => mem.write_u8(Addr(p), cpu.a()),
            Instruction::LD_Mn_A(p) => mem.write_u8(Addr(0xFF00 + p as u16), cpu.a()),
            Instruction::LDI_A_MHL => {
                let value = mem.read_u8(Addr(cpu.hl()));
                cpu.set_a(value);
                cpu.increment_hl_without_affecting_flags();
                Ok(())
            },
            Instruction::LDI_MHL_A => {
                mem.write_u8(Addr(cpu.hl()), cpu.a())?;
                cpu.increment_hl_without_affecting_flags();
                Ok(())
            },
            Instruction::LDD_MHL_A => {
                mem.write_u8(Addr(cpu.hl()), cpu.a())?;
                cpu.decrement_hl_without_affecting_flags();
                Ok(())
            },
            Instruction::LD_A_Mn(offset) => {
                let value = mem.read_u8(Addr(0xFF00 + offset as u16));
                cpu.set_a(value);
                Ok(())
            },
            _ => Ok(()),
        }
    }

    fn execute_flow<M: Mapper>(&self, cpu: &mut Cpu, mem: &mut Memory<M>) -> (r: Result<(), Error>)
        requires
            self.group() == Group::Flow,
        ensures
            self.spec_execute(*old(cpu), old(mem)@) == (Outcome { cpu: *final(cpu), mem: final(mem)@, result: r }),
    {
        reveal(Instruction::spec_execute);
        match *self {
            Instruction::NOP => Ok(()),
            Instruction::EI => {
                cpu.enable_interrupts();
                Ok(())
            },
            Instruction::DI => {
                cpu.disable_interrupts();
                Ok(())
            },
            Instruction::JP_nn(pc) => {
                cpu.set_pc(pc);
                Ok(())
            },
            Instruction::CALL_NZ_nn(addr) => {
                if !cpu.flag_z() {
                    cpu.call(mem, addr)
                } else {
                    Ok(())
                }
            },
            Instruction::CALL_nn(addr) => cpu.call(mem, addr),
            Instruction::JP_HL => {
                let hl = cpu.hl();
                cpu.set_pc(hl);
                Ok(())
            },
            Instruction::JP_NZ_nn(addr) => {
                if !cpu.flag_z() {
                    cpu.set_pc(addr);
                }
                Ok(())
            },
            Instruction::JR_n(offset) => {
                cpu.jump_routine(offset);
                Ok(())
            },
            Instruction::JR_NZ_n(offset) => {
                if !cpu.flag_z() {
                    cpu.jump_routine(offset);
                }
                Ok(())
            },
            Instruction::JR_Z_n(offset) => {
                if cpu.flag_z() {
                    cpu.jump_routine(offset);
                }
                Ok(())
            },
            Instruction::JR_C_n(offset) => {
                if cpu.flag_c() {
                    cpu.jump_routine(offset);
                }
                Ok(())
            },
            Instruction::JR_NC(offset) => {
                if !cpu.flag_c() {
                    cpu.jump_routine(offset);
                }
                Ok(())
            },
            Instruction::RET => {
                cpu.ret(mem);
                Ok(())
            },
            Instruction::RET_Z => {
                if cpu.flag_z() {
                    cpu.ret(mem);
                }
                Ok(())
            },
            Instruction::RET_NZ => {
                if !cpu.flag_z() {
                    cpu.ret(mem);
                }
                Ok(())
            },
            Instruction::RET_C => {
                if cpu.flag_c() {
                    cpu.ret(mem);
                }
                Ok(())
            },
            Instruction::RET_NC => {
                if !cpu.flag_c() {
                    cpu.ret(mem);
                }
                Ok(())
            },
            Instruction::PUSH_AF => {
                let value = cpu.af();
                cpu.push_u16(mem, value)
            },
            Instruction::PUSH_BC => {
                let value = cpu.bc();
                cpu.push_u16(mem, value)
            },
            Instruction::PUSH_DE => {
                let value = cpu.de();
                cpu.push_u16(mem, value)
            },
            Instruction::PUSH_HL => {
                let value = cpu.hl();
                cpu.push_u16(mem, value)
            },
            Instruction::POP_AF => {
                let value = cpu.pop_u16(mem);
                cpu.set_af(value);
                Ok(())
            },
            Instruction::POP_BC => {
                let value = cpu.pop_u16(mem);
                cpu.set_bc(value);
                Ok(())
            },
            Instruction::POP_DE => {
                let value = cpu.pop_u16(mem);
                cpu.set_de(value);
                Ok(())
            },
            Instruction::POP_HL => {
                let value = cpu.pop_u16(mem);
                cpu.set_hl(value);
                Ok(())
            },
            _ => Ok(()),
        }
    }

    fn execute_arithmetic<M: Mapper>(&self, cpu: &mut Cpu, mem: &mut Memory<M>) -> (r: Result<(), Error>)
        requires
            self.group() == Group::Arithmetic,
        ensures
            self.spec_execute(*old(cpu), old(mem)@) == (Outcome { cpu: *final(cpu), mem: final(mem)@, result: r }),
    {
        reveal(Instruction::spec_execute);
        match *self {
            Instruction::ADD_A => {
                let value = cpu.a();
                cpu.add(value);
                Ok(())
            },
            Instruction::ADD_B => {
                let value = cpu.b();
                cpu.add(value);
                Ok(())
            },
            Instruction::ADD_C => {
                let value = cpu.c();
                cpu.add(value);
                Ok(())
            },
            Instruction::ADD_D => {
                let value = cpu.d();
                cpu.add(value);
                Ok(())
            },
            Instruction::ADD_E => {
                let value = cpu.e();
                cpu.add(value);
                Ok(())
            },
            Instruction::ADD_H => {
                let value = cpu.h();
                cpu.add(value);
                Ok(())
            },
            Instruction::ADD_L => {
                let value = cpu.l();
                cpu.add(value);
                Ok(())
            },
            Instruction::ADD_HL_HL => {
                let value = cpu.hl();
                cpu.add_hl(value);
                Ok(())
            },
            Instruction::ADD_n(amount) => {
                cpu.add(amount);
                Ok(())
            },
            Instruction::SUB_A => {
                let value = cpu.a();
                cpu.sub(value);
                Ok(())
            },
            Instruction::SUB_B => {
                let value = cpu.b();
                cpu.sub(value);
                Ok(())
            },
            Instruction::SUB_C => {
                let value = cpu.c();
                cpu.sub(value);
                Ok(())
            },
            Instruction::SUB_D => {
                let value = cpu.d();
                cpu.sub(value);
                Ok(())
            },
            Instruction::SUB_E => {
                let value = cpu.e();
                cpu.sub(value);
                Ok(())
            },
            Instruction::SUB_H => {
                let value = cpu.h();
                cpu.sub(value);
                Ok(())
            },
            Instruction::SUB_L => {
                let value = cpu.l();
                cpu.sub(value);
                Ok(())
            },
            Instruction::SUB_n(amount) => {
                cpu.sub(amount);
                Ok(())
            },
            Instruction::ADC_A => {
                let value = cpu.a();
                cpu.add_carry(value);
                Ok(())
            },
            Instruction::ADC_B => {
                let value = cpu.b();
                cpu.add_carry(value);
                Ok(())
            },
            Instruction::ADC_C => {
                let value = cpu.c();
                cpu.add_carry(value);
                Ok(())
            },
            Instruction::ADC_D => {
                let value = cpu.d();
                cpu.add_carry(value);
                Ok(())
            },
            Instruction::ADC_E => {
                let value = cpu.e();
                cpu.add_carry(value);
                Ok(())
            },
            Instruction::ADC_H => {
                let value = cpu.h();
                cpu.add_carry(value);
                Ok(())
            },
            Instruction::ADC_L => {
                let value = cpu.l();
                cpu.add_carry(value);
                Ok(())
            },
            Instruction::ADC_n(amount) => {
                cpu.add_carry(amount);
                Ok(())
            },
            Instruction::SBC_A => {
                let value = cpu.a();
                cpu.sub_carry(value);
                Ok(())
            },
            Instruction::SBC_B => {
                let value = cpu.b();
                cpu.sub_carry(value);
                Ok(())
            },
            Instruction::SBC_C => {
                let value = cpu.c();
                cpu.sub_carry(value);
                Ok(())
            },
            Instruction::SBC_D => {
                let value = cpu.d();
                cpu.sub_carry(value);
                Ok(())
            },
            Instruction::SBC_E => {
                let value = cpu.e();
                cpu.sub_carry(value);
                Ok(())
            },
            Instruction::SBC_H => {
                let value = cpu.h();
                cpu.sub_carry(value);
                Ok(())
            },
            Instruction::SBC_L => {
                let value = cpu.l();
                cpu.sub_carry(value);
                Ok(())
            },
            Instruction::SBC_n(amount) => {
                cpu.sub_carry(amount);
                Ok(())
            },
            Instruction::INC_A => {
                cpu.increment(Reg8::A);
                Ok(())
            },
            Instruction::INC_B => {
                cpu.increment(Reg8::B);
                Ok(())
            },
            Instruction::INC_C => {
                cpu.increment(Reg8::C);
                Ok(())
            },
            Instruction::INC_D => {
                cpu.increment(Reg8::D);
                Ok(())
            },
            Instruction::INC_E => {
                cpu.increment(Reg8::E);
                Ok(())
            },
            Instruction::INC_H => {
                cpu.increment(Reg8::H);
                Ok(())
            },
            Instruction::INC_L => {
                cpu.increment(Reg8::L);
                Ok(())
            },
            Instruction::INC_BC => {
                cpu.increment_bc();
                Ok(())
            },
            Instruction::INC_DE => {
                cpu.increment_de();
                Ok(())
            },
            Instruction::INC_HL => {
                cpu.increment_hl();
                Ok(())
            },
            Instruction::INC_MHL => cpu.increment_mhl(mem),
            Instruction::DEC_A => {
                cpu.decrement(Reg8::A);
                Ok(())
            },
            Instruction::DEC_B => {
                cpu.decrement(Reg8::B);
                Ok(())
            },
            Instruction::DEC_C => {
                cpu.decrement(Reg8::C);
                Ok(())
            },
            Instruction::DEC_D => {
                cpu.decrement(Reg8::D);
                Ok(())
            },
            Instruction::DEC_E => {
                cpu.decrement(Reg8::E);
                Ok(())
            },
            Instruction::DEC_H => {
                cpu.decrement(Reg8::H);
                Ok(())
            },
            Instruction::DEC_L => {
                cpu.decrement(Reg8::L);
                Ok(())
            },
            Instruction::DEC_MHL => cpu.decrement_mhl(mem),
            _ => Ok(()),
        }
    }

    fn execute_logic<M: Mapper>(&self, cpu: &mut Cpu, mem: &mut Memory<M>) -> (r: Result<(), Error>)
        requires
            self.group() == Group::Logic,
        ensures
            self.spec_execute(*old(cpu), old(mem)@) == (Outcome { cpu: *final(cpu), mem: final(mem)@, result: r }),
    {
        reveal(Instruction::spec_execute);
        match *self {
            Instruction::OR_A => {
                let value = cpu.a();
                cpu.or(value);
                Ok(())
            },
            Instruction::OR_B => {
                let value = cpu.b();
                cpu.or(value);
                Ok(())
            },
            Instruction::OR_C => {
                let value = cpu.c();
                cpu.or(value);
                Ok(())
            },
            Instruction::OR_D => {
                let value = cpu.d();
                cpu.or(value);
                Ok(())
            },
            Instruction::OR_E => {
                let value = cpu.e();
                cpu.or(value);
                Ok(())
            },
            Instruction::OR_H => {
                let value = cpu.h();
                cpu.or(value);
                Ok(())
            },
            Instruction::OR_L => {
                let value = cpu.l();
                cpu.or(value);
                Ok(())
            },
            Instruction::OR_MHL => {
                let value = mem.read_u8(Addr(cpu.hl()));
                cpu.or(value);
                Ok(())
            },
            Instruction::AND_A => {
                let value = cpu.a();
                cpu.and(value);
                Ok(())
            },
            Instruction::AND_B => {
                let value = cpu.b();
                cpu.and(value);
                Ok(())
            },
            Instruction::AND_C => {
                let value = cpu.c();
                cpu.and(value);
                Ok(())
            },
            Instruction::AND_D => {
                let value = cpu.d();
                cpu.and(value);
                Ok(())
            },
            Instruction::AND_E => {
                let value = cpu.e();
                cpu.and(value);
                Ok(())
            },
            Instruction::AND_H => {
                let value = cpu.h();
                cpu.and(value);
                Ok(())
            },
            Instruction::AND_L => {
                let value = cpu.l();
                cpu.and(value);
                Ok(())
            },
            Instruction::AND_n(value) => {
                cpu.and(value);
                Ok(())
            },
            Instruction::XOR_MHL => {
                let value = mem.read_u8(Addr(cpu.hl()));
                cpu.xor(value);
                Ok(())
            },
            Instruction::XOR_A => {
                let value = cpu.a();
                cpu.xor(value);
                Ok(())
            },
            Instruction::XOR_B => {
                let value = cpu.b();
                cpu.xor(value);
                Ok(())
            },
            Instruction::XOR_C => {
                let value = cpu.c();
                cpu.xor(value);
                Ok(())
            },
            Instruction::XOR_D => {
                let value = cpu.d();
                cpu.xor(value);
                Ok(())
            },
            Instruction::XOR_E => {
                let value = cpu.e();
                cpu.xor(value);
                Ok(())
            },
            Instruction::XOR_H => {
                let value = cpu.h();
                cpu.xor(value);
                Ok(())
            },
            Instruction::XOR_L => {
                let value = cpu.l();
                cpu.xor(value);
                Ok(())
            },
            Instruction::XOR_n(value) => {
                cpu.xor(value);
                Ok(())
            },
            Instruction::CP_A => {
                let value = cpu.a();
                cpu.compare(value);
                Ok(())
            },
            Instruction::CP_B => {
                let value = cpu.b();
                cpu.compare(value);
                Ok(())
            },
            Instruction::CP_C => {
                let value = cpu.c();
                cpu.compare(value);
                Ok(())
            },
            Instruction::CP_D => {
                let value = cpu.d();
                cpu.compare(value);
                Ok(())
            },
            Instruction::CP_E => {
                let value = cpu.e();
                cpu.compare(value);
                Ok(())
            },
            Instruction::CP_H => {
                let value = cpu.h();
                cpu.compare(value);
                Ok(())
            },
            Instruction::CP_L => {
                let value = cpu.l();
                cpu.compare(value);
                Ok(())
            },
            Instruction::CP_n(value) => {
                cpu.compare(value);
                Ok(())
            },
            Instruction::CPL => {
                cpu.complement();
                Ok(())
            },
            Instruction::RLC_A => {
                cpu.rotate_left_carry(Reg8::A);
                Ok(())
            },
            Instruction::RL_A => {
                cpu.rotate_left_a();
                Ok(())
            },
            Instruction::RRC_A => {
                cpu.rotate_right_carry(Reg8::A);
                Ok(())
            },
            Instruction::RR_A => {
                cpu.rotate_right_a();
                Ok(())
            },
            Instruction::SCF => {
                cpu.set_carry_flag();
                Ok(())
            },
            Instruction::CCF => {
                cpu.complement_carry_flag();
                Ok(())
            },
            Instruction::Extended(instr) => instr.execute(cpu, mem),
            _ => Ok(()),
        }
    }

}

} // verus!

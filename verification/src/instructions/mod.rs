//! The instruction set: one variant per opcode of the primary table and of
//! the extended table, each with its immediate operand where it has one.

use vstd::prelude::*;

pub mod decode;
pub mod encode;
pub mod execute;

verus! {

/// An instruction of the primary opcode table.
#[allow(non_camel_case_types)]
#[derive(Copy, Clone, Debug, PartialEq, Eq, Structural)]
pub enum Instruction {
    NOP,
    EI,
    DI,
    JP_nn(u16),
    LD_A_A,
    LD_A_B,
    LD_A_C,
    LD_A_D,
    LD_A_E,
    LD_A_H,
    LD_A_L,
    LD_A_MDE,
    LD_A_MHL,
    LD_A_n(u8),
    LD_A_Mnn(u16),
    LD_B_A,
    LD_B_B,
    LD_B_C,
    LD_B_D,
    LD_B_E,
    LD_B_H,
    LD_B_L,
    LD_B_MHL,
    LD_B_n(u8),
    LD_C_A,
    LD_C_B,
    LD_C_C,
    LD_C_D,
    LD_C_E,
    LD_C_H,
    LD_C_L,
    LD_C_MHL,
    LD_D_A,
    LD_D_B,
    LD_D_C,
    LD_D_D,
    LD_D_E,
    LD_D_H,
    LD_D_L,
    LD_C_n(u8),
    LD_D_MHL,
    LD_E_A,
    LD_E_B,
    LD_E_C,
    LD_E_D,
    LD_E_E,
    LD_E_H,
    LD_E_L,
    LD_E_MHL,
    LD_H_A,
    LD_H_B,
    LD_H_C,
    LD_H_D,
    LD_H_E,
    LD_H_H,
    LD_H_L,
    LD_H_MHL,
    LD_H_n(u8),
    LD_L_A,
    LD_L_B,
    LD_L_C,
    LD_L_D,
    LD_L_E,
    LD_L_H,
    LD_L_L,
    LD_L_MHL,
    LD_L_n(u8),
    LD_BC_nn(u16),
    LD_DE_nn(u16),
    LD_HL_nn(u16),
    LD_SP_nn(u16),
    LD_MDE_A,
    LD_MHL_A,
    LD_MHL_B,
    LD_MHL_C,
    LD_MHL_D,
    LD_MHL_E,
    LD_MHL_H,
    LD_MHL_L,
    LD_Mnn_A(u16),
    LD_Mn_A(u8),
    LDI_A_MHL,
    LDI_MHL_A,
    LDD_MHL_A,
    LD_A_Mn(u8),
    CALL_NZ_nn(u16),
    CALL_nn(u16),
    JP_HL,
    JP_NZ_nn(u16),
    JR_n(i8),
    JR_NZ_n(i8),
    JR_Z_n(i8),
    JR_C_n(i8),
    JR_NC(i8),
    RET,
    RET_Z,
    RET_NZ,
    RET_C,
    RET_NC,
    PUSH_AF,
    PUSH_BC,
    PUSH_DE,
    PUSH_HL,
    POP_AF,
    POP_BC,
    POP_DE,
    POP_HL,
    ADD_A,
    ADD_B,
    ADD_C,
    ADD_D,
    ADD_E,
    ADD_H,
    ADD_L,
    ADD_HL_HL,
    ADD_n(u8),
    SUB_A,
    SUB_B,
    SUB_C,
    SUB_D,
    SUB_E,
    SUB_H,
    SUB_L,
    SUB_n(u8),
    ADC_A,
    ADC_B,
    ADC_C,
    ADC_D,
    ADC_E,
    ADC_H,
    ADC_L,
    ADC_n(u8),
    SBC_A,
    SBC_B,
    SBC_C,
    SBC_D,
    SBC_E,
    SBC_H,
    SBC_L,
    SBC_n(u8),
    INC_A,
    INC_B,
    INC_C,
    INC_D,
    INC_E,
    INC_H,
    INC_L,
    INC_BC,
    INC_DE,
    INC_HL,
    INC_MHL,
    DEC_A,
    DEC_B,
    DEC_C,
    DEC_D,
    DEC_E,
    DEC_H,
    DEC_L,
    DEC_MHL,
    OR_A,
    OR_B,
    OR_C,
    OR_D,
    OR_E,
    OR_H,
    OR_L,
    OR_MHL,
    AND_A,
    AND_B,
    AND_C,
    AND_D,
    AND_E,
    AND_H,
    AND_L,
    AND_n(u8),
    XOR_MHL,
    XOR_A,
    XOR_B,
    XOR_C,
    XOR_D,
    XOR_E,
    XOR_H,
    XOR_L,
    XOR_n(u8),
    CP_A,
    CP_B,
    CP_C,
    CP_D,
    CP_E,
    CP_H,
    CP_L,
    CP_n(u8),
    CPL,
    RLC_A,
    RL_A,
    RRC_A,
    RR_A,
    SCF,
    CCF,
    Extended(ExtendedInstruction),
}

/// An instruction of the extended opcode table, which the prefix opcode
/// `0xCB` leads to.
#[allow(non_camel_case_types)]
#[derive(Copy, Clone, Debug, PartialEq, Eq, Structural)]
pub enum ExtendedInstruction {
    RLC_A,
    RLC_B,
    RLC_C,
    RLC_D,
    RLC_E,
    RLC_H,
    RLC_L,
    RRC_A,
    RRC_B,
    RRC_C,
    RRC_D,
    RRC_E,
    RRC_H,
    RRC_L,
    SRL_B,
    RR_C,
    RR_D,
    RR_E,
    SWAP_A,
    SWAP_B,
    SWAP_C,
    SWAP_D,
    SWAP_E,
    SWAP_H,
    SWAP_L,
}

impl Instruction {
    /// The bytes that the instruction takes: the opcode and the immediate
    /// operand; behind the prefix opcode, one more than the extended
    /// instruction.
    pub open spec fn spec_len(&self) -> u16 {
        match self {
            Instruction::Extended(instr) => (1 + instr.len()) as u16,
            Instruction::JP_nn(_) | Instruction::LD_A_Mnn(_) | Instruction::LD_BC_nn(_)
            | Instruction::LD_DE_nn(_) | Instruction::LD_HL_nn(_) | Instruction::LD_SP_nn(_)
            | Instruction::LD_Mnn_A(_) | Instruction::CALL_NZ_nn(_) | Instruction::CALL_nn(_)
            | Instruction::JP_NZ_nn(_) => 3,
            Instruction::LD_A_n(_) | Instruction::LD_B_n(_) | Instruction::LD_C_n(_)
            | Instruction::LD_H_n(_) | Instruction::LD_L_n(_) | Instruction::LD_Mn_A(_)
            | Instruction::LD_A_Mn(_) | Instruction::JR_n(_) | Instruction::JR_NZ_n(_)
            | Instruction::JR_Z_n(_) | Instruction::JR_C_n(_) | Instruction::JR_NC(_)
            | Instruction::ADD_n(_) | Instruction::SUB_n(_) | Instruction::ADC_n(_)
            | Instruction::SBC_n(_) | Instruction::AND_n(_) | Instruction::XOR_n(_)
            | Instruction::CP_n(_) => 2,
            _ => 1,
        }
    }

    /// The machine cycles that the instruction costs; behind the prefix
    /// opcode, one more than the extended instruction.
    pub open spec fn spec_cycles(&self) -> u16 {
        match self {
            Instruction::Extended(instr) => (1 + instr.cycles()) as u16,
            Instruction::LD_A_Mnn(_) | Instruction::LD_Mnn_A(_) | Instruction::PUSH_AF
            | Instruction::PUSH_BC | Instruction::PUSH_DE | Instruction::PUSH_HL => 16,
            Instruction::JP_nn(_) | Instruction::LD_BC_nn(_) | Instruction::LD_DE_nn(_)
            | Instruction::LD_HL_nn(_) | Instruction::LD_SP_nn(_) | Instruction::LD_Mn_A(_)
            | Instruction::LD_A_Mn(_) | Instruction::CALL_NZ_nn(_) | Instruction::CALL_nn(_)
            | Instruction::JP_NZ_nn(_) | Instruction::POP_AF | Instruction::POP_BC
            | Instruction::POP_DE | Instruction::POP_HL | Instruction::INC_MHL
            | Instruction::DEC_MHL => 12,
            Instruction::LD_A_MDE | Instruction::LD_A_MHL | Instruction::LD_A_n(_)
            | Instruction::LD_B_MHL | Instruction::LD_B_n(_) | Instruction::LD_C_MHL
            | Instruction::LD_C_n(_) | Instruction::LD_D_MHL | Instruction::LD_E_MHL
            | Instruction::LD_H_MHL | Instruction::LD_H_n(_) | Instruction::LD_L_MHL
            | Instruction::LD_L_n(_) | Instruction::LD_MDE_A | Instruction::LD_MHL_A
            | Instruction::LD_MHL_B | Instruction::LD_MHL_C | Instruction::LD_MHL_D
            | Instruction::LD_MHL_E | Instruction::LD_MHL_H | Instruction::LD_MHL_L
            | Instruction::LDI_A_MHL | Instruction::LDI_MHL_A | Instruction::LDD_MHL_A
            | Instruction::JR_n(_) | Instruction::JR_NZ_n(_) | Instruction::JR_Z_n(_)
            | Instruction::JR_C_n(_) | Instruction::JR_NC(_) | Instruction::RET | Instruction::RET_Z
            | Instruction::RET_NZ | Instruction::RET_C | Instruction::RET_NC
            | Instruction::ADD_HL_HL | Instruction::ADD_n(_) | Instruction::SUB_n(_)
            | Instruction::ADC_n(_) | Instruction::SBC_n(_) | Instruction::INC_BC
            | Instruction::INC_DE | Instruction::INC_HL | Instruction::OR_MHL
            | Instruction::AND_n(_) | Instruction::XOR_MHL | Instruction::XOR_n(_)
            | Instruction::CP_n(_) => 8,
            _ => 4,
        }
    }

    #[verifier::when_used_as_spec(spec_len)]
    pub fn len(&self) -> (r: u16)
        ensures
            r == self.spec_len(),
            1 <= r <= 3,
    {
        match *self {
            Instruction::Extended(instr) => 1 + instr.len(),
            Instruction::JP_nn(_) | Instruction::LD_A_Mnn(_) | Instruction::LD_BC_nn(_)
            | Instruction::LD_DE_nn(_) | Instruction::LD_HL_nn(_) | Instruction::LD_SP_nn(_)
            | Instruction::LD_Mnn_A(_) | Instruction::CALL_NZ_nn(_) | Instruction::CALL_nn(_)
            | Instruction::JP_NZ_nn(_) => 3,
            Instruction::LD_A_n(_) | Instruction::LD_B_n(_) | Instruction::LD_C_n(_)
            | Instruction::LD_H_n(_) | Instruction::LD_L_n(_) | Instruction::LD_Mn_A(_)
            | Instruction::LD_A_Mn(_) | Instruction::JR_n(_) | Instruction::JR_NZ_n(_)
            | Instruction::JR_Z_n(_) | Instruction::JR_C_n(_) | Instruction::JR_NC(_)
            | Instruction::ADD_n(_) | Instruction::SUB_n(_) | Instruction::ADC_n(_)
            | Instruction::SBC_n(_) | Instruction::AND_n(_) | Instruction::XOR_n(_)
            | Instruction::CP_n(_) => 2,
            _ => 1,
        }
    }

    #[verifier::when_used_as_spec(spec_cycles)]
    pub fn cycles(&self) -> (r: u16)
        ensures
            r == self.spec_cycles(),
            4 <= r <= 16,
    {
        match *self {
            Instruction::Extended(instr) => 1 + instr.cycles(),
            Instruction::LD_A_Mnn(_) | Instruction::LD_Mnn_A(_) | Instruction::PUSH_AF
            | Instruction::PUSH_BC | Instruction::PUSH_DE | Instruction::PUSH_HL => 16,
            Instruction::JP_nn(_) | Instruction::LD_BC_nn(_) | Instruction::LD_DE_nn(_)
            | Instruction::LD_HL_nn(_) | Instruction::LD_SP_nn(_) | Instruction::LD_Mn_A(_)
            | Instruction::LD_A_Mn(_) | Instruction::CALL_NZ_nn(_) | Instruction::CALL_nn(_)
            | Instruction::JP_NZ_nn(_) | Instruction::POP_AF | Instruction::POP_BC
            | Instruction::POP_DE | Instruction::POP_HL | Instruction::INC_MHL
            | Instruction::DEC_MHL => 12,
            Instruction::LD_A_MDE | Instruction::LD_A_MHL | Instruction::LD_A_n(_)
            | Instruction::LD_B_MHL | Instruction::LD_B_n(_) | Instruction::LD_C_MHL
            | Instruction::LD_C_n(_) | Instruction::LD_D_MHL | Instruction::LD_E_MHL
            | Instruction::LD_H_MHL | Instruction::LD_H_n(_) | Instruction::LD_L_MHL
            | Instruction::LD_L_n(_) | Instruction::LD_MDE_A | Instruction::LD_MHL_A
            | Instruction::LD_MHL_B | Instruction::LD_MHL_C | Instruction::LD_MHL_D
            | Instruction::LD_MHL_E | Instruction::LD_MHL_H | Instruction::LD_MHL_L
            | Instruction::LDI_A_MHL | Instruction::LDI_MHL_A | Instruction::LDD_MHL_A
            | Instruction::JR_n(_) | Instruction::JR_NZ_n(_) | Instruction::JR_Z_n(_)
            | Instruction::JR_C_n(_) | Instruction::JR_NC(_) | Instruction::RET | Instruction::RET_Z
            | Instruction::RET_NZ | Instruction::RET_C | Instruction::RET_NC
            | Instruction::ADD_HL_HL | Instruction::ADD_n(_) | Instruction::SUB_n(_)
            | Instruction::ADC_n(_) | Instruction::SBC_n(_) | Instruction::INC_BC
            | Instruction::INC_DE | Instruction::INC_HL | Instruction::OR_MHL
            | Instruction::AND_n(_) | Instruction::XOR_MHL | Instruction::XOR_n(_)
            | Instruction::CP_n(_) => 8,
            _ => 4,
        }
    }
}

impl ExtendedInstruction {
    /// Every extended instruction is its opcode alone.
    pub open spec fn spec_len(&self) -> u16 {
        1
    }

    /// Every extended instruction costs 8 machine cycles.
    pub open spec fn spec_cycles(&self) -> u16 {
        8
    }

    #[verifier::when_used_as_spec(spec_len)]
    pub fn len(&self) -> (r: u16)
        ensures
            r == self.spec_len(),
    {
        1
    }

    #[verifier::when_used_as_spec(spec_cycles)]
    pub fn cycles(&self) -> (r: u16)
        ensures
            r == self.spec_cycles(),
    {
        8
    }
}

} // verus!

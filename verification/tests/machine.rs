use gb_core::cpu::{Cpu, Reg8};
use gb_core::error::Error;
use gb_core::instructions::{ExtendedInstruction, Instruction};
use gb_core::instructions::decode::to_signed;
use gb_core::instructions::execute::Group;
use gb_core::mapper::mbc1::Mbc1;
use gb_core::memory::{Addr, Memory};
use gb_core::rom::Rom;

fn machine(program: &[u8]) -> (Cpu, Memory<Mbc1>) {
    let mut data = vec![0u8; 0x8000];
    data[0x0147] = 0x01;
    data[0x0100..0x0100 + program.len()].copy_from_slice(program);
    (Cpu::new(), Memory::new(Rom { data }).unwrap())
}

fn flags(cpu: &Cpu) -> (bool, bool, bool, bool) {
    (cpu.flag_z(), cpu.flag_n(), cpu.flag_h(), cpu.flag_c())
}

#[test]
fn decode_no_op() {
    let (_, mut mem) = machine(&[0x00]);
    let inst = Instruction::decode(&mem, Addr(0x0100)).unwrap();
    assert_eq!(inst, Instruction::NOP);
    assert_eq!(inst.len(), 1);
    assert_eq!(inst.cycles(), 4);
    // The same at an address in work RAM, in high RAM and in the ROM's padding.
    for addr in [0xC000u16, 0xFF80, 0x0000, 0x7FFF] {
        assert_eq!(mem.write_u8(Addr(addr), 0x00), Ok(()));
        let inst = Instruction::decode(&mem, Addr(addr)).unwrap();
        assert_eq!(inst, Instruction::NOP);
        assert_eq!((inst.len(), inst.cycles()), (1, 4));
    }
}

#[test]
fn decode_call_with_little_endian_operand() {
    let (_, mem) = machine(&[0xCD, 0x34, 0x12]);
    let inst = Instruction::decode(&mem, Addr(0x0100)).unwrap();
    assert_eq!(inst, Instruction::CALL_nn(0x1234));
    assert_eq!(inst.len(), 3);
    assert_eq!(inst.cycles(), 12);
}

#[test]
fn decode_operand_shapes() {
    let (_, mem) = machine(&[0x3E, 0x05, 0x18, 0xFE, 0x20, 0x7F, 0xEA, 0xCD, 0xAB, 0xE0, 0x80]);
    assert_eq!(Instruction::decode(&mem, Addr(0x0100)), Ok(Instruction::LD_A_n(0x05)));
    assert_eq!(Instruction::decode(&mem, Addr(0x0102)), Ok(Instruction::JR_n(-2)));
    assert_eq!(Instruction::decode(&mem, Addr(0x0104)), Ok(Instruction::JR_NZ_n(127)));
    assert_eq!(Instruction::decode(&mem, Addr(0x0106)), Ok(Instruction::LD_Mnn_A(0xABCD)));
    assert_eq!(Instruction::decode(&mem, Addr(0x0109)), Ok(Instruction::LD_Mn_A(0x80)));
    assert_eq!(Instruction::LD_A_n(0x05).len(), 2);
    assert_eq!(Instruction::JR_n(-2).len(), 2);
    assert_eq!(Instruction::LD_Mnn_A(0xABCD).len(), 3);
    assert_eq!(Instruction::LD_Mnn_A(0xABCD).cycles(), 16);
    assert_eq!(Instruction::LD_Mn_A(0x80).cycles(), 12);
    assert_eq!(Instruction::PUSH_BC.cycles(), 16);
    assert_eq!(Instruction::POP_BC.cycles(), 12);
    assert_eq!(Instruction::INC_MHL.cycles(), 12);
    assert_eq!(Instruction::LD_A_MHL.cycles(), 8);
    assert_eq!(Instruction::RET.cycles(), 8);
}

#[test]
fn signed_operand() {
    assert_eq!(to_signed(0x00), 0);
    assert_eq!(to_signed(0x7F), 127);
    assert_eq!(to_signed(0x80), -128);
    assert_eq!(to_signed(0xFF), -1);
}

#[test]
fn decode_operand_wraps_around_the_address_space() {
    let (_, mut mem) = machine(&[]);
    assert_eq!(mem.write_u8(Addr(0xFFFF), 0x3E), Ok(()));
    // The operand of the opcode at the last address is the first byte of the ROM.
    assert_eq!(Instruction::decode(&mem, Addr(0xFFFF)), Ok(Instruction::LD_A_n(0x00)));
}

#[test]
fn decode_extended() {
    let (_, mem) = machine(&[0xCB, 0x19, 0xCB, 0x37]);
    let inst = Instruction::decode(&mem, Addr(0x0100)).unwrap();
    assert_eq!(inst, Instruction::Extended(ExtendedInstruction::RR_C));
    assert_eq!(inst.len(), 2);
    assert_eq!(ExtendedInstruction::RR_C.len(), 1);
    assert_eq!(ExtendedInstruction::RR_C.cycles(), 8);
    assert_eq!(inst.cycles(), 9);
    assert_eq!(
        Instruction::decode(&mem, Addr(0x0102)),
        Ok(Instruction::Extended(ExtendedInstruction::SWAP_A))
    );
    assert_eq!(ExtendedInstruction::decode(&mem, Addr(0x0101)), Ok(ExtendedInstruction::RR_C));
}

#[test]
fn decode_failures_name_address_and_byte() {
    let (_, mem) = machine(&[0xD3, 0xCB, 0xFF]);
    assert_eq!(
        Instruction::decode(&mem, Addr(0x0100)),
        Err(Error::UnknownOpcode { addr: 0x0100, opcode: 0xD3 })
    );
    assert_eq!(
        Instruction::decode(&mem, Addr(0x0101)),
        Err(Error::UnknownExtendedOpcode { addr: 0x0102, opcode: 0xFF })
    );
    assert_eq!(
        ExtendedInstruction::decode(&mem, Addr(0x0102)),
        Err(Error::UnknownExtendedOpcode { addr: 0x0102, opcode: 0xFF })
    );
}

#[test]
fn every_opcode_decodes_to_an_instruction_of_its_length_or_fails() {
    let mut known = 0;
    for opcode in 0..=255u8 {
        let (_, mem) = machine(&[opcode, 0x00, 0x00]);
        match Instruction::decode(&mem, Addr(0x0100)) {
            Ok(inst) => {
                known += 1;
                assert!(inst.len() >= 1 && inst.len() <= 3);
                assert!(inst.cycles() >= 4 && inst.cycles() <= 16);
            }
            Err(e) => assert_eq!(e, Error::UnknownOpcode { addr: 0x0100, opcode }),
        }
    }
    assert_eq!(known, 200);
    let mut known = 0;
    for opcode in 0..=255u8 {
        let (_, mem) = machine(&[0xCB, opcode]);
        if let Ok(inst) = Instruction::decode(&mem, Addr(0x0100)) {
            known += 1;
            assert_eq!((inst.len(), inst.cycles()), (2, 9));
        }
    }
    assert_eq!(known, 25);
}

#[test]
fn decode_leaves_the_machine_alone() {
    let (cpu, mem) = machine(&[0xCD, 0x34, 0x12]);
    let before = cpu;
    let _ = Instruction::decode(&mem, Addr(0x0100));
    assert_eq!(cpu, before);
    assert_eq!(mem.read_u16(Addr(0x0101)), 0x1234);
}

#[test]
fn groups() {
    assert_eq!(Instruction::LD_A_B.group(), Group::Load);
    assert_eq!(Instruction::LD_SP_nn(0).group(), Group::Load);
    assert_eq!(Instruction::LDI_A_MHL.group(), Group::Transfer);
    assert_eq!(Instruction::LD_Mn_A(0).group(), Group::Transfer);
    assert_eq!(Instruction::NOP.group(), Group::Flow);
    assert_eq!(Instruction::POP_AF.group(), Group::Flow);
    assert_eq!(Instruction::ADD_HL_HL.group(), Group::Arithmetic);
    assert_eq!(Instruction::DEC_MHL.group(), Group::Arithmetic);
    assert_eq!(Instruction::CP_n(0).group(), Group::Logic);
    assert_eq!(Instruction::Extended(ExtendedInstruction::SRL_B).group(), Group::Logic);
}

#[test]
fn step_load_immediate() {
    let (mut cpu, mut mem) = machine(&[0x3E, 0x05]);
    assert_eq!(cpu.step(&mut mem), Ok(8));
    assert_eq!(cpu.a(), 5);
    assert_eq!(cpu.pc(), 0x0102);
    assert!(!cpu.is_stalling);
}

#[test]
fn step_decrement_wraps_register_b() {
    let (mut cpu, mut mem) = machine(&[0x06, 0x00, 0x05]);
    assert_eq!(cpu.step(&mut mem), Ok(8));
    assert_eq!(cpu.b(), 0x00);
    assert_eq!(cpu.pc(), 0x0102);
    assert_eq!(cpu.step(&mut mem), Ok(4));
    assert_eq!(cpu.b(), 0xFF);
    assert_eq!(cpu.pc(), 0x0103);
    assert!(!cpu.flag_z());
    assert!(cpu.flag_n());
    assert!(cpu.flag_h());
    // The carry is the one of power-on: a decrement leaves it.
    assert!(cpu.flag_c());
}

#[test]
fn step_extended_rotate_right_through_carry() {
    let (mut cpu, mut mem) = machine(&[0xCB, 0x19]);
    cpu.set_c(0b0000_0010);
    assert!(cpu.flag_c());
    assert_eq!(cpu.step(&mut mem), Ok(1 + ExtendedInstruction::RR_C.cycles()));
    assert_eq!(cpu.pc(), 0x0102);
    assert_eq!(cpu.c(), 0b1000_0001);
    assert_eq!(flags(&cpu), (false, false, false, false));
}

#[test]
fn step_reports_a_decode_failure_and_stays() {
    let (mut cpu, mut mem) = machine(&[0xD3]);
    let before = cpu;
    assert_eq!(cpu.step(&mut mem), Err(Error::UnknownOpcode { addr: 0x0100, opcode: 0xD3 }));
    assert_eq!(cpu, before);
}

#[test]
fn step_reports_a_rejected_write() {
    // LD HL, 0x4000; LD (HL), A
    let (mut cpu, mut mem) = machine(&[0x21, 0x00, 0x40, 0x77]);
    assert_eq!(cpu.step(&mut mem), Ok(12));
    assert_eq!(cpu.hl(), 0x4000);
    assert_eq!(cpu.step(&mut mem), Err(Error::MapperWrite { addr: 0x4000, value: 0x00 }));
    assert_eq!(cpu.pc(), 0x0104);
}

#[test]
fn step_marks_a_jump_to_itself_as_stalling() {
    // JR -2
    let (mut cpu, mut mem) = machine(&[0x18, 0xFE]);
    assert_eq!(cpu.step(&mut mem), Ok(8));
    assert_eq!(cpu.pc(), 0x0100);
    assert!(cpu.is_stalling);
}

#[test]
fn push_and_pop_round_trip() {
    let (mut cpu, mut mem) = machine(&[]);
    assert_eq!(cpu.sp(), 0xFFFE);
    assert_eq!(cpu.push_u16(&mut mem, 0xBEEF), Ok(()));
    assert_eq!(cpu.sp(), 0xFFFC);
    assert_eq!(mem.read_u8(Addr(0xFFFC)), 0xEF);
    assert_eq!(mem.read_u8(Addr(0xFFFD)), 0xBE);
    assert_eq!(cpu.pop_u16(&mem), 0xBEEF);
    assert_eq!(cpu.sp(), 0xFFFE);

    cpu.set_sp(0xD000);
    assert_eq!(cpu.push_u8(&mut mem, 0x42), Ok(()));
    assert_eq!(cpu.sp(), 0xCFFF);
    assert_eq!(cpu.pop_u8(&mem), 0x42);
    assert_eq!(cpu.sp(), 0xD000);

    cpu.set_sp(0x0001);
    assert_eq!(cpu.push_u16(&mut mem, 0x1234), Ok(()));
    assert_eq!(cpu.sp(), 0xFFFF);
    let _ = cpu.pop_u16(&mem);
    assert_eq!(cpu.sp(), 0x0001);
}

#[test]
fn a_stack_outside_storage_does_not_hold_what_is_pushed() {
    let (mut cpu, mut mem) = machine(&[]);
    cpu.set_sp(0x9000);
    assert_eq!(cpu.push_u16(&mut mem, 0x1234), Ok(()));
    assert_eq!(cpu.pop_u16(&mem), 0x0000);
    assert_eq!(cpu.sp(), 0x9000);
}

#[test]
fn call_and_return() {
    // CALL 0xC000, with a RET in work RAM.
    let (mut cpu, mut mem) = machine(&[0xCD, 0x00, 0xC0]);
    assert_eq!(mem.write_u8(Addr(0xC000), 0xC9), Ok(()));
    assert_eq!(cpu.step(&mut mem), Ok(12));
    assert_eq!(cpu.pc(), 0xC000);
    assert_eq!(cpu.sp(), 0xFFFC);
    assert_eq!(mem.read_u16(Addr(0xFFFC)), 0x0103);
    assert_eq!(cpu.step(&mut mem), Ok(8));
    assert_eq!(cpu.pc(), 0x0103);
    assert_eq!(cpu.sp(), 0xFFFE);
}

#[test]
fn conditional_control_transfer() {
    let (mut cpu, mut mem) = machine(&[]);
    cpu.set_flags(true, false, false, false);
    cpu.set_pc(0x0200);
    assert_eq!(Instruction::JP_NZ_nn(0x1234).execute(&mut cpu, &mut mem), Ok(()));
    assert_eq!(cpu.pc(), 0x0200);
    assert_eq!(Instruction::JR_NZ_n(4).execute(&mut cpu, &mut mem), Ok(()));
    assert_eq!(cpu.pc(), 0x0200);
    assert_eq!(Instruction::JR_Z_n(4).execute(&mut cpu, &mut mem), Ok(()));
    assert_eq!(cpu.pc(), 0x0204);
    assert_eq!(Instruction::JR_C_n(4).execute(&mut cpu, &mut mem), Ok(()));
    assert_eq!(cpu.pc(), 0x0204);
    assert_eq!(Instruction::JR_NC(-4).execute(&mut cpu, &mut mem), Ok(()));
    assert_eq!(cpu.pc(), 0x0200);
    assert_eq!(Instruction::CALL_NZ_nn(0x3000).execute(&mut cpu, &mut mem), Ok(()));
    assert_eq!(cpu.pc(), 0x0200);
    assert_eq!(cpu.sp(), 0xFFFE);

    cpu.set_flags(false, false, false, true);
    assert_eq!(Instruction::CALL_NZ_nn(0x3000).execute(&mut cpu, &mut mem), Ok(()));
    assert_eq!(cpu.pc(), 0x3000);
    assert_eq!(cpu.sp(), 0xFFFC);
    assert_eq!(Instruction::RET_Z.execute(&mut cpu, &mut mem), Ok(()));
    assert_eq!(cpu.pc(), 0x3000);
    assert_eq!(Instruction::RET_NC.execute(&mut cpu, &mut mem), Ok(()));
    assert_eq!(cpu.pc(), 0x3000);
    assert_eq!(Instruction::RET_C.execute(&mut cpu, &mut mem), Ok(()));
    assert_eq!(cpu.pc(), 0x0200);
    assert_eq!(cpu.sp(), 0xFFFE);
    assert_eq!(Instruction::JP_NZ_nn(0x1234).execute(&mut cpu, &mut mem), Ok(()));
    assert_eq!(cpu.pc(), 0x1234);
    cpu.set_hl(0x4321);
    assert_eq!(Instruction::JP_HL.execute(&mut cpu, &mut mem), Ok(()));
    assert_eq!(cpu.pc(), 0x4321);
    assert_eq!(Instruction::JP_nn(0x0150).execute(&mut cpu, &mut mem), Ok(()));
    assert_eq!(cpu.pc(), 0x0150);
}

#[test]
fn loads_and_stores_through_memory() {
    let (mut cpu, mut mem) = machine(&[]);
    cpu.set_a(0x11);
    cpu.set_hl(0xC000);
    assert_eq!(Instruction::LDI_MHL_A.execute(&mut cpu, &mut mem), Ok(()));
    assert_eq!(cpu.hl(), 0xC001);
    cpu.set_a(0x22);
    assert_eq!(Instruction::LDD_MHL_A.execute(&mut cpu, &mut mem), Ok(()));
    assert_eq!(cpu.hl(), 0xC000);
    assert_eq!(mem.read_u16(Addr(0xC000)), 0x2211);
    assert_eq!(Instruction::LDI_A_MHL.execute(&mut cpu, &mut mem), Ok(()));
    assert_eq!(cpu.a(), 0x11);
    assert_eq!(cpu.hl(), 0xC001);
    assert_eq!(Instruction::LD_B_MHL.execute(&mut cpu, &mut mem), Ok(()));
    assert_eq!(cpu.b(), 0x22);

    cpu.set_a(0x99);
    assert_eq!(Instruction::LD_Mn_A(0x80).execute(&mut cpu, &mut mem), Ok(()));
    assert_eq!(mem.read_u8(Addr(0xFF80)), 0x99);
    cpu.set_a(0);
    assert_eq!(Instruction::LD_A_Mn(0x80).execute(&mut cpu, &mut mem), Ok(()));
    assert_eq!(cpu.a(), 0x99);
    assert_eq!(Instruction::LD_Mnn_A(0xD123).execute(&mut cpu, &mut mem), Ok(()));
    cpu.set_a(0);
    assert_eq!(Instruction::LD_A_Mnn(0xD123).execute(&mut cpu, &mut mem), Ok(()));
    assert_eq!(cpu.a(), 0x99);
    cpu.set_de(0xC100);
    assert_eq!(Instruction::LD_MDE_A.execute(&mut cpu, &mut mem), Ok(()));
    cpu.set_a(0);
    assert_eq!(Instruction::LD_A_MDE.execute(&mut cpu, &mut mem), Ok(()));
    assert_eq!(cpu.a(), 0x99);

    // A rejected store leaves `hl` where it was.
    cpu.set_hl(0x4000);
    assert_eq!(
        Instruction::LDI_MHL_A.execute(&mut cpu, &mut mem),
        Err(Error::MapperWrite { addr: 0x4000, value: 0x99 })
    );
    assert_eq!(cpu.hl(), 0x4000);
}

#[test]
fn memory_increment_and_decrement() {
    let (mut cpu, mut mem) = machine(&[]);
    cpu.set_hl(0xC000);
    cpu.set_flags(false, false, false, true);
    assert_eq!(mem.write_u8(Addr(0xC000), 0xFF), Ok(()));
    assert_eq!(cpu.increment_mhl(&mut mem), Ok(()));
    assert_eq!(mem.read_u8(Addr(0xC000)), 0x00);
    assert_eq!(flags(&cpu), (true, false, true, true));
    assert_eq!(cpu.decrement_mhl(&mut mem), Ok(()));
    assert_eq!(mem.read_u8(Addr(0xC000)), 0xFF);
    assert_eq!(flags(&cpu), (false, true, true, true));
    cpu.set_flags(false, false, false, false);
    assert_eq!(mem.write_u8(Addr(0xC000), 0x01), Ok(()));
    assert_eq!(Instruction::DEC_MHL.execute(&mut cpu, &mut mem), Ok(()));
    assert_eq!(mem.read_u8(Addr(0xC000)), 0x00);
    assert_eq!(flags(&cpu), (true, true, false, false));
    assert_eq!(Instruction::INC_MHL.execute(&mut cpu, &mut mem), Ok(()));
    assert_eq!(mem.read_u8(Addr(0xC000)), 0x01);
    assert_eq!(flags(&cpu), (false, false, false, false));
}

#[test]
fn stack_instructions() {
    let (mut cpu, mut mem) = machine(&[]);
    cpu.set_bc(0x1234);
    cpu.set_af(0x56FF);
    assert_eq!(Instruction::PUSH_BC.execute(&mut cpu, &mut mem), Ok(()));
    assert_eq!(Instruction::PUSH_AF.execute(&mut cpu, &mut mem), Ok(()));
    assert_eq!(cpu.sp(), 0xFFFA);
    // The flag byte goes out as it is observed.
    assert_eq!(mem.read_u16(Addr(0xFFFA)), 0x56F0);
    assert_eq!(Instruction::POP_DE.execute(&mut cpu, &mut mem), Ok(()));
    assert_eq!(Instruction::POP_HL.execute(&mut cpu, &mut mem), Ok(()));
    assert_eq!(cpu.de(), 0x56F0);
    assert_eq!(cpu.hl(), 0x1234);
    assert_eq!(cpu.sp(), 0xFFFE);
    cpu.set_sp(0xFFFA);
    assert_eq!(Instruction::POP_AF.execute(&mut cpu, &mut mem), Ok(()));
    assert_eq!(cpu.af(), 0x56F0);
}

#[test]
fn register_instructions() {
    let (mut cpu, mut mem) = machine(&[]);
    cpu.set_flags(false, false, false, false);
    assert_eq!(Instruction::LD_B_n(0x0F).execute(&mut cpu, &mut mem), Ok(()));
    assert_eq!(Instruction::LD_A_B.execute(&mut cpu, &mut mem), Ok(()));
    assert_eq!(cpu.get(Reg8::A), 0x0F);
    assert_eq!(Instruction::ADD_n(0x01).execute(&mut cpu, &mut mem), Ok(()));
    assert_eq!(cpu.a(), 0x10);
    assert_eq!(flags(&cpu), (false, false, true, false));
    assert_eq!(Instruction::SUB_B.execute(&mut cpu, &mut mem), Ok(()));
    assert_eq!(cpu.a(), 0x01);
    assert_eq!(flags(&cpu), (false, true, true, false));
    assert_eq!(Instruction::CPL.execute(&mut cpu, &mut mem), Ok(()));
    assert_eq!(cpu.a(), 0xFE);
    assert_eq!(Instruction::XOR_A.execute(&mut cpu, &mut mem), Ok(()));
    assert_eq!(cpu.a(), 0x00);
    assert_eq!(flags(&cpu), (true, false, false, false));
    assert_eq!(Instruction::LD_HL_nn(0x8000).execute(&mut cpu, &mut mem), Ok(()));
    assert_eq!(Instruction::ADD_HL_HL.execute(&mut cpu, &mut mem), Ok(()));
    assert_eq!(cpu.hl(), 0x0000);
    assert_eq!(flags(&cpu), (true, false, false, true));
    assert_eq!(Instruction::INC_BC.execute(&mut cpu, &mut mem), Ok(()));
    assert_eq!(cpu.bc(), 0x0F01);
    assert_eq!(flags(&cpu), (true, false, false, true));
    assert_eq!(Instruction::LD_SP_nn(0xD000).execute(&mut cpu, &mut mem), Ok(()));
    assert_eq!(cpu.sp(), 0xD000);
    assert_eq!(Instruction::DI.execute(&mut cpu, &mut mem), Ok(()));
    assert!(!cpu.interrupts_enabled());
    assert_eq!(Instruction::EI.execute(&mut cpu, &mut mem), Ok(()));
    assert!(cpu.interrupts_enabled());
    assert_eq!(Instruction::SCF.execute(&mut cpu, &mut mem), Ok(()));
    assert_eq!(Instruction::CCF.execute(&mut cpu, &mut mem), Ok(()));
    assert_eq!(flags(&cpu), (true, false, false, false));
    cpu.set_a(0x81);
    assert_eq!(Instruction::RLC_A.execute(&mut cpu, &mut mem), Ok(()));
    assert_eq!(cpu.a(), 0x03);
    assert_eq!(Instruction::RRC_A.execute(&mut cpu, &mut mem), Ok(()));
    assert_eq!(cpu.a(), 0x81);
    assert_eq!(Instruction::RL_A.execute(&mut cpu, &mut mem), Ok(()));
    assert_eq!(cpu.a(), 0x03);
    assert_eq!(Instruction::RR_A.execute(&mut cpu, &mut mem), Ok(()));
    assert_eq!(cpu.a(), 0x81);
    assert_eq!(ExtendedInstruction::SWAP_A.execute(&mut cpu, &mut mem), Ok(()));
    assert_eq!(cpu.a(), 0x18);
}

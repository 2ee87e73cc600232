use gb_core::cpu::{Cpu, Reg8};
use gb_core::util::IntoWrapping;
use std::num::Wrapping;

#[test]
fn pairs_are_two_registers_side_by_side() {
    let mut cpu = Cpu::new();
    cpu.set_b(0x12);
    cpu.set_c(0x34);
    assert_eq!(cpu.bc(), 0x1234);
    cpu.set_de(0xABCD);
    assert_eq!((cpu.d(), cpu.e()), (0xAB, 0xCD));
    assert_eq!(cpu.de(), 0xABCD);
    cpu.set_hl(0x00FF);
    assert_eq!((cpu.h(), cpu.l()), (0x00, 0xFF));
    assert_eq!(cpu.hl(), 0x00FF);
    cpu.set_bc(0xFF00);
    assert_eq!((cpu.b(), cpu.c()), (0xFF, 0x00));
}

#[test]
fn set_16_splits_a_word() {
    let mut high = 0u8;
    let mut low = 0u8;
    Cpu::set_16(&mut high, &mut low, 0xBEEF);
    assert_eq!((high, low), (0xBE, 0xEF));
}

#[test]
fn flag_byte_is_observed_without_its_low_nibble() {
    let mut cpu = Cpu::new();
    cpu.set_f(0xFF);
    assert_eq!(cpu.f(), 0xF0);
    cpu.set_a(0x12);
    assert_eq!(cpu.af(), 0x12F0);
    cpu.set_af(0x345F);
    assert_eq!(cpu.a(), 0x34);
    assert_eq!(cpu.f(), 0x50);
    assert_eq!(cpu.af(), 0x3450);
    assert!(!cpu.flag_z());
    assert!(cpu.flag_n());
    assert!(!cpu.flag_h());
    assert!(cpu.flag_c());
}

#[test]
fn each_flag_has_its_bit() {
    let mut cpu = Cpu::new();
    cpu.set_f(0);
    cpu.set_flag_z(true);
    assert_eq!(cpu.f(), 0b1000_0000);
    cpu.set_flag_n(true);
    assert_eq!(cpu.f(), 0b1100_0000);
    cpu.set_flag_h(true);
    assert_eq!(cpu.f(), 0b1110_0000);
    cpu.set_flag_c(true);
    assert_eq!(cpu.f(), 0b1111_0000);
    cpu.set_flag_z(false);
    assert_eq!(cpu.f(), 0b0111_0000);
    cpu.set_flag_n(false);
    assert_eq!(cpu.f(), 0b0011_0000);
    cpu.set_flag_h(false);
    assert_eq!(cpu.f(), 0b0001_0000);
    cpu.set_flag_c(false);
    assert_eq!(cpu.f(), 0b0000_0000);
}

#[test]
fn set_flags_sets_all_four() {
    let mut cpu = Cpu::new();
    cpu.set_flags(false, true, false, true);
    assert_eq!(cpu.f(), 0b0101_0000);
    cpu.set_flags(true, false, true, false);
    assert_eq!(cpu.f(), 0b1010_0000);
}

#[test]
fn selector_reaches_every_register() {
    let mut cpu = Cpu::new();
    let all = [Reg8::A, Reg8::B, Reg8::C, Reg8::D, Reg8::E, Reg8::H, Reg8::L];
    for (i, r) in all.iter().enumerate() {
        cpu.set(*r, 10 + i as u8);
    }
    assert_eq!(
        (cpu.a(), cpu.b(), cpu.c(), cpu.d(), cpu.e(), cpu.h(), cpu.l()),
        (10, 11, 12, 13, 14, 15, 16)
    );
    for (i, r) in all.iter().enumerate() {
        assert_eq!(cpu.get(*r), 10 + i as u8);
    }
    cpu.load(Reg8::A, Reg8::L);
    assert_eq!(cpu.a(), 16);
    assert_eq!(cpu.l(), 16);
}

#[test]
fn program_counter_and_stack_pointer() {
    let mut cpu = Cpu::new();
    cpu.set_pc(0xFFFF);
    cpu.set_sp(0x0000);
    assert_eq!(cpu.pc(), 0xFFFF);
    assert_eq!(cpu.sp(), 0x0000);
}

#[test]
fn into_wrapping_keeps_the_value() {
    assert_eq!(200u8.into_wrapping(), Wrapping(200u8));
    assert_eq!(0xBEEFu16.into_wrapping(), Wrapping(0xBEEFu16));
    assert_eq!(7u32.into_wrapping(), Wrapping(7u32));
    assert_eq!((-5i8).into_wrapping(), Wrapping(-5i8));
    assert_eq!((-500i16).into_wrapping(), Wrapping(-500i16));
    assert_eq!(70000i32.into_wrapping(), Wrapping(70000i32));
    assert_eq!(Wrapping(9u8).into_wrapping(), Wrapping(9u8));
}

use gb_core::cpu::{swap_nibbles, Cpu, Reg8};

fn cpu_with_a(a: u8) -> Cpu {
    let mut cpu = Cpu::new();
    cpu.set_a(a);
    cpu.set_f(0);
    cpu
}

fn flags(cpu: &Cpu) -> (bool, bool, bool, bool) {
    (cpu.flag_z(), cpu.flag_n(), cpu.flag_h(), cpu.flag_c())
}

#[test]
fn power_on_values() {
    let cpu = Cpu::new();
    assert_eq!(cpu.pc(), 0x0100);
    assert_eq!(cpu.sp(), 0xFFFE);
    assert_eq!(cpu.f(), 0b1011_0000);
    assert_eq!(
        (cpu.a(), cpu.b(), cpu.c(), cpu.d(), cpu.e(), cpu.h(), cpu.l()),
        (0, 0, 0, 0, 0, 0, 0)
    );
    assert!(cpu.interrupts_enabled());
    assert!(!cpu.is_stalling);
    assert_eq!(flags(&cpu), (true, false, true, true));
}

#[test]
fn add_half_carry_boundary() {
    let mut cpu = cpu_with_a(0x0F);
    cpu.add(0x01);
    assert_eq!(cpu.a(), 0x10);
    assert_eq!(flags(&cpu), (false, false, true, false));
}

#[test]
fn add_carry_boundary() {
    let mut cpu = cpu_with_a(0xFF);
    cpu.add(0x01);
    assert_eq!(cpu.a(), 0x00);
    assert_eq!(flags(&cpu), (true, false, true, true));
}

#[test]
fn add_high_bits_do_not_fake_half_carry() {
    let mut cpu = cpu_with_a(0xF0);
    cpu.add(0x20);
    assert_eq!(cpu.a(), 0x10);
    assert_eq!(flags(&cpu), (false, false, false, true));
}

#[test]
fn add_matches_formula_for_all_operands() {
    for a in 0..=255u16 {
        for b in 0..=255u16 {
            let mut cpu = cpu_with_a(a as u8);
            cpu.add(b as u8);
            assert_eq!(cpu.a() as u16, (a + b) % 256);
            assert_eq!(cpu.flag_c(), a + b > 255);
            assert_eq!(cpu.flag_h(), (a & 0xF) + (b & 0xF) > 15);
            assert_eq!(cpu.flag_z(), (a + b) % 256 == 0);
            assert!(!cpu.flag_n());
        }
    }
}

#[test]
fn sub_matches_formula_for_all_operands() {
    for a in 0..=255u16 {
        for b in 0..=255u16 {
            let mut cpu = cpu_with_a(a as u8);
            cpu.sub(b as u8);
            assert_eq!(cpu.a(), (a as u8).wrapping_sub(b as u8));
            assert_eq!(cpu.flag_c(), a < b);
            assert_eq!(cpu.flag_h(), (a & 0xF) < (b & 0xF));
            assert_eq!(cpu.flag_z(), a == b);
            assert!(cpu.flag_n());
        }
    }
}

#[test]
fn sub_borrow_boundaries() {
    let mut cpu = cpu_with_a(0x10);
    cpu.sub(0x01);
    assert_eq!(cpu.a(), 0x0F);
    assert_eq!(flags(&cpu), (false, true, true, false));

    let mut cpu = cpu_with_a(0x00);
    cpu.sub(0x01);
    assert_eq!(cpu.a(), 0xFF);
    assert_eq!(flags(&cpu), (false, true, true, true));
}

#[test]
fn add_carry_adds_the_incoming_carry() {
    let mut cpu = cpu_with_a(0xFE);
    cpu.set_flag_c(true);
    cpu.add_carry(0x01);
    assert_eq!(cpu.a(), 0x00);
    assert_eq!(flags(&cpu), (true, false, true, true));

    let mut cpu = cpu_with_a(0x0E);
    cpu.set_flag_c(true);
    cpu.add_carry(0x01);
    assert_eq!(cpu.a(), 0x10);
    assert_eq!(flags(&cpu), (false, false, true, false));

    let mut cpu = cpu_with_a(0x01);
    cpu.add_carry(0x01);
    assert_eq!(cpu.a(), 0x02);
    assert_eq!(flags(&cpu), (false, false, false, false));
}

#[test]
fn add_carry_zero_is_of_the_whole_sum() {
    // 0x00 + 0xFF is not zero on the way, but with the carry the sum wraps to 0.
    let mut cpu = cpu_with_a(0x00);
    cpu.set_flag_c(true);
    cpu.add_carry(0xFF);
    assert_eq!(cpu.a(), 0x00);
    assert_eq!(flags(&cpu), (true, false, true, true));

    // 0x00 + 0x00 is zero on the way, but not with the carry.
    let mut cpu = cpu_with_a(0x00);
    cpu.set_flag_c(true);
    cpu.add_carry(0x00);
    assert_eq!(cpu.a(), 0x01);
    assert_eq!(flags(&cpu), (false, false, false, false));
}

#[test]
fn sub_carry_subtracts_the_incoming_carry() {
    let mut cpu = cpu_with_a(0x10);
    cpu.set_flag_c(true);
    cpu.sub_carry(0x0F);
    assert_eq!(cpu.a(), 0x00);
    assert_eq!(flags(&cpu), (true, true, true, false));

    let mut cpu = cpu_with_a(0x00);
    cpu.set_flag_c(true);
    cpu.sub_carry(0x00);
    assert_eq!(cpu.a(), 0xFF);
    assert_eq!(flags(&cpu), (false, true, true, true));

    let mut cpu = cpu_with_a(0x05);
    cpu.sub_carry(0x03);
    assert_eq!(cpu.a(), 0x02);
    assert_eq!(flags(&cpu), (false, true, false, false));
}

#[test]
fn compare_leaves_the_accumulator() {
    let mut cpu = cpu_with_a(0x42);
    cpu.compare(0x42);
    assert_eq!(cpu.a(), 0x42);
    assert_eq!(flags(&cpu), (true, true, false, false));
    cpu.compare(0x43);
    assert_eq!(cpu.a(), 0x42);
    assert_eq!(flags(&cpu), (false, true, true, true));
}

#[test]
fn add_hl_keeps_zero_and_carries_out_of_bit_11_and_15() {
    let mut cpu = Cpu::new();
    cpu.set_f(0);
    cpu.set_flag_z(true);
    cpu.set_hl(0x0FFF);
    cpu.add_hl(0x0001);
    assert_eq!(cpu.hl(), 0x1000);
    assert_eq!(flags(&cpu), (true, false, true, false));

    cpu.set_flag_z(false);
    cpu.set_hl(0xFFFF);
    cpu.add_hl(0x0001);
    assert_eq!(cpu.hl(), 0x0000);
    assert_eq!(flags(&cpu), (false, false, true, true));

    cpu.set_hl(0xF000);
    cpu.add_hl(0x2000);
    assert_eq!(cpu.hl(), 0x1000);
    assert_eq!(flags(&cpu), (false, false, false, true));
}

#[test]
fn pair_increment_and_decrement_leave_the_flags() {
    for f in [0x00u8, 0xF0, 0x50, 0xA0] {
        let mut cpu = Cpu::new();
        cpu.set_f(f);
        cpu.set_bc(0xFFFF);
        cpu.set_de(0x00FF);
        cpu.set_hl(0x0000);
        cpu.increment_bc();
        assert_eq!(cpu.bc(), 0x0000);
        assert_eq!(cpu.f(), f);
        cpu.increment_de();
        assert_eq!(cpu.de(), 0x0100);
        assert_eq!(cpu.f(), f);
        cpu.decrement_hl();
        assert_eq!(cpu.hl(), 0xFFFF);
        assert_eq!(cpu.f(), f);
        cpu.increment_hl();
        assert_eq!(cpu.hl(), 0x0000);
        assert_eq!(cpu.f(), f);
        cpu.increment_hl_without_affecting_flags();
        assert_eq!(cpu.hl(), 0x0001);
        cpu.decrement_hl_without_affecting_flags();
        assert_eq!(cpu.hl(), 0x0000);
        assert_eq!(cpu.f(), f);
    }
}

#[test]
fn register_increment_sets_zero_and_half_carry_and_leaves_carry() {
    for carry in [false, true] {
        let mut cpu = Cpu::new();
        cpu.set_f(0);
        cpu.set_flag_c(carry);
        cpu.set_b(0xFF);
        cpu.increment(Reg8::B);
        assert_eq!(cpu.b(), 0x00);
        assert_eq!(flags(&cpu), (true, false, true, carry));
        cpu.set_b(0x0F);
        cpu.increment(Reg8::B);
        assert_eq!(cpu.b(), 0x10);
        assert_eq!(flags(&cpu), (false, false, true, carry));
        cpu.set_b(0x10);
        cpu.increment(Reg8::B);
        assert_eq!(cpu.b(), 0x11);
        assert_eq!(flags(&cpu), (false, false, false, carry));
    }
}

#[test]
fn register_decrement_sets_zero_and_half_carry_and_leaves_carry() {
    for carry in [false, true] {
        let mut cpu = Cpu::new();
        cpu.set_f(0);
        cpu.set_flag_c(carry);
        cpu.set_l(0x00);
        cpu.decrement(Reg8::L);
        assert_eq!(cpu.l(), 0xFF);
        assert_eq!(flags(&cpu), (false, true, true, carry));
        cpu.set_l(0x01);
        cpu.decrement(Reg8::L);
        assert_eq!(cpu.l(), 0x00);
        assert_eq!(flags(&cpu), (true, true, false, carry));
        cpu.set_l(0x10);
        cpu.decrement(Reg8::L);
        assert_eq!(cpu.l(), 0x0F);
        assert_eq!(flags(&cpu), (false, true, true, carry));
    }
}

#[test]
fn logic_operations() {
    let mut cpu = cpu_with_a(0b1010_0000);
    cpu.or(0b0000_0101);
    assert_eq!(cpu.a(), 0b1010_0101);
    assert_eq!(flags(&cpu), (false, false, false, false));

    cpu.and(0b0000_1111);
    assert_eq!(cpu.a(), 0b0000_0101);
    assert_eq!(flags(&cpu), (false, false, true, false));

    cpu.xor(0b0000_0101);
    assert_eq!(cpu.a(), 0);
    assert_eq!(flags(&cpu), (true, false, false, false));

    cpu.and(0xFF);
    assert_eq!(flags(&cpu), (true, false, true, false));

    cpu.set_a(0x5A);
    cpu.complement();
    assert_eq!(cpu.a(), 0xA5);
    assert_eq!(flags(&cpu), (true, false, true, false));
}

#[test]
fn rotate_right_goes_through_the_carry() {
    let mut cpu = cpu_with_a(0b0000_0001);
    cpu.rotate_right_a();
    assert_eq!(cpu.a(), 0b0000_0000);
    assert_eq!(flags(&cpu), (true, false, false, true));
    cpu.rotate_right_a();
    assert_eq!(cpu.a(), 0b1000_0000);
    assert_eq!(flags(&cpu), (false, false, false, false));

    cpu.set_c(0b0000_0011);
    cpu.set_flag_c(true);
    cpu.rotate_right_c();
    assert_eq!(cpu.c(), 0b1000_0001);
    assert!(cpu.flag_c());

    cpu.set_d(0b0000_0010);
    cpu.rotate_right_d();
    assert_eq!(cpu.d(), 0b1000_0001);
    assert!(!cpu.flag_c());

    cpu.set_e(0b1111_1111);
    cpu.rotate_right_e();
    assert_eq!(cpu.e(), 0b0111_1111);
    assert!(cpu.flag_c());
}

#[test]
fn rotate_left_a_goes_through_the_carry() {
    let mut cpu = cpu_with_a(0b1000_0000);
    cpu.rotate_left_a();
    assert_eq!(cpu.a(), 0b0000_0000);
    assert_eq!(flags(&cpu), (true, false, false, true));
    cpu.rotate_left_a();
    assert_eq!(cpu.a(), 0b0000_0001);
    assert_eq!(flags(&cpu), (false, false, false, false));
}

#[test]
fn rotate_within_the_register() {
    let mut cpu = Cpu::new();
    cpu.set_f(0);
    cpu.set_b(0b1000_0001);
    cpu.rotate_left_carry(Reg8::B);
    assert_eq!(cpu.b(), 0b0000_0011);
    assert_eq!(flags(&cpu), (false, false, false, true));

    cpu.set_h(0b0100_0001);
    cpu.rotate_right_carry(Reg8::H);
    assert_eq!(cpu.h(), 0b1010_0000);
    assert_eq!(flags(&cpu), (false, false, false, true));

    cpu.set_a(0);
    cpu.rotate_left_carry(Reg8::A);
    assert_eq!(cpu.a(), 0);
    assert_eq!(flags(&cpu), (true, false, false, false));

    cpu.set_a(0b0000_0010);
    cpu.rotate_right_carry(Reg8::A);
    assert_eq!(cpu.a(), 0b0000_0001);
    assert_eq!(flags(&cpu), (false, false, false, false));
}

#[test]
fn shift_right_logical_uses_its_own_result_for_zero() {
    let mut cpu = Cpu::new();
    cpu.set_f(0);
    cpu.set_l(0x55);
    cpu.set_b(0b0000_0001);
    cpu.shift_right_logical_b();
    assert_eq!(cpu.b(), 0);
    assert_eq!(flags(&cpu), (true, false, false, true));

    cpu.set_l(0x00);
    cpu.set_b(0b1000_0010);
    cpu.shift_right_logical_b();
    assert_eq!(cpu.b(), 0b0100_0001);
    assert_eq!(flags(&cpu), (false, false, false, false));
}

#[test]
fn nibble_swap() {
    assert_eq!(swap_nibbles(0xA5), 0x5A);
    assert_eq!(swap_nibbles(0xF0), 0x0F);
    assert_eq!(swap_nibbles(0x00), 0x00);

    let mut cpu = Cpu::new();
    cpu.set_a(0x12);
    cpu.set_b(0x34);
    cpu.set_c(0x56);
    cpu.set_d(0x78);
    cpu.set_e(0x9A);
    cpu.set_h(0xBC);
    cpu.set_l(0x00);
    cpu.swap_nibbles_a();
    assert_eq!(cpu.a(), 0x21);
    assert_eq!(flags(&cpu), (false, false, false, false));
    cpu.swap_nibbles_b();
    cpu.swap_nibbles_c();
    cpu.swap_nibbles_d();
    cpu.swap_nibbles_e();
    cpu.swap_nibbles_h();
    assert_eq!((cpu.b(), cpu.c(), cpu.d(), cpu.e(), cpu.h()), (0x43, 0x65, 0x87, 0xA9, 0xCB));
    cpu.swap_nibbles_l();
    assert_eq!(cpu.l(), 0x00);
    assert_eq!(flags(&cpu), (true, false, false, false));
}

#[test]
fn carry_flag_control() {
    let mut cpu = Cpu::new();
    cpu.set_f(0b1110_0000);
    cpu.set_carry_flag();
    assert_eq!(flags(&cpu), (true, false, false, true));
    cpu.complement_carry_flag();
    assert_eq!(flags(&cpu), (true, false, false, false));
    cpu.complement_carry_flag();
    assert_eq!(flags(&cpu), (true, false, false, true));
}

#[test]
fn relative_jump_is_signed_and_wraps() {
    let mut cpu = Cpu::new();
    cpu.set_pc(0x0200);
    cpu.jump_routine(5);
    assert_eq!(cpu.pc(), 0x0205);
    cpu.jump_routine(-6);
    assert_eq!(cpu.pc(), 0x01FF);
    cpu.jump_routine(-128);
    assert_eq!(cpu.pc(), 0x017F);
    cpu.set_pc(0x0001);
    cpu.jump_routine(-2);
    assert_eq!(cpu.pc(), 0xFFFF);
    cpu.jump_routine(127);
    assert_eq!(cpu.pc(), 0x007E);
}

#[test]
fn interrupt_switch() {
    let mut cpu = Cpu::new();
    cpu.disable_interrupts();
    assert!(!cpu.interrupts_enabled());
    cpu.enable_interrupts();
    assert!(cpu.interrupts_enabled());
}

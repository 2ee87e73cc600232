//! Arithmetic, logic, rotation and control operations of the processor, each
//! with the flags it leaves.

use vstd::prelude::*;
use crate::bits::{high_byte, low_byte, lemma_low_bits, lemma_low_bits_u16, lemma_shift_bits};
use crate::cpu::{
    Cpu, Reg8, carry_bit, rotated_left, rotated_left_through, rotated_right,
    rotated_right_through, swapped_nibbles, swap_nibbles,
};

verus! {

impl Cpu {
    // ----- 8-bit addition and subtraction -----

    /// The registers after `amount` and `carry` are added to the
    /// accumulator. The sum wraps; Zero tells whether the wrapped sum is 0,
    /// Half-carry whether the low nibbles carry into bit 4, Carry whether the
    /// sum leaves the byte.
    pub open spec fn spec_add_with(self, amount: u8, carry: bool) -> Cpu {
        let sum = self.a + amount + carry_bit(carry);
        Cpu { a: (sum % 256) as u8, ..self }.with_flags(
            sum % 256 == 0,
            false,
            self.a % 16 + amount % 16 + carry_bit(carry) > 15,
            sum > 255,
        )
    }

    /// The registers after `amount` and `carry` are subtracted from the
    /// accumulator. The difference wraps; Zero tells whether the wrapped
    /// difference is 0, Half-carry whether the low nibble borrows from bit 4,
    /// Carry whether the byte borrows.
    pub open spec fn spec_sub_with(self, amount: u8, carry: bool) -> Cpu {
        let difference = self.a - amount - carry_bit(carry);
        Cpu { a: (difference % 256) as u8, ..self }.with_flags(
            difference % 256 == 0,
            true,
            self.a % 16 < amount % 16 + carry_bit(carry),
            self.a < amount + carry_bit(carry),
        )
    }

    pub open spec fn spec_add(self, amount: u8) -> Cpu {
        self.spec_add_with(amount, false)
    }

    pub open spec fn spec_add_carry(self, amount: u8) -> Cpu {
        self.spec_add_with(amount, self.flag_c())
    }

    pub open spec fn spec_sub(self, amount: u8) -> Cpu {
        self.spec_sub_with(amount, false)
    }

    pub open spec fn spec_sub_carry(self, amount: u8) -> Cpu {
        self.spec_sub_with(amount, self.flag_c())
    }

    /// The registers after the accumulator is compared with `value`: the
    /// flags of a subtraction, and the accumulator as it was.
    pub open spec fn spec_compare(self, value: u8) -> Cpu {
        self.with_flags(self.a == value, true, self.a % 16 < value % 16, self.a < value)
    }

    fn add_with(&mut self, amount: u8, carry: bool)
        ensures
            *final(self) == old(self).spec_add_with(amount, carry),
            final(self).a == (old(self).a + amount + carry_bit(carry)) % 256,
            final(self).flag_z() == (final(self).a == 0),
            !final(self).flag_n(),
            final(self).flag_h() == (old(self).a % 16 + amount % 16 + carry_bit(carry) > 15),
            final(self).flag_c() == (old(self).a + amount + carry_bit(carry) > 255),
    {
        let a = self.a;
        let c: u8 = if carry { 1 } else { 0 };
        proof {
            lemma_low_bits(a);
            lemma_low_bits(amount);
        }
        let result = a.wrapping_add(amount).wrapping_add(c);
        let half = (a & 0x0F) + (amount & 0x0F) + c > 0x0F;
        let full = (a as u16) + (amount as u16) + (c as u16) > 0xFF;
        self.a = result;
        self.set_flags(result == 0, false, half, full);
    }

    fn sub_with(&mut self, amount: u8, carry: bool)
        ensures
            *final(self) == old(self).spec_sub_with(amount, carry),
            final(self).a == (old(self).a - amount - carry_bit(carry)) % 256,
            final(self).flag_z() == (final(self).a == 0),
            final(self).flag_n(),
            final(self).flag_h() == (old(self).a % 16 < amount % 16 + carry_bit(carry)),
            final(self).flag_c() == (old(self).a < amount + carry_bit(carry)),
    {
        let a = self.a;
        let c: u8 = if carry { 1 } else { 0 };
        proof {
            lemma_low_bits(a);
            lemma_low_bits(amount);
        }
        let result = a.wrapping_sub(amount).wrapping_sub(c);
        let half = (a & 0x0F) < (amount & 0x0F) + c;
        let full = (a as u16) < (amount as u16) + (c as u16);
        self.a = result;
        self.set_flags(result == 0, true, half, full);
    }

    /// Adds `amount` to the accumulator.
    pub fn add(&mut self, amount: u8)
        ensures
            *final(self) == old(self).spec_add(amount),
            final(self).a == (old(self).a + amount) % 256,
            final(self).flag_z() == (final(self).a == 0),
            !final(self).flag_n(),
            final(self).flag_h() == (old(self).a % 16 + amount % 16 > 15),
            final(self).flag_c() == (old(self).a + amount > 255),
    {
        self.add_with(amount, false);
    }

    /// Adds `amount` and the Carry flag to the accumulator.
    pub fn add_carry(&mut self, amount: u8)
        ensures
            *final(self) == old(self).spec_add_carry(amount),
            final(self).a == (old(self).a + amount + carry_bit(old(self).flag_c())) % 256,
            final(self).flag_z() == (final(self).a == 0),
            !final(self).flag_n(),
            final(self).flag_h() == (old(self).a % 16 + amount % 16 + carry_bit(old(self).flag_c()) > 15),
            final(self).flag_c() == (old(self).a + amount + carry_bit(old(self).flag_c()) > 255),
    {
        let carry = self.flag_c();
        self.add_with(amount, carry);
    }

    /// Subtracts `amount` from the accumulator.
    pub fn sub(&mut self, amount: u8)
        ensures
            *final(self) == old(self).spec_sub(amount),
            final(self).a == (old(self).a - amount) % 256,
            final(self).flag_z() == (final(self).a == 0),
            final(self).flag_n(),
            final(self).flag_h() == (old(self).a % 16 < amount % 16),
            final(self).flag_c() == (old(self).a < amount),
    {
        self.sub_with(amount, false);
    }

    /// Subtracts `amount` and the Carry flag from the accumulator.
    pub fn sub_carry(&mut self, amount: u8)
        ensures
            *final(self) == old(self).spec_sub_carry(amount),
            final(self).a == (old(self).a - amount - carry_bit(old(self).flag_c())) % 256,
            final(self).flag_z() == (final(self).a == 0),
            final(self).flag_n(),
            final(self).flag_h() == (old(self).a % 16 < amount % 16 + carry_bit(old(self).flag_c())),
            final(self).flag_c() == (old(self).a < amount + carry_bit(old(self).flag_c())),
    {
        let carry = self.flag_c();
        self.sub_with(amount, carry);
    }

    /// Compares the accumulator with `value`.
    pub fn compare(&mut self, value: u8)
        ensures
            *final(self) == old(self).spec_compare(value),
            final(self).flag_z() == (old(self).a == value),
            final(self).flag_n(),
            final(self).flag_h() == (old(self).a % 16 < value % 16),
            final(self).flag_c() == (old(self).a < value),
    {
        let a = self.a;
        proof {
            lemma_low_bits(a);
            lemma_low_bits(value);
        }
        self.set_flags(a == value, true, (a & 0x0F) < (value & 0x0F), a < value);
    }

    // ----- 16-bit addition -----

    /// The registers after `amount` is added to `hl`. The sum wraps; Zero
    /// stays, Half-carry tells whether bit 11 carries, Carry whether the sum
    /// leaves the word.
    pub open spec fn spec_add_hl(self, amount: u16) -> Cpu {
        let sum = self.hl() + amount;
        let wrapped = (sum % 0x1_0000) as u16;
        Cpu { h: high_byte(wrapped), l: low_byte(wrapped), ..self }.with_flags(
            self.flag_z(),
            false,
            self.hl() % 0x1000 + amount % 0x1000 > 0x0FFF,
            sum > 0xFFFF,
        )
    }

    /// Adds `amount` to `hl`.
    pub fn add_hl(&mut self, amount: u16)
        ensures
            *final(self) == old(self).spec_add_hl(amount),
            final(self).hl() == (old(self).hl() + amount) % 0x1_0000,
            final(self).flag_z() == old(self).flag_z(),
            !final(self).flag_n(),
            final(self).flag_h() == (old(self).hl() % 0x1000 + amount % 0x1000 > 0x0FFF),
            final(self).flag_c() == (old(self).hl() + amount > 0xFFFF),
    {
        let hl = self.hl();
        let z = self.flag_z();
        proof {
            lemma_low_bits_u16(hl);
            lemma_low_bits_u16(amount);
        }
        let half = (hl & 0x0FFF) + (amount & 0x0FFF) > 0x0FFF;
        let full = 0xFFFF - hl < amount;
        let sum = hl.wrapping_add(amount);
        assert(sum == (hl + amount) % 0x1_0000);
        self.set_hl(sum);
        assert(*self == (Cpu { h: high_byte(sum), l: low_byte(sum), ..*old(self) }));
        self.set_flags(z, false, half, full);
    }

    // ----- increment and decrement -----

    /// The flags after an increment that gave `value`: Zero tells whether
    /// `value` is 0, Half-carry whether its low nibble is; Carry stays.
    pub open spec fn spec_increment_flags(self, value: u16) -> Cpu {
        self.with_flags(value == 0, false, value % 16 == 0, self.flag_c())
    }

    /// The flags after a decrement that gave `value`: Zero tells whether
    /// `value` is 0, Half-carry whether its low nibble is 15; Carry stays.
    pub open spec fn spec_decrement_flags(self, value: u16) -> Cpu {
        self.with_flags(value == 0, true, value % 16 == 15, self.flag_c())
    }

    pub open spec fn spec_increment(self, r: Reg8) -> Cpu {
        let value = ((self.reg(r) + 1) % 256) as u8;
        self.with_reg(r, value).spec_increment_flags(value as u16)
    }

    pub open spec fn spec_decrement(self, r: Reg8) -> Cpu {
        let value = ((self.reg(r) - 1) % 256) as u8;
        self.with_reg(r, value).spec_decrement_flags(value as u16)
    }

    /// Sets the flags of an increment that gave `value`.
    pub fn increment_affect_flags(&mut self, value: u16)
        ensures
            *final(self) == old(self).spec_increment_flags(value),
            final(self).flag_z() == (value == 0),
            !final(self).flag_n(),
            final(self).flag_h() == (value % 16 == 0),
            final(self).flag_c() == old(self).flag_c(),
    {
        proof {
            lemma_low_bits_u16(value);
        }
        let c = self.flag_c();
        self.set_flags(value == 0, false, value & 0x0F == 0, c);
    }

    /// Sets the flags of a decrement that gave `value`.
    pub fn decrement_affect_flags(&mut self, value: u16)
        ensures
            *final(self) == old(self).spec_decrement_flags(value),
            final(self).flag_z() == (value == 0),
            final(self).flag_n(),
            final(self).flag_h() == (value % 16 == 15),
            final(self).flag_c() == old(self).flag_c(),
    {
        proof {
            lemma_low_bits_u16(value);
        }
        let c = self.flag_c();
        self.set_flags(value == 0, true, value & 0x0F == 0x0F, c);
    }

    /// Adds 1 to the register that `r` selects.
    pub fn increment(&mut self, r: Reg8)
        ensures
            *final(self) == old(self).spec_increment(r),
            final(self).reg(r) == (old(self).reg(r) + 1) % 256,
            final(self).flag_z() == (final(self).reg(r) == 0),
            !final(self).flag_n(),
            final(self).flag_h() == (final(self).reg(r) % 16 == 0),
            final(self).flag_c() == old(self).flag_c(),
    {
        let value = self.get(r).wrapping_add(1);
        self.set(r, value);
        self.increment_affect_flags(value as u16);
    }

    /// Subtracts 1 from the register that `r` selects.
    pub fn decrement(&mut self, r: Reg8)
        ensures
            *final(self) == old(self).spec_decrement(r),
            final(self).reg(r) == (old(self).reg(r) - 1) % 256,
            final(self).flag_z() == (final(self).reg(r) == 0),
            final(self).flag_n(),
            final(self).flag_h() == (final(self).reg(r) % 16 == 15),
            final(self).flag_c() == old(self).flag_c(),
    {
        let value = self.get(r).wrapping_sub(1);
        self.set(r, value);
        self.decrement_affect_flags(value as u16);
    }

    /// Adds 1 to the pair `bc`. No flag changes.
    pub fn increment_bc(&mut self)
        ensures
            *final(self) == old(self).with_bc(((old(self).bc() + 1) % 0x1_0000) as u16),
            final(self).bc() == (old(self).bc() + 1) % 0x1_0000,
            final(self).f == old(self).f,
    {
        let n = self.bc().wrapping_add(1);
        self.set_bc(n);
    }

    /// Adds 1 to the pair `de`. No flag changes.
    pub fn increment_de(&mut self)
        ensures
            *final(self) == old(self).with_de(((old(self).de() + 1) % 0x1_0000) as u16),
            final(self).de() == (old(self).de() + 1) % 0x1_0000,
            final(self).f == old(self).f,
    {
        let n = self.de().wrapping_add(1);
        self.set_de(n);
    }

    /// Adds 1 to the pair `hl`. No flag changes.
    pub fn increment_hl(&mut self)
        ensures
            *final(self) == old(self).with_hl(((old(self).hl() + 1) % 0x1_0000) as u16),
            final(self).hl() == (old(self).hl() + 1) % 0x1_0000,
            final(self).f == old(self).f,
    {
        let n = self.hl().wrapping_add(1);
        self.set_hl(n);
    }

    /// Subtracts 1 from the pair `hl`. No flag changes.
    pub fn decrement_hl(&mut self)
        ensures
            *final(self) == old(self).with_hl(((old(self).hl() - 1) % 0x1_0000) as u16),
            final(self).hl() == (old(self).hl() - 1) % 0x1_0000,
            final(self).f == old(self).f,
    {
        let n = self.hl().wrapping_sub(1);
        self.set_hl(n);
    }

    /// Adds 1 to the pair `hl`, as a load with post-increment does.
    pub fn increment_hl_without_affecting_flags(&mut self)
        ensures
            *final(self) == old(self).with_hl(((old(self).hl() + 1) % 0x1_0000) as u16),
            final(self).hl() == (old(self).hl() + 1) % 0x1_0000,
            final(self).f == old(self).f,
    {
        self.increment_hl();
    }

    /// Subtracts 1 from the pair `hl`, as a load with post-decrement does.
    pub fn decrement_hl_without_affecting_flags(&mut self)
        ensures
            *final(self) == old(self).with_hl(((old(self).hl() - 1) % 0x1_0000) as u16),
            final(self).hl() == (old(self).hl() - 1) % 0x1_0000,
            final(self).f == old(self).f,
    {
        self.decrement_hl();
    }

    // ----- logic -----

    /// The flags after a logic operation that left the accumulator as it is
    /// now: Zero by the accumulator, Half-carry as given, the others clear.
    pub open spec fn spec_logic_flags(self, h: bool) -> Cpu {
        self.with_flags(self.a == 0, false, h, false)
    }

    pub open spec fn spec_or(self, value: u8) -> Cpu {
        Cpu { a: self.a | value, ..self }.spec_logic_flags(false)
    }

    pub open spec fn spec_and(self, value: u8) -> Cpu {
        Cpu { a: self.a & value, ..self }.spec_logic_flags(true)
    }

    pub open spec fn spec_xor(self, value: u8) -> Cpu {
        Cpu { a: self.a ^ value, ..self }.spec_logic_flags(false)
    }

    pub fn or(&mut self, value: u8)
        ensures
            *final(self) == old(self).spec_or(value),
            final(self).a == old(self).a | value,
            final(self).flag_z() == (final(self).a == 0),
            !final(self).flag_n(),
            !final(self).flag_h(),
            !final(self).flag_c(),
    {
        self.a = self.a | value;
        let z = self.a == 0;
        self.set_flags(z, false, false, false);
    }

    pub fn and(&mut self, value: u8)
        ensures
            *final(self) == old(self).spec_and(value),
            final(self).a == old(self).a & value,
            final(self).flag_z() == (final(self).a == 0),
            !final(self).flag_n(),
            final(self).flag_h(),
            !final(self).flag_c(),
    {
        self.a = self.a & value;
        let z = self.a == 0;
        self.set_flags(z, false, true, false);
    }

    pub fn xor(&mut self, value: u8)
        ensures
            *final(self) == old(self).spec_xor(value),
            final(self).a == old(self).a ^ value,
            final(self).flag_z() == (final(self).a == 0),
            !final(self).flag_n(),
            !final(self).flag_h(),
            !final(self).flag_c(),
    {
        self.a = self.a ^ value;
        let z = self.a == 0;
        self.set_flags(z, false, false, false);
    }

    /// The registers with the accumulator's bits inverted. No flag changes.
    pub open spec fn spec_complement(self) -> Cpu {
        Cpu { a: (255 - self.a) as u8, ..self }
    }

    /// Inverts the accumulator's bits.
    pub fn complement(&mut self)
        ensures
            *final(self) == old(self).spec_complement(),
    {
        proof {
            lemma_shift_bits(self.a, 0);
        }
        self.a = self.a ^ 0xFF;
    }

    // ----- shifts and rotations -----

    /// The flags after a shift or rotation: Zero and Carry as given, the
    /// others clear.
    pub open spec fn spec_rotate_flags(self, z: bool, c: bool) -> Cpu {
        self.with_flags(z, false, false, c)
    }

    pub fn rotate_affect_flags(&mut self, z: bool, c: bool)
        ensures
            *final(self) == old(self).spec_rotate_flags(z, c),
            final(self).flag_z() == z,
            !final(self).flag_n(),
            !final(self).flag_h(),
            final(self).flag_c() == c,
    {
        self.set_flags(z, false, false, c);
    }

    /// The registers after the register that `r` selects is rotated right
    /// through the Carry flag: the flag enters at bit 7 and takes bit 0.
    pub open spec fn spec_rotate_right(self, r: Reg8) -> Cpu {
        let value = rotated_right_through(self.reg(r), self.flag_c());
        self.with_reg(r, value).spec_rotate_flags(value == 0, self.reg(r) % 2 == 1)
    }

    /// The registers after the accumulator is rotated left through the Carry
    /// flag: the flag enters at bit 0 and takes bit 7.
    pub open spec fn spec_rotate_left_a(self) -> Cpu {
        let value = rotated_left_through(self.a, self.flag_c());
        Cpu { a: value, ..self }.spec_rotate_flags(value == 0, self.a >= 128)
    }

    /// The registers after the register that `r` selects is rotated left
    /// within itself: bit 7 enters at bit 0 and goes to the Carry flag.
    pub open spec fn spec_rotate_left_carry(self, r: Reg8) -> Cpu {
        let value = self.reg(r);
        self.with_reg(r, rotated_left(value)).spec_rotate_flags(value == 0, value >= 128)
    }

    /// The registers after the register that `r` selects is rotated right
    /// within itself: bit 0 enters at bit 7 and goes to the Carry flag.
    pub open spec fn spec_rotate_right_carry(self, r: Reg8) -> Cpu {
        let value = self.reg(r);
        self.with_reg(r, rotated_right(value)).spec_rotate_flags(value == 0, value % 2 == 1)
    }

    /// The registers after `b` is shifted right by one bit: bit 0 goes to the
    /// Carry flag and 0 enters at bit 7.
    pub open spec fn spec_shift_right_logical_b(self) -> Cpu {
        let value = self.b / 2;
        Cpu { b: value, ..self }.spec_rotate_flags(value == 0, self.b % 2 == 1)
    }

    fn rotate_right(&mut self, r: Reg8)
        ensures
            *final(self) == old(self).spec_rotate_right(r),
            final(self).reg(r) == rotated_right_through(old(self).reg(r), old(self).flag_c()),
            final(self).flag_c() == (old(self).reg(r) % 2 == 1),
            final(self).flag_z() == (final(self).reg(r) == 0),
    {
        let carry: u8 = if self.flag_c() { 1 } else { 0 };
        let value = self.get(r);
        proof {
            lemma_shift_bits(value, carry);
        }
        let rotated = (value >> 1) | (carry << 7);
        self.set(r, rotated);
        self.rotate_affect_flags(rotated == 0, value & 1 == 1);
    }

    pub fn rotate_right_a(&mut self)
        ensures
            *final(self) == old(self).spec_rotate_right(Reg8::A),
            final(self).a == rotated_right_through(old(self).a, old(self).flag_c()),
            final(self).flag_c() == (old(self).a % 2 == 1),
    {
        self.rotate_right(Reg8::A);
    }

    pub fn rotate_right_c(&mut self)
        ensures
            *final(self) == old(self).spec_rotate_right(Reg8::C),
            final(self).c == rotated_right_through(old(self).c, old(self).flag_c()),
            final(self).flag_c() == (old(self).c % 2 == 1),
    {
        self.rotate_right(Reg8::C);
    }

    pub fn rotate_right_d(&mut self)
        ensures
            *final(self) == old(self).spec_rotate_right(Reg8::D),
            final(self).d == rotated_right_through(old(self).d, old(self).flag_c()),
            final(self).flag_c() == (old(self).d % 2 == 1),
    {
        self.rotate_right(Reg8::D);
    }

    pub fn rotate_right_e(&mut self)
        ensures
            *final(self) == old(self).spec_rotate_right(Reg8::E),
            final(self).e == rotated_right_through(old(self).e, old(self).flag_c()),
            final(self).flag_c() == (old(self).e % 2 == 1),
    {
        self.rotate_right(Reg8::E);
    }

    pub fn rotate_left_a(&mut self)
        ensures
            *final(self) == old(self).spec_rotate_left_a(),
            final(self).a == rotated_left_through(old(self).a, old(self).flag_c()),
            final(self).flag_c() == (old(self).a >= 128),
    {
        let carry: u8 = if self.flag_c() { 1 } else { 0 };
        let value = self.a;
        proof {
            lemma_shift_bits(value, carry);
        }
        let rotated = (value << 1) | carry;
        self.a = rotated;
        self.rotate_affect_flags(rotated == 0, (value >> 7) == 1);
    }

    pub fn rotate_left_carry(&mut self, r: Reg8)
        ensures
            *final(self) == old(self).spec_rotate_left_carry(r),
            final(self).reg(r) == rotated_left(old(self).reg(r)),
            final(self).flag_c() == (old(self).reg(r) >= 128),
    {
        let value = self.get(r);
        proof {
            lemma_shift_bits(value, 0);
        }
        self.set(r, (value << 1) | (value >> 7));
        self.rotate_affect_flags(value == 0, (value >> 7) == 1);
    }

    pub fn rotate_right_carry(&mut self, r: Reg8)
        ensures
            *final(self) == old(self).spec_rotate_right_carry(r),
            final(self).reg(r) == rotated_right(old(self).reg(r)),
            final(self).flag_c() == (old(self).reg(r) % 2 == 1),
    {
        let value = self.get(r);
        proof {
            lemma_shift_bits(value, 0);
        }
        self.set(r, (value >> 1) | (value << 7));
        self.rotate_affect_flags(value == 0, value & 1 == 1);
    }

    pub fn shift_right_logical_b(&mut self)
        ensures
            *final(self) == old(self).spec_shift_right_logical_b(),
            final(self).b == old(self).b / 2,
            final(self).flag_c() == (old(self).b % 2 == 1),
            final(self).flag_z() == (final(self).b == 0),
    {
        let value = self.b;
        proof {
            lemma_shift_bits(value, 0);
        }
        let shifted = value >> 1;
        self.b = shifted;
        self.rotate_affect_flags(shifted == 0, value & 1 == 1);
    }

    // ----- nibble swap -----

    /// The flags after a nibble swap that gave `value`: Zero by `value`, the
    /// others clear.
    pub open spec fn spec_swap_flags(self, value: u8) -> Cpu {
        self.with_flags(value == 0, false, false, false)
    }

    pub open spec fn spec_swap_nibbles(self, r: Reg8) -> Cpu {
        let value = swapped_nibbles(self.reg(r));
        self.with_reg(r, value).spec_swap_flags(value)
    }

    pub fn swap_nibbles_affect_flags(&mut self, value: u8)
        ensures
            *final(self) == old(self).spec_swap_flags(value),
            final(self).flag_z() == (value == 0),
            !final(self).flag_n(),
            !final(self).flag_h(),
            !final(self).flag_c(),
    {
        self.set_flags(value == 0, false, false, false);
    }

    fn swap_register(&mut self, r: Reg8)
        ensures
            *final(self) == old(self).spec_swap_nibbles(r),
    {
        let value = swap_nibbles(self.get(r));
        self.set(r, value);
        self.swap_nibbles_affect_flags(value);
    }

    pub fn swap_nibbles_a(&mut self)
        ensures
            *final(self) == old(self).spec_swap_nibbles(Reg8::A),
    {
        self.swap_register(Reg8::A);
    }

    pub fn swap_nibbles_b(&mut self)
        ensures
            *final(self) == old(self).spec_swap_nibbles(Reg8::B),
    {
        self.swap_register(Reg8::B);
    }

    pub fn swap_nibbles_c(&mut self)
        ensures
            *final(self) == old(self).spec_swap_nibbles(Reg8::C),
    {
        self.swap_register(Reg8::C);
    }

    pub fn swap_nibbles_d(&mut self)
        ensures
            *final(self) == old(self).spec_swap_nibbles(Reg8::D),
    {
        self.swap_register(Reg8::D);
    }

    pub fn swap_nibbles_e(&mut self)
        ensures
            *final(self) == old(self).spec_swap_nibbles(Reg8::E),
    {
        self.swap_register(Reg8::E);
    }

    pub fn swap_nibbles_h(&mut self)
        ensures
            *final(self) == old(self).spec_swap_nibbles(Reg8::H),
    {
        self.swap_register(Reg8::H);
    }

    pub fn swap_nibbles_l(&mut self)
        ensures
            *final(self) == old(self).spec_swap_nibbles(Reg8::L),
    {
        self.swap_register(Reg8::L);
    }

    // ----- processor control -----

    /// The registers with the Carry flag set; Zero stays, the others clear.
    pub open spec fn spec_set_carry_flag(self) -> Cpu {
        self.with_flags(self.flag_z(), false, false, true)
    }

    /// The registers with the Carry flag inverted; Zero stays, the others
    /// clear.
    pub open spec fn spec_complement_carry_flag(self) -> Cpu {
        self.with_flags(self.flag_z(), false, false, !self.flag_c())
    }

    pub fn set_carry_flag(&mut self)
        ensures
            *final(self) == old(self).spec_set_carry_flag(),
            final(self).flag_c(),
            final(self).flag_z() == old(self).flag_z(),
    {
        let z = self.flag_z();
        self.set_flags(z, false, false, true);
    }

    pub fn complement_carry_flag(&mut self)
        ensures
            *final(self) == old(self).spec_complement_carry_flag(),
            final(self).flag_c() == !old(self).flag_c(),
            final(self).flag_z() == old(self).flag_z(),
    {
        let z = self.flag_z();
        let c = self.flag_c();
        self.set_flags(z, false, false, !c);
    }

    pub fn disable_interrupts(&mut self)
        ensures
            *final(self) == (Cpu { interrupts_enabled: false, ..*old(self) }),
    {
        self.interrupts_enabled = false;
    }

    pub fn enable_interrupts(&mut self)
        ensures
            *final(self) == (Cpu { interrupts_enabled: true, ..*old(self) }),
    {
        self.interrupts_enabled = true;
    }

    pub fn interrupts_enabled(&self) -> (r: bool)
        ensures
            r == self.interrupts_enabled,
    {
        self.interrupts_enabled
    }

    /// The registers after a relative jump: the signed `offset` is added to
    /// the program counter, which wraps.
    pub open spec fn spec_jump_routine(self, offset: i8) -> Cpu {
        Cpu { pc: ((self.pc + offset) % 0x1_0000) as u16, ..self }
    }

    /// Jumps by the signed displacement `offset`.
    pub fn jump_routine(&mut self, offset: i8)
        ensures
            *final(self) == old(self).spec_jump_routine(offset),
    {
        self.pc = self.pc.wrapping_add_signed(offset as i16);
    }
}

} // verus!

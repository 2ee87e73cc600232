//! The register file of the processor: the 8-bit registers, their paired
//! 16-bit views, the program counter and the stack pointer, and the four
//! flags.

use vstd::prelude::*;
use crate::bits::{
    high_byte, low_byte, word, lemma_word_bits, lemma_split_bits, lemma_flag_set, lemma_flag_mask,
    lemma_pack_flags, lemma_shift_bits, zero_bit, subtract_bit, half_carry_bit, carry_flag_bit,
    pack_flags,
};
use crate::error::Error;
use crate::memory::MemoryModel;

verus! {

/// Selects one of the seven 8-bit registers.
#[derive(Clone, Copy, Debug, PartialEq, Eq, Structural)]
pub enum Reg8 {
    A,
    B,
    C,
    D,
    E,
    H,
    L,
}

/// The registers of the processor.
///
/// Of `f` only the high nibble means anything: bit 7 is the Zero flag, bit 6
/// the Subtract flag, bit 5 the Half-carry flag and bit 4 the Carry flag. The
/// field holds whatever was stored; `f()` and `af()` show its low nibble as 0.
#[derive(Clone, Copy, Debug, PartialEq, Eq, Structural)]
pub struct Cpu {
    pub pc: u16,
    pub sp: u16,
    pub a: u8,
    pub b: u8,
    pub c: u8,
    pub d: u8,
    pub e: u8,
    pub f: u8,
    pub h: u8,
    pub l: u8,
    pub interrupts_enabled: bool,
    pub is_stalling: bool,
    pub at_breakpoint: bool,
}

/// The machine after an operation that touches registers and memory, with
/// what the operation returned.
pub struct Outcome<M, T> {
    pub cpu: Cpu,
    pub mem: MemoryModel<M>,
    pub result: Result<T, Error>,
}

/// 1 for a set carry, 0 for a clear one.
pub open spec fn carry_bit(c: bool) -> int {
    if c {
        1
    } else {
        0
    }
}

/// `value` rotated right by one bit through the carry: the carry enters at
/// bit 7.
pub open spec fn rotated_right_through(value: u8, carry: bool) -> u8 {
    (value / 2 + carry_bit(carry) * 128) as u8
}

/// `value` rotated left by one bit through the carry: the carry enters at
/// bit 0.
pub open spec fn rotated_left_through(value: u8, carry: bool) -> u8 {
    ((value * 2) % 256 + carry_bit(carry)) as u8
}

/// `value` rotated left by one bit within the byte.
pub open spec fn rotated_left(value: u8) -> u8 {
    ((value * 2) % 256 + value / 128) as u8
}

/// `value` rotated right by one bit within the byte.
pub open spec fn rotated_right(value: u8) -> u8 {
    (value / 2 + (value % 2) * 128) as u8
}

/// `value` with its two nibbles exchanged.
pub open spec fn swapped_nibbles(value: u8) -> u8 {
    ((value % 16) * 16 + value / 16) as u8
}

pub fn swap_nibbles(value: u8) -> (r: u8)
    ensures
        r == swapped_nibbles(value),
{
    proof {
        lemma_shift_bits(value, 0);
    }
    (value << 4) | (value >> 4)
}

impl Cpu {
    // ----- the state at power-on -----

    pub open spec fn power_on() -> Cpu {
        Cpu {
            pc: 0x0100,
            sp: 0xFFFE,
            a: 0,
            b: 0,
            c: 0,
            d: 0,
            e: 0,
            f: 0b1011_0000,
            h: 0,
            l: 0,
            interrupts_enabled: true,
            is_stalling: false,
            at_breakpoint: false,
        }
    }

    pub fn new() -> (r: Cpu)
        ensures
            r == Cpu::power_on(),
    {
        Cpu {
            pc: 0x0100,
            sp: 0xFFFE,
            a: 0,
            b: 0,
            c: 0,
            d: 0,
            e: 0,
            f: 0b1011_0000,
            h: 0,
            l: 0,
            interrupts_enabled: true,
            is_stalling: false,
            at_breakpoint: false,
        }
    }

    // ----- 8-bit registers -----

    /// The register that `r` selects.
    pub open spec fn reg(self, r: Reg8) -> u8 {
        match r {
            Reg8::A => self.a,
            Reg8::B => self.b,
            Reg8::C => self.c,
            Reg8::D => self.d,
            Reg8::E => self.e,
            Reg8::H => self.h,
            Reg8::L => self.l,
        }
    }

    /// The registers with `n` in the one that `r` selects.
    pub open spec fn with_reg(self, r: Reg8, n: u8) -> Cpu {
        match r {
            Reg8::A => Cpu { a: n, ..self },
            Reg8::B => Cpu { b: n, ..self },
            Reg8::C => Cpu { c: n, ..self },
            Reg8::D => Cpu { d: n, ..self },
            Reg8::E => Cpu { e: n, ..self },
            Reg8::H => Cpu { h: n, ..self },
            Reg8::L => Cpu { l: n, ..self },
        }
    }

    pub fn get(&self, r: Reg8) -> (n: u8)
        ensures
            n == self.reg(r),
    {
        match r {
            Reg8::A => self.a,
            Reg8::B => self.b,
            Reg8::C => self.c,
            Reg8::D => self.d,
            Reg8::E => self.e,
            Reg8::H => self.h,
            Reg8::L => self.l,
        }
    }

    pub fn set(&mut self, r: Reg8, n: u8)
        ensures
            *final(self) == old(self).with_reg(r, n),
    {
        match r {
            Reg8::A => self.a = n,
            Reg8::B => self.b = n,
            Reg8::C => self.c = n,
            Reg8::D => self.d = n,
            Reg8::E => self.e = n,
            Reg8::H => self.h = n,
            Reg8::L => self.l = n,
        }
    }

    pub fn a(&self) -> (n: u8)
        ensures
            n == self.a,
    {
        self.a
    }

    pub fn b(&self) -> (n: u8)
        ensures
            n == self.b,
    {
        self.b
    }

    pub fn c(&self) -> (n: u8)
        ensures
            n == self.c,
    {
        self.c
    }

    pub fn d(&self) -> (n: u8)
        ensures
            n == self.d,
    {
        self.d
    }

    pub fn e(&self) -> (n: u8)
        ensures
            n == self.e,
    {
        self.e
    }

    pub fn h(&self) -> (n: u8)
        ensures
            n == self.h,
    {
        self.h
    }

    pub fn l(&self) -> (n: u8)
        ensures
            n == self.l,
    {
        self.l
    }

    /// The flag byte as it is observed: the four flags, and a low nibble of 0.
    pub open spec fn spec_f(&self) -> u8 {
        self.f & 0xF0
    }

    /// The registers as they are observed: the flag byte with a low nibble of
    /// 0.
    pub open spec fn observed(self) -> Cpu {
        Cpu { f: self.spec_f(), ..self }
    }

    #[verifier::when_used_as_spec(spec_f)]
    pub fn f(&self) -> (n: u8)
        ensures
            n == self.spec_f(),
            n % 16 == 0,
    {
        proof {
            lemma_flag_mask(self.f);
        }
        self.f & 0xF0
    }

    pub fn set_a(&mut self, n: u8)
        ensures
            *final(self) == (Cpu { a: n, ..*old(self) }),
    {
        self.a = n;
    }

    pub fn set_b(&mut self, n: u8)
        ensures
            *final(self) == (Cpu { b: n, ..*old(self) }),
    {
        self.b = n;
    }

    pub fn set_c(&mut self, n: u8)
        ensures
            *final(self) == (Cpu { c: n, ..*old(self) }),
    {
        self.c = n;
    }

    pub fn set_d(&mut self, n: u8)
        ensures
            *final(self) == (Cpu { d: n, ..*old(self) }),
    {
        self.d = n;
    }

    pub fn set_e(&mut self, n: u8)
        ensures
            *final(self) == (Cpu { e: n, ..*old(self) }),
    {
        self.e = n;
    }

    /// Stores `n` as the flag byte, as it is.
    pub fn set_f(&mut self, n: u8)
        ensures
            *final(self) == (Cpu { f: n, ..*old(self) }),
    {
        self.f = n;
    }

    pub fn set_h(&mut self, n: u8)
        ensures
            *final(self) == (Cpu { h: n, ..*old(self) }),
    {
        self.h = n;
    }

    pub fn set_l(&mut self, n: u8)
        ensures
            *final(self) == (Cpu { l: n, ..*old(self) }),
    {
        self.l = n;
    }

    /// Copies the register that `source` selects into the one that `target`
    /// selects.
    pub fn load(&mut self, target: Reg8, source: Reg8)
        ensures
            *final(self) == old(self).with_reg(target, old(self).reg(source)),
    {
        let n = self.get(source);
        self.set(target, n);
    }

    // ----- 16-bit views -----

    pub open spec fn spec_af(&self) -> u16 {
        word(self.a, self.spec_f())
    }

    pub open spec fn spec_bc(&self) -> u16 {
        word(self.b, self.c)
    }

    pub open spec fn spec_de(&self) -> u16 {
        word(self.d, self.e)
    }

    pub open spec fn spec_hl(&self) -> u16 {
        word(self.h, self.l)
    }

    /// The registers with `n` in the pair `af`: the low byte goes to the flag
    /// byte as it is.
    pub open spec fn with_af(self, n: u16) -> Cpu {
        Cpu { a: high_byte(n), f: low_byte(n), ..self }
    }

    /// The registers with `n` in the pair `bc`.
    pub open spec fn with_bc(self, n: u16) -> Cpu {
        Cpu { b: high_byte(n), c: low_byte(n), ..self }
    }

    /// The registers with `n` in the pair `de`.
    pub open spec fn with_de(self, n: u16) -> Cpu {
        Cpu { d: high_byte(n), e: low_byte(n), ..self }
    }

    /// The registers with `n` in the pair `hl`.
    pub open spec fn with_hl(self, n: u16) -> Cpu {
        Cpu { h: high_byte(n), l: low_byte(n), ..self }
    }

    #[verifier::when_used_as_spec(spec_af)]
    pub fn af(&self) -> (n: u16)
        ensures
            n == self.spec_af(),
            n % 16 == 0,
    {
        let f = self.f();
        proof {
            lemma_word_bits(self.a, f);
        }
        f as u16 | (self.a as u16) << 8
    }

    #[verifier::when_used_as_spec(spec_bc)]
    pub fn bc(&self) -> (n: u16)
        ensures
            n == self.spec_bc(),
    {
        proof {
            lemma_word_bits(self.b, self.c);
        }
        self.c as u16 | (self.b as u16) << 8
    }

    #[verifier::when_used_as_spec(spec_de)]
    pub fn de(&self) -> (n: u16)
        ensures
            n == self.spec_de(),
    {
        proof {
            lemma_word_bits(self.d, self.e);
        }
        self.e as u16 | (self.d as u16) << 8
    }

    #[verifier::when_used_as_spec(spec_hl)]
    pub fn hl(&self) -> (n: u16)
        ensures
            n == self.spec_hl(),
    {
        proof {
            lemma_word_bits(self.h, self.l);
        }
        self.l as u16 | (self.h as u16) << 8
    }

    pub fn pc(&self) -> (n: u16)
        ensures
            n == self.pc,
    {
        self.pc
    }

    pub fn sp(&self) -> (n: u16)
        ensures
            n == self.sp,
    {
        self.sp
    }

    /// Splits `n` into the two halves of a register pair.
    pub fn set_16(high: &mut u8, low: &mut u8, n: u16)
        ensures
            *final(high) == high_byte(n),
            *final(low) == low_byte(n),
    {
        proof {
            lemma_split_bits(n);
        }
        *high = (n >> 8) as u8;
        *low = (n & 0xFF) as u8;
    }

    pub fn set_af(&mut self, n: u16)
        ensures
            *final(self) == old(self).with_af(n),
    {
        Self::set_16(&mut self.a, &mut self.f, n);
    }

    pub fn set_bc(&mut self, n: u16)
        ensures
            *final(self) == old(self).with_bc(n),
            final(self).spec_bc() == n,
    {
        Self::set_16(&mut self.b, &mut self.c, n);
    }

    pub fn set_de(&mut self, n: u16)
        ensures
            *final(self) == old(self).with_de(n),
            final(self).spec_de() == n,
    {
        Self::set_16(&mut self.d, &mut self.e, n);
    }

    pub fn set_hl(&mut self, n: u16)
        ensures
            *final(self) == old(self).with_hl(n),
            final(self).spec_hl() == n,
    {
        Self::set_16(&mut self.h, &mut self.l, n);
    }

    pub fn set_pc(&mut self, pc: u16)
        ensures
            *final(self) == (Cpu { pc, ..*old(self) }),
    {
        self.pc = pc;
    }

    pub fn set_sp(&mut self, sp: u16)
        ensures
            *final(self) == (Cpu { sp, ..*old(self) }),
    {
        self.sp = sp;
    }

    // ----- flags -----

    pub open spec fn spec_flag_z(&self) -> bool {
        zero_bit(self.f)
    }

    pub open spec fn spec_flag_n(&self) -> bool {
        subtract_bit(self.f)
    }

    pub open spec fn spec_flag_h(&self) -> bool {
        half_carry_bit(self.f)
    }

    pub open spec fn spec_flag_c(&self) -> bool {
        carry_flag_bit(self.f)
    }

    /// The registers with the four flags as given. The unused low nibble of
    /// the flag byte stays as it is.
    pub open spec fn with_flags(self, z: bool, n: bool, h: bool, c: bool) -> Cpu {
        Cpu { f: pack_flags(self.f, z, n, h, c), ..self }
    }

    #[verifier::when_used_as_spec(spec_flag_z)]
    pub fn flag_z(&self) -> (r: bool)
        ensures
            r == self.spec_flag_z(),
    {
        self.f >> 7 == 1
    }

    #[verifier::when_used_as_spec(spec_flag_n)]
    pub fn flag_n(&self) -> (r: bool)
        ensures
            r == self.spec_flag_n(),
    {
        (self.f >> 6) & 1 == 1
    }

    #[verifier::when_used_as_spec(spec_flag_h)]
    pub fn flag_h(&self) -> (r: bool)
        ensures
            r == self.spec_flag_h(),
    {
        (self.f >> 5) & 1 == 1
    }

    #[verifier::when_used_as_spec(spec_flag_c)]
    pub fn flag_c(&self) -> (r: bool)
        ensures
            r == self.spec_flag_c(),
    {
        (self.f >> 4) & 1 == 1
    }

    pub fn set_flag_z(&mut self, set: bool)
        ensures
            *final(self) == old(self).with_flags(set, old(self).flag_n(), old(self).flag_h(), old(self).flag_c()),
            final(self).flag_z() == set,
    {
        proof {
            lemma_flag_set(self.f);
            lemma_pack_flags(self.f, set, self.flag_n(), self.flag_h(), self.flag_c());
        }
        if set {
            self.f |= 0b1000_0000;
        } else {
            self.f &= 0b0111_1111;
        }
    }

    pub fn set_flag_n(&mut self, set: bool)
        ensures
            *final(self) == old(self).with_flags(old(self).flag_z(), set, old(self).flag_h(), old(self).flag_c()),
            final(self).flag_n() == set,
    {
        proof {
            lemma_flag_set(self.f);
            lemma_pack_flags(self.f, self.flag_z(), set, self.flag_h(), self.flag_c());
        }
        if set {
            self.f |= 0b0100_0000;
        } else {
            self.f &= 0b1011_1111;
        }
    }

    pub fn set_flag_h(&mut self, set: bool)
        ensures
            *final(self) == old(self).with_flags(old(self).flag_z(), old(self).flag_n(), set, old(self).flag_c()),
            final(self).flag_h() == set,
    {
        proof {
            lemma_flag_set(self.f);
            lemma_pack_flags(self.f, self.flag_z(), self.flag_n(), set, self.flag_c());
        }
        if set {
            self.f |= 0b0010_0000;
        } else {
            self.f &= 0b1101_1111;
        }
    }

    pub fn set_flag_c(&mut self, set: bool)
        ensures
            *final(self) == old(self).with_flags(old(self).flag_z(), old(self).flag_n(), old(self).flag_h(), set),
            final(self).flag_c() == set,
    {
        proof {
            lemma_flag_set(self.f);
            lemma_pack_flags(self.f, self.flag_z(), self.flag_n(), self.flag_h(), set);
        }
        if set {
            self.f |= 0b0001_0000;
        } else {
            self.f &= 0b1110_1111;
        }
    }

    /// Sets all four flags at once.
    pub fn set_flags(&mut self, z: bool, n: bool, h: bool, c: bool)
        ensures
            *final(self) == old(self).with_flags(z, n, h, c),
            final(self).flag_z() == z,
            final(self).flag_n() == n,
            final(self).flag_h() == h,
            final(self).flag_c() == c,
    {
        proof {
            lemma_pack_flags(self.f, z, n, h, c);
        }
        self.f = (self.f & 0x0F) | (if z { 0x80u8 } else { 0u8 }) | (if n { 0x40u8 } else { 0u8 }) | (if h {
            0x20u8
        } else {
            0u8
        }) | (if c { 0x10u8 } else { 0u8 });
    }
}

} // verus!

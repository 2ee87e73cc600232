//! Operations of the processor that reach memory: the stack, calls, and the
//! increment and decrement of the byte that `hl` points to.

use vstd::prelude::*;
use crate::addr::Addr;
use crate::cpu::{Cpu, Outcome};
use crate::error::Error;
use crate::mapper::Mapper;
use crate::memory::{Memory, MemoryModel};

verus! {

/// `n` steps after `base`, modulo 65536.
pub open spec fn wrap16(base: u16, n: int) -> u16 {
    ((base + n) % 0x1_0000) as u16
}

impl Cpu {
    /// The machine after a byte is pushed: the stack pointer goes down by 1,
    /// then the byte is written where it points.
    pub open spec fn spec_push_u8<M: Mapper>(self, mem: MemoryModel<M>, value: u8) -> Outcome<M, ()> {
        let sp = wrap16(self.sp, -1);
        let written = mem.write_u8(sp, value);
        Outcome { cpu: Cpu { sp, ..self }, mem: written.0, result: written.1 }
    }

    /// The machine after a word is pushed: the stack pointer goes down by 2,
    /// then the word is written where it points, low byte first.
    pub open spec fn spec_push_u16<M: Mapper>(self, mem: MemoryModel<M>, value: u16) -> Outcome<M, ()> {
        let sp = wrap16(self.sp, -2);
        let written = mem.write_u16(sp, value);
        Outcome { cpu: Cpu { sp, ..self }, mem: written.0, result: written.1 }
    }

    /// The registers after a byte is popped: the stack pointer goes up by 1.
    pub open spec fn spec_pop_u8(self) -> Cpu {
        Cpu { sp: wrap16(self.sp, 1), ..self }
    }

    /// The registers after a word is popped: the stack pointer goes up by 2.
    pub open spec fn spec_pop_u16(self) -> Cpu {
        Cpu { sp: wrap16(self.sp, 2), ..self }
    }

    /// The machine after a call of `addr`: the program counter is pushed and
    /// then set to `addr`. Where the push fails the program counter stays.
    pub open spec fn spec_call<M: Mapper>(self, mem: MemoryModel<M>, addr: u16) -> Outcome<M, ()> {
        let pushed = self.spec_push_u16(mem, self.pc);
        if pushed.result is Ok {
            Outcome { cpu: Cpu { pc: addr, ..pushed.cpu }, ..pushed }
        } else {
            pushed
        }
    }

    /// The machine after a return: the program counter is popped.
    pub open spec fn spec_ret<M: Mapper>(self, mem: MemoryModel<M>) -> Cpu {
        Cpu { pc: mem.read_u16(self.sp), ..self.spec_pop_u16() }
    }

    /// The machine after the byte that `hl` points to is incremented: the
    /// flags are those of an 8-bit increment, then the byte is written back.
    pub open spec fn spec_increment_mhl<M: Mapper>(self, mem: MemoryModel<M>) -> Outcome<M, ()> {
        let value = ((mem.read_u8(self.hl()) + 1) % 256) as u8;
        let written = mem.write_u8(self.hl(), value);
        Outcome { cpu: self.spec_increment_flags(value as u16), mem: written.0, result: written.1 }
    }

    /// The machine after the byte that `hl` points to is decremented: the
    /// flags are those of an 8-bit decrement, then the byte is written back.
    pub open spec fn spec_decrement_mhl<M: Mapper>(self, mem: MemoryModel<M>) -> Outcome<M, ()> {
        let value = ((mem.read_u8(self.hl()) - 1) % 256) as u8;
        let written = mem.write_u8(self.hl(), value);
        Outcome { cpu: self.spec_decrement_flags(value as u16), mem: written.0, result: written.1 }
    }

    pub fn push_u8<M: Mapper>(&mut self, mem: &mut Memory<M>, value: u8) -> (r: Result<(), Error>)
        ensures
            old(self).spec_push_u8(old(mem)@, value) == (Outcome { cpu: *final(self), mem: final(mem)@, result: r }),
            final(self).sp == wrap16(old(self).sp, -1),
            final(mem)@.wf(),
    {
        self.sp = self.sp.wrapping_sub(1);
        mem.write_u8(Addr(self.sp), value)
    }

    pub fn push_u16<M: Mapper>(&mut self, mem: &mut Memory<M>, value: u16) -> (r: Result<(), Error>)
        ensures
            old(self).spec_push_u16(old(mem)@, value) == (Outcome { cpu: *final(self), mem: final(mem)@, result: r }),
            final(self).sp == wrap16(old(self).sp, -2),
            final(mem)@.wf(),
    {
        self.sp = self.sp.wrapping_sub(2);
        mem.write_u16(Addr(self.sp), value)
    }

    pub fn pop_u8<M: Mapper>(&mut self, mem: &Memory<M>) -> (r: u8)
        ensures
            r == mem@.read_u8(old(self).sp),
            *final(self) == old(self).spec_pop_u8(),
            final(self).sp == wrap16(old(self).sp, 1),
    {
        let result = mem.read_u8(Addr(self.sp));
        self.sp = self.sp.wrapping_add(1);
        result
    }

    pub fn pop_u16<M: Mapper>(&mut self, mem: &Memory<M>) -> (r: u16)
        ensures
            r == mem@.read_u16(old(self).sp),
            *final(self) == old(self).spec_pop_u16(),
            final(self).sp == wrap16(old(self).sp, 2),
    {
        let result = mem.read_u16(Addr(self.sp));
        self.sp = self.sp.wrapping_add(2);
        result
    }

    /// Calls the routine at `addr`.
    pub fn call<M: Mapper>(&mut self, mem: &mut Memory<M>, addr: u16) -> (r: Result<(), Error>)
        ensures
            old(self).spec_call(old(mem)@, addr) == (Outcome { cpu: *final(self), mem: final(mem)@, result: r }),
            final(mem)@.wf(),
    {
        let pc = self.pc;
        match self.push_u16(mem, pc) {
            Ok(()) => {
                self.set_pc(addr);
                Ok(())
            },
            Err(e) => Err(e),
        }
    }

    /// Returns from a routine.
    pub fn ret<M: Mapper>(&mut self, mem: &Memory<M>)
        ensures
            *final(self) == old(self).spec_ret(mem@),
    {
        let pc = self.pop_u16(mem);
        self.set_pc(pc);
    }

    /// Adds 1 to the byte that `hl` points to.
    pub fn increment_mhl<M: Mapper>(&mut self, mem: &mut Memory<M>) -> (r: Result<(), Error>)
        ensures
            old(self).spec_increment_mhl(old(mem)@) == (Outcome { cpu: *final(self), mem: final(mem)@, result: r }),
            final(self).flag_z() == ((old(mem)@.read_u8(old(self).hl()) + 1) % 256 == 0),
            !final(self).flag_n(),
            final(self).flag_h() == ((old(mem)@.read_u8(old(self).hl()) + 1) % 16 == 0),
            final(self).flag_c() == old(self).flag_c(),
            final(mem)@.wf(),
    {
        let addr = Addr(self.hl());
        let value = mem.read_u8(addr).wrapping_add(1);
        self.increment_affect_flags(value as u16);
        mem.write_u8(addr, value)
    }

    /// Subtracts 1 from the byte that `hl` points to.
    pub fn decrement_mhl<M: Mapper>(&mut self, mem: &mut Memory<M>) -> (r: Result<(), Error>)
        ensures
            old(self).spec_decrement_mhl(old(mem)@) == (Outcome { cpu: *final(self), mem: final(mem)@, result: r }),
            final(self).flag_z() == ((old(mem)@.read_u8(old(self).hl()) - 1) % 256 == 0),
            final(self).flag_n(),
            final(self).flag_h() == ((old(mem)@.read_u8(old(self).hl()) - 1) % 16 == 15),
            final(self).flag_c() == old(self).flag_c(),
            final(mem)@.wf(),
    {
        let addr = Addr(self.hl());
        let value = mem.read_u8(addr).wrapping_sub(1);
        self.decrement_affect_flags(value as u16);
        mem.write_u8(addr, value)
    }
}

} // verus!

//! Laws that relate the operations of the machine to one another, stated
//! over the mathematical model and proved.

use vstd::prelude::*;
use crate::bits::{
    high_byte, low_byte, word, pack_flags, lemma_flag_mask, lemma_low_bits, lemma_pack_flags,
};
use crate::cpu::Cpu;
use crate::instructions::decode::signed;
use crate::instructions::{ExtendedInstruction, Instruction};
use crate::mapper::mbc1::{Mbc1, selects_rom_bank};
use crate::mapper::{Mapper, in_banked_ram, in_banked_rom};
use crate::memory::{Location, MemoryModel};
use crate::stack::wrap16;

verus! {

/// Whether `addr` has storage of its own behind it, so that a byte written
/// to it is read back from it: work RAM and its echo, high RAM, and the
/// interrupt-enable register.
pub open spec fn is_storage(addr: u16) -> bool {
    0xC000 <= addr < 0xFE00 || 0xFF80 <= addr
}

/// The controller after a write of `value` to `addr`, whether the write
/// failed or not.
pub open spec fn mapper_after<M: Mapper>(mapper: M, rom: Seq<u8>, addr: u16, value: u8) -> M {
    match mapper.write_model(rom, addr, value) {
        Ok(next) => next,
        Err(_) => mapper,
    }
}

/// The four flags are read back as they were set, and setting them changes
/// no register and no bit of the unused low nibble of the flag byte.
pub proof fn law_flags_read_back(cpu: Cpu, z: bool, n: bool, h: bool, c: bool)
    ensures
        cpu.with_flags(z, n, h, c).flag_z() == z,
        cpu.with_flags(z, n, h, c).flag_n() == n,
        cpu.with_flags(z, n, h, c).flag_h() == h,
        cpu.with_flags(z, n, h, c).flag_c() == c,
        cpu.with_flags(z, n, h, c).f % 16 == cpu.f % 16,
        cpu.with_flags(z, n, h, c) == (Cpu { f: cpu.with_flags(z, n, h, c).f, ..cpu }),
        cpu.with_flags(cpu.flag_z(), cpu.flag_n(), cpu.flag_h(), cpu.flag_c()) == cpu,
{
    lemma_pack_flags(cpu.f, z, n, h, c);
    lemma_low_bits(cpu.f);
    lemma_low_bits(pack_flags(cpu.f, z, n, h, c));
}

/// The flag byte is observed with a low nibble of 0, whatever was stored.
pub proof fn law_flag_byte_low_nibble(cpu: Cpu)
    ensures
        cpu.f() % 16 == 0,
        cpu.af() % 16 == 0,
        cpu.f() / 16 == cpu.f / 16,
        cpu.observed().flag_z() == cpu.flag_z(),
        cpu.observed().flag_n() == cpu.flag_n(),
        cpu.observed().flag_h() == cpu.flag_h(),
        cpu.observed().flag_c() == cpu.flag_c(),
{
    lemma_flag_mask(cpu.f);
}

/// A write keeps the backing stores at their sizes.
pub proof fn law_write_keeps_well_formed<M: Mapper>(mem: MemoryModel<M>, addr: u16, value: u8)
    requires
        mem.wf(),
    ensures
        mem.write_u8(addr, value).0.wf(),
{
}

/// A byte written to an address with storage behind it is read back from
/// that address, and the write does not fail.
pub proof fn law_write_then_read<M: Mapper>(mem: MemoryModel<M>, addr: u16, value: u8)
    requires
        mem.wf(),
        is_storage(addr),
    ensures
        mem.write_u8(addr, value).1 is Ok,
        mem.write_u8(addr, value).0.read_u8(addr) == value,
{
}

/// A write to an address with storage behind it changes what is read from
/// that address and from its alias in the other of work RAM and its echo, and
/// from no other address.
pub proof fn law_write_is_local<M: Mapper>(mem: MemoryModel<M>, addr: u16, value: u8, other: u16)
    requires
        mem.wf(),
        is_storage(addr),
        Location::of(other) != Location::of(addr),
    ensures
        mem.write_u8(addr, value).0.read_u8(other) == mem.read_u8(other),
{
}

/// A 16-bit word written to two addresses with storage behind them is read
/// back from them.
pub proof fn law_write_then_read_u16<M: Mapper>(mem: MemoryModel<M>, addr: u16, value: u16)
    requires
        mem.wf(),
        is_storage(addr),
        is_storage(wrap16(addr, 1)),
    ensures
        mem.write_u16(addr, value).1 is Ok,
        mem.write_u16(addr, value).0.read_u16(addr) == value,
{
}

/// A push moves the stack pointer down by 2 and the pop after it moves it up
/// by 2: the two together leave every register as it was.
pub proof fn law_push_pop_restores_registers<M: Mapper>(cpu: Cpu, mem: MemoryModel<M>, value: u16)
    ensures
        cpu.spec_push_u16(mem, value).cpu.sp == wrap16(cpu.sp, -2),
        cpu.spec_push_u16(mem, value).cpu.spec_pop_u16().sp == wrap16(wrap16(cpu.sp, -2), 2),
        cpu.spec_push_u16(mem, value).cpu.spec_pop_u16() == cpu,
{
}

/// A word pushed to a stack that lies in storage is the word that the next
/// pop returns.
pub proof fn law_push_pop_round_trip<M: Mapper>(cpu: Cpu, mem: MemoryModel<M>, value: u16)
    requires
        mem.wf(),
        is_storage(wrap16(cpu.sp, -2)),
        is_storage(wrap16(cpu.sp, -1)),
    ensures
        cpu.spec_push_u16(mem, value).result is Ok,
        cpu.spec_push_u16(mem, value).mem.read_u16(cpu.spec_push_u16(mem, value).cpu.sp) == value,
{
}

/// Whether a read of `addr` gives `value` after `value` was written to it:
/// the address has storage behind it, or it reads as `value` whatever is
/// written.
pub open spec fn reads_back<M: Mapper>(mem: MemoryModel<M>, addr: u16, value: u8) -> bool {
    is_storage(addr) || mem.read_u8(addr) == value
}

/// Outside the two windows of the cartridge controller a push never fails,
/// and the next pop returns the pushed word exactly where each of its two
/// bytes is read back from its address.
pub proof fn law_push_pop_outside_banked_windows<M: Mapper>(cpu: Cpu, mem: MemoryModel<M>, value: u16)
    requires
        mem.wf(),
        !in_banked_rom(wrap16(cpu.sp, -2)) && !in_banked_ram(wrap16(cpu.sp, -2)),
        !in_banked_rom(wrap16(cpu.sp, -1)) && !in_banked_ram(wrap16(cpu.sp, -1)),
    ensures
        cpu.spec_push_u16(mem, value).result is Ok,
        cpu.spec_push_u16(mem, value).mem.read_u16(cpu.spec_push_u16(mem, value).cpu.sp) == value <==> reads_back(
            mem,
            wrap16(cpu.sp, -2),
            low_byte(value),
        ) && reads_back(mem, wrap16(cpu.sp, -1), high_byte(value)),
{
}

/// A byte pushed to a stack that lies in storage is the byte that the next
/// pop returns, and the two together leave every register as it was.
pub proof fn law_push_pop_u8_round_trip<M: Mapper>(cpu: Cpu, mem: MemoryModel<M>, value: u8)
    requires
        mem.wf(),
        is_storage(wrap16(cpu.sp, -1)),
    ensures
        cpu.spec_push_u8(mem, value).result is Ok,
        cpu.spec_push_u8(mem, value).mem.read_u8(cpu.spec_push_u8(mem, value).cpu.sp) == value,
        cpu.spec_push_u8(mem, value).cpu.spec_pop_u8() == cpu,
{
}

/// Work RAM and its echo are the same bytes: a byte written to one is read
/// from the other, at every offset that the echo reaches.
pub proof fn law_echo_aliases_work_ram<M: Mapper>(mem: MemoryModel<M>, offset: u16, value: u8)
    requires
        mem.wf(),
        offset < 0x1E00,
    ensures
        mem.write_u8((0xC000 + offset) as u16, value).0.read_u8((0xE000 + offset) as u16) == value,
        mem.write_u8((0xE000 + offset) as u16, value).0.read_u8((0xC000 + offset) as u16) == value,
{
}

/// A write of 0 to the ROM-bank register leaves the controller as a write of
/// 1 does, so that every later read gives the same byte.
pub proof fn law_bank_zero_selects_bank_one(mapper: Mbc1, rom: Seq<u8>, addr: u16, read: u16)
    requires
        selects_rom_bank(addr),
    ensures
        mapper_after(mapper, rom, addr, 0) == mapper_after(mapper, rom, addr, 1),
        mapper.write_model(rom, addr, 0) is Ok <==> mapper.write_model(rom, addr, 1) is Ok,
        mapper_after(mapper, rom, addr, 0).read_model(rom, read) == mapper_after(mapper, rom, addr, 1).read_model(
            rom,
            read,
        ),
{
}

/// No write makes the selected bank 0.
pub proof fn law_bank_is_never_zero(mapper: Mbc1, rom: Seq<u8>, addr: u16, value: u8)
    requires
        mapper.wf(),
    ensures
        mapper_after(mapper, rom, addr, value).wf(),
{
}

/// The opcode `0x00` is the no-op at every address: one byte, four cycles.
pub proof fn law_decode_nop<M: Mapper>(mem: MemoryModel<M>, addr: u16)
    requires
        mem.read_u8(addr) == 0x00,
    ensures
        Instruction::spec_decode(mem, addr) == Ok::<Instruction, crate::error::Error>(Instruction::NOP),
        Instruction::NOP.len() == 1,
        Instruction::NOP.cycles() == 4,
{
    reveal(Instruction::spec_decode);
}

/// The opcode `0xCD` with the two bytes behind it is the call of the address
/// that they spell, low byte first: three bytes, twelve cycles.
pub proof fn law_decode_call<M: Mapper>(mem: MemoryModel<M>, addr: u16, low: u8, high: u8)
    requires
        mem.read_u8(addr) == 0xCD,
        mem.read_u8(wrap16(addr, 1)) == low,
        mem.read_u8(wrap16(addr, 2)) == high,
    ensures
        Instruction::spec_decode(mem, addr) == Ok::<Instruction, crate::error::Error>(
            Instruction::CALL_nn(word(high, low)),
        ),
        Instruction::CALL_nn(word(high, low)).len() == 3,
        Instruction::CALL_nn(word(high, low)).cycles() == 12,
{
    reveal(Instruction::spec_decode);
}

/// Behind the prefix opcode stands an extended instruction; the two together
/// are one byte longer and cost one cycle more than the extended instruction
/// alone.
pub proof fn law_decode_extended<M: Mapper>(mem: MemoryModel<M>, addr: u16)
    requires
        mem.read_u8(addr) == 0xCB,
    ensures
        match ExtendedInstruction::spec_decode(mem, wrap16(addr, 1)) {
            Ok(inner) => Instruction::spec_decode(mem, addr) == Ok::<Instruction, crate::error::Error>(
                Instruction::Extended(inner),
            ) && Instruction::Extended(inner).len() == 1 + inner.len() && Instruction::Extended(inner).cycles() == 1
                + inner.cycles(),
            Err(e) => Instruction::spec_decode(mem, addr) == Err::<Instruction, crate::error::Error>(e),
        },
{
    reveal(Instruction::spec_decode);
}

/// A relative jump by the displacement that a byte spells moves the program
/// counter up by the byte if it is below 128, and down by 256 less the byte
/// if it is not.
pub proof fn law_relative_jump(cpu: Cpu, displacement: u8)
    ensures
        displacement < 128 ==> cpu.spec_jump_routine(signed(displacement)).pc == wrap16(cpu.pc, displacement as int),
        displacement >= 128 ==> cpu.spec_jump_routine(signed(displacement)).pc == wrap16(
            cpu.pc,
            displacement - 256,
        ),
{
}

} // verus!

//! The bank-switching controller with a ROM-bank register and a mode
//! register.

use vstd::prelude::*;
use crate::addr::Addr;
use crate::bits::lemma_low_bits;
use crate::error::Error;
use crate::mapper::{Mapper, in_banked_rom, in_banked_ram};

verus! {

/// The two banking modes of the controller.
#[derive(Clone, Copy, Debug, PartialEq, Eq, Structural)]
pub enum Mode {
    Mode16MbitRom8KbyteRam,
    Mode4MbitRom32KbyteRam,
}

pub struct Mbc1 {
    pub mode: Mode,
    pub rom_bank: u8,
}

/// Whether a write to `addr` addresses the ROM-bank register.
pub open spec fn selects_rom_bank(addr: u16) -> bool {
    0x2000 <= addr < 0x4000
}

/// Whether a write to `addr` addresses the mode register.
pub open spec fn selects_mode(addr: u16) -> bool {
    0x6000 <= addr < 0x8000
}

/// The bank that a write of `value` to the ROM-bank register selects: the two
/// low bits of `value`, and bank 1 where they are zero.
pub open spec fn bank_for(value: u8) -> u8 {
    if value % 4 == 0 {
        1
    } else {
        value % 4
    }
}

/// The mode that a write of `value` to the mode register selects, by its
/// lowest bit.
pub open spec fn mode_for(value: u8) -> Mode {
    if value % 2 == 0 {
        Mode::Mode16MbitRom8KbyteRam
    } else {
        Mode::Mode4MbitRom32KbyteRam
    }
}

impl Mbc1 {
    /// A bank number is never 0.
    pub open spec fn wf(&self) -> bool {
        1 <= self.rom_bank <= 3
    }

    /// The controller's state at power-on.
    pub open spec fn power_on() -> Mbc1 {
        Mbc1 { mode: Mode::Mode16MbitRom8KbyteRam, rom_bank: 1 }
    }

    pub fn new() -> (m: Mbc1)
        ensures
            m == Mbc1::power_on(),
            m.wf(),
    {
        Mbc1 { mode: Mode::Mode16MbitRom8KbyteRam, rom_bank: 1 }
    }

    pub fn select_memory_model(&mut self, value: u8)
        ensures
            *final(self) == (Mbc1 { mode: mode_for(value), ..*old(self) }),
    {
        proof {
            lemma_low_bits(value);
        }
        if value & 0b1 == 0 {
            self.mode = Mode::Mode16MbitRom8KbyteRam;
        } else {
            self.mode = Mode::Mode4MbitRom32KbyteRam;
        }
    }

    pub fn select_rom_bank(&mut self, value: u8)
        ensures
            *final(self) == (Mbc1 { rom_bank: bank_for(value), ..*old(self) }),
            final(self).wf(),
    {
        proof {
            lemma_low_bits(value);
        }
        let bank = value & 0b11;
        if bank == 0 {
            self.rom_bank = 1;
        } else {
            self.rom_bank = bank;
        }
    }
}

impl Mapper for Mbc1 {
    /// Cartridge RAM has no backing store and reads as 0; the ROM window
    /// serves the image at the address as given.
    open spec fn read_model(&self, rom: Seq<u8>, addr: u16) -> u8 {
        if in_banked_rom(addr) {
            rom[addr as int]
        } else {
            0
        }
    }

    /// A write to cartridge RAM is discarded. In the 16 Mbit mode a write to
    /// the ROM-bank register selects a bank and one to the mode register
    /// selects a mode. Every other write is a failure.
    open spec fn write_model(&self, rom: Seq<u8>, addr: u16, value: u8) -> Result<Mbc1, Error> {
        if in_banked_ram(addr) {
            Ok(*self)
        } else if self.mode == Mode::Mode16MbitRom8KbyteRam && selects_rom_bank(addr) {
            Ok(Mbc1 { rom_bank: bank_for(value), ..*self })
        } else if self.mode == Mode::Mode16MbitRom8KbyteRam && selects_mode(addr) {
            Ok(Mbc1 { mode: mode_for(value), ..*self })
        } else {
            Err(Error::MapperWrite { addr, value })
        }
    }

    fn read_u8(&self, rom: &[u8], addr: Addr) -> (r: u8) {
        let a = addr.0;
        if 0x4000 <= a && a < 0x8000 {
            rom[a as usize]
        } else {
            0
        }
    }

    fn write_u8(&mut self, rom: &[u8], addr: Addr, value: u8) -> (r: Result<(), Error>) {
        let a = addr.0;
        if 0xA000 <= a && a < 0xC000 {
            return Ok(());
        }
        match self.mode {
            Mode::Mode16MbitRom8KbyteRam => {
                if 0x6000 <= a && a < 0x8000 {
                    self.select_memory_model(value);
                    Ok(())
                } else if 0x2000 <= a && a < 0x4000 {
                    self.select_rom_bank(value);
                    Ok(())
                } else {
                    Err(Error::MapperWrite { addr: a, value })
                }
            },
            Mode::Mode4MbitRom32KbyteRam => Err(Error::MapperWrite { addr: a, value }),
        }
    }
}

} // verus!

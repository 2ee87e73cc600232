//! The address space: thirteen address ranges, each routed to its backing
//! store. The two banked windows belong to the cartridge controller.

use vstd::prelude::*;
pub use crate::addr::Addr;
use crate::error::Error;
use crate::mapper::Mapper;
use crate::mapper::mbc1::Mbc1;
use crate::mapper::{from_rom, supported_mapper};
use crate::rom::Rom;
use crate::bits::{high_byte, low_byte, word, lemma_word_bits};
use crate::util::split_u16;

verus! {

/// Bytes of work RAM.
pub const RAM_SIZE: usize = 0x2000;

/// Bytes of the high-RAM page; the last one is never addressed.
pub const HIGH_RAM_SIZE: usize = 128;

/// The least length of a cartridge image: the fixed bank and one switchable
/// bank.
pub const MIN_ROM_SIZE: usize = 0x8000;

/// The byte that ends a line on the serial port.
pub const NEWLINE: u8 = 0x0A;

/// The region that an address belongs to, with the offset into the region's
/// backing store where it has one.
#[derive(Clone, Copy, Debug, PartialEq, Eq, Structural)]
pub enum Location {
    InterruptEnable,
    InternalRam128(u16),
    SerialPort,
    Empty,
    IOStub,
    OAM(u16),
    InternalRam8k(u16),
    SwitchableRam,
    VRAM(u16),
    SwitchableRom,
    ROM0(u16),
}

impl Location {
    /// The region of `addr`. The ranges are tried from the top of the address
    /// space down, and the serial port before the I/O block that surrounds it.
    pub open spec fn of(addr: u16) -> Location {
        if addr == 0xFFFF {
            Location::InterruptEnable
        } else if addr >= 0xFF80 {
            Location::InternalRam128((addr - 0xFF80) as u16)
        } else if addr >= 0xFF4C {
            Location::Empty
        } else if addr == 0xFF01 {
            Location::SerialPort
        } else if addr >= 0xFF00 {
            Location::IOStub
        } else if addr >= 0xFEA0 {
            Location::Empty
        } else if addr >= 0xFE00 {
            Location::OAM((addr - 0xFE00) as u16)
        } else if addr >= 0xE000 {
            Location::InternalRam8k((addr - 0xE000) as u16)
        } else if addr >= 0xC000 {
            Location::InternalRam8k((addr - 0xC000) as u16)
        } else if addr >= 0xA000 {
            Location::SwitchableRam
        } else if addr >= 0x8000 {
            Location::VRAM((addr - 0x8000) as u16)
        } else if addr >= 0x4000 {
            Location::SwitchableRom
        } else {
            Location::ROM0(addr)
        }
    }

    /// An offset never leaves its region's backing store.
    pub open spec fn in_bounds(self) -> bool {
        match self {
            Location::InternalRam128(offset) => offset < HIGH_RAM_SIZE - 1,
            Location::OAM(offset) => offset < 0xA0,
            Location::InternalRam8k(offset) => offset < RAM_SIZE,
            Location::VRAM(offset) => offset < 0x2000,
            Location::ROM0(offset) => offset < 0x4000,
            _ => true,
        }
    }

    pub fn from_addr(addr: u16) -> (r: Location)
        ensures
            r == Location::of(addr),
            r.in_bounds(),
    {
        match addr {
            0xFFFF => Location::InterruptEnable,
            0xFF80..=0xFFFE => Location::InternalRam128(addr - 0xFF80),
            0xFF4C..=0xFF7F => Location::Empty,
            0xFF01 => Location::SerialPort,
            0xFF00..=0xFF4B => Location::IOStub,
            0xFEA0..=0xFEFF => Location::Empty,
            0xFE00..=0xFE9F => Location::OAM(addr - 0xFE00),
            0xE000..=0xFDFF => Location::InternalRam8k(addr - 0xE000),
            0xC000..=0xDFFF => Location::InternalRam8k(addr - 0xC000),
            0xA000..=0xBFFF => Location::SwitchableRam,
            0x8000..=0x9FFF => Location::VRAM(addr - 0x8000),
            0x4000..=0x7FFF => Location::SwitchableRom,
            _ => Location::ROM0(addr),
        }
    }
}

/// The address space as a mathematical value.
pub struct MemoryModel<M> {
    /// The cartridge controller.
    pub mapper: M,
    /// The cartridge image.
    pub rom: Seq<u8>,
    /// Work RAM, which the echo range aliases.
    pub ram: Seq<u8>,
    /// The high-RAM page.
    pub high_ram: Seq<u8>,
    /// The interrupt-enable register.
    pub interrupt_enable: u8,
    /// The bytes sent to the serial port since the last newline.
    pub serial_line: Seq<u8>,
    /// The last line that a newline on the serial port completed.
    pub flushed_line: Option<Seq<u8>>,
}

impl<M: Mapper> MemoryModel<M> {
    /// The backing stores have their sizes, and the image holds both ROM
    /// windows.
    pub open spec fn wf(self) -> bool {
        &&& self.rom.len() >= MIN_ROM_SIZE
        &&& self.ram.len() == RAM_SIZE
        &&& self.high_ram.len() == HIGH_RAM_SIZE
    }

    /// The address space at power-on over the image `rom`.
    pub open spec fn power_on(rom: Seq<u8>, mapper: M) -> Self {
        MemoryModel {
            mapper,
            rom,
            ram: Seq::new(RAM_SIZE as nat, |i: int| 0u8),
            high_ram: Seq::new(HIGH_RAM_SIZE as nat, |i: int| 0u8),
            interrupt_enable: 0,
            serial_line: Seq::empty(),
            flushed_line: None,
        }
    }

    /// The byte that a read of `addr` returns. Video RAM, object attribute
    /// memory, the I/O registers, the serial port and the unusable ranges
    /// read as 0.
    pub open spec fn read_u8(self, addr: u16) -> u8 {
        match Location::of(addr) {
            Location::InterruptEnable => self.interrupt_enable,
            Location::InternalRam128(offset) => self.high_ram[offset as int],
            Location::InternalRam8k(offset) => self.ram[offset as int],
            Location::SwitchableRam => self.mapper.read_model(self.rom, addr),
            Location::SwitchableRom => self.mapper.read_model(self.rom, addr),
            Location::ROM0(offset) => self.rom[offset as int],
            _ => 0,
        }
    }

    /// The 16-bit word that a read of `addr` returns: its low byte from
    /// `addr`, its high byte from the address after it.
    pub open spec fn read_u16(self, addr: u16) -> u16 {
        word(self.read_u8(Addr(addr).offset(1).0), self.read_u8(addr))
    }

    /// The serial port after it has taken `value`: a newline completes the
    /// line, every other byte is appended to it.
    pub open spec fn serial_log(self, value: u8) -> Self {
        if value == NEWLINE {
            MemoryModel { serial_line: Seq::empty(), flushed_line: Some(self.serial_line), ..self }
        } else {
            MemoryModel { serial_line: self.serial_line.push(value), ..self }
        }
    }

    /// The address space after a write of `value` to `addr`, and the failure
    /// that the write is where the cartridge controller rejects it. Writes to
    /// the fixed ROM bank, video RAM, object attribute memory, the I/O
    /// registers and the unusable ranges are discarded.
    pub open spec fn write_u8(self, addr: u16, value: u8) -> (Self, Result<(), Error>) {
        match Location::of(addr) {
            Location::InterruptEnable => (MemoryModel { interrupt_enable: value, ..self }, Ok(())),
            Location::InternalRam128(offset) => (
                MemoryModel { high_ram: self.high_ram.update(offset as int, value), ..self },
                Ok(()),
            ),
            Location::InternalRam8k(offset) => (
                MemoryModel { ram: self.ram.update(offset as int, value), ..self },
                Ok(()),
            ),
            Location::SerialPort => (self.serial_log(value), Ok(())),
            Location::SwitchableRam | Location::SwitchableRom => match self.mapper.write_model(
                self.rom,
                addr,
                value,
            ) {
                Ok(mapper) => (MemoryModel { mapper, ..self }, Ok(())),
                Err(e) => (self, Err(e)),
            },
            _ => (self, Ok(())),
        }
    }

    /// The address space after a write of the 16-bit word `value` to `addr`:
    /// the low byte goes to `addr`, then the high byte to the address after
    /// it. A failure of the first write stops the second.
    pub open spec fn write_u16(self, addr: u16, value: u16) -> (Self, Result<(), Error>) {
        let first = self.write_u8(addr, low_byte(value));
        if first.1 is Err {
            first
        } else {
            first.0.write_u8(Addr(addr).offset(1).0, high_byte(value))
        }
    }
}

/// A cartridge image that holds both ROM windows.
struct Image {
    data: Vec<u8>,
}

impl Image {
    #[verifier::type_invariant]
    spec fn inv(self) -> bool {
        self.data@.len() >= MIN_ROM_SIZE
    }

    closed spec fn view(&self) -> Seq<u8> {
        self.data@
    }

    fn new(rom: Rom) -> (r: Image)
        requires
            rom.data@.len() >= MIN_ROM_SIZE,
        ensures
            r@ == rom.data@,
    {
        Image { data: rom.data }
    }

    fn bytes(&self) -> (r: &[u8])
        ensures
            r@ == self@,
            r@.len() >= MIN_ROM_SIZE,
    {
        proof {
            use_type_invariant(self);
        }
        self.data.as_slice()
    }
}

/// The address space of the machine.
pub struct Memory<M: Mapper> {
    mapper: M,
    stack: [u8; 128],
    ram: [u8; 8192],
    rom: Image,
    interrupt_enable: u8,
    serial_line: Vec<u8>,
    flushed_line: Option<Vec<u8>>,
}

impl Memory<Mbc1> {
    /// The address space at power-on over the cartridge `rom`, with the
    /// controller that the cartridge's header asks for.
    pub fn new(rom: Rom) -> (r: Result<Self, Error>)
        requires
            rom.data@.len() >= MIN_ROM_SIZE,
        ensures
            match supported_mapper(rom.data@) {
                Ok(mapper) => r is Ok && r->Ok_0@ == MemoryModel::power_on(rom.data@, mapper) && r->Ok_0@.wf(),
                Err(e) => r is Err && r->Err_0 == e,
            },
    {
        match from_rom(&rom) {
            Ok(mapper) => Ok(Memory::with_mapper(rom, mapper)),
            Err(e) => Err(e),
        }
    }
}

impl<M: Mapper> Memory<M> {
    pub closed spec fn view(&self) -> MemoryModel<M> {
        MemoryModel {
            mapper: self.mapper,
            rom: self.rom@,
            ram: self.ram@,
            high_ram: self.stack@,
            interrupt_enable: self.interrupt_enable,
            serial_line: self.serial_line@,
            flushed_line: match self.flushed_line {
                Some(line) => Some(line@),
                None => None,
            },
        }
    }

    /// The address space at power-on over the cartridge `rom` and the
    /// controller `mapper`.
    pub fn with_mapper(rom: Rom, mapper: M) -> (r: Self)
        requires
            rom.data@.len() >= MIN_ROM_SIZE,
        ensures
            r@ == MemoryModel::power_on(rom.data@, mapper),
            r@.wf(),
    {
        let r = Memory {
            mapper,
            stack: [0; 128],
            ram: [0; 8192],
            rom: Image::new(rom),
            interrupt_enable: 0,
            serial_line: Vec::new(),
            flushed_line: None,
        };
        assert(r@.ram =~= Seq::new(RAM_SIZE as nat, |i: int| 0u8));
        assert(r@.high_ram =~= Seq::new(HIGH_RAM_SIZE as nat, |i: int| 0u8));
        assert(r@.serial_line =~= Seq::empty());
        r
    }

    pub fn read_u8(&self, addr: Addr) -> (r: u8)
        ensures
            r == self@.read_u8(addr.0),
            self@.wf(),
    {
        let rom = self.rom.bytes();
        match Location::from_addr(addr.0) {
            Location::InterruptEnable => self.interrupt_enable,
            Location::InternalRam128(offset) => self.stack[offset as usize],
            Location::Empty => 0,
            Location::SerialPort => 0,
            Location::IOStub => 0,
            Location::OAM(_offset) => 0,
            Location::InternalRam8k(offset) => self.ram[offset as usize],
            Location::SwitchableRam => self.mapper.read_u8(rom, addr),
            Location::VRAM(_offset) => 0,
            Location::SwitchableRom => self.mapper.read_u8(rom, addr),
            Location::ROM0(offset) => rom[offset as usize],
        }
    }

    pub fn write_u8(&mut self, addr: Addr, value: u8) -> (r: Result<(), Error>)
        ensures
            (final(self)@, r) == old(self)@.write_u8(addr.0, value),
            final(self)@.wf(),
    {
        let ghost before = self@;
        let rom = self.rom.bytes();
        let r = match Location::from_addr(addr.0) {
            Location::InterruptEnable => {
                self.interrupt_enable = value;
                Ok(())
            },
            Location::InternalRam128(offset) => {
                self.stack[offset as usize] = value;
                Ok(())
            },
            Location::Empty => Ok(()),
            Location::SerialPort => {
                self.serial_log(value);
                Ok(())
            },
            Location::IOStub => Ok(()),
            Location::OAM(_offset) => Ok(()),
            Location::InternalRam8k(offset) => {
                self.ram[offset as usize] = value;
                Ok(())
            },
            Location::SwitchableRam => self.mapper.write_u8(rom, addr, value),
            Location::VRAM(_offset) => Ok(()),
            Location::SwitchableRom => self.mapper.write_u8(rom, addr, value),
            Location::ROM0(_offset) => Ok(()),
        };
        proof {
            let after = before.write_u8(addr.0, value).0;
            assert(self@.ram =~= after.ram);
            assert(self@.high_ram =~= after.high_ram);
        }
        r
    }

    fn serial_log(&mut self, ch: u8)
        ensures
            final(self)@ == old(self)@.serial_log(ch),
    {
        if ch == NEWLINE {
            let mut line = Vec::new();
            core::mem::swap(&mut line, &mut self.serial_line);
            self.flushed_line = Some(line);
        } else {
            self.serial_line.push(ch);
        }
    }

    pub fn read_u16(&self, addr: Addr) -> (r: u16)
        ensures
            r == self@.read_u16(addr.0),
    {
        let low = self.read_u8(addr);
        let high = self.read_u8(addr + 1);
        proof {
            lemma_word_bits(high, low);
        }
        (high as u16) << 8 | low as u16
    }

    pub fn write_u16(&mut self, addr: Addr, value: u16) -> (r: Result<(), Error>)
        ensures
            (final(self)@, r) == old(self)@.write_u16(addr.0, value),
            final(self)@.wf(),
    {
        let (high, low) = split_u16(value);
        match self.write_u8(addr, low) {
            Ok(()) => self.write_u8(addr + 1, high),
            Err(e) => Err(e),
        }
    }

    /// The highest address.
    pub fn size(&self) -> (r: u16)
        ensures
            r == 0xFFFF,
    {
        0xFFFF
    }

    /// The bytes sent to the serial port since the last newline.
    pub fn serial_line(&self) -> (r: &Vec<u8>)
        ensures
            r@ == self@.serial_line,
    {
        &self.serial_line
    }

    /// Hands out the line that the last newline on the serial port completed,
    /// if one was completed since the last call.
    pub fn take_flushed_line(&mut self) -> (r: Option<Vec<u8>>)
        ensures
            final(self)@ == (MemoryModel { flushed_line: None, ..old(self)@ }),
            match r {
                Some(line) => old(self)@.flushed_line == Some(line@),
                None => old(self)@.flushed_line is None,
            },
    {
        let mut line = None;
        core::mem::swap(&mut line, &mut self.flushed_line);
        line
    }
}

} // verus!

//! A cartridge image and the three codes of its header.

use vstd::prelude::*;

verus! {

/// Offset of the cartridge-type code.
pub const TYPE_OFFSET: usize = 0x0147;

/// Offset of the ROM-size code.
pub const ROM_SIZE_OFFSET: usize = 0x0148;

/// Offset of the RAM-size code.
pub const RAM_SIZE_OFFSET: usize = 0x0149;

/// A cartridge image: the flat bytes of the whole ROM.
pub struct Rom {
    pub data: Vec<u8>,
}

/// The byte at `offset` of `data`, where the image is long enough to hold it.
pub open spec fn header_code(data: Seq<u8>, offset: int) -> Option<u8> {
    if 0 <= offset < data.len() {
        Some(data[offset])
    } else {
        None
    }
}

impl Rom {
    /// The code at `offset` of the image, if the image reaches that far.
    pub fn code_at(&self, offset: usize) -> (r: Option<u8>)
        ensures
            r == header_code(self.data@, offset as int),
    {
        if offset < self.data.len() {
            Some(self.data[offset])
        } else {
            None
        }
    }

    /// The cartridge type that the header names; `UNKNOWN` where the code is
    /// not a known one or the image is too short to hold a header.
    pub fn typ(&self) -> (r: Type)
        ensures
            r == Type::of_header(header_code(self.data@, TYPE_OFFSET as int)),
    {
        match self.code_at(TYPE_OFFSET) {
            Some(code) => match Type::try_from(code) {
                Some(t) => t,
                None => Type::UNKNOWN,
            },
            None => Type::UNKNOWN,
        }
    }

    /// The ROM size that the header names; `UNKNOWN` where the code is not a
    /// known one or the image is too short to hold a header.
    pub fn rom_size(&self) -> (r: RomSize)
        ensures
            r == RomSize::of_header(header_code(self.data@, ROM_SIZE_OFFSET as int)),
    {
        match self.code_at(ROM_SIZE_OFFSET) {
            Some(code) => match RomSize::try_from(code) {
                Some(s) => s,
                None => RomSize::UNKNOWN,
            },
            None => RomSize::UNKNOWN,
        }
    }

    /// The RAM size that the header names; `UNKNOWN` where the code is not a
    /// known one or the image is too short to hold a header.
    pub fn ram_size(&self) -> (r: RamSize)
        ensures
            r == RamSize::of_header(header_code(self.data@, RAM_SIZE_OFFSET as int)),
    {
        match self.code_at(RAM_SIZE_OFFSET) {
            Some(code) => match RamSize::try_from(code) {
                Some(s) => s,
                None => RamSize::UNKNOWN,
            },
            None => RamSize::UNKNOWN,
        }
    }
}

/// The cartridge controller and extras that a cartridge carries.
#[allow(non_camel_case_types)]
#[derive(Clone, Copy, Debug, PartialEq, Eq, Structural, PartialOrd, Ord)]
pub enum Type {
    Rom,
    RomMbc1,
    RomMbc1_Ram,
    RomMbc1RamBatt,
    RomMbc2,
    RomMbc2Batt,
    RomRam,
    RomRamBatt,
    RomMmm01,
    RomMmm01Sram,
    RomMmm01SramBatt,
    RomMbc3Ram,
    RomMbc3RamBatt,
    RomMbc5,
    RomMbc5Ram,
    RomMbc5RamBatt,
    RomMbc5Rumble,
    RomMbc5RumbleSram,
    RomMbc5RumbleSramBatt,
    PocketCamera,
    BandaiTAMA5,
    HudsonHuC3,
    UNKNOWN,
}

impl Type {
    /// The type that a header code stands for, if it stands for one.
    pub open spec fn of_code(code: u8) -> Option<Type> {
        match code {
            0x00 => Some(Type::Rom),
            0x01 => Some(Type::RomMbc1),
            0x02 => Some(Type::RomMbc1_Ram),
            0x03 => Some(Type::RomMbc1RamBatt),
            0x05 => Some(Type::RomMbc2),
            0x06 => Some(Type::RomMbc2Batt),
            0x08 => Some(Type::RomRam),
            0x09 => Some(Type::RomRamBatt),
            0x0B => Some(Type::RomMmm01),
            0x0C => Some(Type::RomMmm01Sram),
            0x0D => Some(Type::RomMmm01SramBatt),
            0x12 => Some(Type::RomMbc3Ram),
            0x13 => Some(Type::RomMbc3RamBatt),
            0x19 => Some(Type::RomMbc5),
            0x1A => Some(Type::RomMbc5Ram),
            0x1B => Some(Type::RomMbc5RamBatt),
            0x1C => Some(Type::RomMbc5Rumble),
            0x1D => Some(Type::RomMbc5RumbleSram),
            0x1E => Some(Type::RomMbc5RumbleSramBatt),
            0x1F => Some(Type::PocketCamera),
            0xFD => Some(Type::BandaiTAMA5),
            0xFE => Some(Type::HudsonHuC3),
            _ => None,
        }
    }

    /// The type that a header gives: `UNKNOWN` without a code or with a code
    /// that stands for none.
    pub open spec fn of_header(code: Option<u8>) -> Type {
        match code {
            Some(c) => match Type::of_code(c) {
                Some(t) => t,
                None => Type::UNKNOWN,
            },
            None => Type::UNKNOWN,
        }
    }

    /// The type that `code` stands for, or `None` for a code that stands for
    /// none. `UNKNOWN` has no code and is never returned.
    pub fn try_from(code: u8) -> (r: Option<Type>)
        ensures
            r == Type::of_code(code),
            r != Some(Type::UNKNOWN),
    {
        match code {
            0x00 => Some(Type::Rom),
            0x01 => Some(Type::RomMbc1),
            0x02 => Some(Type::RomMbc1_Ram),
            0x03 => Some(Type::RomMbc1RamBatt),
            0x05 => Some(Type::RomMbc2),
            0x06 => Some(Type::RomMbc2Batt),
            0x08 => Some(Type::RomRam),
            0x09 => Some(Type::RomRamBatt),
            0x0B => Some(Type::RomMmm01),
            0x0C => Some(Type::RomMmm01Sram),
            0x0D => Some(Type::RomMmm01SramBatt),
            0x12 => Some(Type::RomMbc3Ram),
            0x13 => Some(Type::RomMbc3RamBatt),
            0x19 => Some(Type::RomMbc5),
            0x1A => Some(Type::RomMbc5Ram),
            0x1B => Some(Type::RomMbc5RamBatt),
            0x1C => Some(Type::RomMbc5Rumble),
            0x1D => Some(Type::RomMbc5RumbleSram),
            0x1E => Some(Type::RomMbc5RumbleSramBatt),
            0x1F => Some(Type::PocketCamera),
            0xFD => Some(Type::BandaiTAMA5),
            0xFE => Some(Type::HudsonHuC3),
            _ => None,
        }
    }
}

/// The size of a cartridge's ROM.
#[allow(non_camel_case_types)]
#[derive(Clone, Copy, Debug, PartialEq, Eq, Structural, PartialOrd, Ord)]
pub enum RomSize {
    Kb32,
    Kb64,
    Kb128,
    Kb256,
    Kb512,
    Mb1,
    Mb2,
    Mb4,
    Mb1_1,
    Mb1_2,
    Mb1_5,
    UNKNOWN,
}

impl RomSize {
    /// The size that a header code stands for, if it stands for one.
    pub open spec fn of_code(code: u8) -> Option<RomSize> {
        match code {
            0x00 => Some(RomSize::Kb32),
            0x01 => Some(RomSize::Kb64),
            0x02 => Some(RomSize::Kb128),
            0x03 => Some(RomSize::Kb256),
            0x04 => Some(RomSize::Kb512),
            0x05 => Some(RomSize::Mb1),
            0x06 => Some(RomSize::Mb2),
            0x07 => Some(RomSize::Mb4),
            0x52 => Some(RomSize::Mb1_1),
            0x53 => Some(RomSize::Mb1_2),
            0x54 => Some(RomSize::Mb1_5),
            _ => None,
        }
    }

    /// The size that a header gives: `UNKNOWN` without a code or with a code
    /// that stands for none.
    pub open spec fn of_header(code: Option<u8>) -> RomSize {
        match code {
            Some(c) => match RomSize::of_code(c) {
                Some(s) => s,
                None => RomSize::UNKNOWN,
            },
            None => RomSize::UNKNOWN,
        }
    }

    /// The size that `code` stands for, or `None` for a code that stands for
    /// none. `UNKNOWN` has no code and is never returned.
    pub fn try_from(code: u8) -> (r: Option<RomSize>)
        ensures
            r == RomSize::of_code(code),
            r != Some(RomSize::UNKNOWN),
    {
        match code {
            0x00 => Some(RomSize::Kb32),
            0x01 => Some(RomSize::Kb64),
            0x02 => Some(RomSize::Kb128),
            0x03 => Some(RomSize::Kb256),
            0x04 => Some(RomSize::Kb512),
            0x05 => Some(RomSize::Mb1),
            0x06 => Some(RomSize::Mb2),
            0x07 => Some(RomSize::Mb4),
            0x52 => Some(RomSize::Mb1_1),
            0x53 => Some(RomSize::Mb1_2),
            0x54 => Some(RomSize::Mb1_5),
            _ => None,
        }
    }
}

/// The size of a cartridge's RAM.
#[derive(Clone, Copy, Debug, PartialEq, Eq, Structural, PartialOrd, Ord)]
pub enum RamSize {
    NoRam,
    Kb2,
    Kb8,
    Kb32,
    Kb128,
    Kb64,
    UNKNOWN,
}

impl RamSize {
    /// The size that a header code stands for, if it stands for one.
    pub open spec fn of_code(code: u8) -> Option<RamSize> {
        match code {
            0x00 => Some(RamSize::NoRam),
            0x01 => Some(RamSize::Kb2),
            0x02 => Some(RamSize::Kb8),
            0x03 => Some(RamSize::Kb32),
            0x04 => Some(RamSize::Kb128),
            0x05 => Some(RamSize::Kb64),
            _ => None,
        }
    }

    /// The size that a header gives: `UNKNOWN` without a code or with a code
    /// that stands for none.
    pub open spec fn of_header(code: Option<u8>) -> RamSize {
        match code {
            Some(c) => match RamSize::of_code(c) {
                Some(s) => s,
                None => RamSize::UNKNOWN,
            },
            None => RamSize::UNKNOWN,
        }
    }

    /// The size that `code` stands for, or `None` for a code that stands for
    /// none. `UNKNOWN` has no code and is never returned.
    pub fn try_from(code: u8) -> (r: Option<RamSize>)
        ensures
            r == RamSize::of_code(code),
            r != Some(RamSize::UNKNOWN),
    {
        match code {
            0x00 => Some(RamSize::NoRam),
            0x01 => Some(RamSize::Kb2),
            0x02 => Some(RamSize::Kb8),
            0x03 => Some(RamSize::Kb32),
            0x04 => Some(RamSize::Kb128),
            0x05 => Some(RamSize::Kb64),
            _ => None,
        }
    }
}

} // verus!

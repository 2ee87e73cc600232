//! Cartridge controllers. A controller serves the two banked windows of the
//! address space and changes state only through writes that reach it.

use vstd::prelude::*;
use crate::addr::Addr;
use crate::error::Error;
use crate::rom::{Rom, Type, TYPE_OFFSET, header_code};

pub mod mbc1;

verus! {

/// Whether `addr` lies in the switchable ROM window.
pub open spec fn in_banked_rom(addr: u16) -> bool {
    0x4000 <= addr < 0x8000
}

/// Whether `addr` lies in the switchable cartridge-RAM window.
pub open spec fn in_banked_ram(addr: u16) -> bool {
    0xA000 <= addr < 0xC000
}

/// What every cartridge controller can do: serve a read of a banked window,
/// and take a write.
pub trait Mapper: Sized {
    /// The byte that a read of `addr` returns in this state.
    spec fn read_model(&self, rom: Seq<u8>, addr: u16) -> u8;

    /// The state after a write of `value` to `addr`, or the failure that the
    /// write is.
    spec fn write_model(&self, rom: Seq<u8>, addr: u16, value: u8) -> Result<Self, Error>;

    /// Reads the byte at `addr`, an address in one of the two banked windows.
    fn read_u8(&self, rom: &[u8], addr: Addr) -> (r: u8)
        requires
            in_banked_rom(addr.0) || in_banked_ram(addr.0),
            rom@.len() >= 0x8000,
        ensures
            r == self.read_model(rom@, addr.0),
    ;

    /// Writes `value` to `addr`. A failed write leaves the controller as it
    /// was.
    fn write_u8(&mut self, rom: &[u8], addr: Addr, value: u8) -> (r: Result<(), Error>)
        ensures
            match old(self).write_model(rom@, addr.0, value) {
                Ok(next) => r == Ok::<(), Error>(()) && *final(self) == next,
                Err(e) => r == Err::<(), Error>(e) && *final(self) == *old(self),
            },
    ;
}

/// The controller that the header of `rom` asks for: the bank-switching
/// controller for `Type::RomMbc1`, and for every other type the failure
/// `UnsupportedCartridge` with the code that the header holds.
pub fn from_rom(rom: &Rom) -> (r: Result<mbc1::Mbc1, Error>)
    ensures
        r == supported_mapper(rom.data@),
{
    match rom.typ() {
        Type::RomMbc1 => Ok(mbc1::Mbc1::new()),
        _ => Err(Error::UnsupportedCartridge { addr: TYPE_OFFSET as u16, code: rom.code_at(TYPE_OFFSET) }),
    }
}

/// The controller for a cartridge image, where one is implemented for its
/// type.
pub open spec fn supported_mapper(data: Seq<u8>) -> Result<mbc1::Mbc1, Error> {
    let code = header_code(data, TYPE_OFFSET as int);
    if Type::of_header(code) == Type::RomMbc1 {
        Ok(mbc1::Mbc1::power_on())
    } else {
        Err(Error::UnsupportedCartridge { addr: TYPE_OFFSET as u16, code })
    }
}

} // verus!

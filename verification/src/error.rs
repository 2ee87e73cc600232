//! The failures the core reports. None of them is recoverable inside the core:
//! the embedding driver decides what to do after one.

use vstd::prelude::*;

verus! {

#[derive(Clone, Copy, Debug, PartialEq, Eq, Structural)]
pub enum Error {
    /// The byte at `addr` has no entry in the primary opcode table.
    UnknownOpcode { addr: u16, opcode: u8 },
    /// The byte at `addr`, which follows the extension prefix, has no entry in
    /// the extended opcode table.
    UnknownExtendedOpcode { addr: u16, opcode: u8 },
    /// No controller is implemented for the cartridge-type code found at
    /// `addr` of the image. `code` is `None` where the image is too short to
    /// hold one.
    UnsupportedCartridge { addr: u16, code: Option<u8> },
    /// A write of `value` to `addr` reached the cartridge controller and has
    /// no defined behaviour in its current mode.
    MapperWrite { addr: u16, value: u8 },
}

} // verus!

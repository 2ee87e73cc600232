//! A 16-bit bus address. Arithmetic on it wraps, as the bus does.

use vstd::prelude::*;
use vstd::std_specs::convert::FromSpecImpl;
use vstd::std_specs::ops::{AddSpecImpl, SubSpecImpl};

verus! {

#[derive(Copy, Clone, Debug, PartialEq, Eq, Structural, PartialOrd, Ord)]
pub struct Addr(pub u16);

impl Addr {
    /// The address `n` modulo 65536.
    pub fn new(n: u32) -> (r: Addr)
        ensures
            r.0 == n % 0x1_0000,
    {
        Addr((n % 0x1_0000) as u16)
    }

    /// Whether the address lies in `start..end`.
    pub fn in_range(self, start: u16, end: u16) -> (r: bool)
        ensures
            r == (start <= self.0 < end),
    {
        let addr = self.0;
        start <= addr && addr < end
    }

    /// The address `rhs` steps further on, modulo 65536.
    pub open spec fn offset(self, rhs: int) -> Addr {
        Addr(((self.0 + rhs) % 0x1_0000) as u16)
    }
}

impl core::ops::Deref for Addr {
    type Target = u16;

    fn deref(&self) -> (r: &u16)
        ensures
            *r == self.0,
    {
        &self.0
    }
}

impl core::ops::Add<u16> for Addr {
    type Output = Addr;

    fn add(self, rhs: u16) -> (r: Addr) {
        Addr(self.0.wrapping_add(rhs))
    }
}

impl AddSpecImpl<u16> for Addr {
    open spec fn obeys_add_spec() -> bool {
        true
    }

    open spec fn add_req(self, rhs: u16) -> bool {
        true
    }

    open spec fn add_spec(self, rhs: u16) -> Addr {
        self.offset(rhs as int)
    }
}

impl core::ops::Sub<u16> for Addr {
    type Output = Addr;

    fn sub(self, rhs: u16) -> (r: Addr) {
        Addr(self.0.wrapping_sub(rhs))
    }
}

impl SubSpecImpl<u16> for Addr {
    open spec fn obeys_sub_spec() -> bool {
        true
    }

    open spec fn sub_req(self, rhs: u16) -> bool {
        true
    }

    open spec fn sub_spec(self, rhs: u16) -> Addr {
        self.offset(-(rhs as int))
    }
}

impl From<u16> for Addr {
    fn from(addr: u16) -> (r: Addr) {
        Addr(addr)
    }
}

impl FromSpecImpl<u16> for Addr {
    open spec fn obeys_from_spec() -> bool {
        true
    }

    open spec fn from_spec(addr: u16) -> Addr {
        Addr(addr)
    }
}

} // verus!

//! Small helpers on integers.

use vstd::prelude::*;
use monster::incubation::SplitInt;
use crate::bits::{high_byte, low_byte};

verus! {

/// The integer that wraps on overflow, of the standard library. Its one
/// field is the integer it holds.
#[verifier::external_type_specification]
#[verifier::reject_recursive_types(T)]
pub struct ExWrapping<T>(core::num::Wrapping<T>);

/// A value that can stand as a wrapping integer.
pub trait IntoWrapping<T>: Sized {
    fn into_wrapping(self) -> core::num::Wrapping<T>;
}

impl IntoWrapping<u8> for u8 {
    fn into_wrapping(self) -> (r: core::num::Wrapping<u8>)
        ensures
            r.0 == self,
    {
        core::num::Wrapping(self)
    }
}

impl IntoWrapping<u16> for u16 {
    fn into_wrapping(self) -> (r: core::num::Wrapping<u16>)
        ensures
            r.0 == self,
    {
        core::num::Wrapping(self)
    }
}

impl IntoWrapping<u32> for u32 {
    fn into_wrapping(self) -> (r: core::num::Wrapping<u32>)
        ensures
            r.0 == self,
    {
        core::num::Wrapping(self)
    }
}

impl IntoWrapping<i8> for i8 {
    fn into_wrapping(self) -> (r: core::num::Wrapping<i8>)
        ensures
            r.0 == self,
    {
        core::num::Wrapping(self)
    }
}

impl IntoWrapping<i16> for i16 {
    fn into_wrapping(self) -> (r: core::num::Wrapping<i16>)
        ensures
            r.0 == self,
    {
        core::num::Wrapping(self)
    }
}

impl IntoWrapping<i32> for i32 {
    fn into_wrapping(self) -> (r: core::num::Wrapping<i32>)
        ensures
            r.0 == self,
    {
        core::num::Wrapping(self)
    }
}

impl<T> IntoWrapping<T> for core::num::Wrapping<T> {
    fn into_wrapping(self) -> (r: core::num::Wrapping<T>)
        ensures
            r == self,
    {
        self
    }
}

/// The high and the low byte of `value`, in this order.
///
/// Calls `SplitInt::split` of the crate `monster` on a `u16`, which returns
/// the pair of the word shifted right by eight bits and of the word truncated
/// to eight bits.
#[verifier::external_body]
pub(crate) fn split_u16(value: u16) -> (r: (u8, u8))
    ensures
        r.0 == high_byte(value),
        r.1 == low_byte(value),
{
    value.split()
}

} // verus!

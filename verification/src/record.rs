//! The raw result record the engine writes into.

use vstd::prelude::*;
use crate::exception::{Exception, ExceptionType};

verus! {

/// The output buffer of one engine call: a 32-bit value slot followed by a
/// 32-bit exception bitmask.
///
/// The value slot is untyped. For an operation whose result is a
/// single-precision number it holds that number's IEEE-754 encoding, bit for
/// bit; for one whose result is an integer it holds the integer's bit
/// pattern. Reading the slot as the declared type is a change of type on the
/// same 32 bits, never a numeric conversion.
#[derive(Debug, Clone, Copy, PartialEq, Eq, Structural)]
pub struct Result32 {
    /// The raw bits of the result.
    pub value: u32,
    /// The raw exception bitmask.
    pub exception: ExceptionType,
}

impl Result32 {
    /// The record as it is before the engine has written to it.
    pub open spec fn empty() -> Result32 {
        Result32 { value: 0, exception: 0 }
    }

    /// Makes an empty record: value zero, no exception.
    #[verifier::when_used_as_spec(empty)]
    pub fn new() -> (record: Result32)
        ensures
            record == Result32::empty(),
    {
        Result32 { value: 0, exception: 0 }
    }

    /// Copies the two fields out: the value bits untouched, the bitmask
    /// wrapped for querying.
    pub fn decode(self) -> (out: (u32, Exception))
        ensures
            out.0 == self.value,
            out.1@ == self.exception,
    {
        (self.value, Exception::from_bits(self.exception))
    }
}

} // verus!

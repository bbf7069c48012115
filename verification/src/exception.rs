//! The exception bitmask an operation reports, and the queries on it.

use vstd::prelude::*;
use vstd::std_specs::convert::FromSpecImpl;
use vstd::std_specs::ops::BitAndSpecImpl;

verus! {

/// The integer type in which the exception bitmask crosses the ABI.
pub type ExceptionType = cty::uint32_t;

/// One arithmetic condition the engine can report, or none of them.
#[derive(Debug, Clone, Copy, PartialEq, Eq, Structural)]
pub enum ExceptionFlags {
    /// No condition was raised.
    NoException,
    /// A finite non-zero value was divided by zero.
    DivByZero,
    /// An operand was not valid for the operation.
    Invalid,
    /// The result was too large in magnitude to be represented.
    Overflow,
    /// The result was too small in magnitude to be represented normally.
    Underflow,
    /// The result had to be rounded.
    Inexact,
}

impl ExceptionFlags {
    /// The bit pattern that stands for this flag on the wire: zero for
    /// `NoException`, otherwise a single bit.
    pub open spec fn bits(self) -> ExceptionType {
        match self {
            ExceptionFlags::NoException => 0,
            ExceptionFlags::DivByZero => 1,
            ExceptionFlags::Invalid => 2,
            ExceptionFlags::Overflow => 4,
            ExceptionFlags::Underflow => 8,
            ExceptionFlags::Inexact => 16,
        }
    }
}

impl From<ExceptionFlags> for ExceptionType {
    /// Encodes a flag as its bit pattern.
    fn from(flag: ExceptionFlags) -> (mask: ExceptionType)
        ensures
            mask == flag.bits(),
    {
        match flag {
            ExceptionFlags::NoException => 0,
            ExceptionFlags::DivByZero => 1,
            ExceptionFlags::Invalid => 2,
            ExceptionFlags::Overflow => 4,
            ExceptionFlags::Underflow => 8,
            ExceptionFlags::Inexact => 16,
        }
    }
}

impl FromSpecImpl<ExceptionFlags> for ExceptionType {
    open spec fn obeys_from_spec() -> bool {
        true
    }

    open spec fn from_spec(flag: ExceptionFlags) -> ExceptionType {
        flag.bits()
    }
}

impl core::ops::BitAnd<ExceptionFlags> for ExceptionType {
    type Output = ExceptionType;

    /// Keeps of a bitmask the bit of one flag.
    fn bitand(self, rhs: ExceptionFlags) -> (masked: ExceptionType)
        ensures
            masked == self & rhs.bits(),
    {
        let bits: ExceptionType = rhs.into();
        self & bits
    }
}

impl BitAndSpecImpl<ExceptionFlags> for ExceptionType {
    open spec fn obeys_bitand_spec() -> bool {
        true
    }

    open spec fn bitand_req(self, rhs: ExceptionFlags) -> bool {
        true
    }

    open spec fn bitand_spec(self, rhs: ExceptionFlags) -> ExceptionType {
        self & rhs.bits()
    }
}

/// The conditions one call of an operation raised.
#[derive(Debug, Clone, Copy, PartialEq, Eq, Structural)]
pub struct Exception(ExceptionType);

impl View for Exception {
    type V = ExceptionType;

    /// The raw bitmask.
    closed spec fn view(&self) -> ExceptionType {
        self.0
    }
}

impl Exception {
    /// Wraps a raw bitmask as the engine wrote it.
    pub fn from_bits(mask: ExceptionType) -> (exception: Exception)
        ensures
            exception@ == mask,
    {
        Exception(mask)
    }

    /// The raw bitmask.
    pub fn bits(&self) -> (mask: ExceptionType)
        ensures
            mask == self@,
    {
        self.0
    }

    /// No condition at all was raised: the bitmask is exactly zero.
    pub open spec fn spec_is_none(&self) -> bool {
        self@ == 0
    }

    /// The bit of `exception` is set in the bitmask, whatever else is.
    pub open spec fn spec_has(&self, exception: ExceptionFlags) -> bool {
        self@ & exception.bits() != 0
    }

    /// The bitmask is exactly the pattern of `exception`.
    pub open spec fn spec_only(&self, exception: ExceptionFlags) -> bool {
        self@ == exception.bits()
    }

    /// Whether no condition at all was raised.
    #[verifier::when_used_as_spec(spec_is_none)]
    pub fn is_none(&self) -> (none: bool)
        ensures
            none == self.spec_is_none(),
    {
        let zero: ExceptionType = ExceptionFlags::NoException.into();
        self.0 == zero
    }

    /// Whether `exception` is among the conditions raised, whatever else is.
    #[verifier::when_used_as_spec(spec_has)]
    pub fn has(&self, exception: ExceptionFlags) -> (raised: bool)
        ensures
            raised == self.spec_has(exception),
    {
        (self.0 & exception) != 0
    }

    /// Whether `exception` is the one and only condition raised.
    #[verifier::when_used_as_spec(spec_only)]
    pub fn only(&self, exception: ExceptionFlags) -> (alone: bool)
        ensures
            alone == self.spec_only(exception),
    {
        let bits: ExceptionType = exception.into();
        self.0 == bits
    }
}

/// Two exceptions with the same bitmask are the same exception.
pub proof fn lemma_view_is_injective(first: Exception, second: Exception)
    requires
        first@ == second@,
    ensures
        first == second,
{
}

/// Every flag but `NoException` is a single bit among the low five, and
/// `NoException` is no bit at all.
pub proof fn lemma_flag_is_one_bit(flag: ExceptionFlags)
    ensures
        flag == ExceptionFlags::NoException <==> flag.bits() == 0,
        flag != ExceptionFlags::NoException ==> exists|position: u32|
            position < 5 && flag.bits() == 1u32 << position,
{
    assert(1u32 << 0u32 == 1 && 1u32 << 1u32 == 2 && 1u32 << 2u32 == 4 && 1u32 << 3u32 == 8 && 1u32
        << 4u32 == 16) by (bit_vector);
    match flag {
        ExceptionFlags::NoException => {},
        ExceptionFlags::DivByZero => {
            assert(flag.bits() == 1u32 << 0u32);
        },
        ExceptionFlags::Invalid => {
            assert(flag.bits() == 1u32 << 1u32);
        },
        ExceptionFlags::Overflow => {
            assert(flag.bits() == 1u32 << 2u32);
        },
        ExceptionFlags::Underflow => {
            assert(flag.bits() == 1u32 << 3u32);
        },
        ExceptionFlags::Inexact => {
            assert(flag.bits() == 1u32 << 4u32);
        },
    }
}

/// Two different flags share no bit, so no two flags have the same pattern.
pub proof fn lemma_flags_are_disjoint(flag: ExceptionFlags, other: ExceptionFlags)
    requires
        flag != other,
    ensures
        flag.bits() & other.bits() == 0,
        flag.bits() != other.bits(),
{
    let f = flag.bits();
    let o = other.bits();
    assert(f & o == 0) by (bit_vector)
        requires
            f == 0 || f == 1 || f == 2 || f == 4 || f == 8 || f == 16,
            o == 0 || o == 1 || o == 2 || o == 4 || o == 8 || o == 16,
            f != o,
    ;
}

/// `is_none` is `only` asked of `NoException`, and then `has` fails for
/// every flag.
pub proof fn lemma_none_has_nothing(exception: Exception, flag: ExceptionFlags)
    ensures
        exception.is_none() <==> exception.only(ExceptionFlags::NoException),
        exception.is_none() ==> !exception.has(flag),
        !exception.has(ExceptionFlags::NoException),
{
    let m = exception@;
    let f = flag.bits();
    assert(m == 0 ==> m & f == 0) by (bit_vector);
    assert(m & 0 == 0) by (bit_vector);
}

/// `only` is stronger than `has`: a bitmask that is exactly one flag has
/// that flag, has no other flag, and is not empty.
pub proof fn lemma_only_implies_has(
    exception: Exception,
    flag: ExceptionFlags,
    other: ExceptionFlags,
)
    requires
        flag != ExceptionFlags::NoException,
        exception.only(flag),
    ensures
        exception.has(flag),
        !exception.is_none(),
        other != flag ==> !exception.has(other) && !exception.only(other),
{
    let f = flag.bits();
    assert(f != 0 ==> f & f != 0) by (bit_vector);
    if other != flag {
        lemma_flags_are_disjoint(flag, other);
    }
}

/// `only` is strictly stronger than `has`: with a second flag raised beside
/// it, a flag is still had, but not alone. Both flags are then had at once.
pub proof fn lemma_has_does_not_imply_only(
    exception: Exception,
    flag: ExceptionFlags,
    other: ExceptionFlags,
)
    requires
        flag != ExceptionFlags::NoException,
        other != ExceptionFlags::NoException,
        flag != other,
        exception@ == flag.bits() | other.bits(),
    ensures
        exception.has(flag),
        exception.has(other),
        !exception.only(flag),
        !exception.only(other),
{
    let f = flag.bits();
    let o = other.bits();
    lemma_flags_are_disjoint(flag, other);
    assert((f | o) & f != 0 && (f | o) & o != 0 && (f | o) != f && (f | o) != o) by (bit_vector)
        requires
            f != 0,
            o != 0,
            f & o == 0,
    ;
}

/// `has` looks at the bit of its flag and at nothing else: raising or
/// clearing any other flag leaves its answer as it was.
pub proof fn lemma_has_ignores_other_flags(
    before: Exception,
    after: Exception,
    flag: ExceptionFlags,
    other: ExceptionFlags,
)
    requires
        flag != other,
        after@ == before@ | other.bits() || after@ == before@ & !other.bits(),
    ensures
        after.has(flag) == before.has(flag),
{
    let m = before@;
    let f = flag.bits();
    let o = other.bits();
    lemma_flags_are_disjoint(flag, other);
    assert((m | o) & f == m & f && (m & !o) & f == m & f) by (bit_vector)
        requires
            f & o == 0,
    ;
}

} // verus!

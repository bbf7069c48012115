//! The two call shapes through which every operation reaches the engine.
//!
//! An entry point is any function of the engine's calling convention: it
//! takes the operand bits, the rounding code and the record to fill, and
//! hands the filled record back. Binding a new operation means naming its
//! entry point; the marshaling itself is written here once.
//!
//! Operands and results cross this layer as raw 32-bit patterns. A
//! single-precision operand is handed in as its IEEE-754 encoding and a
//! single-precision result comes back as one; nothing here converts a number.

use vstd::prelude::*;
use crate::exception::{lemma_view_is_injective, Exception};
use crate::record::Result32;
use crate::rounding::{Discriminant, RoundingMode};

verus! {

/// What one call of a two-operand operation may return: a pair is an outcome
/// exactly when the entry point, handed the operands as given, the code of
/// `rm` and an empty record, can hand back the record that holds that pair.
pub open spec fn binary_outcome<E>(
    entry: E,
    a: u32,
    b: u32,
    rm: RoundingMode,
    out: (u32, Exception),
) -> bool where E: Fn(u32, u32, Discriminant, Result32) -> Result32 {
    call_ensures(
        entry,
        (a, b, rm.discriminant(), Result32::empty()),
        (Result32 { value: out.0, exception: out.1@ }),
    )
}

/// What one call of a one-operand operation may return: a pair is an outcome
/// exactly when the entry point, handed the operand as given, the code of
/// `rm` and an empty record, can hand back the record that holds that pair.
pub open spec fn unary_outcome<E>(
    entry: E,
    val: u32,
    rm: RoundingMode,
    out: (u32, Exception),
) -> bool where E: Fn(u32, Discriminant, Result32) -> Result32 {
    call_ensures(
        entry,
        (val, rm.discriminant(), Result32::empty()),
        (Result32 { value: out.0, exception: out.1@ }),
    )
}

/// Marshals one call of a two-operand operation.
///
/// The entry point is called once, with the operands as given, the code of
/// `rm`, and a record that is empty; what it hands back is decoded and
/// returned. Nothing is kept from one call to the next.
pub fn binary<E>(entry: E, a: u32, b: u32, rm: RoundingMode) -> (out: (u32, Exception)) where
    E: Fn(u32, u32, Discriminant, Result32) -> Result32,

    requires
        call_requires(entry, (a, b, rm.discriminant(), Result32::empty())),
    ensures
        binary_outcome(entry, a, b, rm, out),
{
    let record = entry(a, b, rm.discriminant(), Result32::new());
    record.decode()
}

/// Marshals one call of a one-operand operation.
///
/// The entry point is called once, with the operand as given, the code of
/// `rm`, and a record that is empty; what it hands back is decoded and
/// returned. Nothing is kept from one call to the next.
pub fn unary<E>(entry: E, val: u32, rm: RoundingMode) -> (out: (u32, Exception)) where
    E: Fn(u32, Discriminant, Result32) -> Result32,

    requires
        call_requires(entry, (val, rm.discriminant(), Result32::empty())),
    ensures
        unary_outcome(entry, val, rm, out),
{
    let record = entry(val, rm.discriminant(), Result32::new());
    record.decode()
}

/// A two-operand call depends on nothing but its own operands and mode:
/// where the entry point is a function of what it is handed, any two calls
/// with the same operands and mode return the same pair, whatever was called
/// before or between them.
pub proof fn lemma_binary_depends_on_own_call<E>(
    entry: E,
    a: u32,
    b: u32,
    rm: RoundingMode,
    first: (u32, Exception),
    second: (u32, Exception),
) where E: Fn(u32, u32, Discriminant, Result32) -> Result32
    requires
        forall|one: Result32, two: Result32|
            call_ensures(entry, (a, b, rm.discriminant(), Result32::empty()), one) && call_ensures(
                entry,
                (a, b, rm.discriminant(), Result32::empty()),
                two,
            ) ==> one == two,
        binary_outcome(entry, a, b, rm, first),
        binary_outcome(entry, a, b, rm, second),
    ensures
        first == second,
{
    lemma_view_is_injective(first.1, second.1);
}

/// A one-operand call depends on nothing but its own operand and mode:
/// where the entry point is a function of what it is handed, any two calls
/// with the same operand and mode return the same pair, whatever was called
/// before or between them.
pub proof fn lemma_unary_depends_on_own_call<E>(
    entry: E,
    val: u32,
    rm: RoundingMode,
    first: (u32, Exception),
    second: (u32, Exception),
) where E: Fn(u32, Discriminant, Result32) -> Result32
    requires
        forall|one: Result32, two: Result32|
            call_ensures(entry, (val, rm.discriminant(), Result32::empty()), one) && call_ensures(
                entry,
                (val, rm.discriminant(), Result32::empty()),
                two,
            ) ==> one == two,
        unary_outcome(entry, val, rm, first),
        unary_outcome(entry, val, rm, second),
    ensures
        first == second,
{
    lemma_view_is_injective(first.1, second.1);
}

} // verus!

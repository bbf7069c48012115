//! A typed marshaling layer in front of a C-ABI floating-point engine.
//!
//! The engine performs IEEE-754 arithmetic and conversions; this crate owns
//! the contract that sits between a caller and that engine: how a rounding
//! policy is encoded on the wire, how the exception bitmask is read, how the
//! raw result record is laid out and decoded, and the two call shapes
//! through which every operation is marshaled.

pub mod exception;
pub mod marshal;
pub mod record;
pub mod rounding;

pub use exception::{Exception, ExceptionFlags, ExceptionType};
pub use marshal::{binary, unary};
pub use record::Result32;
pub use rounding::{Discriminant, RoundingMode};

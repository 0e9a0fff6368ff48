//! Errors reported when a structured value does not decode.

use crate::cbor::Shape;
use vstd::prelude::*;

verus! {

/// Why a structured value could not be decoded.
#[derive(Clone, Copy, Debug, PartialEq, Eq, Structural)]
pub enum CoseError {
    /// A value had the first shape where the second was expected.
    UnexpectedType(Shape, Shape),
    /// An integer lies outside the range of an `i64` label.
    OutOfRangeInteger,
    /// A byte string that must not be empty was empty.
    EmptyByteString,
    /// An array that must not be empty was empty.
    EmptyArray,
    /// An array whose entries must be unique repeated one.
    RepeatedArrayEntry,
    /// The mandatory key type was absent.
    MissingKeyType,
}

} // verus!

//! The error for a value that cannot be taken as a string, and its message.

use vstd::prelude::*;
use serde::de::Unexpected;
use crate::value::{expectation, Shape};

verus! {

/// Why a presented value was not turned into a string.
#[derive(Clone, Copy, Debug, PartialEq, Eq, Structural)]
pub enum DecodeError {
    /// The value has a shape that no string stands for.
    UnsupportedShape {
        /// The shape that was presented.
        found: Shape,
    },
}

/// The noun by which serde's messages call a shape.
pub open spec fn shape_noun(shape: Shape) -> Seq<char> {
    match shape {
        Shape::Bytes => "byte array"@,
        Shape::Unit => "unit value"@,
        Shape::Optional => "Option value"@,
        Shape::Newtype => "newtype struct"@,
        Shape::Sequence => "sequence"@,
        Shape::Mapping => "map"@,
        Shape::Variant => "enum"@,
    }
}

/// The message for a value of the wrong type: what was found, then what was
/// expected.
pub open spec fn invalid_type_text(shape: Shape, expected: Seq<char>) -> Seq<char> {
    "invalid type: "@ + shape_noun(shape) + ", expected "@ + expected
}

/// Calls `serde::de::Error::invalid_type` on serde's own plain error,
/// `serde::de::value::Error`, and returns what that error displays.
///
/// Not proved: that serde builds the message as `invalid type: `, the noun
/// that its `Unexpected` displays for the shape, `, expected ` and the
/// expectation as given, and that its plain error displays that message
/// unchanged.
#[verifier::external_body]
fn invalid_type_message(shape: Shape, expected: &str) -> (text: String)
    ensures
        text@ == invalid_type_text(shape, expected@),
{
    let unexpected = match shape {
        Shape::Bytes => Unexpected::Bytes(&[]),
        Shape::Unit => Unexpected::Unit,
        Shape::Optional => Unexpected::Option,
        Shape::Newtype => Unexpected::NewtypeStruct,
        Shape::Sequence => Unexpected::Seq,
        Shape::Mapping => Unexpected::Map,
        Shape::Variant => Unexpected::Enum,
    };
    let error: serde::de::value::Error = serde::de::Error::invalid_type(unexpected, &expected);
    error.to_string()
}

impl DecodeError {
    /// The shape that was presented in place of a scalar.
    pub fn found(&self) -> (shape: Shape)
        ensures
            *self == (DecodeError::UnsupportedShape { found: shape }),
    {
        match self {
            DecodeError::UnsupportedShape { found } => *found,
        }
    }

    /// The message for the person who supplied the value, worded as serde
    /// words a value of the wrong type: it names the shape that was found and
    /// says that a string or string-convertible value was expected.
    pub fn message(&self) -> (text: String)
        ensures
            text@ == invalid_type_text(self->found, expectation()),
    {
        invalid_type_message(self.found(), "a string or string-convertible value")
    }
}

} // verus!

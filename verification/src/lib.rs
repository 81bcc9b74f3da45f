//! Coerces a loosely typed scalar into a string.
//!
//! A configuration value may arrive as text, as an integer or as a boolean,
//! depending on the source that supplied it.  A field that is declared as a
//! string accepts each of them: text is taken as it is, a number is written in
//! base ten, a boolean as `true` or `false`.  Every other shape is rejected.
//!
//! Floating-point input is not modelled here: the library holds integers,
//! booleans and text only.

use vstd::prelude::*;

pub mod decimal;
pub mod error;
pub mod laws;
pub mod value;
pub mod visitor;

pub use crate::error::DecodeError;
pub use crate::value::{Presented, Shape};
pub use crate::visitor::StringVisitor;

verus! {

/// Turns the presented value into a string, or rejects it.
///
/// A scalar always succeeds, with the string that [`value::coerced`] gives
/// for it.  Any other shape always fails, and the error names that shape.
pub fn deserialize_as_string(value: Presented<'_>) -> (result: Result<String, DecodeError>)
    ensures
        match result {
            Ok(text) => value::coerced(value) == Some(text@),
            Err(error) => value::coerced(value) is None && value == Presented::Other(
                error->found,
            ),
        },
{
    let visitor = StringVisitor;
    match value {
        Presented::Str(text) => Ok(visitor.visit_str(text)),
        Presented::Signed(n) => Ok(visitor.visit_i64(n)),
        Presented::Unsigned(n) => Ok(visitor.visit_u64(n)),
        Presented::Bool(b) => Ok(visitor.visit_bool(b)),
        Presented::Other(shape) => Err(DecodeError::UnsupportedShape { found: shape }),
    }
}

} // verus!

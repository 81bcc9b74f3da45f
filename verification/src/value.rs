//! The value that a decoder presents, and the string that stands for it.

use vstd::prelude::*;

verus! {

/// A shape of input that has no string form: compound, absent or raw data.
#[derive(Clone, Copy, Debug, PartialEq, Eq, Structural)]
pub enum Shape {
    /// Raw bytes.
    Bytes,
    /// The unit value, which is how a null arrives.
    Unit,
    /// An optional value, present or absent.
    Optional,
    /// A wrapper around a single inner value.
    Newtype,
    /// A list of values.
    Sequence,
    /// A list of keys with their values.
    Mapping,
    /// A choice among named variants.
    Variant,
}

/// The one value that a decoder presents for a field, borrowed for the call.
#[derive(Clone, Copy, Debug)]
pub enum Presented<'a> {
    /// Text.
    Str(&'a str),
    /// A signed integer of up to 64 bits.
    Signed(i64),
    /// An unsigned integer of up to 64 bits.
    Unsigned(u64),
    /// A boolean.
    Bool(bool),
    /// Anything that is not a scalar with a string form.
    Other(Shape),
}

/// What a field that takes a string expects to be given.
pub open spec fn expectation() -> Seq<char> {
    "a string or string-convertible value"@
}

/// The text of a boolean: the lower-case word, nothing else.
pub open spec fn bool_text(value: bool) -> Seq<char> {
    if value {
        seq!['t', 'r', 'u', 'e']
    } else {
        seq!['f', 'a', 'l', 's', 'e']
    }
}

/// The string that a presented value is turned into, or `None` where its
/// shape has none.  Text stays as it is, an integer is written in base ten
/// with a minus in front where it is negative, a boolean is written as its
/// word.
pub open spec fn coerced(value: Presented) -> Option<Seq<char>> {
    match value {
        Presented::Str(text) => Some(text@),
        Presented::Signed(n) => Some(crate::decimal::signed_decimal(n as int)),
        Presented::Unsigned(n) => Some(crate::decimal::decimal(n as nat)),
        Presented::Bool(b) => Some(bool_text(b)),
        Presented::Other(_) => None,
    }
}

} // verus!

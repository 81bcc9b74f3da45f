//! The handler that a decoder calls with the scalar it found.

use vstd::prelude::*;
use crate::decimal::{decimal, magnitude, push_decimal, signed_decimal};
use crate::value::{bool_text, expectation};

verus! {

/// Turns the scalar that it is called with into a string.  It holds no
/// state: what a call returns depends on the value alone.
#[derive(Clone, Copy, Debug)]
pub struct StringVisitor;

impl StringVisitor {
    /// What this handler expects to be given, as a phrase that completes
    /// "expected ...".
    pub fn expecting(&self) -> (text: String)
        ensures
            text@ == expectation(),
    {
        String::from_str("a string or string-convertible value")
    }

    /// Text is taken as it is.
    pub fn visit_str(self, value: &str) -> (text: String)
        ensures
            text@ == value@,
    {
        value.to_owned()
    }

    /// A signed integer is written in base ten, with a minus in front where
    /// it is negative.
    pub fn visit_i64(self, value: i64) -> (text: String)
        ensures
            text@ == signed_decimal(value as int),
    {
        let mut text = String::new();
        if value < 0 {
            proof {
                reveal_strlit("-");
            }
            text.append("-");
            assert(text@ =~= seq!['-']);
        }
        push_decimal(&mut text, magnitude(value));
        text
    }

    /// An unsigned integer is written in base ten, without a sign.
    pub fn visit_u64(self, value: u64) -> (text: String)
        ensures
            text@ == decimal(value as nat),
    {
        let mut text = String::new();
        push_decimal(&mut text, value);
        text
    }

    /// A boolean is written as `true` or `false`.
    pub fn visit_bool(self, value: bool) -> (text: String)
        ensures
            text@ == bool_text(value),
    {
        proof {
            reveal_strlit("true");
            reveal_strlit("false");
        }
        let word = if value {
            "true"
        } else {
            "false"
        };
        assert(word@ =~= bool_text(value));
        String::from_str(word)
    }
}

} // verus!

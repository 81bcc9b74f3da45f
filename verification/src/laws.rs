//! What holds of the coercion on every input.

use vstd::prelude::*;
use crate::decimal::{
    decimal, decimal_value, is_digit, lemma_decimal_len_64, lemma_decimal_shape,
    lemma_decimal_value, lemma_signed_decimal_sign, lemma_signed_decimal_value, signed_decimal,
    signed_decimal_value,
};
use crate::value::{bool_text, coerced, Presented, Shape};

verus! {

/// Text is coerced to itself, whatever it holds.
pub proof fn lemma_text_is_unchanged(text: &str)
    ensures
        coerced(Presented::Str(text)) == Some(text@),
{
}

/// A signed integer is coerced to its exact base-ten notation: a minus comes
/// first if and only if the integer is negative, everything else is a digit,
/// and the whole reads back as the integer.
pub proof fn lemma_signed_is_exact(n: i64)
    ensures
        coerced(Presented::Signed(n)) == Some(signed_decimal(n as int)),
        1 <= signed_decimal(n as int).len() <= 20,
        signed_decimal(n as int)[0] == '-' <==> n < 0,
        forall|i: int|
            (if n < 0 {
                1int
            } else {
                0int
            }) <= i < signed_decimal(n as int).len() ==> is_digit(
                #[trigger] signed_decimal(n as int)[i],
            ),
        signed_decimal_value(signed_decimal(n as int)) == n,
{
    let text = signed_decimal(n as int);
    lemma_signed_decimal_sign(n as int);
    lemma_signed_decimal_value(n as int);
    lemma_decimal_len_64(0, n);
    if n < 0 {
        let digits = decimal((-n) as nat);
        lemma_decimal_shape((-n) as nat);
        assert forall|i: int| 1 <= i < text.len() implies is_digit(#[trigger] text[i]) by {
            assert(text[i] == digits[i - 1]);
        }
    } else {
        lemma_decimal_shape(n as nat);
    }
}

/// An unsigned integer is coerced to its exact base-ten notation: digits
/// only, so no sign, and the whole reads back as the integer.
pub proof fn lemma_unsigned_is_exact(n: u64)
    ensures
        coerced(Presented::Unsigned(n)) == Some(decimal(n as nat)),
        1 <= decimal(n as nat).len() <= 20,
        forall|i: int| 0 <= i < decimal(n as nat).len() ==> is_digit(#[trigger] decimal(n as nat)[i]),
        forall|i: int| 0 <= i < decimal(n as nat).len() ==> #[trigger] decimal(n as nat)[i] != '-',
        decimal_value(decimal(n as nat)) == n,
{
    lemma_decimal_shape(n as nat);
    lemma_decimal_value(n as nat);
    lemma_decimal_len_64(n, 0);
}

/// Different integers are coerced to different strings, and an integer that
/// is presented as signed is coerced as it is when presented as unsigned.
pub proof fn lemma_integers_stay_apart(a: i64, b: i64, u: u64)
    ensures
        coerced(Presented::Signed(a)) == coerced(Presented::Signed(b)) ==> a == b,
        coerced(Presented::Signed(a)) == coerced(Presented::Unsigned(u)) <==> a == u,
{
    lemma_signed_decimal_value(a as int);
    lemma_signed_decimal_value(b as int);
    lemma_signed_decimal_value(u as int);
}

/// A boolean is coerced to the word `true` or the word `false`, in lower
/// case.
pub proof fn lemma_bool_is_its_word(value: bool)
    ensures
        coerced(Presented::Bool(value)) == Some(bool_text(value)),
        bool_text(true) == "true"@,
        bool_text(false) == "false"@,
{
    reveal_strlit("true");
    reveal_strlit("false");
    assert(bool_text(true) =~= "true"@);
    assert(bool_text(false) =~= "false"@);
}

/// A value is coerced to a string if and only if it is a scalar: a compound,
/// absent or raw shape has none.
pub proof fn lemma_only_scalars_have_a_string(value: Presented)
    ensures
        coerced(value) is None <==> value is Other,
        forall|shape: Shape| coerced(Presented::Other(shape)) is None,
{
}

} // verus!

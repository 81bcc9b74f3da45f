//! Base-ten notation of integers: what it is, that it is exact, and a
//! routine that writes it.

use vstd::prelude::*;

verus! {

/// The character that stands for the digit `d`.
pub open spec fn digit_char(d: int) -> char
    recommends
        0 <= d < 10,
{
    if d == 0 {
        '0'
    } else if d == 1 {
        '1'
    } else if d == 2 {
        '2'
    } else if d == 3 {
        '3'
    } else if d == 4 {
        '4'
    } else if d == 5 {
        '5'
    } else if d == 6 {
        '6'
    } else if d == 7 {
        '7'
    } else if d == 8 {
        '8'
    } else {
        '9'
    }
}

/// Whether `c` is one of the ten digits.
pub open spec fn is_digit(c: char) -> bool {
    exists|d: int| 0 <= d < 10 && c == #[trigger] digit_char(d)
}

/// The number that the digit `c` stands for.
pub open spec fn digit_value(c: char) -> int
    recommends
        is_digit(c),
{
    choose|d: int| 0 <= d < 10 && c == #[trigger] digit_char(d)
}

/// The base-ten notation of `n`: most significant digit first, no sign, and
/// no leading zero but for zero itself, which is the single digit `0`.
pub open spec fn decimal(n: nat) -> Seq<char>
    decreases n,
{
    if n < 10 {
        seq![digit_char(n as int)]
    } else {
        decimal(n / 10).push(digit_char((n % 10) as int))
    }
}

/// The base-ten notation of `n` with its sign: a minus in front of the
/// notation of `-n` where `n` is negative, and nothing in front otherwise.
pub open spec fn signed_decimal(n: int) -> Seq<char> {
    if n < 0 {
        seq!['-'] + decimal((-n) as nat)
    } else {
        decimal(n as nat)
    }
}

/// The number that a sequence of digits denotes in base ten.
pub open spec fn decimal_value(digits: Seq<char>) -> int
    decreases digits.len(),
{
    if digits.len() == 0 {
        0
    } else {
        10 * decimal_value(digits.drop_last()) + digit_value(digits.last())
    }
}

/// The number that a sequence of digits with an optional minus in front
/// denotes.
pub open spec fn signed_decimal_value(text: Seq<char>) -> int {
    if text.len() > 0 && text[0] == '-' {
        -decimal_value(text.skip(1))
    } else {
        decimal_value(text)
    }
}

/// Each digit character stands for the digit it was made from.
pub proof fn lemma_digit_value(d: int)
    requires
        0 <= d < 10,
    ensures
        is_digit(digit_char(d)),
        digit_value(digit_char(d)) == d,
        digit_char(d) != '-',
{
    let c = digit_char(d);
    let v = digit_value(c);
    assert(0 <= v < 10 && c == digit_char(v));
}

/// The notation of a natural number is never empty, holds digits only, so no
/// sign, and starts with a zero only where the number is zero, in which case
/// it is that one digit.
pub proof fn lemma_decimal_shape(n: nat)
    ensures
        decimal(n).len() >= 1,
        forall|i: int| 0 <= i < decimal(n).len() ==> is_digit(#[trigger] decimal(n)[i]),
        forall|i: int| 0 <= i < decimal(n).len() ==> #[trigger] decimal(n)[i] != '-',
        decimal(n)[0] == '0' <==> n == 0,
        n == 0 ==> decimal(n) == seq!['0'],
    decreases n,
{
    if n < 10 {
        lemma_digit_value(n as int);
    } else {
        lemma_decimal_shape(n / 10);
        lemma_digit_value((n % 10) as int);
    }
}

/// Reading the notation of a natural number gives the number back: the
/// notation is exact.
pub proof fn lemma_decimal_value(n: nat)
    ensures
        decimal_value(decimal(n)) == n,
    decreases n,
{
    if n < 10 {
        lemma_digit_value(n as int);
        let s = decimal(n);
        assert(s.drop_last().len() == 0);
        assert(decimal_value(s.drop_last()) == 0);
    } else {
        lemma_decimal_value(n / 10);
        lemma_digit_value((n % 10) as int);
        let s = decimal(n);
        assert(s.drop_last() == decimal(n / 10));
        assert(s.last() == digit_char((n % 10) as int));
    }
}

/// Ten to the power `k`.
pub open spec fn pow10(k: nat) -> nat
    decreases k,
{
    if k == 0 {
        1
    } else {
        10 * pow10((k - 1) as nat)
    }
}

/// A number below ten to the power `k` is written with at most `k` digits.
pub proof fn lemma_decimal_len(n: nat, k: nat)
    requires
        k >= 1,
        n < pow10(k),
    ensures
        decimal(n).len() <= k,
    decreases k,
{
    if n >= 10 {
        assert(pow10(1) == 10) by {
            reveal_with_fuel(pow10, 2);
        }
        assert(k >= 2);
        lemma_decimal_len(n / 10, (k - 1) as nat);
    }
}

/// An unsigned 64-bit integer is written with at most 20 characters, and
/// so is a signed one, its sign included.
pub proof fn lemma_decimal_len_64(u: u64, i: i64)
    ensures
        decimal(u as nat).len() <= 20,
        signed_decimal(i as int).len() <= 20,
{
    assert(pow10(19) == 10_000_000_000_000_000_000) by {
        reveal_with_fuel(pow10, 20);
    }
    assert(pow10(20) == 10 * pow10(19));
    lemma_decimal_len(u as nat, 20);
    if i < 0 {
        lemma_decimal_len((-i) as nat, 19);
    } else {
        lemma_decimal_len(i as nat, 19);
    }
}

/// Two natural numbers with the same notation are the same number.
pub proof fn lemma_decimal_injective(a: nat, b: nat)
    requires
        decimal(a) == decimal(b),
    ensures
        a == b,
{
    lemma_decimal_value(a);
    lemma_decimal_value(b);
}

/// The signed notation starts with a minus exactly where the number is
/// negative; what follows the sign, or the whole where there is none, is the
/// notation of the number's magnitude.
pub proof fn lemma_signed_decimal_sign(n: int)
    ensures
        signed_decimal(n).len() >= 1,
        signed_decimal(n)[0] == '-' <==> n < 0,
        n < 0 ==> signed_decimal(n).skip(1) == decimal((-n) as nat),
        n >= 0 ==> signed_decimal(n) == decimal(n as nat),
{
    if n < 0 {
        assert(signed_decimal(n).skip(1) =~= decimal((-n) as nat));
    } else {
        lemma_decimal_shape(n as nat);
        let c = decimal(n as nat)[0];
        assert(is_digit(c));
        let d = digit_value(c);
        lemma_digit_value(d);
    }
}

/// Reading the signed notation of an integer gives the integer back.
pub proof fn lemma_signed_decimal_value(n: int)
    ensures
        signed_decimal_value(signed_decimal(n)) == n,
{
    lemma_signed_decimal_sign(n);
    if n < 0 {
        lemma_decimal_value((-n) as nat);
    } else {
        lemma_decimal_value(n as nat);
    }
}

/// Two integers with the same signed notation are the same integer.
pub proof fn lemma_signed_decimal_injective(a: int, b: int)
    requires
        signed_decimal(a) == signed_decimal(b),
    ensures
        a == b,
{
    lemma_signed_decimal_value(a);
    lemma_signed_decimal_value(b);
}

/// The one-character text of the digit `d`.
fn digit_str(d: u64) -> (text: &'static str)
    requires
        d < 10,
    ensures
        text@ == seq![digit_char(d as int)],
{
    proof {
        reveal_strlit("0");
        reveal_strlit("1");
        reveal_strlit("2");
        reveal_strlit("3");
        reveal_strlit("4");
        reveal_strlit("5");
        reveal_strlit("6");
        reveal_strlit("7");
        reveal_strlit("8");
        reveal_strlit("9");
    }
    let text = if d == 0 {
        "0"
    } else if d == 1 {
        "1"
    } else if d == 2 {
        "2"
    } else if d == 3 {
        "3"
    } else if d == 4 {
        "4"
    } else if d == 5 {
        "5"
    } else if d == 6 {
        "6"
    } else if d == 7 {
        "7"
    } else if d == 8 {
        "8"
    } else {
        "9"
    };
    assert(text@ =~= seq![digit_char(d as int)]);
    text
}

/// Appends the base-ten notation of `n` to `out`.
pub fn push_decimal(out: &mut String, n: u64)
    ensures
        final(out)@ == old(out)@ + decimal(n as nat),
    decreases n,
{
    if n >= 10 {
        push_decimal(out, n / 10);
    }
    out.append(digit_str(n % 10));
    proof {
        let digit = seq![digit_char((n % 10) as int)];
        if n >= 10 {
            assert(decimal(n as nat) =~= decimal((n / 10) as nat) + digit);
            assert(final(out)@ =~= old(out)@ + decimal(n as nat));
        } else {
            assert(decimal(n as nat) =~= digit);
        }
    }
}

/// The magnitude of `n`, which for the least value does not fit its own type.
pub fn magnitude(n: i64) -> (m: u64)
    ensures
        m == if n < 0 { -(n as int) } else { n as int },
{
    if n >= 0 {
        n as u64
    } else {
        let below: i64 = -(n + 1);
        below as u64 + 1
    }
}

} // verus!

use figment_string::decimal::{magnitude, push_decimal};
use figment_string::{deserialize_as_string, DecodeError, Presented, Shape, StringVisitor};

fn coerce(value: Presented<'_>) -> String {
    deserialize_as_string(value).unwrap()
}

fn rejected(shape: Shape) -> DecodeError {
    deserialize_as_string(Presented::Other(shape)).unwrap_err()
}

#[test]
fn test_int() {
    assert_eq!(coerce(Presented::Unsigned(8080)), "8080");
}

#[test]
fn test_negative_int() {
    assert_eq!(coerce(Presented::Signed(-8080)), "-8080");
}

#[test]
fn test_bool() {
    assert_eq!(coerce(Presented::Bool(true)), "true");
}

#[test]
fn test_str() {
    assert_eq!(coerce(Presented::Str("foo")), "foo");
}

#[test]
fn digits_given_as_text_stay_text() {
    assert_eq!(coerce(Presented::Str("8080")), "8080");
    assert_eq!(coerce(Presented::Str("-8080")), "-8080");
    assert_eq!(coerce(Presented::Str("80.822")), "80.822");
    assert_eq!(coerce(Presented::Str("007")), "007");
}

#[test]
fn text_is_unchanged() {
    for text in ["", " ", "foo", "Foo Bar", "  padded  ", "line\nbreak", "na\u{ef}ve", "\u{65e5}\u{672c}\u{8a9e}", "TRUE", "-0"] {
        assert_eq!(coerce(Presented::Str(text)), text);
        assert_eq!(StringVisitor.visit_str(text), text);
    }
}

#[test]
fn false_is_lower_case() {
    assert_eq!(coerce(Presented::Bool(false)), "false");
    assert_eq!(StringVisitor.visit_bool(false), "false");
    assert_eq!(StringVisitor.visit_bool(true), "true");
}

#[test]
fn zero_is_one_digit() {
    assert_eq!(coerce(Presented::Unsigned(0)), "0");
    assert_eq!(coerce(Presented::Signed(0)), "0");
}

#[test]
fn unsigned_digits_are_exact() {
    assert_eq!(coerce(Presented::Unsigned(7)), "7");
    assert_eq!(coerce(Presented::Unsigned(9)), "9");
    assert_eq!(coerce(Presented::Unsigned(10)), "10");
    assert_eq!(coerce(Presented::Unsigned(99)), "99");
    assert_eq!(coerce(Presented::Unsigned(100)), "100");
    assert_eq!(coerce(Presented::Unsigned(1_234_567_890)), "1234567890");
    assert_eq!(coerce(Presented::Unsigned(1_000_000)), "1000000");
    assert_eq!(coerce(Presented::Unsigned(u64::MAX)), "18446744073709551615");
}

#[test]
fn signed_digits_are_exact() {
    assert_eq!(coerce(Presented::Signed(1)), "1");
    assert_eq!(coerce(Presented::Signed(-1)), "-1");
    assert_eq!(coerce(Presented::Signed(-10)), "-10");
    assert_eq!(coerce(Presented::Signed(8080)), "8080");
    assert_eq!(coerce(Presented::Signed(i64::MAX)), "9223372036854775807");
    assert_eq!(coerce(Presented::Signed(i64::MIN)), "-9223372036854775808");
    assert_eq!(coerce(Presented::Signed(i64::MIN + 1)), "-9223372036854775807");
}

#[test]
fn unsigned_agrees_with_the_standard_rendering() {
    let mut n: u64 = 1;
    for _ in 0..64 {
        for value in [n - 1, n, n + 1] {
            assert_eq!(StringVisitor.visit_u64(value), value.to_string());
        }
        n = n.wrapping_mul(2);
    }
    let mut power: u64 = 1;
    for _ in 0..19 {
        for value in [power - 1, power, power + 1] {
            assert_eq!(StringVisitor.visit_u64(value), value.to_string());
        }
        power *= 10;
    }
}

#[test]
fn signed_agrees_with_the_standard_rendering() {
    let mut n: i64 = 1;
    for _ in 0..62 {
        for value in [n - 1, n, n + 1, -n, -n - 1, 1 - n] {
            assert_eq!(StringVisitor.visit_i64(value), value.to_string());
        }
        n *= 2;
    }
}

#[test]
fn sign_is_there_exactly_for_negatives() {
    for value in [i64::MIN, -8080, -1, 0, 1, 8080, i64::MAX] {
        let text = coerce(Presented::Signed(value));
        assert_eq!(text.starts_with('-'), value < 0);
        assert_eq!(text.parse::<i64>().unwrap(), value);
    }
    for value in [0, 1, 8080, u64::MAX] {
        let text = coerce(Presented::Unsigned(value));
        assert!(text.chars().all(|c| c.is_ascii_digit()));
        assert_eq!(text.parse::<u64>().unwrap(), value);
    }
}

#[test]
fn magnitude_of_the_extremes() {
    assert_eq!(magnitude(0), 0);
    assert_eq!(magnitude(5), 5);
    assert_eq!(magnitude(-5), 5);
    assert_eq!(magnitude(i64::MAX), 9_223_372_036_854_775_807);
    assert_eq!(magnitude(i64::MIN), 9_223_372_036_854_775_808);
}

#[test]
fn push_decimal_appends() {
    let mut out = String::from("size=");
    push_decimal(&mut out, 8080);
    assert_eq!(out, "size=8080");
    push_decimal(&mut out, 0);
    assert_eq!(out, "size=80800");
}

#[test]
fn sequence_is_rejected() {
    assert_eq!(
        deserialize_as_string(Presented::Other(Shape::Sequence)),
        Err(DecodeError::UnsupportedShape { found: Shape::Sequence })
    );
}

#[test]
fn every_other_shape_is_rejected_with_its_shape() {
    for shape in [
        Shape::Bytes,
        Shape::Unit,
        Shape::Optional,
        Shape::Newtype,
        Shape::Sequence,
        Shape::Mapping,
        Shape::Variant,
    ] {
        let error = rejected(shape);
        assert_eq!(error, DecodeError::UnsupportedShape { found: shape });
        assert_eq!(error.found(), shape);
    }
}

#[test]
fn expectation_text() {
    assert_eq!(StringVisitor.expecting(), "a string or string-convertible value");
}

#[test]
fn message_names_what_was_found_and_what_was_expected() {
    assert_eq!(
        rejected(Shape::Sequence).message(),
        "invalid type: sequence, expected a string or string-convertible value"
    );
    assert_eq!(
        rejected(Shape::Mapping).message(),
        "invalid type: map, expected a string or string-convertible value"
    );
    assert_eq!(
        rejected(Shape::Unit).message(),
        "invalid type: unit value, expected a string or string-convertible value"
    );
    assert_eq!(
        rejected(Shape::Optional).message(),
        "invalid type: Option value, expected a string or string-convertible value"
    );
    assert_eq!(
        rejected(Shape::Bytes).message(),
        "invalid type: byte array, expected a string or string-convertible value"
    );
    assert_eq!(
        rejected(Shape::Newtype).message(),
        "invalid type: newtype struct, expected a string or string-convertible value"
    );
    assert_eq!(
        rejected(Shape::Variant).message(),
        "invalid type: enum, expected a string or string-convertible value"
    );
}

#[test]
fn message_ends_with_the_expectation() {
    let message = rejected(Shape::Sequence).message();
    let expected = format!("expected {}", StringVisitor.expecting());
    assert!(message.ends_with(&expected));
}

#[test]
fn same_value_same_string() {
    let first = deserialize_as_string(Presented::Signed(-8080));
    let second = deserialize_as_string(Presented::Signed(-8080));
    assert_eq!(first, second);
    let first = deserialize_as_string(Presented::Other(Shape::Mapping));
    let second = deserialize_as_string(Presented::Other(Shape::Mapping));
    assert_eq!(first, second);
}

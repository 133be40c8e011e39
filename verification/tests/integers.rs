use objdump_att::error::ParseError;
use objdump_att::number::{
    digit_of, parse_displacement, parse_hex, parse_immediate, parse_integer,
};

#[test]
fn immediates_in_three_radixes_agree() {
    assert_eq!(parse_immediate("$0x2a"), Ok(42));
    assert_eq!(parse_immediate("$0b101010"), Ok(42));
    assert_eq!(parse_immediate("$42"), Ok(42));
}

#[test]
fn decimal_literals() {
    assert_eq!(parse_integer("0"), Ok(0));
    assert_eq!(parse_integer("007"), Ok(7));
    assert_eq!(parse_integer("1234567890"), Ok(1_234_567_890));
    assert_eq!(parse_integer("18446744073709551615"), Ok(u64::MAX));
}

#[test]
fn hexadecimal_literals() {
    assert_eq!(parse_integer("0x0"), Ok(0));
    assert_eq!(parse_integer("0xAbC"), Ok(0xabc));
    assert_eq!(parse_integer("0xdeadbeef"), Ok(0xdead_beef));
    assert_eq!(parse_integer("0xffffffffffffffff"), Ok(u64::MAX));
    assert_eq!(parse_integer("0x0000000000000000000001"), Ok(1));
}

#[test]
fn binary_literals() {
    assert_eq!(parse_integer("0b0"), Ok(0));
    assert_eq!(parse_integer("0b1"), Ok(1));
    assert_eq!(parse_integer("0b11111111"), Ok(255));
    assert_eq!(
        parse_integer("0b1111111111111111111111111111111111111111111111111111111111111111"),
        Ok(u64::MAX)
    );
}

#[test]
fn a_value_beyond_64_bits_is_malformed() {
    assert_eq!(parse_integer("18446744073709551616"), Err(ParseError::MalformedInteger));
    assert_eq!(parse_integer("99999999999999999999999"), Err(ParseError::MalformedInteger));
    assert_eq!(parse_integer("0x10000000000000000"), Err(ParseError::MalformedInteger));
    assert_eq!(
        parse_integer("0b10000000000000000000000000000000000000000000000000000000000000000"),
        Err(ParseError::MalformedInteger)
    );
}

#[test]
fn a_literal_needs_a_digit() {
    assert_eq!(parse_integer(""), Err(ParseError::MalformedInteger));
    assert_eq!(parse_integer("0x"), Err(ParseError::MalformedInteger));
    assert_eq!(parse_integer("0b"), Err(ParseError::MalformedInteger));
}

#[test]
fn a_character_that_is_no_digit_is_malformed() {
    assert_eq!(parse_integer("12a"), Err(ParseError::MalformedInteger));
    assert_eq!(parse_integer("0b102"), Err(ParseError::MalformedInteger));
    assert_eq!(parse_integer("0xfg"), Err(ParseError::MalformedInteger));
    assert_eq!(parse_integer("1_000"), Err(ParseError::MalformedInteger));
    assert_eq!(parse_integer(" 1"), Err(ParseError::MalformedInteger));
    assert_eq!(parse_integer("1 "), Err(ParseError::MalformedInteger));
    assert_eq!(parse_integer("٣"), Err(ParseError::MalformedInteger));
}

#[test]
fn a_literal_has_no_sign() {
    assert_eq!(parse_integer("+5"), Err(ParseError::MalformedInteger));
    assert_eq!(parse_integer("-5"), Err(ParseError::MalformedInteger));
    assert_eq!(parse_integer("0x+5"), Err(ParseError::MalformedInteger));
}

#[test]
fn the_radix_marker_is_lower_case() {
    assert_eq!(parse_integer("0X1F"), Err(ParseError::MalformedInteger));
    assert_eq!(parse_integer("0B11"), Err(ParseError::MalformedInteger));
}

#[test]
fn an_immediate_begins_with_a_dollar() {
    assert_eq!(parse_immediate("42"), Err(ParseError::MalformedInteger));
    assert_eq!(parse_immediate(""), Err(ParseError::MalformedInteger));
    assert_eq!(parse_immediate("$"), Err(ParseError::MalformedInteger));
    assert_eq!(parse_immediate("$$1"), Err(ParseError::MalformedInteger));
    assert_eq!(parse_immediate("$0x"), Err(ParseError::MalformedInteger));
    assert_eq!(parse_immediate("$-1"), Err(ParseError::MalformedInteger));
    assert_eq!(parse_immediate("$0xffffffffffffffff"), Ok(u64::MAX));
}

#[test]
fn a_negative_displacement_is_its_twos_complement() {
    assert_eq!(parse_displacement("-0x8"), Ok(0xffff_ffff_ffff_fff8));
    assert_eq!(parse_displacement("-1"), Ok(u64::MAX));
    assert_eq!(parse_displacement("-0"), Ok(0));
    assert_eq!(parse_displacement("-0x8000000000000000"), Ok(0x8000_0000_0000_0000));
    assert_eq!(parse_displacement("-0xffffffffffffffff"), Ok(1));
    assert_eq!(parse_displacement("-0b11"), Ok(u64::MAX - 2));
}

#[test]
fn a_displacement_without_sign_is_a_literal() {
    assert_eq!(parse_displacement("0x8"), Ok(8));
    assert_eq!(parse_displacement("16"), Ok(16));
}

#[test]
fn a_malformed_displacement() {
    assert_eq!(parse_displacement(""), Err(ParseError::MalformedInteger));
    assert_eq!(parse_displacement("-"), Err(ParseError::MalformedInteger));
    assert_eq!(parse_displacement("--8"), Err(ParseError::MalformedInteger));
    assert_eq!(parse_displacement("+8"), Err(ParseError::MalformedInteger));
    assert_eq!(parse_displacement("-0x10000000000000000"), Err(ParseError::MalformedInteger));
}

#[test]
fn bare_hexadecimal_numbers() {
    assert_eq!(parse_hex("401000", u64::MAX), Some(0x40_1000));
    assert_eq!(parse_hex("ff", 0xff), Some(255));
    assert_eq!(parse_hex("FF", 0xff), Some(255));
    assert_eq!(parse_hex("0", 0xff), Some(0));
    assert_eq!(parse_hex("00000000000000000000", 0xff), Some(0));
    assert_eq!(parse_hex("ffffffffffffffff", u64::MAX), Some(u64::MAX));
}

#[test]
fn a_bare_number_may_have_a_plus() {
    assert_eq!(parse_hex("+ff", 0xff), Some(255));
    assert_eq!(parse_hex("+", 0xff), None);
    assert_eq!(parse_hex("++1", 0xff), None);
    assert_eq!(parse_hex("-1", 0xff), None);
    assert_eq!(parse_hex("1+", 0xff), None);
}

#[test]
fn a_bare_number_beyond_its_limit() {
    assert_eq!(parse_hex("100", 0xff), None);
    assert_eq!(parse_hex("10000000000000000", u64::MAX), None);
    assert_eq!(parse_hex("a", 9), None);
    assert_eq!(parse_hex("9", 9), Some(9));
    assert_eq!(parse_hex("1", 0), None);
    assert_eq!(parse_hex("0", 0), Some(0));
}

#[test]
fn a_bare_number_has_no_radix_marker() {
    assert_eq!(parse_hex("0x10", u64::MAX), None);
    assert_eq!(parse_hex("", u64::MAX), None);
    assert_eq!(parse_hex("12:", u64::MAX), None);
    assert_eq!(parse_hex("g", u64::MAX), None);
    assert_eq!(parse_hex("1 ", u64::MAX), None);
}

#[test]
fn what_a_bare_number_is_agrees_with_the_standard_library() {
    for text in ["", "0", "+0", "-0", "ff", "+ff", "fF", "100", "0x1", "1_0", " 1", "+", "g", "٣"] {
        assert_eq!(parse_hex(text, 0xff), u8::from_str_radix(text, 16).ok().map(u64::from));
        assert_eq!(parse_hex(text, u64::MAX), u64::from_str_radix(text, 16).ok(), "{text:?}");
    }
}

#[test]
fn the_value_of_a_digit() {
    assert_eq!(digit_of('0'), Some(0));
    assert_eq!(digit_of('9'), Some(9));
    assert_eq!(digit_of('a'), Some(10));
    assert_eq!(digit_of('F'), Some(15));
    assert_eq!(digit_of('z'), Some(35));
    assert_eq!(digit_of('/'), None);
    assert_eq!(digit_of(':'), None);
    assert_eq!(digit_of('@'), None);
    assert_eq!(digit_of('['), None);
    assert_eq!(digit_of('`'), None);
    assert_eq!(digit_of('{'), None);
    assert_eq!(digit_of('é'), None);
}

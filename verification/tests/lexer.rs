use rvcc::parser::identifier::{parse_identifier, parse_keyword};
use rvcc::parser::number::{
    parse_binary_number, parse_decimal_number, parse_hex_number, parse_number, parse_octal_number,
};
use rvcc::parser::trivial_tokens::{
    parse_ampersand, parse_double_ampersand, parse_double_less_than, parse_double_plus,
    parse_equals, parse_less_than, parse_less_than_equals, parse_multiple_chars,
    parse_multiple_chars_not_followed_by, parse_plus, parse_plus_equals, parse_pointer_ampersand,
    parse_void,
};
use rvcc::parser::whitespace::parse_whitespace;
use rvcc::parser::ParseError;

#[test]
fn whitespace_is_space_tab_and_line_ends() {
    assert_eq!(parse_whitespace(" \t\r\n x", 0), 5);
    assert_eq!(parse_whitespace("x  ", 0), 0);
    assert_eq!(parse_whitespace("x  ", 1), 3);
    assert_eq!(parse_whitespace("", 0), 0);
}

#[test]
fn an_identifier_starts_with_a_letter_or_an_underscore() {
    assert_eq!(parse_identifier("  abc_1+", 0), Ok(("abc_1", 7)));
    assert_eq!(parse_identifier("_x", 0), Ok(("_x", 2)));
    assert_eq!(parse_identifier("Z9 ", 0), Ok(("Z9", 2)));
    assert_eq!(parse_identifier("9z", 0), Err(ParseError::Backtrack));
    assert_eq!(parse_identifier("   ", 0), Err(ParseError::Backtrack));
    assert_eq!(parse_identifier("", 0), Err(ParseError::Backtrack));
}

#[test]
fn a_keyword_is_a_whole_identifier() {
    assert_eq!(parse_keyword(" if (x)", 0, "if"), Ok(3));
    assert_eq!(parse_keyword("iffy", 0, "if"), Err(ParseError::Backtrack));
    assert_eq!(parse_keyword("i", 0, "if"), Err(ParseError::Backtrack));
}

#[test]
fn numbers_of_every_base() {
    assert_eq!(parse_number("42;", 0), Ok((42, 2)));
    assert_eq!(parse_number(" 0", 0), Ok((0, 2)));
    assert_eq!(parse_number("0x1F", 0), Ok((31, 4)));
    assert_eq!(parse_number("0xff+", 0), Ok((255, 4)));
    assert_eq!(parse_number("0b101", 0), Ok((5, 5)));
    assert_eq!(parse_number("0o17", 0), Ok((15, 4)));
    assert_eq!(parse_number("2147483647", 0), Ok((2147483647, 10)));
    assert_eq!(parse_number("x", 0), Err(ParseError::Backtrack));
}

#[test]
fn a_prefixed_number_needs_two_digits() {
    // With one digit only, the zero alone is the number.
    assert_eq!(parse_hex_number("0x1", 0), Err(ParseError::Backtrack));
    assert_eq!(parse_number("0x1", 0), Ok((0, 1)));
    assert_eq!(parse_binary_number("0b1", 0), Err(ParseError::Backtrack));
    assert_eq!(parse_octal_number("0o7", 0), Err(ParseError::Backtrack));
    assert_eq!(parse_octal_number("0o78", 0), Err(ParseError::Backtrack));
    assert_eq!(parse_octal_number("0o778", 0), Ok((63, 4)));
    assert_eq!(parse_decimal_number("7", 0), Ok((7, 1)));
}

#[test]
fn a_number_too_large_ends_the_parse() {
    assert_eq!(parse_number("2147483648", 0), Err(ParseError::NumberTooLarge));
    assert_eq!(parse_number("0x80000000", 0), Err(ParseError::NumberTooLarge));
    assert_eq!(parse_number("99999999999999999999999999", 0), Err(ParseError::NumberTooLarge));
    assert_eq!(parse_number("0x7fffffff", 0), Ok((2147483647, 10)));
}

#[test]
fn tokens_stand_behind_whitespace() {
    assert_eq!(parse_multiple_chars("  ((", 0, "("), Ok(3));
    assert_eq!(parse_multiple_chars("  )", 0, "("), Err(ParseError::Backtrack));
    assert_eq!(parse_multiple_chars("", 0, "("), Err(ParseError::Backtrack));
    assert_eq!(parse_void(" void)", 0), Ok(5));
}

#[test]
fn a_token_is_not_the_start_of_a_longer_one() {
    assert_eq!(parse_plus("+ 1", 0), Ok(1));
    assert_eq!(parse_plus("+1", 0), Ok(1));
    assert_eq!(parse_plus("++", 0), Err(ParseError::Backtrack));
    assert_eq!(parse_plus("+=", 0), Err(ParseError::Backtrack));
    assert_eq!(parse_double_plus("++", 0), Ok(2));
    assert_eq!(parse_plus_equals("+=", 0), Ok(2));
    assert_eq!(parse_equals("= 1", 0), Ok(1));
    assert_eq!(parse_equals("== 1", 0), Err(ParseError::Backtrack));
    assert_eq!(parse_less_than("< 1", 0), Ok(1));
    assert_eq!(parse_less_than("<= 1", 0), Err(ParseError::Backtrack));
    assert_eq!(parse_less_than("<< 1", 0), Err(ParseError::Backtrack));
    assert_eq!(parse_less_than("<> 1", 0), Err(ParseError::Backtrack));
    assert_eq!(parse_less_than_equals("<= 1", 0), Ok(2));
    assert_eq!(parse_double_less_than("<< 1", 0), Ok(2));
    assert_eq!(parse_double_less_than("<<= 1", 0), Err(ParseError::Backtrack));
    assert_eq!(parse_ampersand("& x", 0), Ok(1));
    assert_eq!(parse_ampersand("&& x", 0), Err(ParseError::Backtrack));
    assert_eq!(parse_double_ampersand("&& x", 0), Ok(2));
    assert_eq!(parse_pointer_ampersand("&&x", 0), Ok(1));
    assert_eq!(
        parse_multiple_chars_not_followed_by("ab", 0, "a", &["c", "b"]),
        Err(ParseError::Backtrack)
    );
    assert_eq!(parse_multiple_chars_not_followed_by("ad", 0, "a", &["c", "b"]), Ok(1));
    assert_eq!(parse_multiple_chars_not_followed_by("a", 0, "a", &["c", "b"]), Ok(1));
}

#[test]
fn the_words_of_the_language() {
    for word in [
        "int", "void", "return", "if", "else", "while", "for", "break", "continue", "switch",
        "case", "default", "__ebreak",
    ] {
        assert!(rvcc::parser::identifier::keyword_name(word), "{word}");
    }
    for name in ["", "Int", "integer", "i", "main", "_", "ebreak"] {
        assert!(!rvcc::parser::identifier::keyword_name(name), "{name}");
    }
}

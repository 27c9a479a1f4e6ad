//! Numbers in the bases 16, 2, 8 and 10.
use vstd::prelude::*;
use vstd::string::*;
use crate::parser::ParseError;
use crate::parser::trivial_tokens::{has_text, starts_with};
use crate::parser::whitespace::{char_at, length, parse_whitespace, skip_whitespace};

verus! {

/// The value of the character `c` as a digit in base `radix`, if it is one.
pub open spec fn digit_of(c: char, radix: int) -> Option<int> {
    if '0' <= c && c <= '9' {
        if radix > c as int - '0' as int {
            Some(c as int - '0' as int)
        } else {
            None
        }
    } else if radix == 16 && 'a' <= c && c <= 'f' {
        Some(c as int - 'a' as int + 10)
    } else if radix == 16 && 'A' <= c && c <= 'F' {
        Some(c as int - 'A' as int + 10)
    } else {
        None
    }
}

/// The first place at or behind `position` that holds no digit of base
/// `radix`.
pub open spec fn digits_end(source: Seq<char>, position: int, radix: int) -> int
    decreases source.len() - position,
{
    if 0 <= position < source.len() && digit_of(source[position], radix) is Some {
        digits_end(source, position + 1, radix)
    } else {
        position
    }
}

/// The number that the digits from `from` up to `to` write in base `radix`.
pub open spec fn digits_value(source: Seq<char>, from: int, to: int, radix: int) -> int
    decreases to - from,
{
    if to <= from {
        0
    } else {
        digits_value(source, from, to - 1, radix) * radix + match digit_of(source[to - 1], radix) {
            Some(digit) => digit,
            None => 0,
        }
    }
}

/// The number written at `start` as `prefix` and then at least `least`
/// digits of base `radix`, with the place behind it. All digits that follow
/// belong to the number. A number above the largest `int` of the source
/// language ends the parse.
pub open spec fn radix_number(
    source: Seq<char>,
    start: int,
    prefix: Seq<char>,
    radix: int,
    least: int,
) -> Result<(i32, int), ParseError> {
    if has_text(source, start, prefix) {
        let from = start + prefix.len();
        let end = digits_end(source, from, radix);
        if end - from >= least {
            if digits_value(source, from, end, radix) <= i32::MAX {
                Ok((digits_value(source, from, end, radix) as i32, end))
            } else {
                Err(ParseError::NumberTooLarge)
            }
        } else {
            Err(ParseError::Backtrack)
        }
    } else {
        Err(ParseError::Backtrack)
    }
}

/// The first of two results that is no failure to match.
pub open spec fn or_else<T>(first: Result<T, ParseError>, second: Result<T, ParseError>) -> Result<
    T,
    ParseError,
> {
    match first {
        Err(ParseError::Backtrack) => second,
        _ => first,
    }
}

/// A number in base 16: `0x` and at least two digits.
pub open spec fn hex_number(source: Seq<char>, position: int) -> Result<(i32, int), ParseError> {
    radix_number(source, skip_whitespace(source, position), "0x"@, 16, 2)
}

/// A number in base 2: `0b` and at least two digits.
pub open spec fn binary_number(source: Seq<char>, position: int) -> Result<(i32, int), ParseError> {
    radix_number(source, skip_whitespace(source, position), "0b"@, 2, 2)
}

/// A number in base 8: `0o` and at least two digits.
pub open spec fn octal_number(source: Seq<char>, position: int) -> Result<(i32, int), ParseError> {
    radix_number(source, skip_whitespace(source, position), "0o"@, 8, 2)
}

/// A number in base 10: at least one digit.
pub open spec fn decimal_number(
    source: Seq<char>,
    position: int,
) -> Result<(i32, int), ParseError> {
    radix_number(source, skip_whitespace(source, position), Seq::empty(), 10, 1)
}

/// The number at `position`: in base 16, 2 or 8 if it has the prefix of one
/// of these, else in base 10.
pub open spec fn number(source: Seq<char>, position: int) -> Result<(i32, int), ParseError> {
    or_else(
        hex_number(source, position),
        or_else(
            binary_number(source, position),
            or_else(octal_number(source, position), decimal_number(source, position)),
        ),
    )
}

/// Whether the number and the place that a reader returned are those that
/// the model gives.
pub open spec fn same_number(
    result: Result<(i32, usize), ParseError>,
    expected: Result<(i32, int), ParseError>,
) -> bool {
    match result {
        Ok((value, end)) => expected == Ok::<(i32, int), ParseError>((value, end as int)),
        Err(error) => expected == Err::<(i32, int), ParseError>(error),
    }
}

/// The value of a character as a digit in base `radix`.
pub fn digit(c: char, radix: u32) -> (value: Option<u32>)
    requires
        radix == 2 || radix == 8 || radix == 10 || radix == 16,
    ensures
        match value {
            Some(d) => digit_of(c, radix as int) == Some(d as int) && d < radix,
            None => digit_of(c, radix as int) is None,
        },
{
    if c >= '0' && c <= '9' {
        let d: u32 = c as u32 - '0' as u32;
        if d < radix {
            Some(d)
        } else {
            None
        }
    } else if radix == 16 && c >= 'a' && c <= 'f' {
        Some(c as u32 - 'a' as u32 + 10)
    } else if radix == 16 && c >= 'A' && c <= 'F' {
        Some(c as u32 - 'A' as u32 + 10)
    } else {
        None
    }
}

/// Reads `prefix` and then a number of at least `least` digits in base
/// `radix` at `start`.
pub fn parse_radix_number(
    source: &str,
    start: usize,
    prefix: &str,
    radix: u32,
    least: usize,
) -> (result:
    Result<(i32, usize), ParseError>)
    requires
        source.is_ascii(),
        prefix.is_ascii(),
        start <= source@.len(),
        radix == 2 || radix == 8 || radix == 10 || radix == 16,
        least >= 1,
    ensures
        same_number(
            result,
            radix_number(source@, start as int, prefix@, radix as int, least as int),
        ),
        result matches Ok((_, end)) ==> start < end <= source@.len(),
{
    let size = length(source);
    if !starts_with(source, start, prefix) {
        return Err(ParseError::Backtrack);
    }
    let from = start + length(prefix);
    let mut end = from;
    // The number read so far, unless it is too large.
    let mut value: Option<u32> = Some(0);
    let mut more = true;
    while more && end < size
        invariant
            !more ==> digits_end(source@, end as int, radix as int) == end,
            source.is_ascii(),
            size == source@.len(),
            from <= end <= size,
            radix == 2 || radix == 8 || radix == 10 || radix == 16,
            digits_end(source@, from as int, radix as int) == digits_end(
                source@,
                end as int,
                radix as int,
            ),
            match value {
                Some(read) => digits_value(source@, from as int, end as int, radix as int) == read
                    && read <= i32::MAX,
                None => digits_value(source@, from as int, end as int, radix as int) > i32::MAX,
            },
        decreases
                size - end + (if more {
                    1int
                } else {
                    0int
                }),
    {
        let d = match digit(char_at(source, end), radix) {
            Some(d) => d,
            None => {
                more = false;
                continue ;
            },
        };
        let ghost before = digits_value(source@, from as int, end as int, radix as int);
        assert(digits_value(source@, from as int, end + 1, radix as int) == before * radix + d);
        value = match value {
            Some(read) => {
                let longer: u64 = read as u64 * radix as u64 + d as u64;
                if longer > 0x7fff_ffff {
                    None
                } else {
                    Some(longer as u32)
                }
            },
            None => {
                assert(before * radix + d > i32::MAX) by (nonlinear_arith)
                    requires
                        before > i32::MAX,
                        radix >= 2,
                        d >= 0,
                ;
                None
            },
        };
        end = end + 1;
    }
    assert(digits_end(source@, end as int, radix as int) == end);
    if end - from < least {
        return Err(ParseError::Backtrack);
    }
    match value {
        Some(read) => Ok((read as i32, end)),
        None => Err(ParseError::NumberTooLarge),
    }
}

/// Reads a number in base 16.
pub fn parse_hex_number(source: &str, position: usize) -> (result: Result<(i32, usize), ParseError>)
    requires
        source.is_ascii(),
        position <= source@.len(),
    ensures
        same_number(result, hex_number(source@, position as int)),
        result matches Ok((_, end)) ==> position < end <= source@.len(),
{
    proof {
        reveal_strlit("0x");
    }
    parse_radix_number(source, parse_whitespace(source, position), "0x", 16, 2)
}

/// Reads a number in base 2.
pub fn parse_binary_number(source: &str, position: usize) -> (result: Result<
    (i32, usize),
    ParseError,
>)
    requires
        source.is_ascii(),
        position <= source@.len(),
    ensures
        same_number(result, binary_number(source@, position as int)),
        result matches Ok((_, end)) ==> position < end <= source@.len(),
{
    proof {
        reveal_strlit("0b");
    }
    parse_radix_number(source, parse_whitespace(source, position), "0b", 2, 2)
}

/// Reads a number in base 8.
pub fn parse_octal_number(source: &str, position: usize) -> (result: Result<
    (i32, usize),
    ParseError,
>)
    requires
        source.is_ascii(),
        position <= source@.len(),
    ensures
        same_number(result, octal_number(source@, position as int)),
        result matches Ok((_, end)) ==> position < end <= source@.len(),
{
    proof {
        reveal_strlit("0o");
    }
    parse_radix_number(source, parse_whitespace(source, position), "0o", 8, 2)
}

/// Reads a number in base 10.
pub fn parse_decimal_number(source: &str, position: usize) -> (result: Result<
    (i32, usize),
    ParseError,
>)
    requires
        source.is_ascii(),
        position <= source@.len(),
    ensures
        same_number(result, decimal_number(source@, position as int)),
        result matches Ok((_, end)) ==> position < end <= source@.len(),
{
    proof {
        reveal_strlit("");
    }
    let result = parse_radix_number(source, parse_whitespace(source, position), "", 10, 1);
    assert(""@ =~= Seq::<char>::empty());
    result
}

/// Reads a number.
pub fn parse_number(source: &str, position: usize) -> (result: Result<(i32, usize), ParseError>)
    requires
        source.is_ascii(),
        position <= source@.len(),
    ensures
        same_number(result, number(source@, position as int)),
        result matches Ok((_, end)) ==> position < end <= source@.len(),
{
    match parse_hex_number(source, position) {
        Err(ParseError::Backtrack) => {},
        other => {
            return other;
        },
    }
    match parse_binary_number(source, position) {
        Err(ParseError::Backtrack) => {},
        other => {
            return other;
        },
    }
    match parse_octal_number(source, position) {
        Err(ParseError::Backtrack) => {},
        other => {
            return other;
        },
    }
    parse_decimal_number(source, position)
}

} // verus!

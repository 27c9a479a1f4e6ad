//! Identifiers and the words of the language.
use vstd::prelude::*;
use vstd::string::*;
use crate::parser::ParseError;
use crate::utils::text::same_text;
use crate::parser::whitespace::{char_at, length, parse_whitespace, skip_whitespace};

verus! {

/// A letter of the ASCII alphabet.
pub open spec fn is_letter(c: char) -> bool {
    ('a' <= c && c <= 'z') || ('A' <= c && c <= 'Z')
}

/// A decimal digit.
pub open spec fn is_digit(c: char) -> bool {
    '0' <= c && c <= '9'
}

/// A character that may start an identifier: a letter or an underscore.
pub open spec fn is_identifier_start(c: char) -> bool {
    is_letter(c) || c == '_'
}

/// A character that may go on in an identifier: a letter, a digit or an
/// underscore.
pub open spec fn is_identifier_part(c: char) -> bool {
    is_letter(c) || is_digit(c) || c == '_'
}

/// The first place at or behind `position` that does not go on in an
/// identifier.
pub open spec fn identifier_end(source: Seq<char>, position: int) -> int
    decreases source.len() - position,
{
    if 0 <= position < source.len() && is_identifier_part(source[position]) {
        identifier_end(source, position + 1)
    } else {
        position
    }
}

/// The identifier behind the whitespace at `position`, and the place
/// behind it.
pub open spec fn identifier(source: Seq<char>, position: int) -> Option<(Seq<char>, int)> {
    let start = skip_whitespace(source, position);
    if 0 <= start < source.len() && is_identifier_start(source[start]) {
        Some(
            (
                source.subrange(start, identifier_end(source, start + 1)),
                identifier_end(source, start + 1),
            ),
        )
    } else {
        None
    }
}

/// The place behind the word `word`, if it is the identifier at `position`.
pub open spec fn keyword(source: Seq<char>, position: int, word: Seq<char>) -> Option<int> {
    match identifier(source, position) {
        Some((name, end)) => if name == word {
            Some(end)
        } else {
            None
        },
        None => None,
    }
}

/// Whether a name is one of the words of the language, which no expression
/// may use as a name.
pub open spec fn is_keyword(name: Seq<char>) -> bool {
    name == "int"@ || name == "void"@ || name == "return"@ || name == "if"@ || name == "else"@
        || name == "while"@ || name == "for"@ || name == "break"@ || name == "continue"@ || name
        == "switch"@ || name == "case"@ || name == "default"@ || name == "__ebreak"@
}

/// An identifier ends behind where it starts, within the source.
pub proof fn lemma_identifier_end(source: Seq<char>, position: int)
    requires
        0 <= position <= source.len(),
    ensures
        position <= identifier_end(source, position) <= source.len(),
    decreases source.len() - position,
{
    if position < source.len() && is_identifier_part(source[position]) {
        lemma_identifier_end(source, position + 1);
    }
}

/// Whether the place that a reader returned is the place that the model
/// gives, and the reader gave up exactly where the model gives none.
pub open spec fn reached(result: Result<usize, ParseError>, expected: Option<int>) -> bool {
    match result {
        Ok(end) => expected == Some(end as int),
        Err(error) => error == ParseError::Backtrack && expected is None,
    }
}

/// Reads the identifier at `position`.
pub fn parse_identifier<'s>(source: &'s str, position: usize) -> (result: Result<
    (&'s str, usize),
    ParseError,
>)
    requires
        source.is_ascii(),
        position <= source@.len(),
    ensures
        match result {
            Ok((name, end)) => identifier(source@, position as int) == Some((name@, end as int))
                && position < end <= source@.len() && name@.len() >= 1,
            Err(error) => error == ParseError::Backtrack && identifier(source@, position as int)
                is None,
        },
{
    let size = length(source);
    let start = parse_whitespace(source, position);
    if start >= size {
        return Err(ParseError::Backtrack);
    }
    let first = char_at(source, start);
    if !((first >= 'a' && first <= 'z') || (first >= 'A' && first <= 'Z') || first == '_') {
        return Err(ParseError::Backtrack);
    }
    let mut end = start + 1;
    while end < size
        invariant
            source.is_ascii(),
            size == source@.len(),
            position <= start < end <= size,
            start == skip_whitespace(source@, position as int),
            is_identifier_start(source@[start as int]),
            identifier_end(source@, start + 1) == identifier_end(source@, end as int),
        decreases size - end,
    {
        let c = char_at(source, end);
        if (c >= 'a' && c <= 'z') || (c >= 'A' && c <= 'Z') || (c >= '0' && c <= '9') || c == '_' {
            end = end + 1;
        } else {
            assert(identifier_end(source@, end as int) == end);
            return Ok((source.substring_ascii(start, end), end));
        }
    }
    assert(identifier_end(source@, end as int) == end);
    Ok((source.substring_ascii(start, end), end))
}

/// Reads the word `word` at `position`: the identifier there must be this
/// word.
pub fn parse_keyword(source: &str, position: usize, word: &str) -> (result: Result<
    usize,
    ParseError,
>)
    requires
        source.is_ascii(),
        position <= source@.len(),
    ensures
        reached(result, keyword(source@, position as int, word@)),
        result matches Ok(end) ==> position < end <= source@.len(),
{
    let (name, end) = parse_identifier(source, position)?;
    if String::from_str(name) == String::from_str(word) {
        Ok(end)
    } else {
        Err(ParseError::Backtrack)
    }
}

/// Whether a name is one of the words of the language.
pub fn keyword_name(name: &str) -> (word: bool)
    ensures
        word == is_keyword(name@),
{
    same_text(name, "int") || same_text(name, "void") || same_text(name, "return") || same_text(
        name,
        "if",
    ) || same_text(name, "else") || same_text(name, "while") || same_text(name, "for")
        || same_text(name, "break") || same_text(name, "continue") || same_text(name, "switch")
        || same_text(name, "case") || same_text(name, "default") || same_text(name, "__ebreak")
}

} // verus!

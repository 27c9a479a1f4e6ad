//! The punctuation of the language.
use vstd::prelude::*;
use vstd::string::*;
use crate::parser::ParseError;
use crate::parser::identifier::reached;
use crate::parser::whitespace::{char_at, length, parse_whitespace, skip_whitespace};

verus! {

/// Whether `text` stands at `position`.
pub open spec fn has_text(source: Seq<char>, position: int, text: Seq<char>) -> bool {
    &&& 0 <= position
    &&& position + text.len() <= source.len()
    &&& source.subrange(position, position + text.len()) == text
}

/// The texts of a list of words.
pub open spec fn texts(words: Seq<&str>) -> Seq<Seq<char>> {
    Seq::new(words.len(), |i: int| words[i]@)
}

/// Whether one of `forbidden` stands at `position`.
pub open spec fn has_any(source: Seq<char>, position: int, forbidden: Seq<Seq<char>>) -> bool {
    exists|i: int| 0 <= i < forbidden.len() && has_text(source, position, #[trigger] forbidden[i])
}

/// The place behind the token `text`, if it stands behind the whitespace at
/// `position` and none of `forbidden` follows it at once.
pub open spec fn token(
    source: Seq<char>,
    position: int,
    text: Seq<char>,
    forbidden: Seq<Seq<char>>,
) -> Option<int> {
    let start = skip_whitespace(source, position);
    if has_text(source, start, text) && !has_any(source, start + text.len(), forbidden) {
        Some(start + text.len())
    } else {
        None
    }
}

/// Whether `text` stands at `position`.
pub fn starts_with(source: &str, position: usize, text: &str) -> (found: bool)
    requires
        source.is_ascii(),
        text.is_ascii(),
        position <= source@.len(),
    ensures
        found == has_text(source@, position as int, text@),
{
    let size = length(source);
    let width = length(text);
    if width > size - position {
        return false;
    }
    let mut i: usize = 0;
    while i < width
        invariant
            source.is_ascii(),
            text.is_ascii(),
            size == source@.len(),
            width == text@.len(),
            position + width <= size,
            i <= width,
            forall|j: int| 0 <= j < i ==> source@[position + j] == text@[j],
        decreases width - i,
    {
        if char_at(source, position + i) != char_at(text, i) {
            assert(
                source@.subrange(position as int, position + width)[i as int] != text@[i as int]
            );
            return false;
        }
        i = i + 1;
    }
    assert(source@.subrange(position as int, position + width) =~= text@);
    true
}

/// Reads the token `s` at `position`.
pub fn parse_multiple_chars(source: &str, position: usize, s: &str) -> (result: Result<
    usize,
    ParseError,
>)
    requires
        source.is_ascii(),
        s.is_ascii(),
        position <= source@.len(),
    ensures
        reached(result, token(source@, position as int, s@, Seq::empty())),
        result matches Ok(end) ==> position + s@.len() <= end <= source@.len(),
{
    let size = length(source);
    let start = parse_whitespace(source, position);
    if starts_with(source, start, s) {
        Ok(start + length(s))
    } else {
        Err(ParseError::Backtrack)
    }
}

/// Reads the token `s` at `position`, unless one of `n` follows it at once.
pub fn parse_multiple_chars_not_followed_by(
    source: &str,
    position: usize,
    s: &str,
    n: &[&str],
) -> (result: Result<usize, ParseError>)
    requires
        source.is_ascii(),
        s.is_ascii(),
        forall|i: int| 0 <= i < n@.len() ==> (#[trigger] n@[i]).is_ascii(),
        position <= source@.len(),
    ensures
        reached(result, token(source@, position as int, s@, texts(n@))),
        result matches Ok(end) ==> position + s@.len() <= end <= source@.len(),
{
    let size = length(source);
    let start = parse_whitespace(source, position);
    if !starts_with(source, start, s) {
        return Err(ParseError::Backtrack);
    }
    let end = start + length(s);
    let mut i: usize = 0;
    while i < n.len()
        invariant
            source.is_ascii(),
            end <= source@.len(),
            start == skip_whitespace(source@, position as int),
            end == start + s@.len(),
            has_text(source@, start as int, s@),
            i <= n@.len(),
            forall|j: int| 0 <= j < n@.len() ==> (#[trigger] n@[j]).is_ascii(),
            forall|j: int| 0 <= j < i ==> !has_text(source@, end as int, #[trigger] texts(n@)[j]),
        decreases n.len() - i,
    {
        if starts_with(source, end, n[i]) {
            assert(has_text(source@, end as int, texts(n@)[i as int]));
            return Err(ParseError::Backtrack);
        }
        i = i + 1;
    }
    Ok(end)
}

/// The place behind an opening parenthesis.
pub open spec fn open_paren(source: Seq<char>, position: int) -> Option<int> {
    token(source, position, "("@, Seq::empty())
}

/// Reads an opening parenthesis.
pub fn parse_open_paren(source: &str, position: usize) -> (result: Result<usize, ParseError>)
    requires
        source.is_ascii(),
        position <= source@.len(),
    ensures
        reached(result, open_paren(source@, position as int)),
        result matches Ok(end) ==> position < end <= source@.len(),
{
    proof {
        reveal_strlit("(");
    }
    parse_multiple_chars(source, position, "(")
}

/// The place behind a closing parenthesis.
pub open spec fn close_paren(source: Seq<char>, position: int) -> Option<int> {
    token(source, position, ")"@, Seq::empty())
}

/// Reads a closing parenthesis.
pub fn parse_close_paren(source: &str, position: usize) -> (result: Result<usize, ParseError>)
    requires
        source.is_ascii(),
        position <= source@.len(),
    ensures
        reached(result, close_paren(source@, position as int)),
        result matches Ok(end) ==> position < end <= source@.len(),
{
    proof {
        reveal_strlit(")");
    }
    parse_multiple_chars(source, position, ")")
}

/// The place behind an opening brace.
pub open spec fn open_scope(source: Seq<char>, position: int) -> Option<int> {
    token(source, position, "{"@, Seq::empty())
}

/// Reads an opening brace.
pub fn parse_open_scope(source: &str, position: usize) -> (result: Result<usize, ParseError>)
    requires
        source.is_ascii(),
        position <= source@.len(),
    ensures
        reached(result, open_scope(source@, position as int)),
        result matches Ok(end) ==> position < end <= source@.len(),
{
    proof {
        reveal_strlit("{");
    }
    parse_multiple_chars(source, position, "{")
}

/// The place behind a closing brace.
pub open spec fn close_scope(source: Seq<char>, position: int) -> Option<int> {
    token(source, position, "}"@, Seq::empty())
}

/// Reads a closing brace.
pub fn parse_close_scope(source: &str, position: usize) -> (result: Result<usize, ParseError>)
    requires
        source.is_ascii(),
        position <= source@.len(),
    ensures
        reached(result, close_scope(source@, position as int)),
        result matches Ok(end) ==> position < end <= source@.len(),
{
    proof {
        reveal_strlit("}");
    }
    parse_multiple_chars(source, position, "}")
}

/// The place behind a semicolon.
pub open spec fn semicolon(source: Seq<char>, position: int) -> Option<int> {
    token(source, position, ";"@, Seq::empty())
}

/// Reads a semicolon.
pub fn parse_semicolon(source: &str, position: usize) -> (result: Result<usize, ParseError>)
    requires
        source.is_ascii(),
        position <= source@.len(),
    ensures
        reached(result, semicolon(source@, position as int)),
        result matches Ok(end) ==> position < end <= source@.len(),
{
    proof {
        reveal_strlit(";");
    }
    parse_multiple_chars(source, position, ";")
}

/// The place behind a comma.
pub open spec fn comma(source: Seq<char>, position: int) -> Option<int> {
    token(source, position, ","@, Seq::empty())
}

/// Reads a comma.
pub fn parse_comma(source: &str, position: usize) -> (result: Result<usize, ParseError>)
    requires
        source.is_ascii(),
        position <= source@.len(),
    ensures
        reached(result, comma(source@, position as int)),
        result matches Ok(end) ==> position < end <= source@.len(),
{
    proof {
        reveal_strlit(",");
    }
    parse_multiple_chars(source, position, ",")
}

/// The place behind `+`, but not the start of `++` or `+=`.
pub open spec fn plus(source: Seq<char>, position: int) -> Option<int> {
    token(source, position, "+"@, texts(["+", "="]@))
}

/// Reads `+`, but not the start of `++` or `+=`.
pub fn parse_plus(source: &str, position: usize) -> (result: Result<usize, ParseError>)
    requires
        source.is_ascii(),
        position <= source@.len(),
    ensures
        reached(result, plus(source@, position as int)),
        result matches Ok(end) ==> position < end <= source@.len(),
{
    proof {
        reveal_strlit("+");
        reveal_strlit("=");
    }
    let forbidden = ["+", "="];
    parse_multiple_chars_not_followed_by(source, position, "+", &forbidden)
}

/// The place behind `-`, but not the start of `--` or `-=`.
pub open spec fn minus(source: Seq<char>, position: int) -> Option<int> {
    token(source, position, "-"@, texts(["-", "="]@))
}

/// Reads `-`, but not the start of `--` or `-=`.
pub fn parse_minus(source: &str, position: usize) -> (result: Result<usize, ParseError>)
    requires
        source.is_ascii(),
        position <= source@.len(),
    ensures
        reached(result, minus(source@, position as int)),
        result matches Ok(end) ==> position < end <= source@.len(),
{
    proof {
        reveal_strlit("-");
        reveal_strlit("=");
    }
    let forbidden = ["-", "="];
    parse_multiple_chars_not_followed_by(source, position, "-", &forbidden)
}

/// The place behind `~`.
pub open spec fn tilda(source: Seq<char>, position: int) -> Option<int> {
    token(source, position, "~"@, Seq::empty())
}

/// Reads `~`.
pub fn parse_tilda(source: &str, position: usize) -> (result: Result<usize, ParseError>)
    requires
        source.is_ascii(),
        position <= source@.len(),
    ensures
        reached(result, tilda(source@, position as int)),
        result matches Ok(end) ==> position < end <= source@.len(),
{
    proof {
        reveal_strlit("~");
    }
    parse_multiple_chars(source, position, "~")
}

/// The place behind `!`, but not the start of `!=`.
pub open spec fn bang(source: Seq<char>, position: int) -> Option<int> {
    token(source, position, "!"@, texts(["="]@))
}

/// Reads `!`, but not the start of `!=`.
pub fn parse_bang(source: &str, position: usize) -> (result: Result<usize, ParseError>)
    requires
        source.is_ascii(),
        position <= source@.len(),
    ensures
        reached(result, bang(source@, position as int)),
        result matches Ok(end) ==> position < end <= source@.len(),
{
    proof {
        reveal_strlit("!");
        reveal_strlit("=");
    }
    let forbidden = ["="];
    parse_multiple_chars_not_followed_by(source, position, "!", &forbidden)
}

/// The place behind `*`, but not the start of `*=`.
pub open spec fn star(source: Seq<char>, position: int) -> Option<int> {
    token(source, position, "*"@, texts(["="]@))
}

/// Reads `*`, but not the start of `*=`.
pub fn parse_star(source: &str, position: usize) -> (result: Result<usize, ParseError>)
    requires
        source.is_ascii(),
        position <= source@.len(),
    ensures
        reached(result, star(source@, position as int)),
        result matches Ok(end) ==> position < end <= source@.len(),
{
    proof {
        reveal_strlit("*");
        reveal_strlit("=");
    }
    let forbidden = ["="];
    parse_multiple_chars_not_followed_by(source, position, "*", &forbidden)
}

/// The place behind `/`, but not the start of `/=`.
pub open spec fn slash(source: Seq<char>, position: int) -> Option<int> {
    token(source, position, "/"@, texts(["="]@))
}

/// Reads `/`, but not the start of `/=`.
pub fn parse_slash(source: &str, position: usize) -> (result: Result<usize, ParseError>)
    requires
        source.is_ascii(),
        position <= source@.len(),
    ensures
        reached(result, slash(source@, position as int)),
        result matches Ok(end) ==> position < end <= source@.len(),
{
    proof {
        reveal_strlit("/");
        reveal_strlit("=");
    }
    let forbidden = ["="];
    parse_multiple_chars_not_followed_by(source, position, "/", &forbidden)
}

/// The place behind `%`, but not the start of `%=`.
pub open spec fn percent(source: Seq<char>, position: int) -> Option<int> {
    token(source, position, "%"@, texts(["="]@))
}

/// Reads `%`, but not the start of `%=`.
pub fn parse_percent(source: &str, position: usize) -> (result: Result<usize, ParseError>)
    requires
        source.is_ascii(),
        position <= source@.len(),
    ensures
        reached(result, percent(source@, position as int)),
        result matches Ok(end) ==> position < end <= source@.len(),
{
    proof {
        reveal_strlit("%");
        reveal_strlit("=");
    }
    let forbidden = ["="];
    parse_multiple_chars_not_followed_by(source, position, "%", &forbidden)
}

/// The place behind `|`, but not the start of `||` or `|=`.
pub open spec fn pipe(source: Seq<char>, position: int) -> Option<int> {
    token(source, position, "|"@, texts(["|", "="]@))
}

/// Reads `|`, but not the start of `||` or `|=`.
pub fn parse_pipe(source: &str, position: usize) -> (result: Result<usize, ParseError>)
    requires
        source.is_ascii(),
        position <= source@.len(),
    ensures
        reached(result, pipe(source@, position as int)),
        result matches Ok(end) ==> position < end <= source@.len(),
{
    proof {
        reveal_strlit("|");
        reveal_strlit("=");
    }
    let forbidden = ["|", "="];
    parse_multiple_chars_not_followed_by(source, position, "|", &forbidden)
}

/// The place behind `^`, but not the start of `^=`.
pub open spec fn caret(source: Seq<char>, position: int) -> Option<int> {
    token(source, position, "^"@, texts(["="]@))
}

/// Reads `^`, but not the start of `^=`.
pub fn parse_caret(source: &str, position: usize) -> (result: Result<usize, ParseError>)
    requires
        source.is_ascii(),
        position <= source@.len(),
    ensures
        reached(result, caret(source@, position as int)),
        result matches Ok(end) ==> position < end <= source@.len(),
{
    proof {
        reveal_strlit("^");
        reveal_strlit("=");
    }
    let forbidden = ["="];
    parse_multiple_chars_not_followed_by(source, position, "^", &forbidden)
}

/// The place behind `&`, but not the start of `&&` or `&=`.
pub open spec fn ampersand(source: Seq<char>, position: int) -> Option<int> {
    token(source, position, "&"@, texts(["&", "="]@))
}

/// Reads `&`, but not the start of `&&` or `&=`.
pub fn parse_ampersand(source: &str, position: usize) -> (result: Result<usize, ParseError>)
    requires
        source.is_ascii(),
        position <= source@.len(),
    ensures
        reached(result, ampersand(source@, position as int)),
        result matches Ok(end) ==> position < end <= source@.len(),
{
    proof {
        reveal_strlit("&");
        reveal_strlit("=");
    }
    let forbidden = ["&", "="];
    parse_multiple_chars_not_followed_by(source, position, "&", &forbidden)
}

/// The place behind `||`.
pub open spec fn double_pipe(source: Seq<char>, position: int) -> Option<int> {
    token(source, position, "||"@, Seq::empty())
}

/// Reads `||`.
pub fn parse_double_pipe(source: &str, position: usize) -> (result: Result<usize, ParseError>)
    requires
        source.is_ascii(),
        position <= source@.len(),
    ensures
        reached(result, double_pipe(source@, position as int)),
        result matches Ok(end) ==> position < end <= source@.len(),
{
    proof {
        reveal_strlit("||");
    }
    parse_multiple_chars(source, position, "||")
}

/// The place behind `&&`.
pub open spec fn double_ampersand(source: Seq<char>, position: int) -> Option<int> {
    token(source, position, "&&"@, Seq::empty())
}

/// Reads `&&`.
pub fn parse_double_ampersand(source: &str, position: usize) -> (result: Result<usize, ParseError>)
    requires
        source.is_ascii(),
        position <= source@.len(),
    ensures
        reached(result, double_ampersand(source@, position as int)),
        result matches Ok(end) ==> position < end <= source@.len(),
{
    proof {
        reveal_strlit("&&");
    }
    parse_multiple_chars(source, position, "&&")
}

/// The place behind `>>`, but not the start of `>>=`.
pub open spec fn double_greater_than(source: Seq<char>, position: int) -> Option<int> {
    token(source, position, ">>"@, texts(["="]@))
}

/// Reads `>>`, but not the start of `>>=`.
pub fn parse_double_greater_than(
    source: &str,
    position: usize,
) -> (result: Result<usize, ParseError>)
    requires
        source.is_ascii(),
        position <= source@.len(),
    ensures
        reached(result, double_greater_than(source@, position as int)),
        result matches Ok(end) ==> position < end <= source@.len(),
{
    proof {
        reveal_strlit(">>");
        reveal_strlit("=");
    }
    let forbidden = ["="];
    parse_multiple_chars_not_followed_by(source, position, ">>", &forbidden)
}

/// The place behind `<<`, but not the start of `<<=`.
pub open spec fn double_less_than(source: Seq<char>, position: int) -> Option<int> {
    token(source, position, "<<"@, texts(["="]@))
}

/// Reads `<<`, but not the start of `<<=`.
pub fn parse_double_less_than(source: &str, position: usize) -> (result: Result<usize, ParseError>)
    requires
        source.is_ascii(),
        position <= source@.len(),
    ensures
        reached(result, double_less_than(source@, position as int)),
        result matches Ok(end) ==> position < end <= source@.len(),
{
    proof {
        reveal_strlit("<<");
        reveal_strlit("=");
    }
    let forbidden = ["="];
    parse_multiple_chars_not_followed_by(source, position, "<<", &forbidden)
}

/// The place behind `>`, but not the start of `>>` or `>=`.
pub open spec fn greater_than(source: Seq<char>, position: int) -> Option<int> {
    token(source, position, ">"@, texts([">", "="]@))
}

/// Reads `>`, but not the start of `>>` or `>=`.
pub fn parse_greater_than(source: &str, position: usize) -> (result: Result<usize, ParseError>)
    requires
        source.is_ascii(),
        position <= source@.len(),
    ensures
        reached(result, greater_than(source@, position as int)),
        result matches Ok(end) ==> position < end <= source@.len(),
{
    proof {
        reveal_strlit(">");
        reveal_strlit("=");
    }
    let forbidden = [">", "="];
    parse_multiple_chars_not_followed_by(source, position, ">", &forbidden)
}

/// The place behind `<`, but not the start of `<<` or `<=`, and not followed by `>`.
pub open spec fn less_than(source: Seq<char>, position: int) -> Option<int> {
    token(source, position, "<"@, texts(["<", ">", "="]@))
}

/// Reads `<`, but not the start of `<<` or `<=`, and not followed by `>`.
pub fn parse_less_than(source: &str, position: usize) -> (result: Result<usize, ParseError>)
    requires
        source.is_ascii(),
        position <= source@.len(),
    ensures
        reached(result, less_than(source@, position as int)),
        result matches Ok(end) ==> position < end <= source@.len(),
{
    proof {
        reveal_strlit("<");
        reveal_strlit(">");
        reveal_strlit("=");
    }
    let forbidden = ["<", ">", "="];
    parse_multiple_chars_not_followed_by(source, position, "<", &forbidden)
}

/// The place behind `>=`.
pub open spec fn greater_than_equals(source: Seq<char>, position: int) -> Option<int> {
    token(source, position, ">="@, Seq::empty())
}

/// Reads `>=`.
pub fn parse_greater_than_equals(
    source: &str,
    position: usize,
) -> (result: Result<usize, ParseError>)
    requires
        source.is_ascii(),
        position <= source@.len(),
    ensures
        reached(result, greater_than_equals(source@, position as int)),
        result matches Ok(end) ==> position < end <= source@.len(),
{
    proof {
        reveal_strlit(">=");
    }
    parse_multiple_chars(source, position, ">=")
}

/// The place behind `<=`.
pub open spec fn less_than_equals(source: Seq<char>, position: int) -> Option<int> {
    token(source, position, "<="@, Seq::empty())
}

/// Reads `<=`.
pub fn parse_less_than_equals(source: &str, position: usize) -> (result: Result<usize, ParseError>)
    requires
        source.is_ascii(),
        position <= source@.len(),
    ensures
        reached(result, less_than_equals(source@, position as int)),
        result matches Ok(end) ==> position < end <= source@.len(),
{
    proof {
        reveal_strlit("<=");
    }
    parse_multiple_chars(source, position, "<=")
}

/// The place behind `==`.
pub open spec fn double_equals(source: Seq<char>, position: int) -> Option<int> {
    token(source, position, "=="@, Seq::empty())
}

/// Reads `==`.
pub fn parse_double_equals(source: &str, position: usize) -> (result: Result<usize, ParseError>)
    requires
        source.is_ascii(),
        position <= source@.len(),
    ensures
        reached(result, double_equals(source@, position as int)),
        result matches Ok(end) ==> position < end <= source@.len(),
{
    proof {
        reveal_strlit("==");
    }
    parse_multiple_chars(source, position, "==")
}

/// The place behind `!=`.
pub open spec fn bang_equals(source: Seq<char>, position: int) -> Option<int> {
    token(source, position, "!="@, Seq::empty())
}

/// Reads `!=`.
pub fn parse_bang_equals(source: &str, position: usize) -> (result: Result<usize, ParseError>)
    requires
        source.is_ascii(),
        position <= source@.len(),
    ensures
        reached(result, bang_equals(source@, position as int)),
        result matches Ok(end) ==> position < end <= source@.len(),
{
    proof {
        reveal_strlit("!=");
    }
    parse_multiple_chars(source, position, "!=")
}

/// The place behind `=`, but not the start of `==`.
pub open spec fn equals(source: Seq<char>, position: int) -> Option<int> {
    token(source, position, "="@, texts(["="]@))
}

/// Reads `=`, but not the start of `==`.
pub fn parse_equals(source: &str, position: usize) -> (result: Result<usize, ParseError>)
    requires
        source.is_ascii(),
        position <= source@.len(),
    ensures
        reached(result, equals(source@, position as int)),
        result matches Ok(end) ==> position < end <= source@.len(),
{
    proof {
        reveal_strlit("=");
    }
    let forbidden = ["="];
    parse_multiple_chars_not_followed_by(source, position, "=", &forbidden)
}

/// The place behind `+=`.
pub open spec fn plus_equals(source: Seq<char>, position: int) -> Option<int> {
    token(source, position, "+="@, Seq::empty())
}

/// Reads `+=`.
pub fn parse_plus_equals(source: &str, position: usize) -> (result: Result<usize, ParseError>)
    requires
        source.is_ascii(),
        position <= source@.len(),
    ensures
        reached(result, plus_equals(source@, position as int)),
        result matches Ok(end) ==> position < end <= source@.len(),
{
    proof {
        reveal_strlit("+=");
    }
    parse_multiple_chars(source, position, "+=")
}

/// The place behind `-=`.
pub open spec fn minus_equals(source: Seq<char>, position: int) -> Option<int> {
    token(source, position, "-="@, Seq::empty())
}

/// Reads `-=`.
pub fn parse_minus_equals(source: &str, position: usize) -> (result: Result<usize, ParseError>)
    requires
        source.is_ascii(),
        position <= source@.len(),
    ensures
        reached(result, minus_equals(source@, position as int)),
        result matches Ok(end) ==> position < end <= source@.len(),
{
    proof {
        reveal_strlit("-=");
    }
    parse_multiple_chars(source, position, "-=")
}

/// The place behind `*=`.
pub open spec fn star_equals(source: Seq<char>, position: int) -> Option<int> {
    token(source, position, "*="@, Seq::empty())
}

/// Reads `*=`.
pub fn parse_star_equals(source: &str, position: usize) -> (result: Result<usize, ParseError>)
    requires
        source.is_ascii(),
        position <= source@.len(),
    ensures
        reached(result, star_equals(source@, position as int)),
        result matches Ok(end) ==> position < end <= source@.len(),
{
    proof {
        reveal_strlit("*=");
    }
    parse_multiple_chars(source, position, "*=")
}

/// The place behind `/=`.
pub open spec fn slash_equals(source: Seq<char>, position: int) -> Option<int> {
    token(source, position, "/="@, Seq::empty())
}

/// Reads `/=`.
pub fn parse_slash_equals(source: &str, position: usize) -> (result: Result<usize, ParseError>)
    requires
        source.is_ascii(),
        position <= source@.len(),
    ensures
        reached(result, slash_equals(source@, position as int)),
        result matches Ok(end) ==> position < end <= source@.len(),
{
    proof {
        reveal_strlit("/=");
    }
    parse_multiple_chars(source, position, "/=")
}

/// The place behind `%=`.
pub open spec fn percent_equals(source: Seq<char>, position: int) -> Option<int> {
    token(source, position, "%="@, Seq::empty())
}

/// Reads `%=`.
pub fn parse_percent_equals(source: &str, position: usize) -> (result: Result<usize, ParseError>)
    requires
        source.is_ascii(),
        position <= source@.len(),
    ensures
        reached(result, percent_equals(source@, position as int)),
        result matches Ok(end) ==> position < end <= source@.len(),
{
    proof {
        reveal_strlit("%=");
    }
    parse_multiple_chars(source, position, "%=")
}

/// The place behind `>>=`.
pub open spec fn double_greater_than_equals(source: Seq<char>, position: int) -> Option<int> {
    token(source, position, ">>="@, Seq::empty())
}

/// Reads `>>=`.
pub fn parse_double_greater_than_equals(
    source: &str,
    position: usize,
) -> (result: Result<usize, ParseError>)
    requires
        source.is_ascii(),
        position <= source@.len(),
    ensures
        reached(result, double_greater_than_equals(source@, position as int)),
        result matches Ok(end) ==> position < end <= source@.len(),
{
    proof {
        reveal_strlit(">>=");
    }
    parse_multiple_chars(source, position, ">>=")
}

/// The place behind `<<=`.
pub open spec fn double_less_than_equals(source: Seq<char>, position: int) -> Option<int> {
    token(source, position, "<<="@, Seq::empty())
}

/// Reads `<<=`.
pub fn parse_double_less_than_equals(
    source: &str,
    position: usize,
) -> (result: Result<usize, ParseError>)
    requires
        source.is_ascii(),
        position <= source@.len(),
    ensures
        reached(result, double_less_than_equals(source@, position as int)),
        result matches Ok(end) ==> position < end <= source@.len(),
{
    proof {
        reveal_strlit("<<=");
    }
    parse_multiple_chars(source, position, "<<=")
}

/// The place behind `&=`.
pub open spec fn ampersand_equals(source: Seq<char>, position: int) -> Option<int> {
    token(source, position, "&="@, Seq::empty())
}

/// Reads `&=`.
pub fn parse_ampersand_equals(source: &str, position: usize) -> (result: Result<usize, ParseError>)
    requires
        source.is_ascii(),
        position <= source@.len(),
    ensures
        reached(result, ampersand_equals(source@, position as int)),
        result matches Ok(end) ==> position < end <= source@.len(),
{
    proof {
        reveal_strlit("&=");
    }
    parse_multiple_chars(source, position, "&=")
}

/// The place behind `^=`.
pub open spec fn caret_equals(source: Seq<char>, position: int) -> Option<int> {
    token(source, position, "^="@, Seq::empty())
}

/// Reads `^=`.
pub fn parse_caret_equals(source: &str, position: usize) -> (result: Result<usize, ParseError>)
    requires
        source.is_ascii(),
        position <= source@.len(),
    ensures
        reached(result, caret_equals(source@, position as int)),
        result matches Ok(end) ==> position < end <= source@.len(),
{
    proof {
        reveal_strlit("^=");
    }
    parse_multiple_chars(source, position, "^=")
}

/// The place behind `|=`.
pub open spec fn pipe_equals(source: Seq<char>, position: int) -> Option<int> {
    token(source, position, "|="@, Seq::empty())
}

/// Reads `|=`.
pub fn parse_pipe_equals(source: &str, position: usize) -> (result: Result<usize, ParseError>)
    requires
        source.is_ascii(),
        position <= source@.len(),
    ensures
        reached(result, pipe_equals(source@, position as int)),
        result matches Ok(end) ==> position < end <= source@.len(),
{
    proof {
        reveal_strlit("|=");
    }
    parse_multiple_chars(source, position, "|=")
}

/// The place behind `?`.
pub open spec fn question_mark(source: Seq<char>, position: int) -> Option<int> {
    token(source, position, "?"@, Seq::empty())
}

/// Reads `?`.
pub fn parse_question_mark(source: &str, position: usize) -> (result: Result<usize, ParseError>)
    requires
        source.is_ascii(),
        position <= source@.len(),
    ensures
        reached(result, question_mark(source@, position as int)),
        result matches Ok(end) ==> position < end <= source@.len(),
{
    proof {
        reveal_strlit("?");
    }
    parse_multiple_chars(source, position, "?")
}

/// The place behind `:`.
pub open spec fn colon(source: Seq<char>, position: int) -> Option<int> {
    token(source, position, ":"@, Seq::empty())
}

/// Reads `:`.
pub fn parse_colon(source: &str, position: usize) -> (result: Result<usize, ParseError>)
    requires
        source.is_ascii(),
        position <= source@.len(),
    ensures
        reached(result, colon(source@, position as int)),
        result matches Ok(end) ==> position < end <= source@.len(),
{
    proof {
        reveal_strlit(":");
    }
    parse_multiple_chars(source, position, ":")
}

/// The place behind `++`.
pub open spec fn double_plus(source: Seq<char>, position: int) -> Option<int> {
    token(source, position, "++"@, Seq::empty())
}

/// Reads `++`.
pub fn parse_double_plus(source: &str, position: usize) -> (result: Result<usize, ParseError>)
    requires
        source.is_ascii(),
        position <= source@.len(),
    ensures
        reached(result, double_plus(source@, position as int)),
        result matches Ok(end) ==> position < end <= source@.len(),
{
    proof {
        reveal_strlit("++");
    }
    parse_multiple_chars(source, position, "++")
}

/// The place behind `--`.
pub open spec fn double_minus(source: Seq<char>, position: int) -> Option<int> {
    token(source, position, "--"@, Seq::empty())
}

/// Reads `--`.
pub fn parse_double_minus(source: &str, position: usize) -> (result: Result<usize, ParseError>)
    requires
        source.is_ascii(),
        position <= source@.len(),
    ensures
        reached(result, double_minus(source@, position as int)),
        result matches Ok(end) ==> position < end <= source@.len(),
{
    proof {
        reveal_strlit("--");
    }
    parse_multiple_chars(source, position, "--")
}

/// The place behind the word `void`.
pub open spec fn void(source: Seq<char>, position: int) -> Option<int> {
    token(source, position, "void"@, Seq::empty())
}

/// Reads the word `void`.
pub fn parse_void(source: &str, position: usize) -> (result: Result<usize, ParseError>)
    requires
        source.is_ascii(),
        position <= source@.len(),
    ensures
        reached(result, void(source@, position as int)),
        result matches Ok(end) ==> position < end <= source@.len(),
{
    proof {
        reveal_strlit("void");
    }
    parse_multiple_chars(source, position, "void")
}

/// The place behind `&`, whatever follows.
pub open spec fn pointer_ampersand(source: Seq<char>, position: int) -> Option<int> {
    token(source, position, "&"@, Seq::empty())
}

/// Reads `&`, whatever follows.
pub fn parse_pointer_ampersand(source: &str, position: usize) -> (result: Result<usize, ParseError>)
    requires
        source.is_ascii(),
        position <= source@.len(),
    ensures
        reached(result, pointer_ampersand(source@, position as int)),
        result matches Ok(end) ==> position < end <= source@.len(),
{
    proof {
        reveal_strlit("&");
    }
    parse_multiple_chars(source, position, "&")
}

} // verus!

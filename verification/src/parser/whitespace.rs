//! The whitespace between the words of a program.
use vstd::prelude::*;
use vstd::string::*;

verus! {

/// The characters that separate the words of a program.
pub open spec fn is_whitespace(c: char) -> bool {
    c == ' ' || c == '\n' || c == '\t' || c == '\r'
}

/// The first place at or behind `position` that holds no whitespace.
pub open spec fn skip_whitespace(source: Seq<char>, position: int) -> int
    decreases source.len() - position,
{
    if 0 <= position < source.len() && is_whitespace(source[position]) {
        skip_whitespace(source, position + 1)
    } else {
        position
    }
}

/// Between a place and the place where its whitespace ends there is
/// nothing but whitespace, and no whitespace stands where it ends.
pub proof fn lemma_skip_whitespace(source: Seq<char>, position: int)
    requires
        0 <= position <= source.len(),
    ensures
        position <= skip_whitespace(source, position) <= source.len(),
        forall|i: int|
            position <= i < skip_whitespace(source, position)
                ==> is_whitespace(#[trigger] source[i]),
        skip_whitespace(source, position) < source.len() ==> !is_whitespace(
            source[skip_whitespace(source, position)],
        ),
        skip_whitespace(source, skip_whitespace(source, position)) == skip_whitespace(
            source,
            position,
        ),
    decreases source.len() - position,
{
    if position < source.len() && is_whitespace(source[position]) {
        lemma_skip_whitespace(source, position + 1);
    }
}

/// The character at place `index` of a text of ASCII characters.
pub fn char_at(source: &str, index: usize) -> (c: char)
    requires
        source.is_ascii(),
        index < source@.len(),
    ensures
        c == source@[index as int],
{
    let byte = source.get_ascii(index);
    proof {
        vstd::utf8::is_ascii_chars_nat_bound(source@);
    }
    byte as char
}

/// The number of characters of a text of ASCII characters.
pub fn length(source: &str) -> (count: usize)
    requires
        source.is_ascii(),
    ensures
        count == source@.len(),
{
    proof {
        is_ascii_spec_bytes(source);
    }
    source.as_bytes().len()
}

/// Skips the whitespace at `position`.
pub fn parse_whitespace(source: &str, position: usize) -> (next: usize)
    requires
        source.is_ascii(),
        position <= source@.len(),
    ensures
        next == skip_whitespace(source@, position as int),
        position <= next <= source@.len(),
{
    let end = length(source);
    let mut next = position;
    while next < end
        invariant
            source.is_ascii(),
            end == source@.len(),
            position <= next <= end,
            skip_whitespace(source@, position as int) == skip_whitespace(source@, next as int),
        decreases end - next,
    {
        let c = char_at(source, next);
        if c == ' ' || c == '\n' || c == '\t' || c == '\r' {
            next = next + 1;
        } else {
            return next;
        }
    }
    next
}

} // verus!

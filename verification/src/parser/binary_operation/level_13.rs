//! The level of the conditional operator.
use vstd::prelude::*;
use crate::parser::{ParseError, ParserState};
use crate::parser::declaration::parsed;
use crate::parser::expression::{level, parse_level_expression};
use crate::types::expression::Expression;

verus! {

/// Reads an expression of the level of the conditional: a condition and,
/// behind `?`, two full expressions with `:` between them; or only what
/// would be the condition.
pub fn parse_level_13_ternary_expression(
    source: &str,
    position: usize,
    state: &ParserState,
) -> (result:
    Result<(Expression, usize), ParseError>)
    requires
        source.is_ascii(),
        position <= source@.len(),
    ensures
        parsed(result, level(13, source@, position as int, state@)),
        result matches Ok((_, end)) ==> position < end <= source@.len(),
{
    parse_level_expression(13, source, position, state)
}

} // verus!

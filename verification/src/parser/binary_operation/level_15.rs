//! The level of the comma.
use std::sync::Arc;
use vstd::prelude::*;
use vstd::string::*;
use crate::parser::ParseError;
use crate::parser::binary_operation::{created, picked, same_operator};
use crate::parser::trivial_tokens::{comma, parse_comma};
use crate::types::expression::{BinaryKind, BinaryOp, Expression};
use crate::utils::text::same_text;

verus! {

/// The operator of the comma at `position`: its text and the place behind
/// it.
pub open spec fn level_15_operator(source: Seq<char>, position: int) -> Option<(Seq<char>, int)> {
    picked(comma(source, position), ","@, None)
}

/// The operator that a text names, for the comma.
pub open spec fn level_15_kind(op: Seq<char>) -> Option<BinaryKind> {
    if op == ","@ {
        Some(BinaryKind::Comma)
    } else {
        None
    }
}

/// Reads an operator of the comma.
pub fn parse_level_15_binary_operator(source: &str, position: usize) -> (result: Result<
    (&'static str, usize),
    ParseError,
>)
    requires
        source.is_ascii(),
        position <= source@.len(),
    ensures
        same_operator(result, level_15_operator(source@, position as int)),
        result matches Ok((_, end)) ==> position < end <= source@.len(),
{
    match parse_comma(source, position) {
        Ok(end) => {
            return Ok((",", end));
        },
        Err(_) => {},
    }
    Err(ParseError::Backtrack)
}

/// Builds the operation that `op` names on two operands, for
/// the comma.
pub fn level_15_operation_creator(
    lhs: Expression,
    rhs: Expression,
    op: String,
) -> (operation: Option<
    BinaryOp,
>)
    ensures
        created(operation, level_15_kind(op@), lhs, rhs),
{
    if same_text(op.as_str(), ",") {
        Some(BinaryOp::Comma(Arc::new(lhs), Arc::new(rhs)))
    } else {
        None
    }
}

} // verus!

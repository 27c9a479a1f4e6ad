//! The level of logical and.
use std::sync::Arc;
use vstd::prelude::*;
use vstd::string::*;
use crate::parser::ParseError;
use crate::parser::binary_operation::{created, picked, same_operator};
use crate::parser::trivial_tokens::{double_ampersand, parse_double_ampersand};
use crate::types::expression::{BinaryKind, BinaryOp, Expression};
use crate::utils::text::same_text;

verus! {

/// The operator of logical and at `position`: its text and the place behind
/// it.
pub open spec fn level_11_operator(source: Seq<char>, position: int) -> Option<(Seq<char>, int)> {
    picked(double_ampersand(source, position), "&&"@, None)
}

/// The operator that a text names, for logical and.
pub open spec fn level_11_kind(op: Seq<char>) -> Option<BinaryKind> {
    if op == "&&"@ {
        Some(BinaryKind::LogicalAnd)
    } else {
        None
    }
}

/// Reads an operator of logical and.
pub fn parse_level_11_binary_operator(source: &str, position: usize) -> (result: Result<
    (&'static str, usize),
    ParseError,
>)
    requires
        source.is_ascii(),
        position <= source@.len(),
    ensures
        same_operator(result, level_11_operator(source@, position as int)),
        result matches Ok((_, end)) ==> position < end <= source@.len(),
{
    match parse_double_ampersand(source, position) {
        Ok(end) => {
            return Ok(("&&", end));
        },
        Err(_) => {},
    }
    Err(ParseError::Backtrack)
}

/// Builds the operation that `op` names on two operands, for
/// logical and.
pub fn level_11_operation_creator(
    lhs: Expression,
    rhs: Expression,
    op: String,
) -> (operation: Option<
    BinaryOp,
>)
    ensures
        created(operation, level_11_kind(op@), lhs, rhs),
{
    if same_text(op.as_str(), "&&") {
        Some(BinaryOp::LogicalAnd(Arc::new(lhs), Arc::new(rhs)))
    } else {
        None
    }
}

} // verus!

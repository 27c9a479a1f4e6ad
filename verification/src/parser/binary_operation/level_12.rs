//! The level of logical or.
use std::sync::Arc;
use vstd::prelude::*;
use vstd::string::*;
use crate::parser::ParseError;
use crate::parser::binary_operation::{created, picked, same_operator};
use crate::parser::trivial_tokens::{double_pipe, parse_double_pipe};
use crate::types::expression::{BinaryKind, BinaryOp, Expression};
use crate::utils::text::same_text;

verus! {

/// The operator of logical or at `position`: its text and the place behind
/// it.
pub open spec fn level_12_operator(source: Seq<char>, position: int) -> Option<(Seq<char>, int)> {
    picked(double_pipe(source, position), "||"@, None)
}

/// The operator that a text names, for logical or.
pub open spec fn level_12_kind(op: Seq<char>) -> Option<BinaryKind> {
    if op == "||"@ {
        Some(BinaryKind::LogicalOr)
    } else {
        None
    }
}

/// Reads an operator of logical or.
pub fn parse_level_12_binary_operator(source: &str, position: usize) -> (result: Result<
    (&'static str, usize),
    ParseError,
>)
    requires
        source.is_ascii(),
        position <= source@.len(),
    ensures
        same_operator(result, level_12_operator(source@, position as int)),
        result matches Ok((_, end)) ==> position < end <= source@.len(),
{
    match parse_double_pipe(source, position) {
        Ok(end) => {
            return Ok(("||", end));
        },
        Err(_) => {},
    }
    Err(ParseError::Backtrack)
}

/// Builds the operation that `op` names on two operands, for
/// logical or.
pub fn level_12_operation_creator(
    lhs: Expression,
    rhs: Expression,
    op: String,
) -> (operation: Option<
    BinaryOp,
>)
    ensures
        created(operation, level_12_kind(op@), lhs, rhs),
{
    if same_text(op.as_str(), "||") {
        Some(BinaryOp::LogicalOr(Arc::new(lhs), Arc::new(rhs)))
    } else {
        None
    }
}

} // verus!

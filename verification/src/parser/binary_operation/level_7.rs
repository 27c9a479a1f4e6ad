//! The level of equality and inequality.
use std::sync::Arc;
use vstd::prelude::*;
use vstd::string::*;
use crate::parser::ParseError;
use crate::parser::binary_operation::{created, picked, same_operator};
use crate::parser::trivial_tokens::{
    bang_equals, double_equals, parse_bang_equals, parse_double_equals,
};
use crate::types::expression::{BinaryKind, BinaryOp, Expression};
use crate::utils::text::same_text;

verus! {

/// The operator of equality and inequality at `position`: its text and the place behind
/// it.
pub open spec fn level_7_operator(source: Seq<char>, position: int) -> Option<(Seq<char>, int)> {
    picked(
        double_equals(source, position),
        "=="@,
        picked(bang_equals(source, position), "!="@, None),
    )
}

/// The operator that a text names, for equality and inequality.
pub open spec fn level_7_kind(op: Seq<char>) -> Option<BinaryKind> {
    if op == "=="@ {
        Some(BinaryKind::Equals)
    } else if op == "!="@ {
        Some(BinaryKind::NotEquals)
    } else {
        None
    }
}

/// Reads an operator of equality and inequality.
pub fn parse_level_7_binary_operator(source: &str, position: usize) -> (result: Result<
    (&'static str, usize),
    ParseError,
>)
    requires
        source.is_ascii(),
        position <= source@.len(),
    ensures
        same_operator(result, level_7_operator(source@, position as int)),
        result matches Ok((_, end)) ==> position < end <= source@.len(),
{
    match parse_double_equals(source, position) {
        Ok(end) => {
            return Ok(("==", end));
        },
        Err(_) => {},
    }
    match parse_bang_equals(source, position) {
        Ok(end) => {
            return Ok(("!=", end));
        },
        Err(_) => {},
    }
    Err(ParseError::Backtrack)
}

/// Builds the operation that `op` names on two operands, for
/// equality and inequality.
pub fn level_7_operation_creator(
    lhs: Expression,
    rhs: Expression,
    op: String,
) -> (operation: Option<
    BinaryOp,
>)
    ensures
        created(operation, level_7_kind(op@), lhs, rhs),
{
    if same_text(op.as_str(), "==") {
        Some(BinaryOp::Equals(Arc::new(lhs), Arc::new(rhs)))
    } else if same_text(op.as_str(), "!=") {
        Some(BinaryOp::NotEquals(Arc::new(lhs), Arc::new(rhs)))
    } else {
        None
    }
}

} // verus!

//! The level of the comparisons of order.
use std::sync::Arc;
use vstd::prelude::*;
use vstd::string::*;
use crate::parser::ParseError;
use crate::parser::binary_operation::{created, picked, same_operator};
use crate::parser::trivial_tokens::{
    greater_than, greater_than_equals, less_than, less_than_equals, parse_greater_than,
    parse_greater_than_equals, parse_less_than, parse_less_than_equals,
};
use crate::types::expression::{BinaryKind, BinaryOp, Expression};
use crate::utils::text::same_text;

verus! {

/// The operator of the comparisons of order at `position`: its text and the place behind
/// it.
pub open spec fn level_6_operator(source: Seq<char>, position: int) -> Option<(Seq<char>, int)> {
    picked(
        greater_than(source, position),
        ">"@,
        picked(
            less_than(source, position),
            "<"@,
            picked(
                greater_than_equals(source, position),
                ">="@,
                picked(less_than_equals(source, position), "<="@, None),
            ),
        ),
    )
}

/// The operator that a text names, for the comparisons of order.
pub open spec fn level_6_kind(op: Seq<char>) -> Option<BinaryKind> {
    if op == ">"@ {
        Some(BinaryKind::GreaterThan)
    } else if op == "<"@ {
        Some(BinaryKind::LessThan)
    } else if op == ">="@ {
        Some(BinaryKind::GreaterThanEquals)
    } else if op == "<="@ {
        Some(BinaryKind::LessThanEquals)
    } else {
        None
    }
}

/// Reads an operator of the comparisons of order.
pub fn parse_level_6_binary_operator(source: &str, position: usize) -> (result: Result<
    (&'static str, usize),
    ParseError,
>)
    requires
        source.is_ascii(),
        position <= source@.len(),
    ensures
        same_operator(result, level_6_operator(source@, position as int)),
        result matches Ok((_, end)) ==> position < end <= source@.len(),
{
    match parse_greater_than(source, position) {
        Ok(end) => {
            return Ok((">", end));
        },
        Err(_) => {},
    }
    match parse_less_than(source, position) {
        Ok(end) => {
            return Ok(("<", end));
        },
        Err(_) => {},
    }
    match parse_greater_than_equals(source, position) {
        Ok(end) => {
            return Ok((">=", end));
        },
        Err(_) => {},
    }
    match parse_less_than_equals(source, position) {
        Ok(end) => {
            return Ok(("<=", end));
        },
        Err(_) => {},
    }
    Err(ParseError::Backtrack)
}

/// Builds the operation that `op` names on two operands, for
/// the comparisons of order.
pub fn level_6_operation_creator(
    lhs: Expression,
    rhs: Expression,
    op: String,
) -> (operation: Option<
    BinaryOp,
>)
    ensures
        created(operation, level_6_kind(op@), lhs, rhs),
{
    if same_text(op.as_str(), ">") {
        Some(BinaryOp::GreaterThan(Arc::new(lhs), Arc::new(rhs)))
    } else if same_text(op.as_str(), "<") {
        Some(BinaryOp::LessThan(Arc::new(lhs), Arc::new(rhs)))
    } else if same_text(op.as_str(), ">=") {
        Some(BinaryOp::GreaterThanEquals(Arc::new(lhs), Arc::new(rhs)))
    } else if same_text(op.as_str(), "<=") {
        Some(BinaryOp::LessThanEquals(Arc::new(lhs), Arc::new(rhs)))
    } else {
        None
    }
}

} // verus!

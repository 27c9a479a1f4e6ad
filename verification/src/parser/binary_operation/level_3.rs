//! The level of multiplication, division and remainder.
use std::sync::Arc;
use vstd::prelude::*;
use vstd::string::*;
use crate::parser::ParseError;
use crate::parser::binary_operation::{created, picked, same_operator};
use crate::parser::trivial_tokens::{parse_percent, parse_slash, parse_star, percent, slash, star};
use crate::types::expression::{BinaryKind, BinaryOp, Expression};
use crate::utils::text::same_text;

verus! {

/// The operator of multiplication, division and remainder at `position`: its
/// text and the place behind it.
pub open spec fn level_3_operator(source: Seq<char>, position: int) -> Option<(Seq<char>, int)> {
    picked(
        star(source, position),
        "*"@,
        picked(slash(source, position), "/"@, picked(percent(source, position), "%"@, None)),
    )
}

/// The operator that a text names, for multiplication, division and remainder.
pub open spec fn level_3_kind(op: Seq<char>) -> Option<BinaryKind> {
    if op == "*"@ {
        Some(BinaryKind::Multiplication)
    } else if op == "/"@ {
        Some(BinaryKind::Division)
    } else if op == "%"@ {
        Some(BinaryKind::Modulus)
    } else {
        None
    }
}

/// Reads an operator of multiplication, division and remainder.
pub fn parse_level_3_binary_operator(source: &str, position: usize) -> (result: Result<
    (&'static str, usize),
    ParseError,
>)
    requires
        source.is_ascii(),
        position <= source@.len(),
    ensures
        same_operator(result, level_3_operator(source@, position as int)),
        result matches Ok((_, end)) ==> position < end <= source@.len(),
{
    match parse_star(source, position) {
        Ok(end) => {
            return Ok(("*", end));
        },
        Err(_) => {},
    }
    match parse_slash(source, position) {
        Ok(end) => {
            return Ok(("/", end));
        },
        Err(_) => {},
    }
    match parse_percent(source, position) {
        Ok(end) => {
            return Ok(("%", end));
        },
        Err(_) => {},
    }
    Err(ParseError::Backtrack)
}

/// Builds the operation that `op` names on two operands, for
/// multiplication, division and remainder.
pub fn level_3_operation_creator(
    lhs: Expression,
    rhs: Expression,
    op: String,
) -> (operation: Option<
    BinaryOp,
>)
    ensures
        created(operation, level_3_kind(op@), lhs, rhs),
{
    if same_text(op.as_str(), "*") {
        Some(BinaryOp::Multiplication(Arc::new(lhs), Arc::new(rhs)))
    } else if same_text(op.as_str(), "/") {
        Some(BinaryOp::Division(Arc::new(lhs), Arc::new(rhs)))
    } else if same_text(op.as_str(), "%") {
        Some(BinaryOp::Modulus(Arc::new(lhs), Arc::new(rhs)))
    } else {
        None
    }
}

} // verus!

//! The level of addition and subtraction.
use std::sync::Arc;
use vstd::prelude::*;
use vstd::string::*;
use crate::parser::ParseError;
use crate::parser::binary_operation::{created, picked, same_operator};
use crate::parser::trivial_tokens::{minus, parse_minus, parse_plus, plus};
use crate::types::expression::{BinaryKind, BinaryOp, Expression};
use crate::utils::text::same_text;

verus! {

/// The operator of addition and subtraction at `position`: its text and the place behind
/// it.
pub open spec fn level_4_operator(source: Seq<char>, position: int) -> Option<(Seq<char>, int)> {
    picked(plus(source, position), "+"@, picked(minus(source, position), "-"@, None))
}

/// The operator that a text names, for addition and subtraction.
pub open spec fn level_4_kind(op: Seq<char>) -> Option<BinaryKind> {
    if op == "+"@ {
        Some(BinaryKind::Addition)
    } else if op == "-"@ {
        Some(BinaryKind::Subtraction)
    } else {
        None
    }
}

/// Reads an operator of addition and subtraction.
pub fn parse_level_4_binary_operator(source: &str, position: usize) -> (result: Result<
    (&'static str, usize),
    ParseError,
>)
    requires
        source.is_ascii(),
        position <= source@.len(),
    ensures
        same_operator(result, level_4_operator(source@, position as int)),
        result matches Ok((_, end)) ==> position < end <= source@.len(),
{
    match parse_plus(source, position) {
        Ok(end) => {
            return Ok(("+", end));
        },
        Err(_) => {},
    }
    match parse_minus(source, position) {
        Ok(end) => {
            return Ok(("-", end));
        },
        Err(_) => {},
    }
    Err(ParseError::Backtrack)
}

/// Builds the operation that `op` names on two operands, for
/// addition and subtraction.
pub fn level_4_operation_creator(
    lhs: Expression,
    rhs: Expression,
    op: String,
) -> (operation: Option<
    BinaryOp,
>)
    ensures
        created(operation, level_4_kind(op@), lhs, rhs),
{
    if same_text(op.as_str(), "+") {
        Some(BinaryOp::Addition(Arc::new(lhs), Arc::new(rhs)))
    } else if same_text(op.as_str(), "-") {
        Some(BinaryOp::Subtraction(Arc::new(lhs), Arc::new(rhs)))
    } else {
        None
    }
}

} // verus!

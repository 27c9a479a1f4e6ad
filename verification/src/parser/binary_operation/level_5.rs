//! The level of the shifts.
use std::sync::Arc;
use vstd::prelude::*;
use vstd::string::*;
use crate::parser::ParseError;
use crate::parser::binary_operation::{created, picked, same_operator};
use crate::parser::trivial_tokens::{
    double_greater_than, double_less_than, parse_double_greater_than, parse_double_less_than,
};
use crate::types::expression::{BinaryKind, BinaryOp, Expression};
use crate::utils::text::same_text;

verus! {

/// The operator of the shifts at `position`: its text and the place behind
/// it.
pub open spec fn level_5_operator(source: Seq<char>, position: int) -> Option<(Seq<char>, int)> {
    picked(
        double_greater_than(source, position),
        ">>"@,
        picked(double_less_than(source, position), "<<"@, None),
    )
}

/// The operator that a text names, for the shifts.
pub open spec fn level_5_kind(op: Seq<char>) -> Option<BinaryKind> {
    if op == ">>"@ {
        Some(BinaryKind::RightShift)
    } else if op == "<<"@ {
        Some(BinaryKind::LeftShift)
    } else {
        None
    }
}

/// Reads an operator of the shifts.
pub fn parse_level_5_binary_operator(source: &str, position: usize) -> (result: Result<
    (&'static str, usize),
    ParseError,
>)
    requires
        source.is_ascii(),
        position <= source@.len(),
    ensures
        same_operator(result, level_5_operator(source@, position as int)),
        result matches Ok((_, end)) ==> position < end <= source@.len(),
{
    match parse_double_greater_than(source, position) {
        Ok(end) => {
            return Ok((">>", end));
        },
        Err(_) => {},
    }
    match parse_double_less_than(source, position) {
        Ok(end) => {
            return Ok(("<<", end));
        },
        Err(_) => {},
    }
    Err(ParseError::Backtrack)
}

/// Builds the operation that `op` names on two operands, for
/// the shifts.
pub fn level_5_operation_creator(
    lhs: Expression,
    rhs: Expression,
    op: String,
) -> (operation: Option<
    BinaryOp,
>)
    ensures
        created(operation, level_5_kind(op@), lhs, rhs),
{
    if same_text(op.as_str(), ">>") {
        Some(BinaryOp::RightShift(Arc::new(lhs), Arc::new(rhs)))
    } else if same_text(op.as_str(), "<<") {
        Some(BinaryOp::LeftShift(Arc::new(lhs), Arc::new(rhs)))
    } else {
        None
    }
}

} // verus!

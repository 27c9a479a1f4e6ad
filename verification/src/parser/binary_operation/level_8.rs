//! The level of bitwise and.
use std::sync::Arc;
use vstd::prelude::*;
use vstd::string::*;
use crate::parser::ParseError;
use crate::parser::binary_operation::{created, picked, same_operator};
use crate::parser::trivial_tokens::{ampersand, parse_ampersand};
use crate::types::expression::{BinaryKind, BinaryOp, Expression};
use crate::utils::text::same_text;

verus! {

/// The operator of bitwise and at `position`: its text and the place behind
/// it.
pub open spec fn level_8_operator(source: Seq<char>, position: int) -> Option<(Seq<char>, int)> {
    picked(ampersand(source, position), "&"@, None)
}

/// The operator that a text names, for bitwise and.
pub open spec fn level_8_kind(op: Seq<char>) -> Option<BinaryKind> {
    if op == "&"@ {
        Some(BinaryKind::BitwiseAnd)
    } else {
        None
    }
}

/// Reads an operator of bitwise and.
pub fn parse_level_8_binary_operator(source: &str, position: usize) -> (result: Result<
    (&'static str, usize),
    ParseError,
>)
    requires
        source.is_ascii(),
        position <= source@.len(),
    ensures
        same_operator(result, level_8_operator(source@, position as int)),
        result matches Ok((_, end)) ==> position < end <= source@.len(),
{
    match parse_ampersand(source, position) {
        Ok(end) => {
            return Ok(("&", end));
        },
        Err(_) => {},
    }
    Err(ParseError::Backtrack)
}

/// Builds the operation that `op` names on two operands, for
/// bitwise and.
pub fn level_8_operation_creator(
    lhs: Expression,
    rhs: Expression,
    op: String,
) -> (operation: Option<
    BinaryOp,
>)
    ensures
        created(operation, level_8_kind(op@), lhs, rhs),
{
    if same_text(op.as_str(), "&") {
        Some(BinaryOp::BitwiseAnd(Arc::new(lhs), Arc::new(rhs)))
    } else {
        None
    }
}

} // verus!

//! The operators with two operands, by level of precedence.
use vstd::prelude::*;
use crate::parser::{ParseError, ParserState};
use crate::parser::declaration::parsed;
use crate::parser::expression::{level, parse_level_expression};
use crate::types::expression::{BinaryKind, BinaryOp, Expression};

pub mod level_10;
pub mod level_11;
pub mod level_12;
pub mod level_13;
pub mod level_14;
pub mod level_15;
pub mod level_3;
pub mod level_4;
pub mod level_5;
pub mod level_6;
pub mod level_7;
pub mod level_8;
pub mod level_9;

verus! {

/// An operator and the operand to its right.
#[derive(Debug)]
pub struct HalfBinaryOp {
    pub rhs: Expression,
    pub op: String,
}

/// The token `text` ending at `end`, if it was found; else `otherwise`.
pub open spec fn picked(
    end: Option<int>,
    text: Seq<char>,
    otherwise: Option<(Seq<char>, int)>,
) -> Option<
    (Seq<char>, int),
> {
    match end {
        Some(end) => Some((text, end)),
        None => otherwise,
    }
}

/// Whether the operator and the place that a reader returned are those that
/// the model gives.
pub open spec fn same_operator(
    result: Result<(&'static str, usize), ParseError>,
    expected: Option<(Seq<char>, int)>,
) -> bool {
    match result {
        Ok((text, end)) => expected == Some((text@, end as int)),
        Err(error) => error == ParseError::Backtrack && expected is None,
    }
}

/// Whether the operation that a creator built is the operator that the
/// model gives, on the two operands.
pub open spec fn created(
    operation: Option<BinaryOp>,
    kind: Option<BinaryKind>,
    lhs: Expression,
    rhs: Expression,
) -> bool {
    match operation {
        Some(built) => kind == Some(built.spec_kind()) && *built.spec_lhs() == lhs
            && *built.spec_rhs() == rhs,
        None => kind is None,
    }
}

/// The level below a level of precedence: the operands of a level are
/// expressions of the level below. Level 2 stands for a factor.
pub open spec fn lower_level(level: int) -> int {
    if level == 15 {
        14
    } else {
        level - 1
    }
}

/// The operator of a level with operands to its left and right at
/// `position`.
pub open spec fn level_operator(level: int, source: Seq<char>, position: int) -> Option<
    (Seq<char>, int),
> {
    if level == 3 {
        level_3::level_3_operator(source, position)
    } else if level == 4 {
        level_4::level_4_operator(source, position)
    } else if level == 5 {
        level_5::level_5_operator(source, position)
    } else if level == 6 {
        level_6::level_6_operator(source, position)
    } else if level == 7 {
        level_7::level_7_operator(source, position)
    } else if level == 8 {
        level_8::level_8_operator(source, position)
    } else if level == 9 {
        level_9::level_9_operator(source, position)
    } else if level == 10 {
        level_10::level_10_operator(source, position)
    } else if level == 11 {
        level_11::level_11_operator(source, position)
    } else if level == 12 {
        level_12::level_12_operator(source, position)
    } else if level == 14 {
        level_14::level_14_operator(source, position)
    } else if level == 15 {
        level_15::level_15_operator(source, position)
    } else {
        None
    }
}

/// The operator that a text names at a level.
pub open spec fn level_kind(level: int, op: Seq<char>) -> Option<BinaryKind> {
    if level == 3 {
        level_3::level_3_kind(op)
    } else if level == 4 {
        level_4::level_4_kind(op)
    } else if level == 5 {
        level_5::level_5_kind(op)
    } else if level == 6 {
        level_6::level_6_kind(op)
    } else if level == 7 {
        level_7::level_7_kind(op)
    } else if level == 8 {
        level_8::level_8_kind(op)
    } else if level == 9 {
        level_9::level_9_kind(op)
    } else if level == 10 {
        level_10::level_10_kind(op)
    } else if level == 11 {
        level_11::level_11_kind(op)
    } else if level == 12 {
        level_12::level_12_kind(op)
    } else if level == 14 {
        level_14::level_14_kind(op)
    } else if level == 15 {
        level_15::level_15_kind(op)
    } else {
        None
    }
}

/// Reads an operator of a level.
pub fn parse_level_operator(level: u8, source: &str, position: usize) -> (result: Result<
    (&'static str, usize),
    ParseError,
>)
    requires
        source.is_ascii(),
        position <= source@.len(),
    ensures
        same_operator(result, level_operator(level as int, source@, position as int)),
        result matches Ok((_, end)) ==> position < end <= source@.len(),
{
    if level == 3 {
        level_3::parse_level_3_binary_operator(source, position)
    } else if level == 4 {
        level_4::parse_level_4_binary_operator(source, position)
    } else if level == 5 {
        level_5::parse_level_5_binary_operator(source, position)
    } else if level == 6 {
        level_6::parse_level_6_binary_operator(source, position)
    } else if level == 7 {
        level_7::parse_level_7_binary_operator(source, position)
    } else if level == 8 {
        level_8::parse_level_8_binary_operator(source, position)
    } else if level == 9 {
        level_9::parse_level_9_binary_operator(source, position)
    } else if level == 10 {
        level_10::parse_level_10_binary_operator(source, position)
    } else if level == 11 {
        level_11::parse_level_11_binary_operator(source, position)
    } else if level == 12 {
        level_12::parse_level_12_binary_operator(source, position)
    } else if level == 14 {
        level_14::parse_level_14_binary_operator(source, position)
    } else if level == 15 {
        level_15::parse_level_15_binary_operator(source, position)
    } else {
        Err(ParseError::Backtrack)
    }
}

/// Builds the operation that `op` names at a level on two operands.
pub fn operation_creator(level: u8, lhs: Expression, rhs: Expression, op: String) -> (operation:
    Option<BinaryOp>)
    ensures
        created(operation, level_kind(level as int, op@), lhs, rhs),
{
    if level == 3 {
        level_3::level_3_operation_creator(lhs, rhs, op)
    } else if level == 4 {
        level_4::level_4_operation_creator(lhs, rhs, op)
    } else if level == 5 {
        level_5::level_5_operation_creator(lhs, rhs, op)
    } else if level == 6 {
        level_6::level_6_operation_creator(lhs, rhs, op)
    } else if level == 7 {
        level_7::level_7_operation_creator(lhs, rhs, op)
    } else if level == 8 {
        level_8::level_8_operation_creator(lhs, rhs, op)
    } else if level == 9 {
        level_9::level_9_operation_creator(lhs, rhs, op)
    } else if level == 10 {
        level_10::level_10_operation_creator(lhs, rhs, op)
    } else if level == 11 {
        level_11::level_11_operation_creator(lhs, rhs, op)
    } else if level == 12 {
        level_12::level_12_operation_creator(lhs, rhs, op)
    } else if level == 14 {
        level_14::level_14_operation_creator(lhs, rhs, op)
    } else if level == 15 {
        level_15::level_15_operation_creator(lhs, rhs, op)
    } else {
        None
    }
}

/// Reads an expression with operators of any level.
pub fn parse_binary_operation(
    source: &str,
    position: usize,
    state: &ParserState,
) -> (result: Result<(Expression, usize), ParseError>)
    requires
        source.is_ascii(),
        position <= source@.len(),
    ensures
        parsed(
            result,
            level(15, source@, position as int, state@),
        ),
        result matches Ok((_, end)) ==> position < end <= source@.len(),
{
    parse_level_expression(15, source, position, state)
}

} // verus!

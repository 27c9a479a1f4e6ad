//! The level of the assignments.
use std::sync::Arc;
use vstd::prelude::*;
use vstd::string::*;
use crate::parser::{ParseError, ParserState, ParserStateModel};
use crate::parser::binary_operation::{created, picked, same_operator, HalfBinaryOp};
use crate::parser::declaration::parsed;
use crate::parser::expression::{level, parse_level_expression};
use crate::parser::trivial_tokens::{
    ampersand_equals, caret_equals, double_greater_than_equals, double_less_than_equals, equals,
    minus_equals, parse_ampersand_equals, parse_caret_equals, parse_double_greater_than_equals,
    parse_double_less_than_equals, parse_equals, parse_minus_equals, parse_percent_equals,
    parse_pipe_equals, parse_plus_equals, parse_slash_equals, parse_star_equals, percent_equals,
    pipe_equals, plus_equals, slash_equals, star_equals,
};
use crate::types::expression::{BinaryKind, BinaryOp, Expression, ExpressionModel};
use crate::utils::text::same_text;

verus! {

/// The operator of the assignments at `position`: its text and the place behind
/// it.
pub open spec fn level_14_operator(source: Seq<char>, position: int) -> Option<(Seq<char>, int)> {
    picked(
        equals(source, position),
        "="@,
        picked(
            plus_equals(source, position),
            "+="@,
            picked(
                minus_equals(source, position),
                "-="@,
                picked(
                    star_equals(source, position),
                    "*="@,
                    picked(
                        slash_equals(source, position),
                        "/="@,
                        picked(
                            percent_equals(source, position),
                            "%="@,
                            picked(
                                double_greater_than_equals(source, position),
                                ">>="@,
                                picked(
                                    double_less_than_equals(source, position),
                                    "<<="@,
                                    picked(
                                        ampersand_equals(source, position),
                                        "&="@,
                                        picked(
                                            caret_equals(source, position),
                                            "^="@,
                                            picked(pipe_equals(source, position), "|="@, None),
                                        ),
                                    ),
                                ),
                            ),
                        ),
                    ),
                ),
            ),
        ),
    )
}

/// The operator that a text names, for the assignments.
pub open spec fn level_14_kind(op: Seq<char>) -> Option<BinaryKind> {
    if op == "="@ {
        Some(BinaryKind::Assignment)
    } else if op == "+="@ {
        Some(BinaryKind::AssignmentAddition)
    } else if op == "-="@ {
        Some(BinaryKind::AssignmentSubtraction)
    } else if op == "*="@ {
        Some(BinaryKind::AssignmentMultiplication)
    } else if op == "/="@ {
        Some(BinaryKind::AssignmentDivision)
    } else if op == "%="@ {
        Some(BinaryKind::AssignmentModulus)
    } else if op == ">>="@ {
        Some(BinaryKind::AssignmentShiftRight)
    } else if op == "<<="@ {
        Some(BinaryKind::AssignmentShiftLeft)
    } else if op == "&="@ {
        Some(BinaryKind::AssignmentBitwiseAnd)
    } else if op == "^="@ {
        Some(BinaryKind::AssignmentBitwiseXor)
    } else if op == "|="@ {
        Some(BinaryKind::AssignmentBitwiseOr)
    } else {
        None
    }
}

/// Reads an operator of the assignments.
pub fn parse_level_14_binary_operator(source: &str, position: usize) -> (result: Result<
    (&'static str, usize),
    ParseError,
>)
    requires
        source.is_ascii(),
        position <= source@.len(),
    ensures
        same_operator(result, level_14_operator(source@, position as int)),
        result matches Ok((_, end)) ==> position < end <= source@.len(),
{
    match parse_equals(source, position) {
        Ok(end) => {
            return Ok(("=", end));
        },
        Err(_) => {},
    }
    match parse_plus_equals(source, position) {
        Ok(end) => {
            return Ok(("+=", end));
        },
        Err(_) => {},
    }
    match parse_minus_equals(source, position) {
        Ok(end) => {
            return Ok(("-=", end));
        },
        Err(_) => {},
    }
    match parse_star_equals(source, position) {
        Ok(end) => {
            return Ok(("*=", end));
        },
        Err(_) => {},
    }
    match parse_slash_equals(source, position) {
        Ok(end) => {
            return Ok(("/=", end));
        },
        Err(_) => {},
    }
    match parse_percent_equals(source, position) {
        Ok(end) => {
            return Ok(("%=", end));
        },
        Err(_) => {},
    }
    match parse_double_greater_than_equals(source, position) {
        Ok(end) => {
            return Ok((">>=", end));
        },
        Err(_) => {},
    }
    match parse_double_less_than_equals(source, position) {
        Ok(end) => {
            return Ok(("<<=", end));
        },
        Err(_) => {},
    }
    match parse_ampersand_equals(source, position) {
        Ok(end) => {
            return Ok(("&=", end));
        },
        Err(_) => {},
    }
    match parse_caret_equals(source, position) {
        Ok(end) => {
            return Ok(("^=", end));
        },
        Err(_) => {},
    }
    match parse_pipe_equals(source, position) {
        Ok(end) => {
            return Ok(("|=", end));
        },
        Err(_) => {},
    }
    Err(ParseError::Backtrack)
}

/// Builds the operation that `op` names on two operands, for
/// the assignments.
pub fn level_14_operation_creator(
    lhs: Expression,
    rhs: Expression,
    op: String,
) -> (operation: Option<
    BinaryOp,
>)
    ensures
        created(operation, level_14_kind(op@), lhs, rhs),
{
    if same_text(op.as_str(), "=") {
        Some(BinaryOp::Assignment(Arc::new(lhs), Arc::new(rhs)))
    } else if same_text(op.as_str(), "+=") {
        Some(BinaryOp::AssignmentAddition(Arc::new(lhs), Arc::new(rhs)))
    } else if same_text(op.as_str(), "-=") {
        Some(BinaryOp::AssignmentSubtraction(Arc::new(lhs), Arc::new(rhs)))
    } else if same_text(op.as_str(), "*=") {
        Some(BinaryOp::AssignmentMultiplication(Arc::new(lhs), Arc::new(rhs)))
    } else if same_text(op.as_str(), "/=") {
        Some(BinaryOp::AssignmentDivision(Arc::new(lhs), Arc::new(rhs)))
    } else if same_text(op.as_str(), "%=") {
        Some(BinaryOp::AssignmentModulus(Arc::new(lhs), Arc::new(rhs)))
    } else if same_text(op.as_str(), ">>=") {
        Some(BinaryOp::AssignmentShiftRight(Arc::new(lhs), Arc::new(rhs)))
    } else if same_text(op.as_str(), "<<=") {
        Some(BinaryOp::AssignmentShiftLeft(Arc::new(lhs), Arc::new(rhs)))
    } else if same_text(op.as_str(), "&=") {
        Some(BinaryOp::AssignmentBitwiseAnd(Arc::new(lhs), Arc::new(rhs)))
    } else if same_text(op.as_str(), "^=") {
        Some(BinaryOp::AssignmentBitwiseXor(Arc::new(lhs), Arc::new(rhs)))
    } else if same_text(op.as_str(), "|=") {
        Some(BinaryOp::AssignmentBitwiseOr(Arc::new(lhs), Arc::new(rhs)))
    } else {
        None
    }
}

/// Reads an expression of the level of the assignments: an expression of
/// the level of the conditional and, perhaps, an assignment operator with
/// an expression of this level to its right.
pub fn parse_level_14_expression(
    source: &str,
    position: usize,
    state: &ParserState,
) -> (result: Result<(Expression, usize), ParseError>)
    requires
        source.is_ascii(),
        position <= source@.len(),
    ensures
        parsed(
            result,
            level(14, source@, position as int, state@),
        ),
        result matches Ok((_, end)) ==> position < end <= source@.len(),
{
    parse_level_expression(14, source, position, state)
}

/// An assignment operator with the expression to its right, an expression
/// of the level of the assignments.
pub open spec fn half_level_14_operation(
    source: Seq<char>,
    position: int,
    state: ParserStateModel,
) -> Result<((Seq<char>, ExpressionModel), int), ParseError> {
    match level_14_operator(source, position) {
        Some((text, start)) => if position < start <= source.len() {
            match level(14, source, start, state) {
                Ok((rhs, end)) => Ok(((text, rhs), end)),
                Err(error) => Err(error),
            }
        } else {
            Err(ParseError::Backtrack)
        },
        None => Err(ParseError::Backtrack),
    }
}

/// Reads an assignment operator and the expression to its right.
pub fn parse_half_level_14_operation(
    source: &str,
    position: usize,
    state: &ParserState,
) -> (result: Result<(HalfBinaryOp, usize), ParseError>)
    requires
        source.is_ascii(),
        position <= source@.len(),
    ensures
        match result {
            Ok((half, end)) => half_level_14_operation(source@, position as int, state@) == Ok::<
                _,
                ParseError,
            >(((half.op@, half.rhs@), end as int)) && position < end <= source@.len(),
            Err(error) => half_level_14_operation(source@, position as int, state@) == Err::<
                ((Seq<char>, ExpressionModel), int),
                ParseError,
            >(error),
        },
        level_14_operator(source@, position as int) matches Some((_, start)) ==> position < start
            <= source@.len(),
    decreases source@.len() - position, 0nat,
{
    let (text, start) = parse_level_14_binary_operator(source, position)?;
    let (rhs, end) = parse_level_expression(14, source, start, state)?;
    Ok((HalfBinaryOp { rhs, op: String::from_str(text) }, end))
}

} // verus!

//! Expressions: their grammar, their types and their constant values.
use std::sync::Arc;
use vstd::prelude::*;
use vstd::string::*;
use crate::parser::{lookup, ParseError, ParserState, ParserStateModel, ParserSymbol, SymbolModel};
use crate::parser::binary_operation::{
    level_kind, level_operator, lower_level, operation_creator, parse_level_operator,
};
use crate::parser::binary_operation::level_14::{level_14_operator, parse_half_level_14_operation};
use crate::parser::declaration::{parsed, within, Parsed};
use crate::parser::expression::datatypes::{type_of, GetType};
use crate::parser::identifier::{identifier, is_keyword, keyword_name, parse_identifier};
use crate::parser::number::{number, or_else, parse_number};
use crate::parser::trivial_tokens::{
    bang, close_paren, colon, comma, double_minus, double_plus, minus, open_paren, parse_bang,
    parse_close_paren, parse_colon, parse_comma, parse_double_minus, parse_double_plus,
    parse_minus, parse_open_paren, parse_plus, parse_pointer_ampersand, parse_question_mark,
    parse_star, parse_tilda, plus, pointer_ampersand, question_mark, star, tilda,
};
use crate::types::datatype::{Datatype, DatatypeModel};
use crate::types::declaration::optional_expression_model;
use crate::types::expression::{
    expressions_model, lemma_expression_model, BinaryOp, Call, Expression, ExpressionModel,
    TernaryOp, UnaryKind, UnaryOp,
};

pub mod datatypes;
pub mod fold;

verus! {

/// An expression that was read and whose type is checked: an error of its
/// type ends the parse.
pub open spec fn checked(read: Parsed<ExpressionModel>, state: ParserStateModel) -> Parsed<
    ExpressionModel,
> {
    match read {
        Ok((expression, end)) => match type_of(expression, state) {
            Ok(_) => Ok((expression, end)),
            Err(error) => Err(error),
        },
        Err(error) => Err(error),
    }
}

/// A full expression: the level of the comma, with a type.
pub open spec fn expression(source: Seq<char>, position: int, state: ParserStateModel) -> Parsed<
    ExpressionModel,
>
    decreases source.len() - position, 40nat,
{
    if !within(source, position) {
        Err(ParseError::Backtrack)
    } else {
        checked(level(15, source, position, state), state)
    }
}

/// An argument of a call: the level of the assignments, with a type.
pub open spec fn argument(source: Seq<char>, position: int, state: ParserStateModel) -> Parsed<
    ExpressionModel,
>
    decreases source.len() - position, 40nat,
{
    if !within(source, position) {
        Err(ParseError::Backtrack)
    } else {
        checked(level(14, source, position, state), state)
    }
}

/// An expression of a level of precedence. Level 2 is a factor; level 13
/// is the conditional; level 14, the assignments, groups to the right; at
/// every other level an operand of the level below is followed by any
/// number of operators of the level, each with an operand of the level
/// below, and these group to the left.
pub open spec fn level(n: int, source: Seq<char>, position: int, state: ParserStateModel) -> Parsed<
    ExpressionModel,
>
    decreases source.len() - position, (2 * n + 1) as nat,
{
    if !within(source, position) || n < 2 || n > 15 {
        Err(ParseError::Backtrack)
    } else if n == 2 {
        factor(source, position, state)
    } else if n == 13 {
        match level(12, source, position, state) {
            Ok((condition, behind)) => match question_mark(source, behind) {
                Some(first) => if position <= behind < first <= source.len() {
                    match expression(source, first, state) {
                        Ok((then_expr, middle)) => match colon(source, middle) {
                            Some(second) => if first <= middle < second <= source.len() {
                                match expression(source, second, state) {
                                    Ok((else_expr, end)) => Ok(
                                        (
                                            ExpressionModel::Ternary(
                                                Box::new(condition),
                                                Box::new(then_expr),
                                                Box::new(else_expr),
                                            ),
                                            end,
                                        ),
                                    ),
                                    Err(error) => Err(error),
                                }
                            } else {
                                Err(ParseError::Backtrack)
                            },
                            None => Err(ParseError::Backtrack),
                        },
                        Err(error) => Err(error),
                    }
                } else {
                    Err(ParseError::Backtrack)
                },
                None => Ok((condition, behind)),
            },
            Err(error) => Err(error),
        }
    } else if n == 14 {
        match level(13, source, position, state) {
            Ok((lhs, behind)) => match level_operator(14, source, behind) {
                Some((text, start)) => if position <= behind < start <= source.len() {
                    match level(14, source, start, state) {
                        Ok((rhs, end)) => match level_kind(14, text) {
                            Some(kind) => Ok(
                                (ExpressionModel::Binary(kind, Box::new(lhs), Box::new(rhs)), end),
                            ),
                            None => Err(ParseError::Backtrack),
                        },
                        Err(ParseError::Backtrack) => Ok((lhs, behind)),
                        Err(error) => Err(error),
                    }
                } else {
                    Err(ParseError::Backtrack)
                },
                None => Ok((lhs, behind)),
            },
            Err(error) => Err(error),
        }
    } else {
        match level(lower_level(n), source, position, state) {
            Ok((lhs, behind)) => if position <= behind <= source.len() {
                level_tail(n, source, behind, state, lhs)
            } else {
                Err(ParseError::Backtrack)
            },
            Err(error) => Err(error),
        }
    }
}

/// The operators of a level, with their right operands, behind the operand
/// `lhs`: as many as follow. An operator must have its right operand.
pub open spec fn level_tail(
    n: int,
    source: Seq<char>,
    position: int,
    state: ParserStateModel,
    lhs: ExpressionModel,
) -> Parsed<ExpressionModel>
    decreases source.len() - position, (2 * n) as nat,
{
    if !within(source, position) || n < 3 || n > 15 {
        Err(ParseError::Backtrack)
    } else {
        match level_operator(n, source, position) {
            Some((text, start)) => if position < start <= source.len() {
                match level(lower_level(n), source, start, state) {
                    Ok((rhs, end)) => if start <= end <= source.len() {
                        match level_kind(n, text) {
                            Some(kind) => level_tail(
                                n,
                                source,
                                end,
                                state,
                                ExpressionModel::Binary(kind, Box::new(lhs), Box::new(rhs)),
                            ),
                            None => Err(ParseError::Backtrack),
                        }
                    } else {
                        Err(ParseError::Backtrack)
                    },
                    Err(error) => Err(error),
                }
            } else {
                Err(ParseError::Backtrack)
            },
            None => Ok((lhs, position)),
        }
    }
}

/// A factor: a term, or an operator with one operand before its operand.
pub open spec fn factor(source: Seq<char>, position: int, state: ParserStateModel) -> Parsed<
    ExpressionModel,
>
    decreases source.len() - position, 4nat,
{
    if !within(source, position) {
        Err(ParseError::Backtrack)
    } else {
        or_else(term(source, position, state), unary(source, position, state))
    }
}

/// What may follow a term at once.
#[derive(Debug, Clone, Copy, PartialEq, Eq, Structural)]
pub enum Postfix {
    Increment,
    Decrement,
    Call,
}

/// The postfix operator at `position`, and the place behind it.
pub open spec fn postfix_operator(source: Seq<char>, position: int) -> Option<(Postfix, int)> {
    match double_plus(source, position) {
        Some(end) => Some((Postfix::Increment, end)),
        None => match double_minus(source, position) {
            Some(end) => Some((Postfix::Decrement, end)),
            None => match open_paren(source, position) {
                Some(end) => Some((Postfix::Call, end)),
                None => None,
            },
        },
    }
}

/// The name at `position` as an expression: a variable or a parameter under
/// its unique name, or a function under its name. A word of the language is
/// no name; a name that is not declared ends the parse.
pub open spec fn variable_expression(
    source: Seq<char>,
    position: int,
    state: ParserStateModel,
) -> Parsed<
    ExpressionModel,
> {
    match identifier(source, position) {
        Some((name, end)) => if is_keyword(name) {
            Err(ParseError::Backtrack)
        } else {
            match lookup(state, name, false) {
                Some(SymbolModel::Function(function)) => Ok(
                    (ExpressionModel::FunctionSymbol(function.name), end),
                ),
                Some(SymbolModel::Variable(variable)) => Ok(
                    (ExpressionModel::Variable(variable.unique_name), end),
                ),
                Some(SymbolModel::Argument(variable)) => Ok(
                    (ExpressionModel::Variable(variable.unique_name), end),
                ),
                None => Err(ParseError::UndeclaredIdentifier),
            }
        },
        None => Err(ParseError::Backtrack),
    }
}

/// The number at `position` as an expression.
pub open spec fn number_expression(source: Seq<char>, position: int) -> Parsed<ExpressionModel> {
    match number(source, position) {
        Ok((value, end)) => Ok((ExpressionModel::Number(value), end)),
        Err(error) => Err(error),
    }
}

/// A full expression in parentheses.
pub open spec fn paren_expression(
    source: Seq<char>,
    position: int,
    state: ParserStateModel,
) -> Parsed<
    ExpressionModel,
>
    decreases source.len() - position, 2nat,
{
    if !within(source, position) {
        Err(ParseError::Backtrack)
    } else {
        match open_paren(source, position) {
            Some(behind) => if position < behind <= source.len() {
                match expression(source, behind, state) {
                    Ok((inner, closing)) => match close_paren(source, closing) {
                        Some(end) => Ok((inner, end)),
                        None => Err(ParseError::Backtrack),
                    },
                    Err(error) => Err(error),
                }
            } else {
                Err(ParseError::Backtrack)
            },
            None => Err(ParseError::Backtrack),
        }
    }
}

/// A term: a name, a number or an expression in parentheses, and perhaps
/// one postfix operator behind it: `++`, `--`, or the arguments of a call.
pub open spec fn term(source: Seq<char>, position: int, state: ParserStateModel) -> Parsed<
    ExpressionModel,
>
    decreases source.len() - position, 3nat,
{
    if !within(source, position) {
        Err(ParseError::Backtrack)
    } else {
        match or_else(
            variable_expression(source, position, state),
            or_else(number_expression(source, position), paren_expression(source, position, state)),
        ) {
            Ok((base, behind)) => match postfix_operator(source, behind) {
                Some((Postfix::Increment, end)) => Ok(
                    (ExpressionModel::Unary(UnaryKind::PostfixIncrement, Box::new(base)), end),
                ),
                Some((Postfix::Decrement, end)) => Ok(
                    (ExpressionModel::Unary(UnaryKind::PostfixDecrement, Box::new(base)), end),
                ),
                Some((Postfix::Call, start)) => if position <= behind < start <= source.len() {
                    match arguments(source, start, state) {
                        Ok((found, closing)) => match close_paren(source, closing) {
                            Some(end) => Ok((ExpressionModel::Call(Box::new(base), found), end)),
                            None => Err(ParseError::Backtrack),
                        },
                        Err(error) => Err(error),
                    }
                } else {
                    Err(ParseError::Backtrack)
                },
                None => Ok((base, behind)),
            },
            Err(error) => Err(error),
        }
    }
}

/// The arguments of a call, with commas between them; none if no argument
/// stands at `position`.
pub open spec fn arguments(source: Seq<char>, position: int, state: ParserStateModel) -> Parsed<
    Seq<ExpressionModel>,
>
    decreases source.len() - position, 42nat,
{
    if !within(source, position) {
        Err(ParseError::Backtrack)
    } else {
        match argument(source, position, state) {
            Ok((first, behind)) => if position < behind <= source.len() {
                arguments_tail(source, behind, state, seq![first])
            } else {
                Err(ParseError::Backtrack)
            },
            Err(ParseError::Backtrack) => Ok((Seq::empty(), position)),
            Err(error) => Err(error),
        }
    }
}

/// The arguments behind `found`: each follows a comma. A comma without an
/// argument behind it is left where it is.
pub open spec fn arguments_tail(
    source: Seq<char>,
    position: int,
    state: ParserStateModel,
    found: Seq<ExpressionModel>,
) -> Parsed<Seq<ExpressionModel>>
    decreases source.len() - position, 42nat,
{
    if !within(source, position) {
        Err(ParseError::Backtrack)
    } else {
        match comma(source, position) {
            Some(start) => if position < start <= source.len() {
                match argument(source, start, state) {
                    Ok((next, end)) => if start <= end <= source.len() {
                        arguments_tail(source, end, state, found.push(next))
                    } else {
                        Err(ParseError::Backtrack)
                    },
                    Err(ParseError::Backtrack) => Ok((found, position)),
                    Err(error) => Err(error),
                }
            } else {
                Err(ParseError::Backtrack)
            },
            None => Ok((found, position)),
        }
    }
}

/// The operator with one operand at `position`, and the place behind it.
/// `&` comes first, so that `&&` before an operand is read as two of it.
pub open spec fn unary_operator(source: Seq<char>, position: int) -> Option<(UnaryKind, int)> {
    match pointer_ampersand(source, position) {
        Some(end) => Some((UnaryKind::Ref, end)),
        None => match star(source, position) {
            Some(end) => Some((UnaryKind::Deref, end)),
            None => match plus(source, position) {
                Some(end) => Some((UnaryKind::Plus, end)),
                None => match minus(source, position) {
                    Some(end) => Some((UnaryKind::Negation, end)),
                    None => match tilda(source, position) {
                        Some(end) => Some((UnaryKind::BitwiseNot, end)),
                        None => match bang(source, position) {
                            Some(end) => Some((UnaryKind::LogicalNot, end)),
                            None => match double_plus(source, position) {
                                Some(end) => Some((UnaryKind::PrefixIncrement, end)),
                                None => match double_minus(source, position) {
                                    Some(end) => Some((UnaryKind::PrefixDecrement, end)),
                                    None => None,
                                },
                            },
                        },
                    },
                },
            },
        },
    }
}

/// The type behind all pointers of a type.
pub open spec fn pointee(datatype: DatatypeModel) -> DatatypeModel
    decreases datatype,
{
    match datatype {
        DatatypeModel::Pointer { inner } => pointee(*inner),
        _ => datatype,
    }
}

/// The operation that an operator with one operand makes of its operand.
/// `&` on a function and `*` on a function or on pointers to one leave the
/// operand as it is.
pub open spec fn unary_operation(
    kind: UnaryKind,
    operand: ExpressionModel,
    state: ParserStateModel,
) -> Result<
    ExpressionModel,
    ParseError,
> {
    match kind {
        UnaryKind::Ref => match type_of(operand, state) {
            Ok(found) => if found is Function {
                Ok(ExpressionModel::Unary(UnaryKind::Nothing, Box::new(operand)))
            } else {
                Ok(ExpressionModel::Unary(UnaryKind::Ref, Box::new(operand)))
            },
            Err(error) => Err(error),
        },
        UnaryKind::Deref => match type_of(operand, state) {
            Ok(found) => if pointee(found) is Function {
                Ok(ExpressionModel::Unary(UnaryKind::Nothing, Box::new(operand)))
            } else {
                Ok(ExpressionModel::Unary(UnaryKind::Deref, Box::new(operand)))
            },
            Err(error) => Err(error),
        },
        _ => Ok(ExpressionModel::Unary(kind, Box::new(operand))),
    }
}

/// The operand of an operator with one operand, made into its operation.
pub open spec fn unary_operand(
    kind: UnaryKind,
    source: Seq<char>,
    position: int,
    state: ParserStateModel,
) -> Parsed<ExpressionModel>
    decreases source.len() - position, 5nat,
{
    if !within(source, position) {
        Err(ParseError::Backtrack)
    } else {
        match factor(source, position, state) {
            Ok((operand, end)) => match unary_operation(kind, operand, state) {
                Ok(operation) => Ok((operation, end)),
                Err(error) => Err(error),
            },
            Err(error) => Err(error),
        }
    }
}

/// An operator with one operand and, behind it, its operand, a factor.
pub open spec fn unary(source: Seq<char>, position: int, state: ParserStateModel) -> Parsed<
    ExpressionModel,
>
    decreases source.len() - position, 3nat,
{
    if !within(source, position) {
        Err(ParseError::Backtrack)
    } else {
        match unary_operator(source, position) {
            Some((kind, behind)) => if position < behind <= source.len() {
                unary_operand(kind, source, behind, state)
            } else {
                Err(ParseError::Backtrack)
            },
            None => Err(ParseError::Backtrack),
        }
    }
}

/// An expression that may be missing: nothing is read where no expression
/// stands.
pub open spec fn optional_expression(
    source: Seq<char>,
    position: int,
    state: ParserStateModel,
) -> Parsed<
    Option<ExpressionModel>,
> {
    match expression(source, position, state) {
        Ok((found, end)) => Ok((Some(found), end)),
        Err(ParseError::Backtrack) => Ok((None, position)),
        Err(error) => Err(error),
    }
}

/// Reads a name as an expression.
pub fn parse_variable_expression(source: &str, position: usize, state: &ParserState) -> (result:
    Result<(Expression, usize), ParseError>)
    requires
        source.is_ascii(),
        position <= source@.len(),
    ensures
        parsed(result, variable_expression(source@, position as int, state@)),
        result matches Ok((_, end)) ==> position < end <= source@.len(),
{
    let (name, end) = parse_identifier(source, position)?;
    if keyword_name(name) {
        return Err(ParseError::Backtrack);
    }
    match state.get_symbol(name) {
        Some(ParserSymbol::Function(function)) => Ok(
            (Expression::FunctionSymbol(function.name.clone()), end),
        ),
        Some(ParserSymbol::Variable(variable)) => Ok(
            (Expression::Variable(variable.unique_name.clone()), end),
        ),
        Some(ParserSymbol::Argument(variable)) => Ok(
            (Expression::Variable(variable.unique_name.clone()), end),
        ),
        None => Err(ParseError::UndeclaredIdentifier),
    }
}

/// Reads a number as an expression.
pub fn parse_number_expression(source: &str, position: usize) -> (result: Result<
    (Expression, usize),
    ParseError,
>)
    requires
        source.is_ascii(),
        position <= source@.len(),
    ensures
        parsed(result, number_expression(source@, position as int)),
        result matches Ok((_, end)) ==> position < end <= source@.len(),
{
    let (value, end) = parse_number(source, position)?;
    Ok((Expression::Number(value), end))
}

/// Reads a full expression in parentheses.
pub fn parse_paren_expression(source: &str, position: usize, state: &ParserState) -> (result:
    Result<(Expression, usize), ParseError>)
    requires
        source.is_ascii(),
        position <= source@.len(),
    ensures
        parsed(result, paren_expression(source@, position as int, state@)),
        result matches Ok((_, end)) ==> position < end <= source@.len(),
    decreases source@.len() - position, 2nat,
{
    let behind = parse_open_paren(source, position)?;
    let (inner, closing) = parse_expression(source, behind, state)?;
    let end = parse_close_paren(source, closing)?;
    Ok((inner, end))
}

/// Reads a postfix operator.
pub fn parse_postfix_operator(source: &str, position: usize) -> (result: Result<
    (Postfix, usize),
    ParseError,
>)
    requires
        source.is_ascii(),
        position <= source@.len(),
    ensures
        match result {
            Ok((found, end)) => postfix_operator(source@, position as int) == Some(
                (found, end as int),
            ) && position < end <= source@.len(),
            Err(error) => error == ParseError::Backtrack && postfix_operator(
                source@,
                position as int,
            ) is None,
        },
{
    match parse_double_plus(source, position) {
        Ok(end) => {
            return Ok((Postfix::Increment, end));
        },
        Err(_) => {},
    }
    match parse_double_minus(source, position) {
        Ok(end) => {
            return Ok((Postfix::Decrement, end));
        },
        Err(_) => {},
    }
    match parse_open_paren(source, position) {
        Ok(end) => Ok((Postfix::Call, end)),
        Err(error) => Err(error),
    }
}

/// Whether the expressions and the place that a reader returned are those
/// that the model gives.
pub open spec fn parsed_list(
    result: Result<(Vec<Expression>, usize), ParseError>,
    expected: Parsed<Seq<ExpressionModel>>,
) -> bool {
    match result {
        Ok((found, end)) => expected == Ok::<(Seq<ExpressionModel>, int), ParseError>(
            (expressions_model(found@), end as int),
        ),
        Err(error) => expected == Err::<(Seq<ExpressionModel>, int), ParseError>(error),
    }
}

/// Reads the arguments behind `found`.
pub fn parse_arguments_tail(
    source: &str,
    position: usize,
    state: &ParserState,
    found: Vec<Expression>,
) -> (result: Result<(Vec<Expression>, usize), ParseError>)
    requires
        source.is_ascii(),
        position <= source@.len(),
    ensures
        parsed_list(
            result,
            arguments_tail(source@, position as int, state@, expressions_model(found@)),
        ),
        result matches Ok((_, end)) ==> position <= end <= source@.len(),
    decreases source@.len() - position, 42nat,
{
    let start = match parse_comma(source, position) {
        Ok(start) => start,
        Err(_) => {
            return Ok((found, position));
        },
    };
    match parse_argument(source, start, state) {
        Ok((next, end)) => {
            let mut found = found;
            let ghost before = expressions_model(found@);
            found.push(next);
            assert(expressions_model(found@) =~= before.push(next@));
            parse_arguments_tail(source, end, state, found)
        },
        Err(ParseError::Backtrack) => Ok((found, position)),
        Err(error) => Err(error),
    }
}

/// Reads the arguments of a call.
pub fn parse_arguments(source: &str, position: usize, state: &ParserState) -> (result: Result<
    (Vec<Expression>, usize),
    ParseError,
>)
    requires
        source.is_ascii(),
        position <= source@.len(),
    ensures
        parsed_list(result, arguments(source@, position as int, state@)),
        result matches Ok((_, end)) ==> position <= end <= source@.len(),
    decreases source@.len() - position, 42nat,
{
    match parse_argument(source, position, state) {
        Ok((first, behind)) => {
            let mut found: Vec<Expression> = Vec::new();
            found.push(first);
            assert(expressions_model(found@) =~= seq![first@]);
            parse_arguments_tail(source, behind, state, found)
        },
        Err(ParseError::Backtrack) => {
            let found: Vec<Expression> = Vec::new();
            assert(expressions_model(found@) =~= Seq::empty());
            Ok((found, position))
        },
        Err(error) => Err(error),
    }
}

/// Reads a term.
pub fn parse_term(source: &str, position: usize, state: &ParserState) -> (result: Result<
    (Expression, usize),
    ParseError,
>)
    requires
        source.is_ascii(),
        position <= source@.len(),
    ensures
        parsed(result, term(source@, position as int, state@)),
        result matches Ok((_, end)) ==> position < end <= source@.len(),
    decreases source@.len() - position, 3nat,
{
    let (base, behind) = match parse_variable_expression(source, position, state) {
        Err(ParseError::Backtrack) => match parse_number_expression(source, position) {
            Err(ParseError::Backtrack) => parse_paren_expression(source, position, state)?,
            other => other?,
        },
        other => other?,
    };
    match parse_postfix_operator(source, behind) {
        Ok((Postfix::Increment, end)) => {
            let built = Expression::UnaryOp(UnaryOp::PostfixIncrement(Arc::new(base)));
            proof {
                lemma_expression_model(built);
            }
            Ok((built, end))
        },
        Ok((Postfix::Decrement, end)) => {
            let built = Expression::UnaryOp(UnaryOp::PostfixDecrement(Arc::new(base)));
            proof {
                lemma_expression_model(built);
            }
            Ok((built, end))
        },
        Ok((Postfix::Call, start)) => {
            let (found, closing) = parse_arguments(source, start, state)?;
            let end = parse_close_paren(source, closing)?;
            let built = Expression::Call(Call { expression: Arc::new(base), arguments: found });
            proof {
                lemma_expression_model(built);
            }
            Ok((built, end))
        },
        Err(_) => Ok((base, behind)),
    }
}

/// Reads a factor.
pub fn parse_factor(source: &str, position: usize, state: &ParserState) -> (result: Result<
    (Expression, usize),
    ParseError,
>)
    requires
        source.is_ascii(),
        position <= source@.len(),
    ensures
        parsed(result, factor(source@, position as int, state@)),
        result matches Ok((_, end)) ==> position < end <= source@.len(),
    decreases source@.len() - position, 4nat,
{
    match parse_term(source, position, state) {
        Err(ParseError::Backtrack) => parse_unary_expression(source, position, state),
        other => other,
    }
}

/// Reads an operator with one operand.
pub fn parse_unary_operator(source: &str, position: usize) -> (result: Result<
    (UnaryKind, usize),
    ParseError,
>)
    requires
        source.is_ascii(),
        position <= source@.len(),
    ensures
        match result {
            Ok((kind, end)) => unary_operator(source@, position as int) == Some((kind, end as int))
                && position < end <= source@.len(),
            Err(error) => error == ParseError::Backtrack && unary_operator(
                source@,
                position as int,
            ) is None,
        },
{
    match parse_pointer_ampersand(source, position) {
        Ok(end) => {
            return Ok((UnaryKind::Ref, end));
        },
        Err(_) => {},
    }
    match parse_star(source, position) {
        Ok(end) => {
            return Ok((UnaryKind::Deref, end));
        },
        Err(_) => {},
    }
    match parse_plus(source, position) {
        Ok(end) => {
            return Ok((UnaryKind::Plus, end));
        },
        Err(_) => {},
    }
    match parse_minus(source, position) {
        Ok(end) => {
            return Ok((UnaryKind::Negation, end));
        },
        Err(_) => {},
    }
    match parse_tilda(source, position) {
        Ok(end) => {
            return Ok((UnaryKind::BitwiseNot, end));
        },
        Err(_) => {},
    }
    match parse_bang(source, position) {
        Ok(end) => {
            return Ok((UnaryKind::LogicalNot, end));
        },
        Err(_) => {},
    }
    match parse_double_plus(source, position) {
        Ok(end) => {
            return Ok((UnaryKind::PrefixIncrement, end));
        },
        Err(_) => {},
    }
    match parse_double_minus(source, position) {
        Ok(end) => Ok((UnaryKind::PrefixDecrement, end)),
        Err(error) => Err(error),
    }
}

/// Whether a type is a function behind any number of pointers.
pub fn points_to_function(datatype: &Datatype) -> (function: bool)
    ensures
        function == (pointee(datatype@) is Function),
    decreases datatype,
{
    match datatype {
        Datatype::Pointer { inner } => points_to_function(inner),
        Datatype::Function { .. } => true,
        _ => false,
    }
}

/// Reads the operand of `&` and makes the reference.
pub fn parse_unary_ref_operation(source: &str, position: usize, state: &ParserState) -> (result:
    Result<(UnaryOp, usize), ParseError>)
    requires
        source.is_ascii(),
        position <= source@.len(),
    ensures
        parsed(result, unary_operand(UnaryKind::Ref, source@, position as int, state@)),
        result matches Ok((_, end)) ==> position < end <= source@.len(),
    decreases source@.len() - position, 5nat,
{
    let (operand, end) = parse_factor(source, position, state)?;
    let found = operand.get_type(state)?;
    match found {
        Datatype::Function { .. } => Ok((UnaryOp::Nothing(Arc::new(operand)), end)),
        _ => Ok((UnaryOp::Ref(Arc::new(operand)), end)),
    }
}

/// Reads the operand of `*` and makes the dereference.
pub fn parse_unary_deref_operation(source: &str, position: usize, state: &ParserState) -> (result:
    Result<(UnaryOp, usize), ParseError>)
    requires
        source.is_ascii(),
        position <= source@.len(),
    ensures
        parsed(result, unary_operand(UnaryKind::Deref, source@, position as int, state@)),
        result matches Ok((_, end)) ==> position < end <= source@.len(),
    decreases source@.len() - position, 5nat,
{
    let (operand, end) = parse_factor(source, position, state)?;
    let found = operand.get_type(state)?;
    if points_to_function(&found) {
        Ok((UnaryOp::Nothing(Arc::new(operand)), end))
    } else {
        Ok((UnaryOp::Deref(Arc::new(operand)), end))
    }
}

/// Reads the operand of an operator that keeps no check on its operand.
pub fn parse_plain_unary_operation(
    kind: UnaryKind,
    source: &str,
    position: usize,
    state: &ParserState,
) -> (result: Result<(UnaryOp, usize), ParseError>)
    requires
        source.is_ascii(),
        position <= source@.len(),
        kind != UnaryKind::Ref,
        kind != UnaryKind::Deref,
    ensures
        parsed(result, unary_operand(kind, source@, position as int, state@)),
        result matches Ok((_, end)) ==> position < end <= source@.len(),
    decreases source@.len() - position, 5nat,
{
    let (operand, end) = parse_factor(source, position, state)?;
    Ok((UnaryOp::new(kind, Arc::new(operand)), end))
}

/// Reads the operand of a unary `+`.
pub fn parse_unary_plus_operation(source: &str, position: usize, state: &ParserState) -> (result:
    Result<(UnaryOp, usize), ParseError>)
    requires
        source.is_ascii(),
        position <= source@.len(),
    ensures
        parsed(result, unary_operand(UnaryKind::Plus, source@, position as int, state@)),
        result matches Ok((_, end)) ==> position < end <= source@.len(),
    decreases source@.len() - position, 6nat,
{
    parse_plain_unary_operation(UnaryKind::Plus, source, position, state)
}

/// Reads the operand of a unary `-`.
pub fn parse_unary_negation_operation(
    source: &str,
    position: usize,
    state: &ParserState,
) -> (result:
    Result<(UnaryOp, usize), ParseError>)
    requires
        source.is_ascii(),
        position <= source@.len(),
    ensures
        parsed(result, unary_operand(UnaryKind::Negation, source@, position as int, state@)),
        result matches Ok((_, end)) ==> position < end <= source@.len(),
    decreases source@.len() - position, 6nat,
{
    parse_plain_unary_operation(UnaryKind::Negation, source, position, state)
}

/// Reads the operand of `~`.
pub fn parse_unary_bitwise_not_operation(
    source: &str,
    position: usize,
    state: &ParserState,
) -> (result:
    Result<(UnaryOp, usize), ParseError>)
    requires
        source.is_ascii(),
        position <= source@.len(),
    ensures
        parsed(result, unary_operand(UnaryKind::BitwiseNot, source@, position as int, state@)),
        result matches Ok((_, end)) ==> position < end <= source@.len(),
    decreases source@.len() - position, 6nat,
{
    parse_plain_unary_operation(UnaryKind::BitwiseNot, source, position, state)
}

/// Reads the operand of `!`.
pub fn parse_unary_logical_not_operation(
    source: &str,
    position: usize,
    state: &ParserState,
) -> (result:
    Result<(UnaryOp, usize), ParseError>)
    requires
        source.is_ascii(),
        position <= source@.len(),
    ensures
        parsed(result, unary_operand(UnaryKind::LogicalNot, source@, position as int, state@)),
        result matches Ok((_, end)) ==> position < end <= source@.len(),
    decreases source@.len() - position, 6nat,
{
    parse_plain_unary_operation(UnaryKind::LogicalNot, source, position, state)
}

/// Reads the operand of a prefix `++`.
pub fn parse_prefix_increment_operation(
    source: &str,
    position: usize,
    state: &ParserState,
) -> (result:
    Result<(UnaryOp, usize), ParseError>)
    requires
        source.is_ascii(),
        position <= source@.len(),
    ensures
        parsed(result, unary_operand(UnaryKind::PrefixIncrement, source@, position as int, state@)),
        result matches Ok((_, end)) ==> position < end <= source@.len(),
    decreases source@.len() - position, 6nat,
{
    parse_plain_unary_operation(UnaryKind::PrefixIncrement, source, position, state)
}

/// Reads the operand of a prefix `--`.
pub fn parse_prefix_decrement_operation(
    source: &str,
    position: usize,
    state: &ParserState,
) -> (result:
    Result<(UnaryOp, usize), ParseError>)
    requires
        source.is_ascii(),
        position <= source@.len(),
    ensures
        parsed(result, unary_operand(UnaryKind::PrefixDecrement, source@, position as int, state@)),
        result matches Ok((_, end)) ==> position < end <= source@.len(),
    decreases source@.len() - position, 6nat,
{
    parse_plain_unary_operation(UnaryKind::PrefixDecrement, source, position, state)
}

/// Reads an operator with one operand and its operand.
pub fn parse_unary_operation(source: &str, position: usize, state: &ParserState) -> (result:
    Result<(UnaryOp, usize), ParseError>)
    requires
        source.is_ascii(),
        position <= source@.len(),
    ensures
        parsed(result, unary(source@, position as int, state@)),
        result matches Ok((_, end)) ==> position < end <= source@.len(),
    decreases source@.len() - position, 2nat,
{
    let (kind, behind) = parse_unary_operator(source, position)?;
    match kind {
        UnaryKind::Plus => parse_unary_plus_operation(source, behind, state),
        UnaryKind::Negation => parse_unary_negation_operation(source, behind, state),
        UnaryKind::BitwiseNot => parse_unary_bitwise_not_operation(source, behind, state),
        UnaryKind::LogicalNot => parse_unary_logical_not_operation(source, behind, state),
        UnaryKind::PrefixIncrement => parse_prefix_increment_operation(source, behind, state),
        UnaryKind::PrefixDecrement => parse_prefix_decrement_operation(source, behind, state),
        UnaryKind::Ref => parse_unary_ref_operation(source, behind, state),
        UnaryKind::Deref => parse_unary_deref_operation(source, behind, state),
        _ => Err(ParseError::Backtrack),
    }
}

/// Reads an operator with one operand and its operand, as an expression.
pub fn parse_unary_expression(source: &str, position: usize, state: &ParserState) -> (result:
    Result<(Expression, usize), ParseError>)
    requires
        source.is_ascii(),
        position <= source@.len(),
    ensures
        parsed(result, unary(source@, position as int, state@)),
        result matches Ok((_, end)) ==> position < end <= source@.len(),
    decreases source@.len() - position, 3nat,
{
    let (operation, end) = parse_unary_operation(source, position, state)?;
    let built = Expression::UnaryOp(operation);
    proof {
        lemma_expression_model(built);
    }
    Ok((built, end))
}

/// Reads the operators of a level behind the operand `lhs`.
pub fn parse_level_tail(
    n: u8,
    source: &str,
    position: usize,
    state: &ParserState,
    lhs: Expression,
) -> (result: Result<(Expression, usize), ParseError>)
    requires
        source.is_ascii(),
        position <= source@.len(),
        3 <= n <= 15,
    ensures
        parsed(result, level_tail(n as int, source@, position as int, state@, lhs@)),
        result matches Ok((_, end)) ==> position <= end <= source@.len(),
    decreases source@.len() - position, (2 * n) as nat,
{
    let (text, start) = match parse_level_operator(n, source, position) {
        Ok(found) => found,
        Err(_) => {
            return Ok((lhs, position));
        },
    };
    let below: u8 = if n == 15 {
        14
    } else {
        n - 1
    };
    let (rhs, end) = parse_level_expression(below, source, start, state)?;
    match operation_creator(n, lhs, rhs, String::from_str(text)) {
        Some(operation) => {
            let built = Expression::BinaryOp(operation);
            proof {
                lemma_expression_model(built);
            }
            parse_level_tail(n, source, end, state, built)
        },
        None => Err(ParseError::Backtrack),
    }
}

/// Reads an expression of a level of precedence.
pub fn parse_level_expression(n: u8, source: &str, position: usize, state: &ParserState) -> (result:
    Result<(Expression, usize), ParseError>)
    requires
        source.is_ascii(),
        position <= source@.len(),
        2 <= n <= 15,
    ensures
        parsed(result, level(n as int, source@, position as int, state@)),
        result matches Ok((_, end)) ==> position < end <= source@.len(),
    decreases source@.len() - position, (2 * n + 1) as nat,
{
    if n == 2 {
        parse_factor(source, position, state)
    } else if n == 13 {
        let (condition, behind) = parse_level_expression(12, source, position, state)?;
        let first = match parse_question_mark(source, behind) {
            Ok(first) => first,
            Err(_) => {
                return Ok((condition, behind));
            },
        };
        let (then_expr, middle) = parse_expression(source, first, state)?;
        let second = parse_colon(source, middle)?;
        let (else_expr, end) = parse_expression(source, second, state)?;
        let built = Expression::TernaryOp(
            TernaryOp {
                condition: Arc::new(condition),
                then_expr: Arc::new(then_expr),
                else_expr: Arc::new(else_expr),
            },
        );
        proof {
            lemma_expression_model(built);
        }
        Ok((built, end))
    } else if n == 14 {
        let (lhs, behind) = parse_level_expression(13, source, position, state)?;
        assert(level_operator(14, source@, behind as int)
            == level_14_operator(
            source@,
            behind as int,
        ));
        match parse_half_level_14_operation(
            source,
            behind,
            state,
        ) {
            Ok((half, end)) => match operation_creator(14, lhs, half.rhs, half.op) {
                Some(operation) => {
                    let built = Expression::BinaryOp(operation);
                    proof {
                        lemma_expression_model(built);
                    }
                    Ok((built, end))
                },
                None => Err(ParseError::Backtrack),
            },
            Err(ParseError::Backtrack) => Ok((lhs, behind)),
            Err(error) => Err(error),
        }
    } else {
        let below: u8 = if n == 15 {
            14
        } else {
            n - 1
        };
        let (lhs, behind) = parse_level_expression(below, source, position, state)?;
        parse_level_tail(n, source, behind, state, lhs)
    }
}

/// Reads an argument of a call.
pub fn parse_argument(source: &str, position: usize, state: &ParserState) -> (result: Result<
    (Expression, usize),
    ParseError,
>)
    requires
        source.is_ascii(),
        position <= source@.len(),
    ensures
        parsed(result, argument(source@, position as int, state@)),
        result matches Ok((_, end)) ==> position < end <= source@.len(),
    decreases source@.len() - position, 40nat,
{
    let (found, end) = parse_level_expression(14, source, position, state)?;
    match found.get_type(state) {
        Ok(_) => Ok((found, end)),
        Err(error) => Err(error),
    }
}

/// Reads a full expression and checks its type.
pub fn parse_expression(source: &str, position: usize, state: &ParserState) -> (result: Result<
    (Expression, usize),
    ParseError,
>)
    requires
        source.is_ascii(),
        position <= source@.len(),
    ensures
        parsed(result, expression(source@, position as int, state@)),
        result matches Ok((_, end)) ==> position < end <= source@.len(),
    decreases source@.len() - position, 40nat,
{
    let (found, end) = parse_level_expression(15, source, position, state)?;
    match found.get_type(state) {
        Ok(_) => Ok((found, end)),
        Err(error) => Err(error),
    }
}

/// Reads an expression if one stands at `position`.
pub fn parse_optional_expression(source: &str, position: usize, state: &ParserState) -> (result:
    Result<(Option<Expression>, usize), ParseError>)
    requires
        source.is_ascii(),
        position <= source@.len(),
    ensures
        match result {
            Ok((found, end)) => optional_expression(source@, position as int, state@) == Ok::<
                (Option<ExpressionModel>, int),
                ParseError,
            >((optional_expression_model(found), end as int))
                && position <= end <= source@.len(),
            Err(error) => optional_expression(source@, position as int, state@) == Err::<
                (Option<ExpressionModel>, int),
                ParseError,
            >(error),
        },
{
    match parse_expression(source, position, state) {
        Ok((found, end)) => Ok((Some(found), end)),
        Err(ParseError::Backtrack) => Ok((None, position)),
        Err(error) => Err(error),
    }
}

} // verus!

//! Statements: their grammar, and the readers that follow it.
use std::sync::Arc;
use vstd::prelude::*;
use vstd::string::*;
use crate::parser::{
    innermost, lemma_forget_loop, with_case, with_loop, with_scope, with_variable, without_loop,
    without_scope, ParseError, ParserState, ParserStateModel,
};
use crate::parser::datatype::primitive_datatype;
use crate::parser::declaration::{declarator, parse_declaration, parsed, within, Parsed};
use crate::parser::expression::{
    expression, optional_expression, parse_expression, parse_optional_expression,
};
use crate::parser::identifier::{identifier, keyword, parse_keyword};
use crate::parser::number::or_else;
use crate::parser::scope::parse_scope;
use crate::parser::trivial_tokens::{
    close_paren, close_scope, colon, equals, open_paren, open_scope, parse_close_paren,
    parse_open_paren, parse_semicolon, semicolon,
};
use crate::types::datatype::DatatypeModel;
use crate::types::declaration::{optional_expression_model, DeclarationModel};
use crate::types::expression::{folded, Expression, ExpressionModel};
use crate::types::statement::{
    for_init_model, lemma_statement_model, Case, ForInit, ForInitModel, ForStatement, IfStatement,
    JumpStatement, LabelModel, ScopeItemModel, Statement, StatementModel, SwitchStatement,
    WhileStatement,
};
use crate::utils::random_name::mangled;

verus! {

/// What a reader of the grammar gives that may declare names: a value, the
/// place behind it, and the state of the parser there; or the reason why
/// there is none.
pub type Stated<T> = Result<(T, int, ParserStateModel), ParseError>;

/// What a reader that declares nothing gives, with the state as it was.
pub open spec fn kept<T>(read: Parsed<T>, state: ParserStateModel) -> Stated<T> {
    match read {
        Ok((value, end)) => Ok((value, end, state)),
        Err(error) => Err(error),
    }
}

/// The most unique names that may be handed out.
pub open spec fn max_identifiers() -> nat {
    0xffff_ffff_ffff_ffff
}

/// The first value of a declaration: `=` and a full expression.
pub open spec fn declaration_value(
    source: Seq<char>,
    position: int,
    state: ParserStateModel,
) -> Parsed<
    ExpressionModel,
> {
    match equals(source, position) {
        Some(behind) => expression(source, behind, state),
        None => Err(ParseError::Backtrack),
    }
}

/// A declaration: a primitive type, a declarator and perhaps a first value.
/// The variable is declared before its first value is read, and is known
/// under its unique name from then on.
pub open spec fn declaration(source: Seq<char>, position: int, state: ParserStateModel) -> Stated<
    DeclarationModel,
> {
    match primitive_datatype(source, position) {
        Some(behind) => match declarator(source, behind, DatatypeModel::Int) {
            Ok((found, end)) => if state.identifiers >= max_identifiers() {
                Err(ParseError::TooManyIdentifiers)
            } else {
                let declared = with_variable(state, found.name, found.datatype);
                let name = mangled(found.name, state.identifiers);
                match declaration_value(source, end, declared) {
                    Ok((value, last)) => Ok(
                        (
                            DeclarationModel { datatype: found.datatype, name, value: Some(value) },
                            last,
                            declared,
                        ),
                    ),
                    Err(ParseError::Backtrack) => Ok(
                        (
                            DeclarationModel { datatype: found.datatype, name, value: None },
                            end,
                            declared,
                        ),
                    ),
                    Err(error) => Err(error),
                }
            },
            Err(error) => Err(error),
        },
        None => Err(ParseError::Backtrack),
    }
}

/// `break;`, inside a loop or a `switch`.
pub open spec fn break_jump(source: Seq<char>, position: int, state: ParserStateModel) -> Parsed<
    StatementModel,
> {
    match keyword(source, position, "break"@) {
        Some(behind) => match semicolon(source, behind) {
            Some(end) => if state.loops.len() > 0 {
                Ok((StatementModel::Break(state.loops.last().id), end))
            } else {
                Err(ParseError::BreakOutsideLoop)
            },
            None => Err(ParseError::Backtrack),
        },
        None => Err(ParseError::Backtrack),
    }
}

/// `return`, perhaps an expression, and `;`.
pub open spec fn return_jump(source: Seq<char>, position: int, state: ParserStateModel) -> Parsed<
    StatementModel,
> {
    match keyword(source, position, "return"@) {
        Some(behind) => match optional_expression(source, behind, state) {
            Ok((value, last)) => match semicolon(source, last) {
                Some(end) => Ok((StatementModel::Return(value), end)),
                None => Err(ParseError::Backtrack),
            },
            Err(error) => Err(error),
        },
        None => Err(ParseError::Backtrack),
    }
}

/// `continue;`, inside a loop.
pub open spec fn continue_jump(source: Seq<char>, position: int, state: ParserStateModel) -> Parsed<
    StatementModel,
> {
    match keyword(source, position, "continue"@) {
        Some(behind) => match semicolon(source, behind) {
            Some(end) => match innermost(state.loops, true, state.loops.len() as int) {
                Some(place) => Ok((StatementModel::Continue(state.loops[place].id), end)),
                None => Err(ParseError::ContinueOutsideLoop),
            },
            None => Err(ParseError::Backtrack),
        },
        None => Err(ParseError::Backtrack),
    }
}

/// `__ebreak;`.
pub open spec fn ebreak_jump(source: Seq<char>, position: int) -> Parsed<StatementModel> {
    match keyword(source, position, "__ebreak"@) {
        Some(behind) => match semicolon(source, behind) {
            Some(end) => Ok((StatementModel::Ebreak, end)),
            None => Err(ParseError::Backtrack),
        },
        None => Err(ParseError::Backtrack),
    }
}

/// A jump: `break`, `return`, `continue` or `__ebreak`.
pub open spec fn jump_statement(
    source: Seq<char>,
    position: int,
    state: ParserStateModel,
) -> Parsed<
    StatementModel,
> {
    or_else(
        break_jump(source, position, state),
        or_else(
            return_jump(source, position, state),
            or_else(continue_jump(source, position, state), ebreak_jump(source, position)),
        ),
    )
}

/// A full expression and `;`.
pub open spec fn expression_statement(
    source: Seq<char>,
    position: int,
    state: ParserStateModel,
) -> Parsed<
    StatementModel,
> {
    match expression(source, position, state) {
        Ok((found, last)) => match semicolon(source, last) {
            Some(end) => Ok((StatementModel::Expression(found), end)),
            None => Err(ParseError::Backtrack),
        },
        Err(error) => Err(error),
    }
}

/// `;` alone.
pub open spec fn null_statement(source: Seq<char>, position: int) -> Parsed<StatementModel> {
    match semicolon(source, position) {
        Some(end) => Ok((StatementModel::Null, end)),
        None => Err(ParseError::Backtrack),
    }
}

/// The start of a `for` statement: a declaration or a full expression.
pub open spec fn for_init(source: Seq<char>, position: int, state: ParserStateModel) -> Stated<
    ForInitModel,
> {
    or_else(
        match declaration(source, position, state) {
            Ok((found, end, declared)) => Ok((ForInitModel::Declaration(found), end, declared)),
            Err(error) => Err(error),
        },
        match expression(source, position, state) {
            Ok((found, end)) => Ok((ForInitModel::Expression(found), end, state)),
            Err(error) => Err(error),
        },
    )
}

/// A label: `default:` or `case` with a constant and `:`, inside a
/// `switch`, which notes it; or a name and `:`.
pub open spec fn label(source: Seq<char>, position: int, state: ParserStateModel) -> Stated<
    LabelModel,
> {
    match identifier(source, position) {
        Some((name, behind)) => if name == "default"@ {
            match colon(source, behind) {
                Some(end) => match innermost(state.loops, false, state.loops.len() as int) {
                    Some(place) => Ok(
                        (
                            LabelModel::Default { id: state.loops[place].id },
                            end,
                            with_case(state, place, Case::Default),
                        ),
                    ),
                    None => Err(ParseError::CaseOutsideSwitch),
                },
                None => Err(ParseError::Backtrack),
            }
        } else if name == "case"@ {
            match expression(source, behind, state) {
                Ok((found, last)) => match colon(source, last) {
                    Some(end) => match innermost(state.loops, false, state.loops.len() as int) {
                        Some(place) => match folded(found) {
                            Some(value) => Ok(
                                (
                                    LabelModel::Case { id: state.loops[place].id, value },
                                    end,
                                    with_case(state, place, Case::Case(value)),
                                ),
                            ),
                            None => Err(ParseError::NonConstantCase),
                        },
                        None => Err(ParseError::CaseOutsideSwitch),
                    },
                    None => Err(ParseError::Backtrack),
                },
                Err(error) => Err(error),
            }
        } else {
            match colon(source, behind) {
                Some(end) => Ok((LabelModel::Named(name), end, state)),
                None => Err(ParseError::Backtrack),
            }
        },
        None => Err(ParseError::Backtrack),
    }
}

/// A declaration and `;`, as an item of a scope.
pub open spec fn declaration_scope_item(
    source: Seq<char>,
    position: int,
    state: ParserStateModel,
) -> Stated<
    ScopeItemModel,
> {
    match declaration(source, position, state) {
        Ok((found, last, declared)) => match semicolon(source, last) {
            Some(end) => Ok((ScopeItemModel::Declaration(found), end, declared)),
            None => Err(ParseError::Backtrack),
        },
        Err(error) => Err(error),
    }
}

/// A statement. The alternatives are tried in this order: a jump, `if`,
/// `while`, `for`, `switch`, an expression with `;`, a scope, `;` alone.
/// What an alternative that fails has declared is forgotten.
pub open spec fn statement(source: Seq<char>, position: int, state: ParserStateModel) -> Stated<
    StatementModel,
>
    decreases source.len() - position, 60nat,
{
    if !within(source, position) {
        Err(ParseError::Backtrack)
    } else {
        or_else(
            kept(jump_statement(source, position, state), state),
            or_else(
                if_statement(source, position, state),
                or_else(
                    while_statement(source, position, state),
                    or_else(
                        for_statement(source, position, state),
                        or_else(
                            switch_statement(source, position, state),
                            or_else(
                                kept(expression_statement(source, position, state), state),
                                or_else(
                                    scope_statement(source, position, state),
                                    kept(null_statement(source, position), state),
                                ),
                            ),
                        ),
                    ),
                ),
            ),
        )
    }
}

/// `if`, a condition, a statement and perhaps `else` with a statement.
pub open spec fn if_statement(source: Seq<char>, position: int, state: ParserStateModel) -> Stated<
    StatementModel,
>
    decreases source.len() - position, 50nat,
{
    if !within(source, position) {
        Err(ParseError::Backtrack)
    } else {
        match keyword(source, position, "if"@) {
            Some(behind) => match expression(source, behind, state) {
                Ok((condition, start)) => if position < start <= source.len() {
                    match statement(source, start, state) {
                        Ok((then_block, middle, after)) => if start <= middle <= source.len() {
                            match else_part(source, middle, after) {
                                Ok((else_block, end, last)) => Ok(
                                    (
                                        StatementModel::If {
                                            condition,
                                            then_block: Box::new(then_block),
                                            else_block: Some(Box::new(else_block)),
                                        },
                                        end,
                                        last,
                                    ),
                                ),
                                Err(ParseError::Backtrack) => Ok(
                                    (
                                        StatementModel::If {
                                            condition,
                                            then_block: Box::new(then_block),
                                            else_block: None,
                                        },
                                        middle,
                                        after,
                                    ),
                                ),
                                Err(error) => Err(error),
                            }
                        } else {
                            Err(ParseError::Backtrack)
                        },
                        Err(error) => Err(error),
                    }
                } else {
                    Err(ParseError::Backtrack)
                },
                Err(error) => Err(error),
            },
            None => Err(ParseError::Backtrack),
        }
    }
}

/// `else` and a statement.
pub open spec fn else_part(source: Seq<char>, position: int, state: ParserStateModel) -> Stated<
    StatementModel,
>
    decreases source.len() - position, 66nat,
{
    if !within(source, position) {
        Err(ParseError::Backtrack)
    } else {
        match keyword(source, position, "else"@) {
            Some(second) => if position < second <= source.len() {
                statement(source, second, state)
            } else {
                Err(ParseError::Backtrack)
            },
            None => Err(ParseError::Backtrack),
        }
    }
}

/// The body of a loop or `switch` called `name`: the loop is entered, the
/// body is read, and the loop is left.
pub open spec fn loop_body(
    source: Seq<char>,
    position: int,
    state: ParserStateModel,
    name: Seq<char>,
    is_loop: bool,
) -> Stated<(StatementModel, Seq<char>, Seq<Case>)>
    decreases source.len() - position, 65nat,
{
    if !within(source, position) {
        Err(ParseError::Backtrack)
    } else if state.identifiers >= max_identifiers() {
        Err(ParseError::TooManyIdentifiers)
    } else {
        match statement(source, position, with_loop(state, name, is_loop)) {
            Ok((body, end, after)) => Ok(
                (
                    (body, mangled(name, state.identifiers), after.loops.last().cases),
                    end,
                    without_loop(after),
                ),
            ),
            Err(error) => Err(error),
        }
    }
}

/// `while`, a condition in parentheses, and a statement.
pub open spec fn while_statement(
    source: Seq<char>,
    position: int,
    state: ParserStateModel,
) -> Stated<
    StatementModel,
>
    decreases source.len() - position, 50nat,
{
    if !within(source, position) {
        Err(ParseError::Backtrack)
    } else {
        match keyword(source, position, "while"@) {
            Some(behind) => match open_paren(source, behind) {
                Some(inside) => match expression(source, inside, state) {
                    Ok((condition, closing)) => match close_paren(source, closing) {
                        Some(start) => if position < start <= source.len() {
                            match loop_body(source, start, state, "while"@, true) {
                                Ok(((block, id, _), end, after)) => Ok(
                                    (
                                        StatementModel::While { condition, block: Box::new(block), id },
                                        end,
                                        after,
                                    ),
                                ),
                                Err(error) => Err(error),
                            }
                        } else {
                            Err(ParseError::Backtrack)
                        },
                        None => Err(ParseError::Backtrack),
                    },
                    Err(error) => Err(error),
                },
                None => Err(ParseError::Backtrack),
            },
            None => Err(ParseError::Backtrack),
        }
    }
}

/// What stands in the parentheses of a `for` statement: perhaps a start,
/// `;`, perhaps a condition, `;`, perhaps an update.
pub open spec fn for_head(source: Seq<char>, position: int, state: ParserStateModel) -> Stated<
    (Option<ForInitModel>, Option<ExpressionModel>, Option<ExpressionModel>),
> {
    match open_paren(source, position) {
        Some(inside) => {
            let start = match for_init(source, inside, state) {
                Ok((found, end, declared)) => Ok((Some(found), end, declared)),
                Err(ParseError::Backtrack) => Ok((None, inside, state)),
                Err(error) => Err(error),
            };
            match start {
                Ok((init, first, declared)) => match semicolon(source, first) {
                    Some(second) => match optional_expression(source, second, declared) {
                        Ok((condition, third)) => match semicolon(source, third) {
                            Some(fourth) => match optional_expression(source, fourth, declared) {
                                Ok((increment, closing)) => match close_paren(source, closing) {
                                    Some(end) => Ok(((init, condition, increment), end, declared)),
                                    None => Err(ParseError::Backtrack),
                                },
                                Err(error) => Err(error),
                            },
                            None => Err(ParseError::Backtrack),
                        },
                        Err(error) => Err(error),
                    },
                    None => Err(ParseError::Backtrack),
                },
                Err(error) => Err(error),
            }
        },
        None => Err(ParseError::Backtrack),
    }
}

/// `for`, its head in parentheses, and a statement. What the head declares
/// lives in a scope of its own, which ends with the statement.
pub open spec fn for_statement(source: Seq<char>, position: int, state: ParserStateModel) -> Stated<
    StatementModel,
>
    decreases source.len() - position, 50nat,
{
    if !within(source, position) {
        Err(ParseError::Backtrack)
    } else {
        match keyword(source, position, "for"@) {
            Some(behind) => match for_head(source, behind, with_scope(state)) {
                Ok(((init, condition, increment), start, declared)) => if position < start
                    <= source.len() {
                    match loop_body(source, start, declared, "for"@, true) {
                        Ok(((block, id, _), end, after)) => Ok(
                            (
                                StatementModel::For {
                                    init,
                                    condition,
                                    increment,
                                    block: Box::new(block),
                                    id,
                                },
                                end,
                                without_scope(after),
                            ),
                        ),
                        Err(error) => Err(error),
                    }
                } else {
                    Err(ParseError::Backtrack)
                },
                Err(error) => Err(error),
            },
            None => Err(ParseError::Backtrack),
        }
    }
}

/// `switch`, a value in parentheses, and a statement. The labels that the
/// statement notes are kept with the `switch`.
pub open spec fn switch_statement(
    source: Seq<char>,
    position: int,
    state: ParserStateModel,
) -> Stated<
    StatementModel,
>
    decreases source.len() - position, 50nat,
{
    if !within(source, position) {
        Err(ParseError::Backtrack)
    } else {
        match keyword(source, position, "switch"@) {
            Some(behind) => match open_paren(source, behind) {
                Some(inside) => match expression(source, inside, state) {
                    Ok((value, closing)) => match close_paren(source, closing) {
                        Some(start) => if position < start <= source.len() {
                            match loop_body(source, start, state, "switch"@, false) {
                                Ok(((body, id, cases), end, after)) => Ok(
                                    (
                                        StatementModel::Switch {
                                            expression: value,
                                            body: Box::new(body),
                                            id,
                                            cases,
                                        },
                                        end,
                                        after,
                                    ),
                                ),
                                Err(error) => Err(error),
                            }
                        } else {
                            Err(ParseError::Backtrack)
                        },
                        None => Err(ParseError::Backtrack),
                    },
                    Err(error) => Err(error),
                },
                None => Err(ParseError::Backtrack),
            },
            None => Err(ParseError::Backtrack),
        }
    }
}

/// A scope as a statement.
pub open spec fn scope_statement(
    source: Seq<char>,
    position: int,
    state: ParserStateModel,
) -> Stated<
    StatementModel,
>
    decreases source.len() - position, 55nat,
{
    if !within(source, position) {
        Err(ParseError::Backtrack)
    } else {
        match scope(source, position, state) {
            Ok((items, end, after)) => Ok((StatementModel::Scope(items), end, after)),
            Err(error) => Err(error),
        }
    }
}

/// A scope: `{`, items, `}`. What the items declare is forgotten behind
/// the scope.
pub open spec fn scope(source: Seq<char>, position: int, state: ParserStateModel) -> Stated<
    Seq<ScopeItemModel>,
>
    decreases source.len() - position, 50nat,
{
    if !within(source, position) {
        Err(ParseError::Backtrack)
    } else {
        match open_scope(source, position) {
            Some(inside) => if position < inside <= source.len() {
                match scope_items(source, inside, with_scope(state), Seq::empty()) {
                    Ok((items, end, after)) => Ok((items, end, without_scope(after))),
                    Err(error) => Err(error),
                }
            } else {
                Err(ParseError::Backtrack)
            },
            None => Err(ParseError::Backtrack),
        }
    }
}

/// The items of a scope behind `found`, up to and with the closing `}`.
pub open spec fn scope_items(
    source: Seq<char>,
    position: int,
    state: ParserStateModel,
    found: Seq<ScopeItemModel>,
) -> Stated<Seq<ScopeItemModel>>
    decreases source.len() - position, 80nat,
{
    if !within(source, position) {
        Err(ParseError::Backtrack)
    } else {
        match close_scope(source, position) {
            Some(end) => Ok((found, end, state)),
            None => match scope_item(source, position, state) {
                Ok((item, behind, after)) => if position < behind <= source.len() {
                    scope_items(source, behind, after, found.push(item))
                } else {
                    Err(ParseError::Backtrack)
                },
                Err(error) => Err(error),
            },
        }
    }
}

/// An item of a scope: a declaration with `;`, or a label, or a statement.
pub open spec fn scope_item(source: Seq<char>, position: int, state: ParserStateModel) -> Stated<
    ScopeItemModel,
>
    decreases source.len() - position, 70nat,
{
    if !within(source, position) {
        Err(ParseError::Backtrack)
    } else {
        or_else(
            declaration_scope_item(source, position, state),
            or_else(
                match label(source, position, state) {
                    Ok((found, end, after)) => Ok((ScopeItemModel::Label(found), end, after)),
                    Err(error) => Err(error),
                },
                match statement(source, position, state) {
                    Ok((found, end, after)) => Ok((ScopeItemModel::Statement(found), end, after)),
                    Err(error) => Err(error),
                },
            ),
        )
    }
}

/// Whether the value, the place and the state that a reader returned are
/// those that the model gives.
pub open spec fn stated<T: View>(
    result: Result<(T, usize), ParseError>,
    expected: Stated<T::V>,
    after: ParserStateModel,
) -> bool {
    match result {
        Ok((value, end)) => expected == Ok::<(T::V, int, ParserStateModel), ParseError>(
            (value@, end as int, after),
        ),
        Err(error) => expected == Err::<(T::V, int, ParserStateModel), ParseError>(error),
    }
}

/// Whether as many scopes and loops are open in one state as in another.
pub open spec fn same_depth(before: ParserStateModel, after: ParserStateModel) -> bool {
    before.scopes.len() == after.scopes.len() && before.loops.len() == after.loops.len()
}

/// What a reader that may declare names keeps to: where it succeeds, it has
/// read something, and leaves as many scopes and loops open as it found;
/// where it does not match, it leaves the state as it found it.
pub open spec fn orderly<T>(
    result: Result<(T, usize), ParseError>,
    source: Seq<char>,
    position: int,
    before: ParserState,
    after: ParserState,
) -> bool {
    &&& result matches Ok((_, end)) ==> position < end <= source.len() && after.well_formed()
        && same_depth(before@, after@)
    &&& result matches Err(ParseError::Backtrack) ==> after@ == before@ && after.well_formed()
}

/// Reads `__ebreak;`.
pub fn parse_ebreak_jump(source: &str, position: usize) -> (result: Result<
    (JumpStatement, usize),
    ParseError,
>)
    requires
        source.is_ascii(),
        position <= source@.len(),
    ensures
        parsed(result, ebreak_jump(source@, position as int)),
        result matches Ok((_, end)) ==> position < end <= source@.len(),
{
    let behind = parse_keyword(source, position, "__ebreak")?;
    let end = parse_semicolon(source, behind)?;
    Ok((JumpStatement::Ebreak, end))
}

/// Reads `break;`.
pub fn parse_break_jump(source: &str, position: usize, state: &ParserState) -> (result: Result<
    (JumpStatement, usize),
    ParseError,
>)
    requires
        source.is_ascii(),
        position <= source@.len(),
    ensures
        parsed(result, break_jump(source@, position as int, state@)),
        result matches Ok((_, end)) ==> position < end <= source@.len(),
{
    let behind = parse_keyword(source, position, "break")?;
    let end = parse_semicolon(source, behind)?;
    match state.get_loop_or_switch() {
        Some(entry) => Ok((JumpStatement::Break { id: entry.id.clone() }, end)),
        None => Err(ParseError::BreakOutsideLoop),
    }
}

/// Reads `return`, perhaps an expression, and `;`.
pub fn parse_return_jump(source: &str, position: usize, state: &ParserState) -> (result: Result<
    (JumpStatement, usize),
    ParseError,
>)
    requires
        source.is_ascii(),
        position <= source@.len(),
    ensures
        parsed(result, return_jump(source@, position as int, state@)),
        result matches Ok((_, end)) ==> position < end <= source@.len(),
{
    let behind = parse_keyword(source, position, "return")?;
    let (expression, last) = parse_optional_expression(source, behind, state)?;
    let end = parse_semicolon(source, last)?;
    Ok((JumpStatement::Return { expression }, end))
}

/// Reads `continue;`.
pub fn parse_continue_jump(source: &str, position: usize, state: &ParserState) -> (result: Result<
    (JumpStatement, usize),
    ParseError,
>)
    requires
        source.is_ascii(),
        position <= source@.len(),
    ensures
        parsed(result, continue_jump(source@, position as int, state@)),
        result matches Ok((_, end)) ==> position < end <= source@.len(),
{
    let behind = parse_keyword(source, position, "continue")?;
    let end = parse_semicolon(source, behind)?;
    match state.get_loop() {
        Some(entry) => Ok((JumpStatement::Continue { id: entry.id.clone() }, end)),
        None => Err(ParseError::ContinueOutsideLoop),
    }
}

/// Reads a jump.
pub fn parse_jump_statement(source: &str, position: usize, state: &ParserState) -> (result: Result<
    (Statement, usize),
    ParseError,
>)
    requires
        source.is_ascii(),
        position <= source@.len(),
    ensures
        parsed(result, jump_statement(source@, position as int, state@)),
        result matches Ok((_, end)) ==> position < end <= source@.len(),
{
    let (jump, end) = match parse_break_jump(source, position, state) {
        Err(ParseError::Backtrack) => match parse_return_jump(source, position, state) {
            Err(ParseError::Backtrack) => match parse_continue_jump(source, position, state) {
                Err(ParseError::Backtrack) => parse_ebreak_jump(source, position)?,
                other => other?,
            },
            other => other?,
        },
        other => other?,
    };
    let found = Statement::Jump { statement: jump };
    proof {
        lemma_statement_model(found);
    }
    Ok((found, end))
}

/// Reads a full expression and `;`.
pub fn parse_expression_statement(source: &str, position: usize, state: &ParserState) -> (result:
    Result<(Statement, usize), ParseError>)
    requires
        source.is_ascii(),
        position <= source@.len(),
    ensures
        parsed(result, expression_statement(source@, position as int, state@)),
        result matches Ok((_, end)) ==> position < end <= source@.len(),
{
    let (expression, last) = parse_expression(source, position, state)?;
    let end = parse_semicolon(source, last)?;
    Ok((Statement::Expression { expression }, end))
}

/// Reads `;` alone.
pub fn parse_null_statement(source: &str, position: usize) -> (result: Result<
    (Statement, usize),
    ParseError,
>)
    requires
        source.is_ascii(),
        position <= source@.len(),
    ensures
        parsed(result, null_statement(source@, position as int)),
        result matches Ok((_, end)) ==> position < end <= source@.len(),
{
    let end = parse_semicolon(source, position)?;
    Ok((Statement::Null, end))
}

/// Reads a scope as a statement.
pub fn parse_scope_statement(source: &str, position: usize, state: &mut ParserState) -> (result:
    Result<(Statement, usize), ParseError>)
    requires
        source.is_ascii(),
        position <= source@.len(),
        old(state).well_formed(),
    ensures
        stated(result, scope_statement(source@, position as int, old(state)@), final(state)@),
        orderly(result, source@, position as int, *old(state), *final(state)),
    decreases source@.len() - position, 55nat,
{
    let (scope, end) = parse_scope(source, position, state)?;
    let found = Statement::Scope { scope };
    proof {
        lemma_statement_model(found);
    }
    Ok((found, end))
}

/// Reads the start of a `for` statement.
pub fn parse_for_init(source: &str, position: usize, state: &mut ParserState) -> (result: Result<
    (ForInit, usize),
    ParseError,
>)
    requires
        source.is_ascii(),
        position <= source@.len(),
        old(state).well_formed(),
    ensures
        stated(result, for_init(source@, position as int, old(state)@), final(state)@),
        orderly(result, source@, position as int, *old(state), *final(state)),
{
    match parse_declaration(source, position, state) {
        Ok((found, end)) => Ok((ForInit::Declaration(found), end)),
        Err(ParseError::Backtrack) => {
            let (found, end) = parse_expression(source, position, state)?;
            Ok((ForInit::Expression(found), end))
        },
        Err(error) => Err(error),
    }
}

/// Reads the body of a loop or `switch` called `name`: gives the body, the
/// identifier of the loop, and the labels that a `switch` has met.
pub fn parse_loop_body(
    source: &str,
    position: usize,
    state: &mut ParserState,
    name: &str,
    is_loop: bool,
) -> (result: Result<(Statement, String, Vec<Case>, usize), ParseError>)
    requires
        source.is_ascii(),
        position <= source@.len(),
        old(state).well_formed(),
    ensures
        match result {
            Ok((body, id, cases, end)) => loop_body(
                source@,
                position as int,
                old(state)@,
                name@,
                is_loop,
            ) == Ok::<_, ParseError>(((body@, id@, cases@), end as int, final(state)@))
                && position < end <= source@.len() && final(state).well_formed() && same_depth(
                old(state)@,
                final(state)@,
            ),
            Err(error) => loop_body(source@, position as int, old(state)@, name@, is_loop) == Err::<
                ((StatementModel, Seq<char>, Seq<Case>), int, ParserStateModel),
                ParseError,
            >(error) && (error == ParseError::Backtrack ==> final(state)@ == old(state)@
                && final(state).well_formed()),
        },
    decreases source@.len() - position, 65nat,
{
    if state.identifiers == u64::MAX {
        return Err(ParseError::TooManyIdentifiers);
    }
    let id = state.push_loop(String::from_str(name), is_loop);
    match parse_statement(source, position, state) {
        Ok((body, end)) => {
            let left = state.pop_loop();
            Ok((body, id, left.cases, end))
        },
        Err(ParseError::Backtrack) => {
            state.forget_loop();
            proof {
                lemma_forget_loop(old(state)@, name@, is_loop);
            }
            Err(ParseError::Backtrack)
        },
        Err(error) => Err(error),
    }
}

/// Reads `else` and a statement.
pub fn parse_else(source: &str, position: usize, state: &mut ParserState) -> (result: Result<
    (Statement, usize),
    ParseError,
>)
    requires
        source.is_ascii(),
        position <= source@.len(),
        old(state).well_formed(),
    ensures
        stated(result, else_part(source@, position as int, old(state)@), final(state)@),
        orderly(result, source@, position as int, *old(state), *final(state)),
    decreases source@.len() - position, 66nat,
{
    let second = parse_keyword(source, position, "else")?;
    parse_statement(source, second, state)
}

/// The `if` statement with the given parts.
pub fn make_if(
    condition: Expression,
    then_block: Statement,
    else_block: Option<Statement>,
) -> (found:
    Statement)
    ensures
        found@ == (StatementModel::If {
            condition: condition@,
            then_block: Box::new(then_block@),
            else_block: match else_block {
                Some(block) => Some(Box::new(block@)),
                None => None,
            },
        }),
{
    let found = Statement::If {
        statement: IfStatement {
            condition,
            then_block: Arc::new(then_block),
            else_block: match else_block {
                Some(block) => Some(Arc::new(block)),
                None => None,
            },
        },
    };
    proof {
        lemma_statement_model(found);
    }
    found
}

/// Reads an `if` statement.
pub fn parse_if_statement(source: &str, position: usize, state: &mut ParserState) -> (result:
    Result<(Statement, usize), ParseError>)
    requires
        source.is_ascii(),
        position <= source@.len(),
        old(state).well_formed(),
    ensures
        stated(result, if_statement(source@, position as int, old(state)@), final(state)@),
        orderly(result, source@, position as int, *old(state), *final(state)),
    decreases source@.len() - position, 50nat,
{
    let behind = parse_keyword(source, position, "if")?;
    let (condition, start) = parse_expression(source, behind, state)?;
    let (then_block, middle) = parse_statement(source, start, state)?;
    match parse_else(source, middle, state) {
        Ok((else_block, end)) => Ok((make_if(condition, then_block, Some(else_block)), end)),
        Err(ParseError::Backtrack) => Ok((make_if(condition, then_block, None), middle)),
        Err(error) => Err(error),
    }
}

/// Reads a `while` statement.
pub fn parse_while_statement(source: &str, position: usize, state: &mut ParserState) -> (result:
    Result<(Statement, usize), ParseError>)
    requires
        source.is_ascii(),
        position <= source@.len(),
        old(state).well_formed(),
    ensures
        stated(result, while_statement(source@, position as int, old(state)@), final(state)@),
        orderly(result, source@, position as int, *old(state), *final(state)),
    decreases source@.len() - position, 50nat,
{
    let behind = parse_keyword(source, position, "while")?;
    let inside = parse_open_paren(source, behind)?;
    let (condition, closing) = parse_expression(source, inside, state)?;
    let start = parse_close_paren(source, closing)?;
    let (block, id, _, end) = parse_loop_body(source, start, state, "while", true)?;
    let found = Statement::While {
        statement: WhileStatement { condition, block: Arc::new(block), id },
    };
    proof {
        lemma_statement_model(found);
    }
    Ok((found, end))
}

/// Reads what stands in the parentheses of a `for` statement.
pub fn parse_for_head(source: &str, position: usize, state: &mut ParserState) -> (result: Result<
    (Option<ForInit>, Option<Expression>, Option<Expression>, usize),
    ParseError,
>)
    requires
        source.is_ascii(),
        position <= source@.len(),
        old(state).well_formed(),
    ensures
        match result {
            Ok((init, condition, increment, end)) => for_head(
                source@,
                position as int,
                old(state)@,
            ) == Ok::<_, ParseError>(
                (
                    (
                        for_init_model(init),
                        optional_expression_model(condition),
                        optional_expression_model(increment),
                    ),
                    end as int,
                    final(state)@,
                ),
            ) && position < end <= source@.len() && final(state).well_formed() && same_depth(
                old(state)@,
                final(state)@,
            ),
            Err(error) => for_head(source@, position as int, old(state)@) == Err::<
                (
                    (Option<ForInitModel>, Option<ExpressionModel>, Option<ExpressionModel>),
                    int,
                    ParserStateModel,
                ),
                ParseError,
            >(error),
        },
{
    let inside = parse_open_paren(source, position)?;
    let (init, first) = match parse_for_init(source, inside, state) {
        Ok((found, end)) => (Some(found), end),
        Err(ParseError::Backtrack) => (None, inside),
        Err(error) => {
            return Err(error);
        },
    };
    let second = parse_semicolon(source, first)?;
    let (condition, third) = parse_optional_expression(source, second, state)?;
    let fourth = parse_semicolon(source, third)?;
    let (increment, closing) = parse_optional_expression(source, fourth, state)?;
    let end = parse_close_paren(source, closing)?;
    Ok((init, condition, increment, end))
}

/// Reads a `for` statement.
pub fn parse_for_statement(source: &str, position: usize, state: &mut ParserState) -> (result:
    Result<(Statement, usize), ParseError>)
    requires
        source.is_ascii(),
        position <= source@.len(),
        old(state).well_formed(),
    ensures
        stated(result, for_statement(source@, position as int, old(state)@), final(state)@),
        orderly(result, source@, position as int, *old(state), *final(state)),
    decreases source@.len() - position, 50nat,
{
    let behind = parse_keyword(source, position, "for")?;
    let snapshot = state.snapshot();
    state.push_scope();
    let (init, condition, increment, start) = match parse_for_head(source, behind, state) {
        Ok(found) => found,
        Err(error) => {
            *state = snapshot;
            return Err(error);
        },
    };
    let (block, id, _, end) = match parse_loop_body(source, start, state, "for", true) {
        Ok(found) => found,
        Err(error) => {
            *state = snapshot;
            return Err(error);
        },
    };
    state.pop_scope();
    let found = Statement::For {
        statement: ForStatement { init, condition, increment, block: Arc::new(block), id },
    };
    proof {
        lemma_statement_model(found);
    }
    Ok((found, end))
}

/// Reads a `switch` statement.
pub fn parse_switch_statement(source: &str, position: usize, state: &mut ParserState) -> (result:
    Result<(Statement, usize), ParseError>)
    requires
        source.is_ascii(),
        position <= source@.len(),
        old(state).well_formed(),
    ensures
        stated(result, switch_statement(source@, position as int, old(state)@), final(state)@),
        orderly(result, source@, position as int, *old(state), *final(state)),
    decreases source@.len() - position, 50nat,
{
    let behind = parse_keyword(source, position, "switch")?;
    let inside = parse_open_paren(source, behind)?;
    let (expression, closing) = parse_expression(source, inside, state)?;
    let start = parse_close_paren(source, closing)?;
    let (body, id, cases, end) = parse_loop_body(source, start, state, "switch", false)?;
    let found = Statement::Switch {
        statement: SwitchStatement { expression, body: Arc::new(body), id, cases },
    };
    proof {
        lemma_statement_model(found);
    }
    Ok((found, end))
}

/// Reads a statement.
pub fn parse_statement(source: &str, position: usize, state: &mut ParserState) -> (result: Result<
    (Statement, usize),
    ParseError,
>)
    requires
        source.is_ascii(),
        position <= source@.len(),
        old(state).well_formed(),
    ensures
        stated(result, statement(source@, position as int, old(state)@), final(state)@),
        orderly(result, source@, position as int, *old(state), *final(state)),
    decreases source@.len() - position, 60nat,
{
    match parse_jump_statement(source, position, state) {
        Err(ParseError::Backtrack) => {},
        other => {
            return other;
        },
    }
    match parse_if_statement(source, position, state) {
        Err(ParseError::Backtrack) => {},
        other => {
            return other;
        },
    }
    match parse_while_statement(source, position, state) {
        Err(ParseError::Backtrack) => {},
        other => {
            return other;
        },
    }
    match parse_for_statement(source, position, state) {
        Err(ParseError::Backtrack) => {},
        other => {
            return other;
        },
    }
    match parse_switch_statement(source, position, state) {
        Err(ParseError::Backtrack) => {},
        other => {
            return other;
        },
    }
    match parse_expression_statement(source, position, state) {
        Err(ParseError::Backtrack) => {},
        other => {
            return other;
        },
    }
    match parse_scope_statement(source, position, state) {
        Err(ParseError::Backtrack) => {},
        other => {
            return other;
        },
    }
    parse_null_statement(source, position)
}

} // verus!

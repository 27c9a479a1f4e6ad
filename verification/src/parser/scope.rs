//! Scopes, their items and their labels.
use vstd::prelude::*;
use vstd::string::*;
use crate::parser::{ParseError, ParserState, ParserStateModel};
use crate::parser::declaration::parse_declaration;
use crate::parser::expression::parse_expression;
use crate::parser::expression::fold::Fold;
use crate::parser::identifier::parse_identifier;
use crate::parser::statement::{
    declaration_scope_item, label, orderly, parse_statement, same_depth, scope, scope_item,
    scope_items, stated, statement,
};
use crate::parser::trivial_tokens::{
    parse_close_scope, parse_colon, parse_open_scope, parse_semicolon,
};
use crate::types::scope::{Label, Scope, ScopeItem};
use crate::types::statement::{items_model, Case, ScopeItemModel};
use crate::utils::text::same_text;

verus! {

/// Reads a statement as an item of a scope.
pub fn parse_statement_scope_item(
    source: &str,
    position: usize,
    state: &mut ParserState,
) -> (result:
    Result<(ScopeItem, usize), ParseError>)
    requires
        source.is_ascii(),
        position <= source@.len(),
        old(state).well_formed(),
    ensures
        stated(
            result,
            match statement(source@, position as int, old(state)@) {
                Ok((found, end, after)) => Ok((ScopeItemModel::Statement(found), end, after)),
                Err(error) => Err(error),
            },
            final(state)@,
        ),
        orderly(result, source@, position as int, *old(state), *final(state)),
    decreases source@.len() - position, 61nat,
{
    let (found, end) = parse_statement(source, position, state)?;
    Ok((ScopeItem::Statement(found), end))
}

/// Reads a declaration and `;` as an item of a scope.
pub fn parse_declaration_scope_item(
    source: &str,
    position: usize,
    state: &mut ParserState,
) -> (result:
    Result<(ScopeItem, usize), ParseError>)
    requires
        source.is_ascii(),
        position <= source@.len(),
        old(state).well_formed(),
    ensures
        stated(
            result,
            declaration_scope_item(source@, position as int, old(state)@),
            final(state)@,
        ),
        orderly(result, source@, position as int, *old(state), *final(state)),
{
    let (found, last) = parse_declaration(source, position, state)?;
    match parse_semicolon(source, last) {
        Ok(end) => Ok((ScopeItem::Declaration(found), end)),
        Err(_) => {
            state.forget_variable();
            Err(ParseError::Backtrack)
        },
    }
}

/// Reads a label.
pub fn parse_label(source: &str, position: usize, state: &mut ParserState) -> (result: Result<
    (ScopeItem, usize),
    ParseError,
>)
    requires
        source.is_ascii(),
        position <= source@.len(),
        old(state).well_formed(),
    ensures
        stated(
            result,
            match label(source@, position as int, old(state)@) {
                Ok((found, end, after)) => Ok((ScopeItemModel::Label(found), end, after)),
                Err(error) => Err(error),
            },
            final(state)@,
        ),
        orderly(result, source@, position as int, *old(state), *final(state)),
{
    let (name, behind) = parse_identifier(source, position)?;
    if same_text(name, "default") {
        let end = parse_colon(source, behind)?;
        let id = match state.get_switch() {
            Some(entry) => entry.id.clone(),
            None => {
                return Err(ParseError::CaseOutsideSwitch);
            },
        };
        state.push_case_to_switch(Case::Default);
        Ok((ScopeItem::Label(Label::Default { id }), end))
    } else if same_text(name, "case") {
        let (found, last) = parse_expression(source, behind, state)?;
        let end = parse_colon(source, last)?;
        let id = match state.get_switch() {
            Some(entry) => entry.id.clone(),
            None => {
                return Err(ParseError::CaseOutsideSwitch);
            },
        };
        match found.fold() {
            Some(value) => {
                state.push_case_to_switch(Case::Case(value));
                Ok((ScopeItem::Label(Label::Case { id, value }), end))
            },
            None => Err(ParseError::NonConstantCase),
        }
    } else {
        let end = parse_colon(source, behind)?;
        Ok((ScopeItem::Label(Label::Named(String::from_str(name))), end))
    }
}

/// Reads an item of a scope.
pub fn parse_scope_item(source: &str, position: usize, state: &mut ParserState) -> (result: Result<
    (ScopeItem, usize),
    ParseError,
>)
    requires
        source.is_ascii(),
        position <= source@.len(),
        old(state).well_formed(),
    ensures
        stated(result, scope_item(source@, position as int, old(state)@), final(state)@),
        orderly(result, source@, position as int, *old(state), *final(state)),
    decreases source@.len() - position, 70nat,
{
    match parse_declaration_scope_item(source, position, state) {
        Err(ParseError::Backtrack) => {},
        other => {
            return other;
        },
    }
    match parse_label(source, position, state) {
        Err(ParseError::Backtrack) => {},
        other => {
            return other;
        },
    }
    parse_statement_scope_item(source, position, state)
}

/// Reads the items of a scope behind `found`, up to and with the closing
/// `}`.
pub fn parse_scope_items(
    source: &str,
    position: usize,
    state: &mut ParserState,
    found: Vec<ScopeItem>,
) -> (result: Result<(Vec<ScopeItem>, usize), ParseError>)
    requires
        source.is_ascii(),
        position <= source@.len(),
        old(state).well_formed(),
    ensures
        match result {
            Ok((items, end)) => scope_items(
                source@,
                position as int,
                old(state)@,
                items_model(found@),
            ) == Ok::<_, ParseError>((items_model(items@), end as int, final(state)@))
                && position < end <= source@.len() && final(state).well_formed() && same_depth(
                old(state)@,
                final(state)@,
            ),
            Err(error) => scope_items(source@, position as int, old(state)@, items_model(found@))
                == Err::<(Seq<ScopeItemModel>, int, ParserStateModel), ParseError>(error),
        },
    decreases source@.len() - position, 80nat,
{
    match parse_close_scope(source, position) {
        Ok(end) => {
            return Ok((found, end));
        },
        Err(_) => {},
    }
    let (item, behind) = parse_scope_item(source, position, state)?;
    let mut found = found;
    let ghost before = items_model(found@);
    found.push(item);
    assert(items_model(found@) =~= before.push(item@));
    parse_scope_items(source, behind, state, found)
}

/// Reads a scope.
pub fn parse_scope(source: &str, position: usize, state: &mut ParserState) -> (result: Result<
    (Scope, usize),
    ParseError,
>)
    requires
        source.is_ascii(),
        position <= source@.len(),
        old(state).well_formed(),
    ensures
        stated(result, scope(source@, position as int, old(state)@), final(state)@),
        orderly(result, source@, position as int, *old(state), *final(state)),
    decreases source@.len() - position, 50nat,
{
    let inside = parse_open_scope(source, position)?;
    let snapshot = state.snapshot();
    state.push_scope();
    let found: Vec<ScopeItem> = Vec::new();
    assert(items_model(found@) =~= Seq::empty());
    match parse_scope_items(source, inside, state, found) {
        Ok((items, end)) => {
            state.pop_scope();
            Ok((Scope { items }, end))
        },
        Err(error) => {
            *state = snapshot;
            Err(error)
        },
    }
}

} // verus!

//! The numbers of the unique names: the parser never hands a number out
//! twice.
use vstd::prelude::*;
use crate::parser::{
    variable_symbol, with_function, with_loop, with_scope, with_variable, ParserStateModel,
    SymbolModel,
};
use crate::parser::datatype::primitive_datatype;
use crate::parser::declaration::declarator;
use crate::parser::expression::expression;
use crate::parser::function_definition::{top_level, with_arguments};
use crate::parser::identifier::keyword;
use crate::parser::program::program_items;
use crate::parser::statement::{
    declaration, declaration_scope_item, else_part, for_head, for_init, for_statement,
    if_statement, label, loop_body, scope, scope_item, scope_items, scope_statement, statement,
    switch_statement, while_statement,
};
use crate::parser::trivial_tokens::{close_paren, close_scope, open_paren, open_scope, semicolon};
use crate::parser::whitespace::skip_whitespace;
use crate::types::datatype::{ArgumentModel, DatatypeModel};
use crate::types::program::ProgramStatementModel;
use crate::types::statement::ScopeItemModel;
use crate::utils::random_name::lemma_mangled_distinct;

verus! {

/// A variable that is declared gets the unique name of the next number,
/// and the number moves up by one: the variable declared next gets another
/// name.
pub proof fn lemma_declared_names_differ(
    state: ParserStateModel,
    first: Seq<char>,
    second: Seq<char>,
    datatype: DatatypeModel,
)
    ensures
        with_variable(state, first, datatype).identifiers == state.identifiers + 1,
        variable_symbol(state, first, datatype) matches SymbolModel::Variable(earlier) && variable_symbol(
            with_variable(state, first, datatype),
            second,
            datatype,
        ) matches SymbolModel::Variable(later) && earlier.unique_name != later.unique_name,
{
    lemma_mangled_distinct(first, state.identifiers, second, state.identifiers + 1);
}

/// A loop that is entered gets the identifier of the next number, and the
/// number moves up by one.
pub proof fn lemma_loop_names_differ(
    state: ParserStateModel,
    first: Seq<char>,
    second: Seq<char>,
    is_loop: bool,
)
    ensures
        with_loop(state, first, is_loop).identifiers == state.identifiers + 1,
        with_loop(state, first, is_loop).loops.last().id != with_loop(
            with_loop(state, first, is_loop),
            second,
            is_loop,
        ).loops.last().id,
{
    lemma_mangled_distinct(first, state.identifiers, second, state.identifiers + 1);
}

/// The number of the next unique name never goes down in a declaration.
pub proof fn lemma_declaration_counts(source: Seq<char>, position: int, state: ParserStateModel)
    ensures
        declaration(source, position, state) matches Ok((_, _, after)) ==> after.identifiers
            >= state.identifiers,
        declaration_scope_item(source, position, state) matches Ok((_, _, after))
            ==> after.identifiers >= state.identifiers,
        for_init(source, position, state) matches Ok((_, _, after)) ==> after.identifiers
            >= state.identifiers,
        for_head(source, position, state) matches Ok((_, _, after)) ==> after.identifiers
            >= state.identifiers,
        label(source, position, state) matches Ok((_, _, after)) ==> after.identifiers
            >= state.identifiers,
{
    match open_paren(source, position) {
        Some(inside) => {
            lemma_for_init_counts(source, inside, state);
        },
        None => {},
    }
}

/// The number of the next unique name never goes down in the start of a
/// `for` statement.
pub proof fn lemma_for_init_counts(source: Seq<char>, position: int, state: ParserStateModel)
    ensures
        for_init(source, position, state) matches Ok((_, _, after)) ==> after.identifiers
            >= state.identifiers,
{
}

/// The number of the next unique name never goes down in a statement.
pub proof fn lemma_statement_counts(source: Seq<char>, position: int, state: ParserStateModel)
    ensures
        statement(source, position, state) matches Ok((_, _, after)) ==> after.identifiers
            >= state.identifiers,
    decreases source.len() - position, 60nat,
{
    if 0 <= position <= source.len() {
        lemma_if_counts(source, position, state);
        lemma_while_counts(source, position, state);
        lemma_for_counts(source, position, state);
        lemma_switch_counts(source, position, state);
        lemma_scope_statement_counts(source, position, state);
    }
}

/// The number of the next unique name never goes down in an `if`
/// statement.
pub proof fn lemma_if_counts(source: Seq<char>, position: int, state: ParserStateModel)
    ensures
        if_statement(source, position, state) matches Ok((_, _, after)) ==> after.identifiers
            >= state.identifiers,
    decreases source.len() - position, 50nat,
{
    if 0 <= position <= source.len() {
        match keyword(source, position, "if"@) {
            Some(behind) => match expression(source, behind, state) {
                Ok((_, start)) => if position < start <= source.len() {
                    lemma_statement_counts(source, start, state);
                    match statement(source, start, state) {
                        Ok((_, middle, after)) => if start <= middle <= source.len() {
                            lemma_else_counts(source, middle, after);
                        },
                        Err(_) => {},
                    }
                },
                Err(_) => {},
            },
            None => {},
        }
    }
}

/// The number of the next unique name never goes down in an `else` part.
pub proof fn lemma_else_counts(source: Seq<char>, position: int, state: ParserStateModel)
    ensures
        else_part(source, position, state) matches Ok((_, _, after)) ==> after.identifiers
            >= state.identifiers,
    decreases source.len() - position, 66nat,
{
    if 0 <= position <= source.len() {
        match keyword(source, position, "else"@) {
            Some(second) => if position < second <= source.len() {
                lemma_statement_counts(source, second, state);
            },
            None => {},
        }
    }
}

/// The number of the next unique name never goes down in the body of a
/// loop.
pub proof fn lemma_loop_body_counts(
    source: Seq<char>,
    position: int,
    state: ParserStateModel,
    name: Seq<char>,
    is_loop: bool,
)
    ensures
        loop_body(source, position, state, name, is_loop) matches Ok((_, _, after))
            ==> after.identifiers >= state.identifiers,
    decreases source.len() - position, 65nat,
{
    if 0 <= position <= source.len() {
        lemma_statement_counts(source, position, with_loop(state, name, is_loop));
    }
}

/// The number of the next unique name never goes down in a `while`
/// statement.
pub proof fn lemma_while_counts(source: Seq<char>, position: int, state: ParserStateModel)
    ensures
        while_statement(source, position, state) matches Ok((_, _, after)) ==> after.identifiers
            >= state.identifiers,
    decreases source.len() - position, 50nat,
{
    if while_statement(source, position, state) is Ok {
        let behind = keyword(source, position, "while"@).unwrap();
        let inside = open_paren(source, behind).unwrap();
        let closing = expression(source, inside, state).unwrap().1;
        let start = close_paren(source, closing).unwrap();
        lemma_loop_body_counts(source, start, state, "while"@, true);
    }
}

/// The number of the next unique name never goes down in a `switch`
/// statement.
pub proof fn lemma_switch_counts(source: Seq<char>, position: int, state: ParserStateModel)
    ensures
        switch_statement(source, position, state) matches Ok((_, _, after)) ==> after.identifiers
            >= state.identifiers,
    decreases source.len() - position, 50nat,
{
    if switch_statement(source, position, state) is Ok {
        let behind = keyword(source, position, "switch"@).unwrap();
        let inside = open_paren(source, behind).unwrap();
        let closing = expression(source, inside, state).unwrap().1;
        let start = close_paren(source, closing).unwrap();
        lemma_loop_body_counts(source, start, state, "switch"@, false);
    }
}

/// The number of the next unique name never goes down in a `for`
/// statement.
pub proof fn lemma_for_counts(source: Seq<char>, position: int, state: ParserStateModel)
    ensures
        for_statement(source, position, state) matches Ok((_, _, after)) ==> after.identifiers
            >= state.identifiers,
    decreases source.len() - position, 50nat,
{
    if for_statement(source, position, state) is Ok {
        let behind = keyword(source, position, "for"@).unwrap();
        let opened = with_scope(state);
        lemma_declaration_counts(source, behind, opened);
        let head = for_head(source, behind, opened).unwrap();
        lemma_loop_body_counts(source, head.1, head.2, "for"@, true);
    }
}

/// The number of the next unique name never goes down in a scope.
pub proof fn lemma_scope_statement_counts(source: Seq<char>, position: int, state: ParserStateModel)
    ensures
        scope_statement(source, position, state) matches Ok((_, _, after)) ==> after.identifiers
            >= state.identifiers,
    decreases source.len() - position, 55nat,
{
    if 0 <= position <= source.len() {
        lemma_scope_counts(source, position, state);
    }
}

/// The number of the next unique name never goes down in a scope.
pub proof fn lemma_scope_counts(source: Seq<char>, position: int, state: ParserStateModel)
    ensures
        scope(source, position, state) matches Ok((_, _, after)) ==> after.identifiers
            >= state.identifiers,
    decreases source.len() - position, 50nat,
{
    if 0 <= position <= source.len() {
        match open_scope(source, position) {
            Some(inside) => if position < inside <= source.len() {
                lemma_scope_items_counts(
                    source,
                    inside,
                    with_scope(state),
                    Seq::empty(),
                );
            },
            None => {},
        }
    }
}

/// The number of the next unique name never goes down in the items of a
/// scope.
pub proof fn lemma_scope_items_counts(
    source: Seq<char>,
    position: int,
    state: ParserStateModel,
    found: Seq<ScopeItemModel>,
)
    ensures
        scope_items(source, position, state, found) matches Ok((_, _, after))
            ==> after.identifiers >= state.identifiers,
    decreases source.len() - position, 80nat,
{
    if 0 <= position <= source.len() {
        if close_scope(source, position) is None {
            lemma_scope_item_counts(source, position, state);
            match scope_item(source, position, state) {
                Ok((item, behind, after)) => if position < behind <= source.len() {
                    lemma_scope_items_counts(source, behind, after, found.push(item));
                },
                Err(_) => {},
            }
        }
    }
}

/// The number of the next unique name never goes down in an item of a
/// scope.
pub proof fn lemma_scope_item_counts(source: Seq<char>, position: int, state: ParserStateModel)
    ensures
        scope_item(source, position, state) matches Ok((_, _, after)) ==> after.identifiers
            >= state.identifiers,
    decreases source.len() - position, 70nat,
{
    if 0 <= position <= source.len() {
        lemma_declaration_counts(source, position, state);
        lemma_statement_counts(source, position, state);
    }
}

/// Making the parameters of a function known moves the number of the next
/// unique name up by one for each.
pub proof fn lemma_arguments_count(
    state: ParserStateModel,
    arguments: Seq<ArgumentModel>,
    count: int,
)
    requires
        0 <= count,
    ensures
        with_arguments(state, arguments, count).identifiers == state.identifiers + count,
    decreases count,
{
    if count > 0 {
        lemma_arguments_count(state, arguments, count - 1);
    }
}

/// The number of the next unique name never goes down in an item at the
/// top of a program.
pub proof fn lemma_top_level_counts(source: Seq<char>, position: int, state: ParserStateModel)
    ensures
        top_level(source, position, state) matches Ok((_, _, after)) ==> after.identifiers
            >= state.identifiers,
{
    if top_level(source, position, state) is Ok {
        let behind = primitive_datatype(source, position).unwrap();
        let found = declarator(
            source,
            behind,
            DatatypeModel::Int,
        ).unwrap();
        match found.0.datatype {
            DatatypeModel::Function { return_type, arguments } => {
                if semicolon(source, found.1) is None {
                    let entered = with_arguments(
                        with_scope(
                            with_function(
                                state,
                                found.0.name,
                                arguments,
                                *return_type,
                            ),
                        ),
                        arguments,
                        arguments.len() as int,
                    );
                    lemma_arguments_count(
                        with_scope(
                            with_function(
                                state,
                                found.0.name,
                                arguments,
                                *return_type,
                            ),
                        ),
                        arguments,
                        arguments.len() as int,
                    );
                    lemma_scope_counts(source, found.1, entered);
                }
            },
            _ => {},
        }
    }
}

/// The number of the next unique name never goes down while a program is
/// parsed.
pub proof fn lemma_program_counts(
    source: Seq<char>,
    position: int,
    state: ParserStateModel,
    found: Seq<ProgramStatementModel>,
)
    ensures
        program_items(source, position, state, found) matches Ok((_, _, after))
            ==> after.identifiers >= state.identifiers,
    decreases source.len() - position,
{
    if 0 <= position <= source.len() && skip_whitespace(
        source,
        position,
    ) < source.len() {
        lemma_top_level_counts(source, position, state);
        match top_level(source, position, state) {
            Ok((item, behind, after)) => if position < behind <= source.len() {
                lemma_program_counts(source, behind, after, found.push(item));
            },
            Err(_) => {},
        }
    }
}

} // verus!

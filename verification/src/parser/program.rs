//! A program: its functions, one after the other.
use vstd::prelude::*;
use vstd::string::*;
use crate::parser::{ParseError, ParserState, ParserStateModel};
use crate::parser::declaration::within;
use crate::parser::function_definition::{parse_function_definition, top_level};
use crate::parser::statement::Stated;
use crate::parser::whitespace::{length, parse_whitespace, skip_whitespace};
use crate::types::program::{ProgramStatement, ProgramStatementModel};

verus! {

/// The models of the items of a program, in order.
pub open spec fn statements_model(statements: Seq<ProgramStatement>) -> Seq<ProgramStatementModel> {
    Seq::new(statements.len(), |i: int| statements[i]@)
}

/// The items of a program behind `found`, up to the end of the source,
/// where only whitespace may be left.
pub open spec fn program_items(
    source: Seq<char>,
    position: int,
    state: ParserStateModel,
    found: Seq<ProgramStatementModel>,
) -> Stated<Seq<ProgramStatementModel>>
    decreases source.len() - position,
{
    if !within(source, position) {
        Err(ParseError::Backtrack)
    } else if skip_whitespace(source, position) >= source.len() {
        Ok((found, skip_whitespace(source, position), state))
    } else {
        match top_level(source, position, state) {
            Ok((item, behind, after)) => if position < behind <= source.len() {
                program_items(source, behind, after, found.push(item))
            } else {
                Err(ParseError::Backtrack)
            },
            Err(error) => Err(error),
        }
    }
}

/// Reads the items of a program behind `found`, up to the end of the
/// source.
pub fn parse_program(
    source: &str,
    position: usize,
    state: &mut ParserState,
    found: Vec<ProgramStatement>,
) -> (result: Result<Vec<ProgramStatement>, ParseError>)
    requires
        source.is_ascii(),
        position <= source@.len(),
        old(state).well_formed(),
    ensures
        match result {
            Ok(items) => program_items(
                source@,
                position as int,
                old(state)@,
                statements_model(found@),
            ) matches Ok(
                (read, _, after),
            ) && read == statements_model(items@) && after == final(state)@,
            Err(error) => program_items(
                source@,
                position as int,
                old(state)@,
                statements_model(found@),
            ) matches Err(reason) && reason == error,
        },
    decreases source@.len() - position,
{
    if parse_whitespace(source, position) >= length(source) {
        return Ok(found);
    }
    let (item, behind) = parse_function_definition(source, position, state)?;
    let mut found = found;
    let ghost before = statements_model(found@);
    found.push(item);
    assert(statements_model(found@) =~= before.push(item@));
    parse_program(source, behind, state, found)
}

} // verus!

//! The names of the types.
use vstd::prelude::*;
use crate::parser::ParseError;
use crate::parser::identifier::{keyword, parse_keyword};
use crate::types::datatype::Datatype;

verus! {

/// The place behind the name of a primitive type at `position`. The only
/// primitive type is `int`.
pub open spec fn primitive_datatype(source: Seq<char>, position: int) -> Option<int> {
    keyword(source, position, "int"@)
}

/// Reads the name of a primitive type.
pub fn parse_primitive_datatype(source: &str, position: usize) -> (result: Result<
    (Datatype, usize),
    ParseError,
>)
    requires
        source.is_ascii(),
        position <= source@.len(),
    ensures
        match result {
            Ok((datatype, end)) => primitive_datatype(source@, position as int) == Some(end as int)
                && datatype == Datatype::Int && position < end <= source@.len(),
            Err(error) => error == ParseError::Backtrack && primitive_datatype(
                source@,
                position as int,
            ) is None,
        },
{
    match parse_keyword(source, position, "int") {
        Ok(end) => Ok((Datatype::Int, end)),
        Err(error) => Err(error),
    }
}

/// Reads the name of a type.
pub fn parse_datatype(
    source: &str,
    position: usize,
) -> (result: Result<(Datatype, usize), ParseError>)
    requires
        source.is_ascii(),
        position <= source@.len(),
    ensures
        match result {
            Ok((datatype, end)) => primitive_datatype(source@, position as int) == Some(end as int)
                && datatype == Datatype::Int && position < end <= source@.len(),
            Err(error) => error == ParseError::Backtrack && primitive_datatype(
                source@,
                position as int,
            ) is None,
        },
{
    parse_primitive_datatype(source, position)
}

} // verus!

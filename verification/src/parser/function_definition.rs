//! The functions at the top of a program.
use vstd::prelude::*;
use vstd::string::*;
use crate::parser::{
    counted, find_static, with_function, with_scope, with_static, with_symbol, without_scope,
    ParseError, ParserState, ParserStateModel, ParserStaticSymbol, ParserSymbol, ParserVariable,
    StaticSymbolModel, SymbolModel, VariableModel,
};
use crate::parser::datatype::{parse_primitive_datatype, primitive_datatype};
use crate::parser::declaration::{declarator, parse_declarator};
use crate::parser::scope::parse_scope;
use crate::parser::statement::{max_identifiers, same_depth, scope, stated, Stated};
use crate::parser::trivial_tokens::{parse_semicolon, semicolon};
use crate::types::datatype::{
    arguments_model, clone_arguments, lemma_function_model, Argument, ArgumentModel, Datatype,
    DatatypeModel,
};
use crate::types::function_definition::{
    FunctionArgument, FunctionArgumentModel, FunctionArgumentOptionalName, FunctionDeclaration,
    FunctionDeclarationModel, FunctionDefinition, FunctionDefinitionModel, OptionalArgumentModel,
};
use crate::types::program::{ProgramStatement, ProgramStatementModel};
use crate::utils::random_name::{mangled, unique_identifier};

verus! {

/// Whether a text occurs twice in a list of texts.
pub open spec fn has_duplicates(names: Seq<Seq<char>>) -> bool {
    exists|i: int, j: int| 0 <= i < j < names.len() && names[i] == names[j]
}

/// The texts of a list of strings.
pub open spec fn names_of(names: Seq<String>) -> Seq<Seq<char>> {
    Seq::new(names.len(), |i: int| names[i]@)
}

/// Whether a name occurs twice in a list of names.
pub fn duplicate_checker(input: &Vec<String>) -> (duplicate: bool)
    ensures
        duplicate == has_duplicates(names_of(input@)),
{
    let mut j: usize = 0;
    while j < input.len()
        invariant
            j <= input.len(),
            forall|a: int, b: int| 0 <= a < b < j ==> input@[a]@ != input@[b]@,
        decreases input.len() - j,
    {
        let mut i: usize = 0;
        while i < j
            invariant
                i <= j < input.len(),
                forall|a: int| 0 <= a < i ==> input@[a]@ != input@[j as int]@,
            decreases j - i,
        {
            if input[i] == input[j] {
                assert(names_of(input@)[i as int] == names_of(input@)[j as int]);
                return true;
            }
            i = i + 1;
        }
        j = j + 1;
    }
    assert forall|a: int, b: int| 0 <= a < b < names_of(input@).len() implies names_of(input@)[a]
        != names_of(input@)[b] by {
        assert(input@[a]@ != input@[b]@);
    }
    false
}

/// The names of the parameters that have one.
pub open spec fn parameter_names(arguments: Seq<ArgumentModel>, count: int) -> Seq<Seq<char>>
    decreases count,
{
    if count <= 0 {
        Seq::empty()
    } else if arguments[count - 1].name.len() == 0 {
        parameter_names(arguments, count - 1)
    } else {
        parameter_names(arguments, count - 1).push(arguments[count - 1].name)
    }
}

/// Whether two parameters have the same name.
pub open spec fn duplicate_parameters(arguments: Seq<ArgumentModel>) -> bool {
    has_duplicates(parameter_names(arguments, arguments.len() as int))
}

/// Whether a parameter has no name.
pub open spec fn unnamed_parameter(arguments: Seq<ArgumentModel>) -> bool {
    exists|i: int| 0 <= i < arguments.len() && (#[trigger] arguments[i]).name.len() == 0
}

/// Whether two lists of parameters have the same types in the same order.
pub open spec fn same_parameter_types(left: Seq<ArgumentModel>, right: Seq<ArgumentModel>) -> bool {
    &&& left.len() == right.len()
    &&& forall|i: int| 0 <= i < left.len() ==> (#[trigger] left[i]).datatype == right[i].datatype
}

/// Whether two function types have the same signature: the same type of
/// result, and parameters of the same types in the same order. The names of
/// the parameters do not count.
pub open spec fn same_signature(left: DatatypeModel, right: DatatypeModel) -> bool {
    match (left, right) {
        (
            DatatypeModel::Function { return_type: left_result, arguments: left_arguments },
            DatatypeModel::Function { return_type: right_result, arguments: right_arguments },
        ) => left_result == right_result && same_parameter_types(left_arguments, right_arguments),
        _ => false,
    }
}

/// Whether a function of the given name is known with another signature.
pub open spec fn mismatch(
    state: ParserStateModel,
    name: Seq<char>,
    datatype: DatatypeModel,
) -> bool {
    match find_static(state.static_symbols, name, 0) {
        Some(known) => !same_signature(known.datatype, datatype),
        None => false,
    }
}

/// The parameters of a declared function: a parameter without a name has
/// none.
pub open spec fn optional_arguments(arguments: Seq<ArgumentModel>) -> Seq<OptionalArgumentModel> {
    Seq::new(
        arguments.len(),
        |i: int|
            OptionalArgumentModel {
                name: if arguments[i].name.len() == 0 {
                    None
                } else {
                    Some(arguments[i].name)
                },
                datatype: arguments[i].datatype,
            },
    )
}

/// The parameters of a function with a body: each gets a unique name, the
/// first one that of request number `first`.
pub open spec fn function_arguments(arguments: Seq<ArgumentModel>, first: nat) -> Seq<
    FunctionArgumentModel,
> {
    Seq::new(
        arguments.len(),
        |i: int|
            FunctionArgumentModel {
                name: arguments[i].name,
                unique_name: mangled(arguments[i].name, (first + i) as nat),
                datatype: arguments[i].datatype,
            },
    )
}

/// The state after the first `count` parameters of a function were made
/// known in the innermost scope, each under its unique name.
pub open spec fn with_arguments(
    state: ParserStateModel,
    arguments: Seq<ArgumentModel>,
    count: int,
) -> ParserStateModel
    decreases count,
{
    if count <= 0 {
        state
    } else {
        let before = with_arguments(state, arguments, count - 1);
        counted(
            with_symbol(
                before,
                SymbolModel::Argument(
                    VariableModel {
                        name: arguments[count - 1].name,
                        unique_name: mangled(arguments[count - 1].name, before.identifiers),
                        datatype: arguments[count - 1].datatype,
                    },
                ),
            ),
        )
    }
}

/// A function with a body, behind its declarator: every parameter must
/// have a name. The function is known in its own body. The parameters live
/// in a scope of their own around the body.
pub open spec fn definition(
    source: Seq<char>,
    position: int,
    state: ParserStateModel,
    name: Seq<char>,
    result: DatatypeModel,
    arguments: Seq<ArgumentModel>,
) -> Stated<FunctionDefinitionModel> {
    if unnamed_parameter(arguments) {
        Err(ParseError::Backtrack)
    } else if state.identifiers + arguments.len() > max_identifiers() {
        Err(ParseError::TooManyIdentifiers)
    } else {
        let entered = with_arguments(
            with_scope(with_function(state, name, arguments, result)),
            arguments,
            arguments.len() as int,
        );
        match scope(source, position, entered) {
            Ok((body, end, after)) => Ok(
                (
                    FunctionDefinitionModel {
                        name,
                        arguments: function_arguments(arguments, state.identifiers),
                        return_type: result,
                        body,
                        symbols: after.function_scope,
                    },
                    end,
                    without_scope(after),
                ),
            ),
            Err(error) => Err(error),
        }
    }
}

/// An item at the top of a program: a primitive type and a declarator of a
/// function, and then `;` for a declaration or a scope for a definition.
/// Two parameters with one name end the parse, and so does a function that
/// is known with another signature.
pub open spec fn top_level(source: Seq<char>, position: int, state: ParserStateModel) -> Stated<
    ProgramStatementModel,
> {
    match primitive_datatype(source, position) {
        Some(behind) => match declarator(source, behind, DatatypeModel::Int) {
            Ok((found, start)) => match found.datatype {
                DatatypeModel::Function { return_type, arguments } => if duplicate_parameters(
                    arguments,
                ) {
                    Err(ParseError::DuplicateParameterNames)
                } else if mismatch(state, found.name, found.datatype) {
                    Err(ParseError::SignatureMismatch)
                } else {
                    match semicolon(source, start) {
                        Some(end) => Ok(
                            (
                                ProgramStatementModel::FunctionDeclaration(
                                    FunctionDeclarationModel {
                                        name: found.name,
                                        arguments: optional_arguments(arguments),
                                        return_type: *return_type,
                                    },
                                ),
                                end,
                                if find_static(state.static_symbols, found.name, 0) is None {
                                    with_static(
                                        state,
                                        StaticSymbolModel {
                                            name: found.name,
                                            datatype: found.datatype,
                                        },
                                    )
                                } else {
                                    state
                                },
                            ),
                        ),
                        None => match definition(
                            source,
                            start,
                            state,
                            found.name,
                            *return_type,
                            arguments,
                        ) {
                            Ok((function, end, after)) => Ok(
                                (ProgramStatementModel::FunctionDefinition(function), end, after),
                            ),
                            Err(error) => Err(error),
                        },
                    }
                },
                _ => Err(ParseError::Backtrack),
            },
            Err(error) => Err(error),
        },
        None => Err(ParseError::Backtrack),
    }
}

/// The names of the parameters that have one.
fn named_parameters(arguments: &Vec<Argument>) -> (names: Vec<String>)
    ensures
        names_of(names@) == parameter_names(arguments_model(arguments@), arguments@.len() as int),
{
    let mut names: Vec<String> = Vec::new();
    assert(names_of(names@) =~= Seq::empty());
    let mut i: usize = 0;
    while i < arguments.len()
        invariant
            i <= arguments.len(),
            names_of(names@) == parameter_names(arguments_model(arguments@), i as int),
        decreases arguments.len() - i,
    {
        let ghost before = names_of(names@);
        if arguments[i].name.as_str().unicode_len() != 0 {
            names.push(arguments[i].name.clone());
            assert(names_of(names@) =~= before.push(arguments@[i as int].name@));
        }
        i = i + 1;
    }
    names
}

/// Whether a parameter has no name.
fn has_unnamed_parameter(arguments: &Vec<Argument>) -> (unnamed: bool)
    ensures
        unnamed == unnamed_parameter(arguments_model(arguments@)),
{
    let mut i: usize = 0;
    while i < arguments.len()
        invariant
            i <= arguments.len(),
            forall|j: int| 0 <= j < i
                ==> (#[trigger] arguments_model(arguments@)[j]).name.len() != 0,
        decreases arguments.len() - i,
    {
        if arguments[i].name.as_str().unicode_len() == 0 {
            assert(arguments_model(arguments@)[i as int].name.len() == 0);
            return true;
        }
        i = i + 1;
    }
    false
}

/// Whether two lists of parameters have the same types in the same order.
fn parameter_types_match(left: &Vec<Argument>, right: &Vec<Argument>) -> (same: bool)
    ensures
        same == same_parameter_types(arguments_model(left@), arguments_model(right@)),
{
    if left.len() != right.len() {
        return false;
    }
    let mut i: usize = 0;
    while i < left.len()
        invariant
            i <= left.len(),
            left.len() == right.len(),
            forall|j: int|
                0 <= j < i ==> (#[trigger] arguments_model(left@)[j]).datatype == arguments_model(
                    right@,
                )[j].datatype,
        decreases left.len() - i,
    {
        if !left[i].datatype.equals(&right[i].datatype) {
            assert(arguments_model(left@)[i as int].datatype != arguments_model(
                right@,
            )[i as int].datatype);
            return false;
        }
        i = i + 1;
    }
    true
}

/// Whether two function types have the same signature.
pub fn signatures_match(left: &Datatype, right: &Datatype) -> (same: bool)
    ensures
        same == same_signature(left@, right@),
{
    proof {
        lemma_function_model(*left);
        lemma_function_model(*right);
    }
    match (left, right) {
        (
            Datatype::Function { return_type: left_result, arguments: left_arguments },
            Datatype::Function { return_type: right_result, arguments: right_arguments },
        ) => left_result.equals(right_result) && parameter_types_match(
            left_arguments,
            right_arguments,
        ),
        _ => false,
    }
}

/// The parameters of a declared function.
fn optional_names(arguments: &Vec<Argument>) -> (named: Vec<FunctionArgumentOptionalName>)
    ensures
        Seq::new(named@.len(), |i: int| named@[i]@) == optional_arguments(
            arguments_model(arguments@),
        ),
{
    let mut named: Vec<FunctionArgumentOptionalName> = Vec::new();
    let mut i: usize = 0;
    while i < arguments.len()
        invariant
            i <= arguments.len(),
            named@.len() == i,
            forall|j: int|
                0 <= j < i ==> (#[trigger] named@[j])@ == optional_arguments(
                    arguments_model(arguments@),
                )[j],
        decreases arguments.len() - i,
    {
        let name = if arguments[i].name.as_str().unicode_len() == 0 {
            None
        } else {
            Some(arguments[i].name.clone())
        };
        named.push(
            FunctionArgumentOptionalName { name, datatype: (*arguments[i].datatype).clone() },
        );
        i = i + 1;
    }
    assert(Seq::new(named@.len(), |i: int| named@[i]@) =~= optional_arguments(
        arguments_model(arguments@),
    ));
    named
}

/// Makes the parameters of a function known in the innermost scope, each
/// under its unique name, and returns them.
fn enter_arguments(arguments: &Vec<Argument>, state: &mut ParserState) -> (entered: Vec<
    FunctionArgument,
>)
    requires
        old(state).well_formed(),
        old(state).identifiers + arguments@.len() <= u64::MAX,
    ensures
        final(state).well_formed(),
        final(state)@ == with_arguments(
            old(state)@,
            arguments_model(arguments@),
            arguments@.len() as int,
        ),
        Seq::new(entered@.len(), |i: int| entered@[i]@) == function_arguments(
            arguments_model(arguments@),
            old(state)@.identifiers,
        ),
        final(state)@.scopes.len() == old(state)@.scopes.len(),
        final(state)@.loops.len() == old(state)@.loops.len(),
{
    let mut entered: Vec<FunctionArgument> = Vec::new();
    let mut i: usize = 0;
    while i < arguments.len()
        invariant
            i <= arguments.len(),
            state.well_formed(),
            old(state).identifiers + arguments@.len() <= u64::MAX,
            state.identifiers == old(state).identifiers + i,
            state@ == with_arguments(old(state)@, arguments_model(arguments@), i as int),
            state@.scopes.len() == old(state)@.scopes.len(),
            state@.loops.len() == old(state)@.loops.len(),
            entered@.len() == i,
            forall|j: int|
                0 <= j < i ==> (#[trigger] entered@[j])@ == function_arguments(
                    arguments_model(arguments@),
                    old(state)@.identifiers,
                )[j],
        decreases arguments.len() - i,
    {
        let argument = &arguments[i];
        let unique_name = unique_identifier(argument.name.as_str(), state.identifiers);
        let datatype = (*argument.datatype).clone();
        state.add_argument(
            ParserSymbol::Argument(
                ParserVariable {
                    name: argument.name.clone(),
                    unique_name: unique_name.clone(),
                    datatype: datatype.clone(),
                },
            ),
        );
        state.identifiers = state.identifiers + 1;
        entered.push(FunctionArgument { name: argument.name.clone(), unique_name, datatype });
        i = i + 1;
    }
    assert(Seq::new(entered@.len(), |i: int| entered@[i]@) =~= function_arguments(
        arguments_model(arguments@),
        old(state)@.identifiers,
    ));
    entered
}

/// Reads the body of a function behind its declarator.
pub fn parse_function_body(
    source: &str,
    position: usize,
    state: &mut ParserState,
    name: String,
    return_type: Datatype,
    arguments: Vec<Argument>,
) -> (result: Result<(FunctionDefinition, usize), ParseError>)
    requires
        source.is_ascii(),
        position <= source@.len(),
        old(state).well_formed(),
    ensures
        stated(
            result,
            definition(
                source@,
                position as int,
                old(state)@,
                name@,
                return_type@,
                arguments_model(arguments@),
            ),
            final(state)@,
        ),
        result matches Ok((_, end))
            ==> position < end <= source@.len()
                && final(state).well_formed()
                && same_depth(old(state)@, final(state)@),
{
    if has_unnamed_parameter(&arguments) {
        return Err(ParseError::Backtrack);
    }
    if arguments.len() as u64 > u64::MAX - state.identifiers {
        return Err(ParseError::TooManyIdentifiers);
    }
    state.start_function_scope(name.clone(), clone_arguments(&arguments), return_type.clone());
    state.push_scope();
    let entered = enter_arguments(&arguments, state);
    let (body, end) = parse_scope(source, position, state)?;
    let scope_state = state.function_scope.clone();
    state.pop_scope();
    Ok((FunctionDefinition { name, arguments: entered, return_type, body, scope_state }, end))
}

/// Reads a function at the top of a program: a definition with its body,
/// or a declaration.
pub fn parse_function_definition(source: &str, position: usize, state: &mut ParserState) -> (result:
    Result<(ProgramStatement, usize), ParseError>)
    requires
        source.is_ascii(),
        position <= source@.len(),
        old(state).well_formed(),
    ensures
        stated(result, top_level(source@, position as int, old(state)@), final(state)@),
        result matches Ok((_, end))
            ==> position < end <= source@.len()
                && final(state).well_formed()
                && same_depth(old(state)@, final(state)@),
{
    let (base, behind) = parse_primitive_datatype(source, position)?;
    let (found, start) = parse_declarator(source, behind, base)?;
    proof {
        lemma_function_model(found.datatype);
    }
    let known = match state.find_function(found.name.as_str()) {
        Some(known) => Some(signatures_match(&known.datatype, &found.datatype)),
        None => None,
    };
    let datatype = found.datatype.clone();
    proof {
        lemma_function_model(datatype);
    }
    let (return_type, arguments) = match found.datatype {
        Datatype::Function { return_type, arguments } => (return_type, arguments),
        _ => {
            return Err(ParseError::Backtrack);
        },
    };
    if duplicate_checker(&named_parameters(&arguments)) {
        return Err(ParseError::DuplicateParameterNames);
    }
    match known {
        Some(false) => {
            return Err(ParseError::SignatureMismatch);
        },
        _ => {},
    }
    match parse_semicolon(source, start) {
        Ok(end) => {
            let declaration = FunctionDeclaration {
                name: found.name.clone(),
                arguments: optional_names(&arguments),
                return_type: (*return_type).clone(),
            };
            if known.is_none() {
                state.add_static_symbol(ParserStaticSymbol { name: found.name, datatype });
            }
            Ok((ProgramStatement::FunctionDeclaration(declaration), end))
        },
        Err(_) => {
            let (function, end) = parse_function_body(
                source,
                start,
                state,
                found.name,
                (*return_type).clone(),
                arguments,
            )?;
            Ok((ProgramStatement::FunctionDefinition(function), end))
        },
    }
}

} // verus!

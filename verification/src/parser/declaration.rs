//! Declarators and declarations: how a name and the type around it are
//! written.
use std::sync::Arc;
use vstd::prelude::*;
use vstd::string::*;
use crate::parser::{lemma_forget_variable, without_variable, ParseError, ParserState, ParserSymbol};
use crate::parser::datatype::{parse_primitive_datatype, primitive_datatype};
use crate::parser::expression::parse_expression;
use crate::parser::identifier::{identifier, parse_identifier};
use crate::parser::number::or_else;
use crate::parser::statement::{declaration, declaration_value, orderly, stated};
use crate::parser::trivial_tokens::{
    close_paren, comma, open_paren, parse_close_paren, parse_comma, parse_equals, parse_open_paren,
    parse_star, parse_void, star, void,
};
use crate::parser::whitespace::{parse_whitespace, skip_whitespace};
use crate::types::datatype::{
    arguments_model, lemma_function_model, Argument, ArgumentModel, Datatype, DatatypeModel,
};
use crate::types::declaration::{Declaration, Declarator, DeclaratorModel};
use crate::types::expression::Expression;

verus! {

/// A parameter as it is written: the primitive type, and the declarator
/// around the name.
#[derive(Debug)]
pub struct Param {
    pub datatype: Datatype,
    pub declarator: InnerDeclarator,
}

/// A declarator as it is written, from the outside in.
#[derive(Debug)]
pub enum InnerDeclarator {
    /// No name: only parameters may be declared so.
    Abstract,
    Identifier(String),
    Pointer(Arc<InnerDeclarator>),
    Function { params: Vec<Param>, declarator: Arc<InnerDeclarator> },
}

/// What a written parameter stands for.
pub struct ParamModel {
    pub datatype: DatatypeModel,
    pub declarator: InnerDeclaratorModel,
}

/// What a written declarator stands for.
pub enum InnerDeclaratorModel {
    Abstract,
    Identifier(Seq<char>),
    Pointer(Box<InnerDeclaratorModel>),
    Function { params: Seq<ParamModel>, declarator: Box<InnerDeclaratorModel> },
}

/// The model of a written declarator.
pub open spec fn inner_declarator_model(declarator: InnerDeclarator) -> InnerDeclaratorModel
    decreases declarator,
{
    match declarator {
        InnerDeclarator::Abstract => InnerDeclaratorModel::Abstract,
        InnerDeclarator::Identifier(name) => InnerDeclaratorModel::Identifier(name@),
        InnerDeclarator::Pointer(inner) => InnerDeclaratorModel::Pointer(
            Box::new(inner_declarator_model(*inner)),
        ),
        InnerDeclarator::Function { params, declarator } => InnerDeclaratorModel::Function {
            params: Seq::new(
                params@.len(),
                |i: int|
                    if 0 <= i < params@.len() {
                        ParamModel {
                            datatype: params@[i].datatype@,
                            declarator: inner_declarator_model(params@[i].declarator),
                        }
                    } else {
                        ParamModel {
                            datatype: DatatypeModel::Int,
                            declarator: InnerDeclaratorModel::Abstract,
                        }
                    },
            ),
            declarator: Box::new(inner_declarator_model(*declarator)),
        },
    }
}

impl View for InnerDeclarator {
    type V = InnerDeclaratorModel;

    open spec fn view(&self) -> InnerDeclaratorModel {
        inner_declarator_model(*self)
    }
}

impl View for Param {
    type V = ParamModel;

    open spec fn view(&self) -> ParamModel {
        ParamModel { datatype: self.datatype@, declarator: self.declarator@ }
    }
}

/// The models of a list of written parameters, in order.
pub open spec fn params_model(params: Seq<Param>) -> Seq<ParamModel> {
    Seq::new(params.len(), |i: int| params[i]@)
}

/// The model of a function declarator lists the models of its parameters.
pub proof fn lemma_function_declarator_model(declarator: InnerDeclarator)
    ensures
        declarator matches InnerDeclarator::Function { params, declarator: inner } ==> declarator@
            == (InnerDeclaratorModel::Function {
            params: params_model(params@),
            declarator: Box::new(inner@),
        }),
{
    match declarator {
        InnerDeclarator::Function { params, declarator: inner } => {
            assert(declarator@->Function_params =~= params_model(params@));
        },
        _ => {},
    }
}

/// What a written declarator declares around the type `base`: the type
/// modifiers apply from the name outwards. A pointer declarator declares
/// its inner declarator around a pointer to `base`; a function declarator
/// declares its inner declarator around a function that returns `base`. A
/// declarator without a name declares something only where
/// `abstract_allowed` is set, and then with the empty name.
pub open spec fn declared(
    declarator: InnerDeclaratorModel,
    base: DatatypeModel,
    abstract_allowed: bool,
) -> Option<DeclaratorModel>
    decreases declarator, 1nat,
{
    match declarator {
        InnerDeclaratorModel::Identifier(name) => Some(DeclaratorModel { name, datatype: base }),
        InnerDeclaratorModel::Pointer(inner) => declared(
            *inner,
            DatatypeModel::Pointer { inner: Box::new(base) },
            abstract_allowed,
        ),
        InnerDeclaratorModel::Function { params, declarator: inner } => match declared_params(
            params,
            params.len() as int,
        ) {
            Some(arguments) => declared(
                *inner,
                DatatypeModel::Function { return_type: Box::new(base), arguments },
                abstract_allowed,
            ),
            None => None,
        },
        InnerDeclaratorModel::Abstract => if abstract_allowed {
            Some(DeclaratorModel { name: Seq::empty(), datatype: base })
        } else {
            None
        },
    }
}

/// What the first `count` written parameters declare: each its name and its
/// type. A parameter may have no name.
pub open spec fn declared_params(params: Seq<ParamModel>, count: int) -> Option<Seq<ArgumentModel>>
    decreases params, count,
{
    if count <= 0 || count > params.len() {
        Some(Seq::empty())
    } else {
        match declared_params(params, count - 1) {
            Some(before) => match declared(
                params[count - 1].declarator,
                params[count - 1].datatype,
                true,
            ) {
                Some(parameter) => Some(
                    before.push(
                        ArgumentModel { name: parameter.name, datatype: parameter.datatype },
                    ),
                ),
                None => None,
            },
            None => None,
        }
    }
}

/// Once a parameter declares nothing, more parameters declare nothing.
pub proof fn lemma_declared_params_none(params: Seq<ParamModel>, count: int, more: int)
    requires
        declared_params(params, count) is None,
        count <= more <= params.len(),
    ensures
        declared_params(params, more) is None,
    decreases more - count,
{
    if count < more {
        lemma_declared_params_none(params, count, more - 1);
    }
}

/// Folds a written declarator against its base type.
pub fn process_declarator(
    declarator: &InnerDeclarator,
    base_type: Datatype,
    abstract_allowed: bool,
) -> (result: Option<Declarator>)
    ensures
        match result {
            Some(found) => declared(declarator@, base_type@, abstract_allowed) == Some(found@),
            None => declared(declarator@, base_type@, abstract_allowed) is None,
        },
    decreases declarator, 1nat,
{
    proof {
        lemma_function_declarator_model(*declarator);
    }
    match declarator {
        InnerDeclarator::Identifier(name) => Some(
            Declarator { name: name.clone(), datatype: base_type },
        ),
        InnerDeclarator::Pointer(inner) => process_declarator(
            inner,
            Datatype::Pointer { inner: Arc::new(base_type) },
            abstract_allowed,
        ),
        InnerDeclarator::Function { params, declarator: inner } => {
            let ghost written = params_model(params@);
            let mut arguments: Vec<Argument> = Vec::new();
            let mut i: usize = 0;
            assert(arguments_model(arguments@) =~= Seq::empty());
            while i < params.len()
                invariant
                    i <= params.len(),
                    written == params_model(params@),
                    *declarator == (InnerDeclarator::Function {
                        params: *params,
                        declarator: *inner,
                    }),
                    declarator@ == (InnerDeclaratorModel::Function {
                        params: written,
                        declarator: Box::new(inner@),
                    }),
                    declared_params(written, i as int) == Some(arguments_model(arguments@)),
                decreases params.len() - i,
            {
                let parameter = match process_declarator(
                    &params[i].declarator,
                    params[i].datatype.clone(),
                    true,
                ) {
                    Some(parameter) => parameter,
                    None => {
                        proof {
                            lemma_declared_params_none(written, i as int + 1, written.len() as int);
                        }
                        return None;
                    },
                };
                let ghost before = arguments_model(arguments@);
                let argument = Argument {
                    name: parameter.name,
                    datatype: Arc::new(parameter.datatype),
                };
                arguments.push(argument);
                assert(arguments_model(arguments@) =~= before.push(argument@));
                i = i + 1;
            }
            let derived = Datatype::Function { return_type: Arc::new(base_type), arguments };
            proof {
                lemma_function_model(derived);
            }
            process_declarator(inner, derived, abstract_allowed)
        },
        InnerDeclarator::Abstract => {
            if abstract_allowed {
                Some(Declarator { name: String::new(), datatype: base_type })
            } else {
                None
            }
        },
    }
}

/// What a reader of the grammar gives: a value and the place behind it, or
/// the reason why there is none.
pub type Parsed<T> = Result<(T, int), ParseError>;

/// Whether the value and the place that a reader returned are those that
/// the model gives.
pub open spec fn parsed<T: View>(
    result: Result<(T, usize), ParseError>,
    expected: Result<(T::V, int), ParseError>,
) -> bool {
    match result {
        Ok((value, end)) => expected == Ok::<(T::V, int), ParseError>((value@, end as int)),
        Err(error) => expected == Err::<(T::V, int), ParseError>(error),
    }
}

/// Whether a place lies within the source.
pub open spec fn within(source: Seq<char>, position: int) -> bool {
    0 <= position <= source.len()
}

/// A declarator with a name: a pointer declarator or a direct declarator.
pub open spec fn inner_declarator(source: Seq<char>, position: int) -> Parsed<InnerDeclaratorModel>
    decreases source.len() - position, 6nat,
{
    if !within(source, position) {
        Err(ParseError::Backtrack)
    } else {
        or_else(pointer_declarator(source, position), direct_declarator(source, position))
    }
}

/// `*` and a declarator with a name.
pub open spec fn pointer_declarator(
    source: Seq<char>,
    position: int,
) -> Parsed<InnerDeclaratorModel>
    decreases source.len() - position, 5nat,
{
    if !within(source, position) {
        Err(ParseError::Backtrack)
    } else {
        match star(source, position) {
            Some(behind) => if position < behind <= source.len() {
                match inner_declarator(source, behind) {
                    Ok((inner, end)) => Ok((InnerDeclaratorModel::Pointer(Box::new(inner)), end)),
                    Err(error) => Err(error),
                }
            } else {
                Err(ParseError::Backtrack)
            },
            None => Err(ParseError::Backtrack),
        }
    }
}

/// A function declarator or a simple declarator.
pub open spec fn direct_declarator(source: Seq<char>, position: int) -> Parsed<InnerDeclaratorModel>
    decreases source.len() - position, 5nat,
{
    if !within(source, position) {
        Err(ParseError::Backtrack)
    } else {
        or_else(function_declarator(source, position), simple_declarator(source, position))
    }
}

/// A simple declarator and, at once, a list of parameters in parentheses.
pub open spec fn function_declarator(
    source: Seq<char>,
    position: int,
) -> Parsed<InnerDeclaratorModel>
    decreases source.len() - position, 4nat,
{
    if !within(source, position) {
        Err(ParseError::Backtrack)
    } else {
        match simple_declarator(source, position) {
            Ok((inner, behind)) => if position < behind <= source.len() {
                match param_list(source, behind) {
                    Ok((params, end)) => Ok(
                        (
                            InnerDeclaratorModel::Function { params, declarator: Box::new(inner) },
                            end,
                        ),
                    ),
                    Err(error) => Err(error),
                }
            } else {
                Err(ParseError::Backtrack)
            },
            Err(error) => Err(error),
        }
    }
}

/// An identifier, or a declarator with a name in parentheses.
pub open spec fn simple_declarator(source: Seq<char>, position: int) -> Parsed<InnerDeclaratorModel>
    decreases source.len() - position, 3nat,
{
    if !within(source, position) {
        Err(ParseError::Backtrack)
    } else {
        match identifier(source, position) {
            Some((name, end)) => Ok((InnerDeclaratorModel::Identifier(name), end)),
            None => paren_declarator(source, position),
        }
    }
}

/// A declarator with a name in parentheses.
pub open spec fn paren_declarator(source: Seq<char>, position: int) -> Parsed<InnerDeclaratorModel>
    decreases source.len() - position, 2nat,
{
    if !within(source, position) {
        Err(ParseError::Backtrack)
    } else {
        match open_paren(source, position) {
            Some(behind) => if position < behind <= source.len() {
                match inner_declarator(source, behind) {
                    Ok((inner, closing)) => match close_paren(source, closing) {
                        Some(end) => Ok((inner, end)),
                        None => Err(ParseError::Backtrack),
                    },
                    Err(error) => Err(error),
                }
            } else {
                Err(ParseError::Backtrack)
            },
            None => Err(ParseError::Backtrack),
        }
    }
}

/// A list of parameters in parentheses: nothing, or parameters with commas
/// between them, or the word `void`.
pub open spec fn param_list(source: Seq<char>, position: int) -> Parsed<Seq<ParamModel>>
    decreases source.len() - position, 10nat,
{
    if !within(source, position) {
        Err(ParseError::Backtrack)
    } else {
        match open_paren(source, position) {
            Some(behind) => if position < behind <= source.len() {
                match close_paren(source, behind) {
                    Some(end) => Ok((Seq::empty(), end)),
                    None => or_else(
                        match param(source, behind) {
                            Ok((first, next)) => if behind < next <= source.len() {
                                match param_tail(source, next, seq![first]) {
                                    Ok((params, closing)) => match close_paren(source, closing) {
                                        Some(end) => Ok((params, end)),
                                        None => Err(ParseError::Backtrack),
                                    },
                                    Err(error) => Err(error),
                                }
                            } else {
                                Err(ParseError::Backtrack)
                            },
                            Err(error) => Err(error),
                        },
                        match void(source, behind) {
                            Some(closing) => match close_paren(source, closing) {
                                Some(end) => Ok((Seq::empty(), end)),
                                None => Err(ParseError::Backtrack),
                            },
                            None => Err(ParseError::Backtrack),
                        },
                    ),
                }
            } else {
                Err(ParseError::Backtrack)
            },
            None => Err(ParseError::Backtrack),
        }
    }
}

/// The parameters behind `found`: each follows a comma.
pub open spec fn param_tail(source: Seq<char>, position: int, found: Seq<ParamModel>) -> Parsed<
    Seq<ParamModel>,
>
    decreases source.len() - position, 9nat,
{
    if !within(source, position) {
        Err(ParseError::Backtrack)
    } else {
        match comma(source, position) {
            Some(behind) => if position < behind <= source.len() {
                match param(source, behind) {
                    Ok((next, end)) => if behind < end <= source.len() {
                        param_tail(source, end, found.push(next))
                    } else {
                        Err(ParseError::Backtrack)
                    },
                    Err(error) => Err(error),
                }
            } else {
                Err(ParseError::Backtrack)
            },
            None => Ok((found, position)),
        }
    }
}

/// A parameter: a primitive type and a declarator, with or without a name.
pub open spec fn param(source: Seq<char>, position: int) -> Parsed<ParamModel>
    decreases source.len() - position, 8nat,
{
    if !within(source, position) {
        Err(ParseError::Backtrack)
    } else {
        match primitive_datatype(source, position) {
            Some(behind) => if position < behind <= source.len() {
                match or_else(
                    inner_declarator(source, behind),
                    abstract_declarator(source, behind),
                ) {
                    Ok((declarator, end)) => Ok(
                        (ParamModel { datatype: DatatypeModel::Int, declarator }, end),
                    ),
                    Err(error) => Err(error),
                }
            } else {
                Err(ParseError::Backtrack)
            },
            None => Err(ParseError::Backtrack),
        }
    }
}

/// A declarator without a name: one in parentheses, or `*` and perhaps
/// another one, or nothing at all.
pub open spec fn abstract_declarator(source: Seq<char>, position: int) -> Parsed<
    InnerDeclaratorModel,
>
    decreases source.len() - position, 6nat,
{
    if !within(source, position) {
        Err(ParseError::Backtrack)
    } else {
        or_else(
            abstract_direct_declarator(source, position),
            or_else(
                abstract_pointer_declarator(source, position),
                Ok((InnerDeclaratorModel::Abstract, skip_whitespace(source, position))),
            ),
        )
    }
}

/// A declarator without a name in parentheses.
pub open spec fn abstract_direct_declarator(source: Seq<char>, position: int) -> Parsed<
    InnerDeclaratorModel,
>
    decreases source.len() - position, 5nat,
{
    if !within(source, position) {
        Err(ParseError::Backtrack)
    } else {
        match open_paren(source, position) {
            Some(behind) => if position < behind <= source.len() {
                match abstract_declarator(source, behind) {
                    Ok((inner, closing)) => match close_paren(source, closing) {
                        Some(end) => Ok((inner, end)),
                        None => Err(ParseError::Backtrack),
                    },
                    Err(error) => Err(error),
                }
            } else {
                Err(ParseError::Backtrack)
            },
            None => Err(ParseError::Backtrack),
        }
    }
}

/// `*` and perhaps a declarator without a name.
pub open spec fn abstract_pointer_declarator(source: Seq<char>, position: int) -> Parsed<
    InnerDeclaratorModel,
>
    decreases source.len() - position, 5nat,
{
    if !within(source, position) {
        Err(ParseError::Backtrack)
    } else {
        match star(source, position) {
            Some(behind) => if position < behind <= source.len() {
                match abstract_declarator(source, behind) {
                    Ok((inner, end)) => Ok((InnerDeclaratorModel::Pointer(Box::new(inner)), end)),
                    Err(ParseError::Backtrack) => Ok(
                        (
                            InnerDeclaratorModel::Pointer(Box::new(InnerDeclaratorModel::Abstract)),
                            behind,
                        ),
                    ),
                    Err(error) => Err(error),
                }
            } else {
                Err(ParseError::Backtrack)
            },
            None => Err(ParseError::Backtrack),
        }
    }
}

/// The declarator at `position` around the type `base`: what a declarator
/// with a name declares.
pub open spec fn declarator(source: Seq<char>, position: int, base: DatatypeModel) -> Parsed<
    DeclaratorModel,
> {
    match inner_declarator(source, position) {
        Ok((written, end)) => match declared(written, base, false) {
            Some(found) => Ok((found, end)),
            None => Err(ParseError::Backtrack),
        },
        Err(error) => Err(error),
    }
}

/// Reads a declarator with a name in parentheses.
pub fn parse_paren_declarator(source: &str, position: usize) -> (result: Result<
    (InnerDeclarator, usize),
    ParseError,
>)
    requires
        source.is_ascii(),
        position <= source@.len(),
    ensures
        parsed(result, paren_declarator(source@, position as int)),
        result matches Ok((_, end)) ==> position < end <= source@.len(),
    decreases source@.len() - position, 2nat,
{
    let behind = parse_open_paren(source, position)?;
    let (inner, closing) = parse_inner_declarator(source, behind)?;
    let end = parse_close_paren(source, closing)?;
    Ok((inner, end))
}

/// Reads an identifier or a declarator with a name in parentheses.
pub fn parse_simple_declarator(source: &str, position: usize) -> (result: Result<
    (InnerDeclarator, usize),
    ParseError,
>)
    requires
        source.is_ascii(),
        position <= source@.len(),
    ensures
        parsed(result, simple_declarator(source@, position as int)),
        result matches Ok((_, end)) ==> position < end <= source@.len(),
    decreases source@.len() - position, 3nat,
{
    match parse_identifier(source, position) {
        Ok((name, end)) => Ok((InnerDeclarator::Identifier(String::from_str(name)), end)),
        Err(_) => parse_paren_declarator(source, position),
    }
}

/// Reads a parameter.
pub fn parse_param(source: &str, position: usize) -> (result: Result<(Param, usize), ParseError>)
    requires
        source.is_ascii(),
        position <= source@.len(),
    ensures
        parsed(result, param(source@, position as int)),
        result matches Ok((_, end)) ==> position < end <= source@.len(),
    decreases source@.len() - position, 8nat,
{
    let (datatype, behind) = parse_primitive_datatype(source, position)?;
    let (declarator, end) = match parse_inner_declarator(source, behind) {
        Err(ParseError::Backtrack) => parse_inner_abstract_declarator(source, behind)?,
        other => other?,
    };
    Ok((Param { datatype, declarator }, end))
}

/// Reads the parameters behind `found`.
pub fn parse_param_tail(source: &str, position: usize, found: Vec<Param>) -> (result: Result<
    (Vec<Param>, usize),
    ParseError,
>)
    requires
        source.is_ascii(),
        position <= source@.len(),
    ensures
        match result {
            Ok((params, end)) => param_tail(source@, position as int, params_model(found@)) == Ok::<
                (Seq<ParamModel>, int),
                ParseError,
            >((params_model(params@), end as int)) && position <= end <= source@.len(),
            Err(error) => param_tail(source@, position as int, params_model(found@)) == Err::<
                (Seq<ParamModel>, int),
                ParseError,
            >(error),
        },
    decreases source@.len() - position, 9nat,
{
    let behind = match parse_comma(source, position) {
        Ok(behind) => behind,
        Err(_) => {
            return Ok((found, position));
        },
    };
    let (next, end) = parse_param(source, behind)?;
    let mut found = found;
    let ghost before = params_model(found@);
    found.push(next);
    assert(params_model(found@) =~= before.push(next@));
    parse_param_tail(source, end, found)
}

/// Reads a list of parameters in parentheses.
pub fn parse_param_list(source: &str, position: usize) -> (result: Result<
    (Vec<Param>, usize),
    ParseError,
>)
    requires
        source.is_ascii(),
        position <= source@.len(),
    ensures
        match result {
            Ok((params, end)) => param_list(source@, position as int) == Ok::<
                (Seq<ParamModel>, int),
                ParseError,
            >((params_model(params@), end as int)) && position < end <= source@.len(),
            Err(error) => param_list(source@, position as int) == Err::<
                (Seq<ParamModel>, int),
                ParseError,
            >(error),
        },
    decreases source@.len() - position, 10nat,
{
    let behind = parse_open_paren(source, position)?;
    match parse_close_paren(source, behind) {
        Ok(end) => {
            let params: Vec<Param> = Vec::new();
            assert(params_model(params@) =~= Seq::empty());
            return Ok((params, end));
        },
        Err(_) => {},
    }
    let listed = parse_listed_params(source, behind);
    match listed {
        Err(ParseError::Backtrack) => {},
        other => {
            return other;
        },
    }
    let closing = parse_void(source, behind)?;
    let end = parse_close_paren(source, closing)?;
    let params: Vec<Param> = Vec::new();
    assert(params_model(params@) =~= Seq::empty());
    Ok((params, end))
}

/// The parameters with commas between them, and the closing parenthesis.
pub open spec fn listed_params(source: Seq<char>, behind: int) -> Parsed<Seq<ParamModel>> {
    match param(source, behind) {
        Ok((first, next)) => if behind < next <= source.len() {
            match param_tail(source, next, seq![first]) {
                Ok((params, closing)) => match close_paren(source, closing) {
                    Some(end) => Ok((params, end)),
                    None => Err(ParseError::Backtrack),
                },
                Err(error) => Err(error),
            }
        } else {
            Err(ParseError::Backtrack)
        },
        Err(error) => Err(error),
    }
}

/// Reads parameters with commas between them, and the closing
/// parenthesis.
pub fn parse_listed_params(source: &str, position: usize) -> (result: Result<
    (Vec<Param>, usize),
    ParseError,
>)
    requires
        source.is_ascii(),
        position <= source@.len(),
    ensures
        match result {
            Ok((params, end)) => listed_params(source@, position as int) == Ok::<
                (Seq<ParamModel>, int),
                ParseError,
            >((params_model(params@), end as int)) && position < end <= source@.len(),
            Err(error) => listed_params(source@, position as int) == Err::<
                (Seq<ParamModel>, int),
                ParseError,
            >(error),
        },
    decreases source@.len() - position, 9nat,
{
    let (first, next) = parse_param(source, position)?;
    let mut found: Vec<Param> = Vec::new();
    found.push(first);
    assert(params_model(found@) =~= seq![first@]);
    let (params, closing) = parse_param_tail(source, next, found)?;
    let end = parse_close_paren(source, closing)?;
    Ok((params, end))
}

/// Reads a function declarator.
pub fn parse_function_declarator(source: &str, position: usize) -> (result: Result<
    (InnerDeclarator, usize),
    ParseError,
>)
    requires
        source.is_ascii(),
        position <= source@.len(),
    ensures
        parsed(result, function_declarator(source@, position as int)),
        result matches Ok((_, end)) ==> position < end <= source@.len(),
    decreases source@.len() - position, 4nat,
{
    let (inner, behind) = parse_simple_declarator(source, position)?;
    let (params, end) = parse_param_list(source, behind)?;
    let declarator = InnerDeclarator::Function { declarator: Arc::new(inner), params };
    proof {
        lemma_function_declarator_model(declarator);
    }
    Ok((declarator, end))
}

/// Reads a function declarator or a simple declarator.
pub fn parse_direct_declarator(source: &str, position: usize) -> (result: Result<
    (InnerDeclarator, usize),
    ParseError,
>)
    requires
        source.is_ascii(),
        position <= source@.len(),
    ensures
        parsed(result, direct_declarator(source@, position as int)),
        result matches Ok((_, end)) ==> position < end <= source@.len(),
    decreases source@.len() - position, 5nat,
{
    match parse_function_declarator(source, position) {
        Err(ParseError::Backtrack) => parse_simple_declarator(source, position),
        other => other,
    }
}

/// Reads `*` and a declarator with a name.
pub fn parse_pointer_declarator(source: &str, position: usize) -> (result: Result<
    (InnerDeclarator, usize),
    ParseError,
>)
    requires
        source.is_ascii(),
        position <= source@.len(),
    ensures
        parsed(result, pointer_declarator(source@, position as int)),
        result matches Ok((_, end)) ==> position < end <= source@.len(),
    decreases source@.len() - position, 5nat,
{
    let behind = parse_star(source, position)?;
    let (inner, end) = parse_inner_declarator(source, behind)?;
    Ok((InnerDeclarator::Pointer(Arc::new(inner)), end))
}

/// Reads a declarator without a name in parentheses.
pub fn parse_abstract_direct_declarator(source: &str, position: usize) -> (result: Result<
    (InnerDeclarator, usize),
    ParseError,
>)
    requires
        source.is_ascii(),
        position <= source@.len(),
    ensures
        parsed(result, abstract_direct_declarator(source@, position as int)),
        result matches Ok((_, end)) ==> position < end <= source@.len(),
    decreases source@.len() - position, 5nat,
{
    let behind = parse_open_paren(source, position)?;
    let (inner, closing) = parse_inner_abstract_declarator(source, behind)?;
    let end = parse_close_paren(source, closing)?;
    Ok((inner, end))
}

/// Reads `*` and perhaps a declarator without a name.
pub fn parse_abstract_pointer_declarator(source: &str, position: usize) -> (result: Result<
    (InnerDeclarator, usize),
    ParseError,
>)
    requires
        source.is_ascii(),
        position <= source@.len(),
    ensures
        parsed(result, abstract_pointer_declarator(source@, position as int)),
        result matches Ok((_, end)) ==> position < end <= source@.len(),
    decreases source@.len() - position, 5nat,
{
    let behind = parse_star(source, position)?;
    match parse_inner_abstract_declarator(source, behind) {
        Ok((inner, end)) => Ok((InnerDeclarator::Pointer(Arc::new(inner)), end)),
        Err(ParseError::Backtrack) => Ok(
            (InnerDeclarator::Pointer(Arc::new(InnerDeclarator::Abstract)), behind),
        ),
        Err(error) => Err(error),
    }
}

/// Reads the declarator that is nothing at all.
pub fn parse_abstract_any_declarator(source: &str, position: usize) -> (result: Result<
    (InnerDeclarator, usize),
    ParseError,
>)
    requires
        source.is_ascii(),
        position <= source@.len(),
    ensures
        result matches Ok((declarator, end)) && declarator@ == InnerDeclaratorModel::Abstract && end
            == skip_whitespace(source@, position as int) && position <= end <= source@.len(),
{
    Ok((InnerDeclarator::Abstract, parse_whitespace(source, position)))
}

/// Reads a declarator without a name.
pub fn parse_inner_abstract_declarator(source: &str, position: usize) -> (result: Result<
    (InnerDeclarator, usize),
    ParseError,
>)
    requires
        source.is_ascii(),
        position <= source@.len(),
    ensures
        parsed(result, abstract_declarator(source@, position as int)),
        result matches Ok((_, end)) ==> position <= end <= source@.len(),
    decreases source@.len() - position, 6nat,
{
    match parse_abstract_direct_declarator(source, position) {
        Err(ParseError::Backtrack) => {},
        other => {
            return other;
        },
    }
    match parse_abstract_pointer_declarator(source, position) {
        Err(ParseError::Backtrack) => {},
        other => {
            return other;
        },
    }
    parse_abstract_any_declarator(source, position)
}

/// Reads a declarator with a name.
pub fn parse_inner_declarator(source: &str, position: usize) -> (result: Result<
    (InnerDeclarator, usize),
    ParseError,
>)
    requires
        source.is_ascii(),
        position <= source@.len(),
    ensures
        parsed(result, inner_declarator(source@, position as int)),
        result matches Ok((_, end)) ==> position < end <= source@.len(),
    decreases source@.len() - position, 6nat,
{
    match parse_pointer_declarator(source, position) {
        Err(ParseError::Backtrack) => parse_direct_declarator(source, position),
        other => other,
    }
}

/// Reads a declarator and folds it against the type `base_type`.
pub fn parse_declarator(source: &str, position: usize, base_type: Datatype) -> (result: Result<
    (Declarator, usize),
    ParseError,
>)
    requires
        source.is_ascii(),
        position <= source@.len(),
    ensures
        parsed(result, declarator(source@, position as int, base_type@)),
        result matches Ok((_, end)) ==> position < end <= source@.len(),
{
    let (written, end) = parse_inner_declarator(source, position)?;
    match process_declarator(&written, base_type, false) {
        Some(found) => Ok((found, end)),
        None => Err(ParseError::Backtrack),
    }
}

/// Reads the first value of a declaration.
pub fn parse_declaration_value(
    source: &str,
    position: usize,
    state: &ParserState,
) -> (result: Result<(Expression, usize), ParseError>)
    requires
        source.is_ascii(),
        position <= source@.len(),
    ensures
        parsed(
            result,
            declaration_value(source@, position as int, state@),
        ),
        result matches Ok((_, end)) ==> position < end <= source@.len(),
{
    let behind = parse_equals(source, position)?;
    parse_expression(source, behind, state)
}

/// Reads a declaration and declares its variable.
pub fn parse_declaration(
    source: &str,
    position: usize,
    state: &mut ParserState,
) -> (result: Result<(Declaration, usize), ParseError>)
    requires
        source.is_ascii(),
        position <= source@.len(),
        old(state).well_formed(),
    ensures
        stated(
            result,
            declaration(source@, position as int, old(state)@),
            final(state)@,
        ),
        orderly(
            result,
            source@,
            position as int,
            *old(state),
            *final(state),
        ),
        result is Ok ==> without_variable(final(state)@) == old(state)@
            && final(state)@.scopes.last().len() >= 1 && final(state)@.function_scope.len() >= 1
            && final(state).identifiers >= 1,
{
    let (base, behind) = parse_primitive_datatype(source, position)?;
    let (found, end) = parse_declarator(source, behind, base)?;
    if state.identifiers == u64::MAX {
        return Err(ParseError::TooManyIdentifiers);
    }
    let datatype = found.datatype.clone();
    let symbol = state.add_variable(found.name, found.datatype);
    proof {
        lemma_forget_variable(old(state)@, found.name@, found.datatype@);
    }
    let name = match symbol {
        ParserSymbol::Variable(variable) => variable.unique_name,
        ParserSymbol::Argument(variable) => variable.unique_name,
        ParserSymbol::Function(function) => function.name,
    };
    match parse_declaration_value(source, end, state) {
        Ok((value, last)) => Ok(
            (Declaration { datatype, name, value: Some(value) }, last),
        ),
        Err(ParseError::Backtrack) => Ok(
            (Declaration { datatype, name, value: None }, end),
        ),
        Err(error) => Err(error),
    }
}

} // verus!

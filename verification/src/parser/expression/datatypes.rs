//! The types of expressions.
use std::sync::Arc;
use vstd::prelude::*;
use crate::parser::{lookup, symbol_type, ParseError, ParserState, ParserStateModel, ParserSymbol};
use crate::types::datatype::{
    arguments_model, clone_arguments, lemma_function_model, Argument, ArgumentModel, Datatype,
    DatatypeModel,
};
use crate::types::expression::{
    expressions_model, lemma_expression_model, BinaryKind, BinaryOp, Call, Expression,
    ExpressionModel, TernaryOp, UnaryKind, UnaryOp,
};

verus! {

/// The type of a value that can be called: a function, or a pointer to one.
/// Gives the type of the result and the parameters.
pub open spec fn signature_of(
    datatype: DatatypeModel,
) -> Option<(DatatypeModel, Seq<ArgumentModel>)> {
    match datatype {
        DatatypeModel::Function { return_type, arguments } => Some((*return_type, arguments)),
        DatatypeModel::Pointer { inner } => match *inner {
            DatatypeModel::Function { return_type, arguments } => Some((*return_type, arguments)),
            _ => None,
        },
        _ => None,
    }
}

/// The type of an expression at a point of the source.
///
/// A number is an integer. A name has the type it was declared with. `&`
/// gives a pointer, `*` takes one away and leaves a function as it is; the
/// other operators with one operand keep its type. The comma has the type of
/// its right operand, every other operator with two operands that of its
/// left operand. The two branches of a conditional must have one type. A
/// call has the type of the result of the function, if the arguments are as
/// many as the parameters and have their types.
pub open spec fn type_of(expression: ExpressionModel, state: ParserStateModel) -> Result<
    DatatypeModel,
    ParseError,
>
    decreases expression, 1nat,
{
    match expression {
        ExpressionModel::Number(_) => Ok(DatatypeModel::Int),
        ExpressionModel::Variable(name) => match lookup(state, name, true) {
            Some(symbol) => Ok(symbol_type(symbol)),
            None => Err(ParseError::UndeclaredIdentifier),
        },
        ExpressionModel::FunctionSymbol(name) => match lookup(state, name, true) {
            Some(symbol) => Ok(symbol_type(symbol)),
            None => Err(ParseError::UndeclaredIdentifier),
        },
        ExpressionModel::Unary(kind, operand) => match type_of(*operand, state) {
            Ok(inner) => match kind {
                UnaryKind::Ref => Ok(DatatypeModel::Pointer { inner: Box::new(inner) }),
                UnaryKind::Deref => match inner {
                    DatatypeModel::Pointer { inner: target } => Ok(*target),
                    DatatypeModel::Function { .. } => Ok(inner),
                    _ => Err(ParseError::DereferenceOfNonPointer),
                },
                _ => Ok(inner),
            },
            Err(error) => Err(error),
        },
        ExpressionModel::Binary(kind, lhs, rhs) => if kind == BinaryKind::Comma {
            type_of(*rhs, state)
        } else {
            type_of(*lhs, state)
        },
        ExpressionModel::Ternary(_, then_expr, else_expr) => match type_of(*then_expr, state) {
            Ok(then_type) => match type_of(*else_expr, state) {
                Ok(else_type) => if then_type == else_type {
                    Ok(then_type)
                } else {
                    Err(ParseError::TernaryTypeMismatch)
                },
                Err(error) => Err(error),
            },
            Err(error) => Err(error),
        },
        ExpressionModel::Call(callee, arguments) => match type_of(*callee, state) {
            Ok(function) => match signature_of(function) {
                Some((result, parameters)) => if arguments.len() != parameters.len() {
                    Err(ParseError::ArgumentCountMismatch)
                } else {
                    match arguments_fit(arguments, parameters, arguments.len() as int, state) {
                        Ok(()) => Ok(result),
                        Err(error) => Err(error),
                    }
                },
                None => Err(ParseError::NotCallable),
            },
            Err(error) => Err(error),
        },
    }
}

/// Whether the first `count` arguments of a call have the types of the
/// parameters, checked in order.
pub open spec fn arguments_fit(
    arguments: Seq<ExpressionModel>,
    parameters: Seq<ArgumentModel>,
    count: int,
    state: ParserStateModel,
) -> Result<(), ParseError>
    decreases arguments, count,
{
    if count <= 0 || count > arguments.len() {
        Ok(())
    } else {
        match arguments_fit(arguments, parameters, count - 1, state) {
            Ok(()) => match type_of(arguments[count - 1], state) {
                Ok(found) => if found == parameters[count - 1].datatype {
                    Ok(())
                } else {
                    Err(ParseError::ArgumentTypeMismatch)
                },
                Err(error) => Err(error),
            },
            Err(error) => Err(error),
        }
    }
}

/// Once an argument does not fit, more arguments do not fit in the same
/// way.
pub proof fn lemma_arguments_fit_error(
    arguments: Seq<ExpressionModel>,
    parameters: Seq<ArgumentModel>,
    count: int,
    more: int,
    state: ParserStateModel,
)
    requires
        arguments_fit(arguments, parameters, count, state) is Err,
        count <= more <= arguments.len(),
    ensures
        arguments_fit(arguments, parameters, more, state) == arguments_fit(
            arguments,
            parameters,
            count,
            state,
        ),
    decreases more - count,
{
    if count < more {
        lemma_arguments_fit_error(arguments, parameters, count, more - 1, state);
    }
}

/// Whether what `get_type` returned is what the model says.
pub open spec fn same_type(
    result: Result<Datatype, ParseError>,
    expected: Result<DatatypeModel, ParseError>,
) -> bool {
    match result {
        Ok(datatype) => expected == Ok::<DatatypeModel, ParseError>(datatype@),
        Err(error) => expected == Err::<DatatypeModel, ParseError>(error),
    }
}

/// Things that have a type at a point of the source.
pub trait GetType {
    /// The type, as the model gives it.
    spec fn datatype(&self, state: ParserStateModel) -> Result<DatatypeModel, ParseError>;

    /// The type of this at the point of the source that `state` describes.
    fn get_type(&self, state: &ParserState) -> (result: Result<Datatype, ParseError>)
        ensures
            same_type(result, self.datatype(state@)),
    ;
}

impl GetType for ParserSymbol {
    open spec fn datatype(&self, state: ParserStateModel) -> Result<DatatypeModel, ParseError> {
        Ok(symbol_type(self@))
    }

    fn get_type(&self, _state: &ParserState) -> (result: Result<Datatype, ParseError>) {
        match self {
            ParserSymbol::Variable(variable) => Ok(variable.datatype.clone()),
            ParserSymbol::Argument(variable) => Ok(variable.datatype.clone()),
            ParserSymbol::Function(function) => Ok(function.datatype.clone()),
        }
    }
}

/// The type of the name `name`, looked up by unique name.
fn named_type(name: &String, state: &ParserState) -> (result: Result<Datatype, ParseError>)
    ensures
        same_type(
            result,
            match lookup(state@, name@, true) {
                Some(symbol) => Ok(symbol_type(symbol)),
                None => Err(ParseError::UndeclaredIdentifier),
            },
        ),
{
    match state.get_by_unique_name(name.as_str()) {
        Some(symbol) => symbol.get_type(state),
        None => Err(ParseError::UndeclaredIdentifier),
    }
}

impl GetType for Expression {
    open spec fn datatype(&self, state: ParserStateModel) -> Result<DatatypeModel, ParseError> {
        type_of(self@, state)
    }

    fn get_type(&self, state: &ParserState) -> (result: Result<Datatype, ParseError>)
        decreases self, 1nat,
    {
        proof {
            lemma_expression_model(*self);
        }
        match self {
            Expression::Number(_) => Ok(Datatype::Int),
            Expression::UnaryOp(op) => op.get_type(state),
            Expression::BinaryOp(op) => op.get_type(state),
            Expression::TernaryOp(op) => op.get_type(state),
            Expression::Variable(name) => named_type(name, state),
            Expression::FunctionSymbol(name) => named_type(name, state),
            Expression::Call(call) => call.get_type(state),
        }
    }
}

impl GetType for UnaryOp {
    open spec fn datatype(&self, state: ParserStateModel) -> Result<DatatypeModel, ParseError> {
        type_of(self@, state)
    }

    fn get_type(&self, state: &ParserState) -> (result: Result<Datatype, ParseError>)
        decreases self, 1nat,
    {
        let inner = self.operand().get_type(state)?;
        proof {
            lemma_function_model(inner);
        }
        match self.kind() {
            UnaryKind::Ref => Ok(Datatype::Pointer { inner: Arc::new(inner) }),
            UnaryKind::Deref => match inner {
                Datatype::Pointer { inner: target } => Ok((*target).clone()),
                Datatype::Function { return_type, arguments } => Ok(
                    Datatype::Function { return_type, arguments },
                ),
                _ => Err(ParseError::DereferenceOfNonPointer),
            },
            _ => Ok(inner),
        }
    }
}

impl GetType for BinaryOp {
    open spec fn datatype(&self, state: ParserStateModel) -> Result<DatatypeModel, ParseError> {
        type_of(self@, state)
    }

    fn get_type(&self, state: &ParserState) -> (result: Result<Datatype, ParseError>)
        decreases self, 1nat,
    {
        match self.kind() {
            BinaryKind::Comma => self.rhs().get_type(state),
            _ => self.lhs().get_type(state),
        }
    }
}

impl GetType for TernaryOp {
    open spec fn datatype(&self, state: ParserStateModel) -> Result<DatatypeModel, ParseError> {
        type_of(self@, state)
    }

    fn get_type(&self, state: &ParserState) -> (result: Result<Datatype, ParseError>)
        decreases self, 1nat,
    {
        let then_type = self.then_expr.get_type(state)?;
        let else_type = self.else_expr.get_type(state)?;
        if else_type.equals(&then_type) {
            Ok(then_type)
        } else {
            Err(ParseError::TernaryTypeMismatch)
        }
    }
}

/// The type of the result and the parameters of a function type.
fn function_parts(function: &Datatype) -> (result: Option<(Datatype, Vec<Argument>)>)
    ensures
        match result {
            Some((returned, parameters)) => function@ == (DatatypeModel::Function {
                return_type: Box::new(returned@),
                arguments: arguments_model(parameters@),
            }),
            None => !(function@ is Function),
        },
{
    proof {
        lemma_function_model(*function);
    }
    match function {
        Datatype::Function { return_type, arguments } => Some(
            ((**return_type).clone(), clone_arguments(arguments)),
        ),
        _ => None,
    }
}

/// The type of the result and the parameters of a value that can be
/// called.
fn signature(function: &Datatype) -> (result: Option<(Datatype, Vec<Argument>)>)
    ensures
        match result {
            Some((returned, parameters)) => signature_of(function@) == Some(
                (returned@, arguments_model(parameters@)),
            ),
            None => signature_of(function@) is None,
        },
{
    match function {
        Datatype::Function { .. } => function_parts(function),
        Datatype::Pointer { inner } => function_parts(inner),
        _ => None,
    }
}

impl GetType for Call {
    open spec fn datatype(&self, state: ParserStateModel) -> Result<DatatypeModel, ParseError> {
        type_of(self@, state)
    }

    fn get_type(&self, state: &ParserState) -> (result: Result<Datatype, ParseError>)
        decreases self, 1nat,
    {
        let function = self.expression.get_type(state)?;
        let ghost callee = function@;
        let (returned, parameters) = match signature(&function) {
            Some(found) => found,
            None => {
                return Err(ParseError::NotCallable);
            },
        };
        if self.arguments.len() != parameters.len() {
            return Err(ParseError::ArgumentCountMismatch);
        }
        let ghost arguments = expressions_model(self.arguments@);
        let mut i: usize = 0;
        while i < self.arguments.len()
            invariant
                i <= self.arguments.len(),
                self.arguments.len() == parameters.len(),
                arguments == expressions_model(self.arguments@),
                type_of(self.expression@, state@) == Ok::<DatatypeModel, ParseError>(callee),
                signature_of(callee) == Some((returned@, arguments_model(parameters@))),
                arguments_fit(arguments, arguments_model(parameters@), i as int, state@) == Ok::<
                    (),
                    ParseError,
                >(()),
            decreases self.arguments.len() - i,
        {
            let found = match self.arguments[i].get_type(state) {
                Ok(found) => found,
                Err(error) => {
                    proof {
                        lemma_arguments_fit_error(
                            arguments,
                            arguments_model(parameters@),
                            i as int + 1,
                            arguments.len() as int,
                            state@,
                        );
                    }
                    return Err(error);
                },
            };
            if !found.equals(&parameters[i].datatype) {
                proof {
                    lemma_arguments_fit_error(
                        arguments,
                        arguments_model(parameters@),
                        i as int + 1,
                        arguments.len() as int,
                        state@,
                    );
                }
                return Err(ParseError::ArgumentTypeMismatch);
            }
            i = i + 1;
        }
        Ok(returned)
    }
}

} // verus!

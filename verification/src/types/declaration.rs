//! Declarations and declarators.
use vstd::prelude::*;
use crate::types::datatype::{Datatype, DatatypeModel};
use crate::types::expression::{Expression, ExpressionModel};

verus! {

/// The declaration of a local variable, under its unique name, with the
/// expression that gives its first value, if it has one.
#[derive(Debug, PartialEq, Eq)]
pub struct Declaration {
    pub datatype: Datatype,
    pub name: String,
    pub value: Option<Expression>,
}

/// A named parameter with its type.
#[derive(Debug, PartialEq, Eq)]
pub struct Argument {
    pub name: String,
    pub datatype: Datatype,
}

/// What a declarator declares: a name and the type built around it. The name
/// is empty where the declarator is abstract.
#[derive(Debug, PartialEq, Eq)]
pub struct Declarator {
    pub name: String,
    pub datatype: Datatype,
}

/// What a declaration stands for.
pub struct DeclarationModel {
    pub datatype: DatatypeModel,
    pub name: Seq<char>,
    pub value: Option<ExpressionModel>,
}

/// What a declarator stands for.
pub struct DeclaratorModel {
    pub name: Seq<char>,
    pub datatype: DatatypeModel,
}

/// The model of an expression that may be absent.
pub open spec fn optional_expression_model(expression: Option<Expression>) -> Option<
    ExpressionModel,
> {
    match expression {
        Some(expression) => Some(expression@),
        None => None,
    }
}

impl View for Declaration {
    type V = DeclarationModel;

    open spec fn view(&self) -> DeclarationModel {
        DeclarationModel {
            datatype: self.datatype@,
            name: self.name@,
            value: optional_expression_model(self.value),
        }
    }
}

impl View for Argument {
    type V = DeclaratorModel;

    open spec fn view(&self) -> DeclaratorModel {
        DeclaratorModel { name: self.name@, datatype: self.datatype@ }
    }
}

impl View for Declarator {
    type V = DeclaratorModel;

    open spec fn view(&self) -> DeclaratorModel {
        DeclaratorModel { name: self.name@, datatype: self.datatype@ }
    }
}

} // verus!

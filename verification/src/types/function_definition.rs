//! Functions.
use vstd::prelude::*;
use crate::parser::{ParserScopeState, SymbolModel};
use crate::types::datatype::{Datatype, DatatypeModel};
use crate::types::scope::Scope;
use crate::types::statement::ScopeItemModel;

verus! {

/// A parameter of a function that has a body: its name in the source, its
/// unique name, and its type.
#[derive(Debug)]
pub struct FunctionArgument {
    pub name: String,
    pub unique_name: String,
    pub datatype: Datatype,
}

/// A parameter of a function that is only declared: it may have no name.
#[derive(Debug)]
pub struct FunctionArgumentOptionalName {
    pub name: Option<String>,
    pub datatype: Datatype,
}

/// A function with its body. `scope_state` holds every symbol that the
/// function declares, from all of its scopes, in the order of declaration.
#[derive(Debug)]
pub struct FunctionDefinition {
    pub name: String,
    pub arguments: Vec<FunctionArgument>,
    pub return_type: Datatype,
    pub body: Scope,
    pub scope_state: ParserScopeState,
}

/// A function without a body.
#[derive(Debug)]
pub struct FunctionDeclaration {
    pub name: String,
    pub arguments: Vec<FunctionArgumentOptionalName>,
    pub return_type: Datatype,
}

/// What a parameter of a function with a body stands for.
pub struct FunctionArgumentModel {
    pub name: Seq<char>,
    pub unique_name: Seq<char>,
    pub datatype: DatatypeModel,
}

/// What a parameter of a declared function stands for.
pub struct OptionalArgumentModel {
    pub name: Option<Seq<char>>,
    pub datatype: DatatypeModel,
}

/// What a function with a body stands for.
pub struct FunctionDefinitionModel {
    pub name: Seq<char>,
    pub arguments: Seq<FunctionArgumentModel>,
    pub return_type: DatatypeModel,
    pub body: Seq<ScopeItemModel>,
    pub symbols: Seq<SymbolModel>,
}

/// What a function without a body stands for.
pub struct FunctionDeclarationModel {
    pub name: Seq<char>,
    pub arguments: Seq<OptionalArgumentModel>,
    pub return_type: DatatypeModel,
}

impl View for FunctionArgument {
    type V = FunctionArgumentModel;

    open spec fn view(&self) -> FunctionArgumentModel {
        FunctionArgumentModel {
            name: self.name@,
            unique_name: self.unique_name@,
            datatype: self.datatype@,
        }
    }
}

impl View for FunctionArgumentOptionalName {
    type V = OptionalArgumentModel;

    open spec fn view(&self) -> OptionalArgumentModel {
        OptionalArgumentModel {
            name: match self.name {
                Some(name) => Some(name@),
                None => None,
            },
            datatype: self.datatype@,
        }
    }
}

impl View for FunctionDefinition {
    type V = FunctionDefinitionModel;

    open spec fn view(&self) -> FunctionDefinitionModel {
        FunctionDefinitionModel {
            name: self.name@,
            arguments: Seq::new(self.arguments@.len(), |i: int| self.arguments@[i]@),
            return_type: self.return_type@,
            body: self.body@,
            symbols: self.scope_state@,
        }
    }
}

impl View for FunctionDeclaration {
    type V = FunctionDeclarationModel;

    open spec fn view(&self) -> FunctionDeclarationModel {
        FunctionDeclarationModel {
            name: self.name@,
            arguments: Seq::new(self.arguments@.len(), |i: int| self.arguments@[i]@),
            return_type: self.return_type@,
        }
    }
}

} // verus!

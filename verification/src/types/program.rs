//! Programs.
use vstd::prelude::*;
use crate::types::function_definition::{
    FunctionDeclaration, FunctionDeclarationModel, FunctionDefinition, FunctionDefinitionModel,
};

verus! {

/// An item at the top of a program.
#[derive(Debug)]
pub enum ProgramStatement {
    FunctionDefinition(FunctionDefinition),
    FunctionDeclaration(FunctionDeclaration),
}

/// A program: its items in order, and the number of unique names that were
/// handed out while it was parsed.
#[derive(Debug)]
pub struct Program {
    pub functions: Vec<ProgramStatement>,
    pub identifiers: u64,
}

/// What an item at the top of a program stands for.
pub enum ProgramStatementModel {
    FunctionDefinition(FunctionDefinitionModel),
    FunctionDeclaration(FunctionDeclarationModel),
}

/// What a program stands for.
pub struct ProgramModel {
    pub functions: Seq<ProgramStatementModel>,
    pub identifiers: nat,
}

impl View for ProgramStatement {
    type V = ProgramStatementModel;

    open spec fn view(&self) -> ProgramStatementModel {
        match self {
            ProgramStatement::FunctionDefinition(
                function,
            ) => ProgramStatementModel::FunctionDefinition(
                function@,
            ),
            ProgramStatement::FunctionDeclaration(
                function,
            ) => ProgramStatementModel::FunctionDeclaration(
                function@,
            ),
        }
    }
}

impl View for Program {
    type V = ProgramModel;

    open spec fn view(&self) -> ProgramModel {
        ProgramModel {
            functions: Seq::new(self.functions@.len(), |i: int| self.functions@[i]@),
            identifiers: self.identifiers as nat,
        }
    }
}

} // verus!

//! The code of declarations.
use vstd::prelude::*;
use crate::riscv::compile::{
    agrees, compiled_in, next, only, Compile, CompileError, Compiled, CompilerState,
    CompilerStateModel, CompilerVariableModel, Outcome,
};
use crate::riscv::compile::expression::{
    assemble_store, expression_code, lvalue_code, nothing, single, store_of,
};
use crate::riscv::instruction::Instruction;
use crate::riscv::values::{Immediate, Register};
use crate::types::declaration::{Declaration, DeclarationModel};
use crate::types::expression::ExpressionModel;

verus! {

/// The code of a declaration: with a first value, that of the assignment of
/// the value to the variable; without one, nothing.
pub open spec fn declaration_code(
    declaration: DeclarationModel,
    variables: Seq<CompilerVariableModel>,
    labels: nat,
) -> Outcome {
    match declaration.value {
        Some(value) => {
            let value_code = expression_code(value, variables, labels);
            let address = lvalue_code(
                ExpressionModel::Variable(declaration.name),
                variables,
                next(value_code),
            );
            store_of(value_code, address)
        },
        None => only(Seq::empty(), labels),
    }
}

/// Generates the code that leaves the address of the variable `name` in
/// `a0`.
pub fn variable_address(name: &str, state: &CompilerState) -> (result: Result<
    Vec<Instruction>,
    CompileError,
>)
    ensures
        agrees(
            result,
            compiled_in(
                lvalue_code(ExpressionModel::Variable(name@), state@.variables, state@.labels),
                state@,
            ),
            state@,
        ),
{
    match state.get_variable(name) {
        Some(variable) => Ok(
            single(
                Instruction::Addi(Register::A0, Register::Fp, Immediate::Number(variable.address)),
            ),
        ),
        None => Err(CompileError::UnknownVariable),
    }
}

impl Compile for Declaration {
    open spec fn compiled(&self, state: CompilerStateModel) -> Compiled {
        compiled_in(declaration_code(self@, state.variables, state.labels), state)
    }

    fn compile(
        &self,
        state: &mut CompilerState,
    ) -> (result: Result<Vec<Instruction>, CompileError>) {
        match &self.value {
            Some(value) => {
                let value_code = value.compile(state)?;
                let address = variable_address(self.name.as_str(), state)?;
                Ok(assemble_store(value_code, address))
            },
            None => Ok(nothing()),
        }
    }
}

} // verus!

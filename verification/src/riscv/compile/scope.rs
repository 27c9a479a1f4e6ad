//! The code of scopes and labels.
use vstd::prelude::*;
use vstd::string::*;
use crate::riscv::compile::{
    append_instructions, compiled_in, only, Compile, CompileError, Compiled, CompilerState,
    CompilerStateModel,
};
use crate::riscv::compile::expression::{nothing, single};
use crate::riscv::compile::statement::{items_code, lemma_items_error, scope_item_code};
use crate::riscv::instruction::{instructions_model, Instruction, InstructionModel};
use crate::types::scope::{Label, Scope, ScopeItem};
use crate::types::statement::{items_model, LabelModel};
use crate::utils::text::{decimal, push_decimal};

verus! {

/// The name of the label of the case with value `value` in the `switch`
/// with identifier `id`.
pub open spec fn case_label(id: Seq<char>, value: int) -> Seq<char> {
    id + "____case_"@ + decimal(value)
}

/// The name of the default label of the `switch` with identifier `id`.
pub open spec fn default_label(id: Seq<char>) -> Seq<char> {
    id + "____default"@
}

/// The line that a label becomes.
pub open spec fn label_code(label: LabelModel) -> Seq<InstructionModel> {
    match label {
        LabelModel::Named(name) => seq![InstructionModel::Label(name)],
        LabelModel::Case { id, value } => seq![
            InstructionModel::Label(case_label(id, value as int)),
        ],
        LabelModel::Default { id } => seq![InstructionModel::Label(default_label(id))],
    }
}

/// The name of the label of a case.
pub fn case_label_text(id: &String, value: i32) -> (text: String)
    ensures
        text@ == case_label(id@, value as int),
{
    let text = push_decimal(id.clone().concat("____case_"), value);
    assert(text@ =~= case_label(id@, value as int));
    text
}

/// The name of the default label.
pub fn default_label_text(id: &String) -> (text: String)
    ensures
        text@ == default_label(id@),
{
    id.clone().concat("____default")
}

impl Compile for Label {
    open spec fn compiled(&self, state: CompilerStateModel) -> Compiled {
        compiled_in(only(label_code(self@), state.labels), state)
    }

    fn compile(
        &self,
        state: &mut CompilerState,
    ) -> (result: Result<Vec<Instruction>, CompileError>) {
        match self {
            Label::Named(name) => Ok(single(Instruction::Label(name.clone()))),
            Label::Case { id, value } => Ok(
                single(Instruction::Label(case_label_text(id, *value))),
            ),
            Label::Default { id } => Ok(single(Instruction::Label(default_label_text(id)))),
        }
    }
}

impl Compile for ScopeItem {
    open spec fn compiled(&self, state: CompilerStateModel) -> Compiled {
        compiled_in(scope_item_code(self@, state.variables, state.labels), state)
    }

    fn compile(&self, state: &mut CompilerState) -> (result: Result<Vec<Instruction>, CompileError>)
        decreases self, 1nat,
    {
        match self {
            ScopeItem::Statement(statement) => statement.compile(state),
            ScopeItem::Declaration(declaration) => declaration.compile(state),
            ScopeItem::Label(label) => label.compile(state),
        }
    }
}

impl Compile for Scope {
    open spec fn compiled(&self, state: CompilerStateModel) -> Compiled {
        compiled_in(items_code(self@, self@.len() as int, state.variables, state.labels), state)
    }

    fn compile(&self, state: &mut CompilerState) -> (result: Result<Vec<Instruction>, CompileError>)
        decreases self, 1nat,
    {
        let ghost items = self@;
        let ghost variables = state.scope@;
        let ghost labels = state.labels as nat;
        let mut code = nothing();
        let mut i: usize = 0;
        while i < self.items.len()
            invariant
                i <= self.items.len(),
                items == items_model(self.items@),
                state.well_formed(),
                state.scope@ == variables,
                variables == old(state)@.variables,
                labels == old(state)@.labels,
                items_code(items, i as int, variables, labels) == only(
                    instructions_model(code@),
                    state.labels as nat,
                ),
            decreases self.items.len() - i,
        {
            let item = match self.items[i].compile(state) {
                Ok(item) => item,
                Err(error) => {
                    proof {
                        lemma_items_error(
                            items,
                            i as int + 1,
                            items.len() as int,
                            variables,
                            labels,
                        );
                    }
                    return Err(error);
                },
            };
            append_instructions(&mut code, item);
            i = i + 1;
        }
        Ok(code)
    }
}

} // verus!

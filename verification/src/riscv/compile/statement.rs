//! The code of statements.
use vstd::prelude::*;
use vstd::string::*;
use crate::riscv::compile::{
    after, append_instructions, code_of, compiled_in, epilogue, frame_of, fresh, join, next, only,
    push_instruction, Compile, CompileError, Compiled, CompilerState, CompilerStateModel,
    CompilerVariableModel, Outcome,
};
use crate::riscv::compile::declaration::declaration_code;
use crate::riscv::compile::expression::{
    all_three, assemble_ternary, both, expression_code, nothing, single, ternary_code,
};
use crate::riscv::compile::scope::{
    case_label, case_label_text, default_label, default_label_text, label_code,
};
use crate::riscv::instruction::{instructions_model, Instruction, InstructionModel};
use crate::riscv::values::{number, Immediate, ImmediateModel, Register};
use crate::types::statement::{
    lemma_statement_model, Case, ForInit, ForInitModel, ForStatement, IfStatement, JumpStatement,
    ScopeItemModel, Statement, StatementModel, SwitchStatement, WhileStatement,
};
use crate::utils::random_name::mangled;

verus! {

/// The name of the label at the start of the loop with identifier `id`.
pub open spec fn start_label(id: Seq<char>) -> Seq<char> {
    id + "_start"@
}

/// The name of the label behind the loop or `switch` with identifier `id`.
pub open spec fn end_label(id: Seq<char>) -> Seq<char> {
    id + "_end"@
}

/// A loop: the start label, the test, a jump to the end label if the test
/// gives zero, the body, a jump back to the start, the end label.
pub open spec fn while_code(
    id: Seq<char>,
    test: Seq<InstructionModel>,
    body: Seq<InstructionModel>,
) -> Seq<InstructionModel> {
    ((seq![InstructionModel::Label(start_label(id))] + test).push(
        InstructionModel::BeqzP(Register::A0, ImmediateModel::Label(end_label(id))),
    ) + body).push(InstructionModel::JP(ImmediateModel::Label(start_label(id)))).push(
        InstructionModel::Label(end_label(id)),
    )
}

/// The tests of a `switch` for the first `count` of its labels: each case,
/// in order, is compared with the value in `s1`.
pub open spec fn dispatch_code(cases: Seq<Case>, id: Seq<char>, count: int) -> Seq<InstructionModel>
    decreases count,
{
    if count <= 0 {
        Seq::empty()
    } else {
        let before = dispatch_code(cases, id, count - 1);
        match cases[count - 1] {
            Case::Case(value) => before.push(
                InstructionModel::LiP(Register::A0, ImmediateModel::Number(value)),
            ).push(
                InstructionModel::Beq(
                    Register::S1,
                    Register::A0,
                    ImmediateModel::Label(case_label(id, value as int)),
                ),
            ),
            Case::Default => before,
        }
    }
}

/// Where a `switch` goes when no case matches: to its default label if it
/// has one, else behind the `switch`.
pub open spec fn fallback_label(cases: Seq<Case>, id: Seq<char>) -> Seq<char> {
    if cases.contains(Case::Default) {
        default_label(id)
    } else {
        end_label(id)
    }
}

/// A `switch`: the value, kept in `s1`; the tests of the cases; the jump for
/// the case that none matches; the body; the end label.
pub open spec fn switch_code(
    id: Seq<char>,
    cases: Seq<Case>,
    value: Seq<InstructionModel>,
    body: Seq<InstructionModel>,
) -> Seq<InstructionModel> {
    ((value.push(InstructionModel::Add(Register::S1, Register::A0, Register::Zero))
        + dispatch_code(cases, id, cases.len() as int)).push(
        InstructionModel::JP(ImmediateModel::Label(fallback_label(cases, id))),
    ) + body).push(InstructionModel::Label(end_label(id)))
}

/// The code of a statement, for a function with the variables `variables`,
/// with `labels` the next fresh label.
///
/// A `for` statement is its start, then a loop whose body is the body of the
/// statement followed by its update; a missing condition is the number one.
pub open spec fn statement_code(
    statement: StatementModel,
    variables: Seq<CompilerVariableModel>,
    labels: nat,
) -> Outcome
    decreases statement, 1nat,
{
    match statement {
        StatementModel::Return(value) => {
            let value_code = match value {
                Some(expression) => expression_code(expression, variables, labels),
                None => only(Seq::empty(), labels),
            };
            join(value_code, only(epilogue(frame_of(variables)), next(value_code)))
        },
        StatementModel::Break(id) => only(
            seq![InstructionModel::JP(ImmediateModel::Label(end_label(id)))],
            labels,
        ),
        StatementModel::Continue(id) => only(
            seq![InstructionModel::JP(ImmediateModel::Label(start_label(id)))],
            labels,
        ),
        StatementModel::Ebreak => only(seq![InstructionModel::Ebreak], labels),
        StatementModel::Expression(expression) => expression_code(expression, variables, labels),
        StatementModel::Scope(items) => items_code(items, items.len() as int, variables, labels),
        StatementModel::If { condition, then_block, else_block } => {
            let test = expression_code(condition, variables, labels);
            let end = fresh(next(test));
            let otherwise = fresh(next(end));
            let then_code = statement_code(*then_block, variables, next(otherwise));
            let else_code = match else_block {
                Some(block) => statement_code(*block, variables, next(then_code)),
                None => only(Seq::empty(), next(then_code)),
            };
            after(
                after(after(test, end), otherwise),
                both(
                    then_code,
                    else_code,
                    ternary_code(
                        mangled("if_end"@, next(test)),
                        mangled("else_start"@, next(test) + 1),
                        code_of(test),
                        code_of(then_code),
                        code_of(else_code),
                    ),
                ),
            )
        },
        StatementModel::While { condition, block, id } => {
            let test = expression_code(condition, variables, labels);
            let body = statement_code(*block, variables, next(test));
            both(test, body, while_code(id, code_of(test), code_of(body)))
        },
        StatementModel::For { init, condition, increment, block, id } => {
            let first = match init {
                Some(ForInitModel::Declaration(declaration)) => declaration_code(
                    declaration,
                    variables,
                    labels,
                ),
                Some(ForInitModel::Expression(expression)) => expression_code(
                    expression,
                    variables,
                    labels,
                ),
                None => only(Seq::empty(), labels),
            };
            let test = match condition {
                Some(expression) => expression_code(expression, variables, next(first)),
                None => only(seq![InstructionModel::LiP(Register::A0, number(1))], next(first)),
            };
            let body = statement_code(*block, variables, next(test));
            let update = match increment {
                Some(expression) => expression_code(expression, variables, next(body)),
                None => only(Seq::empty(), next(body)),
            };
            join(
                first,
                all_three(
                    test,
                    body,
                    update,
                    while_code(id, code_of(test), code_of(body) + code_of(update)),
                ),
            )
        },
        StatementModel::Switch { expression, body, id, cases } => {
            let value = expression_code(expression, variables, labels);
            let inner = statement_code(*body, variables, next(value));
            both(value, inner, switch_code(id, cases, code_of(value), code_of(inner)))
        },
        StatementModel::Null => only(Seq::empty(), labels),
    }
}

/// The code of an item of a scope.
pub open spec fn scope_item_code(
    item: ScopeItemModel,
    variables: Seq<CompilerVariableModel>,
    labels: nat,
) -> Outcome
    decreases item, 1nat,
{
    match item {
        ScopeItemModel::Statement(statement) => statement_code(statement, variables, labels),
        ScopeItemModel::Declaration(
            declaration,
        ) => declaration_code(declaration, variables, labels),
        ScopeItemModel::Label(label) => only(label_code(label), labels),
    }
}

/// The code of the first `count` items of a scope, one after the other.
pub open spec fn items_code(
    items: Seq<ScopeItemModel>,
    count: int,
    variables: Seq<CompilerVariableModel>,
    labels: nat,
) -> Outcome
    decreases items, count,
{
    if count <= 0 || count > items.len() {
        only(Seq::empty(), labels)
    } else {
        let before = items_code(items, count - 1, variables, labels);
        let item = scope_item_code(items[count - 1], variables, next(before));
        join(before, item)
    }
}

/// Once generating the items of a scope has failed, generating more of them
/// fails in the same way.
pub proof fn lemma_items_error(
    items: Seq<ScopeItemModel>,
    count: int,
    more: int,
    variables: Seq<CompilerVariableModel>,
    labels: nat,
)
    requires
        items_code(items, count, variables, labels) is Err,
        count <= more <= items.len(),
    ensures
        items_code(items, more, variables, labels) == items_code(items, count, variables, labels),
    decreases more - count,
{
    if count < more {
        lemma_items_error(items, count, more - 1, variables, labels);
    }
}

/// The name of the label at the start of a loop.
pub fn start_label_text(id: &String) -> (text: String)
    ensures
        text@ == start_label(id@),
{
    id.clone().concat("_start")
}

/// The name of the label behind a loop or `switch`.
pub fn end_label_text(id: &String) -> (text: String)
    ensures
        text@ == end_label(id@),
{
    id.clone().concat("_end")
}

/// Puts the test and the body of a loop together.
pub fn assemble_while(id: &String, test: Vec<Instruction>, body: Vec<Instruction>) -> (code: Vec<
    Instruction,
>)
    ensures
        instructions_model(code@) == while_code(
            id@,
            instructions_model(test@),
            instructions_model(body@),
        ),
{
    let mut code = single(Instruction::Label(start_label_text(id)));
    append_instructions(&mut code, test);
    push_instruction(
        &mut code,
        Instruction::BeqzP(Register::A0, Immediate::Label(end_label_text(id))),
    );
    append_instructions(&mut code, body);
    push_instruction(&mut code, Instruction::JP(Immediate::Label(start_label_text(id))));
    push_instruction(&mut code, Instruction::Label(end_label_text(id)));
    code
}

impl Compile for JumpStatement {
    open spec fn compiled(&self, state: CompilerStateModel) -> Compiled {
        compiled_in(statement_code(self@, state.variables, state.labels), state)
    }

    fn compile(
        &self,
        state: &mut CompilerState,
    ) -> (result: Result<Vec<Instruction>, CompileError>) {
        match self {
            JumpStatement::Return { expression } => {
                let mut code = match expression {
                    Some(expression) => expression.compile(state)?,
                    None => nothing(),
                };
                append_instructions(&mut code, state.return_from_function());
                Ok(code)
            },
            JumpStatement::Break { id } => Ok(
                single(Instruction::JP(Immediate::Label(end_label_text(id)))),
            ),
            JumpStatement::Continue { id } => Ok(
                single(Instruction::JP(Immediate::Label(start_label_text(id)))),
            ),
            JumpStatement::Ebreak => Ok(single(Instruction::Ebreak)),
        }
    }
}

impl Compile for IfStatement {
    open spec fn compiled(&self, state: CompilerStateModel) -> Compiled {
        compiled_in(statement_code(self@, state.variables, state.labels), state)
    }

    fn compile(&self, state: &mut CompilerState) -> (result: Result<Vec<Instruction>, CompileError>)
        decreases self, 1nat,
    {
        let test = self.condition.compile(state)?;
        let end = state.fresh_label("if_end")?;
        let otherwise = state.fresh_label("else_start")?;
        let then_code = self.then_block.compile(state)?;
        let else_code = match &self.else_block {
            Some(block) => block.compile(state)?,
            None => nothing(),
        };
        Ok(assemble_ternary(&end, &otherwise, test, then_code, else_code))
    }
}

impl Compile for WhileStatement {
    open spec fn compiled(&self, state: CompilerStateModel) -> Compiled {
        compiled_in(statement_code(self@, state.variables, state.labels), state)
    }

    fn compile(&self, state: &mut CompilerState) -> (result: Result<Vec<Instruction>, CompileError>)
        decreases self, 1nat,
    {
        let test = self.condition.compile(state)?;
        let body = self.block.compile(state)?;
        Ok(assemble_while(&self.id, test, body))
    }
}

impl Compile for ForStatement {
    open spec fn compiled(&self, state: CompilerStateModel) -> Compiled {
        compiled_in(statement_code(self@, state.variables, state.labels), state)
    }

    fn compile(&self, state: &mut CompilerState) -> (result: Result<Vec<Instruction>, CompileError>)
        decreases self, 1nat,
    {
        let mut code = match &self.init {
            Some(ForInit::Declaration(declaration)) => declaration.compile(state)?,
            Some(ForInit::Expression(expression)) => expression.compile(state)?,
            None => nothing(),
        };
        let test = match &self.condition {
            Some(expression) => expression.compile(state)?,
            None => single(Instruction::LiP(Register::A0, Immediate::Number(1))),
        };
        let mut body = self.block.compile(state)?;
        let update = match &self.increment {
            Some(expression) => expression.compile(state)?,
            None => nothing(),
        };
        append_instructions(&mut body, update);
        append_instructions(&mut code, assemble_while(&self.id, test, body));
        Ok(code)
    }
}

/// Whether a `switch` has a default label.
pub fn has_default(cases: &Vec<Case>) -> (found: bool)
    ensures
        found == cases@.contains(Case::Default),
{
    let mut i: usize = 0;
    while i < cases.len()
        invariant
            i <= cases.len(),
            forall|j: int| 0 <= j < i ==> cases@[j] != Case::Default,
        decreases cases.len() - i,
    {
        if cases[i] == Case::Default {
            return true;
        }
        i = i + 1;
    }
    false
}

/// The tests of a `switch` for its cases.
pub fn dispatch(cases: &Vec<Case>, id: &String) -> (tests: Vec<Instruction>)
    ensures
        instructions_model(tests@) == dispatch_code(cases@, id@, cases@.len() as int),
{
    let mut tests = nothing();
    let mut i: usize = 0;
    while i < cases.len()
        invariant
            i <= cases.len(),
            instructions_model(tests@) == dispatch_code(cases@, id@, i as int),
        decreases cases.len() - i,
    {
        match cases[i] {
            Case::Case(value) => {
                push_instruction(
                    &mut tests,
                    Instruction::LiP(Register::A0, Immediate::Number(value)),
                );
                push_instruction(
                    &mut tests,
                    Instruction::Beq(
                        Register::S1,
                        Register::A0,
                        Immediate::Label(case_label_text(id, value)),
                    ),
                );
            },
            Case::Default => {},
        }
        i = i + 1;
    }
    tests
}

impl Compile for SwitchStatement {
    open spec fn compiled(&self, state: CompilerStateModel) -> Compiled {
        compiled_in(statement_code(self@, state.variables, state.labels), state)
    }

    fn compile(&self, state: &mut CompilerState) -> (result: Result<Vec<Instruction>, CompileError>)
        decreases self, 1nat,
    {
        let mut code = self.expression.compile(state)?;
        let body = self.body.compile(state)?;
        push_instruction(&mut code, Instruction::Add(Register::S1, Register::A0, Register::Zero));
        let tests = dispatch(&self.cases, &self.id);
        append_instructions(&mut code, tests);
        let fallback = if has_default(&self.cases) {
            default_label_text(&self.id)
        } else {
            end_label_text(&self.id)
        };
        push_instruction(&mut code, Instruction::JP(Immediate::Label(fallback)));
        append_instructions(&mut code, body);
        push_instruction(&mut code, Instruction::Label(end_label_text(&self.id)));
        Ok(code)
    }
}

impl Compile for Statement {
    open spec fn compiled(&self, state: CompilerStateModel) -> Compiled {
        compiled_in(statement_code(self@, state.variables, state.labels), state)
    }

    fn compile(&self, state: &mut CompilerState) -> (result: Result<Vec<Instruction>, CompileError>)
        decreases self, 1nat,
    {
        proof {
            lemma_statement_model(*self);
        }
        match self {
            Statement::Jump { statement } => statement.compile(state),
            Statement::Expression { expression } => expression.compile(state),
            Statement::Null => Ok(nothing()),
            Statement::Scope { scope } => scope.compile(state),
            Statement::If { statement } => statement.compile(state),
            Statement::While { statement } => statement.compile(state),
            Statement::For { statement } => statement.compile(state),
            Statement::Switch { statement } => statement.compile(state),
        }
    }
}

} // verus!

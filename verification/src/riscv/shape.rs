//! The shape of the generated code: where calls keep their arguments, where
//! jumps go, and what an assignment leaves in `a0`.
use vstd::prelude::*;
use crate::riscv::balance::{calm, lemma_lvalue_calm};
use crate::riscv::compile::{code_of, next, only, CompilerVariableModel};
use crate::riscv::compile::expression::{
    call_code, expression_code, lvalue_code, register_arguments, stack_argument_bytes,
    stack_arguments_code, store_code,
};
use crate::riscv::compile::statement::{
    dispatch_code, end_label, statement_code, switch_code, while_code,
};
use crate::riscv::instruction::InstructionModel;
use crate::riscv::values::{at_offset, number, ImmediateModel, Register};
use crate::types::expression::{BinaryKind, ExpressionModel};
use crate::types::statement::{Case, StatementModel};
use crate::utils::nearest_multiple::lemma_round_up_is_least_multiple;

verus! {

/// A call with at most eight arguments takes no room for arguments on the
/// stack. A call with nine to twelve arguments takes 16 bytes. In general
/// the room is a multiple of 16 bytes that holds four bytes for each
/// argument beyond the eighth.
pub proof fn lemma_stack_argument_room(total: nat)
    ensures
        total <= 8 ==> stack_argument_bytes(total) == 0,
        9 <= total <= 12 ==> stack_argument_bytes(total) == 16,
        stack_argument_bytes(total) % 16 == 0,
        total > 8 ==> 4 * (total - 8) <= stack_argument_bytes(total) < 4 * (total - 8) + 16,
{
    lemma_round_up_is_least_multiple(4 * (total - register_arguments(total)), 16);
    if 9 <= total <= 12 {
        assert(4 * (total - 8) <= 16);
        assert(16int % 16 == 0);
    }
}

/// A call starts by taking the room for its stack arguments and ends by
/// giving it back.
pub proof fn lemma_call_room(
    total: nat,
    stack: Seq<InstructionModel>,
    registers: Seq<InstructionModel>,
    target: Seq<InstructionModel>,
)
    ensures
        call_code(total, stack, registers, target)[0] == InstructionModel::Addi(
            Register::Sp,
            Register::Sp,
            number(-stack_argument_bytes(total)),
        ),
        call_code(total, stack, registers, target).last() == InstructionModel::Addi(
            Register::Sp,
            Register::Sp,
            number(stack_argument_bytes(total) as int),
        ),
{
}

/// The ninth argument of a call is kept at the start of the room for stack
/// arguments, whose base is in `s1`.
pub proof fn lemma_ninth_argument(
    arguments: Seq<ExpressionModel>,
    variables: Seq<CompilerVariableModel>,
    labels: nat,
)
    requires
        arguments.len() >= 9,
    ensures
        stack_arguments_code(arguments, 9, variables, labels) matches Ok(generated)
            ==> generated.code.len() > 0 && generated.code.last() == InstructionModel::Sw(
            Register::A0,
            at_offset(0, Register::S1),
        ),
{
}

/// The number of lines of the tests of a `switch`.
pub open spec fn dispatch_length(cases: Seq<Case>, id: Seq<char>) -> int {
    dispatch_code(cases, id, cases.len() as int).len() as int
}

/// A `switch` without a default label: when no case matches, the jump
/// behind the tests goes to the label that ends the `switch`.
pub proof fn lemma_switch_without_default(
    id: Seq<char>,
    cases: Seq<Case>,
    value: Seq<InstructionModel>,
    body: Seq<InstructionModel>,
)
    requires
        !cases.contains(Case::Default),
    ensures
        switch_code(id, cases, value, body)[value.len() + 1 + dispatch_length(cases, id)]
            == InstructionModel::JP(ImmediateModel::Label(end_label(id))),
        switch_code(id, cases, value, body).last() == InstructionModel::Label(end_label(id)),
{
}

/// `break` jumps to the end label of the loop or `switch` whose identifier
/// it carries, and a loop and a `switch` end with that label.
pub proof fn lemma_break_leaves(
    id: Seq<char>,
    cases: Seq<Case>,
    first: Seq<InstructionModel>,
    body: Seq<InstructionModel>,
    variables: Seq<CompilerVariableModel>,
    labels: nat,
)
    ensures
        statement_code(StatementModel::Break(id), variables, labels) == only(
            seq![InstructionModel::JP(ImmediateModel::Label(end_label(id)))],
            labels,
        ),
        while_code(id, first, body).last() == InstructionModel::Label(end_label(id)),
        switch_code(id, cases, first, body).last() == InstructionModel::Label(end_label(id)),
{
}

/// An assignment leaves the assigned value in `a0`: the value is computed
/// and kept on the stack; the code of the address gives back what it takes
/// from the stack, so that the value comes back into `a1`; `a1` is stored,
/// and then moved into `a0`.
pub proof fn lemma_assignment_value(
    lhs: ExpressionModel,
    rhs: ExpressionModel,
    variables: Seq<CompilerVariableModel>,
    labels: nat,
)
    ensures
        expression_code(
            ExpressionModel::Binary(BinaryKind::Assignment, Box::new(lhs), Box::new(rhs)),
            variables,
            labels,
        ) matches Ok(generated) ==> {
            let value = expression_code(rhs, variables, labels);
            let address = lvalue_code(lhs, variables, next(value));
            let code = generated.code;
            &&& code == store_code(code_of(value), code_of(address))
            &&& calm(code_of(address))
            &&& code[code_of(value).len() as int] == InstructionModel::PushP(Register::A0)
            &&& code[code.len() - 3] == InstructionModel::PopP(Register::A1)
            &&& code[
                code.len() - 2
            ] == InstructionModel::Sw(Register::A1, at_offset(0, Register::A0))
            &&& code[code.len() - 1] == InstructionModel::MvP(Register::A0, Register::A1)
        },
{
    let value = expression_code(rhs, variables, labels);
    lemma_lvalue_calm(lhs, variables, next(value));
}

} // verus!

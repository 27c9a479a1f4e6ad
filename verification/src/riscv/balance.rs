//! The stack discipline of the generated code: what is taken from the stack
//! is given back before a function returns.
use vstd::prelude::*;
use crate::riscv::optimized;
use crate::riscv::compile::{
    code_of, epilogue, frame_bytes, frame_of, max_frame, next, only, stack_bytes,
    CompilerVariableModel,
};
use crate::riscv::compile::declaration::declaration_code;
use crate::riscv::compile::expression::{
    and_code, at_least_code, call_code, expression_code, lvalue_code, max_arguments, or_code,
    plain_code, postfix_code, register_arguments, register_arguments_code, reload_code,
    stack_arguments_code, step_code, store_code, ternary_code,
};
use crate::riscv::compile::function_definition::{
    frame_variables, function_code, function_variables, lemma_leaked_layout, prologue, spill_code,
};
use crate::riscv::compile::scope::label_code;
use crate::riscv::compile::statement::{
    dispatch_code, end_label, fallback_label, items_code, scope_item_code, start_label,
    statement_code, switch_code, while_code,
};
use crate::riscv::instruction::{destination, equivalent, InstructionModel};
use crate::riscv::values::{at_offset, number, ImmediateModel, Register};
use crate::types::declaration::DeclarationModel;
use crate::types::expression::{BinaryKind, ExpressionModel, UnaryKind};
use crate::types::function_definition::FunctionDefinitionModel;
use crate::types::statement::{Case, ForInitModel, ScopeItemModel, StatementModel};
use crate::utils::nearest_multiple::lemma_round_up_is_least_multiple;
use crate::utils::random_name::mangled;

verus! {

/// The number of bytes by which an instruction moves the stack pointer:
/// negative where it takes room, positive where it gives room back.
pub open spec fn stack_change(instruction: InstructionModel) -> int {
    match instruction {
        InstructionModel::Addi(
            Register::Sp,
            Register::Sp,
            ImmediateModel::Number(bytes),
        ) => bytes as int,
        InstructionModel::PushP(_) => -16,
        InstructionModel::PopP(_) => 16,
        _ => 0,
    }
}

/// Whether an instruction leaves the stack pointer alone or moves it by a
/// known number of bytes.
pub open spec fn stack_safe(instruction: InstructionModel) -> bool {
    match instruction {
        InstructionModel::Addi(Register::Sp, Register::Sp, ImmediateModel::Number(_)) => true,
        _ => destination(instruction) != Some(Register::Sp),
    }
}

/// Whether code runs from its first line to its last without a return and
/// with the stack pointer moved by known numbers of bytes only.
pub open spec fn straight(code: Seq<InstructionModel>) -> bool
    decreases code.len(),
{
    if code.len() == 0 {
        true
    } else {
        straight(code.drop_last()) && stack_safe(code.last()) && code.last()
            != InstructionModel::RetP
    }
}

/// The number of bytes by which code moves the stack pointer, line by line.
pub open spec fn stack_sum(code: Seq<InstructionModel>) -> int
    decreases code.len(),
{
    if code.len() == 0 {
        0
    } else {
        stack_sum(code.drop_last()) + stack_change(code.last())
    }
}

/// Whether every line of code moves the stack pointer by a multiple of the
/// stack alignment, if it moves it at all.
pub open spec fn aligned(code: Seq<InstructionModel>) -> bool
    decreases code.len(),
{
    if code.len() == 0 {
        true
    } else {
        aligned(code.drop_last()) && stack_change(code.last()) % 16 == 0
    }
}

/// Code that takes nothing from the stack, or gives all of it back, and
/// keeps the stack pointer aligned.
pub open spec fn calm(code: Seq<InstructionModel>) -> bool {
    straight(code) && stack_sum(code) == 0 && aligned(code)
}

/// Where the stack pointer stands after `code`, counted in bytes from where
/// it stood when the function was entered, if it stands at `start` before.
/// A return must find the stack pointer where it stood at entry; the text
/// behind a return is reached by a jump from inside the function, where
/// the stack pointer stands at `inside`. `None` says that a return finds
/// the stack pointer elsewhere, or that a line moves it in an unknown way.
pub open spec fn stack_after(code: Seq<InstructionModel>, start: int, inside: int) -> Option<int>
    decreases code.len(),
{
    if code.len() == 0 {
        Some(start)
    } else {
        match stack_after(code.drop_last(), start, inside) {
            Some(before) => if code.last() == InstructionModel::RetP {
                if before == 0 {
                    Some(inside)
                } else {
                    None
                }
            } else if stack_safe(code.last()) {
                Some(before + stack_change(code.last()))
            } else {
                None
            },
            None => None,
        }
    }
}

/// Code of the body of a function with a frame of `frame` bytes that leaves
/// the stack pointer where the body keeps it, gives the frame and the 32
/// bytes of the saved registers back before each return, and keeps the
/// stack pointer aligned.
pub open spec fn settled(code: Seq<InstructionModel>, frame: nat) -> bool {
    stack_after(code, -(32 + frame), -(32 + frame)) == Some(-(32 + frame)) && aligned(code)
}

/// Code with one more line is straight if the code and the line are.
pub broadcast proof fn lemma_straight_push(
    code: Seq<InstructionModel>,
    instruction: InstructionModel,
)
    ensures
        #[trigger] straight(code.push(instruction)) == (straight(code) && stack_safe(instruction)
            && instruction != InstructionModel::RetP),
{
    assert(code.push(instruction).drop_last() =~= code);
}

/// One more line moves the stack pointer by its own bytes more.
pub broadcast proof fn lemma_sum_push(code: Seq<InstructionModel>, instruction: InstructionModel)
    ensures
        #[trigger] stack_sum(code.push(instruction)) == stack_sum(code) + stack_change(instruction),
{
    assert(code.push(instruction).drop_last() =~= code);
}

/// Code with one more line is aligned if the code and the line are.
pub broadcast proof fn lemma_aligned_push(
    code: Seq<InstructionModel>,
    instruction: InstructionModel,
)
    ensures
        #[
            trigger
        ] aligned(code.push(instruction)) == (aligned(code) && stack_change(instruction) % 16
            == 0),
{
    assert(code.push(instruction).drop_last() =~= code);
}

/// Code in two parts is aligned if both parts are.
pub broadcast proof fn lemma_aligned_concat(
    first: Seq<InstructionModel>,
    second: Seq<InstructionModel>,
)
    ensures
        #[trigger] aligned(first + second) == (aligned(first) && aligned(second)),
    decreases second.len(),
{
    if second.len() == 0 {
        assert(first + second =~= first);
    } else {
        lemma_aligned_concat(first, second.drop_last());
        assert((first + second).drop_last() =~= first + second.drop_last());
    }
}

/// Code in two parts is straight if both parts are.
pub broadcast proof fn lemma_straight_concat(
    first: Seq<InstructionModel>,
    second: Seq<InstructionModel>,
)
    ensures
        #[trigger] straight(first + second) == (straight(first) && straight(second)),
    decreases second.len(),
{
    if second.len() == 0 {
        assert(first + second =~= first);
    } else {
        lemma_straight_concat(first, second.drop_last());
        assert((first + second).drop_last() =~= first + second.drop_last());
    }
}

/// Code in two parts moves the stack pointer by the bytes of both.
pub broadcast proof fn lemma_sum_concat(first: Seq<InstructionModel>, second: Seq<InstructionModel>)
    ensures
        #[trigger] stack_sum(first + second) == stack_sum(first) + stack_sum(second),
    decreases second.len(),
{
    if second.len() == 0 {
        assert(first + second =~= first);
    } else {
        lemma_sum_concat(first, second.drop_last());
        assert((first + second).drop_last() =~= first + second.drop_last());
    }
}

/// Code in two parts moves the stack pointer as the first part and then the
/// second part do.
pub proof fn lemma_after_concat(
    first: Seq<InstructionModel>,
    second: Seq<InstructionModel>,
    start: int,
    inside: int,
)
    ensures
        stack_after(first + second, start, inside) == match stack_after(first, start, inside) {
            Some(middle) => stack_after(second, middle, inside),
            None => None,
        },
    decreases second.len(),
{
    if second.len() == 0 {
        assert(first + second =~= first);
    } else {
        lemma_after_concat(first, second.drop_last(), start, inside);
        assert((first + second).drop_last() =~= first + second.drop_last());
    }
}

/// Straight code moves the stack pointer by its sum, wherever it stands.
pub proof fn lemma_straight_after(code: Seq<InstructionModel>, start: int, inside: int)
    requires
        straight(code),
    ensures
        stack_after(code, start, inside) == Some(start + stack_sum(code)),
    decreases code.len(),
{
    if code.len() > 0 {
        lemma_straight_after(code.drop_last(), start, inside);
    }
}

/// Calm code is settled, whatever the frame.
pub proof fn lemma_calm_settled(code: Seq<InstructionModel>, frame: nat)
    requires
        calm(code),
    ensures
        settled(code, frame),
{
    lemma_straight_after(code, -(32 + frame), -(32 + frame));
}

/// Settled code followed by settled code is settled.
pub proof fn lemma_settled_concat(
    first: Seq<InstructionModel>,
    second: Seq<InstructionModel>,
    frame: nat,
)
    requires
        settled(first, frame),
        settled(second, frame),
    ensures
        settled(first + second, frame),
{
    lemma_after_concat(first, second, -(32 + frame), -(32 + frame));
    lemma_aligned_concat(first, second);
}

/// Settled code followed by a line that leaves the stack pointer alone is
/// settled.
pub proof fn lemma_settled_push(
    code: Seq<InstructionModel>,
    instruction: InstructionModel,
    frame: nat,
)
    requires
        settled(code, frame),
        stack_safe(instruction),
        stack_change(instruction) == 0,
        instruction != InstructionModel::RetP,
    ensures
        settled(code.push(instruction), frame),
{
    assert(code.push(instruction).drop_last() =~= code);
    lemma_aligned_push(code, instruction);
}

/// The instructions that leave a function give back the frame and the 32
/// bytes of the saved registers, and then return.
pub proof fn lemma_epilogue_settled(frame: nat)
    requires
        frame <= max_frame(),
        frame % 16 == 0,
    ensures
        settled(epilogue(frame), frame),
        epilogue(frame).last() == InstructionModel::RetP,
{
    broadcast use lemma_straight_push, lemma_sum_push, lemma_aligned_push;

    assert(stack_change(InstructionModel::Addi(Register::Sp, Register::Sp, number(frame as int)))
        == frame);
    let code = epilogue(frame);
    let level = -(32 + frame);
    let lines = Seq::empty().push(
        InstructionModel::Addi(Register::Sp, Register::Sp, number(frame as int)),
    ).push(InstructionModel::Lw(Register::S1, at_offset(24, Register::Sp))).push(
        InstructionModel::Lw(Register::Fp, at_offset(16, Register::Sp)),
    ).push(InstructionModel::Lw(Register::Ra, at_offset(0, Register::Sp))).push(
        InstructionModel::Addi(Register::Sp, Register::Sp, number(32)),
    );
    assert(code == lines.push(InstructionModel::RetP));
    assert(code.drop_last() =~= lines);
    assert(straight(lines));
    assert(stack_sum(lines) == 32 + frame);
    assert(aligned(lines));
    lemma_straight_after(lines, level, level);
}

/// An operator on calm operands is calm: it gives back the sixteen bytes
/// in which it keeps its left operand.
pub broadcast proof fn lemma_plain_calm(
    kind: BinaryKind,
    left: Seq<InstructionModel>,
    right: Seq<InstructionModel>,
)
    ensures
        calm(left) && calm(right) ==> calm(#[trigger] plain_code(kind, left, right)),
{
    broadcast use
        lemma_straight_push,
        lemma_sum_push,
        lemma_aligned_push,
        lemma_straight_concat,
        lemma_sum_concat,
        lemma_aligned_concat,
    ;

}

/// `&&` on calm operands is calm.
pub broadcast proof fn lemma_and_calm(
    label: Seq<char>,
    left: Seq<InstructionModel>,
    right: Seq<InstructionModel>,
)
    ensures
        calm(left) && calm(right) ==> calm(#[trigger] and_code(label, left, right)),
{
    broadcast use
        lemma_straight_push,
        lemma_sum_push,
        lemma_aligned_push,
        lemma_straight_concat,
        lemma_sum_concat,
        lemma_aligned_concat,
    ;

}

/// `||` on calm operands is calm.
pub broadcast proof fn lemma_or_calm(
    first: Seq<char>,
    second: Seq<char>,
    left: Seq<InstructionModel>,
    right: Seq<InstructionModel>,
)
    ensures
        calm(left) && calm(right) ==> calm(#[trigger] or_code(first, second, left, right)),
{
    broadcast use
        lemma_straight_push,
        lemma_sum_push,
        lemma_aligned_push,
        lemma_straight_concat,
        lemma_sum_concat,
        lemma_aligned_concat,
    ;

}

/// A store of a calm value to a calm address is calm.
pub broadcast proof fn lemma_store_calm(
    value: Seq<InstructionModel>,
    address: Seq<InstructionModel>,
)
    ensures
        calm(value) && calm(address) ==> calm(#[trigger] store_code(value, address)),
{
    broadcast use
        lemma_straight_push,
        lemma_sum_push,
        lemma_aligned_push,
        lemma_straight_concat,
        lemma_sum_concat,
        lemma_aligned_concat,
    ;

}

/// A postfix update with a calm value and a calm update is calm.
pub broadcast proof fn lemma_postfix_calm(
    value: Seq<InstructionModel>,
    update: Seq<InstructionModel>,
)
    ensures
        calm(value) && calm(update) ==> calm(#[trigger] postfix_code(value, update)),
{
    broadcast use
        lemma_straight_push,
        lemma_sum_push,
        lemma_aligned_push,
        lemma_straight_concat,
        lemma_sum_concat,
        lemma_aligned_concat,
    ;

}

/// A conditional with calm parts is calm.
pub broadcast proof fn lemma_ternary_calm(
    end: Seq<char>,
    otherwise: Seq<char>,
    condition: Seq<InstructionModel>,
    then_code: Seq<InstructionModel>,
    else_code: Seq<InstructionModel>,
)
    ensures
        calm(condition) && calm(then_code) && calm(else_code) ==> calm(
            #[trigger] ternary_code(end, otherwise, condition, then_code, else_code),
        ),
{
    broadcast use
        lemma_straight_push,
        lemma_sum_push,
        lemma_aligned_push,
        lemma_straight_concat,
        lemma_sum_concat,
        lemma_aligned_concat,
    ;

}

/// The loads of the argument registers leave the stack pointer alone.
pub proof fn lemma_reload_calm(held: nat, count: nat)
    requires
        count <= 8,
    ensures
        calm(reload_code(held, count)),
    decreases count,
{
    broadcast use lemma_straight_push, lemma_sum_push, lemma_aligned_push;

    if count > 0 {
        lemma_reload_calm(held, (count - 1) as nat);
    }
}

/// A call gives back the room that it takes for its arguments.
pub proof fn lemma_call_calm(
    total: nat,
    stack: Seq<InstructionModel>,
    registers: Seq<InstructionModel>,
    target: Seq<InstructionModel>,
)
    requires
        total <= max_arguments(),
        calm(stack),
        calm(registers),
        calm(target),
    ensures
        calm(call_code(total, stack, registers, target)),
{
    broadcast use
        lemma_straight_push,
        lemma_sum_push,
        lemma_aligned_push,
        lemma_straight_concat,
        lemma_sum_concat,
        lemma_aligned_concat,
    ;

    lemma_reload_calm(register_arguments(total), register_arguments(total));
    lemma_round_up_is_least_multiple(4 * (total - register_arguments(total)), 16);
    lemma_round_up_is_least_multiple(4 * register_arguments(total) as int, 16);
}

/// The code of an expression takes nothing from the stack that it does not
/// give back, keeps the stack pointer aligned, and does not return. The
/// number of the next fresh label does not go down.
pub proof fn lemma_expression_calm(
    expression: ExpressionModel,
    variables: Seq<CompilerVariableModel>,
    labels: nat,
)
    ensures
        expression_code(expression, variables, labels) matches Ok(generated)
            ==> calm(generated.code)
            && generated.labels >= labels,
    decreases expression, 1nat,
{
    match expression {
        ExpressionModel::Number(_) => {
            broadcast use lemma_straight_push, lemma_sum_push, lemma_aligned_push;

        },
        ExpressionModel::FunctionSymbol(_) => {
            broadcast use lemma_straight_push, lemma_sum_push, lemma_aligned_push;

        },
        ExpressionModel::Variable(_) => {
            broadcast use lemma_straight_push, lemma_sum_push, lemma_aligned_push;

        },
        ExpressionModel::Unary(_, _) => {
            lemma_unary_calm(expression, variables, labels);
        },
        ExpressionModel::Binary(kind, _, _) => {
            match kind {
                BinaryKind::LogicalAnd => lemma_logical_calm(expression, variables, labels),
                BinaryKind::LogicalOr => lemma_logical_calm(expression, variables, labels),
                BinaryKind::GreaterThanEquals => lemma_at_least_calm(expression, variables, labels),
                BinaryKind::LessThan => {
                    broadcast use lemma_straight_push, lemma_sum_push, lemma_aligned_push;

                    lemma_at_least_calm(expression, variables, labels);
                },
                BinaryKind::Assignment => lemma_assignment_calm(expression, variables, labels),
                _ => lemma_binary_calm(expression, variables, labels),
            }
        },
        ExpressionModel::Ternary(_, _, _) => {
            lemma_conditional_calm(expression, variables, labels);
        },
        ExpressionModel::Call(_, _) => {
            lemma_called_calm(expression, variables, labels);
        },
    }
}

/// The code of an operator with one operand is calm.
pub proof fn lemma_unary_calm(
    expression: ExpressionModel,
    variables: Seq<CompilerVariableModel>,
    labels: nat,
)
    requires
        expression is Unary,
    ensures
        expression_code(expression, variables, labels) matches Ok(generated)
            ==> calm(generated.code)
            && generated.labels >= labels,
    decreases expression, 0nat,
{
    broadcast use lemma_straight_push, lemma_sum_push, lemma_aligned_push, lemma_postfix_calm;

    match expression {
        ExpressionModel::Unary(kind, operand) => {
            let value = expression_code(*operand, variables, labels);
            lemma_expression_calm(*operand, variables, labels);
            match kind {
                UnaryKind::Ref => lemma_lvalue_calm(*operand, variables, labels),
                UnaryKind::PrefixIncrement => lemma_step_calm(
                    *operand,
                    BinaryKind::Addition,
                    variables,
                    labels,
                ),
                UnaryKind::PrefixDecrement => lemma_step_calm(
                    *operand,
                    BinaryKind::Subtraction,
                    variables,
                    labels,
                ),
                UnaryKind::PostfixIncrement => lemma_step_calm(
                    *operand,
                    BinaryKind::Addition,
                    variables,
                    next(value),
                ),
                UnaryKind::PostfixDecrement => lemma_step_calm(
                    *operand,
                    BinaryKind::Subtraction,
                    variables,
                    next(value),
                ),
                _ => {},
            }
        },
        _ => {},
    }
}

/// The code of `&&` and of `||` is calm.
pub proof fn lemma_logical_calm(
    expression: ExpressionModel,
    variables: Seq<CompilerVariableModel>,
    labels: nat,
)
    requires
        expression matches ExpressionModel::Binary(kind, _, _) && (kind == BinaryKind::LogicalAnd
            || kind == BinaryKind::LogicalOr),
    ensures
        expression_code(expression, variables, labels) matches Ok(generated)
            ==> calm(generated.code)
            && generated.labels >= labels,
    decreases expression, 0nat,
{
    broadcast use lemma_and_calm, lemma_or_calm;

    match expression {
        ExpressionModel::Binary(kind, lhs, rhs) => {
            if kind == BinaryKind::LogicalAnd {
                let left = expression_code(*lhs, variables, labels + 1);
                lemma_expression_calm(*lhs, variables, labels + 1);
                lemma_expression_calm(*rhs, variables, next(left));
            } else {
                let left = expression_code(*lhs, variables, labels + 2);
                lemma_expression_calm(*lhs, variables, labels + 2);
                lemma_expression_calm(*rhs, variables, next(left));
            }
        },
        _ => {},
    }
}

/// The code of an assignment is calm.
pub proof fn lemma_assignment_calm(
    expression: ExpressionModel,
    variables: Seq<CompilerVariableModel>,
    labels: nat,
)
    requires
        expression matches ExpressionModel::Binary(BinaryKind::Assignment, _, _),
    ensures
        expression_code(expression, variables, labels) matches Ok(generated)
            ==> calm(generated.code)
            && generated.labels >= labels,
    decreases expression, 0nat,
{
    broadcast use lemma_store_calm;

    match expression {
        ExpressionModel::Binary(_, lhs, rhs) => {
            let value = expression_code(*rhs, variables, labels);
            lemma_expression_calm(*rhs, variables, labels);
            lemma_lvalue_calm(*lhs, variables, next(value));
        },
        _ => {},
    }
}

/// The code of an operator of one instruction, of a comparison built from
/// one, and of a compound assignment is calm.
pub proof fn lemma_binary_calm(
    expression: ExpressionModel,
    variables: Seq<CompilerVariableModel>,
    labels: nat,
)
    requires
        expression matches ExpressionModel::Binary(kind, _, _) && kind != BinaryKind::LogicalAnd
            && kind != BinaryKind::LogicalOr && kind != BinaryKind::GreaterThanEquals && kind
            != BinaryKind::LessThan && kind != BinaryKind::Assignment,
    ensures
        expression_code(expression, variables, labels) matches Ok(generated)
            ==> calm(generated.code)
            && generated.labels >= labels,
    decreases expression, 0nat,
{
    broadcast use
        lemma_straight_push,
        lemma_sum_push,
        lemma_aligned_push,
        lemma_plain_calm,
        lemma_store_calm,
    ;

    match expression {
        ExpressionModel::Binary(kind, lhs, rhs) => {
            let left = expression_code(*lhs, variables, labels);
            let right = expression_code(*rhs, variables, next(left));
            lemma_expression_calm(*lhs, variables, labels);
            lemma_expression_calm(*rhs, variables, next(left));
            lemma_lvalue_calm(*lhs, variables, next(right));
        },
        _ => {},
    }
}

/// The code of the conditional operator is calm.
pub proof fn lemma_conditional_calm(
    expression: ExpressionModel,
    variables: Seq<CompilerVariableModel>,
    labels: nat,
)
    requires
        expression is Ternary,
    ensures
        expression_code(expression, variables, labels) matches Ok(generated)
            ==> calm(generated.code)
            && generated.labels >= labels,
    decreases expression, 0nat,
{
    broadcast use lemma_ternary_calm;

    match expression {
        ExpressionModel::Ternary(condition, then_expr, else_expr) => {
            let test = expression_code(*condition, variables, labels);
            lemma_expression_calm(*condition, variables, labels);
            let then_code = expression_code(*then_expr, variables, next(test) + 2);
            lemma_expression_calm(*then_expr, variables, next(test) + 2);
            lemma_expression_calm(*else_expr, variables, next(then_code));
        },
        _ => {},
    }
}

/// The code of a call is calm.
pub proof fn lemma_called_calm(
    expression: ExpressionModel,
    variables: Seq<CompilerVariableModel>,
    labels: nat,
)
    requires
        expression is Call,
    ensures
        expression_code(expression, variables, labels) matches Ok(generated)
            ==> calm(generated.code)
            && generated.labels >= labels,
    decreases expression, 0nat,
{
    match expression {
        ExpressionModel::Call(callee, arguments) => {
            if arguments.len() <= max_arguments() {
                let stack = stack_arguments_code(
                    arguments,
                    arguments.len() as int,
                    variables,
                    labels,
                );
                let held = register_arguments(arguments.len());
                let registers = register_arguments_code(
                    arguments,
                    held as int,
                    held as int,
                    variables,
                    next(stack),
                );
                let target = expression_code(*callee, variables, next(registers));
                lemma_stack_arguments_calm(arguments, arguments.len() as int, variables, labels);
                lemma_register_arguments_calm(
                    arguments,
                    held as int,
                    held as int,
                    variables,
                    next(stack),
                );
                lemma_expression_calm(*callee, variables, next(registers));
                if stack is Ok && registers is Ok && target is Ok {
                    lemma_call_calm(
                        arguments.len(),
                        code_of(stack),
                        code_of(registers),
                        code_of(target),
                    );
                }
            }
        },
        _ => {},
    }
}

/// The code of `>=` is calm.
pub proof fn lemma_at_least_calm(
    expression: ExpressionModel,
    variables: Seq<CompilerVariableModel>,
    labels: nat,
)
    ensures
        at_least_code(expression, variables, labels) matches Ok(generated) ==> calm(generated.code)
            && generated.labels >= labels,
    decreases expression, 0nat,
{
    broadcast use lemma_plain_calm, lemma_or_calm;

    match expression {
        ExpressionModel::Binary(_, lhs, rhs) => {
            let left = expression_code(*lhs, variables, labels + 2);
            lemma_expression_calm(*lhs, variables, labels + 2);
            let right = expression_code(*rhs, variables, next(left));
            lemma_expression_calm(*rhs, variables, next(left));
            let left_again = expression_code(*lhs, variables, next(right));
            lemma_expression_calm(*lhs, variables, next(right));
            lemma_expression_calm(*rhs, variables, next(left_again));
        },
        _ => {},
    }
}

/// The code of an increment or decrement is calm.
pub proof fn lemma_step_calm(
    target: ExpressionModel,
    operator: BinaryKind,
    variables: Seq<CompilerVariableModel>,
    labels: nat,
)
    ensures
        step_code(target, operator, variables, labels) matches Ok(generated)
            ==> calm(generated.code)
            && generated.labels >= labels,
    decreases target, 2nat,
{
    broadcast use
        lemma_straight_push,
        lemma_sum_push,
        lemma_aligned_push,
        lemma_plain_calm,
        lemma_store_calm,
    ;

    let old_value = expression_code(target, variables, labels);
    lemma_expression_calm(target, variables, labels);
    lemma_lvalue_calm(target, variables, next(old_value));
}

/// The code of an address is calm.
pub proof fn lemma_lvalue_calm(
    expression: ExpressionModel,
    variables: Seq<CompilerVariableModel>,
    labels: nat,
)
    ensures
        lvalue_code(expression, variables, labels) matches Ok(generated) ==> calm(generated.code)
            && generated.labels >= labels,
    decreases expression, 0nat,
{
    broadcast use lemma_straight_push, lemma_sum_push, lemma_aligned_push;

    match expression {
        ExpressionModel::Unary(UnaryKind::Deref, pointer) => {
            lemma_expression_calm(*pointer, variables, labels);
        },
        _ => {},
    }
}

/// The code of the stack arguments of a call is calm.
pub proof fn lemma_stack_arguments_calm(
    arguments: Seq<ExpressionModel>,
    count: int,
    variables: Seq<CompilerVariableModel>,
    labels: nat,
)
    ensures
        stack_arguments_code(arguments, count, variables, labels) matches Ok(generated)
            ==> calm(generated.code)
            && generated.labels >= labels,
    decreases arguments, count,
{
    broadcast use
        lemma_straight_push,
        lemma_sum_push,
        lemma_aligned_push,
        lemma_straight_concat,
        lemma_sum_concat,
        lemma_aligned_concat,
    ;

    if !(count <= 8 || count > arguments.len()) {
        let before = stack_arguments_code(arguments, count - 1, variables, labels);
        lemma_stack_arguments_calm(arguments, count - 1, variables, labels);
        lemma_expression_calm(arguments[count - 1], variables, next(before));
    }
}

/// The code of the register arguments of a call is calm.
pub proof fn lemma_register_arguments_calm(
    arguments: Seq<ExpressionModel>,
    held: int,
    count: int,
    variables: Seq<CompilerVariableModel>,
    labels: nat,
)
    ensures
        register_arguments_code(arguments, held, count, variables, labels) matches Ok(generated)
            ==> calm(generated.code)
            && generated.labels >= labels,
    decreases arguments, count,
{
    broadcast use
        lemma_straight_push,
        lemma_sum_push,
        lemma_aligned_push,
        lemma_straight_concat,
        lemma_sum_concat,
        lemma_aligned_concat,
    ;

    if !(count <= 0 || count > held || held > arguments.len()) {
        let before = register_arguments_code(arguments, held, count - 1, variables, labels);
        lemma_register_arguments_calm(arguments, held, count - 1, variables, labels);
        lemma_expression_calm(arguments[held - count], variables, next(before));
    }
}

/// The size of a frame is a multiple of the stack alignment.
pub proof fn lemma_frame_aligned(variables: Seq<CompilerVariableModel>)
    ensures
        frame_of(variables) % 16 == 0,
        frame_of(variables) <= max_frame(),
{
    match stack_bytes(variables, variables.len() as int) {
        Some(bytes) => {
            lemma_round_up_is_least_multiple(bytes as int, 16);
        },
        None => {},
    }
}

/// A loop with a calm test and a settled body is settled.
pub proof fn lemma_while_settled(
    id: Seq<char>,
    test: Seq<InstructionModel>,
    body: Seq<InstructionModel>,
    frame: nat,
)
    requires
        calm(test),
        settled(body, frame),
    ensures
        settled(while_code(id, test, body), frame),
{
    broadcast use
        lemma_straight_push,
        lemma_sum_push,
        lemma_aligned_push,
        lemma_straight_concat,
        lemma_sum_concat,
        lemma_aligned_concat,
    ;

    let start = (seq![InstructionModel::Label(start_label(id))]
        + test).push(
        InstructionModel::BeqzP(
            Register::A0,
            ImmediateModel::Label(end_label(id)),
        ),
    );
    lemma_calm_settled(start, frame);
    lemma_settled_concat(start, body, frame);
    let jump = InstructionModel::JP(
        ImmediateModel::Label(start_label(id)),
    );
    lemma_settled_push(start + body, jump, frame);
    lemma_settled_push(
        (start + body).push(jump),
        InstructionModel::Label(end_label(id)),
        frame,
    );
}

/// A branch on a calm condition between two settled parts is settled.
pub proof fn lemma_branch_settled(
    end: Seq<char>,
    otherwise: Seq<char>,
    condition: Seq<InstructionModel>,
    then_code: Seq<InstructionModel>,
    else_code: Seq<InstructionModel>,
    frame: nat,
)
    requires
        calm(condition),
        settled(then_code, frame),
        settled(else_code, frame),
    ensures
        settled(ternary_code(end, otherwise, condition, then_code, else_code), frame),
{
    broadcast use lemma_straight_push, lemma_sum_push, lemma_aligned_push;

    let start = condition.push(
        InstructionModel::BeqzP(Register::A0, ImmediateModel::Label(otherwise)),
    );
    lemma_calm_settled(start, frame);
    lemma_settled_concat(start, then_code, frame);
    let jump = InstructionModel::JP(ImmediateModel::Label(end));
    lemma_settled_push(start + then_code, jump, frame);
    lemma_settled_push((start + then_code).push(jump), InstructionModel::Label(otherwise), frame);
    let first = (start + then_code).push(jump).push(InstructionModel::Label(otherwise));
    lemma_settled_concat(first, else_code, frame);
    lemma_settled_push(first + else_code, InstructionModel::Label(end), frame);
}

/// The tests of a `switch` leave the stack pointer alone.
pub proof fn lemma_dispatch_calm(cases: Seq<Case>, id: Seq<char>, count: int)
    ensures
        calm(dispatch_code(cases, id, count)),
    decreases count,
{
    broadcast use lemma_straight_push, lemma_sum_push, lemma_aligned_push;

    if count > 0 {
        lemma_dispatch_calm(cases, id, count - 1);
    }
}

/// A `switch` on a calm value with a settled body is settled.
pub proof fn lemma_switch_settled(
    id: Seq<char>,
    cases: Seq<Case>,
    value: Seq<InstructionModel>,
    body: Seq<InstructionModel>,
    frame: nat,
)
    requires
        calm(value),
        settled(body, frame),
    ensures
        settled(switch_code(id, cases, value, body), frame),
{
    broadcast use
        lemma_straight_push,
        lemma_sum_push,
        lemma_aligned_push,
        lemma_straight_concat,
        lemma_sum_concat,
        lemma_aligned_concat,
    ;

    lemma_dispatch_calm(cases, id, cases.len() as int);
    let start = (value.push(InstructionModel::Add(Register::S1, Register::A0, Register::Zero))
        + dispatch_code(cases, id, cases.len() as int)).push(
        InstructionModel::JP(
            ImmediateModel::Label(fallback_label(cases, id)),
        ),
    );
    lemma_calm_settled(start, frame);
    lemma_settled_concat(start, body, frame);
    lemma_settled_push(
        start + body,
        InstructionModel::Label(end_label(id)),
        frame,
    );
}

/// The code of a declaration is calm.
pub proof fn lemma_declaration_calm(
    declaration: DeclarationModel,
    variables: Seq<CompilerVariableModel>,
    labels: nat,
)
    ensures
        declaration_code(declaration, variables, labels) matches Ok(generated)
            ==> calm(generated.code)
            && generated.labels >= labels,
{
    broadcast use lemma_store_calm;

    match declaration.value {
        Some(value) => {
            let value_code = expression_code(value, variables, labels);
            lemma_expression_calm(value, variables, labels);
            lemma_lvalue_calm(
                ExpressionModel::Variable(declaration.name),
                variables,
                next(value_code),
            );
        },
        None => {},
    }
}

/// The code of a statement of a function leaves the stack pointer where the
/// body of the function keeps it, and each return in it finds the stack
/// pointer where it stood when the function was entered. The number of the
/// next fresh label does not go down.
pub proof fn lemma_statement_settled(
    statement: StatementModel,
    variables: Seq<CompilerVariableModel>,
    labels: nat,
)
    requires
        frame_bytes(variables) is Some,
    ensures
        statement_code(statement, variables, labels) matches Ok(generated) ==> settled(
            generated.code,
            frame_of(variables),
        ) && generated.labels >= labels,
    decreases statement, 1nat,
{
    let frame = frame_of(variables);
    match statement {
        StatementModel::Return(value) => {
            broadcast use lemma_straight_push, lemma_sum_push, lemma_aligned_push;

            lemma_frame_aligned(variables);
            lemma_epilogue_settled(frame);
            match value {
                Some(expression) => {
                    lemma_expression_calm(expression, variables, labels);
                    let value_code = expression_code(expression, variables, labels);
                    if value_code is Ok {
                        lemma_calm_settled(code_of(value_code), frame);
                        lemma_settled_concat(code_of(value_code), epilogue(frame), frame);
                    }
                },
                None => {
                    assert(Seq::<InstructionModel>::empty() + epilogue(frame) =~= epilogue(frame));
                },
            }
        },
        StatementModel::Expression(expression) => {
            lemma_expression_calm(expression, variables, labels);
            let code = expression_code(expression, variables, labels);
            if code is Ok {
                lemma_calm_settled(code_of(code), frame);
            }
        },
        StatementModel::Scope(items) => {
            lemma_items_settled(items, items.len() as int, variables, labels);
        },
        StatementModel::If { .. } => {
            lemma_if_settled(statement, variables, labels);
        },
        StatementModel::While { condition, block, id } => {
            let test = expression_code(condition, variables, labels);
            lemma_expression_calm(condition, variables, labels);
            lemma_statement_settled(*block, variables, next(test));
            let body = statement_code(*block, variables, next(test));
            if test is Ok && body is Ok {
                lemma_while_settled(id, code_of(test), code_of(body), frame);
            }
        },
        StatementModel::For { .. } => {
            lemma_for_settled(statement, variables, labels);
        },
        StatementModel::Switch { expression, body, id, cases } => {
            let value = expression_code(expression, variables, labels);
            lemma_expression_calm(expression, variables, labels);
            lemma_statement_settled(*body, variables, next(value));
            let inner = statement_code(*body, variables, next(value));
            if value is Ok && inner is Ok {
                lemma_switch_settled(id, cases, code_of(value), code_of(inner), frame);
            }
        },
        _ => {
            broadcast use lemma_straight_push, lemma_sum_push, lemma_aligned_push;

            let code = statement_code(statement, variables, labels);
            lemma_calm_settled(code_of(code), frame);
        },
    }
}

/// The code of an `if` statement is settled.
pub proof fn lemma_if_settled(
    statement: StatementModel,
    variables: Seq<CompilerVariableModel>,
    labels: nat,
)
    requires
        frame_bytes(variables) is Some,
        statement is If,
    ensures
        statement_code(statement, variables, labels) matches Ok(generated) ==> settled(
            generated.code,
            frame_of(variables),
        ) && generated.labels >= labels,
    decreases statement, 0nat,
{
    let frame = frame_of(variables);
    match statement {
        StatementModel::If { condition, then_block, else_block } => {
            let test = expression_code(condition, variables, labels);
            lemma_expression_calm(condition, variables, labels);
            let then_code = statement_code(*then_block, variables, next(test) + 2);
            lemma_statement_settled(*then_block, variables, next(test) + 2);
            let else_code = match else_block {
                Some(block) => statement_code(*block, variables, next(then_code)),
                None => only(Seq::empty(), next(then_code)),
            };
            match else_block {
                Some(block) => {
                    lemma_statement_settled(*block, variables, next(then_code));
                },
                None => {},
            }
            if test is Ok && then_code is Ok && else_code is Ok {
                lemma_branch_settled(
                    mangled("if_end"@, next(test)),
                    mangled("else_start"@, next(test) + 1),
                    code_of(test),
                    code_of(then_code),
                    code_of(else_code),
                    frame,
                );
            }
        },
        _ => {},
    }
}

/// The code of a `for` statement is settled.
pub proof fn lemma_for_settled(
    statement: StatementModel,
    variables: Seq<CompilerVariableModel>,
    labels: nat,
)
    requires
        frame_bytes(variables) is Some,
        statement is For,
    ensures
        statement_code(statement, variables, labels) matches Ok(generated) ==> settled(
            generated.code,
            frame_of(variables),
        ) && generated.labels >= labels,
    decreases statement, 0nat,
{
    broadcast use lemma_straight_push, lemma_sum_push, lemma_aligned_push;

    let frame = frame_of(variables);
    match statement {
        StatementModel::For { init, condition, increment, block, id } => {
            let first = match init {
                Some(ForInitModel::Declaration(declaration)) => declaration_code(
                    declaration,
                    variables,
                    labels,
                ),
                Some(ForInitModel::Expression(expression)) => expression_code(
                    expression,
                    variables,
                    labels,
                ),
                None => only(Seq::empty(), labels),
            };
            match init {
                Some(ForInitModel::Declaration(declaration)) => lemma_declaration_calm(
                    declaration,
                    variables,
                    labels,
                ),
                Some(ForInitModel::Expression(expression)) => lemma_expression_calm(
                    expression,
                    variables,
                    labels,
                ),
                None => {},
            }
            let test = match condition {
                Some(expression) => expression_code(expression, variables, next(first)),
                None => only(
                    seq![InstructionModel::LiP(Register::A0, number(1))],
                    next(first),
                ),
            };
            match condition {
                Some(expression) => lemma_expression_calm(expression, variables, next(first)),
                None => {},
            }
            let body = statement_code(*block, variables, next(test));
            lemma_statement_settled(*block, variables, next(test));
            let update = match increment {
                Some(expression) => expression_code(expression, variables, next(body)),
                None => only(Seq::empty(), next(body)),
            };
            match increment {
                Some(expression) => lemma_expression_calm(expression, variables, next(body)),
                None => {},
            }
            if first is Ok && test is Ok && body is Ok && update is Ok {
                lemma_calm_settled(code_of(update), frame);
                lemma_settled_concat(code_of(body), code_of(update), frame);
                lemma_while_settled(id, code_of(test), code_of(body) + code_of(update), frame);
                lemma_calm_settled(code_of(first), frame);
                lemma_settled_concat(
                    code_of(first),
                    while_code(id, code_of(test), code_of(body) + code_of(update)),
                    frame,
                );
            }
        },
        _ => {},
    }
}

/// The code of an item of a scope is settled.
pub proof fn lemma_scope_item_settled(
    item: ScopeItemModel,
    variables: Seq<CompilerVariableModel>,
    labels: nat,
)
    requires
        frame_bytes(variables) is Some,
    ensures
        scope_item_code(item, variables, labels) matches Ok(generated) ==> settled(
            generated.code,
            frame_of(variables),
        ) && generated.labels >= labels,
    decreases item, 1nat,
{
    broadcast use lemma_straight_push, lemma_sum_push, lemma_aligned_push;

    let frame = frame_of(variables);
    match item {
        ScopeItemModel::Statement(statement) => {
            lemma_statement_settled(statement, variables, labels);
        },
        ScopeItemModel::Declaration(declaration) => {
            lemma_declaration_calm(declaration, variables, labels);
            let code = declaration_code(declaration, variables, labels);
            if code is Ok {
                lemma_calm_settled(code_of(code), frame);
            }
        },
        ScopeItemModel::Label(label) => {
            lemma_calm_settled(label_code(label), frame);
        },
    }
}

/// The code of the items of a scope is settled.
pub proof fn lemma_items_settled(
    items: Seq<ScopeItemModel>,
    count: int,
    variables: Seq<CompilerVariableModel>,
    labels: nat,
)
    requires
        frame_bytes(variables) is Some,
    ensures
        items_code(items, count, variables, labels) matches Ok(generated) ==> settled(
            generated.code,
            frame_of(variables),
        ) && generated.labels >= labels,
    decreases items, count,
{
    let frame = frame_of(variables);
    if !(count <= 0 || count > items.len()) {
        let before = items_code(items, count - 1, variables, labels);
        lemma_items_settled(items, count - 1, variables, labels);
        lemma_scope_item_settled(items[count - 1], variables, next(before));
        let item = scope_item_code(items[count - 1], variables, next(before));
        if before is Ok && item is Ok {
            lemma_settled_concat(code_of(before), code_of(item), frame);
        }
    }
}

/// The stores of the argument registers leave the stack pointer alone.
pub proof fn lemma_spill_calm(count: int)
    ensures
        calm(spill_code(count)),
    decreases count,
{
    broadcast use lemma_straight_push, lemma_sum_push, lemma_aligned_push;

    if count > 0 {
        lemma_spill_calm(count - 1);
    }
}

/// Whether the code of a function with a frame of `frame` bytes gives back,
/// before each of its returns, what it took from the stack: each return
/// finds the stack pointer where it stood when the function was entered,
/// every line keeps the stack pointer aligned, and the last line of the
/// function is a return.
pub open spec fn returns_balanced(code: Seq<InstructionModel>, frame: nat) -> bool {
    &&& stack_after(code, 0, -(32 + frame)) is Some
    &&& aligned(code)
    &&& code.len() > 0
    &&& code.last() == InstructionModel::RetP
}

/// In the code of every function, the bytes taken from the stack are given
/// back before each return: the stack pointer at a return is the stack
/// pointer at entry. Every line keeps the stack pointer aligned, and the
/// number of the next fresh label does not go down.
pub proof fn lemma_function_balanced(function: FunctionDefinitionModel, labels: nat)
    ensures
        function_code(function, labels) matches Ok((code, after)) ==> returns_balanced(
            code,
            frame_of(frame_variables(function)),
        ) && after.labels >= labels,
{
    broadcast use
        lemma_straight_push,
        lemma_sum_push,
        lemma_aligned_push,
        lemma_straight_concat,
        lemma_sum_concat,
        lemma_aligned_concat,
    ;

    if function_code(function, labels) is Ok {
        let variables = function_variables(function);
        let frame = frame_of(frame_variables(function));
        let held = register_arguments(function.arguments.len());
        lemma_leaked_layout(
            function.arguments,
            function.arguments.len() as int,
            32 + frame as int,
            frame_variables(function),
        );
        assert(frame_of(variables) == frame);
        let body = items_code(function.body, function.body.len() as int, variables, labels);
        lemma_items_settled(function.body, function.body.len() as int, variables, labels);
        lemma_spill_calm(held as int);
        lemma_frame_aligned(frame_variables(function));
        let start = prologue(function.name, frame, held);
        assert(straight(start) && stack_sum(start) == -(32 + frame) && aligned(start));
        let level = -(32 + frame);
        lemma_straight_after(start, 0, level);
        lemma_after_concat(start, code_of(body), 0, level);
        let lines = (start + code_of(body)).push(InstructionModel::LiP(Register::A0, number(0)));
        assert(lines.drop_last() =~= start + code_of(body));
        assert(stack_after(lines, 0, level) == Some(level));
        assert(aligned(lines));
        lemma_epilogue_settled(frame);
        lemma_after_concat(lines, epilogue(frame), 0, level);
        assert((lines + epilogue(frame)).last() == epilogue(frame).last());
    }
}

/// The simpler instructions that stand for an instruction move the stack
/// pointer as the instruction does.
pub proof fn lemma_equivalent_keeps_stack(instruction: InstructionModel, start: int, inside: int)
    ensures
        stack_after(seq![instruction], start, inside) matches Some(after) ==> stack_after(
            equivalent(instruction),
            start,
            inside,
        ) == Some(after),
        aligned(seq![instruction]) ==> aligned(equivalent(instruction)),
        instruction == InstructionModel::RetP ==> equivalent(instruction) == seq![instruction],
{
    broadcast use lemma_aligned_push;

    let alone = seq![instruction];
    assert(alone.drop_last() =~= Seq::<InstructionModel>::empty());
    assert(alone.last() == instruction);
    let simpler = equivalent(instruction);
    if simpler.len() == 1 {
        assert(simpler =~= seq![simpler[0]]);
        assert(seq![simpler[0]].drop_last() =~= Seq::<InstructionModel>::empty());
    } else {
        assert(simpler =~= Seq::<InstructionModel>::empty());
    }
}

/// The peephole pass keeps the stack discipline: where code leaves the
/// stack pointer, the rewritten code leaves it too; aligned code stays
/// aligned; and code that ends with a return still ends with it.
pub proof fn lemma_optimized_keeps_stack(code: Seq<InstructionModel>, start: int, inside: int)
    ensures
        stack_after(code, start, inside) matches Some(after) ==> stack_after(
            optimized(code),
            start,
            inside,
        ) == Some(after),
        aligned(code) ==> aligned(optimized(code)),
        code.len() > 0 && code.last() == InstructionModel::RetP ==> optimized(code).len() > 0
            && optimized(code).last() == InstructionModel::RetP,
    decreases code.len(),
{
    if code.len() > 0 {
        let before = code.drop_last();
        lemma_optimized_keeps_stack(before, start, inside);
        lemma_after_concat(optimized(before), equivalent(code.last()), start, inside);
        lemma_aligned_concat(optimized(before), equivalent(code.last()));
        assert(seq![code.last()].drop_last() =~= Seq::<InstructionModel>::empty());
        match stack_after(before, start, inside) {
            Some(middle) => {
                let alone = seq![code.last()];
                assert(alone.last() == code.last());
                assert(stack_after(alone.drop_last(), middle, inside) == Some(middle));
                assert(stack_after(alone, middle, inside) == stack_after(code, start, inside));
                lemma_equivalent_keeps_stack(code.last(), middle, inside);
            },
            None => {},
        }
        lemma_equivalent_keeps_stack(code.last(), start, inside);
        assert(aligned(seq![code.last()]) == (stack_change(code.last()) % 16 == 0)) by {
            lemma_aligned_push(Seq::empty(), code.last());
        }
    }
}

/// The code of a function is balanced after the peephole pass too.
pub proof fn lemma_optimized_function_balanced(function: FunctionDefinitionModel, labels: nat)
    ensures
        function_code(function, labels) matches Ok((code, _)) ==> returns_balanced(
            optimized(code),
            frame_of(frame_variables(function)),
        ),
{
    lemma_function_balanced(function, labels);
    match function_code(function, labels) {
        Ok((code, _)) => {
            lemma_optimized_keeps_stack(code, 0, -(32 + frame_of(frame_variables(function))));
        },
        Err(_) => {},
    }
}

} // verus!

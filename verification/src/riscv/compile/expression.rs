//! The code of expressions.
use vstd::prelude::*;
use crate::riscv::compile::{
    after, agrees, append_instructions, code_of, compiled_in, emit, find_variable, fresh, join,
    next, only, push_instruction, Compile, CompileError, Compiled, CompilerState,
    CompilerStateModel, CompilerVariableModel, Outcome,
};
use crate::riscv::instruction::{instructions_model, Instruction, InstructionModel};
use crate::riscv::values::{
    argument_register_spec, at_offset, number, Immediate, ImmediateModel, Register,
    RegisterWithOffset,
};
use crate::types::expression::{
    expressions_model, lemma_expression_model, BinaryKind, BinaryOp, Call, Expression,
    ExpressionModel, TernaryOp, UnaryKind, UnaryOp,
};
use crate::utils::nearest_multiple::{lemma_round_up_is_least_multiple, nearest_multiple, round_up};
use crate::utils::random_name::mangled;

verus! {

/// The instruction that combines the left operand in `a1` with the right
/// operand in `a0`, for the operators that are one instruction. Comparisons
/// are unsigned.
pub open spec fn plain_instruction(kind: BinaryKind) -> Option<InstructionModel> {
    match kind {
        BinaryKind::Addition => Some(
            InstructionModel::Add(Register::A0, Register::A1, Register::A0),
        ),
        BinaryKind::Subtraction => Some(
            InstructionModel::Sub(Register::A0, Register::A1, Register::A0),
        ),
        BinaryKind::Multiplication => Some(
            InstructionModel::Mul(Register::A0, Register::A1, Register::A0),
        ),
        BinaryKind::Division => Some(
            InstructionModel::Div(Register::A0, Register::A1, Register::A0),
        ),
        BinaryKind::Modulus => Some(
            InstructionModel::Rem(Register::A0, Register::A1, Register::A0),
        ),
        BinaryKind::BitwiseAnd => Some(
            InstructionModel::And(Register::A0, Register::A1, Register::A0),
        ),
        BinaryKind::BitwiseXor => Some(
            InstructionModel::Xor(Register::A0, Register::A1, Register::A0),
        ),
        BinaryKind::BitwiseOr => Some(
            InstructionModel::Or(Register::A0, Register::A1, Register::A0),
        ),
        BinaryKind::LeftShift => Some(
            InstructionModel::Sll(Register::A0, Register::A1, Register::A0),
        ),
        BinaryKind::RightShift => Some(
            InstructionModel::Srl(Register::A0, Register::A1, Register::A0),
        ),
        BinaryKind::GreaterThan => Some(
            InstructionModel::Sltu(Register::A0, Register::A0, Register::A1),
        ),
        BinaryKind::Equals => Some(
            InstructionModel::SeqP(Register::A0, Register::A0, Register::A1),
        ),
        _ => None,
    }
}

/// The operator that a compound assignment applies before it stores.
pub open spec fn compound_operator(kind: BinaryKind) -> Option<BinaryKind> {
    match kind {
        BinaryKind::AssignmentAddition => Some(BinaryKind::Addition),
        BinaryKind::AssignmentSubtraction => Some(BinaryKind::Subtraction),
        BinaryKind::AssignmentMultiplication => Some(BinaryKind::Multiplication),
        BinaryKind::AssignmentDivision => Some(BinaryKind::Division),
        BinaryKind::AssignmentModulus => Some(BinaryKind::Modulus),
        BinaryKind::AssignmentShiftLeft => Some(BinaryKind::LeftShift),
        BinaryKind::AssignmentShiftRight => Some(BinaryKind::RightShift),
        BinaryKind::AssignmentBitwiseAnd => Some(BinaryKind::BitwiseAnd),
        BinaryKind::AssignmentBitwiseXor => Some(BinaryKind::BitwiseXor),
        BinaryKind::AssignmentBitwiseOr => Some(BinaryKind::BitwiseOr),
        _ => None,
    }
}

/// Left operand, saved on the stack; right operand; left operand back in
/// `a1`; then the instruction of the operator, if it has one. The comma
/// operator has none: the right operand is its value.
pub open spec fn plain_code(
    kind: BinaryKind,
    left: Seq<InstructionModel>,
    right: Seq<InstructionModel>,
) -> Seq<InstructionModel> {
    let operands = (left.push(InstructionModel::PushP(Register::A0)) + right).push(
        InstructionModel::PopP(Register::A1),
    );
    match plain_instruction(kind) {
        Some(instruction) => operands.push(instruction),
        None => operands,
    }
}

/// `&&`: either operand being zero jumps to the label with zero in `a0`;
/// otherwise `a0` becomes one.
pub open spec fn and_code(
    label: Seq<char>,
    left: Seq<InstructionModel>,
    right: Seq<InstructionModel>,
) -> Seq<InstructionModel> {
    (left.push(InstructionModel::BeqzP(Register::A0, ImmediateModel::Label(label))) + right).push(
        InstructionModel::BeqzP(Register::A0, ImmediateModel::Label(label)),
    ).push(InstructionModel::LiP(Register::A0, number(1))).push(InstructionModel::Label(label))
}

/// `||`: either operand being non-zero jumps to the first label, where `a0`
/// becomes one; otherwise `a0` becomes zero and the second label is the end.
pub open spec fn or_code(
    first: Seq<char>,
    second: Seq<char>,
    left: Seq<InstructionModel>,
    right: Seq<InstructionModel>,
) -> Seq<InstructionModel> {
    (left.push(InstructionModel::BnezP(Register::A0, ImmediateModel::Label(first))) + right).push(
        InstructionModel::BnezP(Register::A0, ImmediateModel::Label(first)),
    ).push(InstructionModel::LiP(Register::A0, number(0))).push(
        InstructionModel::JP(ImmediateModel::Label(second)),
    ).push(
        InstructionModel::Label(first),
    ).push(InstructionModel::LiP(Register::A0, number(1))).push(
        InstructionModel::Label(second),
    )
}

/// A store: the value, saved on the stack; the address; the value back in
/// `a1`; the store; and the value in `a0`, as the value of the assignment.
pub open spec fn store_code(value: Seq<InstructionModel>, address: Seq<InstructionModel>) -> Seq<
    InstructionModel,
> {
    (value.push(InstructionModel::PushP(Register::A0)) + address).push(
        InstructionModel::PopP(Register::A1),
    ).push(InstructionModel::Sw(Register::A1, at_offset(0, Register::A0))).push(
        InstructionModel::MvP(Register::A0, Register::A1),
    )
}

/// A postfix increment or decrement: the old value, saved on the stack; the
/// update; the old value back in `a0`.
pub open spec fn postfix_code(value: Seq<InstructionModel>, update: Seq<InstructionModel>) -> Seq<
    InstructionModel,
> {
    (value.push(InstructionModel::PushP(Register::A0)) + update).push(
        InstructionModel::PopP(Register::A0),
    )
}

/// The conditional operator: a zero condition jumps to the second branch,
/// and the first branch jumps over it.
pub open spec fn ternary_code(
    end: Seq<char>,
    otherwise: Seq<char>,
    condition: Seq<InstructionModel>,
    then_code: Seq<InstructionModel>,
    else_code: Seq<InstructionModel>,
) -> Seq<InstructionModel> {
    ((condition.push(InstructionModel::BeqzP(Register::A0, ImmediateModel::Label(otherwise)))
        + then_code).push(InstructionModel::JP(ImmediateModel::Label(end))).push(
        InstructionModel::Label(otherwise),
    ) + else_code).push(InstructionModel::Label(end))
}

/// The most arguments that a call may have.
pub open spec fn max_arguments() -> nat {
    0x0fff_ffff
}

/// How many arguments of a call with `total` arguments travel in registers.
pub open spec fn register_arguments(total: nat) -> nat {
    if total < 8 {
        total
    } else {
        8
    }
}

/// The bytes of stack that hold the arguments beyond the eighth.
pub open spec fn stack_argument_bytes(total: nat) -> nat {
    round_up(4 * (total - register_arguments(total)), 16) as nat
}

/// The bytes of stack that hold the first arguments until they are loaded
/// into their registers.
pub open spec fn register_argument_bytes(total: nat) -> nat {
    round_up(4 * register_arguments(total) as int, 16) as nat
}

/// The loads of the first `count` of `held` argument registers from the
/// temporary area: the first argument lies highest.
pub open spec fn reload_code(held: nat, count: nat) -> Seq<InstructionModel>
    decreases count,
{
    if count == 0 {
        Seq::empty()
    } else {
        reload_code(held, (count - 1) as nat).push(
            InstructionModel::Lw(
                argument_register_spec(count - 1),
                at_offset(4 * (held - count), Register::Sp),
            ),
        )
    }
}

/// A call: make room for the stack arguments and note its base in `s1`; make
/// room for the register arguments; compute the arguments into their places;
/// compute the callee into `t0`; load the argument registers; give back
/// their room; call; give back the room of the stack arguments.
pub open spec fn call_code(
    total: nat,
    stack: Seq<InstructionModel>,
    registers: Seq<InstructionModel>,
    target: Seq<InstructionModel>,
) -> Seq<InstructionModel> {
    ((Seq::empty().push(
        InstructionModel::Addi(Register::Sp, Register::Sp, number(-stack_argument_bytes(total))),
    ).push(InstructionModel::Add(Register::S1, Register::Sp, Register::Zero)).push(
        InstructionModel::Addi(Register::Sp, Register::Sp, number(-register_argument_bytes(total))),
    ) + stack + registers + target).push(
        InstructionModel::Add(Register::T0, Register::A0, Register::Zero),
    ) + reload_code(register_arguments(total), register_arguments(total))).push(
        InstructionModel::Addi(
            Register::Sp,
            Register::Sp,
            number(register_argument_bytes(total) as int),
        ),
    ).push(InstructionModel::Jalr(Register::Ra, at_offset(0, Register::T0))).push(
        InstructionModel::Addi(
            Register::Sp,
            Register::Sp,
            number(stack_argument_bytes(total) as int),
        ),
    )
}

/// The outcome of two parts generated one after the other, with `code` as
/// what they make together.
pub open spec fn both(first: Outcome, second: Outcome, code: Seq<InstructionModel>) -> Outcome {
    match first {
        Ok(_) => match second {
            Ok(last) => only(code, last.labels),
            Err(error) => Err(error),
        },
        Err(error) => Err(error),
    }
}

/// The outcome of three parts generated one after the other, with `code` as
/// what they make together.
pub open spec fn all_three(
    first: Outcome,
    second: Outcome,
    third: Outcome,
    code: Seq<InstructionModel>,
) -> Outcome {
    match first {
        Ok(_) => both(second, third, code),
        Err(error) => Err(error),
    }
}

/// The outcome of an operator of one instruction on two operands.
pub open spec fn plain_of(kind: BinaryKind, left: Outcome, right: Outcome) -> Outcome {
    both(left, right, plain_code(kind, code_of(left), code_of(right)))
}

/// The outcome of a store of `value` to `address`.
pub open spec fn store_of(value: Outcome, address: Outcome) -> Outcome {
    both(value, address, store_code(code_of(value), code_of(address)))
}

/// The code that leaves the value of an expression in `a0`, for a function
/// with the variables `variables`, with `labels` the next fresh label.
///
/// Comparisons other than `>` and `==` are built from these two and from
/// negation. A compound assignment computes its left operand twice: once
/// for the value and once for the address.
pub open spec fn expression_code(
    expression: ExpressionModel,
    variables: Seq<CompilerVariableModel>,
    labels: nat,
) -> Outcome
    decreases expression, 1nat,
{
    match expression {
        ExpressionModel::Number(value) => only(
            seq![InstructionModel::LiP(Register::A0, ImmediateModel::Number(value))],
            labels,
        ),
        ExpressionModel::FunctionSymbol(name) => only(
            seq![InstructionModel::LaP(Register::A0, ImmediateModel::Label(name))],
            labels,
        ),
        ExpressionModel::Variable(name) => match find_variable(variables, name) {
            Some(variable) => only(
                seq![
                    InstructionModel::Lw(
                        Register::A0,
                        at_offset(variable.address as int, Register::Fp),
                    ),
                ],
                labels,
            ),
            None => Err(CompileError::UnknownVariable),
        },
        ExpressionModel::Unary(kind, operand) => {
            let value = expression_code(*operand, variables, labels);
            match kind {
                UnaryKind::Nothing => value,
                UnaryKind::Plus => value,
                UnaryKind::Negation => emit(
                    value,
                    InstructionModel::Neg(Register::A0, Register::A0),
                ),
                UnaryKind::LogicalNot => emit(
                    value,
                    InstructionModel::SeqzP(Register::A0, Register::A0),
                ),
                UnaryKind::BitwiseNot => emit(
                    value,
                    InstructionModel::NotP(Register::A0, Register::A0),
                ),
                UnaryKind::Deref => emit(
                    value,
                    InstructionModel::Lw(Register::A0, at_offset(0, Register::A0)),
                ),
                UnaryKind::Ref => lvalue_code(*operand, variables, labels),
                UnaryKind::PrefixIncrement => step_code(
                    *operand,
                    BinaryKind::Addition,
                    variables,
                    labels,
                ),
                UnaryKind::PrefixDecrement => step_code(
                    *operand,
                    BinaryKind::Subtraction,
                    variables,
                    labels,
                ),
                UnaryKind::PostfixIncrement => {
                    let update = step_code(*operand, BinaryKind::Addition, variables, next(value));
                    both(value, update, postfix_code(code_of(value), code_of(update)))
                },
                UnaryKind::PostfixDecrement => {
                    let update = step_code(
                        *operand,
                        BinaryKind::Subtraction,
                        variables,
                        next(value),
                    );
                    both(value, update, postfix_code(code_of(value), code_of(update)))
                },
            }
        },
        ExpressionModel::Binary(kind, lhs, rhs) => {
            let left = expression_code(*lhs, variables, labels);
            let right = expression_code(*rhs, variables, next(left));
            match kind {
                BinaryKind::LogicalAnd => {
                    let label = fresh(labels);
                    let left = expression_code(*lhs, variables, next(label));
                    let right = expression_code(*rhs, variables, next(left));
                    after(
                        label,
                        both(
                            left,
                            right,
                            and_code(
                                mangled("short_circuit_and"@, labels),
                                code_of(left),
                                code_of(right),
                            ),
                        ),
                    )
                },
                BinaryKind::LogicalOr => {
                    let first = fresh(labels);
                    let second = fresh(next(first));
                    let left = expression_code(*lhs, variables, next(second));
                    let right = expression_code(*rhs, variables, next(left));
                    after(
                        after(first, second),
                        both(
                            left,
                            right,
                            or_code(
                                mangled("short_circuit_or_1"@, labels),
                                mangled("short_circuit_or_2"@, labels + 1),
                                code_of(left),
                                code_of(right),
                            ),
                        ),
                    )
                },
                BinaryKind::NotEquals => emit(
                    plain_of(BinaryKind::Equals, left, right),
                    InstructionModel::SeqzP(Register::A0, Register::A0),
                ),
                BinaryKind::LessThanEquals => emit(
                    plain_of(BinaryKind::GreaterThan, left, right),
                    InstructionModel::SeqzP(Register::A0, Register::A0),
                ),
                BinaryKind::GreaterThanEquals => at_least_code(expression, variables, labels),
                BinaryKind::LessThan => emit(
                    at_least_code(expression, variables, labels),
                    InstructionModel::SeqzP(Register::A0, Register::A0),
                ),
                BinaryKind::Assignment => {
                    let value = expression_code(*rhs, variables, labels);
                    let address = lvalue_code(*lhs, variables, next(value));
                    store_of(value, address)
                },
                _ => match compound_operator(kind) {
                    Some(operator) => {
                        let value = plain_of(operator, left, right);
                        let address = lvalue_code(*lhs, variables, next(value));
                        store_of(value, address)
                    },
                    None => plain_of(kind, left, right),
                },
            }
        },
        ExpressionModel::Ternary(condition, then_expr, else_expr) => {
            let test = expression_code(*condition, variables, labels);
            let end = fresh(next(test));
            let otherwise = fresh(next(end));
            let then_code = expression_code(*then_expr, variables, next(otherwise));
            let else_code = expression_code(*else_expr, variables, next(then_code));
            after(
                after(after(test, end), otherwise),
                both(
                    then_code,
                    else_code,
                    ternary_code(
                        mangled("ternary_end"@, next(test)),
                        mangled("ternary_else_start"@, next(test) + 1),
                        code_of(test),
                        code_of(then_code),
                        code_of(else_code),
                    ),
                ),
            )
        },
        ExpressionModel::Call(callee, arguments) => {
            if arguments.len() > max_arguments() {
                Err(CompileError::TooManyArguments)
            } else {
                let stack = stack_arguments_code(
                    arguments,
                    arguments.len() as int,
                    variables,
                    labels,
                );
                let held = register_arguments(arguments.len());
                let registers = register_arguments_code(
                    arguments,
                    held as int,
                    held as int,
                    variables,
                    next(stack),
                );
                let target = expression_code(*callee, variables, next(registers));
                all_three(
                    stack,
                    registers,
                    target,
                    call_code(arguments.len(), code_of(stack), code_of(registers), code_of(target)),
                )
            }
        },
    }
}

/// `>=` on the operands of an operator with two operands: they are equal,
/// or the left one is greater. Both operands are computed for each of the
/// two tests. There is no such code for another expression.
pub open spec fn at_least_code(
    expression: ExpressionModel,
    variables: Seq<CompilerVariableModel>,
    labels: nat,
) -> Outcome
    decreases expression, 0nat,
{
    match expression {
        ExpressionModel::Binary(_, lhs, rhs) => {
            let first = fresh(labels);
            let second = fresh(next(first));
            let left = expression_code(*lhs, variables, next(second));
            let right = expression_code(*rhs, variables, next(left));
            let equal = plain_of(BinaryKind::Equals, left, right);
            let left_again = expression_code(*lhs, variables, next(equal));
            let right_again = expression_code(*rhs, variables, next(left_again));
            let greater = plain_of(BinaryKind::GreaterThan, left_again, right_again);
            after(
                after(first, second),
                both(
                    equal,
                    greater,
                    or_code(
                        mangled("short_circuit_or_1"@, labels),
                        mangled("short_circuit_or_2"@, labels + 1),
                        code_of(equal),
                        code_of(greater),
                    ),
                ),
            )
        },
        _ => Err(CompileError::NotAnLvalue),
    }
}

/// The update `target = target operator 1`, whose value is the new value.
pub open spec fn step_code(
    target: ExpressionModel,
    operator: BinaryKind,
    variables: Seq<CompilerVariableModel>,
    labels: nat,
) -> Outcome
    decreases target, 2nat,
{
    let old_value = expression_code(target, variables, labels);
    let one = only(seq![InstructionModel::LiP(Register::A0, number(1))], next(old_value));
    let value = plain_of(operator, old_value, one);
    let address = lvalue_code(target, variables, next(value));
    store_of(value, address)
}

/// The code that leaves the address of an expression in `a0`. Only a
/// variable and a dereference have one.
pub open spec fn lvalue_code(
    expression: ExpressionModel,
    variables: Seq<CompilerVariableModel>,
    labels: nat,
) -> Outcome
    decreases expression, 0nat,
{
    match expression {
        ExpressionModel::Variable(name) => match find_variable(variables, name) {
            Some(variable) => only(
                seq![
                    InstructionModel::Addi(
                        Register::A0,
                        Register::Fp,
                        ImmediateModel::Number(variable.address),
                    ),
                ],
                labels,
            ),
            None => Err(CompileError::UnknownVariable),
        },
        ExpressionModel::Unary(UnaryKind::Deref, pointer) => expression_code(
            *pointer,
            variables,
            labels,
        ),
        _ => Err(CompileError::NotAnLvalue),
    }
}

/// The code that computes the arguments beyond the eighth, up to argument
/// number `count`, in order, each into its place above `s1`.
pub open spec fn stack_arguments_code(
    arguments: Seq<ExpressionModel>,
    count: int,
    variables: Seq<CompilerVariableModel>,
    labels: nat,
) -> Outcome
    decreases arguments, count,
{
    if count <= 8 || count > arguments.len() {
        only(Seq::empty(), labels)
    } else {
        let before = stack_arguments_code(arguments, count - 1, variables, labels);
        let value = expression_code(arguments[count - 1], variables, next(before));
        emit(
            join(before, value),
            InstructionModel::Sw(Register::A0, at_offset(4 * (count - 9), Register::S1)),
        )
    }
}

/// The code that computes the last `count` of the first `held` arguments,
/// the last one first, each into the next place above `sp`.
pub open spec fn register_arguments_code(
    arguments: Seq<ExpressionModel>,
    held: int,
    count: int,
    variables: Seq<CompilerVariableModel>,
    labels: nat,
) -> Outcome
    decreases arguments, count,
{
    if count <= 0 || count > held || held > arguments.len() {
        only(Seq::empty(), labels)
    } else {
        let before = register_arguments_code(arguments, held, count - 1, variables, labels);
        let value = expression_code(arguments[held - count], variables, next(before));
        emit(
            join(before, value),
            InstructionModel::Sw(Register::A0, at_offset(4 * (count - 1), Register::Sp)),
        )
    }
}

/// Once computing the stack arguments has failed, computing more of them
/// fails in the same way.
pub proof fn lemma_stack_arguments_error(
    arguments: Seq<ExpressionModel>,
    count: int,
    more: int,
    variables: Seq<CompilerVariableModel>,
    labels: nat,
)
    requires
        stack_arguments_code(arguments, count, variables, labels) is Err,
        count <= more <= arguments.len(),
    ensures
        stack_arguments_code(arguments, more, variables, labels) == stack_arguments_code(
            arguments,
            count,
            variables,
            labels,
        ),
    decreases more - count,
{
    if count < more {
        lemma_stack_arguments_error(arguments, count, more - 1, variables, labels);
    }
}

/// Once computing the register arguments has failed, computing more of them
/// fails in the same way.
pub proof fn lemma_register_arguments_error(
    arguments: Seq<ExpressionModel>,
    held: int,
    count: int,
    more: int,
    variables: Seq<CompilerVariableModel>,
    labels: nat,
)
    requires
        register_arguments_code(arguments, held, count, variables, labels) is Err,
        count <= more <= held <= arguments.len(),
    ensures
        register_arguments_code(arguments, held, more, variables, labels)
            == register_arguments_code(arguments, held, count, variables, labels),
    decreases more - count,
{
    if count < more {
        lemma_register_arguments_error(arguments, held, count, more - 1, variables, labels);
    }
}

/// A list of one instruction.
pub fn single(instruction: Instruction) -> (code: Vec<Instruction>)
    ensures
        instructions_model(code@) == seq![instruction@],
{
    let code = vec![instruction];
    assert(instructions_model(code@) =~= seq![instruction@]);
    code
}

/// No instructions.
pub fn nothing() -> (code: Vec<Instruction>)
    ensures
        instructions_model(code@) == Seq::<InstructionModel>::empty(),
{
    let code: Vec<Instruction> = Vec::new();
    assert(instructions_model(code@) =~= Seq::<InstructionModel>::empty());
    code
}

/// The instruction of an operator that is one instruction.
fn plain_operation(kind: BinaryKind) -> (instruction: Option<Instruction>)
    ensures
        match instruction {
            Some(found) => plain_instruction(kind) == Some(found@),
            None => plain_instruction(kind) is None,
        },
{
    match kind {
        BinaryKind::Addition => Some(Instruction::Add(Register::A0, Register::A1, Register::A0)),
        BinaryKind::Subtraction => Some(Instruction::Sub(Register::A0, Register::A1, Register::A0)),
        BinaryKind::Multiplication => Some(
            Instruction::Mul(Register::A0, Register::A1, Register::A0),
        ),
        BinaryKind::Division => Some(Instruction::Div(Register::A0, Register::A1, Register::A0)),
        BinaryKind::Modulus => Some(Instruction::Rem(Register::A0, Register::A1, Register::A0)),
        BinaryKind::BitwiseAnd => Some(Instruction::And(Register::A0, Register::A1, Register::A0)),
        BinaryKind::BitwiseXor => Some(Instruction::Xor(Register::A0, Register::A1, Register::A0)),
        BinaryKind::BitwiseOr => Some(Instruction::Or(Register::A0, Register::A1, Register::A0)),
        BinaryKind::LeftShift => Some(Instruction::Sll(Register::A0, Register::A1, Register::A0)),
        BinaryKind::RightShift => Some(Instruction::Srl(Register::A0, Register::A1, Register::A0)),
        BinaryKind::GreaterThan => Some(
            Instruction::Sltu(Register::A0, Register::A0, Register::A1),
        ),
        BinaryKind::Equals => Some(Instruction::SeqP(Register::A0, Register::A0, Register::A1)),
        _ => None,
    }
}

/// The operator that a compound assignment applies before it stores.
fn compound_operation(kind: BinaryKind) -> (operator: Option<BinaryKind>)
    ensures
        operator == compound_operator(kind),
{
    match kind {
        BinaryKind::AssignmentAddition => Some(BinaryKind::Addition),
        BinaryKind::AssignmentSubtraction => Some(BinaryKind::Subtraction),
        BinaryKind::AssignmentMultiplication => Some(BinaryKind::Multiplication),
        BinaryKind::AssignmentDivision => Some(BinaryKind::Division),
        BinaryKind::AssignmentModulus => Some(BinaryKind::Modulus),
        BinaryKind::AssignmentShiftLeft => Some(BinaryKind::LeftShift),
        BinaryKind::AssignmentShiftRight => Some(BinaryKind::RightShift),
        BinaryKind::AssignmentBitwiseAnd => Some(BinaryKind::BitwiseAnd),
        BinaryKind::AssignmentBitwiseXor => Some(BinaryKind::BitwiseXor),
        BinaryKind::AssignmentBitwiseOr => Some(BinaryKind::BitwiseOr),
        _ => None,
    }
}

/// Puts the code of two operands and the instruction of their operator
/// together.
pub fn assemble_plain(
    kind: BinaryKind,
    left: Vec<Instruction>,
    right: Vec<Instruction>,
) -> (code: Vec<
    Instruction,
>)
    ensures
        instructions_model(code@) == plain_code(
            kind,
            instructions_model(left@),
            instructions_model(right@),
        ),
{
    let mut code = left;
    push_instruction(&mut code, Instruction::PushP(Register::A0));
    append_instructions(&mut code, right);
    push_instruction(&mut code, Instruction::PopP(Register::A1));
    match plain_operation(kind) {
        Some(instruction) => {
            push_instruction(&mut code, instruction);
        },
        None => {},
    }
    code
}

/// Puts the code of the operands of `&&` together.
pub fn assemble_and(label: &String, left: Vec<Instruction>, right: Vec<Instruction>) -> (code: Vec<
    Instruction,
>)
    ensures
        instructions_model(code@) == and_code(
            label@,
            instructions_model(left@),
            instructions_model(right@),
        ),
{
    let mut code = left;
    push_instruction(&mut code, Instruction::BeqzP(Register::A0, Immediate::Label(label.clone())));
    append_instructions(&mut code, right);
    push_instruction(&mut code, Instruction::BeqzP(Register::A0, Immediate::Label(label.clone())));
    push_instruction(&mut code, Instruction::LiP(Register::A0, Immediate::Number(1)));
    push_instruction(&mut code, Instruction::Label(label.clone()));
    code
}

/// Puts the code of the operands of `||` together.
pub fn assemble_or(
    first: &String,
    second: &String,
    left: Vec<Instruction>,
    right: Vec<Instruction>,
) -> (code: Vec<Instruction>)
    ensures
        instructions_model(code@) == or_code(
            first@,
            second@,
            instructions_model(left@),
            instructions_model(right@),
        ),
{
    let mut code = left;
    push_instruction(&mut code, Instruction::BnezP(Register::A0, Immediate::Label(first.clone())));
    append_instructions(&mut code, right);
    push_instruction(&mut code, Instruction::BnezP(Register::A0, Immediate::Label(first.clone())));
    push_instruction(&mut code, Instruction::LiP(Register::A0, Immediate::Number(0)));
    push_instruction(&mut code, Instruction::JP(Immediate::Label(second.clone())));
    push_instruction(&mut code, Instruction::Label(first.clone()));
    push_instruction(&mut code, Instruction::LiP(Register::A0, Immediate::Number(1)));
    push_instruction(&mut code, Instruction::Label(second.clone()));
    code
}

/// Puts the code of a value and of an address together into a store.
pub fn assemble_store(
    value: Vec<Instruction>,
    address: Vec<Instruction>,
) -> (code: Vec<Instruction>)
    ensures
        instructions_model(code@) == store_code(
            instructions_model(value@),
            instructions_model(address@),
        ),
{
    let mut code = value;
    push_instruction(&mut code, Instruction::PushP(Register::A0));
    append_instructions(&mut code, address);
    push_instruction(&mut code, Instruction::PopP(Register::A1));
    push_instruction(
        &mut code,
        Instruction::Sw(Register::A1, RegisterWithOffset::at(0, Register::A0)),
    );
    push_instruction(&mut code, Instruction::MvP(Register::A0, Register::A1));
    code
}

/// Puts the code of a value and of its update together, keeping the value.
pub fn assemble_postfix(
    value: Vec<Instruction>,
    update: Vec<Instruction>,
) -> (code: Vec<Instruction>)
    ensures
        instructions_model(code@) == postfix_code(
            instructions_model(value@),
            instructions_model(update@),
        ),
{
    let mut code = value;
    push_instruction(&mut code, Instruction::PushP(Register::A0));
    append_instructions(&mut code, update);
    push_instruction(&mut code, Instruction::PopP(Register::A0));
    code
}

/// Puts a condition and its two branches together.
pub fn assemble_ternary(
    end: &String,
    otherwise: &String,
    condition: Vec<Instruction>,
    then_code: Vec<Instruction>,
    else_code: Vec<Instruction>,
) -> (code: Vec<Instruction>)
    ensures
        instructions_model(code@) == ternary_code(
            end@,
            otherwise@,
            instructions_model(condition@),
            instructions_model(then_code@),
            instructions_model(else_code@),
        ),
{
    let mut code = condition;
    push_instruction(
        &mut code,
        Instruction::BeqzP(Register::A0, Immediate::Label(otherwise.clone())),
    );
    append_instructions(&mut code, then_code);
    push_instruction(&mut code, Instruction::JP(Immediate::Label(end.clone())));
    push_instruction(&mut code, Instruction::Label(otherwise.clone()));
    append_instructions(&mut code, else_code);
    push_instruction(&mut code, Instruction::Label(end.clone()));
    code
}

/// The loads of the argument registers from the temporary area.
fn reload_registers(held: usize) -> (code: Vec<Instruction>)
    requires
        held <= 8,
    ensures
        instructions_model(code@) == reload_code(held as nat, held as nat),
{
    let mut code = nothing();
    let mut count: usize = 0;
    while count < held
        invariant
            count <= held <= 8,
            instructions_model(code@) == reload_code(held as nat, count as nat),
        decreases held - count,
    {
        let offset: i32 = (4 * (held - count - 1)) as i32;
        push_instruction(
            &mut code,
            Instruction::Lw(
                Register::argument(count),
                RegisterWithOffset::at(offset, Register::Sp),
            ),
        );
        count = count + 1;
    }
    code
}

/// Puts the parts of a call together.
pub fn assemble_call(
    total: usize,
    stack: Vec<Instruction>,
    registers: Vec<Instruction>,
    target: Vec<Instruction>,
) -> (code: Vec<Instruction>)
    requires
        total <= max_arguments(),
    ensures
        instructions_model(code@) == call_code(
            total as nat,
            instructions_model(stack@),
            instructions_model(registers@),
            instructions_model(target@),
        ),
{
    let held: usize = if total < 8 {
        total
    } else {
        8
    };
    proof {
        lemma_round_up_is_least_multiple(4 * (total - held), 16);
        lemma_round_up_is_least_multiple(4 * held, 16);
    }
    let stack_bytes: i32 = nearest_multiple((4 * (total - held)) as u32, 16) as i32;
    let register_bytes: i32 = nearest_multiple((4 * held) as u32, 16) as i32;
    let mut code = nothing();
    push_instruction(
        &mut code,
        Instruction::Addi(Register::Sp, Register::Sp, Immediate::Number(-stack_bytes)),
    );
    push_instruction(&mut code, Instruction::Add(Register::S1, Register::Sp, Register::Zero));
    push_instruction(
        &mut code,
        Instruction::Addi(Register::Sp, Register::Sp, Immediate::Number(-register_bytes)),
    );
    append_instructions(&mut code, stack);
    append_instructions(&mut code, registers);
    append_instructions(&mut code, target);
    push_instruction(&mut code, Instruction::Add(Register::T0, Register::A0, Register::Zero));
    append_instructions(&mut code, reload_registers(held));
    push_instruction(
        &mut code,
        Instruction::Addi(Register::Sp, Register::Sp, Immediate::Number(register_bytes)),
    );
    push_instruction(
        &mut code,
        Instruction::Jalr(Register::Ra, RegisterWithOffset::at(0, Register::T0)),
    );
    push_instruction(
        &mut code,
        Instruction::Addi(Register::Sp, Register::Sp, Immediate::Number(stack_bytes)),
    );
    code
}

/// Generates the update `target = target operator 1`.
fn compile_step(target: &Expression, operator: BinaryKind, state: &mut CompilerState) -> (result:
    Result<Vec<Instruction>, CompileError>)
    requires
        old(state).well_formed(),
    ensures
        final(state).well_formed(),
        agrees(
            result,
            compiled_in(
                step_code(target@, operator, old(state)@.variables, old(state)@.labels),
                old(state)@,
            ),
            final(state)@,
        ),
    decreases target, 2nat,
{
    let old_value = target.compile(state)?;
    let one = single(Instruction::LiP(Register::A0, Immediate::Number(1)));
    let value = assemble_plain(operator, old_value, one);
    let address = target.as_lvalue(state)?;
    Ok(assemble_store(value, address))
}

impl Expression {
    /// Generates the code that leaves the address of this expression in
    /// `a0`.
    pub fn as_lvalue(&self, state: &mut CompilerState) -> (result: Result<
        Vec<Instruction>,
        CompileError,
    >)
        requires
            old(state).well_formed(),
        ensures
            final(state).well_formed(),
            agrees(
                result,
                compiled_in(
                    lvalue_code(self@, old(state)@.variables, old(state)@.labels),
                    old(state)@,
                ),
                final(state)@,
            ),
        decreases self, 0nat,
    {
        proof {
            lemma_expression_model(*self);
        }
        match self {
            Expression::Variable(name) => {
                match state.get_variable(name.as_str()) {
                    Some(variable) => Ok(
                        single(
                            Instruction::Addi(
                                Register::A0,
                                Register::Fp,
                                Immediate::Number(variable.address),
                            ),
                        ),
                    ),
                    None => Err(CompileError::UnknownVariable),
                }
            },
            Expression::UnaryOp(UnaryOp::Deref(pointer)) => pointer.compile(state),
            _ => Err(CompileError::NotAnLvalue),
        }
    }
}

impl Compile for Expression {
    open spec fn compiled(&self, state: CompilerStateModel) -> Compiled {
        compiled_in(expression_code(self@, state.variables, state.labels), state)
    }

    fn compile(&self, state: &mut CompilerState) -> (result: Result<Vec<Instruction>, CompileError>)
        decreases self, 1nat,
    {
        proof {
            lemma_expression_model(*self);
        }
        match self {
            Expression::Number(value) => Ok(
                single(Instruction::LiP(Register::A0, Immediate::Number(*value))),
            ),
            Expression::FunctionSymbol(name) => Ok(
                single(Instruction::LaP(Register::A0, Immediate::Label(name.clone()))),
            ),
            Expression::Variable(name) => {
                match state.get_variable(name.as_str()) {
                    Some(variable) => Ok(
                        single(
                            Instruction::Lw(
                                Register::A0,
                                RegisterWithOffset::at(variable.address, Register::Fp),
                            ),
                        ),
                    ),
                    None => Err(CompileError::UnknownVariable),
                }
            },
            Expression::UnaryOp(op) => op.compile(state),
            Expression::BinaryOp(op) => op.compile(state),
            Expression::TernaryOp(op) => op.compile(state),
            Expression::Call(call) => call.compile(state),
        }
    }
}

impl Compile for UnaryOp {
    open spec fn compiled(&self, state: CompilerStateModel) -> Compiled {
        compiled_in(expression_code(self@, state.variables, state.labels), state)
    }

    fn compile(&self, state: &mut CompilerState) -> (result: Result<Vec<Instruction>, CompileError>)
        decreases self, 1nat,
    {
        let operand = self.operand();
        match self.kind() {
            UnaryKind::Nothing => operand.compile(state),
            UnaryKind::Plus => operand.compile(state),
            UnaryKind::Negation => {
                let mut code = operand.compile(state)?;
                push_instruction(&mut code, Instruction::Neg(Register::A0, Register::A0));
                Ok(code)
            },
            UnaryKind::LogicalNot => {
                let mut code = operand.compile(state)?;
                push_instruction(&mut code, Instruction::SeqzP(Register::A0, Register::A0));
                Ok(code)
            },
            UnaryKind::BitwiseNot => {
                let mut code = operand.compile(state)?;
                push_instruction(&mut code, Instruction::NotP(Register::A0, Register::A0));
                Ok(code)
            },
            UnaryKind::Deref => {
                let mut code = operand.compile(state)?;
                push_instruction(
                    &mut code,
                    Instruction::Lw(Register::A0, RegisterWithOffset::at(0, Register::A0)),
                );
                Ok(code)
            },
            UnaryKind::Ref => operand.as_lvalue(state),
            UnaryKind::PrefixIncrement => compile_step(operand, BinaryKind::Addition, state),
            UnaryKind::PrefixDecrement => compile_step(operand, BinaryKind::Subtraction, state),
            UnaryKind::PostfixIncrement => {
                let value = operand.compile(state)?;
                let update = compile_step(operand, BinaryKind::Addition, state)?;
                Ok(assemble_postfix(value, update))
            },
            UnaryKind::PostfixDecrement => {
                let value = operand.compile(state)?;
                let update = compile_step(operand, BinaryKind::Subtraction, state)?;
                Ok(assemble_postfix(value, update))
            },
        }
    }
}

impl BinaryOp {
    /// Generates `>=` on the two operands.
    fn compile_at_least(&self, state: &mut CompilerState) -> (result: Result<
        Vec<Instruction>,
        CompileError,
    >)
        requires
            old(state).well_formed(),
        ensures
            final(state).well_formed(),
            agrees(
                result,
                compiled_in(
                    at_least_code(self@, old(state)@.variables, old(state)@.labels),
                    old(state)@,
                ),
                final(state)@,
            ),
        decreases self, 0nat,
    {
        let first = state.fresh_label("short_circuit_or_1")?;
        let second = state.fresh_label("short_circuit_or_2")?;
        let left = self.lhs().compile(state)?;
        let right = self.rhs().compile(state)?;
        let equal = assemble_plain(BinaryKind::Equals, left, right);
        let left_again = self.lhs().compile(state)?;
        let right_again = self.rhs().compile(state)?;
        let greater = assemble_plain(BinaryKind::GreaterThan, left_again, right_again);
        Ok(assemble_or(&first, &second, equal, greater))
    }
}

impl Compile for BinaryOp {
    open spec fn compiled(&self, state: CompilerStateModel) -> Compiled {
        compiled_in(expression_code(self@, state.variables, state.labels), state)
    }

    fn compile(&self, state: &mut CompilerState) -> (result: Result<Vec<Instruction>, CompileError>)
        decreases self, 1nat,
    {
        let kind = self.kind();
        match kind {
            BinaryKind::LogicalAnd => {
                let label = state.fresh_label("short_circuit_and")?;
                let left = self.lhs().compile(state)?;
                let right = self.rhs().compile(state)?;
                Ok(assemble_and(&label, left, right))
            },
            BinaryKind::LogicalOr => {
                let first = state.fresh_label("short_circuit_or_1")?;
                let second = state.fresh_label("short_circuit_or_2")?;
                let left = self.lhs().compile(state)?;
                let right = self.rhs().compile(state)?;
                Ok(assemble_or(&first, &second, left, right))
            },
            BinaryKind::NotEquals => {
                let left = self.lhs().compile(state)?;
                let right = self.rhs().compile(state)?;
                let mut code = assemble_plain(BinaryKind::Equals, left, right);
                push_instruction(&mut code, Instruction::SeqzP(Register::A0, Register::A0));
                Ok(code)
            },
            BinaryKind::LessThanEquals => {
                let left = self.lhs().compile(state)?;
                let right = self.rhs().compile(state)?;
                let mut code = assemble_plain(BinaryKind::GreaterThan, left, right);
                push_instruction(&mut code, Instruction::SeqzP(Register::A0, Register::A0));
                Ok(code)
            },
            BinaryKind::GreaterThanEquals => self.compile_at_least(state),
            BinaryKind::LessThan => {
                let mut code = self.compile_at_least(state)?;
                push_instruction(&mut code, Instruction::SeqzP(Register::A0, Register::A0));
                Ok(code)
            },
            BinaryKind::Assignment => {
                let value = self.rhs().compile(state)?;
                let address = self.lhs().as_lvalue(state)?;
                Ok(assemble_store(value, address))
            },
            _ => {
                let left = self.lhs().compile(state)?;
                let right = self.rhs().compile(state)?;
                match compound_operation(kind) {
                    Some(operator) => {
                        let value = assemble_plain(operator, left, right);
                        let address = self.lhs().as_lvalue(state)?;
                        Ok(assemble_store(value, address))
                    },
                    None => Ok(assemble_plain(kind, left, right)),
                }
            },
        }
    }
}

impl Compile for TernaryOp {
    open spec fn compiled(&self, state: CompilerStateModel) -> Compiled {
        compiled_in(expression_code(self@, state.variables, state.labels), state)
    }

    fn compile(&self, state: &mut CompilerState) -> (result: Result<Vec<Instruction>, CompileError>)
        decreases self, 1nat,
    {
        let condition = self.condition.compile(state)?;
        let end = state.fresh_label("ternary_end")?;
        let otherwise = state.fresh_label("ternary_else_start")?;
        let then_code = self.then_expr.compile(state)?;
        let else_code = self.else_expr.compile(state)?;
        Ok(assemble_ternary(&end, &otherwise, condition, then_code, else_code))
    }
}

impl Compile for Call {
    open spec fn compiled(&self, state: CompilerStateModel) -> Compiled {
        compiled_in(expression_code(self@, state.variables, state.labels), state)
    }

    fn compile(&self, state: &mut CompilerState) -> (result: Result<Vec<Instruction>, CompileError>)
        decreases self, 1nat,
    {
        let total = self.arguments.len();
        let ghost arguments = expressions_model(self.arguments@);
        let ghost variables = state.scope@;
        let ghost labels = state.labels as nat;
        if total > 0x0fff_ffff {
            return Err(CompileError::TooManyArguments);
        }
        let held: usize = if total < 8 {
            total
        } else {
            8
        };
        let mut stack = nothing();
        let mut i: usize = held;
        while i < total
            invariant
                held <= i <= total,
                total <= 0x0fff_ffff,
                total == self.arguments.len(),
                held == register_arguments(total as nat),
                arguments == expressions_model(self.arguments@),
                state.well_formed(),
                state.scope@ == variables,
                variables == old(state)@.variables,
                labels == old(state)@.labels,
                stack_arguments_code(arguments, i as int, variables, labels) == only(
                    instructions_model(stack@),
                    state.labels as nat,
                ),
            decreases total - i,
        {
            let value = match self.arguments[i].compile(state) {
                Ok(value) => value,
                Err(error) => {
                    proof {
                        lemma_stack_arguments_error(
                            arguments,
                            i as int + 1,
                            total as int,
                            variables,
                            labels,
                        );
                    }
                    return Err(error);
                },
            };
            append_instructions(&mut stack, value);
            push_instruction(
                &mut stack,
                Instruction::Sw(
                    Register::A0,
                    RegisterWithOffset::at((4 * (i - 8)) as i32, Register::S1),
                ),
            );
            i = i + 1;
        }
        let ghost after_stack = state.labels as nat;
        let mut registers = nothing();
        let mut count: usize = 0;
        while count < held
            invariant
                count <= held <= total,
                held <= 8,
                total <= 0x0fff_ffff,
                held == register_arguments(total as nat),
                stack_arguments_code(arguments, total as int, variables, labels) == only(
                    instructions_model(stack@),
                    after_stack,
                ),
                total == self.arguments.len(),
                arguments == expressions_model(self.arguments@),
                state.well_formed(),
                state.scope@ == variables,
                variables == old(state)@.variables,
                labels == old(state)@.labels,
                register_arguments_code(
                    arguments,
                    held as int,
                    count as int,
                    variables,
                    after_stack,
                ) == only(instructions_model(registers@), state.labels as nat),
            decreases held - count,
        {
            let value = match self.arguments[held - count - 1].compile(state) {
                Ok(value) => value,
                Err(error) => {
                    proof {
                        lemma_register_arguments_error(
                            arguments,
                            held as int,
                            count as int + 1,
                            held as int,
                            variables,
                            after_stack,
                        );
                    }
                    return Err(error);
                },
            };
            append_instructions(&mut registers, value);
            push_instruction(
                &mut registers,
                Instruction::Sw(
                    Register::A0,
                    RegisterWithOffset::at((4 * count) as i32, Register::Sp),
                ),
            );
            count = count + 1;
        }
        let target = self.expression.compile(state)?;
        Ok(assemble_call(total, stack, registers, target))
    }
}

} // verus!

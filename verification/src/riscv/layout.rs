//! The places of the variables in the frame of a function.
use vstd::prelude::*;
use crate::parser::{only_variables, SymbolModel, VariableModel};
use crate::riscv::compile::{
    frame_bytes, lemma_stack_bytes_grow, lemma_stack_bytes_prefix, stack_bytes,
    CompilerVariableLocation, CompilerVariableModel,
};
use crate::riscv::compile::expression::register_arguments;
use crate::riscv::compile::function_definition::{
    frame_variables, locals_layout, parameter_type, register_layout, spill_code,
};
use crate::riscv::instruction::InstructionModel;
use crate::riscv::values::{argument_register_spec, at_offset, Register};
use crate::types::datatype::{size_of, DatatypeModel};
use crate::types::function_definition::{FunctionArgumentModel, FunctionDefinitionModel};
use crate::utils::nearest_multiple::lemma_round_up_is_least_multiple;

verus! {

/// Each variable lives in the frame, has a size, and stands right behind
/// the variables before it.
pub open spec fn packed(variables: Seq<CompilerVariableModel>) -> bool {
    forall|i: int|
        0 <= i < variables.len() ==> {
            &&& (#[trigger] variables[i]).location == CompilerVariableLocation::Stack
            &&& size_of(variables[i].datatype) is Some
            &&& stack_bytes(variables, i) == Some(variables[i].address as nat)
            &&& 0 <= variables[i].address
        }
}

/// There is one store for each argument register that is kept.
pub proof fn lemma_spill_length(count: int)
    requires
        0 <= count,
    ensures
        spill_code(count).len() == count,
    decreases count,
{
    if count > 0 {
        lemma_spill_length(count - 1);
    }
}

/// The store that keeps argument register number `index` is the store of
/// that register at four times `index` bytes above the frame pointer.
pub proof fn lemma_spill_places(count: int, index: int)
    requires
        0 <= index < count <= 8,
    ensures
        spill_code(count).len() == count,
        spill_code(count)[index] == InstructionModel::Sw(
            argument_register_spec(index),
            at_offset(4 * index, Register::Fp),
        ),
    decreases count,
{
    lemma_spill_length(count);
    lemma_spill_length(count - 1);
    if index < count - 1 {
        lemma_spill_places(count - 1, index);
    }
}

/// The argument registers are kept in four bytes each that do not overlap:
/// the place of a later register starts where that of an earlier one ends,
/// or above.
pub proof fn lemma_spills_apart(count: int, first: int, second: int)
    requires
        0 <= first < second < count <= 8,
    ensures
        spill_code(count)[first] == InstructionModel::Sw(
            argument_register_spec(first),
            at_offset(4 * first, Register::Fp),
        ),
        spill_code(count)[second] == InstructionModel::Sw(
            argument_register_spec(second),
            at_offset(4 * second, Register::Fp),
        ),
        4 * first + 4 <= 4 * second,
        argument_register_spec(first) != argument_register_spec(second),
{
    lemma_spill_places(count, first);
    lemma_spill_places(count, second);
}

/// A parameter is held in four bytes, whatever its type.
pub proof fn lemma_parameter_size(datatype: DatatypeModel)
    ensures
        size_of(parameter_type(datatype)) == Some(4nat),
{
}

/// The parameters that arrive in registers are packed, four bytes each.
pub proof fn lemma_register_layout_packed(arguments: Seq<FunctionArgumentModel>, count: int)
    requires
        0 <= count <= 8,
        count <= arguments.len(),
    ensures
        register_layout(arguments, count).len() == count,
        packed(register_layout(arguments, count)),
        stack_bytes(register_layout(arguments, count), count) == Some((4 * count) as nat),
        forall|i: int|
            0 <= i < count ==> (#[trigger] register_layout(arguments, count)[i]).address == 4 * i,
    decreases count,
{
    if count > 0 {
        let before = register_layout(arguments, count - 1);
        let all = register_layout(arguments, count);
        lemma_register_layout_packed(arguments, count - 1);
        assert forall|i: int| 0 <= i <= count implies stack_bytes(all, i) == stack_bytes(
            before,
            i,
        ) || i == count by {
            if i < count {
                lemma_stack_bytes_prefix(all, before, i);
            }
        }
        lemma_stack_bytes_prefix(all, before, count - 1);
        assert(size_of(all[count - 1].datatype) == Some(4nat));
    }
}

/// With local variables behind them, packed variables stay packed as long
/// as the frame is valid.
pub proof fn lemma_locals_layout_packed(
    locals: Seq<VariableModel>,
    count: int,
    start: Seq<CompilerVariableModel>,
)
    requires
        0 <= count <= locals.len(),
        packed(start),
        frame_bytes(locals_layout(locals, count, start)) is Some,
    ensures
        locals_layout(locals, count, start).len() == start.len() + count,
        packed(locals_layout(locals, count, start)),
    decreases count,
{
    if count > 0 {
        let before = locals_layout(locals, count - 1, start);
        let all = locals_layout(locals, count, start);
        assert(all.len() == before.len() + 1) by {
            lemma_locals_length(locals, count, start);
            lemma_locals_length(locals, count - 1, start);
        }
        lemma_stack_bytes_prefix(all, before, before.len() as int);
        lemma_stack_bytes_grow(all, before.len() as int, all.len() as int);
        lemma_round_up_is_least_multiple(
            stack_bytes(all, all.len() as int).unwrap() as int,
            16,
        );
        lemma_round_up_is_least_multiple(
            stack_bytes(before, before.len() as int).unwrap() as int,
            16,
        );
        assert(frame_bytes(before) is Some);
        lemma_locals_layout_packed(locals, count - 1, start);
        assert forall|i: int| 0 <= i < all.len() implies {
            &&& (#[trigger] all[i]).location == CompilerVariableLocation::Stack
            &&& size_of(all[i].datatype) is Some
            &&& stack_bytes(all, i) == Some(all[i].address as nat)
            &&& 0 <= all[i].address
        } by {
            lemma_stack_bytes_prefix(all, before, i);
            if i < before.len() {
                assert(all[i] == before[i]);
            }
        }
    }
}

/// The layout of `count` local variables holds `count` more variables.
pub proof fn lemma_locals_length(
    locals: Seq<VariableModel>,
    count: int,
    start: Seq<CompilerVariableModel>,
)
    requires
        0 <= count,
    ensures
        locals_layout(locals, count, start).len() == start.len() + count,
    decreases count,
{
    if count > 0 {
        lemma_locals_length(locals, count - 1, start);
    }
}

/// Two variables of packed variables do not overlap: the later one starts
/// where the earlier one ends, or above.
pub proof fn lemma_packed_apart(variables: Seq<CompilerVariableModel>, first: int, second: int)
    requires
        packed(variables),
        0 <= first < second < variables.len(),
    ensures
        variables[first].address + size_of(variables[first].datatype).unwrap()
            <= variables[second].address,
{
    lemma_stack_bytes_grow(variables, first + 1, second);
}

/// In a function with a valid frame, the variables of the frame do not
/// overlap: every variable starts where the one before it ends, or above.
pub proof fn lemma_frame_variables_apart(function: FunctionDefinitionModel, first: int, second: int)
    requires
        frame_bytes(frame_variables(function)) is Some,
        0 <= first < second < frame_variables(function).len(),
    ensures
        frame_variables(function)[first].address + size_of(
            frame_variables(function)[first].datatype,
        ).unwrap() <= frame_variables(function)[second].address,
{
    let held = register_arguments(function.arguments.len()) as int;
    let start = register_layout(function.arguments, held);
    let locals = only_variables(function.symbols, function.symbols.len() as int);
    lemma_register_layout_packed(function.arguments, held);
    lemma_only_variables_length(function.symbols, function.symbols.len() as int);
    lemma_locals_layout_packed(locals, locals.len() as int, start);
    lemma_packed_apart(frame_variables(function), first, second);
}

/// The parameters that arrived in registers stand first in the frame, in
/// order, four bytes each.
pub proof fn lemma_frame_starts_with_registers(function: FunctionDefinitionModel, index: int)
    requires
        0 <= index < register_arguments(function.arguments.len()),
    ensures
        frame_variables(function)[index].address == 4 * index,
        frame_variables(function)[index].name == function.arguments[index].unique_name,
        size_of(frame_variables(function)[index].datatype) == Some(4nat),
{
    let held = register_arguments(function.arguments.len()) as int;
    let start = register_layout(function.arguments, held);
    let locals = only_variables(function.symbols, function.symbols.len() as int);
    lemma_register_layout_packed(function.arguments, held);
    lemma_only_variables_length(function.symbols, function.symbols.len() as int);
    lemma_locals_prefix(locals, locals.len() as int, start, index);
    lemma_register_layout_names(function.arguments, held, index);
}

/// The place of a parameter that arrived in a register carries its unique
/// name.
pub proof fn lemma_register_layout_names(
    arguments: Seq<FunctionArgumentModel>,
    count: int,
    index: int,
)
    requires
        0 <= index < count,
    ensures
        register_layout(arguments, count).len() == count,
        register_layout(arguments, count)[index].name == arguments[index].unique_name,
    decreases count,
{
    lemma_register_layout_length(arguments, count);
    lemma_register_layout_length(arguments, count - 1);
    if index < count - 1 {
        lemma_register_layout_names(arguments, count - 1, index);
    }
}

/// There is one place for each parameter that arrives in a register.
pub proof fn lemma_register_layout_length(arguments: Seq<FunctionArgumentModel>, count: int)
    requires
        0 <= count,
    ensures
        register_layout(arguments, count).len() == count,
    decreases count,
{
    if count > 0 {
        lemma_register_layout_length(arguments, count - 1);
    }
}

/// There are no more variables than symbols.
pub proof fn lemma_only_variables_length(symbols: Seq<SymbolModel>, count: int)
    requires
        0 <= count,
    ensures
        0 <= only_variables(symbols, count).len() <= count,
    decreases count,
{
    if count > 0 {
        lemma_only_variables_length(symbols, count - 1);
    }
}

/// The local variables stand behind the variables before them, which stay
/// as they are.
pub proof fn lemma_locals_prefix(
    locals: Seq<VariableModel>,
    count: int,
    start: Seq<CompilerVariableModel>,
    index: int,
)
    requires
        0 <= count,
        0 <= index < start.len(),
    ensures
        locals_layout(locals, count, start)[index] == start[index],
    decreases count,
{
    if count > 0 {
        lemma_locals_prefix(locals, count - 1, start, index);
        lemma_locals_length(locals, count - 1, start);
    }
}

} // verus!

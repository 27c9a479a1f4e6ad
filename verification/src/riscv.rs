//! The RISC-V back end: instructions, code generation and the peephole pass.
use vstd::prelude::*;
use crate::riscv::compile::{
    append_instructions, Compile, CompileError, CompilerState, CompilerStateModel,
};
use crate::riscv::instruction::{
    equivalent, instructions_model, is_simplest, lemma_equivalent_is_simplest, Instruction,
    InstructionModel,
};

pub mod balance;
pub mod compile;
pub mod instruction;
pub mod layout;
pub mod meaning;
pub mod names;
pub mod shape;
pub mod values;

verus! {

/// The state in which the code of a program is generated: no variables,
/// and labels numbered from zero.
pub open spec fn initial_state() -> CompilerStateModel {
    CompilerStateModel { variables: Seq::empty(), labels: 0 }
}

/// Generates the code of a program.
pub fn compile_program(program: impl Compile) -> (result: Result<Vec<Instruction>, CompileError>)
    ensures
        match result {
            Ok(code) => program.compiled(initial_state()) matches Ok((generated, _))
                && generated == instructions_model(code@),
            Err(error) => program.compiled(initial_state()) matches Err(reason) && reason == error,
        },
{
    let mut state = CompilerState::new();
    program.compile(&mut state)
}

/// A program with each instruction replaced by the simpler instructions
/// that do the same.
pub open spec fn optimized(program: Seq<InstructionModel>) -> Seq<InstructionModel>
    decreases program.len(),
{
    if program.len() == 0 {
        Seq::empty()
    } else {
        optimized(program.drop_last()) + equivalent(program.last())
    }
}

/// Replaces each instruction by the simpler instructions that do the same.
pub fn optimize_program(program: Vec<Instruction>) -> (optimized_program: Vec<Instruction>)
    ensures
        instructions_model(optimized_program@) == optimized(instructions_model(program@)),
{
    let mut optimized_program: Vec<Instruction> = Vec::new();
    let ghost model = instructions_model(program@);
    assert(instructions_model(optimized_program@) =~= optimized(model.take(0)));
    let mut i: usize = 0;
    while i < program.len()
        invariant
            i <= program.len(),
            model == instructions_model(program@),
            instructions_model(optimized_program@) == optimized(model.take(i as int)),
        decreases program.len() - i,
    {
        assert(model.take(i + 1).drop_last() =~= model.take(i as int));
        assert(model.take(i + 1).last() == program@[i as int]@);
        append_instructions(&mut optimized_program, program[i].convert_to_equivalent());
        i = i + 1;
    }
    assert(model.take(i as int) =~= model);
    optimized_program
}

/// Rewriting two programs one after the other is rewriting each.
pub proof fn lemma_optimized_concat(first: Seq<InstructionModel>, second: Seq<InstructionModel>)
    ensures
        optimized(first + second) == optimized(first) + optimized(second),
    decreases second.len(),
{
    if second.len() == 0 {
        assert(first + second =~= first);
        assert(optimized(first) + optimized(second) =~= optimized(first));
    } else {
        lemma_optimized_concat(first, second.drop_last());
        assert((first + second).drop_last() =~= first + second.drop_last());
        assert((first + second).last() == second.last());
        assert(optimized(first + second) =~= optimized(first) + optimized(second));
    }
}

/// A program of instructions that the rewriting leaves as they are is left
/// as it is.
pub proof fn lemma_optimized_simplest(program: Seq<InstructionModel>)
    requires
        forall|i: int| 0 <= i < program.len() ==> is_simplest(#[trigger] program[i]),
    ensures
        optimized(program) == program,
    decreases program.len(),
{
    if program.len() > 0 {
        lemma_optimized_simplest(program.drop_last());
        assert(is_simplest(program.last()));
        assert(optimized(program) =~= program);
    }
}

/// The peephole pass is idempotent: running it on its own result changes
/// nothing.
pub proof fn lemma_optimize_twice(program: Seq<InstructionModel>)
    ensures
        optimized(optimized(program)) == optimized(program),
    decreases program.len(),
{
    if program.len() > 0 {
        lemma_optimize_twice(program.drop_last());
        lemma_optimized_concat(optimized(program.drop_last()), equivalent(program.last()));
        lemma_equivalent_is_simplest(program.last());
        lemma_optimized_simplest(equivalent(program.last()));
    }
}

/// The peephole pass never makes a program longer.
pub proof fn lemma_optimized_is_shorter(program: Seq<InstructionModel>)
    ensures
        optimized(program).len() <= program.len(),
    decreases program.len(),
{
    if program.len() > 0 {
        lemma_optimized_is_shorter(program.drop_last());
    }
}

} // verus!

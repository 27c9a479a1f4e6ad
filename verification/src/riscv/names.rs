//! The numbers of the labels: every label that code generation makes up gets
//! a number of its own, above the numbers that the parser handed out.
use vstd::prelude::*;
use crate::riscv::balance::lemma_function_balanced;
use crate::riscv::compile::{fresh, fresh_label, Compile, CompilerStateModel};
use crate::riscv::compile::function_definition::{program_code, program_start};
use crate::types::program::{Program, ProgramStatementModel};
use crate::utils::random_name::lemma_mangled_distinct;

verus! {

/// Taking a fresh label moves the number of the next label up by one, and
/// labels taken at different numbers differ.
pub proof fn lemma_fresh_labels_differ(
    first: Seq<char>,
    second: Seq<char>,
    earlier: nat,
    later: nat,
)
    requires
        earlier < later,
    ensures
        fresh(earlier) matches Ok(taken) ==> taken.labels == earlier + 1,
        fresh_label(first, earlier) != fresh_label(second, later),
{
    lemma_mangled_distinct(first, earlier, second, later);
}

/// The number of the next label never goes down while the items of a
/// program are generated.
pub proof fn lemma_program_labels_grow(
    statements: Seq<ProgramStatementModel>,
    count: int,
    state: CompilerStateModel,
)
    ensures
        program_code(statements, count, state) matches Ok((_, after)) ==> after.labels
            >= state.labels,
    decreases count,
{
    if count > 0 {
        lemma_program_labels_grow(statements, count - 1, state);
        match program_code(statements, count - 1, state) {
            Ok((_, middle)) => {
                match statements[count - 1] {
                    ProgramStatementModel::FunctionDefinition(function) => {
                        lemma_function_balanced(function, middle.labels);
                    },
                    ProgramStatementModel::FunctionDeclaration(_) => {},
                }
            },
            Err(_) => {},
        }
    }
}

/// The labels of a program are numbered from the number of unique names
/// that the parser handed out: no label gets a number that a variable or a
/// loop of the program has.
pub proof fn lemma_labels_follow_identifiers(program: Program, state: CompilerStateModel)
    ensures
        program_start(state, program@.identifiers).labels >= program@.identifiers,
        program.compiled(state) matches Ok((_, after)) ==> after.labels >= program@.identifiers,
{
    lemma_program_labels_grow(
        program@.functions,
        program@.functions.len() as int,
        program_start(state, program@.identifiers),
    );
}

} // verus!

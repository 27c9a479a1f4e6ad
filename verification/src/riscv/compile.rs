//! Code generation: its state, and what it makes of each part of a
//! program.
use vstd::prelude::*;
use vstd::string::*;
use crate::riscv::instruction::{instructions_model, Instruction, InstructionModel};
use crate::riscv::values::{
    at_offset, number, Immediate, ImmediateModel, Register, RegisterWithOffset,
};
use crate::types::datatype::{size_of, Datatype, DatatypeModel};
use crate::utils::nearest_multiple::{
    checked_nearest_multiple, lemma_round_up_is_least_multiple, round_up,
};
use crate::utils::random_name::{mangled, unique_identifier};

pub mod declaration;
pub mod expression;
pub mod function_definition;
pub mod scope;
pub mod statement;

verus! {

/// The stack pointer is kept at a multiple of this many bytes.
pub const STACK_ALIGNMENT: u32 = 16;

/// Why code generation gave up.
#[derive(Debug, Clone, Copy, PartialEq, Eq, Structural)]
pub enum CompileError {
    /// An expression names a variable that the function does not hold.
    UnknownVariable,
    /// An assignment, an increment or `&` is applied to something that has
    /// no address.
    NotAnLvalue,
    /// No fresh label name is left.
    TooManyLabels,
    /// A call has more arguments than the stack pointer can be moved for.
    TooManyArguments,
    /// A variable of a function has a type without a size, or the variables
    /// do not fit in one frame.
    InvalidFrame,
}

/// Where a variable of the current function lives.
#[derive(Debug, Clone, Copy, PartialEq, Eq, Structural)]
pub enum CompilerVariableLocation {
    /// Above the saved registers, where the caller left it.
    Leaked,
    /// In the frame of the function.
    Stack,
}

/// A variable of the current function: its unique name, its offset from the
/// frame pointer, its type and where it lives.
#[derive(Debug)]
pub struct CompilerVariable {
    pub name: String,
    pub address: i32,
    pub datatype: Datatype,
    pub location: CompilerVariableLocation,
}

/// What a variable of the current function stands for.
pub struct CompilerVariableModel {
    pub name: Seq<char>,
    pub address: i32,
    pub datatype: DatatypeModel,
    pub location: CompilerVariableLocation,
}

impl View for CompilerVariable {
    type V = CompilerVariableModel;

    open spec fn view(&self) -> CompilerVariableModel {
        CompilerVariableModel {
            name: self.name@,
            address: self.address,
            datatype: self.datatype@,
            location: self.location,
        }
    }
}

impl Clone for CompilerVariable {
    fn clone(&self) -> (copy: Self)
        ensures
            copy@ == self@,
    {
        CompilerVariable {
            name: self.name.clone(),
            address: self.address,
            datatype: self.datatype.clone(),
            location: self.location,
        }
    }
}

/// The variables of the current function, in the order of their places.
#[derive(Debug)]
pub struct CompilerScope {
    pub variables: Vec<CompilerVariable>,
}

impl View for CompilerScope {
    type V = Seq<CompilerVariableModel>;

    open spec fn view(&self) -> Seq<CompilerVariableModel> {
        Seq::new(self.variables@.len(), |i: int| self.variables@[i]@)
    }
}

/// The bytes that the first `count` variables take in the frame, if each of
/// those that live in it has a size. Variables that the caller left above
/// the frame take none.
pub open spec fn stack_bytes(variables: Seq<CompilerVariableModel>, count: int) -> Option<nat>
    decreases count,
{
    if count <= 0 {
        Some(0)
    } else {
        match stack_bytes(variables, count - 1) {
            Some(below) => if variables[count - 1].location == CompilerVariableLocation::Leaked {
                Some(below)
            } else {
                match size_of(variables[count - 1].datatype) {
                    Some(bytes) => Some(below + bytes),
                    None => None,
                }
            },
            None => None,
        }
    }
}

/// The largest frame that a function may have, in bytes.
pub open spec fn max_frame() -> nat {
    0x3000_0000
}

/// The size of the frame that holds `variables`: their bytes, rounded up to
/// the stack alignment. There is none if a variable has no size or if the
/// frame would be larger than `max_frame()`.
pub open spec fn frame_bytes(variables: Seq<CompilerVariableModel>) -> Option<nat> {
    match stack_bytes(variables, variables.len() as int) {
        Some(bytes) => if round_up(bytes as int, 16) <= max_frame() {
            Some(round_up(bytes as int, 16) as nat)
        } else {
            None
        },
        None => None,
    }
}

/// The first variable called `name`, looking from place `from` on.
pub open spec fn find_variable_from(
    variables: Seq<CompilerVariableModel>,
    name: Seq<char>,
    from: int,
) -> Option<CompilerVariableModel>
    decreases variables.len() - from,
{
    if from < 0 || from >= variables.len() {
        None
    } else if variables[from].name == name {
        Some(variables[from])
    } else {
        find_variable_from(variables, name, from + 1)
    }
}

/// The first variable called `name`.
pub open spec fn find_variable(variables: Seq<CompilerVariableModel>, name: Seq<char>) -> Option<
    CompilerVariableModel,
> {
    find_variable_from(variables, name, 0)
}

impl CompilerScope {
    /// The size of the frame, or `None` if the variables have none.
    pub fn try_variable_size(&self) -> (size: Option<usize>)
        ensures
            size matches Some(bytes) ==> frame_bytes(self@) == Some(bytes as nat),
            size is None <==> frame_bytes(self@) is None,
    {
        let mut total: u64 = 0;
        let mut i: usize = 0;
        while i < self.variables.len()
            invariant
                i <= self.variables.len(),
                stack_bytes(self@, i as int) == Some(total as nat),
                total <= 0x3000_0000,
                self@.len() == self.variables.len(),
            decreases self.variables.len() - i,
        {
            assert(self@[i as int] == self.variables@[i as int]@);
            if self.variables[i].location == CompilerVariableLocation::Stack {
                match self.variables[i].datatype.try_size() {
                    Some(bytes) => {
                        total = total + bytes as u64;
                    },
                    None => {
                        proof {
                            lemma_stack_bytes_grow(self@, i as int + 1, self@.len() as int);
                        }
                        return None;
                    },
                }
            }
            if total > 0x3000_0000 {
                proof {
                    lemma_stack_bytes_grow(self@, i as int + 1, self@.len() as int);
                    if stack_bytes(self@, self@.len() as int) is Some {
                        lemma_round_up_is_least_multiple(
                            stack_bytes(self@, self@.len() as int).unwrap() as int,
                            16,
                        );
                    }
                }
                return None;
            }
            i = i + 1;
        }
        match checked_nearest_multiple(total as u32, STACK_ALIGNMENT) {
            Some(rounded) => {
                if rounded > 0x3000_0000 {
                    None
                } else {
                    Some(rounded as usize)
                }
            },
            None => None,
        }
    }

    fn get_total_variable_type_size(&self) -> (bytes: usize)
        requires
            frame_bytes(self@) is Some,
        ensures
            frame_bytes(self@) == Some(bytes as nat),
    {
        match self.try_variable_size() {
            Some(bytes) => bytes,
            None => 0,
        }
    }

    /// The size of the frame.
    pub fn variable_size(&self) -> (bytes: usize)
        requires
            frame_bytes(self@) is Some,
        ensures
            frame_bytes(self@) == Some(bytes as nat),
    {
        self.get_total_variable_type_size()
    }
}

/// The bytes of the first variables depend on these variables only.
pub proof fn lemma_stack_bytes_prefix(
    left: Seq<CompilerVariableModel>,
    right: Seq<CompilerVariableModel>,
    count: int,
)
    requires
        count <= left.len(),
        count <= right.len(),
        forall|i: int| 0 <= i < count ==> left[i] == right[i],
    ensures
        stack_bytes(left, count) == stack_bytes(right, count),
    decreases count,
{
    if count > 0 {
        lemma_stack_bytes_prefix(left, right, count - 1);
    }
}

/// A variable that the caller left above the frame does not change the
/// size of the frame.
pub proof fn lemma_leaked_keeps_frame(
    variables: Seq<CompilerVariableModel>,
    leaked: CompilerVariableModel,
)
    requires
        leaked.location == CompilerVariableLocation::Leaked,
    ensures
        frame_bytes(variables.push(leaked)) == frame_bytes(variables),
{
    lemma_stack_bytes_prefix(variables.push(leaked), variables, variables.len() as int);
}

/// More variables take at least as many bytes; once the bytes of the first
/// variables are unknown, those of more variables are unknown too.
pub proof fn lemma_stack_bytes_grow(variables: Seq<CompilerVariableModel>, count: int, more: int)
    requires
        count <= more,
    ensures
        stack_bytes(variables, count) is None ==> stack_bytes(variables, more) is None,
        stack_bytes(variables, more) matches Some(above)
            ==> stack_bytes(variables, count) matches Some(
            below,
        ) && below <= above,
    decreases more - count,
{
    if count < more {
        lemma_stack_bytes_grow(variables, count, more - 1);
    }
}

/// What code generation keeps between two steps: the variables of the
/// current function, and the number of the next fresh label.
#[derive(Debug)]
pub struct CompilerState {
    pub scope: CompilerScope,
    pub labels: u64,
}

/// What the state of code generation stands for.
pub struct CompilerStateModel {
    pub variables: Seq<CompilerVariableModel>,
    pub labels: nat,
}

impl View for CompilerState {
    type V = CompilerStateModel;

    open spec fn view(&self) -> CompilerStateModel {
        CompilerStateModel { variables: self.scope@, labels: self.labels as nat }
    }
}

/// The code generated so far, and the number of the next fresh label.
pub struct Generated {
    pub code: Seq<InstructionModel>,
    pub labels: nat,
}

/// Code generated so far, or the reason why there is none.
pub type Outcome = Result<Generated, CompileError>;

/// The outcome that is `code`, with `labels` the next fresh label.
pub open spec fn only(code: Seq<InstructionModel>, labels: nat) -> Outcome {
    Ok(Generated { code, labels })
}

/// The number of the next fresh label after an outcome.
pub open spec fn next(outcome: Outcome) -> nat {
    match outcome {
        Ok(generated) => generated.labels,
        Err(_) => 0,
    }
}

/// The code of an outcome.
pub open spec fn code_of(outcome: Outcome) -> Seq<InstructionModel> {
    match outcome {
        Ok(generated) => generated.code,
        Err(_) => Seq::empty(),
    }
}

/// The outcome followed by one more instruction.
pub open spec fn emit(outcome: Outcome, instruction: InstructionModel) -> Outcome {
    match outcome {
        Ok(generated) => only(generated.code.push(instruction), generated.labels),
        Err(error) => Err(error),
    }
}

/// The first outcome followed by the second, which was generated after it.
/// The first error wins.
pub open spec fn join(first: Outcome, second: Outcome) -> Outcome {
    match first {
        Ok(head) => match second {
            Ok(tail) => only(head.code + tail.code, tail.labels),
            Err(error) => Err(error),
        },
        Err(error) => Err(error),
    }
}

/// The second outcome, if the first is no error; else the first error.
pub open spec fn after(first: Outcome, rest: Outcome) -> Outcome {
    match first {
        Ok(_) => rest,
        Err(error) => Err(error),
    }
}

/// Taking one fresh label: the label counter moves by one, if a number is
/// left.
pub open spec fn fresh(labels: nat) -> Outcome {
    if labels < u64::MAX {
        only(Seq::empty(), labels + 1)
    } else {
        Err(CompileError::TooManyLabels)
    }
}

/// The label operand with the name that request `labels` gives to `name`.
pub open spec fn fresh_label(name: Seq<char>, labels: nat) -> ImmediateModel {
    ImmediateModel::Label(mangled(name, labels))
}

/// The instructions that leave the current function: give back the frame,
/// restore the saved registers, give back their 32 bytes, and return.
pub open spec fn epilogue(frame: nat) -> Seq<InstructionModel> {
    Seq::empty().push(
        InstructionModel::Addi(Register::Sp, Register::Sp, number(frame as int)),
    ).push(InstructionModel::Lw(Register::S1, at_offset(24, Register::Sp))).push(
        InstructionModel::Lw(Register::Fp, at_offset(16, Register::Sp)),
    ).push(InstructionModel::Lw(Register::Ra, at_offset(0, Register::Sp))).push(
        InstructionModel::Addi(Register::Sp, Register::Sp, number(32)),
    ).push(InstructionModel::RetP)
}

/// The size of the frame that holds `variables`, or zero if there is none.
pub open spec fn frame_of(variables: Seq<CompilerVariableModel>) -> nat {
    match frame_bytes(variables) {
        Some(bytes) => bytes,
        None => 0,
    }
}

impl CompilerState {
    /// The state holds variables that fit in a frame.
    pub open spec fn well_formed(&self) -> bool {
        frame_bytes(self.scope@) is Some
    }

    /// The state before the first function: no variables, and labels
    /// numbered from zero.
    pub fn new() -> (state: CompilerState)
        ensures
            state@ == (CompilerStateModel { variables: Seq::empty(), labels: 0 }),
            state.well_formed(),
    {
        let state = CompilerState { scope: CompilerScope { variables: Vec::new() }, labels: 0 };
        assert(state.scope@ =~= Seq::empty());
        assert(stack_bytes(state.scope@, 0) == Some(0nat));
        state
    }

    /// The instructions that leave the current function.
    pub fn return_from_function(&mut self) -> (code: Vec<Instruction>)
        requires
            old(self).well_formed(),
        ensures
            *final(self) == *old(self),
            instructions_model(code@) == epilogue(frame_of(old(self).scope@)),
    {
        let frame: usize = self.scope.variable_size();
        let code = vec![
            Instruction::Addi(Register::Sp, Register::Sp, Immediate::Number(frame as i32)),
            Instruction::Lw(Register::S1, RegisterWithOffset::at(24, Register::Sp)),
            Instruction::Lw(Register::Fp, RegisterWithOffset::at(16, Register::Sp)),
            Instruction::Lw(Register::Ra, RegisterWithOffset::at(0, Register::Sp)),
            Instruction::Addi(Register::Sp, Register::Sp, Immediate::Number(32)),
            Instruction::RetP,
        ];
        assert(instructions_model(code@) =~= epilogue(frame_of(self.scope@)));
        code
    }

    /// The first variable called `name`, if the function holds one.
    pub fn get_variable(&self, name: &str) -> (variable: Option<CompilerVariable>)
        ensures
            match variable {
                Some(found) => find_variable(self.scope@, name@) == Some(found@),
                None => find_variable(self.scope@, name@) is None,
            },
    {
        let wanted = String::from_str(name);
        let mut i: usize = 0;
        while i < self.scope.variables.len()
            invariant
                i <= self.scope.variables.len(),
                self.scope@.len() == self.scope.variables.len(),
                wanted@ == name@,
                find_variable(
                    self.scope@,
                    name@,
                ) == find_variable_from(self.scope@, name@, i as int),
            decreases self.scope.variables.len() - i,
        {
            assert(self.scope@[i as int] == self.scope.variables@[i as int]@);
            if self.scope.variables[i].name == wanted {
                return Some(self.scope.variables[i].clone());
            }
            i = i + 1;
        }
        None
    }

    /// Takes the next fresh label for `name`.
    pub fn fresh_label(&mut self, name: &str) -> (label: Result<String, CompileError>)
        ensures
            final(self).scope == old(self).scope,
            match label {
                Ok(text) => fresh(old(self).labels as nat) == only(
                    Seq::empty(),
                    final(self).labels as nat,
                ) && text@ == mangled(name@, old(self).labels as nat),
                Err(
                    error,
                ) => fresh(old(self).labels as nat) == Err::<Generated, CompileError>(error),
            },
    {
        if self.labels == u64::MAX {
            return Err(CompileError::TooManyLabels);
        }
        let text = unique_identifier(name, self.labels);
        self.labels = self.labels + 1;
        Ok(text)
    }
}

/// One more instruction at the end of `code`.
pub fn push_instruction(code: &mut Vec<Instruction>, instruction: Instruction)
    ensures
        instructions_model(final(code)@) == instructions_model(old(code)@).push(instruction@),
{
    code.push(instruction);
    assert(instructions_model(code@) =~= instructions_model(old(code)@).push(instruction@));
}

/// The instructions of `more` at the end of `code`.
pub fn append_instructions(code: &mut Vec<Instruction>, more: Vec<Instruction>)
    ensures
        instructions_model(final(code)@) == instructions_model(old(code)@) + instructions_model(
            more@,
        ),
{
    let mut more = more;
    let ghost added = more@;
    code.append(&mut more);
    assert(
        instructions_model(code@) =~= instructions_model(old(code)@) + instructions_model(added)
    );
}

/// What `compile` gives for a part of a program: the code, and the state
/// after, or the reason why there is no code.
pub type Compiled = Result<(Seq<InstructionModel>, CompilerStateModel), CompileError>;

/// The outcome of generating code for a part that leaves the variables as
/// they are.
pub open spec fn compiled_in(outcome: Outcome, state: CompilerStateModel) -> Compiled {
    match outcome {
        Ok(generated) => Ok(
            (
                generated.code,
                CompilerStateModel { variables: state.variables, labels: generated.labels },
            ),
        ),
        Err(error) => Err(error),
    }
}

/// Whether what `compile` returned is what the model says.
pub open spec fn agrees(
    result: Result<Vec<Instruction>, CompileError>,
    compiled: Compiled,
    after: CompilerStateModel,
) -> bool {
    match result {
        Ok(code) => compiled == Ok::<_, CompileError>((instructions_model(code@), after)),
        Err(error) => compiled == Err::<(Seq<InstructionModel>, CompilerStateModel), _>(error),
    }
}

/// The parts of a program that code can be generated for.
pub trait Compile {
    /// The code for this part and the state after it, from a given state.
    spec fn compiled(&self, state: CompilerStateModel) -> Compiled;

    /// Generates the code for this part.
    fn compile(&self, state: &mut CompilerState) -> (result: Result<Vec<Instruction>, CompileError>)
        requires
            old(state).well_formed(),
        ensures
            final(state).well_formed(),
            agrees(result, self.compiled(old(state)@), final(state)@),
    ;
}

} // verus!

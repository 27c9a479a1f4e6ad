//! The code of functions and programs, and the layout of a frame.
use std::sync::Arc;
use vstd::prelude::*;
use vstd::string::*;
use crate::parser::{only_variables, variables_model, VariableModel};
use crate::riscv::compile::{
    append_instructions, epilogue, frame_bytes, frame_of, lemma_leaked_keeps_frame,
    lemma_stack_bytes_prefix, max_frame, push_instruction, stack_bytes, Compile, CompileError,
    Compiled, CompilerScope, CompilerState, CompilerStateModel, CompilerVariable,
    CompilerVariableLocation, CompilerVariableModel,
};
use crate::riscv::compile::expression::{max_arguments, nothing, register_arguments};
use crate::riscv::compile::statement::items_code;
use crate::riscv::instruction::{instructions_model, Instruction, InstructionModel};
use crate::riscv::values::{
    argument_register_spec, at_offset, number, Immediate, Register, RegisterWithOffset,
};
use crate::types::datatype::{lemma_function_model, Datatype, DatatypeModel};
use crate::types::function_definition::{
    FunctionArgumentModel, FunctionDeclaration, FunctionDefinition, FunctionDefinitionModel,
};
use crate::types::program::{Program, ProgramStatement, ProgramStatementModel};
use crate::utils::nearest_multiple::lemma_round_up_is_least_multiple;
use crate::utils::shared::share;

verus! {

/// The type under which a parameter is held: a function or an array is held
/// as a pointer, so that every parameter takes four bytes.
pub open spec fn parameter_type(datatype: DatatypeModel) -> DatatypeModel {
    match datatype {
        DatatypeModel::Function { .. } => DatatypeModel::Pointer { inner: Box::new(datatype) },
        DatatypeModel::Array { inner, .. } => DatatypeModel::Pointer { inner },
        _ => datatype,
    }
}

/// The places of the first `count` parameters: they arrive in registers and
/// are kept at the start of the frame, four bytes each.
pub open spec fn register_layout(arguments: Seq<FunctionArgumentModel>, count: int) -> Seq<
    CompilerVariableModel,
>
    decreases count,
{
    if count <= 0 {
        Seq::empty()
    } else {
        register_layout(arguments, count - 1).push(
            CompilerVariableModel {
                name: arguments[count - 1].unique_name,
                address: (4 * (count - 1)) as i32,
                datatype: parameter_type(arguments[count - 1].datatype),
                location: CompilerVariableLocation::Stack,
            },
        )
    }
}

/// The offset at which the next variable is placed, after variables that
/// take `bytes`.
pub open spec fn next_address(bytes: Option<nat>) -> i32 {
    match bytes {
        Some(taken) => if taken <= max_frame() {
            taken as i32
        } else {
            0
        },
        None => 0,
    }
}

/// The places of `start` and of the first `count` local variables: each
/// local variable stands right behind what stands before it.
pub open spec fn locals_layout(
    locals: Seq<VariableModel>,
    count: int,
    start: Seq<CompilerVariableModel>,
) -> Seq<CompilerVariableModel>
    decreases count,
{
    if count <= 0 {
        start
    } else {
        let before = locals_layout(locals, count - 1, start);
        before.push(
            CompilerVariableModel {
                name: locals[count - 1].unique_name,
                address: next_address(stack_bytes(before, before.len() as int)),
                datatype: locals[count - 1].datatype,
                location: CompilerVariableLocation::Stack,
            },
        )
    }
}

/// The places of `start` and of the parameters from the ninth up to number
/// `count`: the caller left them above the saved registers, four bytes
/// each, beginning `base` bytes above the frame pointer.
pub open spec fn leaked_layout(
    arguments: Seq<FunctionArgumentModel>,
    count: int,
    base: int,
    start: Seq<CompilerVariableModel>,
) -> Seq<CompilerVariableModel>
    decreases count,
{
    if count <= 8 {
        start
    } else {
        leaked_layout(arguments, count - 1, base, start).push(
            CompilerVariableModel {
                name: arguments[count - 1].unique_name,
                address: (base + 4 * (count - 9)) as i32,
                datatype: parameter_type(arguments[count - 1].datatype),
                location: CompilerVariableLocation::Leaked,
            },
        )
    }
}

/// The variables of a function that live in its frame: the parameters that
/// arrive in registers, then the local variables in the order of their
/// declaration.
pub open spec fn frame_variables(function: FunctionDefinitionModel) -> Seq<CompilerVariableModel> {
    let locals = only_variables(function.symbols, function.symbols.len() as int);
    locals_layout(
        locals,
        locals.len() as int,
        register_layout(
            function.arguments,
            register_arguments(function.arguments.len()) as int,
        ),
    )
}

/// All variables of a function with their places.
pub open spec fn function_variables(
    function: FunctionDefinitionModel,
) -> Seq<CompilerVariableModel> {
    leaked_layout(
        function.arguments,
        function.arguments.len() as int,
        32 + frame_of(frame_variables(function)) as int,
        frame_variables(function),
    )
}

/// The stores that keep the first `count` argument registers in the frame.
pub open spec fn spill_code(count: int) -> Seq<InstructionModel>
    decreases count,
{
    if count <= 0 {
        Seq::empty()
    } else {
        spill_code(count - 1).push(
            InstructionModel::Sw(
                argument_register_spec(count - 1),
                at_offset(4 * (count - 1), Register::Fp),
            ),
        )
    }
}

/// The start of a function: its name made global, and its label; 32 bytes
/// for the return address, the frame pointer and `s1`; the frame; the frame
/// pointer set to the stack pointer; the argument registers kept in the
/// frame.
pub open spec fn prologue(name: Seq<char>, frame: nat, held: nat) -> Seq<InstructionModel> {
    Seq::empty().push(InstructionModel::Symbol("globl "@ + name)).push(
        InstructionModel::Label(name),
    ).push(InstructionModel::Addi(Register::Sp, Register::Sp, number(-32))).push(
        InstructionModel::Sw(Register::Ra, at_offset(0, Register::Sp)),
    ).push(InstructionModel::Sw(Register::Fp, at_offset(16, Register::Sp))).push(
        InstructionModel::Sw(Register::S1, at_offset(24, Register::Sp)),
    ).push(InstructionModel::Addi(Register::Sp, Register::Sp, number(-frame))).push(
        InstructionModel::Addi(Register::Fp, Register::Sp, number(0)),
    ) + spill_code(held as int)
}

/// The code of a function: the prologue, the body, and a return of zero for
/// a body that ends without a return.
pub open spec fn function_code(function: FunctionDefinitionModel, labels: nat) -> Compiled {
    if function.arguments.len() > max_arguments() {
        Err(CompileError::TooManyArguments)
    } else if frame_bytes(frame_variables(function)) is None {
        Err(CompileError::InvalidFrame)
    } else {
        let variables = function_variables(function);
        let frame = frame_of(frame_variables(function));
        match items_code(function.body, function.body.len() as int, variables, labels) {
            Ok(body) => Ok(
                (
                    (prologue(
                        function.name,
                        frame,
                        register_arguments(function.arguments.len()),
                    ) + body.code).push(InstructionModel::LiP(Register::A0, number(0))) + epilogue(
                        frame_of(variables),
                    ),
                    CompilerStateModel { variables, labels: body.labels },
                ),
            ),
            Err(error) => Err(error),
        }
    }
}

/// The code of an item at the top of a program. A function without a body
/// has none.
pub open spec fn program_statement_code(
    statement: ProgramStatementModel,
    state: CompilerStateModel,
) -> Compiled {
    match statement {
        ProgramStatementModel::FunctionDefinition(
            function,
        ) => function_code(function, state.labels),
        ProgramStatementModel::FunctionDeclaration(_) => Ok((Seq::empty(), state)),
    }
}

/// The code of the first `count` items of a program, one after the other.
pub open spec fn program_code(
    statements: Seq<ProgramStatementModel>,
    count: int,
    state: CompilerStateModel,
) -> Compiled
    decreases count,
{
    if count <= 0 {
        Ok((Seq::empty(), state))
    } else {
        match program_code(statements, count - 1, state) {
            Ok((before, middle)) => match program_statement_code(statements[count - 1], middle) {
                Ok((code, after)) => Ok((before + code, after)),
                Err(error) => Err(error),
            },
            Err(error) => Err(error),
        }
    }
}

/// Once generating the items of a program has failed, generating more of
/// them fails in the same way.
pub proof fn lemma_program_error(
    statements: Seq<ProgramStatementModel>,
    count: int,
    more: int,
    state: CompilerStateModel,
)
    requires
        program_code(statements, count, state) is Err,
        count <= more,
    ensures
        program_code(statements, more, state) == program_code(statements, count, state),
    decreases more - count,
{
    if count < more {
        lemma_program_error(statements, count, more - 1, state);
    }
}

/// The parameters beyond the eighth do not change the size of the frame,
/// and leave the variables before them as they are.
pub proof fn lemma_leaked_layout(
    arguments: Seq<FunctionArgumentModel>,
    count: int,
    base: int,
    start: Seq<CompilerVariableModel>,
)
    ensures
        frame_bytes(leaked_layout(arguments, count, base, start)) == frame_bytes(start),
    decreases count,
{
    if count > 8 {
        lemma_leaked_layout(arguments, count - 1, base, start);
        lemma_leaked_keeps_frame(
            leaked_layout(arguments, count - 1, base, start),
            leaked_layout(arguments, count, base, start).last(),
        );
    }
}

/// The type under which a parameter is held.
pub fn held_type(datatype: &Datatype) -> (held: Datatype)
    ensures
        held@ == parameter_type(datatype@),
{
    proof {
        lemma_function_model(*datatype);
    }
    match datatype {
        Datatype::Function { .. } => Datatype::Pointer { inner: Arc::new(datatype.clone()) },
        Datatype::Array { inner, .. } => Datatype::Pointer { inner: share(inner) },
        _ => datatype.clone(),
    }
}

/// The stores that keep the argument registers in the frame.
fn spill_registers(held: usize) -> (code: Vec<Instruction>)
    requires
        held <= 8,
    ensures
        instructions_model(code@) == spill_code(held as int),
{
    let mut code = nothing();
    let mut count: usize = 0;
    while count < held
        invariant
            count <= held <= 8,
            instructions_model(code@) == spill_code(count as int),
        decreases held - count,
    {
        push_instruction(
            &mut code,
            Instruction::Sw(
                Register::argument(count),
                RegisterWithOffset::at((4 * count) as i32, Register::Fp),
            ),
        );
        count = count + 1;
    }
    code
}

impl FunctionDefinition {
    /// The variables of the function that live in its frame, with their
    /// places.
    fn lay_out_frame(&self) -> (scope: CompilerScope)
        requires
            self@.arguments.len() <= max_arguments(),
        ensures
            scope@ == frame_variables(self@),
    {
        let held: usize = if self.arguments.len() < 8 {
            self.arguments.len()
        } else {
            8
        };
        let mut variables: Vec<CompilerVariable> = Vec::new();
        let ghost mut placed: Seq<CompilerVariableModel> = Seq::empty();
        let mut i: usize = 0;
        while i < held
            invariant
                i <= held <= 8,
                held <= self.arguments.len(),
                placed == register_layout(self@.arguments, i as int),
                placed == (CompilerScope { variables })@,
                stack_bytes(placed, placed.len() as int) == Some((4 * i) as nat),
                placed.len() == i,
            decreases held - i,
        {
            let argument = &self.arguments[i];
            assert(self@.arguments[i as int] == argument@);
            let variable = CompilerVariable {
                name: argument.unique_name.clone(),
                address: (4 * i) as i32,
                datatype: held_type(&argument.datatype),
                location: CompilerVariableLocation::Stack,
            };
            proof {
                let longer = placed.push(variable@);
                lemma_stack_bytes_prefix(longer, placed, placed.len() as int);
                placed = longer;
            }
            variables.push(variable);
            assert(placed =~= (CompilerScope { variables })@);
            i = i + 1;
        }
        let locals = self.scope_state.get_only_variables();
        let ghost start = placed;
        let ghost wanted = only_variables(self@.symbols, self@.symbols.len() as int);
        // The bytes taken so far, while they fit in a frame.
        let mut taken: Option<u32> = Some((4 * held) as u32);
        let mut j: usize = 0;
        while j < locals.len()
            invariant
                j <= locals.len(),
                wanted == variables_model(locals@),
                placed == locals_layout(wanted, j as int, start),
                placed == (CompilerScope { variables })@,
                match taken {
                    Some(bytes) => stack_bytes(placed, placed.len() as int) == Some(bytes as nat)
                        && bytes <= max_frame(),
                    None => next_address(stack_bytes(placed, placed.len() as int)) == 0
                        && frame_bytes(placed) is None && (stack_bytes(placed, placed.len() as int)
                        matches Some(bytes) ==> bytes > max_frame()),
                },
            decreases locals.len() - j,
        {
            let local = &locals[j];
            assert(wanted[j as int] == local@);
            let address: i32 = match taken {
                Some(bytes) => bytes as i32,
                None => 0,
            };
            let variable = CompilerVariable {
                name: local.unique_name.clone(),
                address,
                datatype: local.datatype.clone(),
                location: CompilerVariableLocation::Stack,
            };
            let size = local.datatype.try_size();
            proof {
                let longer = placed.push(variable@);
                lemma_stack_bytes_prefix(longer, placed, placed.len() as int);
                if stack_bytes(longer, longer.len() as int) is Some {
                    lemma_round_up_is_least_multiple(
                        stack_bytes(longer, longer.len() as int).unwrap() as int,
                        16,
                    );
                }
                placed = longer;
            }
            taken = match (taken, size) {
                (Some(bytes), Some(more)) => {
                    if more as u64 + bytes as u64 > 0x3000_0000 {
                        None
                    } else {
                        Some(bytes + more as u32)
                    }
                },
                _ => None,
            };
            variables.push(variable);
            assert(placed =~= (CompilerScope { variables })@);
            j = j + 1;
        }
        CompilerScope { variables }
    }
}

/// The start of a function.
fn emit_prologue(name: &String, frame: i32, held: usize) -> (code: Vec<Instruction>)
    requires
        held <= 8,
        0 <= frame,
    ensures
        instructions_model(code@) == prologue(name@, frame as nat, held as nat),
{
    let mut code = nothing();
    push_instruction(
        &mut code,
        Instruction::Symbol(String::from_str("globl ").concat(name.as_str())),
    );
    push_instruction(&mut code, Instruction::Label(name.clone()));
    push_instruction(
        &mut code,
        Instruction::Addi(Register::Sp, Register::Sp, Immediate::Number(-32)),
    );
    push_instruction(
        &mut code,
        Instruction::Sw(Register::Ra, RegisterWithOffset::at(0, Register::Sp)),
    );
    push_instruction(
        &mut code,
        Instruction::Sw(Register::Fp, RegisterWithOffset::at(16, Register::Sp)),
    );
    push_instruction(
        &mut code,
        Instruction::Sw(Register::S1, RegisterWithOffset::at(24, Register::Sp)),
    );
    push_instruction(
        &mut code,
        Instruction::Addi(Register::Sp, Register::Sp, Immediate::Number(-frame)),
    );
    push_instruction(
        &mut code,
        Instruction::Addi(Register::Fp, Register::Sp, Immediate::Number(0)),
    );
    append_instructions(&mut code, spill_registers(held));
    code
}

impl FunctionDefinition {
    /// All variables of the function with their places, and the size of
    /// its frame; or `None` if the variables have no frame.
    fn lay_out(&self) -> (layout: Option<(CompilerScope, i32)>)
        requires
            self@.arguments.len() <= max_arguments(),
        ensures
            match layout {
                Some((scope, frame)) => scope@ == function_variables(self@) && frame_bytes(
                    frame_variables(self@),
                ) == Some(frame as nat) && frame_bytes(scope@) == Some(frame as nat) && 0 <= frame,
                None => frame_bytes(frame_variables(self@)) is None,
            },
    {
        let mut scope = self.lay_out_frame();
        let frame: i32 = match scope.try_variable_size() {
            Some(frame) => frame as i32,
            None => {
                return None;
            },
        };
        let ghost in_frame = scope@;
        let mut i: usize = 8;
        while i < self.arguments.len()
            invariant
                8 <= i,
                0 <= frame <= 0x3000_0000,
                self.arguments.len() <= 0x0fff_ffff,
                self.arguments.len() > 8 ==> i <= self.arguments.len(),
                self.arguments.len() <= 8 ==> i == 8,
                in_frame == frame_variables(self@),
                frame_bytes(in_frame) == Some(frame as nat),
                scope@ == leaked_layout(self@.arguments, i as int, 32 + frame, in_frame),
            decreases self.arguments.len() - i,
        {
            let argument = &self.arguments[i];
            assert(self@.arguments[i as int] == argument@);
            let variable = CompilerVariable {
                name: argument.unique_name.clone(),
                address: 32 + frame + (4 * (i - 8)) as i32,
                datatype: held_type(&argument.datatype),
                location: CompilerVariableLocation::Leaked,
            };
            let ghost before = scope@;
            scope.variables.push(variable);
            assert(scope@ =~= before.push(variable@));
            i = i + 1;
        }
        proof {
            lemma_leaked_layout(
                self@.arguments,
                self@.arguments.len() as int,
                32 + frame,
                in_frame,
            );
        }
        Some((scope, frame))
    }
}

impl Compile for FunctionDefinition {
    open spec fn compiled(&self, state: CompilerStateModel) -> Compiled {
        function_code(self@, state.labels)
    }

    fn compile(
        &self,
        state: &mut CompilerState,
    ) -> (result: Result<Vec<Instruction>, CompileError>) {
        if self.arguments.len() > 0x0fff_ffff {
            return Err(CompileError::TooManyArguments);
        }
        let held: usize = if self.arguments.len() < 8 {
            self.arguments.len()
        } else {
            8
        };
        let (scope, frame) = match self.lay_out() {
            Some(layout) => layout,
            None => {
                return Err(CompileError::InvalidFrame);
            },
        };
        state.scope = scope;
        let mut code = emit_prologue(&self.name, frame, held);
        let body = self.body.compile(state)?;
        append_instructions(&mut code, body);
        push_instruction(&mut code, Instruction::LiP(Register::A0, Immediate::Number(0)));
        append_instructions(&mut code, state.return_from_function());
        Ok(code)
    }
}

impl Compile for FunctionDeclaration {
    open spec fn compiled(&self, state: CompilerStateModel) -> Compiled {
        Ok((Seq::empty(), state))
    }

    fn compile(
        &self,
        state: &mut CompilerState,
    ) -> (result: Result<Vec<Instruction>, CompileError>) {
        Ok(nothing())
    }
}

impl Compile for ProgramStatement {
    open spec fn compiled(&self, state: CompilerStateModel) -> Compiled {
        program_statement_code(self@, state)
    }

    fn compile(
        &self,
        state: &mut CompilerState,
    ) -> (result: Result<Vec<Instruction>, CompileError>) {
        match self {
            ProgramStatement::FunctionDefinition(function) => function.compile(state),
            ProgramStatement::FunctionDeclaration(function) => function.compile(state),
        }
    }
}

/// The state in which the code of a program is generated: the labels are
/// numbered behind the unique names that the parser handed out.
pub open spec fn program_start(state: CompilerStateModel, identifiers: nat) -> CompilerStateModel {
    CompilerStateModel {
        variables: state.variables,
        labels: if state.labels < identifiers {
            identifiers
        } else {
            state.labels
        },
    }
}

impl Compile for Program {
    open spec fn compiled(&self, state: CompilerStateModel) -> Compiled {
        program_code(
            self@.functions,
            self@.functions.len() as int,
            program_start(state, self@.identifiers),
        )
    }

    fn compile(
        &self,
        state: &mut CompilerState,
    ) -> (result: Result<Vec<Instruction>, CompileError>) {
        if state.labels < self.identifiers {
            state.labels = self.identifiers;
        }
        let ghost start = state@;
        let mut code = nothing();
        let mut i: usize = 0;
        while i < self.functions.len()
            invariant
                i <= self.functions.len(),
                state.well_formed(),
                start == program_start(old(state)@, self@.identifiers),
                program_code(self@.functions, i as int, start) == Ok::<_, CompileError>(
                    (instructions_model(code@), state@),
                ),
            decreases self.functions.len() - i,
        {
            assert(self@.functions[i as int] == self.functions@[i as int]@);
            let function = match self.functions[i].compile(state) {
                Ok(function) => function,
                Err(error) => {
                    proof {
                        lemma_program_error(
                            self@.functions,
                            i as int + 1,
                            self@.functions.len() as int,
                            start,
                        );
                    }
                    return Err(error);
                },
            };
            append_instructions(&mut code, function);
            i = i + 1;
        }
        Ok(code)
    }
}

} // verus!

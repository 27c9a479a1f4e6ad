use std::sync::Arc;

use rvcc::parser::{ParserScopeState, ParserSymbol, ParserVariable};
use rvcc::riscv::compile::{
    Compile, CompileError, CompilerScope, CompilerState, CompilerVariable,
    CompilerVariableLocation,
};
use rvcc::riscv::instruction::Instruction;
use rvcc::riscv::values::{Immediate, Register, RegisterWithOffset};
use rvcc::riscv::{compile_program, optimize_program};
use rvcc::types::datatype::Datatype;
use rvcc::types::expression::{BinaryOp, Expression, UnaryOp};
use rvcc::types::function_definition::{FunctionArgument, FunctionDefinition};
use rvcc::types::program::{Program, ProgramStatement};
use rvcc::types::scope::{Label, Scope, ScopeItem};
use rvcc::types::statement::{
    Case, IfStatement, JumpStatement, Statement, SwitchStatement, WhileStatement,
};
use rvcc::utils::nearest_multiple::{checked_nearest_multiple, nearest_multiple};
use rvcc::utils::random_name::unique_identifier;
use rvcc::utils::text::decimal_string;

fn at(offset: i32, base: Register) -> RegisterWithOffset {
    RegisterWithOffset(Immediate::Number(offset), base)
}

fn label(name: &str) -> Immediate {
    Immediate::Label(name.to_string())
}

fn variable(name: &str, address: i32) -> CompilerVariable {
    CompilerVariable {
        name: name.to_string(),
        address,
        datatype: Datatype::Int,
        location: CompilerVariableLocation::Stack,
    }
}

fn state_with(variables: Vec<CompilerVariable>) -> CompilerState {
    CompilerState { scope: CompilerScope { variables }, labels: 0 }
}

fn number(value: i32) -> Arc<Expression> {
    Arc::new(Expression::Number(value))
}

fn named(name: &str) -> Arc<Expression> {
    Arc::new(Expression::Variable(name.to_string()))
}

#[test]
fn every_instruction_has_its_text() {
    let text = |instruction: Instruction| instruction.to_string();
    let five = || Immediate::Number(5);
    assert_eq!(text(Instruction::Comment("hello".to_string())), "# hello");
    assert_eq!(text(Instruction::Label("main".to_string())), "main:");
    assert_eq!(text(Instruction::Symbol("globl main".to_string())), ".globl main");
    assert_eq!(text(Instruction::Add(Register::A0, Register::A1, Register::A2)), "add a0, a1, a2");
    assert_eq!(text(Instruction::Addi(Register::Sp, Register::Sp, Immediate::Number(-32))), "addi sp, sp, -32");
    assert_eq!(text(Instruction::Sub(Register::T0, Register::T1, Register::T2)), "sub t0, t1, t2");
    assert_eq!(text(Instruction::Mul(Register::S1, Register::S2, Register::S3)), "mul s1, s2, s3");
    assert_eq!(text(Instruction::Div(Register::S4, Register::S5, Register::S6)), "div s4, s5, s6");
    assert_eq!(text(Instruction::Rem(Register::S7, Register::S8, Register::S9)), "rem s7, s8, s9");
    assert_eq!(text(Instruction::And(Register::S10, Register::S11, Register::T3)), "and s10, s11, t3");
    assert_eq!(text(Instruction::Or(Register::T4, Register::T5, Register::T6)), "or t4, t5, t6");
    assert_eq!(text(Instruction::Xor(Register::A3, Register::A4, Register::A5)), "xor a3, a4, a5");
    assert_eq!(text(Instruction::Xori(Register::A6, Register::A7, five())), "xori a6, a7, 5");
    assert_eq!(text(Instruction::Sll(Register::Gp, Register::Tp, Register::Zero)), "sll gp, tp, zero");
    assert_eq!(text(Instruction::Srl(Register::Ra, Register::Fp, Register::A0)), "srl ra, s0, a0");
    assert_eq!(text(Instruction::Neg(Register::A0, Register::A1)), "neg a0, a1");
    assert_eq!(text(Instruction::NotP(Register::A0, Register::A1)), "not a0, a1");
    assert_eq!(text(Instruction::LiP(Register::A0, Immediate::Number(-2147483648))), "li a0, -2147483648");
    assert_eq!(text(Instruction::LaP(Register::A0, label("f"))), "la a0, f");
    assert_eq!(text(Instruction::Lw(Register::A0, at(8, Register::Fp))), "lw a0, 8(s0)");
    assert_eq!(text(Instruction::Ld(Register::A0, at(-8, Register::Sp))), "ld a0, -8(sp)");
    assert_eq!(text(Instruction::Sw(Register::Ra, at(0, Register::Sp))), "sw ra, 0(sp)");
    assert_eq!(text(Instruction::Sd(Register::Ra, at(16, Register::Sp))), "sd ra, 16(sp)");
    assert_eq!(text(Instruction::JP(label("end"))), "j end");
    assert_eq!(text(Instruction::Jal(Register::Ra, label("f"))), "jal ra, f");
    assert_eq!(text(Instruction::Jalr(Register::Ra, at(0, Register::T0))), "jalr ra, 0(t0)");
    assert_eq!(text(Instruction::CallP(label("f"))), "call f");
    assert_eq!(text(Instruction::RetP), "ret");
    assert_eq!(text(Instruction::Beq(Register::S1, Register::A0, label("case"))), "beq s1, a0, case");
    assert_eq!(text(Instruction::Bne(Register::S1, Register::A0, label("case"))), "bne s1, a0, case");
    assert_eq!(text(Instruction::BeqzP(Register::A0, label("else"))), "beqz a0, else");
    assert_eq!(text(Instruction::BnezP(Register::A0, label("then"))), "bnez a0, then");
    assert_eq!(text(Instruction::Sltu(Register::A0, Register::A0, Register::A1)), "sltu a0, a0, a1");
    assert_eq!(text(Instruction::Sltiu(Register::A0, Register::A1, five())), "sltiu a0, a1, 5");
    assert_eq!(text(Instruction::SeqzP(Register::A0, Register::A1)), "seqz a0, a1");
    assert_eq!(text(Instruction::SnezP(Register::A0, Register::A1)), "snez a0, a1");
    assert_eq!(text(Instruction::SeqP(Register::A0, Register::A0, Register::A1)), "xor a0, a0, a1\nseqz a0, a0");
    assert_eq!(text(Instruction::MvP(Register::A0, Register::A1)), "mv a0, a1");
    assert_eq!(text(Instruction::PushP(Register::A0)), "addi sp, sp, -16\nsw a0, 0(sp)");
    assert_eq!(text(Instruction::PopP(Register::A1)), "lw a1, 0(sp)\naddi sp, sp, 16");
    assert_eq!(text(Instruction::Ebreak), "ebreak");
    assert_eq!(Instruction::Add(Register::A0, Register::A1, Register::A2).write_to("x: ".to_string()), "x: add a0, a1, a2");
}

#[test]
fn operands_have_their_text() {
    assert_eq!(Register::Fp.to_string(), "s0");
    assert_eq!(Register::Zero.name(), "zero");
    assert_eq!(Register::argument(0), Register::A0);
    assert_eq!(Register::argument(7), Register::A7);
    assert_eq!(Immediate::from(-5), Immediate::Number(-5));
    assert_eq!(Immediate::Number(-5).to_string(), "-5");
    assert_eq!(Immediate::Number(0).to_string(), "0");
    assert_eq!(label("x_1").to_string(), "x_1");
    assert_eq!(Immediate::label("x_1"), label("x_1"));
    assert!(Immediate::Number(0).is_zero());
    assert!(!Immediate::Number(1).is_zero());
    assert!(!label("0").is_zero());
    assert_eq!(at(-4, Register::Sp).to_string(), "-4(sp)");
    assert_eq!(RegisterWithOffset::at(12, Register::Fp), at(12, Register::Fp));
}

#[test]
fn decimal_text_of_numbers() {
    assert_eq!(decimal_string(0), "0");
    assert_eq!(decimal_string(7), "7");
    assert_eq!(decimal_string(-1), "-1");
    assert_eq!(decimal_string(1234567890), "1234567890");
    assert_eq!(decimal_string(i32::MAX), "2147483647");
    assert_eq!(decimal_string(i32::MIN), "-2147483648");
}

#[test]
fn unique_identifiers_carry_the_number_of_the_request() {
    assert_eq!(unique_identifier("x", 0), "x_0");
    assert_eq!(unique_identifier("while", 12), "while_12");
    assert_eq!(unique_identifier("a_1", 2), "a_1_2");
    assert_eq!(unique_identifier("x", u64::MAX), "x_18446744073709551615");
    assert_ne!(unique_identifier("a_1", 2), unique_identifier("a", 12));
}

#[test]
fn rounding_up_to_a_multiple() {
    assert_eq!(nearest_multiple(0, 16), 0);
    assert_eq!(nearest_multiple(1, 16), 16);
    assert_eq!(nearest_multiple(16, 16), 16);
    assert_eq!(nearest_multiple(17, 16), 32);
    assert_eq!(nearest_multiple(36, 16), 48);
    assert_eq!(nearest_multiple(7, 1), 7);
    assert_eq!(nearest_multiple(10, 3), 12);
    assert_eq!(checked_nearest_multiple(17, 16), Some(32));
    assert_eq!(checked_nearest_multiple(u32::MAX, 16), None);
    assert_eq!(checked_nearest_multiple(u32::MAX, 1), Some(u32::MAX));
    assert_eq!(checked_nearest_multiple(0, 7), Some(0));
}

#[test]
fn sizes_of_types() {
    let int = || Arc::new(Datatype::Int);
    assert_eq!(Datatype::Int.size(), 4);
    assert_eq!(Datatype::Pointer { inner: int() }.size(), 4);
    assert_eq!(Datatype::Function { return_type: int(), arguments: vec![] }.size(), 0);
    let array = |length: Expression| Datatype::Array { inner: int(), length };
    assert_eq!(array(Expression::Number(10)).size(), 40);
    assert_eq!(array(Expression::Number(0)).try_size(), Some(0));
    assert_eq!(
        Datatype::Array { inner: Arc::new(array(Expression::Number(3))), length: Expression::Number(5) }
            .try_size(),
        Some(60)
    );
    assert_eq!(array(Expression::Number(-1)).try_size(), None);
    assert_eq!(array(Expression::Variable("n_0".to_string())).try_size(), None);
    assert_eq!(array(Expression::Number(i32::MAX)).try_size(), None);
}

#[test]
fn destinations_of_instructions() {
    assert_eq!(Instruction::Add(Register::A0, Register::A1, Register::A2).get_destination_register(), Some(Register::A0));
    assert_eq!(Instruction::Lw(Register::T0, at(0, Register::Sp)).get_destination_register(), Some(Register::T0));
    assert_eq!(Instruction::PopP(Register::A1).get_destination_register(), Some(Register::A1));
    assert_eq!(Instruction::Jal(Register::Ra, label("f")).get_destination_register(), Some(Register::Ra));
    assert_eq!(Instruction::Sw(Register::A0, at(0, Register::Sp)).get_destination_register(), None);
    assert_eq!(Instruction::PushP(Register::A0).get_destination_register(), None);
    assert_eq!(Instruction::RetP.get_destination_register(), None);
    assert_eq!(Instruction::BeqzP(Register::A0, label("l")).get_destination_register(), None);
    assert_eq!(Instruction::Label("l".to_string()).get_destination_register(), None);

    let mut instruction = Instruction::Addi(Register::A0, Register::A1, Immediate::Number(3));
    instruction.set_destination_register(Register::T1);
    assert_eq!(instruction, Instruction::Addi(Register::T1, Register::A1, Immediate::Number(3)));
    let mut instruction = Instruction::SeqP(Register::A0, Register::A0, Register::A1);
    instruction.set_destination_register(Register::S1);
    assert_eq!(instruction, Instruction::SeqP(Register::S1, Register::A0, Register::A1));
    let mut instruction = Instruction::Sw(Register::A0, at(0, Register::Sp));
    instruction.set_destination_register(Register::T1);
    assert_eq!(instruction, Instruction::Sw(Register::A0, at(0, Register::Sp)));
}

#[test]
fn instructions_that_jump() {
    for jump in [
        Instruction::JP(label("l")),
        Instruction::Jal(Register::Ra, label("l")),
        Instruction::Jalr(Register::Ra, at(0, Register::T0)),
        Instruction::CallP(label("f")),
        Instruction::RetP,
        Instruction::Beq(Register::A0, Register::A1, label("l")),
        Instruction::BeqzP(Register::A0, label("l")),
        Instruction::Bne(Register::A0, Register::A1, label("l")),
        Instruction::BnezP(Register::A0, label("l")),
    ] {
        assert!(jump.does_jump(), "{jump:?}");
    }
    for other in [Instruction::Add(Register::A0, Register::A1, Register::A2), Instruction::Label("l".to_string()), Instruction::PushP(Register::A0), Instruction::LiP(Register::A0, label("l")), Instruction::Ebreak] {
        assert!(!other.does_jump(), "{other:?}");
    }
}

#[test]
fn instructions_become_simpler_ones() {
    let seven = || Immediate::Number(7);
    let zero = || Immediate::Number(0);
    assert_eq!(Instruction::Addi(Register::A0, Register::Zero, seven()).convert_to_equivalent(), vec![Instruction::LiP(Register::A0, seven())]);
    assert_eq!(Instruction::Addi(Register::A0, Register::Zero, zero()).convert_to_equivalent(), vec![Instruction::LiP(Register::A0, zero())]);
    assert_eq!(Instruction::Addi(Register::A0, Register::Zero, label("f")).convert_to_equivalent(), vec![Instruction::LiP(Register::A0, label("f"))]);
    assert_eq!(Instruction::Addi(Register::A0, Register::A1, zero()).convert_to_equivalent(), vec![Instruction::MvP(Register::A0, Register::A1)]);
    assert_eq!(Instruction::Addi(Register::Sp, Register::Sp, zero()).convert_to_equivalent(), vec![]);
    assert_eq!(Instruction::Addi(Register::A0, Register::A1, seven()).convert_to_equivalent(), vec![Instruction::Addi(Register::A0, Register::A1, seven())]);
    assert_eq!(Instruction::Add(Register::A0, Register::Zero, Register::A1).convert_to_equivalent(), vec![Instruction::MvP(Register::A0, Register::A1)]);
    assert_eq!(Instruction::Add(Register::A0, Register::A1, Register::Zero).convert_to_equivalent(), vec![Instruction::MvP(Register::A0, Register::A1)]);
    assert_eq!(Instruction::Add(Register::A0, Register::Zero, Register::A0).convert_to_equivalent(), vec![]);
    assert_eq!(Instruction::Add(Register::A0, Register::A1, Register::A2).convert_to_equivalent(), vec![Instruction::Add(Register::A0, Register::A1, Register::A2)]);
    assert_eq!(Instruction::MvP(Register::A0, Register::A0).convert_to_equivalent(), vec![]);
    assert_eq!(Instruction::MvP(Register::A0, Register::A1).convert_to_equivalent(), vec![Instruction::MvP(Register::A0, Register::A1)]);
    assert_eq!(Instruction::PushP(Register::A0).convert_to_equivalent(), vec![Instruction::PushP(Register::A0)]);
    assert_eq!(Instruction::Sub(Register::A0, Register::A0, Register::Zero).convert_to_equivalent(), vec![Instruction::Sub(Register::A0, Register::A0, Register::Zero)]);
}

#[test]
fn the_peephole_pass_changes_nothing_the_second_time() {
    let program = || {
        vec![
            Instruction::Label("main".to_string()),
            Instruction::Addi(Register::Sp, Register::Sp, Immediate::Number(0)),
            Instruction::Addi(Register::A0, Register::Zero, Immediate::Number(4)),
            Instruction::Add(Register::S1, Register::Sp, Register::Zero),
            Instruction::Add(Register::T0, Register::Zero, Register::T0),
            Instruction::MvP(Register::A1, Register::A1),
            Instruction::Addi(Register::Fp, Register::Sp, Immediate::Number(0)),
            Instruction::Add(Register::A0, Register::A1, Register::A0),
            Instruction::RetP,
        ]
    };
    let once = optimize_program(program());
    assert_eq!(
        once,
        vec![
            Instruction::Label("main".to_string()),
            Instruction::LiP(Register::A0, Immediate::Number(4)),
            Instruction::MvP(Register::S1, Register::Sp),
            Instruction::MvP(Register::Fp, Register::Sp),
            Instruction::Add(Register::A0, Register::A1, Register::A0),
            Instruction::RetP,
        ]
    );
    assert_eq!(optimize_program(once.clone()), once);
    assert_eq!(optimize_program(vec![]), vec![]);
}

#[test]
fn expressions_leave_their_value_in_a0() {
    let mut state = state_with(vec![variable("x_0", 8)]);
    assert_eq!(
        Expression::Number(5).compile(&mut state),
        Ok(vec![Instruction::LiP(Register::A0, Immediate::Number(5))])
    );
    assert_eq!(named("x_0").compile(&mut state), Ok(vec![Instruction::Lw(Register::A0, at(8, Register::Fp))]));
    assert_eq!(
        Expression::FunctionSymbol("f".to_string()).compile(&mut state),
        Ok(vec![Instruction::LaP(Register::A0, label("f"))])
    );
    assert_eq!(
        BinaryOp::Subtraction(named("x_0"), number(1)).compile(&mut state),
        Ok(vec![
            Instruction::Lw(Register::A0, at(8, Register::Fp)),
            Instruction::PushP(Register::A0),
            Instruction::LiP(Register::A0, Immediate::Number(1)),
            Instruction::PopP(Register::A1),
            Instruction::Sub(Register::A0, Register::A1, Register::A0),
        ])
    );
    assert_eq!(
        BinaryOp::Assignment(named("x_0"), number(3)).compile(&mut state),
        Ok(vec![
            Instruction::LiP(Register::A0, Immediate::Number(3)),
            Instruction::PushP(Register::A0),
            Instruction::Addi(Register::A0, Register::Fp, Immediate::Number(8)),
            Instruction::PopP(Register::A1),
            Instruction::Sw(Register::A1, at(0, Register::A0)),
            Instruction::MvP(Register::A0, Register::A1),
        ])
    );
    assert_eq!(
        UnaryOp::Deref(named("x_0")).compile(&mut state),
        Ok(vec![Instruction::Lw(Register::A0, at(8, Register::Fp)), Instruction::Lw(Register::A0, at(0, Register::A0))])
    );
    assert_eq!(
        UnaryOp::Ref(named("x_0")).compile(&mut state),
        Ok(vec![Instruction::Addi(Register::A0, Register::Fp, Immediate::Number(8))])
    );
    assert_eq!(state.labels, 0);
}

#[test]
fn fresh_labels_are_numbered_in_order() {
    let mut state = state_with(vec![]);
    state.labels = 7;
    assert_eq!(
        BinaryOp::LogicalAnd(number(1), number(2)).compile(&mut state),
        Ok(vec![
            Instruction::LiP(Register::A0, Immediate::Number(1)),
            Instruction::BeqzP(Register::A0, label("short_circuit_and_7")),
            Instruction::LiP(Register::A0, Immediate::Number(2)),
            Instruction::BeqzP(Register::A0, label("short_circuit_and_7")),
            Instruction::LiP(Register::A0, Immediate::Number(1)),
            Instruction::Label("short_circuit_and_7".to_string()),
        ])
    );
    assert_eq!(state.labels, 8);
    assert_eq!(
        BinaryOp::LogicalOr(number(0), number(2)).compile(&mut state),
        Ok(vec![
            Instruction::LiP(Register::A0, Immediate::Number(0)),
            Instruction::BnezP(Register::A0, label("short_circuit_or_1_8")),
            Instruction::LiP(Register::A0, Immediate::Number(2)),
            Instruction::BnezP(Register::A0, label("short_circuit_or_1_8")),
            Instruction::LiP(Register::A0, Immediate::Number(0)),
            Instruction::JP(label("short_circuit_or_2_9")),
            Instruction::Label("short_circuit_or_1_8".to_string()),
            Instruction::LiP(Register::A0, Immediate::Number(1)),
            Instruction::Label("short_circuit_or_2_9".to_string()),
        ])
    );
    assert_eq!(state.labels, 10);
    assert_eq!(state.fresh_label("if_end"), Ok("if_end_10".to_string()));
    assert_eq!(state.labels, 11);
}

#[test]
fn statements_of_control() {
    let mut state = state_with(vec![]);
    let null = || Arc::new(Statement::Null);
    assert_eq!(
        WhileStatement { condition: Expression::Number(1), block: null(), id: "while_3".to_string() }
            .compile(&mut state),
        Ok(vec![
            Instruction::Label("while_3_start".to_string()),
            Instruction::LiP(Register::A0, Immediate::Number(1)),
            Instruction::BeqzP(Register::A0, label("while_3_end")),
            Instruction::JP(label("while_3_start")),
            Instruction::Label("while_3_end".to_string()),
        ])
    );
    assert_eq!(
        IfStatement { condition: Expression::Number(1), then_block: null(), else_block: None }
            .compile(&mut state),
        Ok(vec![
            Instruction::LiP(Register::A0, Immediate::Number(1)),
            Instruction::BeqzP(Register::A0, label("else_start_1")),
            Instruction::JP(label("if_end_0")),
            Instruction::Label("else_start_1".to_string()),
            Instruction::Label("if_end_0".to_string()),
        ])
    );
    assert_eq!(
        JumpStatement::Break { id: "switch_4".to_string() }.compile(&mut state),
        Ok(vec![Instruction::JP(label("switch_4_end"))])
    );
    assert_eq!(
        JumpStatement::Continue { id: "for_5".to_string() }.compile(&mut state),
        Ok(vec![Instruction::JP(label("for_5_start"))])
    );
    assert_eq!(JumpStatement::Ebreak.compile(&mut state), Ok(vec![Instruction::Ebreak]));
    assert_eq!(
        Label::Case { id: "switch_4".to_string(), value: -2 }.compile(&mut state),
        Ok(vec![Instruction::Label("switch_4____case_-2".to_string())])
    );
    assert_eq!(
        Label::Default { id: "switch_4".to_string() }.compile(&mut state),
        Ok(vec![Instruction::Label("switch_4____default".to_string())])
    );
    let switch = |cases: Vec<Case>| SwitchStatement {
        expression: Expression::Number(2),
        body: null(),
        id: "switch_4".to_string(),
        cases,
    };
    assert_eq!(
        switch(vec![Case::Case(1), Case::Default, Case::Case(2)]).compile(&mut state),
        Ok(vec![
            Instruction::LiP(Register::A0, Immediate::Number(2)),
            Instruction::Add(Register::S1, Register::A0, Register::Zero),
            Instruction::LiP(Register::A0, Immediate::Number(1)),
            Instruction::Beq(Register::S1, Register::A0, label("switch_4____case_1")),
            Instruction::LiP(Register::A0, Immediate::Number(2)),
            Instruction::Beq(Register::S1, Register::A0, label("switch_4____case_2")),
            Instruction::JP(label("switch_4____default")),
            Instruction::Label("switch_4_end".to_string()),
        ])
    );
    assert_eq!(
        switch(vec![Case::Case(1)]).compile(&mut state),
        Ok(vec![
            Instruction::LiP(Register::A0, Immediate::Number(2)),
            Instruction::Add(Register::S1, Register::A0, Register::Zero),
            Instruction::LiP(Register::A0, Immediate::Number(1)),
            Instruction::Beq(Register::S1, Register::A0, label("switch_4____case_1")),
            Instruction::JP(label("switch_4_end")),
            Instruction::Label("switch_4_end".to_string()),
        ])
    );
}

#[test]
fn a_return_gives_the_frame_back() {
    let mut state = state_with(vec![variable("a_0", 0), variable("b_1", 4), variable("c_2", 8)]);
    assert_eq!(state.scope.variable_size(), 16);
    assert_eq!(state.get_variable("b_1").unwrap().address, 4);
    assert!(state.get_variable("b").is_none());
    assert_eq!(
        state.return_from_function(),
        vec![
            Instruction::Addi(Register::Sp, Register::Sp, Immediate::Number(16)),
            Instruction::Lw(Register::S1, at(24, Register::Sp)),
            Instruction::Lw(Register::Fp, at(16, Register::Sp)),
            Instruction::Lw(Register::Ra, at(0, Register::Sp)),
            Instruction::Addi(Register::Sp, Register::Sp, Immediate::Number(32)),
            Instruction::RetP,
        ]
    );
    let mut five = state_with(vec![
        variable("a", 0),
        variable("b", 4),
        variable("c", 8),
        variable("d", 12),
        variable("e", 16),
        CompilerVariable {
            name: "f".to_string(),
            address: 64,
            datatype: Datatype::Int,
            location: CompilerVariableLocation::Leaked,
        },
    ]);
    // Five variables of four bytes take thirty-two bytes; the one that the
    // caller left above the frame takes none.
    assert_eq!(five.scope.try_variable_size(), Some(32));
    assert_eq!(five.return_from_function()[0], Instruction::Addi(Register::Sp, Register::Sp, Immediate::Number(32)));
    assert_eq!(CompilerState::new().scope.variable_size(), 0);
}

fn function(arguments: Vec<&str>, locals: Vec<(&str, Datatype)>, body: Vec<ScopeItem>) -> FunctionDefinition {
    let mut scope_state = ParserScopeState::new();
    for (name, datatype) in locals {
        scope_state.insert_variable(ParserSymbol::Variable(ParserVariable {
            name: name.to_string(),
            unique_name: name.to_string(),
            datatype,
        }));
    }
    FunctionDefinition {
        name: "f".to_string(),
        arguments: arguments
            .into_iter()
            .map(|name| FunctionArgument {
                name: name.to_string(),
                unique_name: name.to_string(),
                datatype: Datatype::Int,
            })
            .collect(),
        return_type: Datatype::Int,
        body: Scope { items: body },
        scope_state,
    }
}

#[test]
fn a_function_lays_out_its_frame() {
    let names = vec!["a", "b", "c", "d", "e", "f", "g", "h", "i", "j"];
    let definition = function(
        names,
        vec![("x", Datatype::Int), ("y", Datatype::Pointer { inner: Arc::new(Datatype::Int) })],
        vec![],
    );
    let mut state = CompilerState::new();
    let code = definition.compile(&mut state).unwrap();
    // Eight parameters and two locals take forty bytes, rounded up to
    // forty-eight.
    let mut expected = vec![
        Instruction::Symbol("globl f".to_string()),
        Instruction::Label("f".to_string()),
        Instruction::Addi(Register::Sp, Register::Sp, Immediate::Number(-32)),
        Instruction::Sw(Register::Ra, at(0, Register::Sp)),
        Instruction::Sw(Register::Fp, at(16, Register::Sp)),
        Instruction::Sw(Register::S1, at(24, Register::Sp)),
        Instruction::Addi(Register::Sp, Register::Sp, Immediate::Number(-48)),
        Instruction::Addi(Register::Fp, Register::Sp, Immediate::Number(0)),
    ];
    for (index, register) in [Register::A0, Register::A1, Register::A2, Register::A3, Register::A4, Register::A5, Register::A6, Register::A7].into_iter().enumerate() {
        expected.push(Instruction::Sw(register, at(4 * index as i32, Register::Fp)));
    }
    expected.extend(vec![
        Instruction::LiP(Register::A0, Immediate::Number(0)),
        Instruction::Addi(Register::Sp, Register::Sp, Immediate::Number(48)),
        Instruction::Lw(Register::S1, at(24, Register::Sp)),
        Instruction::Lw(Register::Fp, at(16, Register::Sp)),
        Instruction::Lw(Register::Ra, at(0, Register::Sp)),
        Instruction::Addi(Register::Sp, Register::Sp, Immediate::Number(32)),
        Instruction::RetP,
    ]);
    assert_eq!(code, expected);
    let places: Vec<(String, i32, CompilerVariableLocation)> = state
        .scope
        .variables
        .iter()
        .map(|v| (v.name.clone(), v.address, v.location))
        .collect();
    let stack = CompilerVariableLocation::Stack;
    let leaked = CompilerVariableLocation::Leaked;
    assert_eq!(
        places,
        vec![
            ("a".to_string(), 0, stack),
            ("b".to_string(), 4, stack),
            ("c".to_string(), 8, stack),
            ("d".to_string(), 12, stack),
            ("e".to_string(), 16, stack),
            ("f".to_string(), 20, stack),
            ("g".to_string(), 24, stack),
            ("h".to_string(), 28, stack),
            ("x".to_string(), 32, stack),
            ("y".to_string(), 36, stack),
            ("i".to_string(), 80, leaked),
            ("j".to_string(), 84, leaked),
        ]
    );
}

#[test]
fn errors_of_code_generation() {
    let mut state = state_with(vec![variable("x_0", 0)]);
    assert_eq!(named("y_1").compile(&mut state), Err(CompileError::UnknownVariable));
    assert_eq!(
        BinaryOp::Assignment(named("y_1"), number(1)).compile(&mut state),
        Err(CompileError::UnknownVariable)
    );
    assert_eq!(
        BinaryOp::Assignment(number(1), number(2)).compile(&mut state),
        Err(CompileError::NotAnLvalue)
    );
    assert_eq!(UnaryOp::Ref(number(1)).compile(&mut state), Err(CompileError::NotAnLvalue));
    assert_eq!(
        UnaryOp::PostfixIncrement(number(1)).compile(&mut state),
        Err(CompileError::NotAnLvalue)
    );
    assert_eq!(number(1).as_lvalue(&mut state), Err(CompileError::NotAnLvalue));
    state.labels = u64::MAX;
    assert_eq!(
        BinaryOp::LogicalAnd(number(1), number(2)).compile(&mut state),
        Err(CompileError::TooManyLabels)
    );
    assert_eq!(state.fresh_label("x"), Err(CompileError::TooManyLabels));
    let unsized_local = function(
        vec![],
        vec![(
            "x",
            Datatype::Array {
                inner: Arc::new(Datatype::Int),
                length: Expression::Variable("n".to_string()),
            },
        )],
        vec![],
    );
    assert_eq!(
        unsized_local.compile(&mut CompilerState::new()),
        Err(CompileError::InvalidFrame)
    );
    let too_large = function(
        vec![],
        vec![(
            "x",
            Datatype::Array { inner: Arc::new(Datatype::Int), length: Expression::Number(300_000_000) },
        )],
        vec![],
    );
    assert_eq!(too_large.compile(&mut CompilerState::new()), Err(CompileError::InvalidFrame));
}

#[test]
fn labels_of_a_program_are_numbered_behind_its_unique_names() {
    let program = Program {
        functions: vec![ProgramStatement::FunctionDefinition(function(
            vec![],
            vec![],
            vec![ScopeItem::Statement(Statement::If {
                statement: IfStatement {
                    condition: Expression::Number(1),
                    then_block: Arc::new(Statement::Null),
                    else_block: None,
                },
            })],
        ))],
        identifiers: 5,
    };
    let code = compile_program(program).unwrap();
    assert!(code.contains(&Instruction::Label("if_end_5".to_string())));
    assert!(code.contains(&Instruction::Label("else_start_6".to_string())));
}

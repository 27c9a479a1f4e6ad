use std::sync::Arc;

use rvcc::parser::binary_operation::level_14::level_14_operation_creator;
use rvcc::parser::binary_operation::level_3::level_3_operation_creator;
use rvcc::parser::binary_operation::level_6::{
    level_6_operation_creator, parse_level_6_binary_operator,
};
use rvcc::parser::declaration::{parse_declaration, parse_declarator};
use rvcc::parser::expression::datatypes::GetType;
use rvcc::parser::expression::fold::Fold;
use rvcc::parser::expression::parse_expression;
use rvcc::parser::function_definition::duplicate_checker;
use rvcc::parser::statement::parse_statement;
use rvcc::parser::{parse_program, ParseError, ParserState, ParserSymbol};
use rvcc::types::datatype::{Argument, Datatype};
use rvcc::types::expression::{BinaryOp, Call, Expression, TernaryOp, UnaryOp};
use rvcc::types::program::ProgramStatement;
use rvcc::types::scope::{Label, ScopeItem};
use rvcc::types::statement::{Case, JumpStatement, Statement};

fn number(value: i32) -> Arc<Expression> {
    Arc::new(Expression::Number(value))
}

fn pointer_to(inner: Datatype) -> Datatype {
    Datatype::Pointer { inner: Arc::new(inner) }
}

fn function(result: Datatype, arguments: Vec<(&str, Datatype)>) -> Datatype {
    Datatype::Function {
        return_type: Arc::new(result),
        arguments: arguments
            .into_iter()
            .map(|(name, datatype)| Argument {
                name: name.to_string(),
                datatype: Arc::new(datatype),
            })
            .collect(),
    }
}

fn expression(source: &str) -> Expression {
    let state = ParserState::new();
    let (found, end) = parse_expression(source, 0, &state).expect("the expression parses");
    assert_eq!(end, source.len());
    found
}

#[test]
fn operators_of_higher_levels_bind_tighter() {
    assert_eq!(
        expression("1 + 2 * 3"),
        Expression::BinaryOp(BinaryOp::Addition(
            number(1),
            Arc::new(Expression::BinaryOp(BinaryOp::Multiplication(number(2), number(3)))),
        ))
    );
    assert_eq!(
        expression("1 | 2 ^ 3 & 4 == 5 < 6 << 7 + 8 * 9"),
        Expression::BinaryOp(BinaryOp::BitwiseOr(
            number(1),
            Arc::new(Expression::BinaryOp(BinaryOp::BitwiseXor(
                number(2),
                Arc::new(Expression::BinaryOp(BinaryOp::BitwiseAnd(
                    number(3),
                    Arc::new(Expression::BinaryOp(BinaryOp::Equals(
                        number(4),
                        Arc::new(Expression::BinaryOp(BinaryOp::LessThan(
                            number(5),
                            Arc::new(Expression::BinaryOp(BinaryOp::LeftShift(
                                number(6),
                                Arc::new(Expression::BinaryOp(BinaryOp::Addition(
                                    number(7),
                                    Arc::new(Expression::BinaryOp(BinaryOp::Multiplication(
                                        number(8),
                                        number(9),
                                    ))),
                                ))),
                            ))),
                        ))),
                    ))),
                ))),
            ))),
        ))
    );
    assert_eq!(
        expression("1 || 2 && 3"),
        Expression::BinaryOp(BinaryOp::LogicalOr(
            number(1),
            Arc::new(Expression::BinaryOp(BinaryOp::LogicalAnd(number(2), number(3)))),
        ))
    );
}

#[test]
fn operators_of_one_level_group_to_the_left() {
    assert_eq!(
        expression("8 - 4 - 2"),
        Expression::BinaryOp(BinaryOp::Subtraction(
            Arc::new(Expression::BinaryOp(BinaryOp::Subtraction(number(8), number(4)))),
            number(2),
        ))
    );
    assert_eq!(
        expression("8 / 4 % 3 * 2"),
        Expression::BinaryOp(BinaryOp::Multiplication(
            Arc::new(Expression::BinaryOp(BinaryOp::Modulus(
                Arc::new(Expression::BinaryOp(BinaryOp::Division(number(8), number(4)))),
                number(3),
            ))),
            number(2),
        ))
    );
}

#[test]
fn assignments_group_to_the_right() {
    let mut state = ParserState::new();
    state.add_variable("a".to_string(), Datatype::Int);
    state.add_variable("b".to_string(), Datatype::Int);
    let (found, _) = parse_expression("a = b += 3", 0, &state).unwrap();
    assert_eq!(
        found,
        Expression::BinaryOp(BinaryOp::Assignment(
            Arc::new(Expression::Variable("a_0".to_string())),
            Arc::new(Expression::BinaryOp(BinaryOp::AssignmentAddition(
                Arc::new(Expression::Variable("b_1".to_string())),
                number(3),
            ))),
        ))
    );
}

#[test]
fn the_conditional_and_the_comma() {
    assert_eq!(
        expression("1 ? 2 : 3"),
        Expression::TernaryOp(TernaryOp {
            condition: number(1),
            then_expr: number(2),
            else_expr: number(3),
        })
    );
    assert_eq!(expression("1, 2"), Expression::BinaryOp(BinaryOp::Comma(number(1), number(2))));
}

#[test]
fn unary_and_postfix_operators() {
    let mut state = ParserState::new();
    state.add_variable("x".to_string(), Datatype::Int);
    let x = || Arc::new(Expression::Variable("x_0".to_string()));
    let parse = |source: &str| parse_expression(source, 0, &state).unwrap().0;
    assert_eq!(parse("-x"), Expression::UnaryOp(UnaryOp::Negation(x())));
    assert_eq!(parse("+x"), Expression::UnaryOp(UnaryOp::Plus(x())));
    assert_eq!(parse("~x"), Expression::UnaryOp(UnaryOp::BitwiseNot(x())));
    assert_eq!(parse("!x"), Expression::UnaryOp(UnaryOp::LogicalNot(x())));
    assert_eq!(parse("++x"), Expression::UnaryOp(UnaryOp::PrefixIncrement(x())));
    assert_eq!(parse("--x"), Expression::UnaryOp(UnaryOp::PrefixDecrement(x())));
    assert_eq!(parse("x++"), Expression::UnaryOp(UnaryOp::PostfixIncrement(x())));
    assert_eq!(parse("x--"), Expression::UnaryOp(UnaryOp::PostfixDecrement(x())));
    assert_eq!(parse("&x"), Expression::UnaryOp(UnaryOp::Ref(x())));
    assert_eq!(
        parse("*&x"),
        Expression::UnaryOp(UnaryOp::Deref(Arc::new(Expression::UnaryOp(UnaryOp::Ref(x())))))
    );
}

#[test]
fn reference_and_dereference_of_a_function_leave_it_as_it_is() {
    let program = parse_program(
        "int f(int a) { return a; } int main(void) { int (*p)(int) = &f; return (*p)(1) + (*f)(2); }",
    )
    .unwrap();
    let main = match &program.functions[1] {
        ProgramStatement::FunctionDefinition(main) => main,
        other => panic!("not a definition: {other:?}"),
    };
    match &main.body.items[0] {
        ScopeItem::Declaration(declaration) => {
            assert_eq!(
                declaration.value,
                Some(Expression::UnaryOp(UnaryOp::Nothing(Arc::new(Expression::FunctionSymbol(
                    "f".to_string()
                )))))
            );
            assert_eq!(
                declaration.datatype,
                pointer_to(function(Datatype::Int, vec![("", Datatype::Int)]))
            );
        }
        other => panic!("not a declaration: {other:?}"),
    }
}

#[test]
fn names_are_looked_up_from_the_innermost_scope() {
    let mut state = ParserState::new();
    state.add_variable("x".to_string(), Datatype::Int);
    state.push_scope();
    state.add_variable("x".to_string(), pointer_to(Datatype::Int));
    match state.get_symbol("x") {
        Some(ParserSymbol::Variable(variable)) => {
            assert_eq!(variable.unique_name, "x_1");
            assert_eq!(variable.datatype, pointer_to(Datatype::Int));
        }
        other => panic!("not a variable: {other:?}"),
    }
    state.pop_scope();
    match state.get_symbol("x") {
        Some(ParserSymbol::Variable(variable)) => assert_eq!(variable.unique_name, "x_0"),
        other => panic!("not a variable: {other:?}"),
    }
    match state.get_by_unique_name("x_0") {
        Some(ParserSymbol::Variable(variable)) => assert_eq!(variable.datatype, Datatype::Int),
        other => panic!("not a variable: {other:?}"),
    }
    assert!(state.get_by_unique_name("x_1").is_none());
    assert!(state.get_symbol("y").is_none());
    // The function keeps every variable that it declared.
    assert_eq!(state.function_scope.get_only_variables().len(), 2);
}

#[test]
fn loops_and_switches_are_entered_and_left() {
    let mut state = ParserState::new();
    assert!(state.get_loop().is_none());
    assert!(state.get_loop_or_switch().is_none());
    assert_eq!(state.push_loop("while".to_string(), true), "while_0");
    assert_eq!(state.push_loop("switch".to_string(), false), "switch_1");
    assert_eq!(state.get_loop().unwrap().id, "while_0");
    assert_eq!(state.get_switch().unwrap().id, "switch_1");
    assert_eq!(state.get_loop_or_switch().unwrap().id, "switch_1");
    state.push_case_to_switch(Case::Case(3));
    state.push_case_to_switch(Case::Default);
    let left = state.pop_loop();
    assert_eq!(left.cases, vec![Case::Case(3), Case::Default]);
    assert!(state.get_switch().is_none());
    assert_eq!(state.pop_loop().id, "while_0");
}

#[test]
fn declarators_apply_from_the_name_outwards() {
    let declared = |source: &str| {
        let (found, end) = parse_declarator(source, 0, Datatype::Int).unwrap();
        assert_eq!(end, source.len());
        (found.name, found.datatype)
    };
    assert_eq!(declared("x"), ("x".to_string(), Datatype::Int));
    assert_eq!(declared("*x"), ("x".to_string(), pointer_to(Datatype::Int)));
    assert_eq!(declared("**x"), ("x".to_string(), pointer_to(pointer_to(Datatype::Int))));
    assert_eq!(declared("(x)"), ("x".to_string(), Datatype::Int));
    assert_eq!(declared("f(void)"), ("f".to_string(), function(Datatype::Int, vec![])));
    assert_eq!(declared("f()"), ("f".to_string(), function(Datatype::Int, vec![])));
    assert_eq!(
        declared("f(int a, int *b)"),
        (
            "f".to_string(),
            function(Datatype::Int, vec![("a", Datatype::Int), ("b", pointer_to(Datatype::Int))])
        )
    );
    // A function that returns a pointer, and a pointer to a function.
    assert_eq!(
        declared("*f(int)"),
        ("f".to_string(), function(pointer_to(Datatype::Int), vec![("", Datatype::Int)]))
    );
    assert_eq!(
        declared("(*f)(int)"),
        ("f".to_string(), pointer_to(function(Datatype::Int, vec![("", Datatype::Int)])))
    );
    // A parameter that is a pointer to a function, and parameters without a
    // name.
    assert_eq!(
        declared("g(int (*h)(int *), int *, int (*))"),
        (
            "g".to_string(),
            function(
                Datatype::Int,
                vec![
                    ("h", pointer_to(function(Datatype::Int, vec![("", pointer_to(Datatype::Int))]))),
                    ("", pointer_to(Datatype::Int)),
                    ("", pointer_to(Datatype::Int)),
                ]
            )
        )
    );
    // A declarator without a name has no list of parameters: what follows
    // the name is left unread.
    let (found, end) = parse_declarator("g(int (*)(int))", 0, Datatype::Int).unwrap();
    assert_eq!((found.name.as_str(), found.datatype, end), ("g", Datatype::Int, 1));
    assert_eq!(parse_declarator("", 0, Datatype::Int).err(), Some(ParseError::Backtrack));
    assert_eq!(parse_declarator("*", 0, Datatype::Int).err(), Some(ParseError::Backtrack));
    assert_eq!(parse_declarator("(x", 0, Datatype::Int).err(), Some(ParseError::Backtrack));
}

#[test]
fn a_declaration_gives_its_variable_a_unique_name() {
    let mut state = ParserState::new();
    let (first, end) = parse_declaration("int x = 3", 0, &mut state).unwrap();
    assert_eq!(end, 9);
    assert_eq!(first.name, "x_0");
    assert_eq!(first.value, Some(Expression::Number(3)));
    let (second, _) = parse_declaration("int x", 0, &mut state).unwrap();
    assert_eq!(second.name, "x_1");
    assert_eq!(second.value, None);
    assert_eq!(state.identifiers, 2);
}

#[test]
fn an_alternative_that_fails_declares_nothing() {
    let mut state = ParserState::new();
    // The declaration lacks its semicolon: no alternative matches, and the
    // variable is forgotten.
    let result = rvcc::parser::scope::parse_scope_item("int x = 3 }", 0, &mut state);
    assert_eq!(result.err(), Some(ParseError::Backtrack));
    assert_eq!(state.identifiers, 0);
    assert!(state.get_symbol("x").is_none());
    assert_eq!(state.function_scope.symbols.len(), 0);
    // A scope that does not close is forgotten with all that it declared.
    let result = parse_statement("{ int y; int z; ", 0, &mut state);
    assert_eq!(result.err(), Some(ParseError::Backtrack));
    assert_eq!(state.identifiers, 0);
    assert_eq!(state.scope.len(), 1);
    assert_eq!(state.function_scope.symbols.len(), 0);
}

#[test]
fn statements_know_their_loop() {
    let mut state = ParserState::new();
    let (found, _) = parse_statement("while (1) { break; continue; }", 0, &mut state).unwrap();
    match found {
        Statement::While { statement } => {
            assert_eq!(statement.id, "while_0");
            match &*statement.block {
                Statement::Scope { scope } => {
                    assert_eq!(
                        scope.items[0],
                        ScopeItem::Statement(Statement::Jump {
                            statement: JumpStatement::Break { id: "while_0".to_string() }
                        })
                    );
                    assert_eq!(
                        scope.items[1],
                        ScopeItem::Statement(Statement::Jump {
                            statement: JumpStatement::Continue { id: "while_0".to_string() }
                        })
                    );
                }
                other => panic!("not a scope: {other:?}"),
            }
        }
        other => panic!("not a loop: {other:?}"),
    }
    assert!(state.loop_state.is_empty());
}

#[test]
fn a_switch_keeps_its_labels() {
    let mut state = ParserState::new();
    let source = "switch (1) { case 1: ; case 0x10: ; default: ; }";
    let (found, _) = parse_statement(source, 0, &mut state).unwrap();
    match found {
        Statement::Switch { statement } => {
            assert_eq!(statement.id, "switch_0");
            assert_eq!(statement.cases, vec![Case::Case(1), Case::Case(16), Case::Default]);
            match &*statement.body {
                Statement::Scope { scope } => {
                    assert_eq!(
                        scope.items[0],
                        ScopeItem::Label(Label::Case { id: "switch_0".to_string(), value: 1 })
                    );
                    assert_eq!(
                        scope.items[4],
                        ScopeItem::Label(Label::Default { id: "switch_0".to_string() })
                    );
                }
                other => panic!("not a scope: {other:?}"),
            }
        }
        other => panic!("not a switch: {other:?}"),
    }
}

#[test]
fn a_program_keeps_its_functions_and_the_names_handed_out() {
    let program = parse_program(
        " int f(int a, int b);\n int f(int x, int y) { int z = x; while (z) { z = z - 1; } return y; } ",
    )
    .unwrap();
    assert_eq!(program.functions.len(), 2);
    match &program.functions[0] {
        ProgramStatement::FunctionDeclaration(declaration) => {
            assert_eq!(declaration.name, "f");
            assert_eq!(declaration.arguments.len(), 2);
            assert_eq!(declaration.arguments[0].name, Some("a".to_string()));
        }
        other => panic!("not a declaration: {other:?}"),
    }
    match &program.functions[1] {
        ProgramStatement::FunctionDefinition(definition) => {
            assert_eq!(definition.name, "f");
            assert_eq!(definition.arguments[0].unique_name, "x_0");
            assert_eq!(definition.arguments[1].unique_name, "y_1");
            let locals = definition.scope_state.get_only_variables();
            assert_eq!(locals.len(), 1);
            assert_eq!(locals[0].unique_name, "z_2");
        }
        other => panic!("not a definition: {other:?}"),
    }
    // Two parameters, one variable, one loop.
    assert_eq!(program.identifiers, 4);
}

#[test]
fn parameters_of_one_function_are_unknown_in_the_next() {
    assert_eq!(
        parse_program("int f(int a) { return a; } int g(void) { return a; }").err(),
        Some(ParseError::UndeclaredIdentifier)
    );
}

#[test]
fn text_that_is_no_program_does_not_parse() {
    assert_eq!(parse_program("int main(void) { return 42 }").err(), Some(ParseError::Backtrack));
    assert_eq!(parse_program("int main(void) { return 42; ").err(), Some(ParseError::Backtrack));
    assert_eq!(parse_program("int main(void) { if }").err(), Some(ParseError::Backtrack));
    assert_eq!(parse_program("int x;").err(), Some(ParseError::Backtrack));
    assert_eq!(parse_program("int main(void) { } }").err(), Some(ParseError::Backtrack));
    assert_eq!(parse_program("int main(void) { return \u{e9}; }").err(), Some(ParseError::Backtrack));
    assert_eq!(parse_program("int f(int) { return 0; }").err(), Some(ParseError::Backtrack));
    assert!(parse_program("").unwrap().functions.is_empty());
    assert!(parse_program(" \n\t ").unwrap().functions.is_empty());
}

#[test]
fn errors_that_end_the_parse() {
    let error = |source: &str| parse_program(source).err();
    assert_eq!(
        error("int f(int a, int a) { return 0; }"),
        Some(ParseError::DuplicateParameterNames)
    );
    assert_eq!(error("int f(int a, int a);"), Some(ParseError::DuplicateParameterNames));
    assert!(error("int f(int, int);").is_none());
    assert_eq!(
        error("int f(int a); int f(int a, int b) { return 0; }"),
        Some(ParseError::SignatureMismatch)
    );
    assert_eq!(
        error("int f(int a); int f(int *a) { return 0; }"),
        Some(ParseError::SignatureMismatch)
    );
    assert_eq!(error("int f(int a); int *f(int a);"), Some(ParseError::SignatureMismatch));
    assert!(error("int f(int a); int f(int b) { return b; }").is_none());
    assert_eq!(
        error("int main(void) { int x = 0; int *p = &x; return 1 ? x : p; }"),
        Some(ParseError::TernaryTypeMismatch)
    );
    assert_eq!(
        error("int f(int a) { return a; } int main(void) { return f(1, 2); }"),
        Some(ParseError::ArgumentCountMismatch)
    );
    assert_eq!(
        error("int f(int *a) { return 0; } int main(void) { return f(1); }"),
        Some(ParseError::ArgumentTypeMismatch)
    );
    assert_eq!(error("int main(void) { int x = 0; return x(1); }"), Some(ParseError::NotCallable));
    assert_eq!(
        error("int main(void) { int x = 0; return *x; }"),
        Some(ParseError::DereferenceOfNonPointer)
    );
    assert_eq!(error("int main(void) { break; }"), Some(ParseError::BreakOutsideLoop));
    assert_eq!(error("int main(void) { continue; }"), Some(ParseError::ContinueOutsideLoop));
    assert_eq!(
        error("int main(void) { switch (1) { default: continue; } }"),
        Some(ParseError::ContinueOutsideLoop)
    );
    assert_eq!(error("int main(void) { case 1: ; }"), Some(ParseError::CaseOutsideSwitch));
    assert_eq!(error("int main(void) { default: ; }"), Some(ParseError::CaseOutsideSwitch));
    assert_eq!(
        error("int main(void) { int x = 1; switch (x) { case x: ; } }"),
        Some(ParseError::NonConstantCase)
    );
    assert_eq!(
        error("int main(void) { return 4294967296; }"),
        Some(ParseError::NumberTooLarge)
    );
    assert_eq!(error("int main(void) { return y; }"), Some(ParseError::UndeclaredIdentifier));
    assert_eq!(error("int main(void) { x = 1; }"), Some(ParseError::UndeclaredIdentifier));
    assert_eq!(error("int main(void) { return f(1); }"), Some(ParseError::UndeclaredIdentifier));
    assert_eq!(
        error("int main(void) { { int x = 1; } return x; }"),
        Some(ParseError::UndeclaredIdentifier)
    );
    assert_eq!(
        error("int main(void) { for (int i = 0; i < 1; i++) ; return i; }"),
        Some(ParseError::UndeclaredIdentifier)
    );
}

#[test]
fn the_words_of_the_language_are_no_names_in_expressions() {
    let mut state = ParserState::new();
    // A variable may carry the name of a word, but no expression finds it.
    parse_declaration("int return", 0, &mut state).unwrap();
    assert_eq!(parse_expression("return", 0, &state).err(), Some(ParseError::Backtrack));
    assert_eq!(parse_expression("ret", 0, &state).err(), Some(ParseError::UndeclaredIdentifier));
    assert_eq!(parse_expression("returns", 0, &state).err(), Some(ParseError::UndeclaredIdentifier));
}

#[test]
fn no_name_is_handed_out_when_the_numbers_are_used_up() {
    let mut state = ParserState::new();
    state.identifiers = u64::MAX;
    assert_eq!(
        parse_declaration("int x", 0, &mut state).err(),
        Some(ParseError::TooManyIdentifiers)
    );
    assert_eq!(
        parse_statement("while (1) ;", 0, &mut state).err(),
        Some(ParseError::TooManyIdentifiers)
    );
}

#[test]
fn types_of_expressions() {
    let mut state = ParserState::new();
    state.add_variable("x".to_string(), Datatype::Int);
    state.add_variable("p".to_string(), pointer_to(Datatype::Int));
    state.start_function_scope(
        "f".to_string(),
        vec![Argument { name: "a".to_string(), datatype: Arc::new(Datatype::Int) }],
        pointer_to(Datatype::Int),
    );
    let x = || Arc::new(Expression::Variable("x_0".to_string()));
    let p = || Arc::new(Expression::Variable("p_1".to_string()));
    let f = || Arc::new(Expression::FunctionSymbol("f".to_string()));
    assert_eq!(Expression::Number(1).get_type(&state), Ok(Datatype::Int));
    assert_eq!(x().get_type(&state), Ok(Datatype::Int));
    assert_eq!(UnaryOp::Ref(x()).get_type(&state), Ok(pointer_to(Datatype::Int)));
    assert_eq!(UnaryOp::Deref(p()).get_type(&state), Ok(Datatype::Int));
    assert_eq!(UnaryOp::Negation(p()).get_type(&state), Ok(pointer_to(Datatype::Int)));
    assert_eq!(
        UnaryOp::Deref(x()).get_type(&state),
        Err(ParseError::DereferenceOfNonPointer)
    );
    assert_eq!(BinaryOp::Addition(p(), x()).get_type(&state), Ok(pointer_to(Datatype::Int)));
    assert_eq!(BinaryOp::Comma(p(), x()).get_type(&state), Ok(Datatype::Int));
    assert_eq!(
        TernaryOp { condition: p(), then_expr: x(), else_expr: number(1) }.get_type(&state),
        Ok(Datatype::Int)
    );
    assert_eq!(
        TernaryOp { condition: x(), then_expr: x(), else_expr: p() }.get_type(&state),
        Err(ParseError::TernaryTypeMismatch)
    );
    let call = |arguments: Vec<Expression>| Call { expression: f(), arguments };
    assert_eq!(call(vec![Expression::Number(1)]).get_type(&state), Ok(pointer_to(Datatype::Int)));
    assert_eq!(call(vec![]).get_type(&state), Err(ParseError::ArgumentCountMismatch));
    assert_eq!(
        call(vec![Expression::Variable("p_1".to_string())]).get_type(&state),
        Err(ParseError::ArgumentTypeMismatch)
    );
    assert_eq!(
        Call { expression: x(), arguments: vec![] }.get_type(&state),
        Err(ParseError::NotCallable)
    );
    assert_eq!(
        Expression::Variable("y_7".to_string()).get_type(&state),
        Err(ParseError::UndeclaredIdentifier)
    );
    assert_eq!(
        Expression::FunctionSymbol("g".to_string()).get_type(&state),
        Err(ParseError::UndeclaredIdentifier)
    );
    // The type of a dereferenced function is the function.
    assert_eq!(
        UnaryOp::Deref(f()).get_type(&state),
        Ok(function(pointer_to(Datatype::Int), vec![("a", Datatype::Int)]))
    );
}

#[test]
fn only_a_number_is_a_constant() {
    assert_eq!(Expression::Number(-7).fold(), Some(-7));
    assert_eq!(Expression::Variable("x_0".to_string()).fold(), None);
    assert_eq!(Expression::FunctionSymbol("f".to_string()).fold(), None);
    assert_eq!(Expression::UnaryOp(UnaryOp::Plus(number(1))).fold(), None);
    assert_eq!(Expression::BinaryOp(BinaryOp::Addition(number(1), number(2))).fold(), None);
    assert_eq!(
        Expression::TernaryOp(TernaryOp {
            condition: number(1),
            then_expr: number(2),
            else_expr: number(3)
        })
        .fold(),
        None
    );
    assert_eq!(Expression::Call(Call { expression: number(1), arguments: vec![] }).fold(), None);
}

#[test]
fn operation_creators_know_the_operators_of_their_level() {
    let one = || Expression::Number(1);
    let two = || Expression::Number(2);
    assert_eq!(
        level_3_operation_creator(one(), two(), "*".to_string()),
        Some(BinaryOp::Multiplication(number(1), number(2)))
    );
    assert_eq!(
        level_3_operation_creator(one(), two(), "%".to_string()),
        Some(BinaryOp::Modulus(number(1), number(2)))
    );
    assert_eq!(level_3_operation_creator(one(), two(), "+".to_string()), None);
    assert_eq!(
        level_6_operation_creator(one(), two(), "<=".to_string()),
        Some(BinaryOp::LessThanEquals(number(1), number(2)))
    );
    assert_eq!(
        level_14_operation_creator(one(), two(), ">>=".to_string()),
        Some(BinaryOp::AssignmentShiftRight(number(1), number(2)))
    );
    assert_eq!(level_14_operation_creator(one(), two(), "==".to_string()), None);
    assert_eq!(parse_level_6_binary_operator(" >= 1", 0), Ok((">=", 3)));
    assert_eq!(parse_level_6_binary_operator(" > 1", 0), Ok((">", 2)));
    assert_eq!(parse_level_6_binary_operator(" >> 1", 0), Err(ParseError::Backtrack));
}

#[test]
fn duplicates_are_found() {
    let names = |list: &[&str]| list.iter().map(|name| name.to_string()).collect::<Vec<_>>();
    assert!(!duplicate_checker(&names(&[])));
    assert!(!duplicate_checker(&names(&["a"])));
    assert!(!duplicate_checker(&names(&["a", "b", "c"])));
    assert!(duplicate_checker(&names(&["a", "b", "a"])));
    assert!(duplicate_checker(&names(&["b", "b"])));
}

#[test]
fn shared_operands_stay_equal_in_copies() {
    let shared = Arc::new(Expression::BinaryOp(BinaryOp::Addition(number(1), number(2))));
    let operation = UnaryOp::Negation(shared.clone());
    let copy = operation.clone();
    assert_eq!(copy, operation);
    assert_eq!(copy, UnaryOp::Negation(shared));
    let datatype = pointer_to(function(Datatype::Int, vec![("a", pointer_to(Datatype::Int))]));
    assert_eq!(datatype.clone(), datatype);
    assert!(datatype.equals(&datatype.clone()));
    assert!(!datatype.equals(&pointer_to(Datatype::Int)));
}

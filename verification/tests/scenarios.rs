use std::collections::HashMap;

use rvcc::parser::parse_program;
use rvcc::riscv::instruction::Instruction;
use rvcc::riscv::values::{Immediate, Register, RegisterWithOffset};
use rvcc::riscv::{compile_program, optimize_program};

/// A small machine that runs a list of instructions. An address of code is
/// the index of a line.
struct Machine {
    registers: HashMap<Register, i64>,
    memory: HashMap<i64, u8>,
    labels: HashMap<String, i64>,
    steps: usize,
    lowest_stack: i64,
}

const STACK_TOP: i64 = 1 << 20;
const RETURN_TO_HOST: i64 = -1;

fn load(machine: &Machine, address: i64) -> i64 {
    let mut bytes = [0u8; 4];
    for (i, byte) in bytes.iter_mut().enumerate() {
        *byte = *machine.memory.get(&(address + i as i64)).unwrap_or(&0);
    }
    i32::from_le_bytes(bytes) as i64
}

fn store(machine: &mut Machine, address: i64, value: i64) {
    for (i, byte) in (value as i32).to_le_bytes().iter().enumerate() {
        machine.memory.insert(address + i as i64, *byte);
    }
}

fn get(machine: &Machine, register: &Register) -> i64 {
    if *register == Register::Zero {
        0
    } else {
        *machine.registers.get(register).unwrap_or(&0)
    }
}

fn set(machine: &mut Machine, register: &Register, value: i64) {
    if *register == Register::Sp && value < machine.lowest_stack {
        machine.lowest_stack = value;
    }
    machine.registers.insert(*register, value as i32 as i64);
}

fn number(machine: &Machine, immediate: &Immediate) -> i64 {
    match immediate {
        Immediate::Number(value) => *value as i64,
        Immediate::Label(name) => *machine.labels.get(name).expect("the label exists"),
    }
}

fn address(machine: &Machine, operand: &RegisterWithOffset) -> i64 {
    get(machine, &operand.1) + number(machine, &operand.0)
}

fn unsigned(value: i64) -> u32 {
    value as i32 as u32
}

/// Runs `code` from the label `main` and gives what it leaves in `a0`,
/// together with the stack pointer at the end.
fn run(code: &[Instruction]) -> (i64, i64) {
    let mut machine = Machine {
        registers: HashMap::new(),
        memory: HashMap::new(),
        labels: HashMap::new(),
        steps: 0,
        lowest_stack: STACK_TOP,
    };
    for (index, instruction) in code.iter().enumerate() {
        if let Instruction::Label(name) = instruction {
            assert!(
                machine.labels.insert(name.clone(), index as i64).is_none(),
                "the label {name} stands twice"
            );
        }
    }
    set(&mut machine, &Register::Sp, STACK_TOP);
    set(&mut machine, &Register::Ra, RETURN_TO_HOST);
    let mut pc = *machine.labels.get("main").expect("the program has a main");
    while pc != RETURN_TO_HOST {
        machine.steps += 1;
        assert!(machine.steps < 1_000_000, "the program does not end");
        assert_eq!(get(&machine, &Register::Sp) % 16, 0, "the stack pointer is aligned");
        let instruction = &code[pc as usize];
        let mut next = pc + 1;
        match instruction {
            Instruction::Comment(_) | Instruction::Label(_) | Instruction::Symbol(_) => {}
            Instruction::Add(rd, a, b) => {
                let value = get(&machine, a).wrapping_add(get(&machine, b));
                set(&mut machine, rd, value)
            }
            Instruction::Addi(rd, a, imm) => {
                let value = get(&machine, a).wrapping_add(number(&machine, imm));
                set(&mut machine, rd, value)
            }
            Instruction::Neg(rd, a) => {
                let value = get(&machine, a).wrapping_neg();
                set(&mut machine, rd, value)
            }
            Instruction::Sub(rd, a, b) => {
                let value = get(&machine, a).wrapping_sub(get(&machine, b));
                set(&mut machine, rd, value)
            }
            Instruction::Mul(rd, a, b) => {
                let value = get(&machine, a).wrapping_mul(get(&machine, b));
                set(&mut machine, rd, value)
            }
            Instruction::Div(rd, a, b) => {
                let value = get(&machine, a) / get(&machine, b);
                set(&mut machine, rd, value)
            }
            Instruction::Rem(rd, a, b) => {
                let value = get(&machine, a) % get(&machine, b);
                set(&mut machine, rd, value)
            }
            Instruction::And(rd, a, b) => {
                let value = get(&machine, a) & get(&machine, b);
                set(&mut machine, rd, value)
            }
            Instruction::NotP(rd, a) => {
                let value = !get(&machine, a);
                set(&mut machine, rd, value)
            }
            Instruction::Or(rd, a, b) => {
                let value = get(&machine, a) | get(&machine, b);
                set(&mut machine, rd, value)
            }
            Instruction::Xor(rd, a, b) => {
                let value = get(&machine, a) ^ get(&machine, b);
                set(&mut machine, rd, value)
            }
            Instruction::Xori(rd, a, imm) => {
                let value = get(&machine, a) ^ number(&machine, imm);
                set(&mut machine, rd, value)
            }
            Instruction::Sll(rd, a, b) => {
                let value = unsigned(get(&machine, a)) << (get(&machine, b) & 31);
                set(&mut machine, rd, value as i64)
            }
            Instruction::Srl(rd, a, b) => {
                let value = unsigned(get(&machine, a)) >> (get(&machine, b) & 31);
                set(&mut machine, rd, value as i64)
            }
            Instruction::LiP(rd, imm) | Instruction::LaP(rd, imm) => {
                let value = number(&machine, imm);
                set(&mut machine, rd, value)
            }
            Instruction::Lw(rd, operand) | Instruction::Ld(rd, operand) => {
                let value = load(&machine, address(&machine, operand));
                set(&mut machine, rd, value)
            }
            Instruction::Sw(rs, operand) | Instruction::Sd(rs, operand) => {
                let target = address(&machine, operand);
                let value = get(&machine, rs);
                store(&mut machine, target, value)
            }
            Instruction::JP(imm) => next = number(&machine, imm),
            Instruction::Jal(rd, imm) => {
                let target = number(&machine, imm);
                set(&mut machine, rd, next);
                next = target;
            }
            Instruction::Jalr(rd, operand) => {
                let target = address(&machine, operand);
                set(&mut machine, rd, next);
                next = target;
            }
            Instruction::CallP(imm) => {
                let target = number(&machine, imm);
                set(&mut machine, &Register::Ra, next);
                next = target;
            }
            Instruction::RetP => next = get(&machine, &Register::Ra),
            Instruction::Beq(a, b, imm) => {
                if get(&machine, a) == get(&machine, b) {
                    next = number(&machine, imm)
                }
            }
            Instruction::Bne(a, b, imm) => {
                if get(&machine, a) != get(&machine, b) {
                    next = number(&machine, imm)
                }
            }
            Instruction::BeqzP(a, imm) => {
                if get(&machine, a) == 0 {
                    next = number(&machine, imm)
                }
            }
            Instruction::BnezP(a, imm) => {
                if get(&machine, a) != 0 {
                    next = number(&machine, imm)
                }
            }
            Instruction::Sltu(rd, a, b) => {
                let value = unsigned(get(&machine, a)) < unsigned(get(&machine, b));
                set(&mut machine, rd, value as i64)
            }
            Instruction::Sltiu(rd, a, imm) => {
                let value = unsigned(get(&machine, a)) < unsigned(number(&machine, imm));
                set(&mut machine, rd, value as i64)
            }
            Instruction::SeqzP(rd, a) => {
                let value = get(&machine, a) == 0;
                set(&mut machine, rd, value as i64)
            }
            Instruction::SnezP(rd, a) => {
                let value = get(&machine, a) != 0;
                set(&mut machine, rd, value as i64)
            }
            Instruction::SeqP(rd, a, b) => {
                let value = get(&machine, a) == get(&machine, b);
                set(&mut machine, rd, value as i64)
            }
            Instruction::MvP(rd, a) => {
                let value = get(&machine, a);
                set(&mut machine, rd, value)
            }
            Instruction::PushP(rs) => {
                let top = get(&machine, &Register::Sp) - 16;
                set(&mut machine, &Register::Sp, top);
                let value = get(&machine, rs);
                store(&mut machine, top, value);
            }
            Instruction::PopP(rd) => {
                let top = get(&machine, &Register::Sp);
                let value = load(&machine, top);
                set(&mut machine, rd, value);
                set(&mut machine, &Register::Sp, top + 16);
            }
            Instruction::Ebreak => {}
        }
        pc = next;
    }
    (get(&machine, &Register::A0), get(&machine, &Register::Sp))
}

fn compiled(source: &str) -> Vec<Instruction> {
    let program = parse_program(source).expect("the program parses");
    compile_program(program).expect("the program compiles")
}

/// What `main` returns, run as it was generated and run after the peephole
/// pass; both must agree and leave the stack pointer where it was.
fn result_of(source: &str) -> i64 {
    let code = compiled(source);
    let (plain, plain_stack) = run(&code);
    let (optimized, optimized_stack) = run(&optimize_program(code));
    assert_eq!(plain, optimized);
    assert_eq!(plain_stack, STACK_TOP);
    assert_eq!(optimized_stack, STACK_TOP);
    plain
}

#[test]
fn returns_the_number() {
    assert_eq!(result_of("int main(void) { return 42; }"), 42);
}

#[test]
fn adds_two_locals() {
    let source = "int main(void) { int a = 3; int b = 4; return a + b; }";
    assert_eq!(result_of(source), 7);
    let code = compiled(source);
    // Sixteen bytes hold the two locals, at the frame pointer and four above.
    assert!(code.contains(&Instruction::Addi(Register::Sp, Register::Sp, Immediate::Number(-16))));
    assert!(code.contains(&Instruction::Addi(Register::A0, Register::Fp, Immediate::Number(0))));
    assert!(code.contains(&Instruction::Addi(Register::A0, Register::Fp, Immediate::Number(4))));
    assert!(code.contains(&Instruction::Lw(
        Register::A0,
        RegisterWithOffset(Immediate::Number(0), Register::Fp)
    )));
    assert!(code.contains(&Instruction::Lw(
        Register::A0,
        RegisterWithOffset(Immediate::Number(4), Register::Fp)
    )));
    assert!(code.contains(&Instruction::Add(Register::A0, Register::A1, Register::A0)));
}

#[test]
fn sums_in_a_for_loop() {
    let source = "int main(void) { int i = 0; int s = 0; \
                  for (i = 1; i <= 10; i = i + 1) s = s + i; return s; }";
    assert_eq!(result_of(source), 55);
}

#[test]
fn computes_a_factorial_by_recursion() {
    let source = "int fact(int n) { if (n <= 1) return 1; return n * fact(n - 1); } \
                  int main(void) { return fact(5); }";
    assert_eq!(result_of(source), 120);
}

#[test]
fn passes_the_ninth_argument_on_the_stack() {
    let source = "int f(int a, int b, int c, int d, int e, int g, int h, int i, int j) \
                  { return j; } \
                  int main(void) { return f(1,2,3,4,5,6,7,8,99); }";
    assert_eq!(result_of(source), 99);
    let code = compiled(source);
    // The ninth argument is kept at the base of a region of sixteen bytes.
    assert!(code.contains(&Instruction::Sw(
        Register::A0,
        RegisterWithOffset(Immediate::Number(0), Register::S1)
    )));
    let main = code.iter().position(|i| *i == Instruction::Label("main".to_string())).unwrap();
    assert!(code[main..].contains(&Instruction::Addi(
        Register::Sp,
        Register::Sp,
        Immediate::Number(-16)
    )));
}

#[test]
fn every_argument_reaches_its_parameter() {
    let source = "int f(int a, int b, int c, int d, int e, int g, int h, int i, int j, int k) \
                  { return a + 2*b + 3*c + 4*d + 5*e + 6*g + 7*h + 8*i + 9*j + 10*k; } \
                  int main(void) { return f(1,2,3,4,5,6,7,8,9,10); }";
    assert_eq!(result_of(source), 385);
}

#[test]
fn a_call_with_eight_arguments_takes_no_stack_region() {
    let source = "int f(int a, int b, int c, int d, int e, int g, int h, int i) { return i; } \
                  int main(void) { return f(1,2,3,4,5,6,7,8); }";
    assert_eq!(result_of(source), 8);
    let code = compiled(source);
    let main = code.iter().position(|i| *i == Instruction::Label("main".to_string())).unwrap();
    // The region for stack arguments is empty, the one for the registers
    // holds thirty-two bytes.
    let call: Vec<&Instruction> = code[main..]
        .iter()
        .filter(|i| matches!(i, Instruction::Addi(Register::Sp, Register::Sp, _)))
        .collect();
    assert!(call.contains(&&Instruction::Addi(Register::Sp, Register::Sp, Immediate::Number(0))));
    assert!(call.contains(&&Instruction::Addi(Register::Sp, Register::Sp, Immediate::Number(-32))));
    assert!(!call.contains(&&Instruction::Addi(Register::Sp, Register::Sp, Immediate::Number(-16))));
}

#[test]
fn switch_runs_the_matching_case() {
    let source = "int main(void) { int x = 0; switch (2) { case 1: x = 10; break; \
                  case 2: x = 20; break; default: x = 30; } return x; }";
    assert_eq!(result_of(source), 20);
}

#[test]
fn switch_runs_the_default() {
    let source = "int main(void) { int x = 0; switch (7) { case 1: x = 10; break; \
                  case 2: x = 20; break; default: x = 30; } return x; }";
    assert_eq!(result_of(source), 30);
}

#[test]
fn switch_without_default_and_without_match_is_skipped() {
    let source = "int main(void) { int x = 5; switch (7) { case 1: x = 10; break; \
                  case 2: x = 20; break; } return x; }";
    assert_eq!(result_of(source), 5);
}

#[test]
fn switch_cases_fall_through() {
    let source = "int main(void) { int x = 0; switch (1) { case 1: x = x + 1; \
                  case 2: x = x + 2; break; case 3: x = x + 4; } return x; }";
    assert_eq!(result_of(source), 3);
}

#[test]
fn break_leaves_a_loop_and_a_switch_at_their_end_labels() {
    let source = "int main(void) { int x = 0; while (1) { switch (x) { case 3: break; \
                  default: x = x + 1; } if (x == 3) break; } return x; }";
    assert_eq!(result_of(source), 3);
    let code = compiled(source);
    let ends: Vec<&String> = code
        .iter()
        .filter_map(|i| match i {
            Instruction::JP(Immediate::Label(name)) if name.ends_with("_end") => Some(name),
            _ => None,
        })
        .collect();
    for target in ends {
        assert!(code.contains(&Instruction::Label(target.clone())));
    }
}

#[test]
fn an_assignment_has_the_assigned_value() {
    assert_eq!(result_of("int main(void) { int x = 0; return (x = 5) + x; }"), 10);
    assert_eq!(result_of("int main(void) { int x = 0; int y = 0; x = y = 7; return x + y; }"), 14);
}

#[test]
fn compound_assignments() {
    let source = "int main(void) { int x = 10; x += 5; x -= 3; x *= 4; x /= 6; x %= 5; \
                  x <<= 4; x >>= 1; x |= 3; x &= 26; x ^= 5; return x; }";
    // 15, 12, 48, 8, 3, 48, 24, 27, 26, 31.
    assert_eq!(result_of(source), 31);
}

#[test]
fn increments_and_decrements() {
    assert_eq!(result_of("int main(void) { int x = 5; int y = x++; return y * 10 + x; }"), 56);
    assert_eq!(result_of("int main(void) { int x = 5; int y = x--; return y * 10 + x; }"), 54);
    assert_eq!(result_of("int main(void) { int x = 5; int y = ++x; return y * 10 + x; }"), 66);
    assert_eq!(result_of("int main(void) { int x = 5; int y = --x; return y * 10 + x; }"), 44);
}

#[test]
fn comparisons() {
    let source = "int main(void) { return (1 < 2) + 2 * (2 < 1) + 4 * (2 <= 2) + 8 * (3 <= 2) \
                  + 16 * (3 > 2) + 32 * (2 > 3) + 64 * (2 >= 2) + 128 * (1 >= 2) \
                  + 256 * (5 == 5) + 512 * (5 == 6) + 1024 * (5 != 6) + 2048 * (5 != 5); }";
    assert_eq!(result_of(source), 1 + 4 + 16 + 64 + 256 + 1024);
}

#[test]
fn logical_operators_short_circuit() {
    let source = "int main(void) { int x = 0; int a = (0 && (x = 1)); int b = (1 || (x = 2)); \
                  int c = (1 && 2); int d = (0 || 0); return x * 1000 + a * 100 + b * 10 + c + d; }";
    assert_eq!(result_of(source), 11);
}

#[test]
fn the_conditional_operator() {
    assert_eq!(result_of("int main(void) { int x = 3; return x > 2 ? 10 : 20; }"), 10);
    assert_eq!(result_of("int main(void) { int x = 1; return x > 2 ? 10 : 20; }"), 20);
}

#[test]
fn unary_operators() {
    assert_eq!(result_of("int main(void) { int x = 5; return -x + 10; }"), 5);
    assert_eq!(result_of("int main(void) { return !0 + !7; }"), 1);
    assert_eq!(result_of("int main(void) { return ~0 + 2; }"), 1);
    assert_eq!(result_of("int main(void) { return +4; }"), 4);
}

#[test]
fn pointers() {
    let source = "int main(void) { int x = 1; int *p = &x; *p = 7; return x + *p; }";
    assert_eq!(result_of(source), 14);
}

#[test]
fn pointer_parameters() {
    let source = "int set(int *p, int v) { *p = v; return 0; } \
                  int main(void) { int x = 1; set(&x, 9); return x; }";
    assert_eq!(result_of(source), 9);
}

#[test]
fn function_pointers() {
    let source = "int inc(int a) { return a + 1; } \
                  int apply(int (*f)(int), int v) { return f(v); } \
                  int main(void) { int (*g)(int) = &inc; return apply(g, 2) + (*g)(4) + apply(inc, 10); }";
    assert_eq!(result_of(source), 3 + 5 + 11);
}

#[test]
fn while_loop_with_continue_and_break() {
    let source = "int main(void) { int i = 0; int s = 0; while (1) { i = i + 1; \
                  if (i > 10) break; if (i % 2) continue; s = s + i; } return s; }";
    assert_eq!(result_of(source), 30);
}

#[test]
fn inner_scopes_shadow_outer_names() {
    let source = "int main(void) { int x = 1; { int x = 2; x = x + 1; } return x; }";
    assert_eq!(result_of(source), 1);
}

#[test]
fn a_for_loop_declares_its_own_variable() {
    let source = "int main(void) { int s = 0; for (int i = 0; i < 5; i = i + 1) { s = s + i; } \
                  for (int i = 0; i < 3; i++) s += 100; return s; }";
    assert_eq!(result_of(source), 310);
}

#[test]
fn a_function_may_be_declared_before_it_is_defined() {
    let source = "int odd(int n); \
                  int even(int n) { if (n == 0) return 1; return odd(n - 1); } \
                  int odd(int n) { if (n == 0) return 0; return even(n - 1); } \
                  int main(void) { return even(10) * 10 + odd(7); }";
    assert_eq!(result_of(source), 11);
}

#[test]
fn a_body_without_return_returns_zero() {
    assert_eq!(result_of("int main(void) { int x = 3; }"), 0);
}

#[test]
fn numbers_in_other_bases() {
    assert_eq!(result_of("int main(void) { return 0x1F + 0b101 + 0o17 + 7; }"), 31 + 5 + 15 + 7);
}

#[test]
fn the_comma_operator_has_the_value_of_its_right_side() {
    assert_eq!(result_of("int main(void) { int x = 0; return (x = 3, x + 1); }"), 4);
}

#[test]
fn nested_calls_and_expressions() {
    let source = "int add(int a, int b) { return a + b; } \
                  int fib(int n) { if (n < 2) return n; return add(fib(n - 1), fib(n - 2)); } \
                  int main(void) { return fib(10); }";
    assert_eq!(result_of(source), 55);
}

#[test]
fn a_for_loop_may_leave_its_parts_out() {
    let source = "int main(void) { int i = 0; for (;;) { i = i + 1; if (i == 4) break; } return i; }";
    assert_eq!(result_of(source), 4);
}

#[test]
fn a_call_without_arguments() {
    let source = "int three(void) { return 3; } int four() { return 4; } \
                  int main(void) { return three() * 10 + four(); }";
    assert_eq!(result_of(source), 34);
}

#[test]
fn an_else_belongs_to_the_nearest_if() {
    let source = "int pick(int a, int b) { if (a) if (b) return 1; else return 2; return 3; } \
                  int main(void) { return pick(1, 1) * 100 + pick(1, 0) * 10 + pick(0, 1); }";
    assert_eq!(result_of(source), 123);
}

#[test]
fn conditionals_nest_to_the_right() {
    let source = "int sign(int x) { return x == 0 ? 0 : x > 100 ? 2 : 1; } \
                  int main(void) { return sign(0) * 100 + sign(5) * 10 + sign(500); }";
    assert_eq!(result_of(source), 12);
}

#[test]
fn pointers_to_pointers_and_to_parameters() {
    let source = "int bump(int v) { int *p = &v; int **q = &p; **q = **q + 1; return v; } \
                  int main(void) { return bump(41); }";
    assert_eq!(result_of(source), 42);
}

#[test]
fn the_address_of_a_parameter_beyond_the_eighth() {
    let source = "int f(int a, int b, int c, int d, int e, int g, int h, int i, int j, int k) \
                  { int *p = &k; *p = *p + j; return k; } \
                  int main(void) { return f(1,2,3,4,5,6,7,8,30,12); }";
    assert_eq!(result_of(source), 42);
}

#[test]
fn recursion_with_arguments_on_the_stack() {
    let source = "int sum(int a, int b, int c, int d, int e, int g, int h, int i, int n) \
                  { if (n == 0) return a + b + c + d + e + g + h + i; \
                    return sum(a + 1, b, c, d, e, g, h, i, n - 1); } \
                  int main(void) { return sum(0, 1, 1, 1, 1, 1, 1, 1, 5); }";
    assert_eq!(result_of(source), 12);
}

#[test]
fn whitespace_may_stand_anywhere_between_tokens() {
    let source = "\n\tint\n main ( void )\r\n{\n\treturn\t( 1\n+ 2 )\n* 3 ;\n}\n";
    assert_eq!(result_of(source), 9);
}

#[test]
fn the_trap_instruction() {
    let code = compiled("int main(void) { __ebreak; return 1; }");
    assert!(code.contains(&Instruction::Ebreak));
    assert_eq!(result_of("int main(void) { __ebreak; return 1; }"), 1);
}

#[test]
fn loops_in_loops_have_labels_of_their_own() {
    let source = "int main(void) { int s = 0; for (int i = 0; i < 3; i++) \
                  { int j = 0; while (j < 4) { j = j + 1; if (j == 2) continue; s = s + 1; } } return s; }";
    assert_eq!(result_of(source), 9);
}

#[test]
fn the_text_of_a_program() {
    let program = parse_program("int main(void) { int a = 1; return a; }").unwrap();
    let code = optimize_program(compile_program(program).unwrap());
    let text: Vec<String> = code.iter().map(Instruction::to_string).collect();
    assert_eq!(
        text.join("\n"),
        ".globl main\n\
         main:\n\
         addi sp, sp, -32\n\
         sw ra, 0(sp)\n\
         sw s0, 16(sp)\n\
         sw s1, 24(sp)\n\
         addi sp, sp, -16\n\
         mv s0, sp\n\
         li a0, 1\n\
         addi sp, sp, -16\n\
         sw a0, 0(sp)\n\
         mv a0, s0\n\
         lw a1, 0(sp)\n\
         addi sp, sp, 16\n\
         sw a1, 0(a0)\n\
         mv a0, a1\n\
         lw a0, 0(s0)\n\
         addi sp, sp, 16\n\
         lw s1, 24(sp)\n\
         lw s0, 16(sp)\n\
         lw ra, 0(sp)\n\
         addi sp, sp, 32\n\
         ret\n\
         li a0, 0\n\
         addi sp, sp, 16\n\
         lw s1, 24(sp)\n\
         lw s0, 16(sp)\n\
         lw ra, 0(sp)\n\
         addi sp, sp, 32\n\
         ret"
    );
}

#[test]
fn a_named_label_stands_in_the_code() {
    let source = "int main(void) { int x = 1; here: x = x + 1; return x; }";
    assert_eq!(result_of(source), 2);
    assert!(compiled(source).contains(&Instruction::Label("here".to_string())));
}

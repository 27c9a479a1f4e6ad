use rvcc::parser::parse_program;
use rvcc::riscv::instruction::Instruction;
use rvcc::riscv::{compile_program, optimize_program};

fn assembly(source: &str) -> Vec<String> {
    let program = parse_program(source).expect("the program parses");
    let code = compile_program(program).expect("the program compiles");
    optimize_program(code).iter().map(Instruction::to_string).collect()
}

#[test]
fn main_returning_a_number() {
    let lines = assembly("int main(void) { return 42; }");
    println!("{}", lines.join("\n"));
    assert_eq!(
        lines,
        vec![
            ".globl main",
            "main:",
            "addi sp, sp, -32",
            "sw ra, 0(sp)",
            "sw s0, 16(sp)",
            "sw s1, 24(sp)",
            "mv s0, sp",
            "li a0, 42",
            "lw s1, 24(sp)",
            "lw s0, 16(sp)",
            "lw ra, 0(sp)",
            "addi sp, sp, 32",
            "ret",
            "li a0, 0",
            "lw s1, 24(sp)",
            "lw s0, 16(sp)",
            "lw ra, 0(sp)",
            "addi sp, sp, 32",
            "ret",
        ]
    );
}

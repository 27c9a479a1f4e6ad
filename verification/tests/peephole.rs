use rvcc::riscv::instruction::Instruction;
use rvcc::riscv::optimize_program;
use rvcc::riscv::values::{Immediate, Register};

#[test]
fn addi_of_zero_register_becomes_li() {
    let program = vec![Instruction::Addi(Register::A0, Register::Zero, Immediate::Number(7))];
    let optimized = optimize_program(program);
    assert_eq!(optimized, vec![Instruction::LiP(Register::A0, Immediate::Number(7))]);
}

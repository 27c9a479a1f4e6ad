//! What the instructions that the peephole pass rewrites do to the
//! registers, and that the rewritten instructions do the same.
use vstd::prelude::*;
use crate::riscv::instruction::{equivalent, InstructionModel};
use crate::riscv::values::{ImmediateModel, Register};

verus! {

/// The values of the registers.
pub type Registers = spec_fn(Register) -> int;

/// The value that an instruction reads from a register: `zero` reads as
/// zero.
pub open spec fn read(registers: Registers, register: Register) -> int {
    if register == Register::Zero {
        0
    } else {
        registers(register)
    }
}

/// The registers after a value was written to one of them: a write to
/// `zero` is lost.
pub open spec fn written(registers: Registers, register: Register, value: int) -> Registers {
    |other: Register|
        if other == register && register != Register::Zero {
            value
        } else {
            registers(other)
        }
}

/// The value of an immediate operand, where `address` gives the addresses
/// of the labels.
pub open spec fn immediate_value(
    immediate: ImmediateModel,
    address: spec_fn(Seq<char>) -> int,
) -> int {
    match immediate {
        ImmediateModel::Number(value) => value as int,
        ImmediateModel::Label(name) => address(name),
    }
}

/// Whether the peephole pass may rewrite an instruction: it is an addition,
/// an addition of an immediate, or a move.
pub open spec fn rewritable(instruction: InstructionModel) -> bool {
    instruction is Add || instruction is Addi || instruction is MvP
}

/// The registers after an addition, an addition of an immediate, a move or
/// a load of an immediate. The sum is taken in the width of a register,
/// which `wrap` stands for.
pub open spec fn registers_after(
    instruction: InstructionModel,
    registers: Registers,
    address: spec_fn(Seq<char>) -> int,
    wrap: spec_fn(int) -> int,
) -> Registers {
    match instruction {
        InstructionModel::Add(rd, rs1, rs2) => written(
            registers,
            rd,
            wrap(read(registers, rs1) + read(registers, rs2)),
        ),
        InstructionModel::Addi(rd, rs1, imm) => written(
            registers,
            rd,
            wrap(read(registers, rs1) + immediate_value(imm, address)),
        ),
        InstructionModel::MvP(rd, rs) => written(registers, rd, wrap(read(registers, rs) + 0)),
        InstructionModel::LiP(rd, imm) => written(
            registers,
            rd,
            wrap(0 + immediate_value(imm, address)),
        ),
        _ => registers,
    }
}

/// The registers after the instructions of `code`, one after the other.
pub open spec fn registers_after_all(
    code: Seq<InstructionModel>,
    registers: Registers,
    address: spec_fn(Seq<char>) -> int,
    wrap: spec_fn(int) -> int,
) -> Registers
    decreases code.len(),
{
    if code.len() == 0 {
        registers
    } else {
        registers_after(
            code.last(),
            registers_after_all(code.drop_last(), registers, address, wrap),
            address,
            wrap,
        )
    }
}

/// The peephole pass leaves every instruction as it is but additions,
/// additions of an immediate and moves; and what it puts in the place of
/// one of these leaves the same value in every register, given that the
/// registers hold values of their width.
pub proof fn lemma_equivalent_means_the_same(
    instruction: InstructionModel,
    registers: Registers,
    address: spec_fn(Seq<char>) -> int,
    wrap: spec_fn(int) -> int,
    register: Register,
)
    requires
        forall|r: Register| wrap(#[trigger] registers(r)) == registers(r),
        wrap(0) == 0,
    ensures
        !rewritable(instruction) ==> equivalent(instruction) == seq![instruction],
        rewritable(instruction) ==> registers_after_all(
            equivalent(instruction),
            registers,
            address,
            wrap,
        )(register) == registers_after(instruction, registers, address, wrap)(register),
{
    let simpler = equivalent(instruction);
    if simpler.len() == 1 {
        assert(simpler.drop_last() =~= Seq::<InstructionModel>::empty());
        assert(registers_after_all(simpler.drop_last(), registers, address, wrap) == registers);
        assert(simpler.last() == simpler[0]);
    } else {
        assert(simpler =~= Seq::<InstructionModel>::empty());
    }
}

} // verus!

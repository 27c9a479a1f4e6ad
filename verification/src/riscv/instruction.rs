//! The lines of assembly, their text, and the peephole rules.
use vstd::prelude::*;
use vstd::string::*;
use crate::riscv::values::{
    at_offset, immediate_text, number, register_name, register_with_offset_text, Immediate,
    ImmediateModel, Register, RegisterWithOffset, RegisterWithOffsetModel,
};

verus! {

/// One line of assembly: an instruction, a pseudo-instruction, a label, a
/// directive or a comment. Names that end in `P` are pseudo-instructions.
#[derive(Debug, PartialEq, Eq)]
pub enum Instruction {
    // Text
    Comment(String),
    Label(String),
    Symbol(String),
    // Arithmetic
    Add(Register, Register, Register),
    Addi(Register, Register, Immediate),
    Neg(Register, Register),
    Sub(Register, Register, Register),
    Mul(Register, Register, Register),
    Div(Register, Register, Register),
    Rem(Register, Register, Register),
    // Bitwise
    And(Register, Register, Register),
    NotP(Register, Register),
    Or(Register, Register, Register),
    Xor(Register, Register, Register),
    Xori(Register, Register, Immediate),
    // Shifts
    Sll(Register, Register, Register),
    Srl(Register, Register, Register),
    // Load immediate
    LiP(Register, Immediate),
    // Loads and stores
    Lw(Register, RegisterWithOffset),
    Ld(Register, RegisterWithOffset),
    LaP(Register, Immediate),
    Sw(Register, RegisterWithOffset),
    Sd(Register, RegisterWithOffset),
    // Jumps
    JP(Immediate),
    Jal(Register, Immediate),
    Jalr(Register, RegisterWithOffset),
    CallP(Immediate),
    RetP,
    // Branches
    Beq(Register, Register, Immediate),
    BeqzP(Register, Immediate),
    Bne(Register, Register, Immediate),
    BnezP(Register, Immediate),
    // Comparisons
    Sltu(Register, Register, Register),
    Sltiu(Register, Register, Immediate),
    SeqzP(Register, Register),
    SnezP(Register, Register),
    SeqP(Register, Register, Register),
    // Moves, the stack, and traps
    MvP(Register, Register),
    PushP(Register),
    PopP(Register),
    Ebreak,
}

/// What an instruction stands for: the same shape, with texts as sequences of
/// characters.
pub enum InstructionModel {
    Comment(Seq<char>),
    Label(Seq<char>),
    Symbol(Seq<char>),
    Add(Register, Register, Register),
    Addi(Register, Register, ImmediateModel),
    Neg(Register, Register),
    Sub(Register, Register, Register),
    Mul(Register, Register, Register),
    Div(Register, Register, Register),
    Rem(Register, Register, Register),
    And(Register, Register, Register),
    NotP(Register, Register),
    Or(Register, Register, Register),
    Xor(Register, Register, Register),
    Xori(Register, Register, ImmediateModel),
    Sll(Register, Register, Register),
    Srl(Register, Register, Register),
    LiP(Register, ImmediateModel),
    Lw(Register, RegisterWithOffsetModel),
    Ld(Register, RegisterWithOffsetModel),
    LaP(Register, ImmediateModel),
    Sw(Register, RegisterWithOffsetModel),
    Sd(Register, RegisterWithOffsetModel),
    JP(ImmediateModel),
    Jal(Register, ImmediateModel),
    Jalr(Register, RegisterWithOffsetModel),
    CallP(ImmediateModel),
    RetP,
    Beq(Register, Register, ImmediateModel),
    BeqzP(Register, ImmediateModel),
    Bne(Register, Register, ImmediateModel),
    BnezP(Register, ImmediateModel),
    Sltu(Register, Register, Register),
    Sltiu(Register, Register, ImmediateModel),
    SeqzP(Register, Register),
    SnezP(Register, Register),
    SeqP(Register, Register, Register),
    MvP(Register, Register),
    PushP(Register),
    PopP(Register),
    Ebreak,
}

impl View for Instruction {
    type V = InstructionModel;

    open spec fn view(&self) -> InstructionModel {
        match self {
            Instruction::Comment(a) => InstructionModel::Comment(a@),
            Instruction::Label(a) => InstructionModel::Label(a@),
            Instruction::Symbol(a) => InstructionModel::Symbol(a@),
            Instruction::Add(a, b, c) => InstructionModel::Add(*a, *b, *c),
            Instruction::Addi(a, b, c) => InstructionModel::Addi(*a, *b, c@),
            Instruction::Neg(a, b) => InstructionModel::Neg(*a, *b),
            Instruction::Sub(a, b, c) => InstructionModel::Sub(*a, *b, *c),
            Instruction::Mul(a, b, c) => InstructionModel::Mul(*a, *b, *c),
            Instruction::Div(a, b, c) => InstructionModel::Div(*a, *b, *c),
            Instruction::Rem(a, b, c) => InstructionModel::Rem(*a, *b, *c),
            Instruction::And(a, b, c) => InstructionModel::And(*a, *b, *c),
            Instruction::NotP(a, b) => InstructionModel::NotP(*a, *b),
            Instruction::Or(a, b, c) => InstructionModel::Or(*a, *b, *c),
            Instruction::Xor(a, b, c) => InstructionModel::Xor(*a, *b, *c),
            Instruction::Xori(a, b, c) => InstructionModel::Xori(*a, *b, c@),
            Instruction::Sll(a, b, c) => InstructionModel::Sll(*a, *b, *c),
            Instruction::Srl(a, b, c) => InstructionModel::Srl(*a, *b, *c),
            Instruction::LiP(a, b) => InstructionModel::LiP(*a, b@),
            Instruction::Lw(a, b) => InstructionModel::Lw(*a, b@),
            Instruction::Ld(a, b) => InstructionModel::Ld(*a, b@),
            Instruction::LaP(a, b) => InstructionModel::LaP(*a, b@),
            Instruction::Sw(a, b) => InstructionModel::Sw(*a, b@),
            Instruction::Sd(a, b) => InstructionModel::Sd(*a, b@),
            Instruction::JP(a) => InstructionModel::JP(a@),
            Instruction::Jal(a, b) => InstructionModel::Jal(*a, b@),
            Instruction::Jalr(a, b) => InstructionModel::Jalr(*a, b@),
            Instruction::CallP(a) => InstructionModel::CallP(a@),
            Instruction::RetP => InstructionModel::RetP,
            Instruction::Beq(a, b, c) => InstructionModel::Beq(*a, *b, c@),
            Instruction::BeqzP(a, b) => InstructionModel::BeqzP(*a, b@),
            Instruction::Bne(a, b, c) => InstructionModel::Bne(*a, *b, c@),
            Instruction::BnezP(a, b) => InstructionModel::BnezP(*a, b@),
            Instruction::Sltu(a, b, c) => InstructionModel::Sltu(*a, *b, *c),
            Instruction::Sltiu(a, b, c) => InstructionModel::Sltiu(*a, *b, c@),
            Instruction::SeqzP(a, b) => InstructionModel::SeqzP(*a, *b),
            Instruction::SnezP(a, b) => InstructionModel::SnezP(*a, *b),
            Instruction::SeqP(a, b, c) => InstructionModel::SeqP(*a, *b, *c),
            Instruction::MvP(a, b) => InstructionModel::MvP(*a, *b),
            Instruction::PushP(a) => InstructionModel::PushP(*a),
            Instruction::PopP(a) => InstructionModel::PopP(*a),
            Instruction::Ebreak => InstructionModel::Ebreak,
        }
    }
}

/// The views of a list of instructions, in order.
pub open spec fn instructions_model(instructions: Seq<Instruction>) -> Seq<InstructionModel> {
    Seq::new(instructions.len(), |i: int| instructions[i]@)
}

/// A mnemonic followed by one operand.
pub open spec fn text_1(mnemonic: Seq<char>, a: Seq<char>) -> Seq<char> {
    mnemonic + " "@ + a
}

/// A mnemonic followed by two operands.
pub open spec fn text_2(mnemonic: Seq<char>, a: Seq<char>, b: Seq<char>) -> Seq<char> {
    mnemonic + " "@ + a + ", "@ + b
}

/// A mnemonic followed by three operands.
pub open spec fn text_3(mnemonic: Seq<char>, a: Seq<char>, b: Seq<char>, c: Seq<char>) -> Seq<
    char,
> {
    mnemonic + " "@ + a + ", "@ + b + ", "@ + c
}

/// The assembly text of an instruction. The pseudo-instructions `SeqP`,
/// `PushP` and `PopP` are written as the two instructions they stand for, on
/// two lines.
pub open spec fn instruction_text(instruction: InstructionModel) -> Seq<char> {
    match instruction {
        InstructionModel::Comment(a) => "# "@ + a,
        InstructionModel::Label(a) => a + ":"@,
        InstructionModel::Symbol(a) => "."@ + a,
        InstructionModel::Add(
            a,
            b,
            c,
        ) => text_3("add"@, register_name(a), register_name(b), register_name(c)),
        InstructionModel::Addi(
            a,
            b,
            c,
        ) => text_3("addi"@, register_name(a), register_name(b), immediate_text(c)),
        InstructionModel::Neg(a, b) => text_2("neg"@, register_name(a), register_name(b)),
        InstructionModel::Sub(
            a,
            b,
            c,
        ) => text_3("sub"@, register_name(a), register_name(b), register_name(c)),
        InstructionModel::Mul(
            a,
            b,
            c,
        ) => text_3("mul"@, register_name(a), register_name(b), register_name(c)),
        InstructionModel::Div(
            a,
            b,
            c,
        ) => text_3("div"@, register_name(a), register_name(b), register_name(c)),
        InstructionModel::Rem(
            a,
            b,
            c,
        ) => text_3("rem"@, register_name(a), register_name(b), register_name(c)),
        InstructionModel::And(
            a,
            b,
            c,
        ) => text_3("and"@, register_name(a), register_name(b), register_name(c)),
        InstructionModel::NotP(a, b) => text_2("not"@, register_name(a), register_name(b)),
        InstructionModel::Or(
            a,
            b,
            c,
        ) => text_3("or"@, register_name(a), register_name(b), register_name(c)),
        InstructionModel::Xor(
            a,
            b,
            c,
        ) => text_3("xor"@, register_name(a), register_name(b), register_name(c)),
        InstructionModel::Xori(
            a,
            b,
            c,
        ) => text_3("xori"@, register_name(a), register_name(b), immediate_text(c)),
        InstructionModel::Sll(
            a,
            b,
            c,
        ) => text_3("sll"@, register_name(a), register_name(b), register_name(c)),
        InstructionModel::Srl(
            a,
            b,
            c,
        ) => text_3("srl"@, register_name(a), register_name(b), register_name(c)),
        InstructionModel::LiP(a, b) => text_2("li"@, register_name(a), immediate_text(b)),
        InstructionModel::Lw(a, b) => text_2("lw"@, register_name(a), register_with_offset_text(b)),
        InstructionModel::Ld(a, b) => text_2("ld"@, register_name(a), register_with_offset_text(b)),
        InstructionModel::LaP(a, b) => text_2("la"@, register_name(a), immediate_text(b)),
        InstructionModel::Sw(a, b) => text_2("sw"@, register_name(a), register_with_offset_text(b)),
        InstructionModel::Sd(a, b) => text_2("sd"@, register_name(a), register_with_offset_text(b)),
        InstructionModel::JP(a) => text_1("j"@, immediate_text(a)),
        InstructionModel::Jal(a, b) => text_2("jal"@, register_name(a), immediate_text(b)),
        InstructionModel::Jalr(
            a,
            b,
        ) => text_2("jalr"@, register_name(a), register_with_offset_text(b)),
        InstructionModel::CallP(a) => text_1("call"@, immediate_text(a)),
        InstructionModel::RetP => "ret"@,
        InstructionModel::Beq(
            a,
            b,
            c,
        ) => text_3("beq"@, register_name(a), register_name(b), immediate_text(c)),
        InstructionModel::BeqzP(a, b) => text_2("beqz"@, register_name(a), immediate_text(b)),
        InstructionModel::Bne(
            a,
            b,
            c,
        ) => text_3("bne"@, register_name(a), register_name(b), immediate_text(c)),
        InstructionModel::BnezP(a, b) => text_2("bnez"@, register_name(a), immediate_text(b)),
        InstructionModel::Sltu(
            a,
            b,
            c,
        ) => text_3("sltu"@, register_name(a), register_name(b), register_name(c)),
        InstructionModel::Sltiu(
            a,
            b,
            c,
        ) => text_3("sltiu"@, register_name(a), register_name(b), immediate_text(c)),
        InstructionModel::SeqzP(a, b) => text_2("seqz"@, register_name(a), register_name(b)),
        InstructionModel::SnezP(a, b) => text_2("snez"@, register_name(a), register_name(b)),
        InstructionModel::SeqP(
            a,
            b,
            c,
        ) => text_3("xor"@, register_name(a), register_name(b), register_name(c))
            + "\n"@
            + text_2("seqz"@, register_name(a), register_name(a)),
        InstructionModel::MvP(a, b) => text_2("mv"@, register_name(a), register_name(b)),
        InstructionModel::PushP(
            a,
        ) => text_3(
            "addi"@,
            register_name(Register::Sp),
            register_name(Register::Sp),
            immediate_text(number(-16)),
        )
            + "\n"@
                + text_2(
                    "sw"@,
                    register_name(a),
                    register_with_offset_text(at_offset(0, Register::Sp)),
                ),
        InstructionModel::PopP(
            a,
        ) => text_2("lw"@, register_name(a), register_with_offset_text(at_offset(0, Register::Sp)))
            + "\n"@
                + text_3(
                    "addi"@,
                    register_name(Register::Sp),
                    register_name(Register::Sp),
                    immediate_text(number(16)),
                ),
        InstructionModel::Ebreak => "ebreak"@,
    }
}

/// The register that an instruction writes, if it writes one.
pub open spec fn destination(instruction: InstructionModel) -> Option<Register> {
    match instruction {
        InstructionModel::Comment(_) => None,
        InstructionModel::Label(_) => None,
        InstructionModel::Symbol(_) => None,
        InstructionModel::Add(rd, _, _) => Some(rd),
        InstructionModel::Addi(rd, _, _) => Some(rd),
        InstructionModel::Neg(rd, _) => Some(rd),
        InstructionModel::Sub(rd, _, _) => Some(rd),
        InstructionModel::Mul(rd, _, _) => Some(rd),
        InstructionModel::Div(rd, _, _) => Some(rd),
        InstructionModel::Rem(rd, _, _) => Some(rd),
        InstructionModel::And(rd, _, _) => Some(rd),
        InstructionModel::NotP(rd, _) => Some(rd),
        InstructionModel::Or(rd, _, _) => Some(rd),
        InstructionModel::Xor(rd, _, _) => Some(rd),
        InstructionModel::Xori(rd, _, _) => Some(rd),
        InstructionModel::Sll(rd, _, _) => Some(rd),
        InstructionModel::Srl(rd, _, _) => Some(rd),
        InstructionModel::LiP(rd, _) => Some(rd),
        InstructionModel::Lw(rd, _) => Some(rd),
        InstructionModel::Ld(rd, _) => Some(rd),
        InstructionModel::LaP(rd, _) => Some(rd),
        InstructionModel::Sw(_, _) => None,
        InstructionModel::Sd(_, _) => None,
        InstructionModel::JP(_) => None,
        InstructionModel::Jal(rd, _) => Some(rd),
        InstructionModel::Jalr(rd, _) => Some(rd),
        InstructionModel::CallP(_) => None,
        InstructionModel::RetP => None,
        InstructionModel::Beq(_, _, _) => None,
        InstructionModel::BeqzP(_, _) => None,
        InstructionModel::Bne(_, _, _) => None,
        InstructionModel::BnezP(_, _) => None,
        InstructionModel::Sltu(rd, _, _) => Some(rd),
        InstructionModel::Sltiu(rd, _, _) => Some(rd),
        InstructionModel::SeqzP(rd, _) => Some(rd),
        InstructionModel::SnezP(rd, _) => Some(rd),
        InstructionModel::SeqP(rd, _, _) => Some(rd),
        InstructionModel::MvP(rd, _) => Some(rd),
        InstructionModel::PushP(_) => None,
        InstructionModel::PopP(rd) => Some(rd),
        InstructionModel::Ebreak => None,
    }
}

/// The instruction with its destination register replaced, or unchanged if it
/// writes no register.
pub open spec fn with_destination(
    instruction: InstructionModel,
    register: Register,
) -> InstructionModel {
    match instruction {
        InstructionModel::Add(_, b, c) => InstructionModel::Add(register, b, c),
        InstructionModel::Addi(_, b, c) => InstructionModel::Addi(register, b, c),
        InstructionModel::Neg(_, b) => InstructionModel::Neg(register, b),
        InstructionModel::Sub(_, b, c) => InstructionModel::Sub(register, b, c),
        InstructionModel::Mul(_, b, c) => InstructionModel::Mul(register, b, c),
        InstructionModel::Div(_, b, c) => InstructionModel::Div(register, b, c),
        InstructionModel::Rem(_, b, c) => InstructionModel::Rem(register, b, c),
        InstructionModel::And(_, b, c) => InstructionModel::And(register, b, c),
        InstructionModel::NotP(_, b) => InstructionModel::NotP(register, b),
        InstructionModel::Or(_, b, c) => InstructionModel::Or(register, b, c),
        InstructionModel::Xor(_, b, c) => InstructionModel::Xor(register, b, c),
        InstructionModel::Xori(_, b, c) => InstructionModel::Xori(register, b, c),
        InstructionModel::Sll(_, b, c) => InstructionModel::Sll(register, b, c),
        InstructionModel::Srl(_, b, c) => InstructionModel::Srl(register, b, c),
        InstructionModel::LiP(_, b) => InstructionModel::LiP(register, b),
        InstructionModel::Lw(_, b) => InstructionModel::Lw(register, b),
        InstructionModel::Ld(_, b) => InstructionModel::Ld(register, b),
        InstructionModel::LaP(_, b) => InstructionModel::LaP(register, b),
        InstructionModel::Jal(_, b) => InstructionModel::Jal(register, b),
        InstructionModel::Jalr(_, b) => InstructionModel::Jalr(register, b),
        InstructionModel::Sltu(_, b, c) => InstructionModel::Sltu(register, b, c),
        InstructionModel::Sltiu(_, b, c) => InstructionModel::Sltiu(register, b, c),
        InstructionModel::SeqzP(_, b) => InstructionModel::SeqzP(register, b),
        InstructionModel::SnezP(_, b) => InstructionModel::SnezP(register, b),
        InstructionModel::SeqP(_, b, c) => InstructionModel::SeqP(register, b, c),
        InstructionModel::MvP(_, b) => InstructionModel::MvP(register, b),
        InstructionModel::PopP(_) => InstructionModel::PopP(register),
        other => other,
    }
}

/// Whether an instruction may continue somewhere else than at the next line.
pub open spec fn jumps(instruction: InstructionModel) -> bool {
    match instruction {
        InstructionModel::JP(_) => true,
        InstructionModel::Jal(_, _) => true,
        InstructionModel::Jalr(_, _) => true,
        InstructionModel::CallP(_) => true,
        InstructionModel::RetP => true,
        InstructionModel::Beq(_, _, _) => true,
        InstructionModel::BeqzP(_, _) => true,
        InstructionModel::Bne(_, _, _) => true,
        InstructionModel::BnezP(_, _) => true,
        _ => false,
    }
}

/// The move of `source` into `target`, or nothing if they are one register.
pub open spec fn move_or_nothing(target: Register, source: Register) -> Seq<InstructionModel> {
    if target == source {
        seq![]
    } else {
        seq![InstructionModel::MvP(target, source)]
    }
}

/// The simpler instructions that do what `instruction` does:
/// adding an immediate to `zero` loads the immediate; adding zero, or adding
/// the register `zero`, is a move; a move of a register to itself is nothing.
/// The rules are tried in this order, and each instruction is rewritten once.
pub open spec fn equivalent(instruction: InstructionModel) -> Seq<InstructionModel> {
    match instruction {
        InstructionModel::Addi(rd, rs1, imm) => {
            if rs1 == Register::Zero {
                seq![InstructionModel::LiP(rd, imm)]
            } else if imm == ImmediateModel::Number(0) {
                move_or_nothing(rd, rs1)
            } else {
                seq![instruction]
            }
        },
        InstructionModel::Add(rd, rs1, rs2) => {
            if rs1 == Register::Zero {
                move_or_nothing(rd, rs2)
            } else if rs2 == Register::Zero {
                move_or_nothing(rd, rs1)
            } else {
                seq![instruction]
            }
        },
        InstructionModel::MvP(rd, rs) => move_or_nothing(rd, rs),
        _ => seq![instruction],
    }
}

/// An instruction that the rewriting leaves as it is.
pub open spec fn is_simplest(instruction: InstructionModel) -> bool {
    equivalent(instruction) == seq![instruction]
}

/// Every instruction that the rewriting produces is left as it is by another
/// round of rewriting.
pub proof fn lemma_equivalent_is_simplest(instruction: InstructionModel)
    ensures
        forall|i: int|
            0 <= i < equivalent(instruction).len() ==> is_simplest(
                #[trigger] equivalent(instruction)[i],
            ),
{
}

impl Clone for Instruction {
    fn clone(&self) -> (copy: Self)
        ensures
            copy == *self,
    {
        match self {
            Instruction::Comment(a) => Instruction::Comment(a.clone()),
            Instruction::Label(a) => Instruction::Label(a.clone()),
            Instruction::Symbol(a) => Instruction::Symbol(a.clone()),
            Instruction::Add(a, b, c) => Instruction::Add(*a, *b, *c),
            Instruction::Addi(a, b, c) => Instruction::Addi(*a, *b, c.clone()),
            Instruction::Neg(a, b) => Instruction::Neg(*a, *b),
            Instruction::Sub(a, b, c) => Instruction::Sub(*a, *b, *c),
            Instruction::Mul(a, b, c) => Instruction::Mul(*a, *b, *c),
            Instruction::Div(a, b, c) => Instruction::Div(*a, *b, *c),
            Instruction::Rem(a, b, c) => Instruction::Rem(*a, *b, *c),
            Instruction::And(a, b, c) => Instruction::And(*a, *b, *c),
            Instruction::NotP(a, b) => Instruction::NotP(*a, *b),
            Instruction::Or(a, b, c) => Instruction::Or(*a, *b, *c),
            Instruction::Xor(a, b, c) => Instruction::Xor(*a, *b, *c),
            Instruction::Xori(a, b, c) => Instruction::Xori(*a, *b, c.clone()),
            Instruction::Sll(a, b, c) => Instruction::Sll(*a, *b, *c),
            Instruction::Srl(a, b, c) => Instruction::Srl(*a, *b, *c),
            Instruction::LiP(a, b) => Instruction::LiP(*a, b.clone()),
            Instruction::Lw(a, b) => Instruction::Lw(*a, b.clone()),
            Instruction::Ld(a, b) => Instruction::Ld(*a, b.clone()),
            Instruction::LaP(a, b) => Instruction::LaP(*a, b.clone()),
            Instruction::Sw(a, b) => Instruction::Sw(*a, b.clone()),
            Instruction::Sd(a, b) => Instruction::Sd(*a, b.clone()),
            Instruction::JP(a) => Instruction::JP(a.clone()),
            Instruction::Jal(a, b) => Instruction::Jal(*a, b.clone()),
            Instruction::Jalr(a, b) => Instruction::Jalr(*a, b.clone()),
            Instruction::CallP(a) => Instruction::CallP(a.clone()),
            Instruction::RetP => Instruction::RetP,
            Instruction::Beq(a, b, c) => Instruction::Beq(*a, *b, c.clone()),
            Instruction::BeqzP(a, b) => Instruction::BeqzP(*a, b.clone()),
            Instruction::Bne(a, b, c) => Instruction::Bne(*a, *b, c.clone()),
            Instruction::BnezP(a, b) => Instruction::BnezP(*a, b.clone()),
            Instruction::Sltu(a, b, c) => Instruction::Sltu(*a, *b, *c),
            Instruction::Sltiu(a, b, c) => Instruction::Sltiu(*a, *b, c.clone()),
            Instruction::SeqzP(a, b) => Instruction::SeqzP(*a, *b),
            Instruction::SnezP(a, b) => Instruction::SnezP(*a, *b),
            Instruction::SeqP(a, b, c) => Instruction::SeqP(*a, *b, *c),
            Instruction::MvP(a, b) => Instruction::MvP(*a, *b),
            Instruction::PushP(a) => Instruction::PushP(*a),
            Instruction::PopP(a) => Instruction::PopP(*a),
            Instruction::Ebreak => Instruction::Ebreak,
        }
    }
}

/// A mnemonic followed by one operand.
fn write_1(mnemonic: &str, a: &str) -> (text: String)
    ensures
        text@ == text_1(mnemonic@, a@),
{
    let text = String::from_str(mnemonic).concat(" ").concat(a);
    assert(text@ =~= text_1(mnemonic@, a@));
    text
}

/// A mnemonic followed by two operands.
fn write_2(mnemonic: &str, a: &str, b: &str) -> (text: String)
    ensures
        text@ == text_2(mnemonic@, a@, b@),
{
    let text = String::from_str(mnemonic).concat(" ").concat(a).concat(", ").concat(b);
    assert(text@ =~= text_2(mnemonic@, a@, b@));
    text
}

/// A mnemonic followed by three operands.
fn write_3(mnemonic: &str, a: &str, b: &str, c: &str) -> (text: String)
    ensures
        text@ == text_3(mnemonic@, a@, b@, c@),
{
    let text = String::from_str(mnemonic).concat(" ").concat(a).concat(", ").concat(b).concat(
        ", ",
    ).concat(c);
    assert(text@ =~= text_3(mnemonic@, a@, b@, c@));
    text
}

/// Two lines of assembly text, one below the other.
fn two_lines(first: String, second: String) -> (text: String)
    ensures
        text@ == first@ + "\n"@ + second@,
{
    first.concat("\n").concat(second.as_str())
}

impl Instruction {
    /// The instruction's assembly text.
    pub fn to_string(&self) -> (text: String)
        ensures
            text@ == instruction_text(self@),
    {
        match self {
            Instruction::Comment(a) => String::from_str("# ").concat(a.as_str()),
            Instruction::Label(a) => a.clone().concat(":"),
            Instruction::Symbol(a) => String::from_str(".").concat(a.as_str()),
            Instruction::SeqP(a, b, c) => two_lines(
                write_3("xor", a.name(), b.name(), c.name()),
                write_2("seqz", a.name(), a.name()),
            ),
            Instruction::PushP(a) => two_lines(
                write_3(
                    "addi",
                    Register::Sp.name(),
                    Register::Sp.name(),
                    Immediate::Number(-16).to_string().as_str(),
                ),
                write_2(
                    "sw",
                    a.name(),
                    RegisterWithOffset::at(0, Register::Sp).to_string().as_str(),
                ),
            ),
            Instruction::PopP(a) => two_lines(
                write_2(
                    "lw",
                    a.name(),
                    RegisterWithOffset::at(0, Register::Sp).to_string().as_str(),
                ),
                write_3(
                    "addi",
                    Register::Sp.name(),
                    Register::Sp.name(),
                    Immediate::Number(16).to_string().as_str(),
                ),
            ),
            Instruction::Add(a, b, c) => write_3("add", a.name(), b.name(), c.name()),
            Instruction::Addi(
                a,
                b,
                c,
            ) => write_3("addi", a.name(), b.name(), c.to_string().as_str()),
            Instruction::Neg(a, b) => write_2("neg", a.name(), b.name()),
            Instruction::Sub(a, b, c) => write_3("sub", a.name(), b.name(), c.name()),
            Instruction::Mul(a, b, c) => write_3("mul", a.name(), b.name(), c.name()),
            Instruction::Div(a, b, c) => write_3("div", a.name(), b.name(), c.name()),
            Instruction::Rem(a, b, c) => write_3("rem", a.name(), b.name(), c.name()),
            Instruction::And(a, b, c) => write_3("and", a.name(), b.name(), c.name()),
            Instruction::NotP(a, b) => write_2("not", a.name(), b.name()),
            Instruction::Or(a, b, c) => write_3("or", a.name(), b.name(), c.name()),
            Instruction::Xor(a, b, c) => write_3("xor", a.name(), b.name(), c.name()),
            Instruction::Xori(
                a,
                b,
                c,
            ) => write_3("xori", a.name(), b.name(), c.to_string().as_str()),
            Instruction::Sll(a, b, c) => write_3("sll", a.name(), b.name(), c.name()),
            Instruction::Srl(a, b, c) => write_3("srl", a.name(), b.name(), c.name()),
            Instruction::LiP(a, b) => write_2("li", a.name(), b.to_string().as_str()),
            Instruction::Lw(a, b) => write_2("lw", a.name(), b.to_string().as_str()),
            Instruction::Ld(a, b) => write_2("ld", a.name(), b.to_string().as_str()),
            Instruction::LaP(a, b) => write_2("la", a.name(), b.to_string().as_str()),
            Instruction::Sw(a, b) => write_2("sw", a.name(), b.to_string().as_str()),
            Instruction::Sd(a, b) => write_2("sd", a.name(), b.to_string().as_str()),
            Instruction::JP(a) => write_1("j", a.to_string().as_str()),
            Instruction::Jal(a, b) => write_2("jal", a.name(), b.to_string().as_str()),
            Instruction::Jalr(a, b) => write_2("jalr", a.name(), b.to_string().as_str()),
            Instruction::CallP(a) => write_1("call", a.to_string().as_str()),
            Instruction::RetP => String::from_str("ret"),
            Instruction::Beq(a, b, c) => write_3("beq", a.name(), b.name(), c.to_string().as_str()),
            Instruction::BeqzP(a, b) => write_2("beqz", a.name(), b.to_string().as_str()),
            Instruction::Bne(a, b, c) => write_3("bne", a.name(), b.name(), c.to_string().as_str()),
            Instruction::BnezP(a, b) => write_2("bnez", a.name(), b.to_string().as_str()),
            Instruction::Sltu(a, b, c) => write_3("sltu", a.name(), b.name(), c.name()),
            Instruction::Sltiu(
                a,
                b,
                c,
            ) => write_3("sltiu", a.name(), b.name(), c.to_string().as_str()),
            Instruction::SeqzP(a, b) => write_2("seqz", a.name(), b.name()),
            Instruction::SnezP(a, b) => write_2("snez", a.name(), b.name()),
            Instruction::MvP(a, b) => write_2("mv", a.name(), b.name()),
            Instruction::Ebreak => String::from_str("ebreak"),
        }
    }

    /// Appends the instruction's assembly text to `text`.
    pub fn write_to(&self, text: String) -> (longer: String)
        ensures
            longer@ == text@ + instruction_text(self@),
    {
        text.concat(self.to_string().as_str())
    }

    /// The register that the instruction writes, if it writes one.
    pub fn get_destination_register(&self) -> (register: Option<Register>)
        ensures
            register == destination(self@),
    {
        match self {
            Instruction::Comment(_)
            | Instruction::Label(_)
            | Instruction::Symbol(_)
            | Instruction::Sw(_, _)
            | Instruction::Sd(_, _)
            | Instruction::JP(_)
            | Instruction::CallP(_)
            | Instruction::RetP
            | Instruction::Beq(_, _, _)
            | Instruction::BeqzP(_, _)
            | Instruction::Bne(_, _, _)
            | Instruction::BnezP(_, _)
            | Instruction::PushP(_)
            | Instruction::Ebreak => None,
            Instruction::Add(rd, _, _)
            | Instruction::Addi(rd, _, _)
            | Instruction::Neg(rd, _)
            | Instruction::Sub(rd, _, _)
            | Instruction::Mul(rd, _, _)
            | Instruction::Div(rd, _, _)
            | Instruction::Rem(rd, _, _)
            | Instruction::And(rd, _, _)
            | Instruction::NotP(rd, _)
            | Instruction::Or(rd, _, _)
            | Instruction::Xor(rd, _, _)
            | Instruction::Xori(rd, _, _)
            | Instruction::Sll(rd, _, _)
            | Instruction::Srl(rd, _, _)
            | Instruction::LiP(rd, _)
            | Instruction::Lw(rd, _)
            | Instruction::Ld(rd, _)
            | Instruction::LaP(rd, _)
            | Instruction::Jal(rd, _)
            | Instruction::Jalr(rd, _)
            | Instruction::Sltu(rd, _, _)
            | Instruction::Sltiu(rd, _, _)
            | Instruction::SeqzP(rd, _)
            | Instruction::SnezP(rd, _)
            | Instruction::SeqP(rd, _, _)
            | Instruction::MvP(rd, _)
            | Instruction::PopP(rd) => Some(*rd),
        }
    }

    /// Replaces the register that the instruction writes. An instruction that
    /// writes no register stays as it is.
    pub fn set_destination_register(&mut self, register: Register)
        ensures
            final(self)@ == with_destination(old(self)@, register),
    {
        match self {
            Instruction::Comment(_)
            | Instruction::Label(_)
            | Instruction::Symbol(_)
            | Instruction::Sw(_, _)
            | Instruction::Sd(_, _)
            | Instruction::JP(_)
            | Instruction::CallP(_)
            | Instruction::RetP
            | Instruction::Beq(_, _, _)
            | Instruction::BeqzP(_, _)
            | Instruction::Bne(_, _, _)
            | Instruction::BnezP(_, _)
            | Instruction::PushP(_)
            | Instruction::Ebreak => (),
            Instruction::Add(rd, _, _) => {
                *rd = register;
            },
            Instruction::Addi(rd, _, _) => {
                *rd = register;
            },
            Instruction::Neg(rd, _) => {
                *rd = register;
            },
            Instruction::Sub(rd, _, _) => {
                *rd = register;
            },
            Instruction::Mul(rd, _, _) => {
                *rd = register;
            },
            Instruction::Div(rd, _, _) => {
                *rd = register;
            },
            Instruction::Rem(rd, _, _) => {
                *rd = register;
            },
            Instruction::And(rd, _, _) => {
                *rd = register;
            },
            Instruction::NotP(rd, _) => {
                *rd = register;
            },
            Instruction::Or(rd, _, _) => {
                *rd = register;
            },
            Instruction::Xor(rd, _, _) => {
                *rd = register;
            },
            Instruction::Xori(rd, _, _) => {
                *rd = register;
            },
            Instruction::Sll(rd, _, _) => {
                *rd = register;
            },
            Instruction::Srl(rd, _, _) => {
                *rd = register;
            },
            Instruction::LiP(rd, _) => {
                *rd = register;
            },
            Instruction::Lw(rd, _) => {
                *rd = register;
            },
            Instruction::Ld(rd, _) => {
                *rd = register;
            },
            Instruction::LaP(rd, _) => {
                *rd = register;
            },
            Instruction::Jal(rd, _) => {
                *rd = register;
            },
            Instruction::Jalr(rd, _) => {
                *rd = register;
            },
            Instruction::Sltu(rd, _, _) => {
                *rd = register;
            },
            Instruction::Sltiu(rd, _, _) => {
                *rd = register;
            },
            Instruction::SeqzP(rd, _) => {
                *rd = register;
            },
            Instruction::SnezP(rd, _) => {
                *rd = register;
            },
            Instruction::SeqP(rd, _, _) => {
                *rd = register;
            },
            Instruction::MvP(rd, _) => {
                *rd = register;
            },
            Instruction::PopP(rd) => {
                *rd = register;
            },
        }
    }

    /// Whether the instruction may continue somewhere else than at the next
    /// line.
    pub fn does_jump(&self) -> (jump: bool)
        ensures
            jump == jumps(self@),
    {
        match self {
            Instruction::JP(_)
            | Instruction::Jal(_, _)
            | Instruction::Jalr(_, _)
            | Instruction::CallP(_)
            | Instruction::RetP
            | Instruction::Beq(_, _, _)
            | Instruction::BeqzP(_, _)
            | Instruction::Bne(_, _, _)
            | Instruction::BnezP(_, _) => true,
            _ => false,
        }
    }

    /// The simpler instructions that do what this one does.
    pub fn convert_to_equivalent(&self) -> (simpler: Vec<Instruction>)
        ensures
            instructions_model(simpler@) == equivalent(self@),
    {
        let simpler = match self {
            Instruction::Addi(rd, rs1, imm) => {
                if *rs1 == Register::Zero {
                    vec![Instruction::LiP(*rd, imm.clone())]
                } else if imm.is_zero() {
                    convert_move(*rd, *rs1)
                } else {
                    vec![self.clone()]
                }
            },
            Instruction::Add(rd, rs1, rs2) => {
                if *rs1 == Register::Zero {
                    convert_move(*rd, *rs2)
                } else if *rs2 == Register::Zero {
                    convert_move(*rd, *rs1)
                } else {
                    vec![self.clone()]
                }
            },
            Instruction::MvP(rd, rs) => convert_move(*rd, *rs),
            _ => vec![self.clone()],
        };
        assert(instructions_model(simpler@) =~= equivalent(self@));
        simpler
    }
}

/// The move of `source` into `target`, or nothing if they are one register.
fn convert_move(target: Register, source: Register) -> (simpler: Vec<Instruction>)
    ensures
        instructions_model(simpler@) == move_or_nothing(target, source),
{
    let simpler = if target == source {
        Vec::new()
    } else {
        vec![Instruction::MvP(target, source)]
    };
    assert(instructions_model(simpler@) =~= move_or_nothing(target, source));
    simpler
}

} // verus!

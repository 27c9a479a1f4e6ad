//! Registers and operands.
use vstd::prelude::*;
use vstd::string::*;
use crate::utils::text::{decimal, push_decimal};

verus! {

/// The integer registers of the machine.
#[derive(Debug, Clone, Copy, PartialEq, Eq, Hash, Structural)]
pub enum Register {
    Zero,
    Ra,
    Sp,
    Gp,
    Tp,
    T0,
    T1,
    T2,
    Fp,
    S1,
    A0,
    A1,
    A2,
    A3,
    A4,
    A5,
    A6,
    A7,
    S2,
    S3,
    S4,
    S5,
    S6,
    S7,
    S8,
    S9,
    S10,
    S11,
    T3,
    T4,
    T5,
    T6,
}

/// The name under which the calling convention knows a register. The frame
/// pointer is written `s0`.
pub open spec fn register_name(register: Register) -> Seq<char> {
    match register {
        Register::Zero => "zero"@,
        Register::Ra => "ra"@,
        Register::Sp => "sp"@,
        Register::Gp => "gp"@,
        Register::Tp => "tp"@,
        Register::T0 => "t0"@,
        Register::T1 => "t1"@,
        Register::T2 => "t2"@,
        Register::Fp => "s0"@,
        Register::S1 => "s1"@,
        Register::A0 => "a0"@,
        Register::A1 => "a1"@,
        Register::A2 => "a2"@,
        Register::A3 => "a3"@,
        Register::A4 => "a4"@,
        Register::A5 => "a5"@,
        Register::A6 => "a6"@,
        Register::A7 => "a7"@,
        Register::S2 => "s2"@,
        Register::S3 => "s3"@,
        Register::S4 => "s4"@,
        Register::S5 => "s5"@,
        Register::S6 => "s6"@,
        Register::S7 => "s7"@,
        Register::S8 => "s8"@,
        Register::S9 => "s9"@,
        Register::S10 => "s10"@,
        Register::S11 => "s11"@,
        Register::T3 => "t3"@,
        Register::T4 => "t4"@,
        Register::T5 => "t5"@,
        Register::T6 => "t6"@,
    }
}

/// The register that carries argument number `index` of a call, for the
/// first eight arguments.
pub open spec fn argument_register_spec(index: int) -> Register
    recommends
        0 <= index < 8,
{
    if index == 0 {
        Register::A0
    } else if index == 1 {
        Register::A1
    } else if index == 2 {
        Register::A2
    } else if index == 3 {
        Register::A3
    } else if index == 4 {
        Register::A4
    } else if index == 5 {
        Register::A5
    } else if index == 6 {
        Register::A6
    } else {
        Register::A7
    }
}

impl Register {
    /// The register's name in assembly text.
    pub fn name(&self) -> (text: &'static str)
        ensures
            text@ == register_name(*self),
    {
        match self {
            Register::Zero => "zero",
            Register::Ra => "ra",
            Register::Sp => "sp",
            Register::Gp => "gp",
            Register::Tp => "tp",
            Register::T0 => "t0",
            Register::T1 => "t1",
            Register::T2 => "t2",
            Register::Fp => "s0",
            Register::S1 => "s1",
            Register::A0 => "a0",
            Register::A1 => "a1",
            Register::A2 => "a2",
            Register::A3 => "a3",
            Register::A4 => "a4",
            Register::A5 => "a5",
            Register::A6 => "a6",
            Register::A7 => "a7",
            Register::S2 => "s2",
            Register::S3 => "s3",
            Register::S4 => "s4",
            Register::S5 => "s5",
            Register::S6 => "s6",
            Register::S7 => "s7",
            Register::S8 => "s8",
            Register::S9 => "s9",
            Register::S10 => "s10",
            Register::S11 => "s11",
            Register::T3 => "t3",
            Register::T4 => "t4",
            Register::T5 => "t5",
            Register::T6 => "t6",
        }
    }

    /// The register's name in assembly text, as an owned string.
    pub fn to_string(&self) -> (text: String)
        ensures
            text@ == register_name(*self),
    {
        String::from_str(self.name())
    }

    /// The register that carries argument number `index` of a call.
    pub fn argument(index: usize) -> (register: Register)
        requires
            index < 8,
        ensures
            register == argument_register_spec(index as int),
    {
        if index == 0 {
            Register::A0
        } else if index == 1 {
            Register::A1
        } else if index == 2 {
            Register::A2
        } else if index == 3 {
            Register::A3
        } else if index == 4 {
            Register::A4
        } else if index == 5 {
            Register::A5
        } else if index == 6 {
            Register::A6
        } else {
            Register::A7
        }
    }
}

/// An immediate operand: a number or the name of a label.
#[derive(Debug, PartialEq, Eq)]
pub enum Immediate {
    Label(String),
    Number(i32),
}

/// What an immediate operand stands for.
pub enum ImmediateModel {
    Label(Seq<char>),
    Number(i32),
}

impl View for Immediate {
    type V = ImmediateModel;

    open spec fn view(&self) -> ImmediateModel {
        match self {
            Immediate::Label(label) => ImmediateModel::Label(label@),
            Immediate::Number(number) => ImmediateModel::Number(*number),
        }
    }
}

/// The immediate operand that is the number `value`.
pub open spec fn number(value: int) -> ImmediateModel {
    ImmediateModel::Number(value as i32)
}

/// The assembly text of an immediate operand.
pub open spec fn immediate_text(immediate: ImmediateModel) -> Seq<char> {
    match immediate {
        ImmediateModel::Label(label) => label,
        ImmediateModel::Number(number) => decimal(number as int),
    }
}

impl Clone for Immediate {
    fn clone(&self) -> (copy: Self)
        ensures
            copy == *self,
    {
        match self {
            Immediate::Label(label) => Immediate::Label(label.clone()),
            Immediate::Number(number) => Immediate::Number(*number),
        }
    }
}

impl Immediate {
    /// A label operand with the given name.
    pub fn label(name: &str) -> (immediate: Immediate)
        ensures
            immediate@ == ImmediateModel::Label(name@),
    {
        Immediate::Label(String::from_str(name))
    }

    /// Whether the operand is the number zero.
    pub fn is_zero(&self) -> (zero: bool)
        ensures
            zero == (self@ == ImmediateModel::Number(0)),
    {
        match self {
            Immediate::Label(_) => false,
            Immediate::Number(number) => *number == 0,
        }
    }

    /// Appends the operand's assembly text to `text`.
    pub fn write_to(&self, text: String) -> (longer: String)
        ensures
            longer@ == text@ + immediate_text(self@),
    {
        match self {
            Immediate::Label(label) => text.concat(label.as_str()),
            Immediate::Number(number) => push_decimal(text, *number),
        }
    }

    /// The operand's assembly text.
    pub fn to_string(&self) -> (text: String)
        ensures
            text@ == immediate_text(self@),
    {
        let text = self.write_to(String::new());
        assert(text@ =~= immediate_text(self@));
        text
    }
}

impl From<i32> for Immediate {
    fn from(number: i32) -> (immediate: Immediate) {
        Immediate::Number(number)
    }
}

impl vstd::std_specs::convert::FromSpecImpl<i32> for Immediate {
    open spec fn obeys_from_spec() -> bool {
        true
    }

    open spec fn from_spec(number: i32) -> Immediate {
        Immediate::Number(number)
    }
}

/// A memory operand: the address in a base register plus an offset.
#[derive(Debug, PartialEq, Eq)]
pub struct RegisterWithOffset(pub Immediate, pub Register);

/// What a memory operand stands for.
pub struct RegisterWithOffsetModel {
    pub offset: ImmediateModel,
    pub base: Register,
}

impl View for RegisterWithOffset {
    type V = RegisterWithOffsetModel;

    open spec fn view(&self) -> RegisterWithOffsetModel {
        RegisterWithOffsetModel { offset: self.0@, base: self.1 }
    }
}

/// The memory operand at `offset` bytes from `base`.
pub open spec fn at_offset(offset: int, base: Register) -> RegisterWithOffsetModel {
    RegisterWithOffsetModel { offset: number(offset), base }
}

/// The assembly text of a memory operand: the offset, then the base register
/// in parentheses.
pub open spec fn register_with_offset_text(operand: RegisterWithOffsetModel) -> Seq<char> {
    immediate_text(operand.offset) + "("@ + register_name(operand.base) + ")"@
}

impl Clone for RegisterWithOffset {
    fn clone(&self) -> (copy: Self)
        ensures
            copy == *self,
    {
        RegisterWithOffset(self.0.clone(), self.1)
    }
}

impl RegisterWithOffset {
    /// The memory operand at `offset` bytes from `base`.
    pub fn at(offset: i32, base: Register) -> (operand: RegisterWithOffset)
        ensures
            operand@ == at_offset(offset as int, base),
    {
        RegisterWithOffset(Immediate::Number(offset), base)
    }

    /// Appends the operand's assembly text to `text`.
    pub fn write_to(&self, text: String) -> (longer: String)
        ensures
            longer@ == text@ + register_with_offset_text(self@),
    {
        let longer = self.0.write_to(text).concat("(").concat(self.1.name()).concat(")");
        assert(longer@ =~= text@ + register_with_offset_text(self@));
        longer
    }

    /// The operand's assembly text.
    pub fn to_string(&self) -> (text: String)
        ensures
            text@ == register_with_offset_text(self@),
    {
        let text = self.write_to(String::new());
        assert(text@ =~= register_with_offset_text(self@));
        text
    }
}

} // verus!

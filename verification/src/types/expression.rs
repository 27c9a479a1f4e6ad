//! Expressions.
use std::sync::Arc;
use vstd::prelude::*;
use crate::utils::shared::share;

verus! {

/// An expression of the source language. Operands are shared handles: an
/// expression is never changed once it is built.
#[derive(Debug, PartialEq, Eq)]
pub enum Expression {
    Number(i32),
    UnaryOp(UnaryOp),
    BinaryOp(BinaryOp),
    TernaryOp(TernaryOp),
    Variable(String),
    FunctionSymbol(String),
    Call(Call),
}

/// An operator with one operand. `Nothing` leaves its operand as it is: it
/// stands where `&` or `*` is applied to a function.
#[derive(Debug, PartialEq, Eq)]
pub enum UnaryOp {
    Nothing(Arc<Expression>),
    Plus(Arc<Expression>),
    Negation(Arc<Expression>),
    BitwiseNot(Arc<Expression>),
    LogicalNot(Arc<Expression>),
    PostfixIncrement(Arc<Expression>),
    PostfixDecrement(Arc<Expression>),
    PrefixIncrement(Arc<Expression>),
    PrefixDecrement(Arc<Expression>),
    Ref(Arc<Expression>),
    Deref(Arc<Expression>),
}

/// An operator with two operands, the left one first.
#[derive(Debug, PartialEq, Eq)]
pub enum BinaryOp {
    Addition(Arc<Expression>, Arc<Expression>),
    Subtraction(Arc<Expression>, Arc<Expression>),
    Multiplication(Arc<Expression>, Arc<Expression>),
    Division(Arc<Expression>, Arc<Expression>),
    Modulus(Arc<Expression>, Arc<Expression>),
    BitwiseAnd(Arc<Expression>, Arc<Expression>),
    BitwiseXor(Arc<Expression>, Arc<Expression>),
    BitwiseOr(Arc<Expression>, Arc<Expression>),
    LeftShift(Arc<Expression>, Arc<Expression>),
    RightShift(Arc<Expression>, Arc<Expression>),
    LogicalAnd(Arc<Expression>, Arc<Expression>),
    LogicalOr(Arc<Expression>, Arc<Expression>),
    LessThan(Arc<Expression>, Arc<Expression>),
    GreaterThan(Arc<Expression>, Arc<Expression>),
    LessThanEquals(Arc<Expression>, Arc<Expression>),
    GreaterThanEquals(Arc<Expression>, Arc<Expression>),
    Equals(Arc<Expression>, Arc<Expression>),
    NotEquals(Arc<Expression>, Arc<Expression>),
    Assignment(Arc<Expression>, Arc<Expression>),
    AssignmentAddition(Arc<Expression>, Arc<Expression>),
    AssignmentSubtraction(Arc<Expression>, Arc<Expression>),
    AssignmentMultiplication(Arc<Expression>, Arc<Expression>),
    AssignmentDivision(Arc<Expression>, Arc<Expression>),
    AssignmentModulus(Arc<Expression>, Arc<Expression>),
    AssignmentShiftLeft(Arc<Expression>, Arc<Expression>),
    AssignmentShiftRight(Arc<Expression>, Arc<Expression>),
    AssignmentBitwiseAnd(Arc<Expression>, Arc<Expression>),
    AssignmentBitwiseXor(Arc<Expression>, Arc<Expression>),
    AssignmentBitwiseOr(Arc<Expression>, Arc<Expression>),
    Comma(Arc<Expression>, Arc<Expression>),
}

/// The conditional operator.
#[derive(Debug, PartialEq, Eq)]
pub struct TernaryOp {
    pub condition: Arc<Expression>,
    pub then_expr: Arc<Expression>,
    pub else_expr: Arc<Expression>,
}

/// A call of the value of `expression` with `arguments`.
#[derive(Debug, PartialEq, Eq)]
pub struct Call {
    pub expression: Arc<Expression>,
    pub arguments: Vec<Expression>,
}

/// Which operator a `UnaryOp` is.
#[derive(Debug, Clone, Copy, PartialEq, Eq, Structural)]
pub enum UnaryKind {
    Nothing,
    Plus,
    Negation,
    BitwiseNot,
    LogicalNot,
    PostfixIncrement,
    PostfixDecrement,
    PrefixIncrement,
    PrefixDecrement,
    Ref,
    Deref,
}

/// Which operator a `BinaryOp` is.
#[derive(Debug, Clone, Copy, PartialEq, Eq, Structural)]
pub enum BinaryKind {
    Addition,
    Subtraction,
    Multiplication,
    Division,
    Modulus,
    BitwiseAnd,
    BitwiseXor,
    BitwiseOr,
    LeftShift,
    RightShift,
    LogicalAnd,
    LogicalOr,
    LessThan,
    GreaterThan,
    LessThanEquals,
    GreaterThanEquals,
    Equals,
    NotEquals,
    Assignment,
    AssignmentAddition,
    AssignmentSubtraction,
    AssignmentMultiplication,
    AssignmentDivision,
    AssignmentModulus,
    AssignmentShiftLeft,
    AssignmentShiftRight,
    AssignmentBitwiseAnd,
    AssignmentBitwiseXor,
    AssignmentBitwiseOr,
    Comma,
}

/// What an expression stands for: a tree of operators over numbers and names.
pub enum ExpressionModel {
    Number(i32),
    Variable(Seq<char>),
    FunctionSymbol(Seq<char>),
    Unary(UnaryKind, Box<ExpressionModel>),
    Binary(BinaryKind, Box<ExpressionModel>, Box<ExpressionModel>),
    Ternary(Box<ExpressionModel>, Box<ExpressionModel>, Box<ExpressionModel>),
    Call(Box<ExpressionModel>, Seq<ExpressionModel>),
}

impl UnaryOp {
    /// Which operator this is.
    pub open spec fn spec_kind(self) -> UnaryKind {
        match self {
            UnaryOp::Nothing(_) => UnaryKind::Nothing,
            UnaryOp::Plus(_) => UnaryKind::Plus,
            UnaryOp::Negation(_) => UnaryKind::Negation,
            UnaryOp::BitwiseNot(_) => UnaryKind::BitwiseNot,
            UnaryOp::LogicalNot(_) => UnaryKind::LogicalNot,
            UnaryOp::PostfixIncrement(_) => UnaryKind::PostfixIncrement,
            UnaryOp::PostfixDecrement(_) => UnaryKind::PostfixDecrement,
            UnaryOp::PrefixIncrement(_) => UnaryKind::PrefixIncrement,
            UnaryOp::PrefixDecrement(_) => UnaryKind::PrefixDecrement,
            UnaryOp::Ref(_) => UnaryKind::Ref,
            UnaryOp::Deref(_) => UnaryKind::Deref,
        }
    }

    /// The operand.
    pub open spec fn spec_operand(self) -> Arc<Expression> {
        match self {
            UnaryOp::Nothing(e) => e,
            UnaryOp::Plus(e) => e,
            UnaryOp::Negation(e) => e,
            UnaryOp::BitwiseNot(e) => e,
            UnaryOp::LogicalNot(e) => e,
            UnaryOp::PostfixIncrement(e) => e,
            UnaryOp::PostfixDecrement(e) => e,
            UnaryOp::PrefixIncrement(e) => e,
            UnaryOp::PrefixDecrement(e) => e,
            UnaryOp::Ref(e) => e,
            UnaryOp::Deref(e) => e,
        }
    }

    /// Which operator this is.
    pub fn kind(&self) -> (kind: UnaryKind)
        ensures
            kind == self.spec_kind(),
    {
        match self {
            UnaryOp::Nothing(_) => UnaryKind::Nothing,
            UnaryOp::Plus(_) => UnaryKind::Plus,
            UnaryOp::Negation(_) => UnaryKind::Negation,
            UnaryOp::BitwiseNot(_) => UnaryKind::BitwiseNot,
            UnaryOp::LogicalNot(_) => UnaryKind::LogicalNot,
            UnaryOp::PostfixIncrement(_) => UnaryKind::PostfixIncrement,
            UnaryOp::PostfixDecrement(_) => UnaryKind::PostfixDecrement,
            UnaryOp::PrefixIncrement(_) => UnaryKind::PrefixIncrement,
            UnaryOp::PrefixDecrement(_) => UnaryKind::PrefixDecrement,
            UnaryOp::Ref(_) => UnaryKind::Ref,
            UnaryOp::Deref(_) => UnaryKind::Deref,
        }
    }

    /// The operand.
    pub fn operand(&self) -> (operand: &Arc<Expression>)
        ensures
            *operand == self.spec_operand(),
    {
        match self {
            UnaryOp::Nothing(e) => e,
            UnaryOp::Plus(e) => e,
            UnaryOp::Negation(e) => e,
            UnaryOp::BitwiseNot(e) => e,
            UnaryOp::LogicalNot(e) => e,
            UnaryOp::PostfixIncrement(e) => e,
            UnaryOp::PostfixDecrement(e) => e,
            UnaryOp::PrefixIncrement(e) => e,
            UnaryOp::PrefixDecrement(e) => e,
            UnaryOp::Ref(e) => e,
            UnaryOp::Deref(e) => e,
        }
    }

    /// The operator `kind` applied to `operand`.
    pub fn new(kind: UnaryKind, operand: Arc<Expression>) -> (op: UnaryOp)
        ensures
            op.spec_kind() == kind,
            op.spec_operand() == operand,
    {
        match kind {
            UnaryKind::Nothing => UnaryOp::Nothing(operand),
            UnaryKind::Plus => UnaryOp::Plus(operand),
            UnaryKind::Negation => UnaryOp::Negation(operand),
            UnaryKind::BitwiseNot => UnaryOp::BitwiseNot(operand),
            UnaryKind::LogicalNot => UnaryOp::LogicalNot(operand),
            UnaryKind::PostfixIncrement => UnaryOp::PostfixIncrement(operand),
            UnaryKind::PostfixDecrement => UnaryOp::PostfixDecrement(operand),
            UnaryKind::PrefixIncrement => UnaryOp::PrefixIncrement(operand),
            UnaryKind::PrefixDecrement => UnaryOp::PrefixDecrement(operand),
            UnaryKind::Ref => UnaryOp::Ref(operand),
            UnaryKind::Deref => UnaryOp::Deref(operand),
        }
    }
}

impl BinaryOp {
    /// Which operator this is.
    pub open spec fn spec_kind(self) -> BinaryKind {
        match self {
            BinaryOp::Addition(_, _) => BinaryKind::Addition,
            BinaryOp::Subtraction(_, _) => BinaryKind::Subtraction,
            BinaryOp::Multiplication(_, _) => BinaryKind::Multiplication,
            BinaryOp::Division(_, _) => BinaryKind::Division,
            BinaryOp::Modulus(_, _) => BinaryKind::Modulus,
            BinaryOp::BitwiseAnd(_, _) => BinaryKind::BitwiseAnd,
            BinaryOp::BitwiseXor(_, _) => BinaryKind::BitwiseXor,
            BinaryOp::BitwiseOr(_, _) => BinaryKind::BitwiseOr,
            BinaryOp::LeftShift(_, _) => BinaryKind::LeftShift,
            BinaryOp::RightShift(_, _) => BinaryKind::RightShift,
            BinaryOp::LogicalAnd(_, _) => BinaryKind::LogicalAnd,
            BinaryOp::LogicalOr(_, _) => BinaryKind::LogicalOr,
            BinaryOp::LessThan(_, _) => BinaryKind::LessThan,
            BinaryOp::GreaterThan(_, _) => BinaryKind::GreaterThan,
            BinaryOp::LessThanEquals(_, _) => BinaryKind::LessThanEquals,
            BinaryOp::GreaterThanEquals(_, _) => BinaryKind::GreaterThanEquals,
            BinaryOp::Equals(_, _) => BinaryKind::Equals,
            BinaryOp::NotEquals(_, _) => BinaryKind::NotEquals,
            BinaryOp::Assignment(_, _) => BinaryKind::Assignment,
            BinaryOp::AssignmentAddition(_, _) => BinaryKind::AssignmentAddition,
            BinaryOp::AssignmentSubtraction(_, _) => BinaryKind::AssignmentSubtraction,
            BinaryOp::AssignmentMultiplication(_, _) => BinaryKind::AssignmentMultiplication,
            BinaryOp::AssignmentDivision(_, _) => BinaryKind::AssignmentDivision,
            BinaryOp::AssignmentModulus(_, _) => BinaryKind::AssignmentModulus,
            BinaryOp::AssignmentShiftLeft(_, _) => BinaryKind::AssignmentShiftLeft,
            BinaryOp::AssignmentShiftRight(_, _) => BinaryKind::AssignmentShiftRight,
            BinaryOp::AssignmentBitwiseAnd(_, _) => BinaryKind::AssignmentBitwiseAnd,
            BinaryOp::AssignmentBitwiseXor(_, _) => BinaryKind::AssignmentBitwiseXor,
            BinaryOp::AssignmentBitwiseOr(_, _) => BinaryKind::AssignmentBitwiseOr,
            BinaryOp::Comma(_, _) => BinaryKind::Comma,
        }
    }

    /// The left operand.
    pub open spec fn spec_lhs(self) -> Arc<Expression> {
        match self {
            BinaryOp::Addition(l, _) => l,
            BinaryOp::Subtraction(l, _) => l,
            BinaryOp::Multiplication(l, _) => l,
            BinaryOp::Division(l, _) => l,
            BinaryOp::Modulus(l, _) => l,
            BinaryOp::BitwiseAnd(l, _) => l,
            BinaryOp::BitwiseXor(l, _) => l,
            BinaryOp::BitwiseOr(l, _) => l,
            BinaryOp::LeftShift(l, _) => l,
            BinaryOp::RightShift(l, _) => l,
            BinaryOp::LogicalAnd(l, _) => l,
            BinaryOp::LogicalOr(l, _) => l,
            BinaryOp::LessThan(l, _) => l,
            BinaryOp::GreaterThan(l, _) => l,
            BinaryOp::LessThanEquals(l, _) => l,
            BinaryOp::GreaterThanEquals(l, _) => l,
            BinaryOp::Equals(l, _) => l,
            BinaryOp::NotEquals(l, _) => l,
            BinaryOp::Assignment(l, _) => l,
            BinaryOp::AssignmentAddition(l, _) => l,
            BinaryOp::AssignmentSubtraction(l, _) => l,
            BinaryOp::AssignmentMultiplication(l, _) => l,
            BinaryOp::AssignmentDivision(l, _) => l,
            BinaryOp::AssignmentModulus(l, _) => l,
            BinaryOp::AssignmentShiftLeft(l, _) => l,
            BinaryOp::AssignmentShiftRight(l, _) => l,
            BinaryOp::AssignmentBitwiseAnd(l, _) => l,
            BinaryOp::AssignmentBitwiseXor(l, _) => l,
            BinaryOp::AssignmentBitwiseOr(l, _) => l,
            BinaryOp::Comma(l, _) => l,
        }
    }

    /// The right operand.
    pub open spec fn spec_rhs(self) -> Arc<Expression> {
        match self {
            BinaryOp::Addition(_, r) => r,
            BinaryOp::Subtraction(_, r) => r,
            BinaryOp::Multiplication(_, r) => r,
            BinaryOp::Division(_, r) => r,
            BinaryOp::Modulus(_, r) => r,
            BinaryOp::BitwiseAnd(_, r) => r,
            BinaryOp::BitwiseXor(_, r) => r,
            BinaryOp::BitwiseOr(_, r) => r,
            BinaryOp::LeftShift(_, r) => r,
            BinaryOp::RightShift(_, r) => r,
            BinaryOp::LogicalAnd(_, r) => r,
            BinaryOp::LogicalOr(_, r) => r,
            BinaryOp::LessThan(_, r) => r,
            BinaryOp::GreaterThan(_, r) => r,
            BinaryOp::LessThanEquals(_, r) => r,
            BinaryOp::GreaterThanEquals(_, r) => r,
            BinaryOp::Equals(_, r) => r,
            BinaryOp::NotEquals(_, r) => r,
            BinaryOp::Assignment(_, r) => r,
            BinaryOp::AssignmentAddition(_, r) => r,
            BinaryOp::AssignmentSubtraction(_, r) => r,
            BinaryOp::AssignmentMultiplication(_, r) => r,
            BinaryOp::AssignmentDivision(_, r) => r,
            BinaryOp::AssignmentModulus(_, r) => r,
            BinaryOp::AssignmentShiftLeft(_, r) => r,
            BinaryOp::AssignmentShiftRight(_, r) => r,
            BinaryOp::AssignmentBitwiseAnd(_, r) => r,
            BinaryOp::AssignmentBitwiseXor(_, r) => r,
            BinaryOp::AssignmentBitwiseOr(_, r) => r,
            BinaryOp::Comma(_, r) => r,
        }
    }

    /// Which operator this is.
    pub fn kind(&self) -> (kind: BinaryKind)
        ensures
            kind == self.spec_kind(),
    {
        match self {
            BinaryOp::Addition(_, _) => BinaryKind::Addition,
            BinaryOp::Subtraction(_, _) => BinaryKind::Subtraction,
            BinaryOp::Multiplication(_, _) => BinaryKind::Multiplication,
            BinaryOp::Division(_, _) => BinaryKind::Division,
            BinaryOp::Modulus(_, _) => BinaryKind::Modulus,
            BinaryOp::BitwiseAnd(_, _) => BinaryKind::BitwiseAnd,
            BinaryOp::BitwiseXor(_, _) => BinaryKind::BitwiseXor,
            BinaryOp::BitwiseOr(_, _) => BinaryKind::BitwiseOr,
            BinaryOp::LeftShift(_, _) => BinaryKind::LeftShift,
            BinaryOp::RightShift(_, _) => BinaryKind::RightShift,
            BinaryOp::LogicalAnd(_, _) => BinaryKind::LogicalAnd,
            BinaryOp::LogicalOr(_, _) => BinaryKind::LogicalOr,
            BinaryOp::LessThan(_, _) => BinaryKind::LessThan,
            BinaryOp::GreaterThan(_, _) => BinaryKind::GreaterThan,
            BinaryOp::LessThanEquals(_, _) => BinaryKind::LessThanEquals,
            BinaryOp::GreaterThanEquals(_, _) => BinaryKind::GreaterThanEquals,
            BinaryOp::Equals(_, _) => BinaryKind::Equals,
            BinaryOp::NotEquals(_, _) => BinaryKind::NotEquals,
            BinaryOp::Assignment(_, _) => BinaryKind::Assignment,
            BinaryOp::AssignmentAddition(_, _) => BinaryKind::AssignmentAddition,
            BinaryOp::AssignmentSubtraction(_, _) => BinaryKind::AssignmentSubtraction,
            BinaryOp::AssignmentMultiplication(_, _) => BinaryKind::AssignmentMultiplication,
            BinaryOp::AssignmentDivision(_, _) => BinaryKind::AssignmentDivision,
            BinaryOp::AssignmentModulus(_, _) => BinaryKind::AssignmentModulus,
            BinaryOp::AssignmentShiftLeft(_, _) => BinaryKind::AssignmentShiftLeft,
            BinaryOp::AssignmentShiftRight(_, _) => BinaryKind::AssignmentShiftRight,
            BinaryOp::AssignmentBitwiseAnd(_, _) => BinaryKind::AssignmentBitwiseAnd,
            BinaryOp::AssignmentBitwiseXor(_, _) => BinaryKind::AssignmentBitwiseXor,
            BinaryOp::AssignmentBitwiseOr(_, _) => BinaryKind::AssignmentBitwiseOr,
            BinaryOp::Comma(_, _) => BinaryKind::Comma,
        }
    }

    /// The left operand.
    pub fn lhs(&self) -> (lhs: &Arc<Expression>)
        ensures
            *lhs == self.spec_lhs(),
    {
        match self {
            BinaryOp::Addition(l, _) => l,
            BinaryOp::Subtraction(l, _) => l,
            BinaryOp::Multiplication(l, _) => l,
            BinaryOp::Division(l, _) => l,
            BinaryOp::Modulus(l, _) => l,
            BinaryOp::BitwiseAnd(l, _) => l,
            BinaryOp::BitwiseXor(l, _) => l,
            BinaryOp::BitwiseOr(l, _) => l,
            BinaryOp::LeftShift(l, _) => l,
            BinaryOp::RightShift(l, _) => l,
            BinaryOp::LogicalAnd(l, _) => l,
            BinaryOp::LogicalOr(l, _) => l,
            BinaryOp::LessThan(l, _) => l,
            BinaryOp::GreaterThan(l, _) => l,
            BinaryOp::LessThanEquals(l, _) => l,
            BinaryOp::GreaterThanEquals(l, _) => l,
            BinaryOp::Equals(l, _) => l,
            BinaryOp::NotEquals(l, _) => l,
            BinaryOp::Assignment(l, _) => l,
            BinaryOp::AssignmentAddition(l, _) => l,
            BinaryOp::AssignmentSubtraction(l, _) => l,
            BinaryOp::AssignmentMultiplication(l, _) => l,
            BinaryOp::AssignmentDivision(l, _) => l,
            BinaryOp::AssignmentModulus(l, _) => l,
            BinaryOp::AssignmentShiftLeft(l, _) => l,
            BinaryOp::AssignmentShiftRight(l, _) => l,
            BinaryOp::AssignmentBitwiseAnd(l, _) => l,
            BinaryOp::AssignmentBitwiseXor(l, _) => l,
            BinaryOp::AssignmentBitwiseOr(l, _) => l,
            BinaryOp::Comma(l, _) => l,
        }
    }

    /// The right operand.
    pub fn rhs(&self) -> (rhs: &Arc<Expression>)
        ensures
            *rhs == self.spec_rhs(),
    {
        match self {
            BinaryOp::Addition(_, r) => r,
            BinaryOp::Subtraction(_, r) => r,
            BinaryOp::Multiplication(_, r) => r,
            BinaryOp::Division(_, r) => r,
            BinaryOp::Modulus(_, r) => r,
            BinaryOp::BitwiseAnd(_, r) => r,
            BinaryOp::BitwiseXor(_, r) => r,
            BinaryOp::BitwiseOr(_, r) => r,
            BinaryOp::LeftShift(_, r) => r,
            BinaryOp::RightShift(_, r) => r,
            BinaryOp::LogicalAnd(_, r) => r,
            BinaryOp::LogicalOr(_, r) => r,
            BinaryOp::LessThan(_, r) => r,
            BinaryOp::GreaterThan(_, r) => r,
            BinaryOp::LessThanEquals(_, r) => r,
            BinaryOp::GreaterThanEquals(_, r) => r,
            BinaryOp::Equals(_, r) => r,
            BinaryOp::NotEquals(_, r) => r,
            BinaryOp::Assignment(_, r) => r,
            BinaryOp::AssignmentAddition(_, r) => r,
            BinaryOp::AssignmentSubtraction(_, r) => r,
            BinaryOp::AssignmentMultiplication(_, r) => r,
            BinaryOp::AssignmentDivision(_, r) => r,
            BinaryOp::AssignmentModulus(_, r) => r,
            BinaryOp::AssignmentShiftLeft(_, r) => r,
            BinaryOp::AssignmentShiftRight(_, r) => r,
            BinaryOp::AssignmentBitwiseAnd(_, r) => r,
            BinaryOp::AssignmentBitwiseXor(_, r) => r,
            BinaryOp::AssignmentBitwiseOr(_, r) => r,
            BinaryOp::Comma(_, r) => r,
        }
    }

    /// The operator `kind` applied to `lhs` and `rhs`.
    pub fn new(kind: BinaryKind, lhs: Arc<Expression>, rhs: Arc<Expression>) -> (op: BinaryOp)
        ensures
            op.spec_kind() == kind,
            op.spec_lhs() == lhs,
            op.spec_rhs() == rhs,
    {
        match kind {
            BinaryKind::Addition => BinaryOp::Addition(lhs, rhs),
            BinaryKind::Subtraction => BinaryOp::Subtraction(lhs, rhs),
            BinaryKind::Multiplication => BinaryOp::Multiplication(lhs, rhs),
            BinaryKind::Division => BinaryOp::Division(lhs, rhs),
            BinaryKind::Modulus => BinaryOp::Modulus(lhs, rhs),
            BinaryKind::BitwiseAnd => BinaryOp::BitwiseAnd(lhs, rhs),
            BinaryKind::BitwiseXor => BinaryOp::BitwiseXor(lhs, rhs),
            BinaryKind::BitwiseOr => BinaryOp::BitwiseOr(lhs, rhs),
            BinaryKind::LeftShift => BinaryOp::LeftShift(lhs, rhs),
            BinaryKind::RightShift => BinaryOp::RightShift(lhs, rhs),
            BinaryKind::LogicalAnd => BinaryOp::LogicalAnd(lhs, rhs),
            BinaryKind::LogicalOr => BinaryOp::LogicalOr(lhs, rhs),
            BinaryKind::LessThan => BinaryOp::LessThan(lhs, rhs),
            BinaryKind::GreaterThan => BinaryOp::GreaterThan(lhs, rhs),
            BinaryKind::LessThanEquals => BinaryOp::LessThanEquals(lhs, rhs),
            BinaryKind::GreaterThanEquals => BinaryOp::GreaterThanEquals(lhs, rhs),
            BinaryKind::Equals => BinaryOp::Equals(lhs, rhs),
            BinaryKind::NotEquals => BinaryOp::NotEquals(lhs, rhs),
            BinaryKind::Assignment => BinaryOp::Assignment(lhs, rhs),
            BinaryKind::AssignmentAddition => BinaryOp::AssignmentAddition(lhs, rhs),
            BinaryKind::AssignmentSubtraction => BinaryOp::AssignmentSubtraction(lhs, rhs),
            BinaryKind::AssignmentMultiplication => BinaryOp::AssignmentMultiplication(lhs, rhs),
            BinaryKind::AssignmentDivision => BinaryOp::AssignmentDivision(lhs, rhs),
            BinaryKind::AssignmentModulus => BinaryOp::AssignmentModulus(lhs, rhs),
            BinaryKind::AssignmentShiftLeft => BinaryOp::AssignmentShiftLeft(lhs, rhs),
            BinaryKind::AssignmentShiftRight => BinaryOp::AssignmentShiftRight(lhs, rhs),
            BinaryKind::AssignmentBitwiseAnd => BinaryOp::AssignmentBitwiseAnd(lhs, rhs),
            BinaryKind::AssignmentBitwiseXor => BinaryOp::AssignmentBitwiseXor(lhs, rhs),
            BinaryKind::AssignmentBitwiseOr => BinaryOp::AssignmentBitwiseOr(lhs, rhs),
            BinaryKind::Comma => BinaryOp::Comma(lhs, rhs),
        }
    }
}

/// The model of an expression.
pub open spec fn expression_model(expression: Expression) -> ExpressionModel
    decreases expression,
{
    match expression {
        Expression::Number(n) => ExpressionModel::Number(n),
        Expression::Variable(name) => ExpressionModel::Variable(name@),
        Expression::FunctionSymbol(name) => ExpressionModel::FunctionSymbol(name@),
        Expression::UnaryOp(op) => ExpressionModel::Unary(
            op.spec_kind(),
            Box::new(expression_model(*op.spec_operand())),
        ),
        Expression::BinaryOp(op) => ExpressionModel::Binary(
            op.spec_kind(),
            Box::new(expression_model(*op.spec_lhs())),
            Box::new(expression_model(*op.spec_rhs())),
        ),
        Expression::TernaryOp(op) => ExpressionModel::Ternary(
            Box::new(expression_model(*op.condition)),
            Box::new(expression_model(*op.then_expr)),
            Box::new(expression_model(*op.else_expr)),
        ),
        Expression::Call(call) => ExpressionModel::Call(
            Box::new(expression_model(*call.expression)),
            Seq::new(
                call.arguments@.len(),
                |i: int|
                    if 0 <= i < call.arguments@.len() {
                        expression_model(call.arguments@[i])
                    } else {
                        ExpressionModel::Number(0)
                    },
            ),
        ),
    }
}

impl View for Expression {
    type V = ExpressionModel;

    open spec fn view(&self) -> ExpressionModel {
        expression_model(*self)
    }
}

impl View for UnaryOp {
    type V = ExpressionModel;

    open spec fn view(&self) -> ExpressionModel {
        ExpressionModel::Unary(self.spec_kind(), Box::new(self.spec_operand()@))
    }
}

impl View for BinaryOp {
    type V = ExpressionModel;

    open spec fn view(&self) -> ExpressionModel {
        ExpressionModel::Binary(
            self.spec_kind(),
            Box::new(self.spec_lhs()@),
            Box::new(self.spec_rhs()@),
        )
    }
}

impl View for TernaryOp {
    type V = ExpressionModel;

    open spec fn view(&self) -> ExpressionModel {
        ExpressionModel::Ternary(
            Box::new(self.condition@),
            Box::new(self.then_expr@),
            Box::new(self.else_expr@),
        )
    }
}

/// The models of a list of expressions, in order.
pub open spec fn expressions_model(expressions: Seq<Expression>) -> Seq<ExpressionModel> {
    Seq::new(expressions.len(), |i: int| expressions[i]@)
}

impl View for Call {
    type V = ExpressionModel;

    open spec fn view(&self) -> ExpressionModel {
        ExpressionModel::Call(Box::new(self.expression@), expressions_model(self.arguments@))
    }
}

/// The model of an expression is that of the operator or call it holds.
pub proof fn lemma_expression_model(expression: Expression)
    ensures
        expression matches Expression::UnaryOp(op) ==> expression@ == op@,
        expression matches Expression::BinaryOp(op) ==> expression@ == op@,
        expression matches Expression::TernaryOp(op) ==> expression@ == op@,
        expression matches Expression::Call(call) ==> expression@ == call@,
{
    match expression {
        Expression::Call(call) => {
            assert(expression@->Call_1 =~= expressions_model(call.arguments@));
        },
        _ => {},
    }
}

impl Clone for UnaryOp {
    fn clone(&self) -> (copy: Self)
        ensures
            copy == *self,
    {
        UnaryOp::new(self.kind(), share(self.operand()))
    }
}

impl Clone for BinaryOp {
    fn clone(&self) -> (copy: Self)
        ensures
            copy == *self,
    {
        BinaryOp::new(self.kind(), share(self.lhs()), share(self.rhs()))
    }
}

impl Clone for TernaryOp {
    fn clone(&self) -> (copy: Self)
        ensures
            copy == *self,
    {
        TernaryOp {
            condition: share(&self.condition),
            then_expr: share(&self.then_expr),
            else_expr: share(&self.else_expr),
        }
    }
}

impl Clone for Call {
    fn clone(&self) -> (copy: Self)
        ensures
            copy@ == self@,
        decreases self,
    {
        let mut arguments: Vec<Expression> = Vec::new();
        let mut i: usize = 0;
        while i < self.arguments.len()
            invariant
                i <= self.arguments.len(),
                arguments@.len() == i,
                forall|j: int| 0 <= j < i ==> (#[trigger] arguments@[j])@ == self.arguments@[j]@,
            decreases self.arguments.len() - i,
        {
            arguments.push(self.arguments[i].clone());
            i = i + 1;
        }
        assert(expressions_model(arguments@) =~= expressions_model(self.arguments@));
        Call { expression: share(&self.expression), arguments }
    }
}

impl Clone for Expression {
    fn clone(&self) -> (copy: Self)
        ensures
            copy@ == self@,
        decreases self,
    {
        proof {
            lemma_expression_model(*self);
        }
        let copy = match self {
            Expression::Number(n) => Expression::Number(*n),
            Expression::Variable(name) => Expression::Variable(name.clone()),
            Expression::FunctionSymbol(name) => Expression::FunctionSymbol(name.clone()),
            Expression::UnaryOp(op) => Expression::UnaryOp(op.clone()),
            Expression::BinaryOp(op) => Expression::BinaryOp(op.clone()),
            Expression::TernaryOp(op) => Expression::TernaryOp(op.clone()),
            Expression::Call(call) => Expression::Call(call.clone()),
        };
        proof {
            lemma_expression_model(copy);
        }
        copy
    }
}

/// Whether two lists of expressions stand for the same expressions.
pub fn same_expressions(left: &Vec<Expression>, right: &Vec<Expression>) -> (same: bool)
    ensures
        same == (expressions_model(left@) == expressions_model(right@)),
    decreases left,
{
    if left.len() != right.len() {
        assert(expressions_model(left@).len() != expressions_model(right@).len());
        return false;
    }
    let mut i: usize = 0;
    while i < left.len()
        invariant
            i <= left.len(),
            left.len() == right.len(),
            forall|j: int| 0 <= j < i ==> (#[trigger] left@[j])@ == right@[j]@,
        decreases left.len() - i,
    {
        if !left[i].equals(&right[i]) {
            assert(expressions_model(left@)[i as int] != expressions_model(right@)[i as int]);
            return false;
        }
        i = i + 1;
    }
    assert(expressions_model(left@) =~= expressions_model(right@));
    true
}

impl Expression {
    /// Whether two expressions stand for the same tree.
    pub fn equals(&self, other: &Expression) -> (same: bool)
        ensures
            same == (self@ == other@),
        decreases self,
    {
        proof {
            lemma_expression_model(*self);
            lemma_expression_model(*other);
        }
        match (self, other) {
            (Expression::Number(a), Expression::Number(b)) => *a == *b,
            (Expression::Variable(a), Expression::Variable(b)) => *a == *b,
            (Expression::FunctionSymbol(a), Expression::FunctionSymbol(b)) => *a == *b,
            (Expression::UnaryOp(a), Expression::UnaryOp(b)) => a.kind() == b.kind()
                && a.operand().equals(b.operand()),
            (Expression::BinaryOp(a), Expression::BinaryOp(b)) => a.kind() == b.kind()
                && a.lhs().equals(b.lhs()) && a.rhs().equals(b.rhs()),
            (Expression::TernaryOp(a), Expression::TernaryOp(b)) => a.condition.equals(&b.condition)
                && a.then_expr.equals(&b.then_expr) && a.else_expr.equals(&b.else_expr),
            (Expression::Call(a), Expression::Call(b)) => a.expression.equals(&b.expression)
                && same_expressions(&a.arguments, &b.arguments),
            _ => false,
        }
    }
}

/// The value of a constant expression. Only a number is one.
pub open spec fn folded(expression: ExpressionModel) -> Option<i32> {
    match expression {
        ExpressionModel::Number(n) => Some(n),
        _ => None,
    }
}

} // verus!

//! The values of constant expressions.
use vstd::prelude::*;
use crate::types::expression::{folded, Expression};

verus! {

/// Things that may have a value known before the program runs.
pub trait Fold {
    /// The value, as the model gives it.
    spec fn constant(&self) -> Option<i32>;

    /// The value, if it is known before the program runs.
    fn fold(&self) -> (value: Option<i32>)
        ensures
            value == self.constant(),
    ;
}

impl Fold for Expression {
    open spec fn constant(&self) -> Option<i32> {
        folded(self@)
    }

    fn fold(&self) -> (value: Option<i32>) {
        match self {
            Expression::Number(n) => Some(*n),
            Expression::UnaryOp(_) => None,
            Expression::BinaryOp(_) => None,
            Expression::TernaryOp(_) => None,
            Expression::Variable(_) => None,
            Expression::FunctionSymbol(_) => None,
            Expression::Call(_) => None,
        }
    }
}

} // verus!

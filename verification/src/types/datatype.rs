//! Types.
use std::sync::Arc;
use vstd::prelude::*;
use crate::parser::expression::fold::Fold;
use crate::types::expression::{folded, Expression, ExpressionModel};
use crate::utils::shared::share;

verus! {

/// A parameter of a function type: its declared name and its type.
#[derive(Debug, PartialEq, Eq)]
pub struct Argument {
    pub name: String,
    pub datatype: Arc<Datatype>,
}

/// A type of the source language.
#[derive(Debug, PartialEq, Eq)]
pub enum Datatype {
    Int,
    Function { return_type: Arc<Datatype>, arguments: Vec<Argument> },
    Pointer { inner: Arc<Datatype> },
    Array { inner: Arc<Datatype>, length: Expression },
}

/// What a parameter of a function type stands for.
pub struct ArgumentModel {
    pub name: Seq<char>,
    pub datatype: DatatypeModel,
}

/// What a type stands for.
pub enum DatatypeModel {
    Int,
    Function { return_type: Box<DatatypeModel>, arguments: Seq<ArgumentModel> },
    Pointer { inner: Box<DatatypeModel> },
    Array { inner: Box<DatatypeModel>, length: Box<ExpressionModel> },
}

/// The model of a type.
pub open spec fn datatype_model(datatype: Datatype) -> DatatypeModel
    decreases datatype,
{
    match datatype {
        Datatype::Int => DatatypeModel::Int,
        Datatype::Function { return_type, arguments } => DatatypeModel::Function {
            return_type: Box::new(datatype_model(*return_type)),
            arguments: Seq::new(
                arguments@.len(),
                |i: int|
                    if 0 <= i < arguments@.len() {
                        ArgumentModel {
                            name: arguments@[i].name@,
                            datatype: datatype_model(*arguments@[i].datatype),
                        }
                    } else {
                        ArgumentModel { name: Seq::empty(), datatype: DatatypeModel::Int }
                    },
            ),
        },
        Datatype::Pointer { inner } => DatatypeModel::Pointer {
            inner: Box::new(datatype_model(*inner)),
        },
        Datatype::Array { inner, length } => DatatypeModel::Array {
            inner: Box::new(datatype_model(*inner)),
            length: Box::new(length@),
        },
    }
}

impl View for Datatype {
    type V = DatatypeModel;

    open spec fn view(&self) -> DatatypeModel {
        datatype_model(*self)
    }
}

impl View for Argument {
    type V = ArgumentModel;

    open spec fn view(&self) -> ArgumentModel {
        ArgumentModel { name: self.name@, datatype: self.datatype@ }
    }
}

/// The models of a list of parameters, in order.
pub open spec fn arguments_model(arguments: Seq<Argument>) -> Seq<ArgumentModel> {
    Seq::new(arguments.len(), |i: int| arguments[i]@)
}

/// The models of a list of types, in order.
pub open spec fn datatypes_model(datatypes: Seq<Datatype>) -> Seq<DatatypeModel> {
    Seq::new(datatypes.len(), |i: int| datatypes[i]@)
}

/// The model of a function type lists the models of its parameters.
pub proof fn lemma_function_model(datatype: Datatype)
    ensures
        datatype matches Datatype::Function { return_type, arguments } ==> datatype@
            == (DatatypeModel::Function {
            return_type: Box::new(return_type@),
            arguments: arguments_model(arguments@),
        }),
{
    match datatype {
        Datatype::Function { return_type, arguments } => {
            assert(datatype@->Function_arguments =~= arguments_model(arguments@));
        },
        _ => {},
    }
}

/// The largest size, in bytes, that a value may have.
pub open spec fn max_size() -> nat {
    0xffff_ffff
}

/// The number of bytes that a value of a type takes, if the type has a size:
/// four for an integer and for a pointer, none for a function, and for an
/// array the size of an element times the length, which must be a constant
/// that is not negative. A type larger than `max_size()` has no size.
pub open spec fn size_of(datatype: DatatypeModel) -> Option<nat>
    decreases datatype,
{
    match datatype {
        DatatypeModel::Int => Some(4),
        DatatypeModel::Function { .. } => Some(0),
        DatatypeModel::Pointer { .. } => Some(4),
        DatatypeModel::Array { inner, length } => match (size_of(*inner), folded(*length)) {
            (Some(element), Some(count)) => if count >= 0 && element * count <= max_size() {
                Some((element * count) as nat)
            } else {
                None
            },
            _ => None,
        },
    }
}

impl Clone for Argument {
    fn clone(&self) -> (copy: Self)
        ensures
            copy == *self,
    {
        Argument { name: self.name.clone(), datatype: share(&self.datatype) }
    }
}

/// A copy of a list of parameters.
pub fn clone_arguments(arguments: &Vec<Argument>) -> (copy: Vec<Argument>)
    ensures
        copy@ == arguments@,
{
    let mut copy: Vec<Argument> = Vec::new();
    let mut i: usize = 0;
    while i < arguments.len()
        invariant
            i <= arguments.len(),
            copy@ == arguments@.take(i as int),
        decreases arguments.len() - i,
    {
        copy.push(arguments[i].clone());
        assert(copy@ =~= arguments@.take(i + 1));
        i = i + 1;
    }
    assert(arguments@.take(i as int) =~= arguments@);
    copy
}

impl Clone for Datatype {
    fn clone(&self) -> (copy: Self)
        ensures
            copy@ == self@,
    {
        proof {
            lemma_function_model(*self);
        }
        let copy = match self {
            Datatype::Int => Datatype::Int,
            Datatype::Function { return_type, arguments } => Datatype::Function {
                return_type: share(return_type),
                arguments: clone_arguments(arguments),
            },
            Datatype::Pointer { inner } => Datatype::Pointer { inner: share(inner) },
            Datatype::Array { inner, length } => Datatype::Array {
                inner: share(inner),
                length: length.clone(),
            },
        };
        proof {
            lemma_function_model(copy);
        }
        copy
    }
}

/// Whether two lists of parameters have the same names and types.
pub fn same_arguments(left: &Vec<Argument>, right: &Vec<Argument>) -> (same: bool)
    ensures
        same == (arguments_model(left@) == arguments_model(right@)),
    decreases left,
{
    if left.len() != right.len() {
        assert(arguments_model(left@).len() != arguments_model(right@).len());
        return false;
    }
    let mut i: usize = 0;
    while i < left.len()
        invariant
            i <= left.len(),
            left.len() == right.len(),
            forall|j: int| 0 <= j < i ==> (#[trigger] left@[j])@ == right@[j]@,
        decreases left.len() - i,
    {
        if !(left[i].name == right[i].name && left[i].datatype.equals(&right[i].datatype)) {
            assert(arguments_model(left@)[i as int] != arguments_model(right@)[i as int]);
            return false;
        }
        i = i + 1;
    }
    assert(arguments_model(left@) =~= arguments_model(right@));
    true
}

impl Datatype {
    /// Whether two types are the same: the same shape, and the same parts.
    pub fn equals(&self, other: &Datatype) -> (same: bool)
        ensures
            same == (self@ == other@),
        decreases self,
    {
        proof {
            lemma_function_model(*self);
            lemma_function_model(*other);
        }
        match (self, other) {
            (Datatype::Int, Datatype::Int) => true,
            (
                Datatype::Function { return_type: left_return, arguments: left_arguments },
                Datatype::Function { return_type: right_return, arguments: right_arguments },
            ) => left_return.equals(
                right_return,
            ) && same_arguments(left_arguments, right_arguments),
            (Datatype::Pointer { inner: left }, Datatype::Pointer { inner: right }) => left.equals(
                right,
            ),
            (
                Datatype::Array { inner: left_inner, length: left_length },
                Datatype::Array { inner: right_inner, length: right_length },
            ) => left_inner.equals(right_inner) && left_length.equals(right_length),
            _ => false,
        }
    }

    /// The number of bytes that a value of this type takes, or `None` if the
    /// type has no size.
    pub fn try_size(&self) -> (size: Option<usize>)
        ensures
            size matches Some(bytes) ==> size_of(self@) == Some(bytes as nat),
            size is None <==> size_of(self@) is None,
        decreases self,
    {
        match self {
            Datatype::Int => Some(4),
            Datatype::Function { .. } => Some(0),
            Datatype::Pointer { .. } => Some(4),
            Datatype::Array { inner, length } => {
                match (inner.try_size(), length.fold()) {
                    (Some(element), Some(count)) => {
                        if count < 0 {
                            return None;
                        }
                        let wide: u64 = element as u64;
                        let many: u64 = count as u64;
                        assert(wide * many <= 0xffff_ffff * 0x7fff_ffff) by (nonlinear_arith)
                            requires
                                wide <= 0xffff_ffff,
                                many <= 0x7fff_ffff,
                        ;
                        let bytes: u64 = wide * many;
                        if bytes > 0xffff_ffff {
                            None
                        } else {
                            Some(bytes as usize)
                        }
                    },
                    _ => None,
                }
            },
        }
    }

    /// The number of bytes that a value of this type takes.
    pub fn size(&self) -> (bytes: usize)
        requires
            size_of(self@) is Some,
        ensures
            size_of(self@) == Some(bytes as nat),
    {
        match self.try_size() {
            Some(bytes) => bytes,
            None => 0,
        }
    }
}

} // verus!

//! Scopes.
use vstd::prelude::*;
use crate::types::declaration::Declaration;
use crate::types::statement::{
    items_model, label_model, scope_item_model, LabelModel, ScopeItemModel, Statement,
};

verus! {

/// One item of a scope.
#[derive(Debug, PartialEq, Eq)]
pub enum ScopeItem {
    Statement(Statement),
    Declaration(Declaration),
    Label(Label),
}

/// A place that a jump can name. The labels of a `switch` carry the
/// identifier of their `switch`.
#[derive(Debug, PartialEq, Eq)]
pub enum Label {
    Named(String),
    Case { id: String, value: i32 },
    Default { id: String },
}

/// A compound statement: its items, in order.
#[derive(Debug, PartialEq, Eq)]
pub struct Scope {
    pub items: Vec<ScopeItem>,
}

impl View for ScopeItem {
    type V = ScopeItemModel;

    open spec fn view(&self) -> ScopeItemModel {
        scope_item_model(*self)
    }
}

impl View for Label {
    type V = LabelModel;

    open spec fn view(&self) -> LabelModel {
        label_model(*self)
    }
}

impl View for Scope {
    type V = Seq<ScopeItemModel>;

    open spec fn view(&self) -> Seq<ScopeItemModel> {
        items_model(self.items@)
    }
}

} // verus!

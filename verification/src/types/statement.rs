//! Statements.
use std::sync::Arc;
use vstd::prelude::*;
use crate::types::declaration::{optional_expression_model, Declaration, DeclarationModel};
use crate::types::expression::{Expression, ExpressionModel};
use crate::types::scope::{Label, Scope, ScopeItem};

verus! {

/// A label of a `switch`: a case with its value, or the default.
#[derive(Debug, Clone, Copy, PartialEq, Eq, Structural)]
pub enum Case {
    Case(i32),
    Default,
}

/// A statement that leaves where it stands. `Break` and `Continue` carry the
/// identifier of the loop or `switch` they leave or repeat.
#[derive(Debug, PartialEq, Eq)]
pub enum JumpStatement {
    Return { expression: Option<Expression> },
    Break { id: String },
    Continue { id: String },
    Ebreak,
}

/// `if` with its condition, its statement and perhaps a statement for
/// `else`.
#[derive(Debug, PartialEq, Eq)]
pub struct IfStatement {
    pub condition: Expression,
    pub then_block: Arc<Statement>,
    pub else_block: Option<Arc<Statement>>,
}

/// `while` with its condition, its body and its identifier.
#[derive(Debug, PartialEq, Eq)]
pub struct WhileStatement {
    pub condition: Expression,
    pub block: Arc<Statement>,
    pub id: String,
}

/// What a `for` statement starts with.
#[derive(Debug, PartialEq, Eq)]
pub enum ForInit {
    Declaration(Declaration),
    Expression(Expression),
}

/// `for` with its start, condition and update, each of which may be
/// missing, its body and its identifier.
#[derive(Debug, PartialEq, Eq)]
pub struct ForStatement {
    pub init: Option<ForInit>,
    pub condition: Option<Expression>,
    pub increment: Option<Expression>,
    pub block: Arc<Statement>,
    pub id: String,
}

/// A `switch` with the labels found in its body, in the order of the text.
#[derive(Debug, PartialEq, Eq)]
pub struct SwitchStatement {
    pub expression: Expression,
    pub body: Arc<Statement>,
    pub id: String,
    pub cases: Vec<Case>,
}

/// A statement.
#[allow(inconsistent_fields)]
#[derive(Debug, PartialEq, Eq)]
pub enum Statement {
    Jump { statement: JumpStatement },
    Expression { expression: Expression },
    Scope { scope: Scope },
    If { statement: IfStatement },
    While { statement: WhileStatement },
    For { statement: ForStatement },
    Switch { statement: SwitchStatement },
    Null,
}

/// What a label stands for.
pub enum LabelModel {
    Named(Seq<char>),
    Case { id: Seq<char>, value: i32 },
    Default { id: Seq<char> },
}

/// What the start of a `for` statement stands for.
pub enum ForInitModel {
    Declaration(DeclarationModel),
    Expression(ExpressionModel),
}

/// What an item of a scope stands for.
pub enum ScopeItemModel {
    Statement(StatementModel),
    Declaration(DeclarationModel),
    Label(LabelModel),
}

/// What a statement stands for.
#[allow(inconsistent_fields)]
pub enum StatementModel {
    Return(Option<ExpressionModel>),
    Break(Seq<char>),
    Continue(Seq<char>),
    Ebreak,
    Expression(ExpressionModel),
    Scope(Seq<ScopeItemModel>),
    If {
        condition: ExpressionModel,
        then_block: Box<StatementModel>,
        else_block: Option<Box<StatementModel>>,
    },
    While { condition: ExpressionModel, block: Box<StatementModel>, id: Seq<char> },
    For {
        init: Option<ForInitModel>,
        condition: Option<ExpressionModel>,
        increment: Option<ExpressionModel>,
        block: Box<StatementModel>,
        id: Seq<char>,
    },
    Switch {
        expression: ExpressionModel,
        body: Box<StatementModel>,
        id: Seq<char>,
        cases: Seq<Case>,
    },
    Null,
}

/// The model of a label.
pub open spec fn label_model(label: Label) -> LabelModel {
    match label {
        Label::Named(name) => LabelModel::Named(name@),
        Label::Case { id, value } => LabelModel::Case { id: id@, value },
        Label::Default { id } => LabelModel::Default { id: id@ },
    }
}

/// The model of the start of a `for` statement.
pub open spec fn for_init_model(init: Option<ForInit>) -> Option<ForInitModel> {
    match init {
        Some(ForInit::Declaration(declaration)) => Some(ForInitModel::Declaration(declaration@)),
        Some(ForInit::Expression(expression)) => Some(ForInitModel::Expression(expression@)),
        None => None,
    }
}

/// The model of a statement.
pub open spec fn statement_model(statement: Statement) -> StatementModel
    decreases statement,
{
    match statement {
        Statement::Jump { statement: JumpStatement::Return { expression } } => StatementModel::Return(
            optional_expression_model(expression),
        ),
        Statement::Jump { statement: JumpStatement::Break { id } } => StatementModel::Break(id@),
        Statement::Jump { statement: JumpStatement::Continue { id } } => StatementModel::Continue(
            id@,
        ),
        Statement::Jump { statement: JumpStatement::Ebreak } => StatementModel::Ebreak,
        Statement::Expression { expression } => StatementModel::Expression(expression@),
        Statement::Scope { scope } => StatementModel::Scope(
            Seq::new(
                scope.items@.len(),
                |i: int|
                    if 0 <= i < scope.items@.len() {
                        scope_item_model(scope.items@[i])
                    } else {
                        ScopeItemModel::Statement(StatementModel::Null)
                    },
            ),
        ),
        Statement::If { statement } => StatementModel::If {
            condition: statement.condition@,
            then_block: Box::new(statement_model(*statement.then_block)),
            else_block: match statement.else_block {
                Some(block) => Some(Box::new(statement_model(*block))),
                None => None,
            },
        },
        Statement::While { statement } => StatementModel::While {
            condition: statement.condition@,
            block: Box::new(statement_model(*statement.block)),
            id: statement.id@,
        },
        Statement::For { statement } => StatementModel::For {
            init: for_init_model(statement.init),
            condition: optional_expression_model(statement.condition),
            increment: optional_expression_model(statement.increment),
            block: Box::new(statement_model(*statement.block)),
            id: statement.id@,
        },
        Statement::Switch { statement } => StatementModel::Switch {
            expression: statement.expression@,
            body: Box::new(statement_model(*statement.body)),
            id: statement.id@,
            cases: statement.cases@,
        },
        Statement::Null => StatementModel::Null,
    }
}

/// The model of an item of a scope.
pub open spec fn scope_item_model(item: ScopeItem) -> ScopeItemModel
    decreases item,
{
    match item {
        ScopeItem::Statement(statement) => ScopeItemModel::Statement(statement_model(statement)),
        ScopeItem::Declaration(declaration) => ScopeItemModel::Declaration(declaration@),
        ScopeItem::Label(label) => ScopeItemModel::Label(label_model(label)),
    }
}

/// The models of the items of a scope, in order.
pub open spec fn items_model(items: Seq<ScopeItem>) -> Seq<ScopeItemModel> {
    Seq::new(items.len(), |i: int| scope_item_model(items[i]))
}

impl View for ForInit {
    type V = ForInitModel;

    open spec fn view(&self) -> ForInitModel {
        match self {
            ForInit::Declaration(declaration) => ForInitModel::Declaration(declaration@),
            ForInit::Expression(expression) => ForInitModel::Expression(expression@),
        }
    }
}

impl View for Statement {
    type V = StatementModel;

    open spec fn view(&self) -> StatementModel {
        statement_model(*self)
    }
}

impl View for JumpStatement {
    type V = StatementModel;

    open spec fn view(&self) -> StatementModel {
        match self {
            JumpStatement::Return { expression } => StatementModel::Return(
                optional_expression_model(*expression),
            ),
            JumpStatement::Break { id } => StatementModel::Break(id@),
            JumpStatement::Continue { id } => StatementModel::Continue(id@),
            JumpStatement::Ebreak => StatementModel::Ebreak,
        }
    }
}

/// The model of a statement that may be absent.
pub open spec fn optional_statement_model(statement: Option<Arc<Statement>>) -> Option<
    Box<StatementModel>,
> {
    match statement {
        Some(statement) => Some(Box::new(statement@)),
        None => None,
    }
}

impl View for IfStatement {
    type V = StatementModel;

    open spec fn view(&self) -> StatementModel {
        StatementModel::If {
            condition: self.condition@,
            then_block: Box::new(self.then_block@),
            else_block: optional_statement_model(self.else_block),
        }
    }
}

impl View for WhileStatement {
    type V = StatementModel;

    open spec fn view(&self) -> StatementModel {
        StatementModel::While {
            condition: self.condition@,
            block: Box::new(self.block@),
            id: self.id@,
        }
    }
}

impl View for ForStatement {
    type V = StatementModel;

    open spec fn view(&self) -> StatementModel {
        StatementModel::For {
            init: for_init_model(self.init),
            condition: optional_expression_model(self.condition),
            increment: optional_expression_model(self.increment),
            block: Box::new(self.block@),
            id: self.id@,
        }
    }
}

impl View for SwitchStatement {
    type V = StatementModel;

    open spec fn view(&self) -> StatementModel {
        StatementModel::Switch {
            expression: self.expression@,
            body: Box::new(self.body@),
            id: self.id@,
            cases: self.cases@,
        }
    }
}

/// The model of a statement is that of the jump, loop, branch or scope it
/// holds.
pub proof fn lemma_statement_model(statement: Statement)
    ensures
        statement matches Statement::Jump { statement: jump } ==> statement@ == jump@,
        statement matches Statement::Scope { scope }
            ==> statement@ == StatementModel::Scope(scope@),
        statement matches Statement::If { statement: inner } ==> statement@ == inner@,
        statement matches Statement::While { statement: inner } ==> statement@ == inner@,
        statement matches Statement::For { statement: inner } ==> statement@ == inner@,
        statement matches Statement::Switch { statement: inner } ==> statement@ == inner@,
{
    match statement {
        Statement::Scope { scope } => {
            assert(statement@->Scope_0 =~= scope@);
        },
        _ => {},
    }
}

} // verus!

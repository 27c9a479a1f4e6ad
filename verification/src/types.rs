//! The syntax tree: types, expressions, statements and programs.
pub mod datatype;
pub mod declaration;
pub mod expression;
pub mod function_definition;
pub mod program;
pub mod scope;
pub mod statement;

//! Small helpers shared by the parser and the code generator.
pub mod nearest_multiple;
pub mod random_name;
pub mod shared;
pub mod text;

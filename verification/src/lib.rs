//! A compiler from a small C-family language to RISC-V assembly.
//!
//! The pipeline has three stages: the parser turns source text into a
//! syntax tree, the code generator lowers the tree to a list of
//! instructions, and a peephole pass simplifies that list.
pub mod parser;
pub mod riscv;
pub mod types;
pub mod utils;

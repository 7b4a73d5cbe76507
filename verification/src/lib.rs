//! An interpreter for a small imperative language: a lexer, a recursive
//! descent parser, a semantic analyzer and a tree-walking executor.

pub mod text;
pub mod token;
pub mod lexer;
pub mod logger;
pub mod value;
pub mod symbols;
pub mod tree;
pub mod error;
pub mod floats;
pub mod frame;
pub mod semantics;
pub mod evaluator;
pub mod executor;
pub mod parser;
pub mod analyzer;
pub mod machine;

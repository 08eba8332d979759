//! A compiler front end for one parenthesized prefix arithmetic expression,
//! `(<operator> <left> <right>)` with single-digit operands: lexical
//! analysis, parsing into a two-leaf tree, and post-order emission of
//! stack-machine instructions.

pub mod errors;
pub mod lexer;
pub mod parser;
pub mod pipeline;
pub mod traverser;

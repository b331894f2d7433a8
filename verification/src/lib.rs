//! Syntax analysis for a small indentation-structured language.
//!
//! The parser consumes a flat sequence of lexed tokens, each carrying a kind,
//! a source position and (for line-start markers) an indentation tier, and
//! produces a program AST together with tables of the definitions it saw.
//! Block structure follows the off-side rule: a block at tier `t` extends up
//! to, and excluding, the first tier marker whose tier is strictly below `t`.

pub mod ast;
pub mod diag;
pub mod grammar;
pub mod laws;
pub mod names;
pub mod parser;
pub mod token;

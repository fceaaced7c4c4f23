//! Front end of a small expression language: a lexer that turns source text
//! into tokens and a recursive-descent parser that builds a syntax tree with
//! the usual operator precedence and associativity.

pub mod source;
pub mod token;
pub mod lexer;
pub mod operator;
pub mod ast;
pub mod parser;
pub mod printer;

//! Tokenizer and parser for a plain-text chord progression notation.

pub mod errors;
pub mod lexer;
pub mod document;
pub mod chord;
pub mod parser;
pub mod lex_laws;
pub mod parse_laws;

//! Tokens and the syntax tree that the resolution engine consumes.

pub mod ast;
pub mod grammar;
pub mod lexer;
pub mod low_lexer;
pub mod token_skippers;
pub mod token_type;

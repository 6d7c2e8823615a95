//! The parser: from tokens to the syntax tree.

pub mod expected;
pub mod operators;
pub mod outlook;
pub mod parser;
pub mod rules;
pub mod skipper;

pub use parser::{Parser, ParserView, TokenClass};
pub use rules::parse_module;
pub use skipper::Skipper;

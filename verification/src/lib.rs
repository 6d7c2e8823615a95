//! Front end of the `exc` compiler: source positions, symbol interning,
//! diagnostics, the syntax tree, and the name resolution engine that binds
//! modules, top-level declarations, imports and local variables.

pub mod diagnostic;
pub mod parse;
pub mod resolve;
pub mod sharing;
pub mod span;
pub mod symbol;

//! Interned names: small integer handles for strings, and the table that
//! hands them out.

pub mod chunk;
pub mod interner;
pub mod name;

pub use chunk::Chunk;
pub use interner::Interner;
pub use name::Symbol;

//! Source positions, spans and the table of loaded source files.

pub mod line_col;
pub mod pos;
pub mod source_file;
pub mod source_map;
pub mod span_range;

pub use line_col::LineCol;
pub use pos::Pos;
pub use source_file::{FileId, SourceFile};
pub use source_map::SourceMap;
pub use span_range::Span;

use vstd::prelude::*;

verus! {

/// A zero-based line and column pair; the column counts characters.
#[derive(Debug, Clone, Copy, PartialEq, Eq, PartialOrd, Ord, Structural, Hash)]
pub struct LineCol {
    pub line: u32,
    pub column: u32,
}

impl LineCol {
    pub fn new(line: u32, column: u32) -> (r: Self)
        ensures
            r.line == line,
            r.column == column,
    {
        Self { line, column }
    }
}

} // verus!

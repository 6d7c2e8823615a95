use vstd::prelude::*;
use crate::span::line_col::LineCol;

verus! {

/// A line of the source with a run of marks under it.
#[derive(Debug, Clone, Copy, PartialEq, Eq, Structural, Hash)]
pub struct Marked {
    /// The line that is shown.
    pub line: u32,
    /// The column under which the first mark stands.
    pub offset: u32,
    /// The number of marks.
    pub marks: u32,
}

/// What is shown of a file for a span in it: the lines of the span's two
/// ends, marked, and one line of context on either side.
#[derive(Debug, Clone, Copy, PartialEq, Eq, Structural, Hash)]
pub struct Excerpt {
    /// The line before the span, where there is one.
    pub before: Option<u32>,
    /// The line in which the span starts, where it ends in a later line:
    /// marked from the start of the span to the end of the line.
    pub first: Option<Marked>,
    /// Whether lines between the two ends are left out.
    pub gap: bool,
    /// The line in which the span ends; the message stands behind its marks.
    pub last: Marked,
    /// The line after the span, where there is one.
    pub after: Option<u32>,
}

/// The excerpt for a span that starts at `low` and ends at `high`, in a
/// file whose last line is `max_line` and whose line `low.line` has the
/// length `first_len`.
///
/// A span within one line is marked from its start to its end. A span over
/// several lines is marked in its first line from its start to the end of
/// the line, and in its last line from the start of the line to its end,
/// with one mark at least.
pub open spec fn spec_layout(low: LineCol, high: LineCol, max_line: u32, first_len: u32) -> Excerpt {
    Excerpt {
        before: if low.line == 0 {
            None
        } else {
            Some((low.line - 1) as u32)
        },
        first: if low.line != high.line {
            Some(
                Marked {
                    line: low.line,
                    offset: low.column,
                    marks: if low.column <= first_len {
                        (first_len - low.column) as u32
                    } else {
                        0
                    },
                },
            )
        } else {
            None
        },
        gap: high.line - low.line >= 2,
        last: if low.line == high.line {
            Marked {
                line: high.line,
                offset: low.column,
                marks: if low.column <= high.column {
                    (high.column - low.column) as u32
                } else {
                    0
                },
            }
        } else {
            Marked {
                line: high.line,
                offset: 0,
                marks: if high.column == 0 {
                    1
                } else {
                    high.column
                },
            }
        },
        after: if high.line == max_line {
            None
        } else {
            Some((high.line + 1) as u32)
        },
    }
}

/// Lays out what is shown for a span from `low` to `high`.
pub fn layout(low: LineCol, high: LineCol, max_line: u32, first_len: u32) -> (r: Excerpt)
    requires
        low.line <= high.line <= max_line,
    ensures
        r == spec_layout(low, high, max_line, first_len),
{
    let before = if low.line == 0 {
        None
    } else {
        Some(low.line - 1)
    };
    let first = if low.line != high.line {
        let marks = if low.column <= first_len {
            first_len - low.column
        } else {
            0
        };
        Some(Marked { line: low.line, offset: low.column, marks })
    } else {
        None
    };
    let gap = high.line - low.line >= 2;
    let last = if low.line == high.line {
        let marks = if low.column <= high.column {
            high.column - low.column
        } else {
            0
        };
        Marked { line: high.line, offset: low.column, marks }
    } else {
        let marks = if high.column == 0 {
            1
        } else {
            high.column
        };
        Marked { line: high.line, offset: 0, marks }
    };
    let after = if high.line == max_line {
        None
    } else {
        Some(high.line + 1)
    };
    Excerpt { before, first, gap, last, after }
}

} // verus!

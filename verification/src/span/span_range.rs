use vstd::prelude::*;
use crate::span::pos::Pos;

verus! {

/// A half-open byte range `low..high` of source text.
#[derive(Debug, Clone, Copy, PartialEq, Eq, PartialOrd, Ord, Structural, Hash)]
pub struct Span {
    pub low: Pos,
    pub high: Pos,
}

impl Span {
    /// A span is well formed when it does not end before it starts.
    pub open spec fn wf(self) -> bool {
        self.low.0 <= self.high.0
    }

    pub open spec fn spec_contains_pos(self, pos: Pos) -> bool {
        self.low.0 <= pos.0 && pos.0 <= self.high.0
    }

    pub open spec fn spec_contains_span(self, other: Span) -> bool {
        self.low.0 <= other.low.0 && other.high.0 <= self.high.0
    }

    pub open spec fn spec_merge(self, other: Span) -> Span {
        Span {
            low: if self.low.0 <= other.low.0 { self.low } else { other.low },
            high: if self.high.0 >= other.high.0 { self.high } else { other.high },
        }
    }

    pub fn new(low: Pos, high: Pos) -> (r: Self)
        requires
            low.0 <= high.0,
        ensures
            r.low == low,
            r.high == high,
            r.wf(),
    {
        Self { low, high }
    }

    /// The empty span at offset zero.
    pub fn zero() -> (r: Self)
        ensures
            r.low.0 == 0,
            r.high.0 == 0,
    {
        Self { low: Pos(0), high: Pos(0) }
    }

    pub fn len(self) -> (r: u32)
        requires
            self.wf(),
        ensures
            r == self.high.0 - self.low.0,
    {
        self.high.0 - self.low.0
    }

    pub fn contains_pos(self, other: Pos) -> (r: bool)
        ensures
            r == self.spec_contains_pos(other),
    {
        self.low.0 <= other.0 && self.high.0 >= other.0
    }

    pub fn contains_span(self, other: Span) -> (r: bool)
        ensures
            r == self.spec_contains_span(other),
    {
        self.low.0 <= other.low.0 && self.high.0 >= other.high.0
    }

    /// The span from the start of `self` to the end of `to`.
    pub fn to(self, to: Span) -> (r: Span)
        requires
            self.low.0 <= to.high.0,
        ensures
            r.low == self.low,
            r.high == to.high,
            r.wf(),
    {
        Span { low: self.low, high: to.high }
    }

    /// The smallest span that covers both `self` and `other`.
    pub fn merge(self, other: Span) -> (r: Span)
        ensures
            r == self.spec_merge(other),
            self.wf() || other.wf() ==> r.wf(),
            self.wf() ==> r.spec_contains_span(self),
            other.wf() ==> r.spec_contains_span(other),
    {
        Span {
            low: if self.low.0 <= other.low.0 { self.low } else { other.low },
            high: if self.high.0 >= other.high.0 { self.high } else { other.high },
        }
    }
}

} // verus!

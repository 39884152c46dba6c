use vstd::prelude::*;

verus! {

/// A half-open byte range into the source text: `start` is included, `end` is not.
#[derive(Debug, Clone, Copy, PartialEq, Eq, Structural)]
pub struct Span {
    pub start: usize,
    pub end: usize,
}

impl Span {
    /// Joins two spans into one covering both.
    pub fn to(self, other: Span) -> (r: Span)
        ensures
            r.start == self.start,
            r.end == other.end,
    {
        Span { start: self.start, end: other.end }
    }
}

} // verus!

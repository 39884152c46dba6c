use vstd::prelude::*;
use crate::span::Span;

verus! {

/// A cursor over the source bytes.
#[derive(Debug, Clone, PartialEq)]
pub struct Scanner {
    pub source: Vec<u8>,
    pub current: usize,
}

impl Scanner {
    pub open spec fn wf(self) -> bool {
        self.current <= self.source@.len()
    }

    /// The source bytes being scanned.
    pub open spec fn source_spec(self) -> Seq<u8> {
        self.source@
    }

    /// The current position, in bytes.
    pub open spec fn pos_spec(self) -> int {
        self.current as int
    }

    pub fn new(source: Vec<u8>) -> (r: Scanner)
        ensures
            r.wf(),
            r.source_spec() == source@,
            r.pos_spec() == 0,
    {
        Scanner { source, current: 0 }
    }

    /// The current position (in bytes) in the source.
    pub fn current_pos(&self) -> (r: usize)
        ensures
            r == self.pos_spec(),
    {
        self.current
    }

    /// The next byte of the source, advancing past it, or `None` at the
    /// end.
    pub fn next(&mut self) -> (r: Option<u8>)
        requires
            old(self).wf(),
        ensures
            final(self).wf(),
            final(self).source_spec() == old(self).source_spec(),
            old(self).pos_spec() < old(self).source_spec().len() ==> r == Some(
                old(self).source_spec()[old(self).pos_spec()],
            ) && final(self).pos_spec() == old(self).pos_spec() + 1,
            old(self).pos_spec() >= old(self).source_spec().len() ==> r is None && final(self).pos_spec() == old(self).pos_spec(),
    {
        if self.current < self.source.len() {
            let b = self.source[self.current];
            self.current = self.current + 1;
            Some(b)
        } else {
            None
        }
    }

    /// The next byte of the source without advancing.
    pub fn peek(&self) -> (r: Option<u8>)
        requires
            self.wf(),
        ensures
            self.pos_spec() < self.source_spec().len() ==> r == Some(
                self.source_spec()[self.pos_spec()],
            ),
            self.pos_spec() >= self.source_spec().len() ==> r is None,
    {
        if self.current < self.source.len() {
            Some(self.source[self.current])
        } else {
            None
        }
    }

    /// An empty span at the given index.
    pub fn empty_span(&self, index: usize) -> (r: Span)
        ensures
            r == (Span { start: index as usize, end: index as usize }),
    {
        self.span(index, index)
    }

    /// A single-byte span at the given index.
    pub fn byte_span(&self, index: usize) -> (r: Span)
        requires
            index < usize::MAX,
        ensures
            r == (Span { start: index as usize, end: (index + 1) as usize }),
    {
        self.span(index, index + 1)
    }

    /// A span between the given byte indexes; `start` is included, `end` is
    /// not.
    pub fn span(&self, start: usize, end: usize) -> (r: Span)
        ensures
            r == (Span { start, end }),
    {
        Span { start, end }
    }

    /// A copy of the source bytes between the given indexes; `start` is
    /// included, `end` is not.
    pub fn slice(&self, start: usize, end: usize) -> (r: Vec<u8>)
        requires
            self.wf(),
            start <= end <= self.source_spec().len(),
        ensures
            r@ == self.source_spec().subrange(start as int, end as int),
    {
        let mut out: Vec<u8> = Vec::new();
        let mut i: usize = start;
        while i < end
            invariant
                start <= i <= end <= self.source@.len(),
                out@ =~= self.source@.subrange(start as int, i as int),
            decreases end - i,
        {
            out.push(self.source[i]);
            proof {
                assert(out@ =~= self.source@.subrange(start as int, i + 1 as int));
            }
            i = i + 1;
        }
        out
    }
}

} // verus!

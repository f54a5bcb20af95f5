//! Address ranges used to describe guest memory.
//!
//! A [`Line`] is a half-open range `[start, end)`; a [`Span`] is the same
//! region given as a start and a length.  All layout computations below work
//! on these two shapes.

use vstd::prelude::*;

verus! {

/// A half-open address range `[start, end)`.
#[derive(Clone, Copy, Debug, Default, PartialEq, Eq, Structural)]
pub struct Line {
    /// First address of the range.
    pub start: usize,
    /// First address past the range.
    pub end: usize,
}

/// An address range given as a start address and a byte count.
#[derive(Clone, Copy, Debug, Default, PartialEq, Eq, Structural)]
pub struct Span {
    /// First address of the range.
    pub start: usize,
    /// Number of bytes in the range.
    pub count: usize,
}

impl Line {
    /// A `Line` is well formed when it does not run backwards.
    pub open spec fn wf(self) -> bool {
        self.start <= self.end
    }

    /// The number of bytes in the range.
    pub open spec fn spec_count(self) -> int {
        self.end - self.start
    }
}

impl Span {
    /// The first address past the range, as a mathematical integer.
    pub open spec fn spec_end(self) -> int {
        self.start + self.count
    }
}

impl Line {
    /// The range as a start and a length.
    ///
    /// Fails when the range runs backwards.
    pub fn to_span(self) -> (r: Option<Span>)
        ensures
            r is Some <==> self.wf(),
            r is Some ==> r->Some_0 == (Span { start: self.start, count: (self.end - self.start) as usize }),
    {
        if self.start <= self.end {
            Some(Span { start: self.start, count: self.end - self.start })
        } else {
            None
        }
    }
}

impl Span {
    /// The range as a pair of addresses.
    ///
    /// Fails when the end address does not fit in `usize`.
    pub fn to_line(self) -> (r: Option<Line>)
        ensures
            r is Some <==> self.start + self.count <= usize::MAX,
            r is Some ==> r->Some_0 == (Line { start: self.start, end: (self.start + self.count) as usize }),
    {
        match self.start.checked_add(self.count) {
            Some(end) => Some(Line { start: self.start, end }),
            None => None,
        }
    }
}

} // verus!

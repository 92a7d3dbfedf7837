use vstd::prelude::*;

verus! {

/// A half-open range of character offsets into the source text.
///
/// `start` is the offset of the first character of a node's textual extent
/// and `end` the offset one past its last character, both counted in
/// characters of the source. The invariant `start <= end` holds for every
/// span the tokenizer or parser produces.
#[derive(Debug, PartialEq, Eq, Structural, Clone, Copy)]
pub struct Span {
    pub start: usize,
    pub end: usize,
}

/// The mathematical image of a [`Span`]: the same two offsets as
/// unbounded integers, used by the specification-level grammar.
pub struct SpanView {
    pub start: int,
    pub end: int,
}

impl View for Span {
    type V = SpanView;

    open spec fn view(&self) -> SpanView {
        SpanView { start: self.start as int, end: self.end as int }
    }
}

impl SpanView {
    /// The merge of two spans: the smallest span covering both, with the
    /// minimum of both starts and the maximum of both ends. The maximum
    /// end is deliberate: merging ends by minimum instead would cut a
    /// right-recursive node's range short of its right child, and a
    /// node's span must cover exactly its own textual extent.
    pub open spec fn combine(self, other: SpanView) -> SpanView {
        SpanView {
            start: if self.start <= other.start {
                self.start
            } else {
                other.start
            },
            end: if self.end <= other.end {
                other.end
            } else {
                self.end
            },
        }
    }
}

impl Span {
    /// Merges two spans into the smallest span covering both: the minimum
    /// of both starts and the maximum of both ends.
    pub fn combine(self, other: Span) -> (r: Span)
        ensures
            r@ == self@.combine(other@),
    {
        Span {
            start: if self.start <= other.start {
                self.start
            } else {
                other.start
            },
            end: if self.end <= other.end {
                other.end
            } else {
                self.end
            },
        }
    }
}

impl Default for Span {
    /// The empty span at the origin.
    fn default() -> (r: Span)
        ensures
            r@ == (SpanView { start: 0, end: 0 }),
    {
        Span { start: 0, end: 0 }
    }
}

/// Anything that knows its own textual extent.
pub trait Spanned {
    /// The specification-level span of `self`.
    spec fn spec_span(&self) -> SpanView;

    /// Returns the span of `self`.
    fn span(&self) -> (s: Span)
        ensures
            s@ == self.spec_span(),
    ;
}

impl Spanned for Span {
    open spec fn spec_span(&self) -> SpanView {
        self@
    }

    fn span(&self) -> (s: Span) {
        *self
    }
}

} // verus!

use vstd::prelude::*;

verus! {

/// A half-open interval `[low, high)` of byte offsets in the global
/// coordinate space shared by every file of one `SourceMap`.
#[derive(Debug, Clone, Copy, PartialEq, Eq, PartialOrd, Ord, Hash, Structural)]
pub struct Span {
    pub low: u32,
    pub high: u32,
}

impl Span {
    /// A span is well formed when its bounds are ordered.
    pub open spec fn wf(self) -> bool {
        self.low <= self.high
    }

    pub open spec fn spec_len(self) -> int {
        self.high - self.low
    }

    pub fn new(low: u32, high: u32) -> (r: Self)
        requires
            low <= high,
        ensures
            r.low == low,
            r.high == high,
            r.wf(),
    {
        Self { low, high }
    }

    /// The empty span sitting at one position.
    pub fn empty(pos: u32) -> (r: Self)
        ensures
            r.low == pos,
            r.high == pos,
            r.wf(),
    {
        Self::new(pos, pos)
    }

    pub fn low(self) -> (r: u32)
        ensures
            r == self.low,
    {
        self.low
    }

    pub fn high(self) -> (r: u32)
        ensures
            r == self.high,
    {
        self.high
    }

    pub fn len(self) -> (r: u32)
        requires
            self.wf(),
        ensures
            r == self.spec_len(),
    {
        self.high - self.low
    }

    pub fn is_empty(self) -> (r: bool)
        ensures
            r == (self.low == self.high),
    {
        self.low == self.high
    }

    pub open spec fn spec_contains(self, pos: u32) -> bool {
        self.low <= pos < self.high
    }

    pub fn contains(self, pos: u32) -> (r: bool)
        ensures
            r == self.spec_contains(pos),
    {
        self.low <= pos && pos < self.high
    }

    pub open spec fn spec_contains_span(self, span: Self) -> bool {
        self.low <= span.low && span.high <= self.high
    }

    pub fn contains_span(self, span: Self) -> (r: bool)
        ensures
            r == self.spec_contains_span(span),
    {
        self.low <= span.low && span.high <= self.high
    }

    /// Grows the high bound to `high`; the sentinel `u32::MAX` means
    /// "unknown" and leaves the span unchanged.
    pub fn expand_to(self, high: u32) -> (r: Self)
        ensures
            high == u32::MAX ==> r == self,
            high != u32::MAX ==> r.low == self.low && r.high == vstd::math::max(
                high as int,
                self.high as int,
            ),
            self.wf() ==> r.wf(),
    {
        if high == u32::MAX {
            return self;
        }
        Self { low: self.low, high: if high < self.high {
            self.high
        } else {
            high
        } }
    }

    /// The union envelope of two spans.
    pub fn merge(lhs: Self, rhs: Self) -> (r: Self)
        ensures
            r.low == vstd::math::min(lhs.low as int, rhs.low as int),
            r.high == vstd::math::max(lhs.high as int, rhs.high as int),
            lhs.wf() && rhs.wf() ==> r.wf(),
    {
        Self {
            low: if lhs.low < rhs.low {
                lhs.low
            } else {
                rhs.low
            },
            high: if lhs.high < rhs.high {
                rhs.high
            } else {
                lhs.high
            },
        }
    }
}

} // verus!

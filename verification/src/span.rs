//! Source spans: byte ranges into the compilation unit's source text.

use vstd::prelude::*;

verus! {

/// A half-open byte range `[lo, hi)` into the source text of one
/// compilation unit. Every token and every AST node carries one.
#[derive(Debug, Clone, Copy, PartialEq, Eq, Structural)]
pub struct Span {
    /// Byte offset of the first byte covered.
    pub lo: usize,
    /// Byte offset one past the last byte covered.
    pub hi: usize,
}

impl Span {
    /// A span from `lo` to `hi`.
    pub fn new(lo: usize, hi: usize) -> (s: Span)
        ensures
            s == (Span { lo, hi }),
    {
        Span { lo, hi }
    }

    /// The smallest span covering both `self` and `other`.
    pub fn join(&self, other: &Span) -> (s: Span)
        ensures
            s == self.spec_join(*other),
    {
        Span {
            lo: if self.lo <= other.lo {
                self.lo
            } else {
                other.lo
            },
            hi: if self.hi >= other.hi {
                self.hi
            } else {
                other.hi
            },
        }
    }

    /// What `join` returns.
    pub open spec fn spec_join(self, other: Span) -> Span {
        Span {
            lo: if self.lo <= other.lo {
                self.lo
            } else {
                other.lo
            },
            hi: if self.hi >= other.hi {
                self.hi
            } else {
                other.hi
            },
        }
    }
}

} // verus!

use vstd::prelude::*;

verus! {

/// Exact normal-bin coverage ratio.
///
/// Only normal bins contribute: ignore and illegal bins are excluded from
/// both the numerator and the denominator.
#[derive(Debug, Clone, Copy, PartialEq, Eq, Hash)]
pub struct CoverageRatio {
    covered: usize,
    uncovered: usize,
    total: usize,
}

impl View for CoverageRatio {
    type V = (usize, usize, usize);

    closed spec fn view(&self) -> (usize, usize, usize) {
        (self.covered, self.uncovered, self.total)
    }
}

impl CoverageRatio {
    /// Creates one exact coverage ratio.
    pub fn new(covered: usize, uncovered: usize, total: usize) -> (r: Self)
        ensures
            r@ == (covered, uncovered, total),
    {
        CoverageRatio { covered, uncovered, total }
    }

    /// Returns the number of covered normal bins.
    pub fn covered(self) -> (r: usize)
        ensures
            r == self@.0,
    {
        self.covered
    }

    /// Returns the number of uncovered normal bins.
    pub fn uncovered(self) -> (r: usize)
        ensures
            r == self@.1,
    {
        self.uncovered
    }

    /// Returns the total number of normal bins.
    pub fn total(self) -> (r: usize)
        ensures
            r == self@.2,
    {
        self.total
    }

    /// Returns whether every normal bin is covered.
    pub fn is_complete(self) -> (r: bool)
        ensures
            r == (self@.1 == 0),
    {
        self.uncovered == 0
    }
}

} // verus!

use vstd::prelude::*;
use vstd::std_specs::cmp::PartialEqSpec;

verus! {

/// Compares an expected result against an observed result.
pub trait Scoreboard<E, O> {
    /// Error returned when comparison fails.
    type Error;

    /// Checks one expected and observed result.
    fn check(&mut self, expected: E, observed: O) -> Result<(), Self::Error>;
}

/// Exact-equality scoreboard: accepts matching values and retains differing ones.
#[derive(Debug, Clone, Copy, Default, PartialEq, Eq)]
pub struct ExactScoreboard;

/// Exact comparison failure.
#[derive(Debug, Clone, PartialEq, Eq)]
pub struct Mismatch<E, O> {
    /// Expected value.
    pub expected: E,
    /// Observed value.
    pub observed: O,
}

impl<E, O> Mismatch<E, O> {
    /// Returns the expected value.
    pub fn expected(&self) -> (r: &E)
        ensures
            *r == self.expected,
    {
        &self.expected
    }

    /// Returns the observed value.
    pub fn observed(&self) -> (r: &O)
        ensures
            *r == self.observed,
    {
        &self.observed
    }

    /// Consumes the mismatch and returns both retained values.
    pub fn into_parts(self) -> (r: (E, O))
        ensures
            r == (self.expected, self.observed),
    {
        (self.expected, self.observed)
    }
}

impl<T: PartialEq> Scoreboard<T, T> for ExactScoreboard {
    type Error = Mismatch<T, T>;

    fn check(&mut self, expected: T, observed: T) -> (r: Result<(), Mismatch<T, T>>)
        ensures
            T::obeys_eq_spec() ==> (r is Ok <==> expected.eq_spec(&observed)),
            match r {
                Ok(()) => true,
                Err(m) => m.expected == expected && m.observed == observed,
            },
    {
        if expected == observed {
            return Ok(());
        }
        Err(Mismatch { expected, observed })
    }
}

} // verus!

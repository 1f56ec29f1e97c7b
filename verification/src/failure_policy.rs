use vstd::prelude::*;
use vstd::string::*;

verus! {

/// Policy controlling when check failures stop a testbench run.
///
/// Every policy has a finite, non-zero maximum, preventing unbounded
/// diagnostic storage.
#[derive(Debug, Clone, Copy, PartialEq, Eq)]
pub struct FailurePolicy {
    maximum_failures: usize,
}

/// Error returned for a zero failure-retention limit.
#[derive(Debug, Clone, Copy, PartialEq, Eq)]
pub struct InvalidFailureLimit;

impl InvalidFailureLimit {
    /// Human-readable description of the error.
    pub fn message(&self) -> (r: String)
        ensures
            r@ == "maximum failure count must be > 0"@,
    {
        String::from_str("maximum failure count must be > 0")
    }
}

impl View for FailurePolicy {
    type V = usize;

    closed spec fn view(&self) -> usize {
        self.maximum_failures
    }
}

impl FailurePolicy {
    #[verifier::type_invariant]
    closed spec fn inv(self) -> bool {
        self.maximum_failures > 0
    }

    /// Stops immediately after the first check failure.
    pub fn stop_on_first() -> (r: Self)
        ensures
            r@ == 1,
    {
        FailurePolicy { maximum_failures: 1 }
    }

    /// Creates a policy that collects at most `maximum_failures` failures.
    pub fn collect_up_to(maximum_failures: usize) -> (r: Result<Self, InvalidFailureLimit>)
        ensures
            match r {
                Ok(p) => maximum_failures > 0 && p@ == maximum_failures,
                Err(_) => maximum_failures == 0,
            },
    {
        if maximum_failures == 0 {
            Err(InvalidFailureLimit)
        } else {
            Ok(FailurePolicy { maximum_failures })
        }
    }

    /// Returns the retained-failure maximum.
    pub fn maximum_failures(self) -> (r: usize)
        ensures
            r == self@,
            r > 0,
    {
        proof {
            use_type_invariant(&self);
        }
        self.maximum_failures
    }

    /// Returns whether the current failure count requires termination.
    pub fn should_stop(self, failure_count: usize) -> (r: bool)
        ensures
            r == (failure_count >= self@),
    {
        failure_count >= self.maximum_failures
    }
}

impl Default for FailurePolicy {
    fn default() -> (r: Self)
        ensures
            r@ == 1,
    {
        FailurePolicy::stop_on_first()
    }
}

} // verus!

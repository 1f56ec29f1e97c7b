use vstd::prelude::*;
use vstd::std_specs::cmp::{PartialEqSpec, PartialOrdIs, PartialOrdSpec};

verus! {

/// Declarative matcher owned by a bin definition.
#[derive(Debug, Clone)]
pub enum BinMatcher<T> {
    /// Matches one exact value.
    Value {
        /// Expected value.
        expected: T,
    },
    /// Matches any value from one owned set.
    Values {
        /// Expected values in declaration order.
        members: Vec<T>,
    },
    /// Matches one inclusive range.
    InclusiveRange {
        /// Inclusive lower bound.
        start: T,
        /// Inclusive upper bound.
        end: T,
    },
}

/// Shape of a declarative matcher.
#[derive(Debug, Clone, Copy, PartialEq, Eq, Hash, Structural)]
pub enum BinMatcherKind {
    /// One exact value.
    Value,
    /// A value set.
    Values,
    /// An inclusive range.
    InclusiveRange,
}

/// Invalid declarative matcher definition.
#[derive(Debug, Clone, Copy, PartialEq, Eq)]
pub enum MatcherValidationError {
    /// A value-set bin contains no values.
    EmptyValueSet,
    /// A value-set bin repeats one value.
    DuplicateValue {
        /// Original value position.
        first: usize,
        /// Repeated value position.
        duplicate: usize,
    },
    /// Inclusive range bounds are reversed or incomparable.
    InvalidInclusiveRange,
}

/// Shape of a matcher.
pub open spec fn matcher_kind_of<T>(m: BinMatcher<T>) -> BinMatcherKind {
    match m {
        BinMatcher::Value { .. } => BinMatcherKind::Value,
        BinMatcher::Values { .. } => BinMatcherKind::Values,
        BinMatcher::InclusiveRange { .. } => BinMatcherKind::InclusiveRange,
    }
}

/// Operand count of a matcher: one value, the set size, or two bounds.
pub open spec fn matcher_operands_of<T>(m: BinMatcher<T>) -> nat {
    match m {
        BinMatcher::Value { .. } => 1,
        BinMatcher::Values { members } => members@.len(),
        BinMatcher::InclusiveRange { .. } => 2,
    }
}

/// Lowercase name of a matcher shape.
pub open spec fn matcher_kind_text(k: BinMatcherKind) -> Seq<char> {
    match k {
        BinMatcherKind::Value => "value"@,
        BinMatcherKind::Values => "values"@,
        BinMatcherKind::InclusiveRange => "inclusive_range"@,
    }
}

impl BinMatcherKind {
    /// Returns the lowercase name of the shape.
    pub fn text(self) -> (r: &'static str)
        ensures
            r@ == matcher_kind_text(self),
    {
        match self {
            BinMatcherKind::Value => "value",
            BinMatcherKind::Values => "values",
            BinMatcherKind::InclusiveRange => "inclusive_range",
        }
    }
}

/// The comparison operations of `T` are described by their specifications.
pub open spec fn obeys_order<T: PartialOrd>() -> bool {
    T::obeys_eq_spec() && T::obeys_partial_cmp_spec()
}

/// Whether a matcher accepts a sampled value, by the specified comparisons of `T`.
pub open spec fn matches_spec<T: PartialOrd>(m: BinMatcher<T>, v: T) -> bool {
    match m {
        BinMatcher::Value { expected } => v.eq_spec(&expected),
        BinMatcher::Values { members } => member_matches(members@, v),
        BinMatcher::InclusiveRange { start, end } => v.is_ge(&start) && v.is_le(&end),
    }
}

/// Whether some member equals the value, by the specified equality of `T`.
pub open spec fn member_matches<T: PartialEq>(members: Seq<T>, v: T) -> bool {
    exists|i: int| #![trigger members[i]] 0 <= i < members.len() && v.eq_spec(&members[i])
}

/// No two values of a set are equal, by the specified equality of `T`.
pub open spec fn distinct_values<T: PartialEq>(values: Seq<T>) -> bool {
    forall|f: int, d: int|
        #![trigger values[f], values[d]]
        0 <= f < d < values.len() ==> !values[f].eq_spec(&values[d])
}

/// `(first, duplicate)` is the first repeated pair: the earliest repeated
/// position, paired with the earliest equal value before it.
pub open spec fn first_duplicate<T: PartialEq>(values: Seq<T>, first: int, duplicate: int) -> bool {
    &&& 0 <= first < duplicate < values.len()
    &&& values[first].eq_spec(&values[duplicate])
    &&& forall|f: int| 0 <= f < first ==> !(#[trigger] values[f]).eq_spec(&values[duplicate])
    &&& distinct_values(values.subrange(0, duplicate))
}

impl<T> BinMatcher<T> {
    /// Creates an exact-value matcher.
    pub fn value(expected: T) -> (r: Self)
        ensures
            r == (BinMatcher::Value { expected }),
    {
        BinMatcher::Value { expected }
    }

    /// Creates a value-set matcher.
    pub fn values(expected: Vec<T>) -> (r: Self)
        ensures
            r == (BinMatcher::Values { members: expected }),
    {
        BinMatcher::Values { members: expected }
    }

    /// Creates an inclusive-range matcher.
    pub fn inclusive_range(start: T, end: T) -> (r: Self)
        ensures
            r == (BinMatcher::InclusiveRange { start, end }),
    {
        BinMatcher::InclusiveRange { start, end }
    }

    /// Returns the matcher shape.
    pub fn kind(&self) -> (r: BinMatcherKind)
        ensures
            r == (match *self {
                BinMatcher::Value { .. } => BinMatcherKind::Value,
                BinMatcher::Values { .. } => BinMatcherKind::Values,
                BinMatcher::InclusiveRange { .. } => BinMatcherKind::InclusiveRange,
            }),
    {
        match self {
            BinMatcher::Value { .. } => BinMatcherKind::Value,
            BinMatcher::Values { .. } => BinMatcherKind::Values,
            BinMatcher::InclusiveRange { .. } => BinMatcherKind::InclusiveRange,
        }
    }

    /// Returns the number of operands: one value, the set size, or two bounds.
    pub fn operand_count(&self) -> (r: usize)
        ensures
            r == (match *self {
                BinMatcher::Value { .. } => 1,
                BinMatcher::Values { members: expected } => expected@.len(),
                BinMatcher::InclusiveRange { .. } => 2,
            }),
    {
        match self {
            BinMatcher::Value { .. } => 1,
            BinMatcher::Values { members: expected } => expected.len(),
            BinMatcher::InclusiveRange { .. } => 2,
        }
    }

    /// Returns whether this matcher accepts a sampled value.
    pub fn matches(&self, sampled: &T) -> (r: bool) where T: PartialOrd
        ensures
            obeys_order::<T>() ==> r == matches_spec(*self, *sampled),
    {
        match self {
            BinMatcher::Value { expected } => sampled.eq(expected),
            BinMatcher::Values { members: expected } => {
                let mut i: usize = 0;
                while i < expected.len()
                    invariant
                        i <= expected@.len(),
                        *self == (BinMatcher::<T>::Values { members: *expected }),
                        obeys_order::<T>() ==> forall|j: int|
                            #![trigger expected@[j]]
                            0 <= j < i ==> !sampled.eq_spec(&expected@[j]),
                    decreases expected@.len() - i,
                {
                    if sampled.eq(&expected[i]) {
                        proof {
                            if obeys_order::<T>() {
                                assert(sampled.eq_spec(&expected@[i as int]));
                                assert(member_matches(expected@, *sampled));

                            }
                        }
                        return true;
                    }
                    i = i + 1;
                }
                false
            },
            BinMatcher::InclusiveRange { start, end } => sampled.ge(start) && sampled.le(end),
        }
    }

    /// Validates the matcher definition.
    pub fn validate(&self) -> (r: Result<(), MatcherValidationError>) where T: PartialOrd
        ensures
            match *self {
                BinMatcher::Value { .. } => r is Ok,
                BinMatcher::Values { members: expected } => {
                    &&& expected@.len() == 0 ==> r == Err::<(), MatcherValidationError>(
                        MatcherValidationError::EmptyValueSet,
                    )
                    &&& expected@.len() > 0 ==> match r {
                        Ok(()) => T::obeys_eq_spec() ==> distinct_values(expected@),
                        Err(MatcherValidationError::DuplicateValue { first, duplicate }) => {
                            &&& first < duplicate < expected@.len()
                            &&& T::obeys_eq_spec() ==> first_duplicate(
                                expected@,
                                first as int,
                                duplicate as int,
                            )
                        },
                        Err(_) => false,
                    }
                },
                BinMatcher::InclusiveRange { start, end } => {
                    &&& r is Err ==> r == Err::<(), MatcherValidationError>(
                        MatcherValidationError::InvalidInclusiveRange,
                    )
                    &&& obeys_order::<T>() ==> (r is Ok <==> start.is_le(&end))
                },
            },
    {
        match self {
            BinMatcher::Value { .. } => Ok(()),
            BinMatcher::Values { members: expected } => validate_values(expected.as_slice()),
            BinMatcher::InclusiveRange { start, end } => {
                if start.le(end) {
                    Ok(())
                } else {
                    Err(MatcherValidationError::InvalidInclusiveRange)
                }
            },
        }
    }
}

/// Validates one value-set matcher.
fn validate_values<T: PartialEq>(values: &[T]) -> (r: Result<(), MatcherValidationError>)
    ensures
        values@.len() == 0 ==> r == Err::<(), MatcherValidationError>(
            MatcherValidationError::EmptyValueSet,
        ),
        values@.len() > 0 ==> match r {
            Ok(()) => T::obeys_eq_spec() ==> distinct_values(values@),
            Err(MatcherValidationError::DuplicateValue { first, duplicate }) => {
                &&& first < duplicate < values@.len()
                &&& T::obeys_eq_spec() ==> first_duplicate(values@, first as int, duplicate as int)
            },
            Err(_) => false,
        },
{
    let len = values.len();
    if len == 0 {
        return Err(MatcherValidationError::EmptyValueSet);
    }
    let mut duplicate: usize = 0;
    while duplicate < len
        invariant
            len == values@.len(),
            duplicate <= len,
            T::obeys_eq_spec() ==> distinct_values(values@.subrange(0, duplicate as int)),
        decreases len - duplicate,
    {
        let mut first: usize = 0;
        while first < duplicate
            invariant
                len == values@.len(),
                first <= duplicate < len,
                T::obeys_eq_spec() ==> distinct_values(values@.subrange(0, duplicate as int)),
                T::obeys_eq_spec() ==> forall|f: int|
                    0 <= f < first ==> !(#[trigger] values@[f]).eq_spec(&values@[duplicate as int]),
            decreases duplicate - first,
        {
            if values[first].eq(&values[duplicate]) {
                return Err(MatcherValidationError::DuplicateValue { first, duplicate });
            }
            first = first + 1;
        }
        proof {
            if T::obeys_eq_spec() {
                let next = values@.subrange(0, duplicate + 1);
                let prev = values@.subrange(0, duplicate as int);
                assert forall|f: int, d: int|
                    #![trigger next[f], next[d]]
                    0 <= f < d < next.len() implies !next[f].eq_spec(&next[d]) by {
                    if d < duplicate {
                        assert(next[f] == prev[f] && next[d] == prev[d]);
                    } else {
                        assert(next[f] == values@[f]);
                    }
                }
            }
        }
        duplicate = duplicate + 1;
    }
    assert(values@.subrange(0, len as int) =~= values@);
    Ok(())
}

} // verus!

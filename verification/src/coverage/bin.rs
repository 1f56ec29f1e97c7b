use vstd::prelude::*;
use vstd::string::*;

use crate::coverage::matcher::{matches_spec, obeys_order, BinMatcher};

verus! {

/// Semantic role of one functional coverage bin.
#[derive(Debug, Clone, Copy, PartialEq, Eq, Hash, Structural)]
pub enum BinKind {
    /// A normal bin contributing to functional coverage.
    Normal,
    /// A bin whose matching samples are intentionally excluded.
    Ignore,
    /// A bin whose matching samples represent invalid behaviour.
    Illegal,
}

/// Lowercase name of a bin kind.
pub open spec fn bin_kind_text(kind: BinKind) -> Seq<char> {
    match kind {
        BinKind::Normal => "normal"@,
        BinKind::Ignore => "ignore"@,
        BinKind::Illegal => "illegal"@,
    }
}

impl BinKind {
    /// Returns the lowercase name of the kind.
    pub fn text(self) -> (r: &'static str)
        ensures
            r@ == bin_kind_text(self),
    {
        match self {
            BinKind::Normal => "normal",
            BinKind::Ignore => "ignore",
            BinKind::Illegal => "illegal",
        }
    }
}

/// Identifier of one bin within its owning coverpoint: its declaration ordinal.
#[derive(Debug, Clone, Copy, PartialEq, Eq, PartialOrd, Ord, Hash, Structural)]
pub struct BinId(pub u32);

impl BinId {
    /// Creates a coverpoint-local bin identifier.
    pub fn new(ordinal: u32) -> (r: Self)
        ensures
            r == BinId(ordinal),
    {
        BinId(ordinal)
    }

    /// Returns the declaration ordinal.
    pub fn ordinal(self) -> (r: u32)
        ensures
            r == self.0,
    {
        self.0
    }
}

/// Declarative definition of one functional coverage bin.
#[derive(Debug, Clone)]
pub struct Bin<T> {
    /// Stable user-provided name.
    pub name: String,
    /// Declarative matching rule.
    pub matcher: BinMatcher<T>,
    /// Requested hit threshold.
    pub required_hits: u64,
}

impl<T> Bin<T> {
    /// Creates a bin matching one exact value.
    pub fn value(name: &str, expected: T) -> (r: Self)
        ensures
            r.name@ == name@,
            r.matcher == (BinMatcher::Value { expected }),
            r.required_hits == 1,
    {
        Bin { name: String::from_str(name), matcher: BinMatcher::value(expected), required_hits: 1 }
    }

    /// Creates a bin matching any value from one set.
    pub fn values(name: &str, expected: Vec<T>) -> (r: Self)
        ensures
            r.name@ == name@,
            r.matcher == (BinMatcher::Values { members: expected }),
            r.required_hits == 1,
    {
        Bin {
            name: String::from_str(name),
            matcher: BinMatcher::values(expected),
            required_hits: 1,
        }
    }

    /// Creates a bin matching one inclusive range.
    pub fn inclusive_range(name: &str, start: T, end: T) -> (r: Self)
        ensures
            r.name@ == name@,
            r.matcher == (BinMatcher::InclusiveRange { start, end }),
            r.required_hits == 1,
    {
        Bin {
            name: String::from_str(name),
            matcher: BinMatcher::inclusive_range(start, end),
            required_hits: 1,
        }
    }

    /// Sets the normal-bin hit requirement.
    pub fn at_least(self, required_hits: u64) -> (r: Self)
        ensures
            r.name == self.name,
            r.matcher == self.matcher,
            r.required_hits == required_hits,
    {
        Bin { name: self.name, matcher: self.matcher, required_hits }
    }

    /// Returns the bin name.
    pub fn name(&self) -> (r: &str)
        ensures
            r@ == self.name@,
    {
        self.name.as_str()
    }

    /// Returns the requested hit requirement.
    pub fn requested_hits(&self) -> (r: u64)
        ensures
            r == self.required_hits,
    {
        self.required_hits
    }

    /// Returns the declarative matcher.
    pub fn matcher(&self) -> (r: &BinMatcher<T>)
        ensures
            *r == self.matcher,
    {
        &self.matcher
    }
}

/// Validated bin bound to a live coverpoint.
#[derive(Debug)]
pub struct CoverpointBin<T> {
    /// Deterministic coverpoint-local identifier.
    pub id: BinId,
    /// Semantic bin role.
    pub kind: BinKind,
    /// Bin definition.
    pub definition: Bin<T>,
    /// Validated non-zero hit threshold.
    pub required_hits: u64,
    /// Runtime hit count.
    pub hits: u64,
}

/// Whether a bin of the given kind, hit count and threshold is covered.
pub open spec fn bin_covered(kind: BinKind, hits: u64, required_hits: u64) -> bool {
    kind == BinKind::Normal && hits >= required_hits
}

impl<T> CoverpointBin<T> {
    /// Creates a validated live bin with no hits.
    pub fn new(id: BinId, kind: BinKind, definition: Bin<T>, required_hits: u64) -> (r: Self)
        requires
            required_hits > 0,
        ensures
            r == (CoverpointBin { id, kind, definition, required_hits, hits: 0 }),
    {
        CoverpointBin { id, kind, definition, required_hits, hits: 0 }
    }

    /// Returns the local identifier.
    pub fn id(&self) -> (r: BinId)
        ensures
            r == self.id,
    {
        self.id
    }

    /// Returns the bin name.
    pub fn name(&self) -> (r: &str)
        ensures
            r@ == self.definition.name@,
    {
        self.definition.name()
    }

    /// Returns the bin kind.
    pub fn kind(&self) -> (r: BinKind)
        ensures
            r == self.kind,
    {
        self.kind
    }

    /// Returns the required hit count.
    pub fn required_hits(&self) -> (r: u64)
        ensures
            r == self.required_hits,
    {
        self.required_hits
    }

    /// Returns the current hit count.
    pub fn hits(&self) -> (r: u64)
        ensures
            r == self.hits,
    {
        self.hits
    }

    /// Returns whether this normal bin is covered.
    pub fn covered(&self) -> (r: bool)
        ensures
            r == bin_covered(self.kind, self.hits, self.required_hits),
    {
        self.kind == BinKind::Normal && self.hits >= self.required_hits
    }

    /// Returns whether the bin matches a value.
    pub fn matches(&self, sampled: &T) -> (r: bool) where T: PartialOrd
        ensures
            obeys_order::<T>() ==> r == matches_spec(self.definition.matcher, *sampled),
    {
        self.definition.matcher.matches(sampled)
    }

    /// Returns the next hit count, or `None` on overflow.
    pub fn checked_next_hits(&self) -> (r: Option<u64>)
        ensures
            r == (if self.hits < u64::MAX {
                Some((self.hits + 1) as u64)
            } else {
                None::<u64>
            }),
    {
        if self.hits < u64::MAX {
            Some(self.hits + 1)
        } else {
            None
        }
    }

    /// Replaces the hit counter with a prepared value.
    pub fn set_hits(&mut self, hits: u64)
        ensures
            final(self).hits == hits,
            final(self).id == old(self).id,
            final(self).kind == old(self).kind,
            final(self).definition == old(self).definition,
            final(self).required_hits == old(self).required_hits,
    {
        self.hits = hits;
    }
}

} // verus!

use vstd::prelude::*;
use vstd::string::*;

use crate::coverage::group_error::{group_error_text, CoverageGroupError};
use crate::text::push_str;

verus! {

/// Kind of checked aggregate session count.
#[derive(Debug, Clone, Copy, PartialEq, Eq, Hash, Structural)]
pub enum CoverageSessionCountKind {
    /// Captured groups.
    Groups,
    /// Captured items.
    Items,
    /// Captured typed coverpoints.
    Coverpoints,
    /// Captured two-way crosses.
    Crosses,
    /// Aggregate covered bins.
    CoveredBins,
    /// Aggregate uncovered bins.
    UncoveredBins,
    /// Aggregate total bins.
    TotalBins,
}

/// Human-readable name of a session count.
pub open spec fn session_count_text(kind: CoverageSessionCountKind) -> Seq<char> {
    match kind {
        CoverageSessionCountKind::Groups => "group count"@,
        CoverageSessionCountKind::Items => "item count"@,
        CoverageSessionCountKind::Coverpoints => "coverpoint count"@,
        CoverageSessionCountKind::Crosses => "cross count"@,
        CoverageSessionCountKind::CoveredBins => "covered-bin count"@,
        CoverageSessionCountKind::UncoveredBins => "uncovered-bin count"@,
        CoverageSessionCountKind::TotalBins => "total-bin count"@,
    }
}

impl CoverageSessionCountKind {
    /// Returns the human-readable count name.
    pub fn text(self) -> (r: &'static str)
        ensures
            r@ == session_count_text(self),
    {
        match self {
            CoverageSessionCountKind::Groups => "group count",
            CoverageSessionCountKind::Items => "item count",
            CoverageSessionCountKind::Coverpoints => "coverpoint count",
            CoverageSessionCountKind::Crosses => "cross count",
            CoverageSessionCountKind::CoveredBins => "covered-bin count",
            CoverageSessionCountKind::UncoveredBins => "uncovered-bin count",
            CoverageSessionCountKind::TotalBins => "total-bin count",
        }
    }
}

/// Failure while building a per-test coverage session.
#[derive(Debug, Clone, PartialEq, Eq)]
pub enum CoverageSessionError {
    /// Test name is invalid.
    InvalidTestName {
        /// Provided name.
        name: String,
    },
    /// The group failed validation or summarisation.
    InvalidGroup {
        /// Test name.
        test: String,
        /// Group error.
        source: Box<CoverageGroupError>,
    },
    /// The session already holds a group at this instance path.
    DuplicateInstancePath {
        /// Test name.
        test: String,
        /// Repeated instance path.
        instance_path: String,
    },
    /// An aggregate session count overflowed.
    CountOverflow {
        /// Test name.
        test: String,
        /// Overflowing count.
        counter: CoverageSessionCountKind,
    },
}

/// Human-readable description of a session error.
pub open spec fn session_error_text(e: CoverageSessionError) -> Seq<char> {
    match e {
        CoverageSessionError::InvalidTestName { name } =>
            "invalid coverage-session test name `"@ + name@ + "`"@,
        CoverageSessionError::InvalidGroup { test, source } =>
            "coverage session for test `"@ + test@ + "` could not capture coverage group: "@
            + group_error_text(*source),
        CoverageSessionError::DuplicateInstancePath { test, instance_path } =>
            "coverage session for test `"@ + test@ + "` already contains instance path `"@
            + instance_path@ + "`"@,
        CoverageSessionError::CountOverflow { test, counter } =>
            "coverage session for test `"@ + test@ + "` overflowed its "@ + session_count_text(
                counter,
            ),
    }
}

impl CoverageSessionError {
    /// Returns the affected test name.
    pub fn test(&self) -> (r: &str)
        ensures
            r@ == match *self {
                CoverageSessionError::InvalidTestName { name } => name@,
                CoverageSessionError::InvalidGroup { test, .. } => test@,
                CoverageSessionError::DuplicateInstancePath { test, .. } => test@,
                CoverageSessionError::CountOverflow { test, .. } => test@,
            },
    {
        match self {
            CoverageSessionError::InvalidTestName { name } => name.as_str(),
            CoverageSessionError::InvalidGroup { test, .. } => test.as_str(),
            CoverageSessionError::DuplicateInstancePath { test, .. } => test.as_str(),
            CoverageSessionError::CountOverflow { test, .. } => test.as_str(),
        }
    }

    /// Returns the duplicate instance path when applicable.
    pub fn instance_path(&self) -> (r: Option<&str>)
        ensures
            match *self {
                CoverageSessionError::DuplicateInstancePath { instance_path, .. } => r is Some
                    && r->0@ == instance_path@,
                _ => r is None,
            },
    {
        match self {
            CoverageSessionError::DuplicateInstancePath { instance_path, .. } => Some(
                instance_path.as_str(),
            ),
            _ => None,
        }
    }

    /// Returns the group error when applicable.
    pub fn group_error(&self) -> (r: Option<&CoverageGroupError>)
        ensures
            match *self {
                CoverageSessionError::InvalidGroup { source, .. } => r == Some(&*source),
                _ => r is None,
            },
    {
        match self {
            CoverageSessionError::InvalidGroup { source, .. } => Some(&**source),
            _ => None,
        }
    }

    /// Returns the overflowing count when applicable.
    pub fn counter(&self) -> (r: Option<CoverageSessionCountKind>)
        ensures
            r == match *self {
                CoverageSessionError::CountOverflow { counter, .. } => Some(counter),
                _ => None::<CoverageSessionCountKind>,
            },
    {
        match self {
            CoverageSessionError::CountOverflow { counter, .. } => Some(*counter),
            _ => None,
        }
    }

    /// Human-readable description of the error.
    pub fn message(&self) -> (r: String)
        ensures
            r@ == session_error_text(*self),
    {
        let mut s = String::new();
        match self {
            CoverageSessionError::InvalidTestName { name } => {
                push_str(&mut s, "invalid coverage-session test name `");
                push_str(&mut s, name.as_str());
                push_str(&mut s, "`");
            },
            CoverageSessionError::InvalidGroup { test, source } => {
                push_str(&mut s, "coverage session for test `");
                push_str(&mut s, test.as_str());
                push_str(&mut s, "` could not capture coverage group: ");
                let inner = source.message();
                push_str(&mut s, inner.as_str());
            },
            CoverageSessionError::DuplicateInstancePath { test, instance_path } => {
                push_str(&mut s, "coverage session for test `");
                push_str(&mut s, test.as_str());
                push_str(&mut s, "` already contains instance path `");
                push_str(&mut s, instance_path.as_str());
                push_str(&mut s, "`");
            },
            CoverageSessionError::CountOverflow { test, counter } => {
                push_str(&mut s, "coverage session for test `");
                push_str(&mut s, test.as_str());
                push_str(&mut s, "` overflowed its ");
                push_str(&mut s, counter.text());
            },
        }
        s
    }
}

} // verus!

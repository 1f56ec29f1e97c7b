use vstd::prelude::*;
use vstd::string::*;

use crate::coverage::cross_error::{axis_text, CrossAxis};
use crate::text::push_str;

verus! {

/// Kind of checked aggregate group count.
#[derive(Debug, Clone, Copy, PartialEq, Eq, Hash, Structural)]
pub enum CoverageGroupCountKind {
    /// Exposed item count.
    Items,
    /// Typed coverpoint count.
    Coverpoints,
    /// Two-way cross count.
    Crosses,
    /// Aggregate covered bins.
    CoveredBins,
    /// Aggregate uncovered bins.
    UncoveredBins,
    /// Aggregate total bins.
    TotalBins,
}

/// Human-readable name of a group count.
pub open spec fn group_count_text(kind: CoverageGroupCountKind) -> Seq<char> {
    match kind {
        CoverageGroupCountKind::Items => "item count"@,
        CoverageGroupCountKind::Coverpoints => "coverpoint count"@,
        CoverageGroupCountKind::Crosses => "cross count"@,
        CoverageGroupCountKind::CoveredBins => "covered-bin count"@,
        CoverageGroupCountKind::UncoveredBins => "uncovered-bin count"@,
        CoverageGroupCountKind::TotalBins => "total-bin count"@,
    }
}

impl CoverageGroupCountKind {
    /// Returns the human-readable count name.
    pub fn text(self) -> (r: &'static str)
        ensures
            r@ == group_count_text(self),
    {
        match self {
            CoverageGroupCountKind::Items => "item count",
            CoverageGroupCountKind::Coverpoints => "coverpoint count",
            CoverageGroupCountKind::Crosses => "cross count",
            CoverageGroupCountKind::CoveredBins => "covered-bin count",
            CoverageGroupCountKind::UncoveredBins => "uncovered-bin count",
            CoverageGroupCountKind::TotalBins => "total-bin count",
        }
    }
}

/// Invalid coverage-group identity or structure.
#[derive(Debug, Clone, PartialEq, Eq)]
pub enum CoverageGroupError {
    /// Definition name is invalid.
    InvalidDefinitionName {
        /// Provided name.
        name: String,
    },
    /// Instance path is invalid.
    InvalidInstancePath {
        /// Provided path.
        path: String,
    },
    /// The group exposes no items.
    EmptyGroup {
        /// Definition name.
        definition: String,
        /// Instance path.
        instance: String,
    },
    /// Two items share one name.
    DuplicateItemName {
        /// Definition name.
        definition: String,
        /// Instance path.
        instance: String,
        /// Duplicated item name.
        item: String,
    },
    /// One coverpoint instance is exposed twice.
    DuplicateCoverpoint {
        /// Definition name.
        definition: String,
        /// Instance path.
        instance: String,
        /// Coverpoint name.
        coverpoint: String,
    },
    /// A cross references a coverpoint that the group does not expose.
    MissingCrossSource {
        /// Definition name.
        definition: String,
        /// Instance path.
        instance: String,
        /// Cross name.
        cross: String,
        /// Affected axis.
        axis: CrossAxis,
        /// Missing coverpoint name.
        coverpoint: String,
    },
    /// An aggregate count overflowed.
    CountOverflow {
        /// Definition name.
        definition: String,
        /// Instance path.
        instance: String,
        /// Overflowing count.
        counter: CoverageGroupCountKind,
    },
}

/// Human-readable description of a group error.
pub open spec fn group_error_text(e: CoverageGroupError) -> Seq<char> {
    match e {
        CoverageGroupError::InvalidDefinitionName { name } =>
            "invalid coverage-group definition name `"@ + name@ + "`"@,
        CoverageGroupError::InvalidInstancePath { path } =>
            "invalid coverage-group instance path `"@ + path@ + "`"@,
        CoverageGroupError::EmptyGroup { definition, instance } => "coverage group `"@
            + definition@ + "` instance `"@ + instance@ + "` contains no coverage items"@,
        CoverageGroupError::DuplicateItemName { definition, instance, item } =>
            "coverage group `"@ + definition@ + "` instance `"@ + instance@
            + "` contains duplicate item name `"@ + item@ + "`"@,
        CoverageGroupError::DuplicateCoverpoint { definition, instance, coverpoint } =>
            "coverage group `"@ + definition@ + "` instance `"@ + instance@
            + "` exposes coverpoint `"@ + coverpoint@ + "` more than once"@,
        CoverageGroupError::MissingCrossSource { definition, instance, cross, axis, coverpoint } =>
            "cross `"@ + cross@ + "` in coverage group `"@ + definition@ + "` instance `"@
            + instance@ + "` references missing "@ + axis_text(axis) + " coverpoint `"@
            + coverpoint@ + "`"@,
        CoverageGroupError::CountOverflow { definition, instance, counter } =>
            "coverage group `"@ + definition@ + "` instance `"@ + instance@ + "` overflowed "@
            + group_count_text(counter),
    }
}

impl CoverageGroupError {
    /// Returns the affected definition name when the identity was valid.
    pub fn definition(&self) -> (r: Option<&str>)
        ensures
            match *self {
                CoverageGroupError::InvalidDefinitionName { .. } => r is None,
                CoverageGroupError::InvalidInstancePath { .. } => r is None,
                CoverageGroupError::EmptyGroup { definition, .. } => r is Some && r->0@
                    == definition@,
                CoverageGroupError::DuplicateItemName { definition, .. } => r is Some && r->0@
                    == definition@,
                CoverageGroupError::DuplicateCoverpoint { definition, .. } => r is Some && r->0@
                    == definition@,
                CoverageGroupError::MissingCrossSource { definition, .. } => r is Some && r->0@
                    == definition@,
                CoverageGroupError::CountOverflow { definition, .. } => r is Some && r->0@
                    == definition@,
            },
    {
        match self {
            CoverageGroupError::InvalidDefinitionName { .. } => None,
            CoverageGroupError::InvalidInstancePath { .. } => None,
            CoverageGroupError::EmptyGroup { definition, .. } => Some(definition.as_str()),
            CoverageGroupError::DuplicateItemName { definition, .. } => Some(definition.as_str()),
            CoverageGroupError::DuplicateCoverpoint { definition, .. } => Some(
                definition.as_str(),
            ),
            CoverageGroupError::MissingCrossSource { definition, .. } => Some(definition.as_str()),
            CoverageGroupError::CountOverflow { definition, .. } => Some(definition.as_str()),
        }
    }

    /// Returns the affected instance path when available.
    pub fn instance(&self) -> (r: Option<&str>)
        ensures
            match *self {
                CoverageGroupError::InvalidDefinitionName { .. } => r is None,
                CoverageGroupError::InvalidInstancePath { path } => r is Some && r->0@ == path@,
                CoverageGroupError::EmptyGroup { instance, .. } => r is Some && r->0@
                    == instance@,
                CoverageGroupError::DuplicateItemName { instance, .. } => r is Some && r->0@
                    == instance@,
                CoverageGroupError::DuplicateCoverpoint { instance, .. } => r is Some && r->0@
                    == instance@,
                CoverageGroupError::MissingCrossSource { instance, .. } => r is Some && r->0@
                    == instance@,
                CoverageGroupError::CountOverflow { instance, .. } => r is Some && r->0@
                    == instance@,
            },
    {
        match self {
            CoverageGroupError::InvalidDefinitionName { .. } => None,
            CoverageGroupError::InvalidInstancePath { path } => Some(path.as_str()),
            CoverageGroupError::EmptyGroup { instance, .. } => Some(instance.as_str()),
            CoverageGroupError::DuplicateItemName { instance, .. } => Some(instance.as_str()),
            CoverageGroupError::DuplicateCoverpoint { instance, .. } => Some(instance.as_str()),
            CoverageGroupError::MissingCrossSource { instance, .. } => Some(instance.as_str()),
            CoverageGroupError::CountOverflow { instance, .. } => Some(instance.as_str()),
        }
    }

    /// Returns the duplicated item name when applicable.
    pub fn item(&self) -> (r: Option<&str>)
        ensures
            match *self {
                CoverageGroupError::DuplicateItemName { item, .. } => r is Some && r->0@
                    == item@,
                _ => r is None,
            },
    {
        match self {
            CoverageGroupError::DuplicateItemName { item, .. } => Some(item.as_str()),
            _ => None,
        }
    }

    /// Returns the cross name when applicable.
    pub fn cross(&self) -> (r: Option<&str>)
        ensures
            match *self {
                CoverageGroupError::MissingCrossSource { cross, .. } => r is Some && r->0@
                    == cross@,
                _ => r is None,
            },
    {
        match self {
            CoverageGroupError::MissingCrossSource { cross, .. } => Some(cross.as_str()),
            _ => None,
        }
    }

    /// Returns the affected cross axis when applicable.
    pub fn axis(&self) -> (r: Option<CrossAxis>)
        ensures
            r == match *self {
                CoverageGroupError::MissingCrossSource { axis, .. } => Some(axis),
                _ => None::<CrossAxis>,
            },
    {
        match self {
            CoverageGroupError::MissingCrossSource { axis, .. } => Some(*axis),
            _ => None,
        }
    }

    /// Returns the affected coverpoint name when applicable.
    pub fn coverpoint(&self) -> (r: Option<&str>)
        ensures
            match *self {
                CoverageGroupError::DuplicateCoverpoint { coverpoint, .. } => r is Some && r->0@
                    == coverpoint@,
                CoverageGroupError::MissingCrossSource { coverpoint, .. } => r is Some && r->0@
                    == coverpoint@,
                _ => r is None,
            },
    {
        match self {
            CoverageGroupError::DuplicateCoverpoint { coverpoint, .. } => Some(
                coverpoint.as_str(),
            ),
            CoverageGroupError::MissingCrossSource { coverpoint, .. } => Some(coverpoint.as_str()),
            _ => None,
        }
    }

    /// Returns the overflowing count when applicable.
    pub fn counter(&self) -> (r: Option<CoverageGroupCountKind>)
        ensures
            r == match *self {
                CoverageGroupError::CountOverflow { counter, .. } => Some(counter),
                _ => None::<CoverageGroupCountKind>,
            },
    {
        match self {
            CoverageGroupError::CountOverflow { counter, .. } => Some(*counter),
            _ => None,
        }
    }

    /// Human-readable description of the error.
    pub fn message(&self) -> (r: String)
        ensures
            r@ == group_error_text(*self),
    {
        let mut s = String::new();
        match self {
            CoverageGroupError::InvalidDefinitionName { name } => {
                push_str(&mut s, "invalid coverage-group definition name `");
                push_str(&mut s, name.as_str());
                push_str(&mut s, "`");
            },
            CoverageGroupError::InvalidInstancePath { path } => {
                push_str(&mut s, "invalid coverage-group instance path `");
                push_str(&mut s, path.as_str());
                push_str(&mut s, "`");
            },
            CoverageGroupError::EmptyGroup { definition, instance } => {
                push_str(&mut s, "coverage group `");
                push_str(&mut s, definition.as_str());
                push_str(&mut s, "` instance `");
                push_str(&mut s, instance.as_str());
                push_str(&mut s, "` contains no coverage items");
            },
            CoverageGroupError::DuplicateItemName { definition, instance, item } => {
                push_str(&mut s, "coverage group `");
                push_str(&mut s, definition.as_str());
                push_str(&mut s, "` instance `");
                push_str(&mut s, instance.as_str());
                push_str(&mut s, "` contains duplicate item name `");
                push_str(&mut s, item.as_str());
                push_str(&mut s, "`");
            },
            CoverageGroupError::DuplicateCoverpoint { definition, instance, coverpoint } => {
                push_str(&mut s, "coverage group `");
                push_str(&mut s, definition.as_str());
                push_str(&mut s, "` instance `");
                push_str(&mut s, instance.as_str());
                push_str(&mut s, "` exposes coverpoint `");
                push_str(&mut s, coverpoint.as_str());
                push_str(&mut s, "` more than once");
            },
            CoverageGroupError::MissingCrossSource {
                definition,
                instance,
                cross,
                axis,
                coverpoint,
            } => {
                push_str(&mut s, "cross `");
                push_str(&mut s, cross.as_str());
                push_str(&mut s, "` in coverage group `");
                push_str(&mut s, definition.as_str());
                push_str(&mut s, "` instance `");
                push_str(&mut s, instance.as_str());
                push_str(&mut s, "` references missing ");
                push_str(&mut s, axis.text());
                push_str(&mut s, " coverpoint `");
                push_str(&mut s, coverpoint.as_str());
                push_str(&mut s, "`");
            },
            CoverageGroupError::CountOverflow { definition, instance, counter } => {
                push_str(&mut s, "coverage group `");
                push_str(&mut s, definition.as_str());
                push_str(&mut s, "` instance `");
                push_str(&mut s, instance.as_str());
                push_str(&mut s, "` overflowed ");
                push_str(&mut s, counter.text());
            },
        }
        s
    }
}

} // verus!

use vstd::prelude::*;
use vstd::string::*;

use crate::coverage::bin::BinId;
use crate::text::{decimal_spec, push_decimal, push_str};

verus! {

/// Opaque identifier of one bin within its owning cross: its row-major ordinal.
#[derive(Debug, Clone, Copy, PartialEq, Eq, PartialOrd, Ord, Hash, Structural)]
pub struct CrossBinId(pub u32);

impl CrossBinId {
    /// Creates a cross-local bin identifier.
    pub fn new(ordinal: u32) -> (r: Self)
        ensures
            r == CrossBinId(ordinal),
    {
        CrossBinId(ordinal)
    }

    /// Returns the cross-local ordinal.
    pub fn ordinal(self) -> (r: u32)
        ensures
            r == self.0,
    {
        self.0
    }
}

/// Invalid two-way cross definition.
#[derive(Debug, Clone, PartialEq, Eq)]
pub enum CrossBuildError {
    /// Cross name is invalid.
    InvalidName {
        /// Invalid name.
        name: String,
    },
    /// Generated cross bins have a zero hit threshold.
    ZeroRequiredHits {
        /// Cross name.
        cross: String,
    },
    /// Cross-bin cardinality limit is zero.
    ZeroBinLimit {
        /// Cross name.
        cross: String,
    },
    /// Axis cardinality multiplication overflowed.
    CardinalityOverflow {
        /// Cross name.
        cross: String,
        /// Left normal-bin count.
        left_bins: usize,
        /// Right normal-bin count.
        right_bins: usize,
    },
    /// Generated cardinality exceeds the configured bound.
    BinLimitExceeded {
        /// Cross name.
        cross: String,
        /// Left normal-bin count.
        left_bins: usize,
        /// Right normal-bin count.
        right_bins: usize,
        /// Requested generated-bin count.
        total_bins: usize,
        /// Configured maximum.
        limit: usize,
    },
    /// Generated bins cannot be represented by `CrossBinId`.
    TooManyBins {
        /// Cross name.
        cross: String,
        /// Generated-bin count.
        total_bins: usize,
    },
}

/// Human-readable description of a cross build error.
pub open spec fn cross_build_error_text(e: CrossBuildError) -> Seq<char> {
    match e {
        CrossBuildError::InvalidName { name } => "invalid functional coverage cross name `"@
            + name@ + "`"@,
        CrossBuildError::ZeroRequiredHits { cross } => "cross `"@ + cross@
            + "` requires a non-zero hit threshold"@,
        CrossBuildError::ZeroBinLimit { cross } => "cross `"@ + cross@
            + "` requires a non-zero bin limit"@,
        CrossBuildError::CardinalityOverflow { cross, left_bins, right_bins } => "cross `"@
            + cross@ + "` cardinality overflow: "@ + decimal_spec(left_bins as nat)
            + " left bins × "@ + decimal_spec(right_bins as nat) + " right bins"@,
        CrossBuildError::BinLimitExceeded { cross, total_bins, limit, .. } => "cross `"@ + cross@
            + "` would generate "@ + decimal_spec(total_bins as nat) + " bins, exceeding limit "@
            + decimal_spec(limit as nat),
        CrossBuildError::TooManyBins { cross, total_bins } => "cross `"@ + cross@
            + "` contains too many bins: "@ + decimal_spec(total_bins as nat),
    }
}

impl CrossBuildError {
    /// Returns the affected cross name, when the name itself was valid.
    pub fn cross(&self) -> (r: Option<&str>)
        ensures
            match *self {
                CrossBuildError::InvalidName { .. } => r is None,
                CrossBuildError::ZeroRequiredHits { cross } => r is Some && r->0@ == cross@,
                CrossBuildError::ZeroBinLimit { cross } => r is Some && r->0@ == cross@,
                CrossBuildError::CardinalityOverflow { cross, .. } => r is Some && r->0@ == cross@,
                CrossBuildError::BinLimitExceeded { cross, .. } => r is Some && r->0@ == cross@,
                CrossBuildError::TooManyBins { cross, .. } => r is Some && r->0@ == cross@,
            },
    {
        match self {
            CrossBuildError::InvalidName { .. } => None,
            CrossBuildError::ZeroRequiredHits { cross } => Some(cross.as_str()),
            CrossBuildError::ZeroBinLimit { cross } => Some(cross.as_str()),
            CrossBuildError::CardinalityOverflow { cross, .. } => Some(cross.as_str()),
            CrossBuildError::BinLimitExceeded { cross, .. } => Some(cross.as_str()),
            CrossBuildError::TooManyBins { cross, .. } => Some(cross.as_str()),
        }
    }

    /// Human-readable description of the error.
    pub fn message(&self) -> (r: String)
        ensures
            r@ == cross_build_error_text(*self),
    {
        let mut s = String::new();
        match self {
            CrossBuildError::InvalidName { name } => {
                push_str(&mut s, "invalid functional coverage cross name `");
                push_str(&mut s, name.as_str());
                push_str(&mut s, "`");
            },
            CrossBuildError::ZeroRequiredHits { cross } => {
                push_str(&mut s, "cross `");
                push_str(&mut s, cross.as_str());
                push_str(&mut s, "` requires a non-zero hit threshold");
            },
            CrossBuildError::ZeroBinLimit { cross } => {
                push_str(&mut s, "cross `");
                push_str(&mut s, cross.as_str());
                push_str(&mut s, "` requires a non-zero bin limit");
            },
            CrossBuildError::CardinalityOverflow { cross, left_bins, right_bins } => {
                push_str(&mut s, "cross `");
                push_str(&mut s, cross.as_str());
                push_str(&mut s, "` cardinality overflow: ");
                push_decimal(&mut s, *left_bins as u64);
                push_str(&mut s, " left bins × ");
                push_decimal(&mut s, *right_bins as u64);
                push_str(&mut s, " right bins");
            },
            CrossBuildError::BinLimitExceeded { cross, total_bins, limit, .. } => {
                push_str(&mut s, "cross `");
                push_str(&mut s, cross.as_str());
                push_str(&mut s, "` would generate ");
                push_decimal(&mut s, *total_bins as u64);
                push_str(&mut s, " bins, exceeding limit ");
                push_decimal(&mut s, *limit as u64);
            },
            CrossBuildError::TooManyBins { cross, total_bins } => {
                push_str(&mut s, "cross `");
                push_str(&mut s, cross.as_str());
                push_str(&mut s, "` contains too many bins: ");
                push_decimal(&mut s, *total_bins as u64);
            },
        }
        s
    }
}

/// Side of a two-way cross.
#[derive(Debug, Clone, Copy, PartialEq, Eq, Hash, Structural)]
pub enum CrossAxis {
    /// Left coverpoint.
    Left,
    /// Right coverpoint.
    Right,
}

/// Lowercase name of an axis.
pub open spec fn axis_text(axis: CrossAxis) -> Seq<char> {
    match axis {
        CrossAxis::Left => "left"@,
        CrossAxis::Right => "right"@,
    }
}

impl CrossAxis {
    /// Returns the lowercase axis name.
    pub fn text(self) -> (r: &'static str)
        ensures
            r@ == axis_text(self),
    {
        match self {
            CrossAxis::Left => "left",
            CrossAxis::Right => "right",
        }
    }
}

/// Kind of two-way cross counter.
#[derive(Debug, Clone, Copy, PartialEq, Eq, Hash, Structural)]
pub enum CrossCounterKind {
    /// Total cross sample calls.
    Samples,
    /// Samples skipped because one axis did not hit.
    SkippedSamples,
    /// One generated cross-bin hit count.
    BinHits,
}

/// Human-readable name of a cross counter.
pub open spec fn cross_counter_text(kind: CrossCounterKind) -> Seq<char> {
    match kind {
        CrossCounterKind::Samples => "total sample count"@,
        CrossCounterKind::SkippedSamples => "skipped sample count"@,
        CrossCounterKind::BinHits => "bin hit count"@,
    }
}

impl CrossCounterKind {
    /// Returns the human-readable counter name.
    pub fn text(self) -> (r: &'static str)
        ensures
            r@ == cross_counter_text(self),
    {
        match self {
            CrossCounterKind::Samples => "total sample count",
            CrossCounterKind::SkippedSamples => "skipped sample count",
            CrossCounterKind::BinHits => "bin hit count",
        }
    }
}

/// Failure while sampling a two-way cross.
#[derive(Debug, Clone, PartialEq, Eq)]
pub enum CrossSampleError {
    /// Sample originated from a different coverpoint instance.
    SourceMismatch {
        /// Cross name.
        cross: String,
        /// Affected axis.
        axis: CrossAxis,
        /// Expected coverpoint name.
        expected: String,
        /// Actual coverpoint name.
        actual: String,
    },
    /// A source sample contains an unknown bin ID.
    UnknownBin {
        /// Cross name.
        cross: String,
        /// Affected axis.
        axis: CrossAxis,
        /// Source coverpoint name.
        coverpoint: String,
        /// Unknown source-bin ID.
        bin: BinId,
    },
    /// A cross counter could not be incremented.
    CounterOverflow {
        /// Cross name.
        cross: String,
        /// Cross bin for bin-local overflow.
        bin: Option<CrossBinId>,
        /// Counter kind.
        counter: CrossCounterKind,
    },
}

/// Human-readable description of a cross sampling error.
pub open spec fn cross_sample_error_text(e: CrossSampleError) -> Seq<char> {
    match e {
        CrossSampleError::SourceMismatch { cross, axis, expected, actual } => "cross `"@ + cross@
            + "` expected "@ + axis_text(axis) + " sample from `"@ + expected@
            + "`, but received a sample from `"@ + actual@ + "`"@,
        CrossSampleError::UnknownBin { cross, axis, coverpoint, .. } => "cross `"@ + cross@
            + "` received unknown "@ + axis_text(axis) + " bin ID from `"@ + coverpoint@ + "`"@,
        CrossSampleError::CounterOverflow { cross, bin, counter } => match bin {
            Some(b) => "functional coverage cross counter overflow in `"@ + cross@
                + "`: "@ + "cross bin hit count (CrossBinId("@ + decimal_spec(b.0 as nat) + ")): "@
                + cross_counter_text(counter),
            None => "functional coverage cross counter overflow in `"@ + cross@ + "`: "@
                + cross_counter_text(counter),
        },
    }
}

impl CrossSampleError {
    /// Returns the affected cross name.
    pub fn cross(&self) -> (r: &str)
        ensures
            r@ == match *self {
                CrossSampleError::SourceMismatch { cross, .. } => cross@,
                CrossSampleError::UnknownBin { cross, .. } => cross@,
                CrossSampleError::CounterOverflow { cross, .. } => cross@,
            },
    {
        match self {
            CrossSampleError::SourceMismatch { cross, .. } => cross.as_str(),
            CrossSampleError::UnknownBin { cross, .. } => cross.as_str(),
            CrossSampleError::CounterOverflow { cross, .. } => cross.as_str(),
        }
    }

    /// Returns the affected axis when applicable.
    pub fn axis(&self) -> (r: Option<CrossAxis>)
        ensures
            r == match *self {
                CrossSampleError::SourceMismatch { axis, .. } => Some(axis),
                CrossSampleError::UnknownBin { axis, .. } => Some(axis),
                CrossSampleError::CounterOverflow { .. } => None::<CrossAxis>,
            },
    {
        match self {
            CrossSampleError::SourceMismatch { axis, .. } => Some(*axis),
            CrossSampleError::UnknownBin { axis, .. } => Some(*axis),
            CrossSampleError::CounterOverflow { .. } => None,
        }
    }

    /// Returns the expected source name for a mismatch.
    pub fn expected(&self) -> (r: Option<&str>)
        ensures
            match *self {
                CrossSampleError::SourceMismatch { expected, .. } => r is Some && r->0@
                    == expected@,
                _ => r is None,
            },
    {
        match self {
            CrossSampleError::SourceMismatch { expected, .. } => Some(expected.as_str()),
            _ => None,
        }
    }

    /// Returns the actual source name for a mismatch.
    pub fn actual(&self) -> (r: Option<&str>)
        ensures
            match *self {
                CrossSampleError::SourceMismatch { actual, .. } => r is Some && r->0@ == actual@,
                _ => r is None,
            },
    {
        match self {
            CrossSampleError::SourceMismatch { actual, .. } => Some(actual.as_str()),
            _ => None,
        }
    }

    /// Returns the unknown source-bin ID when applicable.
    pub fn source_bin(&self) -> (r: Option<BinId>)
        ensures
            r == match *self {
                CrossSampleError::UnknownBin { bin, .. } => Some(bin),
                _ => None::<BinId>,
            },
    {
        match self {
            CrossSampleError::UnknownBin { bin, .. } => Some(*bin),
            _ => None,
        }
    }

    /// Returns the overflowing cross-bin ID when applicable.
    pub fn bin(&self) -> (r: Option<CrossBinId>)
        ensures
            r == match *self {
                CrossSampleError::CounterOverflow { bin, .. } => bin,
                _ => None::<CrossBinId>,
            },
    {
        match self {
            CrossSampleError::CounterOverflow { bin, .. } => *bin,
            _ => None,
        }
    }

    /// Returns the overflowing counter kind when applicable.
    pub fn counter(&self) -> (r: Option<CrossCounterKind>)
        ensures
            r == match *self {
                CrossSampleError::CounterOverflow { counter, .. } => Some(counter),
                _ => None::<CrossCounterKind>,
            },
    {
        match self {
            CrossSampleError::CounterOverflow { counter, .. } => Some(*counter),
            _ => None,
        }
    }

    /// Human-readable description of the error.
    pub fn message(&self) -> (r: String)
        ensures
            r@ == cross_sample_error_text(*self),
    {
        let mut s = String::new();
        match self {
            CrossSampleError::SourceMismatch { cross, axis, expected, actual } => {
                push_str(&mut s, "cross `");
                push_str(&mut s, cross.as_str());
                push_str(&mut s, "` expected ");
                push_str(&mut s, axis.text());
                push_str(&mut s, " sample from `");
                push_str(&mut s, expected.as_str());
                push_str(&mut s, "`, but received a sample from `");
                push_str(&mut s, actual.as_str());
                push_str(&mut s, "`");
            },
            CrossSampleError::UnknownBin { cross, axis, coverpoint, .. } => {
                push_str(&mut s, "cross `");
                push_str(&mut s, cross.as_str());
                push_str(&mut s, "` received unknown ");
                push_str(&mut s, axis.text());
                push_str(&mut s, " bin ID from `");
                push_str(&mut s, coverpoint.as_str());
                push_str(&mut s, "`");
            },
            CrossSampleError::CounterOverflow { cross, bin, counter } => {
                push_str(&mut s, "functional coverage cross counter overflow in `");
                push_str(&mut s, cross.as_str());
                push_str(&mut s, "`: ");
                match bin {
                    Some(b) => {
                        push_str(&mut s, "cross bin hit count (CrossBinId(");
                        push_decimal(&mut s, b.0 as u64);
                        push_str(&mut s, ")): ");
                    },
                    None => {},
                }
                push_str(&mut s, counter.text());
            },
        }
        s
    }
}

} // verus!

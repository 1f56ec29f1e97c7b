use vstd::prelude::*;
use vstd::string::*;

use crate::coverage::bin::{bin_kind_text, BinKind};
use crate::text::push_str;

verus! {

/// Kind of functional coverage counter.
#[derive(Debug, Clone, Copy, PartialEq, Eq, Hash, Structural)]
pub enum CoverageCounterKind {
    /// Total attempted samples.
    Samples,
    /// Ignored samples.
    IgnoredSamples,
    /// Illegal samples.
    IllegalSamples,
    /// Unmatched samples.
    UnmatchedSamples,
    /// One bin's hit count.
    BinHits,
}

/// Human-readable name of a coverage counter.
pub open spec fn counter_text(kind: CoverageCounterKind) -> Seq<char> {
    match kind {
        CoverageCounterKind::Samples => "total sample count"@,
        CoverageCounterKind::IgnoredSamples => "ignored sample count"@,
        CoverageCounterKind::IllegalSamples => "illegal sample count"@,
        CoverageCounterKind::UnmatchedSamples => "unmatched sample count"@,
        CoverageCounterKind::BinHits => "bin hit count"@,
    }
}

impl CoverageCounterKind {
    /// Returns the human-readable counter name.
    pub fn text(self) -> (r: &'static str)
        ensures
            r@ == counter_text(self),
    {
        match self {
            CoverageCounterKind::Samples => "total sample count",
            CoverageCounterKind::IgnoredSamples => "ignored sample count",
            CoverageCounterKind::IllegalSamples => "illegal sample count",
            CoverageCounterKind::UnmatchedSamples => "unmatched sample count",
            CoverageCounterKind::BinHits => "bin hit count",
        }
    }
}

/// Invalid functional coverage definition, reported while building a coverpoint.
#[derive(Debug, Clone, PartialEq, Eq)]
pub enum CoverageBuildError {
    /// Coverpoint name is invalid.
    InvalidCoverpointName {
        /// Provided name.
        name: String,
    },
    /// Bin name is invalid.
    InvalidBinName {
        /// Owning coverpoint.
        coverpoint: String,
        /// Provided bin name.
        bin: String,
    },
    /// Two bins share one name.
    DuplicateBinName {
        /// Owning coverpoint.
        coverpoint: String,
        /// Provided bin name.
        bin: String,
    },
    /// No normal bins were provided.
    NoNormalBins {
        /// Coverpoint name.
        coverpoint: String,
    },
    /// Value-set matcher contains no values.
    EmptyValueSet {
        /// Coverpoint name.
        coverpoint: String,
        /// Bin name.
        bin: String,
    },
    /// Value-set matcher repeats a value.
    DuplicateValue {
        /// Coverpoint name.
        coverpoint: String,
        /// Bin name.
        bin: String,
        /// First position.
        first: usize,
        /// Duplicate value position.
        duplicate: usize,
    },
    /// Inclusive range bounds are invalid.
    InvalidInclusiveRange {
        /// Coverpoint name.
        coverpoint: String,
        /// Bin name.
        bin: String,
    },
    /// Normal-bin hit threshold is zero.
    ZeroRequiredHits {
        /// Coverpoint name.
        coverpoint: String,
        /// Bin name.
        bin: String,
    },
    /// Ignore or illegal bin has a custom threshold.
    HitRequirementOnExcludedBin {
        /// Coverpoint name.
        coverpoint: String,
        /// Bin name.
        bin: String,
        /// Excluded bin kind.
        kind: BinKind,
    },
    /// More bins exist than `BinId` can represent.
    TooManyBins {
        /// Coverpoint name.
        coverpoint: String,
    },
}

/// Human-readable description of a build error.
pub open spec fn build_error_text(e: CoverageBuildError) -> Seq<char> {
    match e {
        CoverageBuildError::InvalidCoverpointName { name } => "coverpoint name `"@ + name@
            + "` is invalid"@,
        CoverageBuildError::InvalidBinName { coverpoint, bin } => "coverpoint `"@ + coverpoint@
            + "`, bin `"@ + bin@ + "` name is invalid"@,
        CoverageBuildError::DuplicateBinName { coverpoint, bin } => "coverpoint `"@ + coverpoint@
            + "` already contains bin `"@ + bin@ + "`"@,
        CoverageBuildError::NoNormalBins { coverpoint } => "coverpoint `"@ + coverpoint@
            + "` contains no normal bins"@,
        CoverageBuildError::EmptyValueSet { coverpoint, bin } => "coverpoint `"@ + coverpoint@
            + "`, bin `"@ + bin@ + "` contains no values to match against"@,
        CoverageBuildError::DuplicateValue { coverpoint, bin, .. } => "coverpoint `"@
            + coverpoint@ + "`, bin `"@ + bin@ + "` contains duplicate values"@,
        CoverageBuildError::InvalidInclusiveRange { coverpoint, bin } => "coverpoint `"@
            + coverpoint@ + "`, bin `"@ + bin@ + "` inclusive range boundaries are invalid"@,
        CoverageBuildError::ZeroRequiredHits { coverpoint, bin } => "coverpoint `"@ + coverpoint@
            + "`, normal bin `"@ + bin@ + "` hit threshold is zero"@,
        CoverageBuildError::HitRequirementOnExcludedBin { coverpoint, bin, kind } =>
            "coverpoint `"@ + coverpoint@ + "`, excluded "@ + bin_kind_text(kind) + " bin `"@
            + bin@ + "` has a non-zero hit requirement"@,
        CoverageBuildError::TooManyBins { coverpoint } => "coverpoint `"@ + coverpoint@
            + "` contains too many bins"@,
    }
}

impl CoverageBuildError {
    /// Human-readable description of the error.
    pub fn message(&self) -> (r: String)
        ensures
            r@ == build_error_text(*self),
    {
        let mut s = String::new();
        match self {
            CoverageBuildError::InvalidCoverpointName { name } => {
                push_str(&mut s, "coverpoint name `");
                push_str(&mut s, name.as_str());
                push_str(&mut s, "` is invalid");
            },
            CoverageBuildError::InvalidBinName { coverpoint, bin } => {
                push_str(&mut s, "coverpoint `");
                push_str(&mut s, coverpoint.as_str());
                push_str(&mut s, "`, bin `");
                push_str(&mut s, bin.as_str());
                push_str(&mut s, "` name is invalid");
            },
            CoverageBuildError::DuplicateBinName { coverpoint, bin } => {
                push_str(&mut s, "coverpoint `");
                push_str(&mut s, coverpoint.as_str());
                push_str(&mut s, "` already contains bin `");
                push_str(&mut s, bin.as_str());
                push_str(&mut s, "`");
            },
            CoverageBuildError::NoNormalBins { coverpoint } => {
                push_str(&mut s, "coverpoint `");
                push_str(&mut s, coverpoint.as_str());
                push_str(&mut s, "` contains no normal bins");
            },
            CoverageBuildError::EmptyValueSet { coverpoint, bin } => {
                push_str(&mut s, "coverpoint `");
                push_str(&mut s, coverpoint.as_str());
                push_str(&mut s, "`, bin `");
                push_str(&mut s, bin.as_str());
                push_str(&mut s, "` contains no values to match against");
            },
            CoverageBuildError::DuplicateValue { coverpoint, bin, .. } => {
                push_str(&mut s, "coverpoint `");
                push_str(&mut s, coverpoint.as_str());
                push_str(&mut s, "`, bin `");
                push_str(&mut s, bin.as_str());
                push_str(&mut s, "` contains duplicate values");
            },
            CoverageBuildError::InvalidInclusiveRange { coverpoint, bin } => {
                push_str(&mut s, "coverpoint `");
                push_str(&mut s, coverpoint.as_str());
                push_str(&mut s, "`, bin `");
                push_str(&mut s, bin.as_str());
                push_str(&mut s, "` inclusive range boundaries are invalid");
            },
            CoverageBuildError::ZeroRequiredHits { coverpoint, bin } => {
                push_str(&mut s, "coverpoint `");
                push_str(&mut s, coverpoint.as_str());
                push_str(&mut s, "`, normal bin `");
                push_str(&mut s, bin.as_str());
                push_str(&mut s, "` hit threshold is zero");
            },
            CoverageBuildError::HitRequirementOnExcludedBin { coverpoint, bin, kind } => {
                push_str(&mut s, "coverpoint `");
                push_str(&mut s, coverpoint.as_str());
                push_str(&mut s, "`, excluded ");
                push_str(&mut s, kind.text());
                push_str(&mut s, " bin `");
                push_str(&mut s, bin.as_str());
                push_str(&mut s, "` has a non-zero hit requirement");
            },
            CoverageBuildError::TooManyBins { coverpoint } => {
                push_str(&mut s, "coverpoint `");
                push_str(&mut s, coverpoint.as_str());
                push_str(&mut s, "` contains too many bins");
            },
        }
        s
    }
}

/// Failure while sampling functional coverage.
///
/// An illegal-bin hit is a semantic invalid-coverage event: its counters are
/// recorded before the error is returned. A counter overflow means an update
/// cannot be represented, and no counter changes.
#[derive(Debug, Clone, PartialEq, Eq)]
pub enum CoverageSampleError {
    /// One or more illegal bins matched.
    IllegalBinHit {
        /// Coverpoint name.
        coverpoint: String,
        /// Matching illegal bins.
        bins: Vec<String>,
        /// Debug representation of the sample.
        sampled_value: String,
    },
    /// One counter could not be incremented.
    CounterOverflow {
        /// Coverpoint name.
        coverpoint: String,
        /// Bin name for bin-local counters.
        bin: Option<String>,
        /// Counter that overflowed.
        counter: CoverageCounterKind,
    },
}

/// Views of a list of names.
pub open spec fn names_view(names: Seq<String>) -> Seq<Seq<char>> {
    names.map_values(|s: String| s@)
}

/// Backquoted, comma-separated list of the first `n` names.
pub open spec fn quoted_list(names: Seq<Seq<char>>, n: nat) -> Seq<char>
    decreases n,
{
    if n == 0 || n > names.len() {
        Seq::empty()
    } else if n == 1 {
        "`"@ + names[0] + "`"@
    } else {
        quoted_list(names, (n - 1) as nat) + ", `"@ + names[n - 1] + "`"@
    }
}

/// Human-readable description of a sampling error.
pub open spec fn sample_error_text(e: CoverageSampleError) -> Seq<char> {
    match e {
        CoverageSampleError::IllegalBinHit { coverpoint, bins, sampled_value } =>
            "illegal coverage bin hit in `"@ + coverpoint@ + "`: bins ["@ + quoted_list(
            names_view(bins@),
            bins@.len(),
        ) + "], sampled value "@ + sampled_value@,
        CoverageSampleError::CounterOverflow { coverpoint, bin, counter } => match bin {
            Some(b) => "functional coverage counter overflow in `"@ + coverpoint@ + "."@ + b@
                + "`: "@ + counter_text(counter),
            None => "functional coverage counter overflow in `"@ + coverpoint@ + "`: "@
                + counter_text(counter),
        },
    }
}

/// Appends a backquoted, comma-separated list of names.
fn push_quoted_list(s: &mut String, names: &Vec<String>)
    ensures
        final(s)@ == old(s)@ + quoted_list(names_view(names@), names@.len()),
{
    let ghost start = s@;
    let mut i: usize = 0;
    while i < names.len()
        invariant
            i <= names@.len(),
            s@ == start + quoted_list(names_view(names@), i as nat),
        decreases names@.len() - i,
    {
        if i == 0 {
            push_str(s, "`");
        } else {
            push_str(s, ", `");
        }
        push_str(s, names[i].as_str());
        push_str(s, "`");
        proof {
            assert(names_view(names@)[i as int] == names@[i as int]@);
        }
        i = i + 1;
    }
}

impl CoverageSampleError {
    /// Returns the affected coverpoint name.
    pub fn coverpoint(&self) -> (r: &str)
        ensures
            r@ == match *self {
                CoverageSampleError::IllegalBinHit { coverpoint, .. } => coverpoint@,
                CoverageSampleError::CounterOverflow { coverpoint, .. } => coverpoint@,
            },
    {
        match self {
            CoverageSampleError::IllegalBinHit { coverpoint, .. } => coverpoint.as_str(),
            CoverageSampleError::CounterOverflow { coverpoint, .. } => coverpoint.as_str(),
        }
    }

    /// Returns the overflowing bin name, when applicable.
    pub fn bin(&self) -> (r: Option<&str>)
        ensures
            match *self {
                CoverageSampleError::CounterOverflow { bin: Some(b), .. } => r is Some && r->0@
                    == b@,
                _ => r is None,
            },
    {
        match self {
            CoverageSampleError::CounterOverflow { bin: Some(b), .. } => Some(b.as_str()),
            _ => None,
        }
    }

    /// Returns the overflowing counter kind.
    pub fn counter(&self) -> (r: Option<CoverageCounterKind>)
        ensures
            r == match *self {
                CoverageSampleError::CounterOverflow { counter, .. } => Some(counter),
                _ => None::<CoverageCounterKind>,
            },
    {
        match self {
            CoverageSampleError::CounterOverflow { counter, .. } => Some(*counter),
            _ => None,
        }
    }

    /// Returns matching illegal-bin names.
    pub fn illegal_bins(&self) -> (r: Option<&[String]>)
        ensures
            match *self {
                CoverageSampleError::IllegalBinHit { bins, .. } => r is Some && r->0@ == bins@,
                _ => r is None,
            },
    {
        match self {
            CoverageSampleError::IllegalBinHit { bins, .. } => Some(bins.as_slice()),
            _ => None,
        }
    }

    /// Returns the formatted illegal sampled value.
    pub fn sampled_value(&self) -> (r: Option<&str>)
        ensures
            match *self {
                CoverageSampleError::IllegalBinHit { sampled_value, .. } => r is Some && r->0@
                    == sampled_value@,
                _ => r is None,
            },
    {
        match self {
            CoverageSampleError::IllegalBinHit { sampled_value, .. } => Some(
                sampled_value.as_str(),
            ),
            _ => None,
        }
    }

    /// Human-readable description of the error.
    pub fn message(&self) -> (r: String)
        ensures
            r@ == sample_error_text(*self),
    {
        let mut s = String::new();
        match self {
            CoverageSampleError::IllegalBinHit { coverpoint, bins, sampled_value } => {
                push_str(&mut s, "illegal coverage bin hit in `");
                push_str(&mut s, coverpoint.as_str());
                push_str(&mut s, "`: bins [");
                push_quoted_list(&mut s, bins);
                push_str(&mut s, "], sampled value ");
                push_str(&mut s, sampled_value.as_str());
            },
            CoverageSampleError::CounterOverflow { coverpoint, bin, counter } => {
                push_str(&mut s, "functional coverage counter overflow in `");
                push_str(&mut s, coverpoint.as_str());
                match bin {
                    Some(b) => {
                        push_str(&mut s, ".");
                        push_str(&mut s, b.as_str());
                    },
                    None => {},
                }
                push_str(&mut s, "`: ");
                push_str(&mut s, counter.text());
            },
        }
        s
    }
}

} // verus!

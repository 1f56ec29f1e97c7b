use vstd::prelude::*;
use vstd::string::*;

use crate::coverage::artifact_error::{persistence_error_text, CoveragePersistenceError};
use crate::coverage::fingerprint::CoverageDefinitionFingerprint;
use crate::coverage::merge::{policy_text, CoverageMergePolicy};
use crate::text::push_str;

verus! {

/// Runtime counter that overflowed while merging.
#[derive(Debug, Clone, Copy, PartialEq, Eq, Hash, Structural)]
pub enum CoverageMergeCounterKind {
    /// Coverpoint sample count.
    CoverpointSamples,
    /// Ignored sample count.
    IgnoredSamples,
    /// Illegal sample count.
    IllegalSamples,
    /// Unmatched sample count.
    UnmatchedSamples,
    /// Coverpoint bin hits.
    CoverpointBinHits,
    /// Cross sample count.
    CrossSamples,
    /// Skipped cross sample count.
    SkippedCrossSamples,
    /// Cross bin hits.
    CrossBinHits,
}

/// Human-readable name of a merge counter.
pub open spec fn merge_counter_text(k: CoverageMergeCounterKind) -> Seq<char> {
    match k {
        CoverageMergeCounterKind::CoverpointSamples => "coverpoint samples"@,
        CoverageMergeCounterKind::IgnoredSamples => "ignored samples"@,
        CoverageMergeCounterKind::IllegalSamples => "illegal samples"@,
        CoverageMergeCounterKind::UnmatchedSamples => "unmatched samples"@,
        CoverageMergeCounterKind::CoverpointBinHits => "coverpoint bin hits"@,
        CoverageMergeCounterKind::CrossSamples => "cross samples"@,
        CoverageMergeCounterKind::SkippedCrossSamples => "skipped cross samples"@,
        CoverageMergeCounterKind::CrossBinHits => "cross bin hits"@,
    }
}

impl CoverageMergeCounterKind {
    /// Returns the human-readable counter name.
    pub fn text(self) -> (r: &'static str)
        ensures
            r@ == merge_counter_text(self),
    {
        match self {
            CoverageMergeCounterKind::CoverpointSamples => "coverpoint samples",
            CoverageMergeCounterKind::IgnoredSamples => "ignored samples",
            CoverageMergeCounterKind::IllegalSamples => "illegal samples",
            CoverageMergeCounterKind::UnmatchedSamples => "unmatched samples",
            CoverageMergeCounterKind::CoverpointBinHits => "coverpoint bin hits",
            CoverageMergeCounterKind::CrossSamples => "cross samples",
            CoverageMergeCounterKind::SkippedCrossSamples => "skipped cross samples",
            CoverageMergeCounterKind::CrossBinHits => "cross bin hits",
        }
    }
}

/// Summary count that overflowed while merging.
#[derive(Debug, Clone, Copy, PartialEq, Eq, Hash, Structural)]
pub enum CoverageMergeCountKind {
    /// All input artifacts.
    Artifacts,
    /// Included artifacts.
    IncludedArtifacts,
    /// Excluded artifacts.
    ExcludedArtifacts,
    /// Passed artifacts.
    PassedArtifacts,
    /// Failed artifacts.
    FailedArtifacts,
    /// Errored artifacts.
    ErroredArtifacts,
    /// Merged groups.
    Groups,
    /// Merged items.
    Items,
    /// Merged coverpoints.
    Coverpoints,
    /// Merged crosses.
    Crosses,
    /// Covered bins.
    CoveredBins,
    /// Uncovered bins.
    UncoveredBins,
    /// Total bins.
    TotalBins,
}

/// Human-readable name of a merge count.
pub open spec fn merge_count_text(k: CoverageMergeCountKind) -> Seq<char> {
    match k {
        CoverageMergeCountKind::Artifacts => "artifacts"@,
        CoverageMergeCountKind::IncludedArtifacts => "included artifacts"@,
        CoverageMergeCountKind::ExcludedArtifacts => "excluded artifacts"@,
        CoverageMergeCountKind::PassedArtifacts => "passed artifacts"@,
        CoverageMergeCountKind::FailedArtifacts => "failed artifacts"@,
        CoverageMergeCountKind::ErroredArtifacts => "errored artifacts"@,
        CoverageMergeCountKind::Groups => "groups"@,
        CoverageMergeCountKind::Items => "items"@,
        CoverageMergeCountKind::Coverpoints => "coverpoints"@,
        CoverageMergeCountKind::Crosses => "crosses"@,
        CoverageMergeCountKind::CoveredBins => "covered bins"@,
        CoverageMergeCountKind::UncoveredBins => "uncovered bins"@,
        CoverageMergeCountKind::TotalBins => "total bins"@,
    }
}

impl CoverageMergeCountKind {
    /// Returns the human-readable count name.
    pub fn text(self) -> (r: &'static str)
        ensures
            r@ == merge_count_text(self),
    {
        match self {
            CoverageMergeCountKind::Artifacts => "artifacts",
            CoverageMergeCountKind::IncludedArtifacts => "included artifacts",
            CoverageMergeCountKind::ExcludedArtifacts => "excluded artifacts",
            CoverageMergeCountKind::PassedArtifacts => "passed artifacts",
            CoverageMergeCountKind::FailedArtifacts => "failed artifacts",
            CoverageMergeCountKind::ErroredArtifacts => "errored artifacts",
            CoverageMergeCountKind::Groups => "groups",
            CoverageMergeCountKind::Items => "items",
            CoverageMergeCountKind::Coverpoints => "coverpoints",
            CoverageMergeCountKind::Crosses => "crosses",
            CoverageMergeCountKind::CoveredBins => "covered bins",
            CoverageMergeCountKind::UncoveredBins => "uncovered bins",
            CoverageMergeCountKind::TotalBins => "total bins",
        }
    }
}

/// Failure while merging coverage artifacts.
#[derive(Debug, Clone, PartialEq, Eq)]
pub enum CoverageMergeError {
    /// No artifact was supplied.
    NoInputArtifacts,
    /// The policy excluded every artifact.
    NoIncludedArtifacts {
        /// Merge policy.
        policy: CoverageMergePolicy,
    },
    /// One input path was supplied twice.
    DuplicateInputPath {
        /// Repeated path.
        path: String,
    },
    /// An input artifact could not be read.
    ReadArtifact {
        /// Artifact path.
        path: String,
        /// Persistence error.
        source: CoveragePersistenceError,
    },
    /// Two artifacts define the same instance differently.
    IncompatibleDefinition {
        /// Instance path.
        instance_path: String,
        /// Test that contributed the first definition.
        existing_test: String,
        /// Test that contributed the conflicting definition.
        incoming_test: String,
        /// First definition name.
        existing_definition: String,
        /// Conflicting definition name.
        incoming_definition: String,
        /// First revision.
        existing_revision: u64,
        /// Conflicting revision.
        incoming_revision: u64,
        /// First fingerprint.
        existing_fingerprint: CoverageDefinitionFingerprint,
        /// Conflicting fingerprint.
        incoming_fingerprint: CoverageDefinitionFingerprint,
    },
    /// Two definitions with one fingerprint differ in structure.
    DefinitionStructureMismatch {
        /// Instance path.
        instance_path: String,
        /// Shared fingerprint.
        fingerprint: CoverageDefinitionFingerprint,
        /// Path of the differing element.
        path: String,
        /// Reason.
        reason: String,
    },
    /// A runtime counter overflowed.
    CounterOverflow {
        /// Instance path.
        instance_path: String,
        /// Item name.
        item: String,
        /// Bin description, when a bin counter overflowed.
        bin: Option<String>,
        /// Counter kind.
        counter: CoverageMergeCounterKind,
    },
    /// A summary count overflowed.
    CountOverflow {
        /// Count kind.
        counter: CoverageMergeCountKind,
    },
    /// Encoding or fingerprinting failed.
    Persistence {
        /// Persistence error.
        source: CoveragePersistenceError,
    },
}

/// Human-readable description of a merge error.
pub open spec fn merge_error_text(e: CoverageMergeError) -> Seq<char> {
    match e {
        CoverageMergeError::NoInputArtifacts => "no coverage artifacts were supplied"@,
        CoverageMergeError::NoIncludedArtifacts { policy } => "coverage merge policy `"@
            + policy_text(policy) + "` excluded every artifact"@,
        CoverageMergeError::DuplicateInputPath { path } => "duplicate coverage input path `"@
            + path@ + "`"@,
        CoverageMergeError::ReadArtifact { path, source } =>
            "could not read coverage artifact `"@ + path@ + "`: "@ + persistence_error_text(
                source,
            ),
        CoverageMergeError::IncompatibleDefinition { instance_path, .. } =>
            "incompatible coverage definitions for instance `"@ + instance_path@ + "`"@,
        CoverageMergeError::DefinitionStructureMismatch { instance_path, path, reason, .. } =>
            "coverage definition structure mismatch for instance `"@ + instance_path@ + "` at `"@
            + path@ + "`: "@ + reason@,
        CoverageMergeError::CounterOverflow { instance_path, item, counter, .. } =>
            "coverage merge overflow for "@ + merge_counter_text(counter) + " in `"@
            + instance_path@ + "."@ + item@ + "`"@,
        CoverageMergeError::CountOverflow { counter } => "coverage merge summary overflow for "@
            + merge_count_text(counter),
        CoverageMergeError::Persistence { source } => "coverage merge persistence failure: "@
            + persistence_error_text(source),
    }
}

impl CoverageMergeError {
    /// Human-readable description of the error.
    pub fn message(&self) -> (r: String)
        ensures
            r@ == merge_error_text(*self),
    {
        let mut s = String::new();
        match self {
            CoverageMergeError::NoInputArtifacts => {
                push_str(&mut s, "no coverage artifacts were supplied");
            },
            CoverageMergeError::NoIncludedArtifacts { policy } => {
                push_str(&mut s, "coverage merge policy `");
                push_str(&mut s, policy.text());
                push_str(&mut s, "` excluded every artifact");
            },
            CoverageMergeError::DuplicateInputPath { path } => {
                push_str(&mut s, "duplicate coverage input path `");
                push_str(&mut s, path.as_str());
                push_str(&mut s, "`");
            },
            CoverageMergeError::ReadArtifact { path, source } => {
                push_str(&mut s, "could not read coverage artifact `");
                push_str(&mut s, path.as_str());
                push_str(&mut s, "`: ");
                let inner = source.message();
                push_str(&mut s, inner.as_str());
            },
            CoverageMergeError::IncompatibleDefinition { instance_path, .. } => {
                push_str(&mut s, "incompatible coverage definitions for instance `");
                push_str(&mut s, instance_path.as_str());
                push_str(&mut s, "`");
            },
            CoverageMergeError::DefinitionStructureMismatch { instance_path, path, reason, .. } => {
                push_str(&mut s, "coverage definition structure mismatch for instance `");
                push_str(&mut s, instance_path.as_str());
                push_str(&mut s, "` at `");
                push_str(&mut s, path.as_str());
                push_str(&mut s, "`: ");
                push_str(&mut s, reason.as_str());
            },
            CoverageMergeError::CounterOverflow { instance_path, item, counter, .. } => {
                push_str(&mut s, "coverage merge overflow for ");
                push_str(&mut s, counter.text());
                push_str(&mut s, " in `");
                push_str(&mut s, instance_path.as_str());
                push_str(&mut s, ".");
                push_str(&mut s, item.as_str());
                push_str(&mut s, "`");
            },
            CoverageMergeError::CountOverflow { counter } => {
                push_str(&mut s, "coverage merge summary overflow for ");
                push_str(&mut s, counter.text());
            },
            CoverageMergeError::Persistence { source } => {
                push_str(&mut s, "coverage merge persistence failure: ");
                let inner = source.message();
                push_str(&mut s, inner.as_str());
            },
        }
        s
    }
}

} // verus!

use vstd::prelude::*;
use vstd::string::*;

verus! {

/// Persisted exact ratio.
#[derive(Debug, Clone, Copy, PartialEq, Eq)]
pub struct RatioRecord {
    /// Covered bins.
    pub covered: usize,
    /// Uncovered bins.
    pub uncovered: usize,
    /// All bins.
    pub total: usize,
}

/// Persisted per-test session summary.
#[derive(Debug, Clone, Copy, PartialEq, Eq)]
pub struct SessionSummaryRecord {
    /// Groups.
    pub groups: usize,
    /// Items.
    pub items: usize,
    /// Coverpoints.
    pub coverpoints: usize,
    /// Crosses.
    pub crosses: usize,
    /// Coverage.
    pub coverage: RatioRecord,
}

/// Persisted group summary.
#[derive(Debug, Clone, Copy, PartialEq, Eq)]
pub struct GroupSummaryRecord {
    /// Items.
    pub items: usize,
    /// Coverpoints.
    pub coverpoints: usize,
    /// Crosses.
    pub crosses: usize,
    /// Coverage.
    pub coverage: RatioRecord,
}

/// Persisted coverpoint bin.
#[derive(Debug, Clone, PartialEq, Eq)]
pub struct CoverpointBinRecord {
    /// Declaration ordinal.
    pub id: u32,
    /// Bin name.
    pub name: String,
    /// Bin role: `normal`, `ignore` or `illegal`.
    pub kind: String,
    /// Matcher shape: `value`, `values` or `inclusive_range`.
    pub matcher_kind: String,
    /// Matcher operand count.
    pub operand_count: usize,
    /// Hit count.
    pub hits: u64,
    /// Required hit count.
    pub required_hits: u64,
}

/// Persisted cross bin.
#[derive(Debug, Clone, PartialEq, Eq)]
pub struct CrossBinRecord {
    /// Row-major ordinal.
    pub id: u32,
    /// Left source bin ordinal.
    pub left_bin_id: u32,
    /// Left source bin name.
    pub left_bin_name: String,
    /// Right source bin ordinal.
    pub right_bin_id: u32,
    /// Right source bin name.
    pub right_bin_name: String,
    /// Hit count.
    pub hits: u64,
    /// Required hit count.
    pub required_hits: u64,
}

/// Persisted coverage item.
#[derive(Debug, Clone, PartialEq, Eq)]
pub enum ItemRecord {
    /// Coverpoint.
    Coverpoint {
        /// Name.
        name: String,
        /// Samples.
        samples: u64,
        /// Ignored samples.
        ignored_samples: u64,
        /// Illegal samples.
        illegal_samples: u64,
        /// Unmatched samples.
        unmatched_samples: u64,
        /// Coverage.
        coverage: RatioRecord,
        /// Bins.
        bins: Vec<CoverpointBinRecord>,
    },
    /// Two-way cross.
    Cross2 {
        /// Name.
        name: String,
        /// Left source coverpoint.
        left_coverpoint: String,
        /// Right source coverpoint.
        right_coverpoint: String,
        /// Samples.
        samples: u64,
        /// Skipped samples.
        skipped_samples: u64,
        /// Coverage.
        coverage: RatioRecord,
        /// Bins.
        bins: Vec<CrossBinRecord>,
    },
}

/// Persisted group definition.
#[derive(Debug, Clone, PartialEq, Eq)]
pub struct DefinitionRecord {
    /// Definition name.
    pub name: String,
    /// Definition revision.
    pub revision: u64,
    /// Definition fingerprint text.
    pub fingerprint: String,
}

/// Persisted group.
#[derive(Debug, Clone, PartialEq, Eq)]
pub struct GroupRecord {
    /// Definition.
    pub definition: DefinitionRecord,
    /// Instance path.
    pub instance_path: String,
    /// Summary.
    pub summary: GroupSummaryRecord,
    /// Items.
    pub items: Vec<ItemRecord>,
}

/// Persisted per-test artifact.
#[derive(Debug, Clone, PartialEq, Eq)]
pub struct ArtifactRecord {
    /// Format name.
    pub format: String,
    /// Schema version.
    pub schema_version: u32,
    /// Producer name.
    pub producer_name: String,
    /// Producer version.
    pub producer_version: String,
    /// Test name.
    pub test_name: String,
    /// Test status text.
    pub test_status: String,
    /// Replay token text.
    pub replay_token: Option<String>,
    /// Summary.
    pub summary: SessionSummaryRecord,
    /// Groups.
    pub groups: Vec<GroupRecord>,
}

/// Persisted input of a merge.
#[derive(Debug, Clone, PartialEq, Eq)]
pub struct MergeInputRecord {
    /// Producer version.
    pub producer_version: String,
    /// Test name.
    pub test_name: String,
    /// Test status text.
    pub test_status: String,
    /// Replay token text.
    pub replay_token: Option<String>,
    /// Whether the policy included the input.
    pub included: bool,
    /// Per-test summary.
    pub summary: SessionSummaryRecord,
}

/// Persisted merge summary.
#[derive(Debug, Clone, Copy, PartialEq, Eq)]
pub struct MergeSummaryRecord {
    /// Inputs.
    pub artifacts: usize,
    /// Included inputs.
    pub included_artifacts: usize,
    /// Excluded inputs.
    pub excluded_artifacts: usize,
    /// Passed inputs.
    pub passed_artifacts: usize,
    /// Failed inputs.
    pub failed_artifacts: usize,
    /// Errored inputs.
    pub errored_artifacts: usize,
    /// Groups.
    pub groups: usize,
    /// Items.
    pub items: usize,
    /// Coverpoints.
    pub coverpoints: usize,
    /// Crosses.
    pub crosses: usize,
    /// Coverage.
    pub coverage: RatioRecord,
}

/// Persisted merged document.
#[derive(Debug, Clone, PartialEq, Eq)]
pub struct MergeRecord {
    /// Format name.
    pub format: String,
    /// Schema version.
    pub schema_version: u32,
    /// Producer name.
    pub producer_name: String,
    /// Producer version.
    pub producer_version: String,
    /// Policy text.
    pub policy: String,
    /// Inputs.
    pub inputs: Vec<MergeInputRecord>,
    /// Summary.
    pub summary: MergeSummaryRecord,
    /// Groups.
    pub groups: Vec<GroupRecord>,
}

} // verus!

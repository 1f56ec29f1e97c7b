use vstd::prelude::*;
use vstd::string::*;

use crate::coverage::artifact::{
    status_name, status_text, CoverageArtifact, CoverageArtifactGroup, ARTIFACT_FORMAT_NAME,
    ARTIFACT_SCHEMA_VERSION,
};
use crate::coverage::bin::bin_kind_text;
use crate::coverage::fingerprint::fingerprint_text;
use crate::coverage::matcher::matcher_kind_text;
use crate::coverage::merge::{policy_text, CoverageMergeInput};
use crate::coverage::merge_document::{
    CoverageMerge, CoverageMergeSummary, MERGE_FORMAT_NAME, MERGE_SCHEMA_VERSION,
};
use crate::coverage::ratio::CoverageRatio;
use crate::coverage::record::{
    ArtifactRecord, CoverpointBinRecord, CrossBinRecord, DefinitionRecord, GroupRecord,
    GroupSummaryRecord, ItemRecord, MergeInputRecord, MergeRecord, MergeSummaryRecord, RatioRecord,
    SessionSummaryRecord,
};
use crate::coverage::session::CoverageSessionSummary;
use crate::coverage::snapshot::{
    CoverageItemSnapshot, CoverpointBinSnapshot, CoverpointSnapshot, Cross2Snapshot,
    CrossBinSnapshot,
};
use crate::random::{replay_text, ReplayToken};

verus! {

/// Persisted form of a ratio.
pub fn ratio_record(r: CoverageRatio) -> (out: RatioRecord)
    ensures
        (out.covered, out.uncovered, out.total) == r@,
{
    RatioRecord { covered: r.covered(), uncovered: r.uncovered(), total: r.total() }
}

/// `b` persists coverpoint bin `s`.
pub open spec fn point_bin_recorded(b: CoverpointBinRecord, s: CoverpointBinSnapshot) -> bool {
    &&& b.id == s@.0.0
    &&& b.name@ == s@.1
    &&& b.kind@ == bin_kind_text(s@.2)
    &&& b.matcher_kind@ == matcher_kind_text(s@.3)
    &&& b.operand_count == s@.4
    &&& b.hits == s@.5
    &&& b.required_hits == s@.6
}

/// `b` persists cross bin `s`.
pub open spec fn cross_bin_recorded(b: CrossBinRecord, s: CrossBinSnapshot) -> bool {
    &&& b.id == s@.0.0
    &&& b.left_bin_id == s@.1.0
    &&& b.left_bin_name@ == s@.2
    &&& b.right_bin_id == s@.3.0
    &&& b.right_bin_name@ == s@.4
    &&& b.hits == s@.5
    &&& b.required_hits == s@.6
}

/// `r` persists item `i`.
pub open spec fn item_recorded(r: ItemRecord, i: CoverageItemSnapshot) -> bool {
    match (r, i) {
        (
            ItemRecord::Coverpoint {
                name,
                samples,
                ignored_samples,
                illegal_samples,
                unmatched_samples,
                coverage,
                bins,
            },
            CoverageItemSnapshot::Coverpoint(p),
        ) => {
            &&& name@ == p.spec_name()
            &&& (samples, ignored_samples, illegal_samples, unmatched_samples) == p.spec_counts()
            &&& (coverage.covered, coverage.uncovered, coverage.total) == p.spec_coverage()@
            &&& bins@.len() == p.spec_bins().len()
            &&& forall|k: int|
                0 <= k < bins@.len() ==> #[trigger] point_bin_recorded(bins@[k], p.spec_bins()[k])
        },
        (
            ItemRecord::Cross2 {
                name,
                left_coverpoint,
                right_coverpoint,
                samples,
                skipped_samples,
                coverage,
                bins,
            },
            CoverageItemSnapshot::Cross2(c),
        ) => {
            &&& name@ == c.spec_name()
            &&& (left_coverpoint@, right_coverpoint@) == c.spec_axis_names()
            &&& (samples, skipped_samples) == c.spec_counts()
            &&& (coverage.covered, coverage.uncovered, coverage.total) == c.spec_coverage()@
            &&& bins@.len() == c.spec_bins().len()
            &&& forall|k: int|
                0 <= k < bins@.len() ==> #[trigger] cross_bin_recorded(bins@[k], c.spec_bins()[k])
        },
        _ => false,
    }
}

/// `r` persists group `g`.
pub open spec fn group_recorded(r: GroupRecord, g: CoverageArtifactGroup) -> bool {
    let s = g.spec_snapshot();
    let m = s.spec_summary();
    &&& r.definition.name@ == s.spec_definition_name()
    &&& r.definition.revision == s.spec_revision()
    &&& r.definition.fingerprint@ == fingerprint_text(g.spec_fingerprint()@)
    &&& r.instance_path@ == s.spec_instance_path()
    &&& r.summary.items == m.spec_items()
    &&& r.summary.coverpoints == m.spec_coverpoints()
    &&& r.summary.crosses == m.spec_crosses()
    &&& (r.summary.coverage.covered, r.summary.coverage.uncovered, r.summary.coverage.total)
        == m.spec_coverage()@
    &&& r.items@.len() == s.spec_items().len()
    &&& forall|k: int| 0 <= k < r.items@.len() ==> #[trigger] item_recorded(r.items@[k], s.spec_items()[k])
}

/// `r` persists session summary `s`.
pub open spec fn session_recorded(r: SessionSummaryRecord, s: CoverageSessionSummary) -> bool {
    &&& r.groups == s.spec_groups()
    &&& r.items == s.spec_items()
    &&& r.coverpoints == s.spec_coverpoints()
    &&& r.crosses == s.spec_crosses()
    &&& (r.coverage.covered, r.coverage.uncovered, r.coverage.total) == s.spec_coverage()@
}

/// `r` persists replay token `t`.
pub open spec fn replay_recorded(r: Option<String>, t: Option<ReplayToken>) -> bool {
    match (r, t) {
        (Some(s), Some(tok)) => s@ == replay_text(tok@),
        (None, None) => true,
        _ => false,
    }
}

fn point_bin_record(b: &CoverpointBinSnapshot) -> (r: CoverpointBinRecord)
    ensures
        point_bin_recorded(r, *b),
{
    CoverpointBinRecord {
        id: b.id().0,
        name: String::from_str(b.name()),
        kind: String::from_str(b.kind().text()),
        matcher_kind: String::from_str(b.matcher_kind().text()),
        operand_count: b.matcher_operand_count(),
        hits: b.hits(),
        required_hits: b.required_hits(),
    }
}

fn cross_bin_record(b: &CrossBinSnapshot) -> (r: CrossBinRecord)
    ensures
        cross_bin_recorded(r, *b),
{
    CrossBinRecord {
        id: b.id().0,
        left_bin_id: b.left_bin_id().0,
        left_bin_name: String::from_str(b.left_bin_name()),
        right_bin_id: b.right_bin_id().0,
        right_bin_name: String::from_str(b.right_bin_name()),
        hits: b.hits(),
        required_hits: b.required_hits(),
    }
}

fn point_record(p: &CoverpointSnapshot) -> (r: ItemRecord)
    ensures
        item_recorded(r, CoverageItemSnapshot::Coverpoint(*p)),
{
    let src = p.bins();
    let mut bins: Vec<CoverpointBinRecord> = Vec::new();
    let mut k: usize = 0;
    while k < src.len()
        invariant
            src@ == p.spec_bins(),
            k <= src@.len(),
            bins@.len() == k,
            forall|t: int| 0 <= t < k ==> #[trigger] point_bin_recorded(bins@[t], src@[t]),
        decreases src@.len() - k,
    {
        bins.push(point_bin_record(&src[k]));
        k = k + 1;
    }
    ItemRecord::Coverpoint {
        name: String::from_str(p.name()),
        samples: p.sample_count(),
        ignored_samples: p.ignored_sample_count(),
        illegal_samples: p.illegal_sample_count(),
        unmatched_samples: p.unmatched_sample_count(),
        coverage: ratio_record(p.coverage()),
        bins,
    }
}

fn cross_record(c: &Cross2Snapshot) -> (r: ItemRecord)
    ensures
        item_recorded(r, CoverageItemSnapshot::Cross2(*c)),
{
    let src = c.bins();
    let mut bins: Vec<CrossBinRecord> = Vec::new();
    let mut k: usize = 0;
    while k < src.len()
        invariant
            src@ == c.spec_bins(),
            k <= src@.len(),
            bins@.len() == k,
            forall|t: int| 0 <= t < k ==> #[trigger] cross_bin_recorded(bins@[t], src@[t]),
        decreases src@.len() - k,
    {
        bins.push(cross_bin_record(&src[k]));
        k = k + 1;
    }
    ItemRecord::Cross2 {
        name: String::from_str(c.name()),
        left_coverpoint: String::from_str(c.left_coverpoint_name()),
        right_coverpoint: String::from_str(c.right_coverpoint_name()),
        samples: c.sample_count(),
        skipped_samples: c.skipped_sample_count(),
        coverage: ratio_record(c.coverage()),
        bins,
    }
}

/// Persisted form of a group.
pub fn group_record(g: &CoverageArtifactGroup) -> (r: GroupRecord)
    ensures
        group_recorded(r, *g),
{
    let items = g.snapshot().items();
    let mut out: Vec<ItemRecord> = Vec::new();
    let mut k: usize = 0;
    while k < items.len()
        invariant
            items@ == g.spec_snapshot().spec_items(),
            k <= items@.len(),
            out@.len() == k,
            forall|t: int| 0 <= t < k ==> #[trigger] item_recorded(out@[t], items@[t]),
        decreases items@.len() - k,
    {
        let rec = match &items[k] {
            CoverageItemSnapshot::Coverpoint(p) => point_record(p),
            CoverageItemSnapshot::Cross2(c) => cross_record(c),
        };
        out.push(rec);
        k = k + 1;
    }
    let m = g.summary();
    GroupRecord {
        definition: DefinitionRecord {
            name: String::from_str(g.definition_name()),
            revision: g.definition_revision(),
            fingerprint: g.definition_fingerprint().to_text(),
        },
        instance_path: String::from_str(g.instance_path()),
        summary: GroupSummaryRecord {
            items: m.item_count(),
            coverpoints: m.coverpoint_count(),
            crosses: m.cross_count(),
            coverage: ratio_record(m.coverage()),
        },
        items: out,
    }
}

fn groups_record(groups: &[CoverageArtifactGroup]) -> (r: Vec<GroupRecord>)
    ensures
        r@.len() == groups@.len(),
        forall|k: int| 0 <= k < r@.len() ==> #[trigger] group_recorded(r@[k], groups@[k]),
{
    let mut out: Vec<GroupRecord> = Vec::new();
    let mut k: usize = 0;
    while k < groups.len()
        invariant
            k <= groups@.len(),
            out@.len() == k,
            forall|t: int| 0 <= t < k ==> #[trigger] group_recorded(out@[t], groups@[t]),
        decreases groups@.len() - k,
    {
        out.push(group_record(&groups[k]));
        k = k + 1;
    }
    out
}

/// Persisted form of a session summary.
pub fn session_record(s: CoverageSessionSummary) -> (r: SessionSummaryRecord)
    ensures
        session_recorded(r, s),
{
    SessionSummaryRecord {
        groups: s.group_count(),
        items: s.item_count(),
        coverpoints: s.coverpoint_count(),
        crosses: s.cross_count(),
        coverage: ratio_record(s.coverage()),
    }
}

fn replay_record(t: Option<ReplayToken>) -> (r: Option<String>)
    ensures
        replay_recorded(r, t),
{
    match t {
        Some(tok) => Some(tok.to_text()),
        None => None,
    }
}

/// `r` persists artifact `a`.
pub open spec fn artifact_recorded(r: ArtifactRecord, a: CoverageArtifact) -> bool {
    &&& r.format@ == ARTIFACT_FORMAT_NAME@
    &&& r.schema_version == ARTIFACT_SCHEMA_VERSION
    &&& r.producer_name@ == "vvm-rs"@
    &&& r.producer_version@ == a.spec_producer_version()
    &&& r.test_name@ == a.spec_test_name()
    &&& r.test_status@ == status_name(a.spec_test_status())
    &&& replay_recorded(r.replay_token, a.spec_replay_token())
    &&& session_recorded(r.summary, a.spec_summary())
    &&& r.groups@.len() == a.spec_groups().len()
    &&& forall|k: int|
        0 <= k < r.groups@.len() ==> #[trigger] group_recorded(r.groups@[k], a.spec_groups()[k])
}

impl CoverageArtifact {
    /// Persisted form of this artifact.
    pub fn to_record(&self) -> (r: ArtifactRecord)
        ensures
            artifact_recorded(r, *self),
    {
        ArtifactRecord {
            format: String::from_str(ARTIFACT_FORMAT_NAME),
            schema_version: ARTIFACT_SCHEMA_VERSION,
            producer_name: String::from_str("vvm-rs"),
            producer_version: String::from_str(self.producer_version()),
            test_name: String::from_str(self.test_name()),
            test_status: String::from_str(status_text(self.test_status())),
            replay_token: replay_record(self.replay_token()),
            summary: session_record(self.summary()),
            groups: groups_record(self.groups()),
        }
    }
}

/// `r` persists merge input `i`.
pub open spec fn input_recorded(r: MergeInputRecord, i: CoverageMergeInput) -> bool {
    &&& r.producer_version@ == i.spec_producer_version()
    &&& r.test_name@ == i.spec_test_name()
    &&& r.test_status@ == status_name(i.spec_test_status())
    &&& replay_recorded(r.replay_token, i.spec_replay_token())
    &&& r.included == i.spec_included()
    &&& session_recorded(r.summary, i.spec_summary())
}

/// `r` persists merge summary `s`.
pub open spec fn merge_summary_recorded(r: MergeSummaryRecord, s: CoverageMergeSummary) -> bool {
    let c = s.spec_counts();
    let t = s.spec_totals();
    &&& r.artifacts == c.artifacts
    &&& r.included_artifacts == c.included
    &&& r.excluded_artifacts == c.excluded
    &&& r.passed_artifacts == c.passed
    &&& r.failed_artifacts == c.failed
    &&& r.errored_artifacts == c.errored
    &&& (r.groups, r.items, r.coverpoints, r.crosses) == t
    &&& (r.coverage.covered, r.coverage.uncovered, r.coverage.total) == s.spec_coverage()@
}

/// `r` persists merged document `m`.
pub open spec fn merge_recorded(r: MergeRecord, m: CoverageMerge) -> bool {
    &&& r.format@ == MERGE_FORMAT_NAME@
    &&& r.schema_version == MERGE_SCHEMA_VERSION
    &&& r.producer_name@ == "vvm-rs"@
    &&& r.producer_version@ == m.spec_producer_version()
    &&& r.policy@ == policy_text(m.spec_policy())
    &&& r.inputs@.len() == m.spec_inputs().len()
    &&& forall|k: int|
        0 <= k < r.inputs@.len() ==> #[trigger] input_recorded(r.inputs@[k], m.spec_inputs()[k])
    &&& merge_summary_recorded(r.summary, m.spec_summary())
    &&& r.groups@.len() == m.spec_groups().len()
    &&& forall|k: int|
        0 <= k < r.groups@.len() ==> #[trigger] group_recorded(r.groups@[k], m.spec_groups()[k])
}

impl CoverageMerge {
    /// Persisted form of this merged document.
    pub fn to_record(&self) -> (r: MergeRecord)
        ensures
            merge_recorded(r, *self),
    {
        let src = self.inputs();
        let mut inputs: Vec<MergeInputRecord> = Vec::new();
        let mut k: usize = 0;
        while k < src.len()
            invariant
                src@ == self.spec_inputs(),
                k <= src@.len(),
                inputs@.len() == k,
                forall|t: int| 0 <= t < k ==> #[trigger] input_recorded(inputs@[t], src@[t]),
            decreases src@.len() - k,
        {
            let i = &src[k];
            inputs.push(
                MergeInputRecord {
                    producer_version: String::from_str(i.producer_version()),
                    test_name: String::from_str(i.test_name()),
                    test_status: String::from_str(status_text(i.test_status())),
                    replay_token: replay_record(i.replay_token()),
                    included: i.included(),
                    summary: session_record(i.summary()),
                },
            );
            k = k + 1;
        }
        let s = self.summary();
        MergeRecord {
            format: String::from_str(MERGE_FORMAT_NAME),
            schema_version: MERGE_SCHEMA_VERSION,
            producer_name: String::from_str("vvm-rs"),
            producer_version: String::from_str(self.producer_version()),
            policy: String::from_str(self.policy().text()),
            inputs,
            summary: MergeSummaryRecord {
                artifacts: s.artifact_count(),
                included_artifacts: s.included_artifact_count(),
                excluded_artifacts: s.excluded_artifact_count(),
                passed_artifacts: s.passed_artifact_count(),
                failed_artifacts: s.failed_artifact_count(),
                errored_artifacts: s.errored_artifact_count(),
                groups: s.group_count(),
                items: s.item_count(),
                coverpoints: s.coverpoint_count(),
                crosses: s.cross_count(),
                coverage: ratio_record(s.coverage()),
            },
            groups: groups_record(self.groups()),
        }
    }
}

} // verus!

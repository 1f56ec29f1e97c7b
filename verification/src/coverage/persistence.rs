use vstd::prelude::*;
use vstd::utf8::encode_utf8;

use crate::coverage::artifact::{lemma_status_round_trip, status_name, CoverageArtifact, CoverageArtifactGroup};
use crate::coverage::decode_artifact::{
    artifact_header_ok, artifact_rebuilt, group_coverpoint_counts, group_cross_counts,
    group_item_counts, groups_rebuilt, lemma_replay_value_of_text, paths_repeat, replay_read,
    session_accepted, session_summary_issue, session_summary_of, status_value,
};
use crate::coverage::merge_document::group_ratio_views;
use crate::coverage::record::{GroupRecord, MergeInputRecord};
use crate::coverage::decode_bins::{
    cross_bin_view, lemma_bin_kind_name, lemma_matcher_kind_name, point_bin_view,
};
use crate::coverage::decode_items::{first_cross_bin_issue, first_point_bin_issue, item_record_issue};
use crate::coverage::decode_bins::{cross_bin_issue, point_bin_issue};
use crate::coverage::item::{item_kind_of, CoverageItemKind};
use crate::coverage::snapshot::item_snapshot_coverage;
use crate::coverage::validity::{
    input_valid, merge_valid, artifact_valid, cross_bin_valid, group_snapshot_valid, item_valid, point_bin_valid,
};
use crate::coverage::decode_group::{
    enc_item_record, enc_item_records, group_rebuilt, lemma_cross_views_enc, lemma_point_views_enc,
    record_definition_bytes, record_digest, record_item_ratio, shape_of_item, shape_of_record,
    count_records, first_item_record_issue, first_source_issue, group_path, group_record_accepted,
    item_path_of, item_shapes, record_ratio_views, record_shapes, Shape,
};
use crate::coverage::merge_group::{count_snapshot_kind, item_ratio_views};
use crate::coverage::decode_items::{cross_views_of, item_rebuilt, point_views_of};
use crate::coverage::decode_merge::{
    first_input_issue, group_record_ratios, input_counts, input_issue, input_rebuilt,
    inputs_in_order, merge_header_ok, merge_rebuilt, merge_tail_issue, policy_named,
    record_count_overflow, record_group_sums, record_input_counts, record_input_view,
    record_summary_matches, records_sorted, merge_body_outcome, merge_input_debug,
};
use crate::coverage::merge_document::{group_count_overflow, group_key, group_sums};
use crate::coverage::merge::{policy_text, CoverageMergePolicy};
use crate::coverage::order::byte_order;
use crate::coverage::encode::{
    session_recorded, artifact_recorded, cross_bin_recorded, group_recorded, input_recorded, item_recorded,
    merge_recorded, point_bin_recorded, replay_recorded,
};
use crate::coverage::merge::{lemma_policy_text_round_trip, CoverageMergeInput};
use crate::coverage::merge_document::{CoverageMerge, CoverageMergeSummary};
use crate::coverage::fingerprint::{
    definition_bytes, enc_item, enc_items, fingerprint_text_value, lemma_fingerprint_len,
    lemma_fingerprint_round_trip, sha256,
};
use crate::coverage::session::CoverageSessionSummary;
use crate::coverage::snapshot::{
    bin_views, cross_bin_views, CoverageItemSnapshot, CoverpointBinSnapshot, CrossBinSnapshot,
};
use crate::random::{RandomAlgorithm, ReplayToken};
use crate::registry::TestStatus;

verus! {

/// Views of an optional replay token.
pub open spec fn replay_views(t: Option<ReplayToken>) -> Option<(RandomAlgorithm, u64)> {
    match t {
        Some(tok) => Some(tok@),
        None => None,
    }
}

/// Two item snapshots hold the same data: kind, names, counters, coverage
/// and bins.
pub open spec fn same_item(a: CoverageItemSnapshot, b: CoverageItemSnapshot) -> bool {
    match (a, b) {
        (CoverageItemSnapshot::Coverpoint(p), CoverageItemSnapshot::Coverpoint(q)) => {
            &&& p.spec_name() == q.spec_name()
            &&& p.spec_counts() == q.spec_counts()
            &&& p.spec_coverage()@ == q.spec_coverage()@
            &&& bin_views(p.spec_bins()) == bin_views(q.spec_bins())
        },
        (CoverageItemSnapshot::Cross2(c), CoverageItemSnapshot::Cross2(d)) => {
            &&& c.spec_name() == d.spec_name()
            &&& c.spec_axis_names() == d.spec_axis_names()
            &&& c.spec_counts() == d.spec_counts()
            &&& c.spec_coverage()@ == d.spec_coverage()@
            &&& cross_bin_views(c.spec_bins()) == cross_bin_views(d.spec_bins())
        },
        _ => false,
    }
}

/// Two artifact groups hold the same data: definition, instance path, items,
/// summary and fingerprint.
pub open spec fn same_group(a: CoverageArtifactGroup, b: CoverageArtifactGroup) -> bool {
    let s = a.spec_snapshot();
    let t = b.spec_snapshot();
    &&& s.spec_definition_name() == t.spec_definition_name()
    &&& s.spec_revision() == t.spec_revision()
    &&& s.spec_instance_path() == t.spec_instance_path()
    &&& s.spec_items().len() == t.spec_items().len()
    &&& forall|k: int|
        0 <= k < s.spec_items().len() ==> #[trigger] same_item(s.spec_items()[k], t.spec_items()[k])
    &&& s.spec_summary().spec_items() == t.spec_summary().spec_items()
    &&& s.spec_summary().spec_coverpoints() == t.spec_summary().spec_coverpoints()
    &&& s.spec_summary().spec_crosses() == t.spec_summary().spec_crosses()
    &&& s.spec_summary().spec_coverage()@ == t.spec_summary().spec_coverage()@
    &&& a.spec_fingerprint()@ == b.spec_fingerprint()@
}

/// Two session summaries hold the same counts and coverage.
pub open spec fn same_session_summary(s: CoverageSessionSummary, t: CoverageSessionSummary) -> bool {
    &&& s.spec_groups() == t.spec_groups()
    &&& s.spec_items() == t.spec_items()
    &&& s.spec_coverpoints() == t.spec_coverpoints()
    &&& s.spec_crosses() == t.spec_crosses()
    &&& s.spec_coverage()@ == t.spec_coverage()@
}

/// Two artifacts hold the same data: producer, test, replay token, groups and
/// summary.
pub open spec fn same_artifact(a: CoverageArtifact, b: CoverageArtifact) -> bool {
    &&& a.spec_producer_version() == b.spec_producer_version()
    &&& a.spec_test_name() == b.spec_test_name()
    &&& a.spec_test_status() == b.spec_test_status()
    &&& replay_views(a.spec_replay_token()) == replay_views(b.spec_replay_token())
    &&& a.spec_groups().len() == b.spec_groups().len()
    &&& forall|k: int|
        0 <= k < a.spec_groups().len() ==> #[trigger] same_group(a.spec_groups()[k], b.spec_groups()[k])
    &&& same_session_summary(a.spec_summary(), b.spec_summary())
}

/// A persisted status name reads back as its status.
pub proof fn lemma_status_value_of_name(s: TestStatus)
    ensures
        status_value(status_name(s)) == Some(s),
{
    lemma_status_round_trip(TestStatus::Passed);
    lemma_status_round_trip(TestStatus::Failed);
    lemma_status_round_trip(TestStatus::Error);
}

proof fn lemma_point_bins_round_trip(
    src: Seq<CoverpointBinSnapshot>,
    recs: Seq<crate::coverage::record::CoverpointBinRecord>,
)
    requires
        recs.len() == src.len(),
        forall|k: int| 0 <= k < recs.len() ==> #[trigger] point_bin_recorded(recs[k], src[k]),
    ensures
        point_views_of(recs) == bin_views(src),
{
    assert forall|k: int| 0 <= k < recs.len() implies point_views_of(recs)[k] == bin_views(src)[k] by {
        assert(point_bin_recorded(recs[k], src[k]));
        lemma_bin_kind_name(src[k]@.2);
        lemma_matcher_kind_name(src[k]@.3);
        assert(point_bin_view(recs[k]) == src[k]@);
    }
    assert(point_views_of(recs) =~= bin_views(src));
}

proof fn lemma_cross_bins_round_trip(
    src: Seq<CrossBinSnapshot>,
    recs: Seq<crate::coverage::record::CrossBinRecord>,
)
    requires
        recs.len() == src.len(),
        forall|k: int| 0 <= k < recs.len() ==> #[trigger] cross_bin_recorded(recs[k], src[k]),
    ensures
        cross_views_of(recs) == cross_bin_views(src),
{
    assert forall|k: int| 0 <= k < recs.len() implies cross_views_of(recs)[k] == cross_bin_views(src)[k] by {
        assert(cross_bin_recorded(recs[k], src[k]));
        assert(cross_bin_view(recs[k]) == src[k]@);
    }
    assert(cross_views_of(recs) =~= cross_bin_views(src));
}

/// An item read back from its record holds the item's data.
pub proof fn lemma_item_round_trip(
    a: CoverageItemSnapshot,
    r: crate::coverage::record::ItemRecord,
    b: CoverageItemSnapshot,
)
    requires
        item_recorded(r, a),
        item_rebuilt(b, r),
    ensures
        same_item(a, b),
{
    match (a, r) {
        (CoverageItemSnapshot::Coverpoint(p), crate::coverage::record::ItemRecord::Coverpoint { bins, .. }) => {
            lemma_point_bins_round_trip(p.spec_bins(), bins@);
        },
        (CoverageItemSnapshot::Cross2(c), crate::coverage::record::ItemRecord::Cross2 { bins, .. }) => {
            lemma_cross_bins_round_trip(c.spec_bins(), bins@);
        },
        _ => {},
    }
}

/// A group read back from its record holds the group's data.
pub proof fn lemma_group_round_trip(
    a: CoverageArtifactGroup,
    r: crate::coverage::record::GroupRecord,
    b: CoverageArtifactGroup,
)
    requires
        group_recorded(r, a),
        group_rebuilt(b, r),
    ensures
        same_group(a, b),
{
    let s = a.spec_snapshot();
    let t = b.spec_snapshot();
    assert forall|k: int| 0 <= k < s.spec_items().len() implies #[trigger] same_item(
        s.spec_items()[k],
        t.spec_items()[k],
    ) by {
        assert(item_recorded(r.items@[k], s.spec_items()[k]));
        assert(item_rebuilt(t.spec_items()[k], r.items@[k]));
        lemma_item_round_trip(s.spec_items()[k], r.items@[k], t.spec_items()[k]);
    }
    lemma_fingerprint_len(a.spec_fingerprint());
    lemma_fingerprint_round_trip(a.spec_fingerprint()@);
}

proof fn lemma_recorded_item_enc(a: CoverageItemSnapshot, r: crate::coverage::record::ItemRecord)
    requires
        item_recorded(r, a),
    ensures
        enc_item(a) == enc_item_record(r),
{
    match (a, r) {
        (CoverageItemSnapshot::Coverpoint(p), crate::coverage::record::ItemRecord::Coverpoint { bins, .. }) => {
            lemma_point_bins_round_trip(p.spec_bins(), bins@);
            lemma_point_views_enc(p.spec_bins(), point_views_of(bins@), p.spec_bins().len() as int);
        },
        (CoverageItemSnapshot::Cross2(c), crate::coverage::record::ItemRecord::Cross2 { bins, .. }) => {
            lemma_cross_bins_round_trip(c.spec_bins(), bins@);
            lemma_cross_views_enc(c.spec_bins(), cross_views_of(bins@), c.spec_bins().len() as int);
        },
        _ => {},
    }
}

proof fn lemma_recorded_items_enc(
    ms: Seq<CoverageItemSnapshot>,
    rs: Seq<crate::coverage::record::ItemRecord>,
    n: int,
)
    requires
        ms.len() == rs.len(),
        0 <= n <= rs.len(),
        forall|k: int| 0 <= k < rs.len() ==> #[trigger] item_recorded(rs[k], ms[k]),
    ensures
        enc_items(ms, n) == enc_item_records(rs, n),
    decreases n,
{
    if n > 0 {
        lemma_recorded_items_enc(ms, rs, n - 1);
        lemma_recorded_item_enc(ms[n - 1], rs[n - 1]);
    }
}

/// The fingerprint that writing a group records is the digest that reading
/// it back recomputes from the record, when the group carries the
/// fingerprint of its own definition (as every group built from a session
/// or read back does): the fingerprint check never refuses what was written.
pub proof fn lemma_written_fingerprint_matches(a: CoverageArtifactGroup, r: crate::coverage::record::GroupRecord)
    requires
        group_recorded(r, a),
        a.spec_fingerprint()@ == sha256(definition_bytes(a.spec_snapshot())),
    ensures
        record_definition_bytes(r) == definition_bytes(a.spec_snapshot()),
        fingerprint_text_value(r.definition.fingerprint@) == Some(record_digest(r)),
{
    let s = a.spec_snapshot();
    lemma_recorded_items_enc(s.spec_items(), r.items@, r.items@.len() as int);
    lemma_fingerprint_len(a.spec_fingerprint());
    lemma_fingerprint_round_trip(a.spec_fingerprint()@);
}

/// Every group fingerprint that writing an artifact records passes the
/// fingerprint check on reading, when each group carries the fingerprint of
/// its own definition.
pub proof fn lemma_written_artifact_fingerprints_match(
    a: CoverageArtifact,
    r: crate::coverage::record::ArtifactRecord,
)
    requires
        artifact_recorded(r, a),
        forall|k: int|
            0 <= k < a.spec_groups().len() ==> (#[trigger] a.spec_groups()[k]).spec_fingerprint()@
                == sha256(definition_bytes(a.spec_groups()[k].spec_snapshot())),
    ensures
        forall|k: int|
            0 <= k < r.groups@.len() ==> fingerprint_text_value(
                (#[trigger] r.groups@[k]).definition.fingerprint@,
            ) == Some(record_digest(r.groups@[k])),
{
    assert forall|k: int| 0 <= k < r.groups@.len() implies fingerprint_text_value(
        (#[trigger] r.groups@[k]).definition.fingerprint@,
    ) == Some(record_digest(r.groups@[k])) by {
        assert(group_recorded(r.groups@[k], a.spec_groups()[k]));
        lemma_written_fingerprint_matches(a.spec_groups()[k], r.groups@[k]);
    }
}

proof fn lemma_point_bins_no_issue(
    src: Seq<CoverpointBinSnapshot>,
    recs: Seq<crate::coverage::record::CoverpointBinRecord>,
    path: Seq<char>,
    j: int,
)
    requires
        recs.len() == src.len(),
        0 <= j <= recs.len(),
        forall|k: int| 0 <= k < recs.len() ==> #[trigger] point_bin_recorded(recs[k], src[k]),
        forall|k: int| 0 <= k < src.len() ==> #[trigger] point_bin_valid(bin_views(src)[k], k),
    ensures
        first_point_bin_issue(recs, path, j) is None,
    decreases recs.len() - j,
{
    if j < recs.len() {
        lemma_point_bins_no_issue(src, recs, path, j + 1);
        assert(point_bin_recorded(recs[j], src[j]));
        assert(point_bin_valid(bin_views(src)[j], j));
        lemma_bin_kind_name(src[j]@.2);
        lemma_matcher_kind_name(src[j]@.3);
    }
}

proof fn lemma_cross_bins_no_issue(
    src: Seq<CrossBinSnapshot>,
    recs: Seq<crate::coverage::record::CrossBinRecord>,
    path: Seq<char>,
    j: int,
)
    requires
        recs.len() == src.len(),
        0 <= j <= recs.len(),
        forall|k: int| 0 <= k < recs.len() ==> #[trigger] cross_bin_recorded(recs[k], src[k]),
        forall|k: int| 0 <= k < src.len() ==> #[trigger] cross_bin_valid(cross_bin_views(src)[k], k),
    ensures
        first_cross_bin_issue(recs, path, j) is None,
    decreases recs.len() - j,
{
    if j < recs.len() {
        lemma_cross_bins_no_issue(src, recs, path, j + 1);
        assert(cross_bin_recorded(recs[j], src[j]));
        assert(cross_bin_valid(cross_bin_views(src)[j], j));
    }
}

/// What writing a valid item records passes every item check on reading,
/// has the item's shape, and recomputes the item's coverage.
proof fn lemma_recorded_item_accepted(
    a: CoverageItemSnapshot,
    r: crate::coverage::record::ItemRecord,
    path: Seq<char>,
)
    requires
        item_valid(a),
        item_recorded(r, a),
    ensures
        item_record_issue(r, path) is None,
        shape_of_record(r) == shape_of_item(a),
        record_item_ratio(r) == item_snapshot_coverage(a)@,
        (r is Cross2) == (item_kind_of(a) == CoverageItemKind::Cross2),
{
    match (a, r) {
        (CoverageItemSnapshot::Coverpoint(p), crate::coverage::record::ItemRecord::Coverpoint { bins, .. }) => {
            lemma_point_bins_round_trip(p.spec_bins(), bins@);
            lemma_point_bins_no_issue(p.spec_bins(), bins@, path, 0);
        },
        (CoverageItemSnapshot::Cross2(c), crate::coverage::record::ItemRecord::Cross2 { bins, .. }) => {
            lemma_cross_bins_round_trip(c.spec_bins(), bins@);
            lemma_cross_bins_no_issue(c.spec_bins(), bins@, path, 0);
        },
        _ => {},
    }
}

proof fn lemma_recorded_items(
    ms: Seq<CoverageItemSnapshot>,
    rs: Seq<crate::coverage::record::ItemRecord>,
    path: Seq<char>,
)
    requires
        ms.len() == rs.len(),
        forall|k: int| 0 <= k < ms.len() ==> #[trigger] item_valid(ms[k]),
        forall|k: int| 0 <= k < rs.len() ==> #[trigger] item_recorded(rs[k], ms[k]),
    ensures
        first_item_record_issue(rs, path, 0) is None,
        record_shapes(rs) == item_shapes(ms),
        record_ratio_views(rs) == item_ratio_views(ms),
        count_records(rs, rs.len() as int, false) == count_snapshot_kind(
            ms,
            ms.len() as int,
            CoverageItemKind::Coverpoint,
        ),
        count_records(rs, rs.len() as int, true) == count_snapshot_kind(
            ms,
            ms.len() as int,
            CoverageItemKind::Cross2,
        ),
{
    assert forall|k: int| 0 <= k < rs.len() implies #[trigger] item_record_issue(
        rs[k],
        item_path_of(path, k as nat),
    ) is None && shape_of_record(rs[k]) == shape_of_item(ms[k]) && record_item_ratio(rs[k])
        == item_snapshot_coverage(ms[k])@ && (rs[k] is Cross2) == (item_kind_of(ms[k])
        == CoverageItemKind::Cross2) by {
        assert(item_valid(ms[k]));
        assert(item_recorded(rs[k], ms[k]));
        lemma_recorded_item_accepted(ms[k], rs[k], item_path_of(path, k as nat));
    }
    lemma_items_no_issue(rs, path, 0);
    assert forall|k: int| 0 <= k < rs.len() implies record_shapes(rs)[k] == item_shapes(ms)[k]
        && record_ratio_views(rs)[k] == item_ratio_views(ms)[k] by {
        assert(item_record_issue(rs[k], item_path_of(path, k as nat)) is None);
    }
    assert(record_shapes(rs) =~= item_shapes(ms));
    assert(record_ratio_views(rs) =~= item_ratio_views(ms));
    assert forall|k: int| 0 <= k < rs.len() implies #[trigger] recorded_alike(rs[k], ms[k]) by {
        assert(item_record_issue(rs[k], item_path_of(path, k as nat)) is None);
    }
    lemma_recorded_counts(ms, rs, rs.len() as int);
}

proof fn lemma_items_no_issue(rs: Seq<crate::coverage::record::ItemRecord>, path: Seq<char>, k: int)
    requires
        0 <= k <= rs.len(),
        forall|t: int|
            0 <= t < rs.len() ==> #[trigger] item_record_issue(rs[t], item_path_of(path, t as nat))
                is None,
    ensures
        first_item_record_issue(rs, path, k) is None,
    decreases rs.len() - k,
{
    if k < rs.len() {
        lemma_items_no_issue(rs, path, k + 1);
    }
}

/// A persisted item has the shape and kind of an item.
spec fn recorded_alike(r: crate::coverage::record::ItemRecord, m: CoverageItemSnapshot) -> bool {
    &&& shape_of_record(r) == shape_of_item(m)
    &&& (r is Cross2) == (item_kind_of(m) == CoverageItemKind::Cross2)
}

proof fn lemma_recorded_counts(
    ms: Seq<CoverageItemSnapshot>,
    rs: Seq<crate::coverage::record::ItemRecord>,
    n: int,
)
    requires
        ms.len() == rs.len(),
        0 <= n <= rs.len(),
        forall|k: int| 0 <= k < rs.len() ==> #[trigger] recorded_alike(rs[k], ms[k]),
    ensures
        count_records(rs, n, false) == count_snapshot_kind(ms, n, CoverageItemKind::Coverpoint),
        count_records(rs, n, true) == count_snapshot_kind(ms, n, CoverageItemKind::Cross2),
    decreases n,
{
    if n > 0 {
        lemma_recorded_counts(ms, rs, n - 1);
        assert(recorded_alike(rs[n - 1], ms[n - 1]));
        match ms[n - 1] {
            CoverageItemSnapshot::Coverpoint(_) => {},
            CoverageItemSnapshot::Cross2(_) => {},
        }
    }
}

/// Whether a cross-source problem is found does not depend on the path
/// that names it.
proof fn lemma_source_issue_path(sh: Seq<Shape>, p: Seq<char>, q: Seq<char>, j: int)
    ensures
        (first_source_issue(sh, p, j) is None) == (first_source_issue(sh, q, j) is None),
    decreases sh.len() - j,
{
    if 0 <= j < sh.len() {
        lemma_source_issue_path(sh, p, q, j + 1);
    }
}

/// What writing a valid group that carries the fingerprint of its
/// definition records passes every group check on reading, at any position.
pub proof fn lemma_recorded_group_accepted(
    g: CoverageArtifactGroup,
    r: crate::coverage::record::GroupRecord,
    index: nat,
)
    requires
        group_snapshot_valid(g.spec_snapshot()),
        g.spec_fingerprint()@ == sha256(definition_bytes(g.spec_snapshot())),
        group_recorded(r, g),
    ensures
        group_record_accepted(r, index),
{
    let s = g.spec_snapshot();
    let path = group_path(index);
    lemma_recorded_items(s.spec_items(), r.items@, path);
    lemma_source_issue_path(item_shapes(s.spec_items()), Seq::empty(), path, 0);
    lemma_written_fingerprint_matches(g, r);
}

/// Reading back what writing an artifact produced gives the same artifact:
/// producer, test name and status, replay token, every group with its
/// items, bins, counters, summary and fingerprint, and the session summary.
pub proof fn lemma_artifact_round_trip(
    a: CoverageArtifact,
    r: crate::coverage::record::ArtifactRecord,
    b: CoverageArtifact,
)
    requires
        artifact_recorded(r, a),
        artifact_rebuilt(b, r),
    ensures
        same_artifact(a, b),
{
    lemma_status_value_of_name(a.spec_test_status());
    match a.spec_replay_token() {
        Some(tok) => {
            lemma_replay_value_of_text(tok@);
        },
        None => {},
    }
    assert(replay_recorded(r.replay_token, a.spec_replay_token()));
    assert(replay_read(r.replay_token, b.spec_replay_token()));
    assert forall|k: int| 0 <= k < a.spec_groups().len() implies #[trigger] same_group(
        a.spec_groups()[k],
        b.spec_groups()[k],
    ) by {
        assert(group_recorded(r.groups@[k], a.spec_groups()[k]));
        assert(group_rebuilt(b.spec_groups()[k], r.groups@[k]));
        lemma_group_round_trip(a.spec_groups()[k], r.groups@[k], b.spec_groups()[k]);
    }
}

/// Two merge inputs hold the same data.
pub open spec fn same_input(a: CoverageMergeInput, b: CoverageMergeInput) -> bool {
    &&& a.spec_producer_version() == b.spec_producer_version()
    &&& a.spec_test_name() == b.spec_test_name()
    &&& a.spec_test_status() == b.spec_test_status()
    &&& replay_views(a.spec_replay_token()) == replay_views(b.spec_replay_token())
    &&& a.spec_included() == b.spec_included()
    &&& same_session_summary(a.spec_summary(), b.spec_summary())
}

/// Two merge summaries hold the same counts and coverage.
pub open spec fn same_merge_summary(s: CoverageMergeSummary, t: CoverageMergeSummary) -> bool {
    &&& s.spec_counts() == t.spec_counts()
    &&& s.spec_totals() == t.spec_totals()
    &&& s.spec_coverage()@ == t.spec_coverage()@
}

/// Two merged documents hold the same data: producer, policy, inputs, groups
/// and summary.
pub open spec fn same_merge(a: CoverageMerge, b: CoverageMerge) -> bool {
    &&& a.spec_producer_version() == b.spec_producer_version()
    &&& a.spec_policy() == b.spec_policy()
    &&& a.spec_inputs().len() == b.spec_inputs().len()
    &&& forall|k: int|
        0 <= k < a.spec_inputs().len() ==> #[trigger] same_input(a.spec_inputs()[k], b.spec_inputs()[k])
    &&& a.spec_groups().len() == b.spec_groups().len()
    &&& forall|k: int|
        0 <= k < a.spec_groups().len() ==> #[trigger] same_group(a.spec_groups()[k], b.spec_groups()[k])
    &&& same_merge_summary(a.spec_summary(), b.spec_summary())
}

/// A merge input read back from its record holds the input's data.
pub proof fn lemma_input_round_trip(
    a: CoverageMergeInput,
    r: crate::coverage::record::MergeInputRecord,
    b: CoverageMergeInput,
)
    requires
        input_recorded(r, a),
        input_rebuilt(b, r),
    ensures
        same_input(a, b),
{
    lemma_status_value_of_name(a.spec_test_status());
    match a.spec_replay_token() {
        Some(tok) => {
            lemma_replay_value_of_text(tok@);
        },
        None => {},
    }
    assert(replay_recorded(r.replay_token, a.spec_replay_token()));
    assert(replay_read(r.replay_token, b.spec_replay_token()));
}

/// Reading back what writing a merged document produced gives the same
/// document: producer, policy, every input, every group and the summary.
pub proof fn lemma_merge_round_trip(a: CoverageMerge, r: crate::coverage::record::MergeRecord, b: CoverageMerge)
    requires
        merge_recorded(r, a),
        merge_rebuilt(b, r),
    ensures
        same_merge(a, b),
{
    lemma_policy_text_round_trip(a.spec_policy());
    lemma_policy_text_round_trip(b.spec_policy());
    assert forall|k: int| 0 <= k < a.spec_inputs().len() implies #[trigger] same_input(
        a.spec_inputs()[k],
        b.spec_inputs()[k],
    ) by {
        assert(input_recorded(r.inputs@[k], a.spec_inputs()[k]));
        assert(input_rebuilt(b.spec_inputs()[k], r.inputs@[k]));
        lemma_input_round_trip(a.spec_inputs()[k], r.inputs@[k], b.spec_inputs()[k]);
    }
    assert forall|k: int| 0 <= k < a.spec_groups().len() implies #[trigger] same_group(
        a.spec_groups()[k],
        b.spec_groups()[k],
    ) by {
        assert(group_recorded(r.groups@[k], a.spec_groups()[k]));
        assert(group_rebuilt(b.spec_groups()[k], r.groups@[k]));
        lemma_group_round_trip(a.spec_groups()[k], r.groups@[k], b.spec_groups()[k]);
    }
}



/// Groups holding the same data, position by position, give the same
/// session-level problem and the same session summaries.
proof fn lemma_same_groups_session(xs: Seq<CoverageArtifactGroup>, ys: Seq<CoverageArtifactGroup>)
    requires
        xs.len() == ys.len(),
        forall|k: int| 0 <= k < xs.len() ==> #[trigger] same_group(xs[k], ys[k]),
    ensures
        session_summary_issue(xs) == session_summary_issue(ys),
        forall|s: CoverageSessionSummary| #[trigger] session_summary_of(s, xs) == session_summary_of(s, ys),
{
    assert forall|k: int| 0 <= k < xs.len() implies group_item_counts(xs)[k] == group_item_counts(ys)[k]
        && group_coverpoint_counts(xs)[k] == group_coverpoint_counts(ys)[k]
        && group_cross_counts(xs)[k] == group_cross_counts(ys)[k]
        && group_ratio_views(xs)[k] == group_ratio_views(ys)[k]
        && xs[k].spec_snapshot().spec_instance_path() == ys[k].spec_snapshot().spec_instance_path() by {
        assert(same_group(xs[k], ys[k]));
    }
    assert(group_item_counts(xs) =~= group_item_counts(ys));
    assert(group_coverpoint_counts(xs) =~= group_coverpoint_counts(ys));
    assert(group_cross_counts(xs) =~= group_cross_counts(ys));
    assert(group_ratio_views(xs) =~= group_ratio_views(ys));
    assert(paths_repeat(xs) == paths_repeat(ys)) by {
        if paths_repeat(xs) {
            let (j, k) = choose|j: int, k: int|
                0 <= k < j < xs.len() && xs[k].spec_snapshot().spec_instance_path()
                    == xs[j].spec_snapshot().spec_instance_path();
            assert(same_group(xs[k], ys[k]));
            assert(same_group(xs[j], ys[j]));
        }
        if paths_repeat(ys) {
            let (j, k) = choose|j: int, k: int|
                0 <= k < j < ys.len() && ys[k].spec_snapshot().spec_instance_path()
                    == ys[j].spec_snapshot().spec_instance_path();
            assert(same_group(xs[k], ys[k]));
            assert(same_group(xs[j], ys[j]));
        }
    }
}

/// Reading back what writing a valid artifact produced passes every check:
/// the header, every group (its fingerprint included) and the session
/// summary, whatever the groups are rebuilt as; and the artifact read back
/// holds the written artifact's data. With the contract of
/// `CoverageArtifact::from_record`, reading the record succeeds and gives
/// back the same artifact.
pub proof fn lemma_written_artifact_reads_back(a: CoverageArtifact, r: crate::coverage::record::ArtifactRecord)
    requires
        artifact_valid(a),
        artifact_recorded(r, a),
    ensures
        artifact_header_ok(r),
        r.groups@.len() > 0,
        forall|k: int|
            0 <= k < r.groups@.len() ==> #[trigger] group_record_accepted(r.groups@[k], k as nat),
        session_accepted(r.groups@, r.summary),
        forall|b: CoverageArtifact| #[trigger] artifact_rebuilt(b, r) ==> same_artifact(a, b),
{
    lemma_status_value_of_name(a.spec_test_status());
    match a.spec_replay_token() {
        Some(tok) => {
            lemma_replay_value_of_text(tok@);
        },
        None => {},
    }
    assert(replay_recorded(r.replay_token, a.spec_replay_token()));
    assert forall|k: int| 0 <= k < r.groups@.len() implies #[trigger] group_record_accepted(
        r.groups@[k],
        k as nat,
    ) by {
        assert(group_recorded(r.groups@[k], a.spec_groups()[k]));
        assert(group_snapshot_valid(a.spec_groups()[k].spec_snapshot()));
        lemma_recorded_group_accepted(a.spec_groups()[k], r.groups@[k], k as nat);
    }
    assert forall|gs: Seq<CoverageArtifactGroup>| #[trigger] groups_rebuilt(gs, r.groups@) implies (
    session_summary_issue(gs) is None && forall|s: CoverageSessionSummary|
        #[trigger] session_summary_of(s, gs) ==> crate::coverage::decode_artifact::stored_session_issue(
            r.summary,
            s,
        ) is None) by {
        assert forall|k: int| 0 <= k < gs.len() implies #[trigger] same_group(a.spec_groups()[k], gs[k]) by {
            assert(group_recorded(r.groups@[k], a.spec_groups()[k]));
            assert(group_rebuilt(gs[k], r.groups@[k]));
            lemma_group_round_trip(a.spec_groups()[k], r.groups@[k], gs[k]);
        }
        lemma_same_groups_session(a.spec_groups(), gs);
        assert(session_recorded(r.summary, a.spec_summary()));
    }
    assert forall|b: CoverageArtifact| #[trigger] artifact_rebuilt(b, r) implies same_artifact(a, b) by {
        lemma_artifact_round_trip(a, r, b);
    }
}


proof fn lemma_policy_named(p: CoverageMergePolicy)
    ensures
        policy_named(policy_text(p)) == p,
{
    lemma_policy_text_round_trip(CoverageMergePolicy::PassedOnly);
    lemma_policy_text_round_trip(CoverageMergePolicy::PassedAndFailed);
    lemma_policy_text_round_trip(CoverageMergePolicy::All);
}

/// What writing a valid merge input records passes the input checks and
/// reads back as the input's view.
proof fn lemma_recorded_input(i: CoverageMergeInput, r: MergeInputRecord, policy: CoverageMergePolicy, k: nat)
    requires
        input_valid(i, policy),
        input_recorded(r, i),
    ensures
        record_input_view(r) == i@,
        input_issue(r, policy, k) is None,
{
    lemma_status_value_of_name(i.spec_test_status());
    match i.spec_replay_token() {
        Some(tok) => {
            lemma_replay_value_of_text(tok@);
        },
        None => {},
    }
    assert(replay_recorded(r.replay_token, i.spec_replay_token()));
}

proof fn lemma_inputs_no_issue(rs: Seq<MergeInputRecord>, policy: CoverageMergePolicy, k: int)
    requires
        0 <= k <= rs.len(),
        forall|t: int| 0 <= t < rs.len() ==> #[trigger] input_issue(rs[t], policy, t as nat) is None,
    ensures
        first_input_issue(rs, policy, k) is None,
    decreases rs.len() - k,
{
    if k < rs.len() {
        lemma_inputs_no_issue(rs, policy, k + 1);
    }
}

proof fn lemma_recorded_input_counts(ins: Seq<CoverageMergeInput>, rs: Seq<MergeInputRecord>, n: int)
    requires
        ins.len() == rs.len(),
        0 <= n <= rs.len(),
        forall|k: int| 0 <= k < rs.len() ==> #[trigger] record_input_view(rs[k]) == ins[k]@,
    ensures
        record_input_counts(rs, n) == input_counts(ins, n),
    decreases n,
{
    if n > 0 {
        lemma_recorded_input_counts(ins, rs, n - 1);
        assert(record_input_view(rs[n - 1]) == ins[n - 1]@);
    }
}

/// A persisted group summary holds the counts and coverage of a group's summary.
spec fn summary_agrees(r: GroupRecord, g: CoverageArtifactGroup) -> bool {
    let m = g.spec_snapshot().spec_summary();
    &&& r.summary.items == m.spec_items()
    &&& r.summary.coverpoints == m.spec_coverpoints()
    &&& r.summary.crosses == m.spec_crosses()
    &&& (r.summary.coverage.covered, r.summary.coverage.uncovered, r.summary.coverage.total)
        == m.spec_coverage()@
}

proof fn lemma_agreeing_group_sums(gs: Seq<CoverageArtifactGroup>, rs: Seq<GroupRecord>, n: int)
    requires
        gs.len() == rs.len(),
        0 <= n <= rs.len(),
        forall|k: int| 0 <= k < rs.len() ==> #[trigger] summary_agrees(rs[k], gs[k]),
    ensures
        record_group_sums(rs, n) == group_sums(gs, n),
    decreases n,
{
    if n > 0 {
        lemma_agreeing_group_sums(gs, rs, n - 1);
        assert(summary_agrees(rs[n - 1], gs[n - 1]));
    }
}

proof fn lemma_agreeing_count_overflow(gs: Seq<CoverageArtifactGroup>, rs: Seq<GroupRecord>, i: int)
    requires
        gs.len() == rs.len(),
        0 <= i,
        forall|k: int| 0 <= k < rs.len() ==> #[trigger] summary_agrees(rs[k], gs[k]),
    ensures
        record_count_overflow(rs, i) == group_count_overflow(gs, i),
    decreases rs.len() - i,
{
    if i < rs.len() {
        lemma_agreeing_group_sums(gs, rs, i + 1);
        lemma_agreeing_count_overflow(gs, rs, i + 1);
    }
}

proof fn lemma_agreeing_ratios(gs: Seq<CoverageArtifactGroup>, rs: Seq<GroupRecord>)
    requires
        gs.len() == rs.len(),
        forall|k: int| 0 <= k < rs.len() ==> #[trigger] summary_agrees(rs[k], gs[k]),
    ensures
        group_record_ratios(rs) == group_ratio_views(gs),
{
    assert forall|k: int| 0 <= k < rs.len() implies group_record_ratios(rs)[k] == group_ratio_views(gs)[k] by {
        assert(summary_agrees(rs[k], gs[k]));
    }
    assert(group_record_ratios(rs) =~= group_ratio_views(gs));
}

/// Reading back what writing a valid merged document produced passes every
/// check: the header, every input, the canonical input order, every group
/// (its fingerprint included) and the summary; and the document read back
/// holds the written document's data. With the contract of
/// `CoverageMerge::from_record`, reading the record succeeds and gives back
/// the same document. Validity asks for inputs in `Debug`-text order, the
/// order reading checks; documents whose inputs merging ordered otherwise
/// are refused on reading.
pub proof fn lemma_written_merge_reads_back(m: CoverageMerge, r: crate::coverage::record::MergeRecord)
    requires
        merge_valid(m),
        merge_recorded(r, m),
    ensures
        merge_header_ok(r),
        r.inputs@.len() > 0,
        first_input_issue(r.inputs@, policy_named(r.policy@), 0) is None,
        exists|k: int| 0 <= k < r.inputs@.len() && (#[trigger] r.inputs@[k]).included,
        inputs_in_order(r.inputs@),
        forall|k: int|
            0 <= k < r.groups@.len() ==> #[trigger] group_record_accepted(r.groups@[k], k as nat),
        merge_tail_issue(r) is None,
        forall|b: CoverageMerge| #[trigger] merge_rebuilt(b, r) ==> same_merge(m, b),
{
    let ins = m.spec_inputs();
    let gs = m.spec_groups();
    let policy = m.spec_policy();
    lemma_policy_named(policy);
    match policy {
        CoverageMergePolicy::PassedOnly => {},
        CoverageMergePolicy::PassedAndFailed => {},
        CoverageMergePolicy::All => {},
    }
    assert forall|k: int| 0 <= k < r.inputs@.len() implies #[trigger] input_issue(
        r.inputs@[k],
        policy,
        k as nat,
    ) is None && record_input_view(r.inputs@[k]) == ins[k]@ by {
        assert(input_valid(ins[k], policy));
        assert(input_recorded(r.inputs@[k], ins[k]));
        lemma_recorded_input(ins[k], r.inputs@[k], policy, k as nat);
    }
    lemma_inputs_no_issue(r.inputs@, policy, 0);
    let j = choose|j: int| 0 <= j < ins.len() && (#[trigger] ins[j]).spec_included();
    assert(input_recorded(r.inputs@[j], ins[j]));
    assert(r.inputs@[j].included);
    assert forall|k: int| 1 <= k < r.inputs@.len() implies byte_order(
        crate::coverage::decode_merge::input_order_key(#[trigger] r.inputs@[k - 1]),
        crate::coverage::decode_merge::input_order_key(r.inputs@[k]),
    ) <= 0 by {
        assert(input_issue(r.inputs@[k - 1], policy, (k - 1) as nat) is None);
        assert(input_issue(r.inputs@[k], policy, k as nat) is None);
    }
    assert forall|k: int| 0 <= k < r.groups@.len() implies #[trigger] group_record_accepted(
        r.groups@[k],
        k as nat,
    ) by {
        assert(group_recorded(r.groups@[k], gs[k]));
        assert(group_snapshot_valid(gs[k].spec_snapshot()));
        lemma_recorded_group_accepted(gs[k], r.groups@[k], k as nat);
    }
    assert forall|a: int, b: int| 0 <= a < b < r.groups@.len() implies byte_order(
        encode_utf8((#[trigger] r.groups@[a]).instance_path@),
        encode_utf8((#[trigger] r.groups@[b]).instance_path@),
    ) < 0 by {
        assert(group_recorded(r.groups@[a], gs[a]));
        assert(group_recorded(r.groups@[b], gs[b]));
        assert(group_key(gs[a]) == encode_utf8(r.groups@[a].instance_path@));
        assert(group_key(gs[b]) == encode_utf8(r.groups@[b].instance_path@));
    }
    assert(records_sorted(r.groups@));
    assert forall|k: int| 0 <= k < r.groups@.len() implies #[trigger] summary_agrees(r.groups@[k], gs[k]) by {
        assert(group_recorded(r.groups@[k], gs[k]));
    }
    lemma_agreeing_count_overflow(gs, r.groups@, 0);
    lemma_agreeing_group_sums(gs, r.groups@, r.groups@.len() as int);
    lemma_agreeing_ratios(gs, r.groups@);
    assert forall|k: int| 0 <= k < r.inputs@.len() implies #[trigger] record_input_view(r.inputs@[k])
        == ins[k]@ by {
        assert(input_issue(r.inputs@[k], policy, k as nat) is None);
    }
    lemma_recorded_input_counts(ins, r.inputs@, ins.len() as int);
    assert(record_summary_matches(r));
    assert forall|b: CoverageMerge| #[trigger] merge_rebuilt(b, r) implies same_merge(m, b) by {
        lemma_merge_round_trip(m, r, b);
    }
}


proof fn lemma_point_bin_issues_none(recs: Seq<crate::coverage::record::CoverpointBinRecord>, path: Seq<char>, j: int)
    requires
        0 <= j,
        first_point_bin_issue(recs, path, j) is None,
    ensures
        forall|t: int| j <= t < recs.len() ==> #[trigger] point_bin_issue(recs[t], t as nat, path) is None,
    decreases recs.len() - j,
{
    if j < recs.len() {
        lemma_point_bin_issues_none(recs, path, j + 1);
    }
}

proof fn lemma_cross_bin_issues_none(recs: Seq<crate::coverage::record::CrossBinRecord>, path: Seq<char>, j: int)
    requires
        0 <= j,
        first_cross_bin_issue(recs, path, j) is None,
    ensures
        forall|t: int| j <= t < recs.len() ==> #[trigger] cross_bin_issue(recs[t], t as nat, path) is None,
    decreases recs.len() - j,
{
    if j < recs.len() {
        lemma_cross_bin_issues_none(recs, path, j + 1);
    }
}

proof fn lemma_item_issues_none(rs: Seq<crate::coverage::record::ItemRecord>, path: Seq<char>, k: int)
    requires
        0 <= k,
        first_item_record_issue(rs, path, k) is None,
    ensures
        forall|t: int|
            k <= t < rs.len() ==> #[trigger] item_record_issue(rs[t], item_path_of(path, t as nat)) is None,
    decreases rs.len() - k,
{
    if k < rs.len() {
        lemma_item_issues_none(rs, path, k + 1);
    }
}

/// An item rebuilt from a persisted item that passes its checks is valid.
proof fn lemma_rebuilt_item_valid(m: CoverageItemSnapshot, r: crate::coverage::record::ItemRecord, path: Seq<char>)
    requires
        item_rebuilt(m, r),
        item_record_issue(r, path) is None,
    ensures
        item_valid(m),
{
    match (m, r) {
        (CoverageItemSnapshot::Coverpoint(p), crate::coverage::record::ItemRecord::Coverpoint { bins, .. }) => {
            lemma_point_bin_issues_none(bins@, path, 0);
            let v = bin_views(p.spec_bins());
            assert forall|j: int| 0 <= j < v.len() implies #[trigger] point_bin_valid(v[j], j) by {
                assert(point_bin_issue(bins@[j], j as nat, path) is None);
                assert(v[j] == point_views_of(bins@)[j]);
            }
        },
        (CoverageItemSnapshot::Cross2(c), crate::coverage::record::ItemRecord::Cross2 { bins, .. }) => {
            lemma_cross_bin_issues_none(bins@, path, 0);
            let v = cross_bin_views(c.spec_bins());
            assert forall|j: int| 0 <= j < v.len() implies #[trigger] cross_bin_valid(v[j], j) by {
                assert(cross_bin_issue(bins@[j], j as nat, path) is None);
                assert(v[j] == cross_views_of(bins@)[j]);
            }
        },
        _ => {},
    }
}

/// A group rebuilt from a persisted group that passes every check, its
/// fingerprint included, is valid and carries the fingerprint of its
/// definition.
pub proof fn lemma_rebuilt_group_valid(g: CoverageArtifactGroup, r: crate::coverage::record::GroupRecord, index: nat)
    requires
        group_rebuilt(g, r),
        group_record_accepted(r, index),
    ensures
        group_snapshot_valid(g.spec_snapshot()),
        g.spec_fingerprint()@ == sha256(definition_bytes(g.spec_snapshot())),
{
    let s = g.spec_snapshot();
    let items = s.spec_items();
    let path = group_path(index);
    lemma_item_issues_none(r.items@, path, 0);
    assert forall|k: int| 0 <= k < items.len() implies #[trigger] item_valid(items[k]) by {
        assert(item_rebuilt(items[k], r.items@[k]));
        assert(item_record_issue(r.items@[k], item_path_of(path, k as nat)) is None);
        lemma_rebuilt_item_valid(items[k], r.items@[k], item_path_of(path, k as nat));
    }
    crate::coverage::decode_group::lemma_rebuilt_views(items, r.items@);
    lemma_source_issue_path(item_shapes(items), Seq::empty(), path, 0);
    crate::coverage::decode_group::lemma_definition_bytes(s, r);
}


/// An artifact rebuilt from a persisted artifact whose groups all pass their
/// checks is valid: whatever reading accepts, writing reads back.
pub proof fn lemma_read_artifact_valid(b: CoverageArtifact, r: crate::coverage::record::ArtifactRecord)
    requires
        artifact_rebuilt(b, r),
        forall|k: int|
            0 <= k < r.groups@.len() ==> #[trigger] group_record_accepted(r.groups@[k], k as nat),
    ensures
        artifact_valid(b),
{
    assert forall|k: int| 0 <= k < b.spec_groups().len() implies #[trigger] group_snapshot_valid(
        b.spec_groups()[k].spec_snapshot(),
    ) && b.spec_groups()[k].spec_fingerprint()@ == sha256(
        definition_bytes(b.spec_groups()[k].spec_snapshot()),
    ) by {
        assert(group_rebuilt(b.spec_groups()[k], r.groups@[k]));
        assert(group_record_accepted(r.groups@[k], k as nat));
        lemma_rebuilt_group_valid(b.spec_groups()[k], r.groups@[k], k as nat);
    }
}


proof fn lemma_input_issues_none(rs: Seq<MergeInputRecord>, policy: CoverageMergePolicy, k: int)
    requires
        0 <= k,
        first_input_issue(rs, policy, k) is None,
    ensures
        forall|t: int| k <= t < rs.len() ==> #[trigger] input_issue(rs[t], policy, t as nat) is None,
    decreases rs.len() - k,
{
    if k < rs.len() {
        lemma_input_issues_none(rs, policy, k + 1);
    }
}

/// A merged document rebuilt from a persisted document is valid: whatever
/// reading accepts, writing reads back.
pub proof fn lemma_read_merge_valid(b: CoverageMerge, r: crate::coverage::record::MergeRecord)
    requires
        merge_rebuilt(b, r),
        merge_body_outcome(r, Ok::<CoverageMerge, crate::coverage::artifact_error::CoveragePersistenceError>(b)),
    ensures
        merge_valid(b),
{
    let ins = b.spec_inputs();
    let gs = b.spec_groups();
    let policy = b.spec_policy();
    lemma_policy_named(policy);
    assert(policy_named(r.policy@) == policy);
    if exists|k: int| 0 <= k < r.groups@.len() && !#[trigger] group_record_accepted(r.groups@[k], k as nat) {
        assert(false);
    }
    lemma_input_issues_none(r.inputs@, policy, 0);
    crate::coverage::decode_merge::lemma_input_views(ins, r.inputs@);
    assert forall|k: int| 0 <= k < ins.len() implies #[trigger] input_valid(ins[k], policy) by {
        assert(input_rebuilt(ins[k], r.inputs@[k]));
        assert(input_issue(r.inputs@[k], policy, k as nat) is None);
    }
    let j = choose|j: int| 0 <= j < r.inputs@.len() && (#[trigger] r.inputs@[j]).included;
    assert(input_rebuilt(ins[j], r.inputs@[j]));
    assert forall|k: int| 1 <= k < ins.len() implies byte_order(
        encode_utf8(merge_input_debug((#[trigger] ins[k - 1])@)),
        encode_utf8(merge_input_debug(ins[k]@)),
    ) <= 0 by {
        assert(ins[k - 1]@ == record_input_view(r.inputs@[k - 1]));
        assert(ins[k]@ == record_input_view(r.inputs@[k]));
        assert(byte_order(
            crate::coverage::decode_merge::input_order_key(r.inputs@[k - 1]),
            crate::coverage::decode_merge::input_order_key(r.inputs@[k]),
        ) <= 0);
    }
    assert forall|k: int| 0 <= k < gs.len() implies #[trigger] group_snapshot_valid(gs[k].spec_snapshot())
        && gs[k].spec_fingerprint()@ == sha256(definition_bytes(gs[k].spec_snapshot())) by {
        assert(group_rebuilt(gs[k], r.groups@[k]));
        assert(group_record_accepted(r.groups@[k], k as nat));
        lemma_rebuilt_group_valid(gs[k], r.groups@[k], k as nat);
    }
    assert forall|k: int| 0 <= k < r.groups@.len() implies #[trigger] summary_agrees(r.groups@[k], gs[k]) by {
        assert(group_rebuilt(gs[k], r.groups@[k]));
    }
    lemma_agreeing_count_overflow(gs, r.groups@, 0);
    lemma_agreeing_ratios(gs, r.groups@);
}

} // verus!

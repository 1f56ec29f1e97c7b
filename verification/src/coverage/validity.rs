use vstd::prelude::*;
use vstd::utf8::encode_utf8;

use crate::coverage::artifact::CoverageArtifact;
use crate::coverage::bin::BinKind;
use crate::coverage::decode_artifact::{session_summary_issue, session_summary_of};
use crate::coverage::decode_bins::{
    cross_bins_problem, cross_views_ratio, operands_fit, point_bins_problem, point_views_ratio,
};
use crate::coverage::decode_group::{first_source_issue, item_shapes, names_repeat};
use crate::coverage::fingerprint::{definition_bytes, sha256};
use crate::coverage::identifier::{valid_identifier, valid_path, valid_test_name};
use crate::coverage::decode_merge::{input_counts, merge_input_debug};
use crate::coverage::merge::{policy_includes, ratio_sum_overflow, CoverageMergeInput, CoverageMergePolicy};
use crate::coverage::merge_document::{
    group_count_overflow, group_ratio_views, groups_sorted, summarizes_groups, CoverageMerge,
};
use crate::coverage::order::byte_order;
use crate::coverage::merge_counters::{views_normal, CrossBinView};
use crate::coverage::merge_group::{item_ratio_views, summarizes};
use crate::coverage::snapshot::{
    bin_views, cross_bin_views, BinSnapshotView, CoverageGroupSnapshot, CoverageItemSnapshot,
    CoverpointSnapshot, Cross2Snapshot,
};

verus! {

/// Covered and uncovered counts make up the total.
pub open spec fn ratio_consistent(c: (usize, usize, usize)) -> bool {
    c.0 + c.1 == c.2
}

/// A coverpoint bin at declaration ordinal `j`, as a built coverpoint holds
/// it: its ordinal, a valid name, a matcher with fitting operands, and a
/// positive threshold that is one for ignore and illegal bins.
pub open spec fn point_bin_valid(v: BinSnapshotView, j: int) -> bool {
    &&& j <= u32::MAX
    &&& v.0.0 == j
    &&& valid_identifier(v.1)
    &&& v.4 <= usize::MAX
    &&& operands_fit(v.3, v.4 as usize)
    &&& v.6 > 0
    &&& v.2 != BinKind::Normal ==> v.6 == 1
}

/// A coverpoint snapshot as sampling leaves it: a valid name, sample
/// classifications within its samples, well-formed bins with a normal bin,
/// distinct bin names and hits within samples, and the coverage of its bins.
pub open spec fn point_valid(p: CoverpointSnapshot) -> bool {
    let v = bin_views(p.spec_bins());
    let c = p.spec_counts();
    &&& valid_identifier(p.spec_name())
    &&& c.1 + c.2 + c.3 <= c.0
    &&& forall|j: int| 0 <= j < v.len() ==> #[trigger] point_bin_valid(v[j], j)
    &&& views_normal(v, v.len() as int) > 0
    &&& point_bins_problem(v, c.0, 0) is None
    &&& p.spec_coverage()@ == point_views_ratio(v)
    &&& ratio_consistent(p.spec_coverage()@)
}

/// A cross bin at row-major ordinal `j`: its ordinal, valid source bin
/// names and a positive threshold.
pub open spec fn cross_bin_valid(v: CrossBinView, j: int) -> bool {
    &&& j <= u32::MAX
    &&& v.0.0 == j
    &&& valid_identifier(v.2)
    &&& valid_identifier(v.4)
    &&& v.6 > 0
}

/// A cross snapshot as sampling leaves it: valid names, skipped samples
/// within its samples, well-formed bins sharing one threshold with hits
/// within samples, and the coverage of its bins.
pub open spec fn cross_valid(c: Cross2Snapshot) -> bool {
    let v = cross_bin_views(c.spec_bins());
    let n = c.spec_counts();
    &&& valid_identifier(c.spec_name())
    &&& valid_identifier(c.spec_axis_names().0)
    &&& valid_identifier(c.spec_axis_names().1)
    &&& n.1 <= n.0
    &&& forall|j: int| 0 <= j < v.len() ==> #[trigger] cross_bin_valid(v[j], j)
    &&& v.len() > 0
    &&& cross_bins_problem(v, n.0, v[0].6, 0) is None
    &&& c.spec_coverage()@ == cross_views_ratio(v)
    &&& ratio_consistent(c.spec_coverage()@)
}

/// An item snapshot as sampling leaves it.
pub open spec fn item_valid(i: CoverageItemSnapshot) -> bool {
    match i {
        CoverageItemSnapshot::Coverpoint(p) => point_valid(p),
        CoverageItemSnapshot::Cross2(c) => cross_valid(c),
    }
}

/// A group snapshot as capture leaves it: valid definition name and
/// instance path, valid items with distinct names, crosses whose bins are
/// the row-major product of their sources' normal bins (the path only names
/// a problem), no overflowing coverage sum, and its summary.
pub open spec fn group_snapshot_valid(s: CoverageGroupSnapshot) -> bool {
    let items = s.spec_items();
    &&& valid_identifier(s.spec_definition_name())
    &&& valid_path(s.spec_instance_path())
    &&& forall|k: int| 0 <= k < items.len() ==> #[trigger] item_valid(items[k])
    &&& !names_repeat(item_shapes(items))
    &&& first_source_issue(item_shapes(items), Seq::empty(), 0) is None
    &&& ratio_sum_overflow(item_ratio_views(items), 0) is None
    &&& summarizes(s.spec_summary(), items, item_ratio_views(items))
    &&& ratio_consistent(s.spec_summary().spec_coverage()@)
}

/// An artifact as a finished session gives it: a producer version, a valid
/// test name, at least one valid group carrying the fingerprint of its
/// definition, distinct paths and sums that fit, and its session summary.
pub open spec fn artifact_valid(a: CoverageArtifact) -> bool {
    &&& a.spec_producer_version().len() > 0
    &&& valid_test_name(a.spec_test_name())
    &&& a.spec_groups().len() > 0
    &&& forall|k: int|
        0 <= k < a.spec_groups().len() ==> #[trigger] group_snapshot_valid(
            a.spec_groups()[k].spec_snapshot(),
        ) && a.spec_groups()[k].spec_fingerprint()@ == sha256(
            definition_bytes(a.spec_groups()[k].spec_snapshot()),
        )
    &&& session_summary_issue(a.spec_groups()) is None
    &&& session_summary_of(a.spec_summary(), a.spec_groups())
    &&& ratio_consistent(a.spec_summary().spec_coverage()@)
}

/// A merge input as a merge records it under `policy`: a producer version,
/// a valid test name, the policy's inclusion of its status, and a
/// consistent session coverage.
pub open spec fn input_valid(i: CoverageMergeInput, policy: CoverageMergePolicy) -> bool {
    &&& i.spec_producer_version().len() > 0
    &&& valid_test_name(i.spec_test_name())
    &&& i.spec_included() == policy_includes(policy, i.spec_test_status())
    &&& ratio_consistent(i.spec_summary().spec_coverage()@)
}

/// Merge inputs in the order reading checks: by the bytes of their `Debug`
/// text.
pub open spec fn inputs_in_debug_order(ins: Seq<CoverageMergeInput>) -> bool {
    forall|k: int|
        1 <= k < ins.len() ==> byte_order(
            encode_utf8(merge_input_debug((#[trigger] ins[k - 1])@)),
            encode_utf8(merge_input_debug(ins[k]@)),
        ) <= 0
}

/// A merged document as merging leaves it: a producer version, valid inputs
/// of which one is included, valid groups carrying the fingerprints of
/// their definitions in strictly increasing path order, sums that fit, and
/// its summary. Its inputs must also come in `Debug`-text order, the order
/// reading checks; merging orders them by the caller's keys instead.
pub open spec fn merge_valid(m: CoverageMerge) -> bool {
    let ins = m.spec_inputs();
    let gs = m.spec_groups();
    &&& m.spec_producer_version().len() > 0
    &&& ins.len() > 0
    &&& forall|k: int| 0 <= k < ins.len() ==> #[trigger] input_valid(ins[k], m.spec_policy())
    &&& exists|k: int| 0 <= k < ins.len() && (#[trigger] ins[k]).spec_included()
    &&& inputs_in_debug_order(ins)
    &&& forall|k: int|
        0 <= k < gs.len() ==> #[trigger] group_snapshot_valid(gs[k].spec_snapshot())
            && gs[k].spec_fingerprint()@ == sha256(definition_bytes(gs[k].spec_snapshot()))
    &&& groups_sorted(gs)
    &&& group_count_overflow(gs, 0) is None
    &&& ratio_sum_overflow(group_ratio_views(gs), 0) is None
    &&& summarizes_groups(m.spec_summary(), gs, input_counts(ins, ins.len() as int))
    &&& ratio_consistent(m.spec_summary().spec_coverage()@)
}

} // verus!

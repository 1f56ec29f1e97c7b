use vstd::prelude::*;
use vstd::string::*;
use vstd::utf8::encode_utf8;

use crate::coverage::artifact::{parse_status, CoverageArtifactGroup};
use crate::coverage::artifact_error::CoveragePersistenceError;
use crate::coverage::decode_artifact::{
    groups_rebuilt, read_replay, replay_ok, replay_read, replay_value, status_value,
};
use crate::coverage::decode_bins::{invalid, invalid_issue, reports, Issue};
use crate::coverage::decode_group::{
    group_from_record, group_rebuilt, group_record_accepted, group_record_outcome, groups_refused,
};
use crate::coverage::identifier::{is_valid_test_name, valid_test_name};
use crate::coverage::merge::{
    policy_includes, policy_text, ratio_sum_overflow, ratio_sums_of, record_overflow, recorded,
    CoverageMergeInput, CoverageMergePolicy, MergeCounts, MergeInputView,
};
use crate::coverage::merge_document::{
    group_count_overflow, group_key, group_ratio_views, group_sums, groups_sorted, merge_summary,
    summarizes_groups, zero_counts, CoverageMerge,
    CoverageMergeSummary, MERGE_FORMAT_NAME, MERGE_SCHEMA_VERSION,
};
use crate::coverage::merge_error::{CoverageMergeCountKind, CoverageMergeError};
use crate::coverage::order::{byte_order, compare_text, lemma_byte_order_trans};
use crate::coverage::ratio::CoverageRatio;
use crate::coverage::record::{
    GroupRecord, MergeInputRecord, MergeRecord, MergeSummaryRecord, RatioRecord,
};
use crate::coverage::session::CoverageSessionSummary;
use crate::registry::TestStatus;
use crate::text::{decimal_spec, push_decimal, push_str, str_eq};

use crate::coverage::validity::merge_valid;

verus! {

/// Problem of a stored ratio read on its own.
pub open spec fn stored_ratio_issue(r: RatioRecord, path: Seq<char>) -> Option<Issue> {
    if r.covered + r.uncovered > usize::MAX {
        Some(invalid_issue(path, "covered and uncovered counts overflow"@))
    } else if r.covered + r.uncovered != r.total {
        Some(invalid_issue(path, "covered plus uncovered must equal total"@))
    } else {
        None
    }
}

/// Reads a stored ratio, checking that covered and uncovered bins add up.
pub fn ratio_from_record(r: &RatioRecord, path: &str) -> (out: Result<
    CoverageRatio,
    CoveragePersistenceError,
>)
    ensures
        match stored_ratio_issue(*r, path@) {
            Some(i) => out matches Err(e) && reports(e, i),
            None => out matches Ok(c) && c@ == (r.covered, r.uncovered, r.total),
        },
{
    let combined = match r.covered.checked_add(r.uncovered) {
        Some(v) => v,
        None => {
            return Err(invalid(path, "covered and uncovered counts overflow"));
        },
    };
    if combined != r.total {
        return Err(invalid(path, "covered plus uncovered must equal total"));
    }
    Ok(CoverageRatio::new(r.covered, r.uncovered, r.total))
}

/// Path `inputs[index]` followed by `field`.
pub open spec fn input_path(index: nat, field: Seq<char>) -> Seq<char> {
    "inputs["@ + decimal_spec(index) + "]"@ + field
}

fn input_path_text(index: usize, field: &str) -> (r: String)
    ensures
        r@ == input_path(index as nat, field@),
{
    let mut s = String::new();
    push_str(&mut s, "inputs[");
    push_decimal(&mut s, index as u64);
    push_str(&mut s, "]");
    push_str(&mut s, field);
    proof {
        assert(s@ =~= input_path(index as nat, field@));
    }
    s
}

/// Problem of a persisted merge input at `index` under `policy`.
pub open spec fn input_issue(i: MergeInputRecord, policy: CoverageMergePolicy, index: nat) -> Option<Issue> {
    if i.producer_version@.len() == 0 {
        Some(
            invalid_issue(
                input_path(index, ".producer_version"@),
                "producer version must not be empty"@,
            ),
        )
    } else if !valid_test_name(i.test_name@) {
        Some(invalid_issue(input_path(index, ".test.name"@), "invalid test name"@))
    } else if status_value(i.test_status@) is None {
        Some(invalid_issue("test.status"@, "unknown test status"@))
    } else if i.included != policy_includes(policy, status_value(i.test_status@).unwrap()) {
        Some(
            invalid_issue(
                input_path(index, ".included"@),
                "inclusion flag does not match policy"@,
            ),
        )
    } else if !replay_ok(i.replay_token) {
        Some(invalid_issue(input_path(index, ".test.replay_token"@), "invalid replay token"@))
    } else {
        stored_ratio_issue(i.summary.coverage, input_path(index, ".summary.coverage"@))
    }
}

/// `m` is the input rebuilt from the valid persisted input `i`.
pub open spec fn input_rebuilt(m: CoverageMergeInput, i: MergeInputRecord) -> bool {
    let s = m.spec_summary();
    &&& m.spec_producer_version() == i.producer_version@
    &&& m.spec_test_name() == i.test_name@
    &&& Some(m.spec_test_status()) == status_value(i.test_status@)
    &&& replay_read(i.replay_token, m.spec_replay_token())
    &&& m.spec_included() == i.included
    &&& s.spec_groups() == i.summary.groups
    &&& s.spec_items() == i.summary.items
    &&& s.spec_coverpoints() == i.summary.coverpoints
    &&& s.spec_crosses() == i.summary.crosses
    &&& s.spec_coverage()@ == (i.summary.coverage.covered, i.summary.coverage.uncovered, i.summary.coverage.total)
}

/// Rebuilds one persisted merge input at `index`, checking it against `policy`.
pub fn input_from_record(i: &MergeInputRecord, policy: CoverageMergePolicy, index: usize) -> (r:
    Result<CoverageMergeInput, CoveragePersistenceError>)
    ensures
        match input_issue(*i, policy, index as nat) {
            Some(x) => r matches Err(e) && reports(e, x),
            None => r matches Ok(m) && input_rebuilt(m, *i),
        },
{
    if i.producer_version.unicode_len() == 0 {
        let p = input_path_text(index, ".producer_version");
        return Err(invalid(p.as_str(), "producer version must not be empty"));
    }
    if !is_valid_test_name(i.test_name.as_str()) {
        let p = input_path_text(index, ".test.name");
        return Err(invalid(p.as_str(), "invalid test name"));
    }
    let status = match parse_status(i.test_status.as_str()) {
        Ok(s) => s,
        Err(e) => {
            return Err(e);
        },
    };
    if i.included != policy.includes(status) {
        let p = input_path_text(index, ".included");
        return Err(invalid(p.as_str(), "inclusion flag does not match policy"));
    }
    let p = input_path_text(index, ".test.replay_token");
    let replay = match read_replay(&i.replay_token, p.as_str()) {
        Ok(t) => t,
        Err(e) => {
            return Err(e);
        },
    };
    let q = input_path_text(index, ".summary.coverage");
    let coverage = match ratio_from_record(&i.summary.coverage, q.as_str()) {
        Ok(c) => c,
        Err(e) => {
            return Err(e);
        },
    };
    let summary = CoverageSessionSummary::from_parts(
        i.summary.groups,
        i.summary.items,
        i.summary.coverpoints,
        i.summary.crosses,
        coverage,
    );
    Ok(
        CoverageMergeInput::from_parts(
            i.producer_version.as_str(),
            i.test_name.as_str(),
            status,
            replay,
            i.included,
            summary,
        ),
    )
}

/// Input counts after recording the first `n` rebuilt inputs.
pub open spec fn input_counts(inputs: Seq<CoverageMergeInput>, n: int) -> MergeCounts
    decreases n,
{
    if n <= 0 {
        zero_counts()
    } else {
        recorded(
            input_counts(inputs, n - 1),
            inputs[n - 1].spec_test_status(),
            inputs[n - 1].spec_included(),
        )
    }
}

/// A stored merge summary equals a recomputed one.
pub open spec fn summary_matches(stored: MergeSummaryRecord, s: CoverageMergeSummary) -> bool {
    let c = s.spec_counts();
    let t = s.spec_totals();
    &&& stored.artifacts == c.artifacts
    &&& stored.included_artifacts == c.included
    &&& stored.excluded_artifacts == c.excluded
    &&& stored.passed_artifacts == c.passed
    &&& stored.failed_artifacts == c.failed
    &&& stored.errored_artifacts == c.errored
    &&& stored.groups == t.0
    &&& stored.items == t.1
    &&& stored.coverpoints == t.2
    &&& stored.crosses == t.3
    &&& (stored.coverage.covered, stored.coverage.uncovered, stored.coverage.total)
        == s.spec_coverage()@
}

fn summary_equal(stored: &MergeSummaryRecord, s: CoverageMergeSummary) -> (r: bool)
    ensures
        r == summary_matches(*stored, s),
{
    let cov = s.coverage();
    stored.artifacts == s.artifact_count() && stored.included_artifacts
        == s.included_artifact_count() && stored.excluded_artifacts == s.excluded_artifact_count()
        && stored.passed_artifacts == s.passed_artifact_count() && stored.failed_artifacts
        == s.failed_artifact_count() && stored.errored_artifacts == s.errored_artifact_count()
        && stored.groups == s.group_count() && stored.items == s.item_count() && stored.coverpoints
        == s.coverpoint_count() && stored.crosses == s.cross_count() && stored.coverage.covered
        == cov.covered() && stored.coverage.uncovered == cov.uncovered() && stored.coverage.total
        == cov.total()
}

/// The persisted merge header is acceptable: format, schema, producer and policy.
pub open spec fn merge_header_ok(d: MergeRecord) -> bool {
    &&& d.format@ == MERGE_FORMAT_NAME@
    &&& d.schema_version == MERGE_SCHEMA_VERSION
    &&& d.producer_name@ == "vvm-rs"@
    &&& d.producer_version@.len() > 0
    &&& (d.policy@ == "passed_only"@ || d.policy@ == "passed_and_failed"@ || d.policy@ == "all"@)
}

/// First problem, input by input from `k`, of persisted merge inputs under `policy`.
pub open spec fn first_input_issue(inputs: Seq<MergeInputRecord>, policy: CoverageMergePolicy, k: int) -> Option<
    Issue,
>
    decreases inputs.len() - k,
{
    if k < 0 || k >= inputs.len() {
        None
    } else {
        match input_issue(inputs[k], policy, k as nat) {
            Some(i) => Some(i),
            None => first_input_issue(inputs, policy, k + 1),
        }
    }
}

fn rebuild_inputs(d: &MergeRecord, policy: CoverageMergePolicy) -> (r: Result<
    Vec<CoverageMergeInput>,
    CoveragePersistenceError,
>)
    ensures
        match first_input_issue(d.inputs@, policy, 0) {
            Some(i) => r matches Err(e) && reports(e, i),
            None => r matches Ok(v) && v@.len() == d.inputs@.len() && forall|k: int|
                0 <= k < v@.len() ==> #[trigger] input_rebuilt(v@[k], d.inputs@[k]),
        },
{
    let mut out: Vec<CoverageMergeInput> = Vec::new();
    let mut k: usize = 0;
    while k < d.inputs.len()
        invariant
            k <= d.inputs@.len(),
            out@.len() == k,
            forall|t: int| 0 <= t < k ==> #[trigger] input_rebuilt(out@[t], d.inputs@[t]),
            first_input_issue(d.inputs@, policy, 0) == first_input_issue(d.inputs@, policy, k as int),
        decreases d.inputs@.len() - k,
    {
        match input_from_record(&d.inputs[k], policy, k) {
            Ok(m) => {
                out.push(m);
            },
            Err(e) => {
                return Err(e);
            },
        }
        k = k + 1;
    }
    Ok(out)
}

fn rebuild_groups(d: &MergeRecord) -> (r: Result<Vec<CoverageArtifactGroup>, CoveragePersistenceError>)
    ensures
        r matches Ok(v) ==> v@.len() == d.groups@.len() && (forall|k: int|
            0 <= k < v@.len() ==> #[trigger] group_rebuilt(v@[k], d.groups@[k])) && (forall|k: int|
            0 <= k < v@.len() ==> #[trigger] group_record_outcome(
                Ok::<CoverageArtifactGroup, CoveragePersistenceError>(v@[k]),
                d.groups@[k],
                k as nat,
            )),
        r matches Err(e) ==> groups_refused(d.groups@, e),
        (exists|k: int| 0 <= k < d.groups@.len() && !#[trigger] group_record_accepted(d.groups@[k], k as nat))
            ==> r is Err,
        (forall|k: int| 0 <= k < d.groups@.len() ==> #[trigger] group_record_accepted(d.groups@[k], k as nat))
            ==> r is Ok,
{
    let mut out: Vec<CoverageArtifactGroup> = Vec::new();
    let mut k: usize = 0;
    while k < d.groups.len()
        invariant
            k <= d.groups@.len(),
            out@.len() == k,
            forall|t: int| 0 <= t < k ==> #[trigger] group_rebuilt(out@[t], d.groups@[t]),
            forall|t: int|
                0 <= t < k ==> #[trigger] group_record_outcome(
                    Ok::<CoverageArtifactGroup, CoveragePersistenceError>(out@[t]),
                    d.groups@[t],
                    t as nat,
                ),
            forall|t: int| 0 <= t < k ==> #[trigger] group_record_accepted(d.groups@[t], t as nat),
        decreases d.groups@.len() - k,
    {
        let g = group_from_record(&d.groups[k], k);
        match g {
            Ok(x) => {
                out.push(x);
            },
            Err(e) => {
                assert(group_record_outcome(g, d.groups@[k as int], k as nat));
                let ghost ki: int = k as int;
                assert(group_record_outcome(
                    Err::<CoverageArtifactGroup, CoveragePersistenceError>(e),
                    d.groups@[ki],
                    ki as nat,
                ));
                assert(groups_refused(d.groups@, e));
                proof {
                    if forall|t: int|
                        0 <= t < d.groups@.len() ==> #[trigger] group_record_accepted(d.groups@[t], t as nat) {
                        assert(group_record_accepted(d.groups@[ki], ki as nat));
                    }
                }
                return Err(e);
            },
        }
        k = k + 1;
    }
    Ok(out)
}

/// Checks that groups are in strictly increasing instance-path order.
fn check_group_order(groups: &[CoverageArtifactGroup]) -> (r: Result<(), CoveragePersistenceError>)
    ensures
        groups_sorted(groups@) ==> r is Ok,
        r is Ok ==> groups_sorted(groups@),
        r is Err ==> (r matches Err(e) && reports(
            e,
            invalid_issue(
                "groups"@,
                "groups are not in strictly increasing instance-path order"@,
            ),
        )),
{
    let mut k: usize = 1;
    while k < groups.len()
        invariant
            1 <= k,
            forall|a: int, b: int|
                0 <= a < b < k && b < groups@.len() ==> crate::coverage::order::byte_order(
                    group_key(groups@[a]),
                    group_key(groups@[b]),
                ) < 0,
        decreases groups@.len() - k,
    {
        if compare_text(groups[k - 1].instance_path(), groups[k].instance_path()) >= 0 {
            assert(groups_sorted(groups@) ==> crate::coverage::order::byte_order(
                group_key(groups@[k - 1]),
                group_key(groups@[k as int]),
            ) < 0);
            return Err(invalid("groups", "groups are not in strictly increasing instance-path order"));
        }
        proof {
            assert forall|a: int, b: int| 0 <= a < b < k + 1 && b < groups@.len() implies crate::coverage::order::byte_order(
                group_key(groups@[a]),
                group_key(groups@[b]),
            ) < 0 by {
                if b == k && a < k - 1 {
                    lemma_byte_order_trans(
                        group_key(groups@[a]),
                        group_key(groups@[k - 1]),
                        group_key(groups@[b]),
                    );
                }
            }
        }
        k = k + 1;
    }
    Ok(())
}

/// Recomputing the summary of merged groups `gs` overflows, and `e` reports it.
pub open spec fn merged_summary_refused(gs: Seq<CoverageArtifactGroup>, e: CoveragePersistenceError) -> bool {
    match group_count_overflow(gs, 0) {
        Some(k) => reports(
            e,
            invalid_issue(
                "summary"@,
                "count overflow for "@ + crate::coverage::merge_error::merge_count_text(k),
            ),
        ),
        None => match ratio_sum_overflow(group_ratio_views(gs), 0) {
            Some(k) => reports(
                e,
                invalid_issue(
                    "summary"@,
                    "count overflow for "@ + crate::coverage::merge_error::merge_count_text(k),
                ),
            ),
            None => false,
        },
    }
}

/// Text that the derived `Debug` implementation writes for a merge input
/// whose view is `input`.
pub uninterp spec fn merge_input_debug(input: MergeInputView) -> Seq<char>;

/// Formats a merge input with its derived `Debug` implementation.
///
/// Wraps `format!("{:?}")`. The derived text depends only on the input's
/// fields, which its view holds; the text itself is named, not stated.
#[verifier::external_body]
fn input_debug_text(input: &CoverageMergeInput) -> (r: String)
    ensures
        r@ == merge_input_debug(input@),
{
    format!("{input:?}")
}

/// View of the input rebuilt from a valid persisted input.
pub open spec fn record_input_view(i: MergeInputRecord) -> MergeInputView {
    (
        i.producer_version@,
        i.test_name@,
        match status_value(i.test_status@) {
            Some(st) => st,
            None => TestStatus::Error,
        },
        match i.replay_token {
            Some(t) => replay_value(t@),
            None => None,
        },
        i.included,
        (
            i.summary.groups,
            i.summary.items,
            i.summary.coverpoints,
            i.summary.crosses,
            (i.summary.coverage.covered, i.summary.coverage.uncovered, i.summary.coverage.total),
        ),
    )
}

/// Canonical ordering key of a persisted input: the bytes of the `Debug`
/// text of the input it rebuilds to.
pub open spec fn input_order_key(i: MergeInputRecord) -> Seq<u8> {
    encode_utf8(merge_input_debug(record_input_view(i)))
}

/// Persisted inputs are in canonical order: each key is at most the next.
pub open spec fn inputs_in_order(inputs: Seq<MergeInputRecord>) -> bool {
    forall|k: int|
        1 <= k < inputs.len() ==> byte_order(
            input_order_key(#[trigger] inputs[k - 1]),
            input_order_key(inputs[k]),
        ) <= 0
}

/// Persisted groups are in strictly increasing instance-path order.
pub open spec fn records_sorted(gs: Seq<GroupRecord>) -> bool {
    forall|a: int, b: int|
        0 <= a < b < gs.len() ==> byte_order(
            encode_utf8((#[trigger] gs[a]).instance_path@),
            encode_utf8((#[trigger] gs[b]).instance_path@),
        ) < 0
}

/// Item, coverpoint and cross counts summed over the first `n` persisted groups.
pub open spec fn record_group_sums(gs: Seq<GroupRecord>, n: int) -> (int, int, int)
    decreases n,
{
    if n <= 0 {
        (0, 0, 0)
    } else {
        let s = record_group_sums(gs, n - 1);
        let m = gs[n - 1].summary;
        (s.0 + m.items, s.1 + m.coverpoints, s.2 + m.crosses)
    }
}

/// First count, group by group from `i`, whose sum over persisted groups
/// exceeds `usize::MAX`.
pub open spec fn record_count_overflow(gs: Seq<GroupRecord>, i: int) -> Option<CoverageMergeCountKind>
    decreases gs.len() - i,
{
    if i < 0 || i >= gs.len() {
        None
    } else {
        let s = record_group_sums(gs, i + 1);
        if s.0 > usize::MAX {
            Some(CoverageMergeCountKind::Items)
        } else if s.1 > usize::MAX {
            Some(CoverageMergeCountKind::Coverpoints)
        } else if s.2 > usize::MAX {
            Some(CoverageMergeCountKind::Crosses)
        } else {
            record_count_overflow(gs, i + 1)
        }
    }
}

/// Stored coverage of persisted groups.
pub open spec fn group_record_ratios(gs: Seq<GroupRecord>) -> Seq<(usize, usize, usize)> {
    gs.map_values(|g: GroupRecord| (g.summary.coverage.covered, g.summary.coverage.uncovered, g.summary.coverage.total))
}

/// Input counts of the first `n` persisted inputs.
pub open spec fn record_input_counts(inputs: Seq<MergeInputRecord>, n: int) -> MergeCounts
    decreases n,
{
    if n <= 0 {
        zero_counts()
    } else {
        recorded(
            record_input_counts(inputs, n - 1),
            record_input_view(inputs[n - 1]).2,
            inputs[n - 1].included,
        )
    }
}

/// The stored merge summary equals the one recomputed from the persisted
/// inputs and groups.
pub open spec fn record_summary_matches(d: MergeRecord) -> bool {
    let c = record_input_counts(d.inputs@, d.inputs@.len() as int);
    let sums = record_group_sums(d.groups@, d.groups@.len() as int);
    let cov = ratio_sums_of(group_record_ratios(d.groups@), d.groups@.len() as int);
    &&& d.summary.artifacts == c.artifacts
    &&& d.summary.included_artifacts == c.included
    &&& d.summary.excluded_artifacts == c.excluded
    &&& d.summary.passed_artifacts == c.passed
    &&& d.summary.failed_artifacts == c.failed
    &&& d.summary.errored_artifacts == c.errored
    &&& d.summary.groups == d.groups@.len()
    &&& d.summary.items == sums.0
    &&& d.summary.coverpoints == sums.1
    &&& d.summary.crosses == sums.2
    &&& d.summary.coverage.covered == cov.0
    &&& d.summary.coverage.uncovered == cov.1
    &&& d.summary.coverage.total == cov.2
}

/// Problem with a merged document once its inputs and groups are rebuilt:
/// group order, a summary overflow, the stored coverage, or a stored summary
/// that differs from the recomputed one.
pub open spec fn merge_tail_issue(d: MergeRecord) -> Option<Issue> {
    if !records_sorted(d.groups@) {
        Some(invalid_issue("groups"@, "groups are not in strictly increasing instance-path order"@))
    } else {
        match record_count_overflow(d.groups@, 0) {
            Some(k) => Some(
                invalid_issue("summary"@, "count overflow for "@ + crate::coverage::merge_error::merge_count_text(k)),
            ),
            None => match ratio_sum_overflow(group_record_ratios(d.groups@), 0) {
                Some(k) => Some(
                    invalid_issue(
                        "summary"@,
                        "count overflow for "@ + crate::coverage::merge_error::merge_count_text(k),
                    ),
                ),
                None => match stored_ratio_issue(d.summary.coverage, "summary.coverage"@) {
                    Some(i) => Some(i),
                    None => if record_summary_matches(d) {
                        None
                    } else {
                        Some(
                            invalid_issue(
                                "summary"@,
                                "stored summary does not match recomputed merged data"@,
                            ),
                        )
                    },
                },
            },
        }
    }
}

/// Policy named by a persisted policy text with a valid header.
pub open spec fn policy_named(s: Seq<char>) -> CoverageMergePolicy {
    if s == "passed_only"@ {
        CoverageMergePolicy::PassedOnly
    } else if s == "passed_and_failed"@ {
        CoverageMergePolicy::PassedAndFailed
    } else {
        CoverageMergePolicy::All
    }
}

/// `r` is what rebuilding a merged document with an acceptable header and
/// some inputs gives: the first input problem; every input excluded; inputs
/// out of canonical order; a group that fails its checks, fingerprint
/// included; else the first remaining problem, or success.
pub open spec fn merge_body_outcome(d: MergeRecord, r: Result<CoverageMerge, CoveragePersistenceError>) -> bool {
    match first_input_issue(d.inputs@, policy_named(d.policy@), 0) {
        Some(i) => r matches Err(e) && reports(e, i),
        None => if forall|k: int| 0 <= k < d.inputs@.len() ==> !(#[trigger] d.inputs@[k]).included {
            r matches Err(e) && reports(e, invalid_issue("inputs"@, "the policy excludes every input"@))
        } else if !inputs_in_order(d.inputs@) {
            r matches Err(e) && reports(
                e,
                invalid_issue("inputs"@, "input records are not in canonical order"@),
            )
        } else if exists|k: int|
            0 <= k < d.groups@.len() && !#[trigger] group_record_accepted(d.groups@[k], k as nat) {
            r matches Err(e) && groups_refused(d.groups@, e)
        } else {
            match merge_tail_issue(d) {
                Some(i) => r matches Err(e) && reports(e, i),
                None => r is Ok,
            }
        },
    }
}

/// `m` is the merged document rebuilt from the valid persisted document `d`.
pub open spec fn merge_rebuilt(m: CoverageMerge, d: MergeRecord) -> bool {
    &&& merge_header_ok(d)
    &&& policy_text(m.spec_policy()) == d.policy@
    &&& m.spec_producer_version() == d.producer_version@
    &&& m.spec_inputs().len() == d.inputs@.len()
    &&& m.spec_inputs().len() > 0
    &&& forall|k: int|
        0 <= k < d.inputs@.len() ==> #[trigger] input_rebuilt(
            m.spec_inputs()[k],
            d.inputs@[k],
        )
    &&& exists|k: int| 0 <= k < d.inputs@.len() && #[trigger] d.inputs@[k].included
    &&& m.spec_groups().len() == d.groups@.len()
    &&& forall|k: int|
        0 <= k < d.groups@.len() ==> #[trigger] group_rebuilt(
            m.spec_groups()[k],
            d.groups@[k],
        )
    &&& groups_sorted(m.spec_groups())
    &&& summarizes_groups(
        m.spec_summary(),
        m.spec_groups(),
        input_counts(m.spec_inputs(), m.spec_inputs().len() as int),
    )
    &&& summary_matches(d.summary, m.spec_summary())
}

pub(crate) proof fn lemma_input_views(inputs: Seq<CoverageMergeInput>, recs: Seq<MergeInputRecord>)
    requires
        inputs.len() == recs.len(),
        forall|k: int| 0 <= k < recs.len() ==> #[trigger] input_rebuilt(inputs[k], recs[k]),
    ensures
        forall|k: int| 0 <= k < recs.len() ==> #[trigger] inputs[k]@ == record_input_view(recs[k]),
{
    assert forall|k: int| 0 <= k < recs.len() implies #[trigger] inputs[k]@ == record_input_view(recs[k]) by {
        assert(input_rebuilt(inputs[k], recs[k]));
    }
}

proof fn lemma_input_counts(inputs: Seq<CoverageMergeInput>, recs: Seq<MergeInputRecord>, n: int)
    requires
        inputs.len() == recs.len(),
        0 <= n <= recs.len(),
        forall|k: int| 0 <= k < recs.len() ==> #[trigger] input_rebuilt(inputs[k], recs[k]),
    ensures
        input_counts(inputs, n) == record_input_counts(recs, n),
    decreases n,
{
    if n > 0 {
        lemma_input_counts(inputs, recs, n - 1);
        assert(input_rebuilt(inputs[n - 1], recs[n - 1]));
    }
}

proof fn lemma_group_sums(gs: Seq<CoverageArtifactGroup>, recs: Seq<GroupRecord>, n: int)
    requires
        groups_rebuilt(gs, recs),
        0 <= n <= recs.len(),
    ensures
        group_sums(gs, n) == record_group_sums(recs, n),
    decreases n,
{
    if n > 0 {
        lemma_group_sums(gs, recs, n - 1);
        assert(group_rebuilt(gs[n - 1], recs[n - 1]));
    }
}

proof fn lemma_count_overflow(gs: Seq<CoverageArtifactGroup>, recs: Seq<GroupRecord>, i: int)
    requires
        groups_rebuilt(gs, recs),
        0 <= i,
    ensures
        group_count_overflow(gs, i) == record_count_overflow(recs, i),
    decreases recs.len() - i,
{
    if i < recs.len() {
        lemma_group_sums(gs, recs, i + 1);
        lemma_count_overflow(gs, recs, i + 1);
    }
}

/// Facts about rebuilt groups, read off their records.
proof fn lemma_group_records(gs: Seq<CoverageArtifactGroup>, recs: Seq<GroupRecord>)
    requires
        groups_rebuilt(gs, recs),
    ensures
        group_sums(gs, gs.len() as int) == record_group_sums(recs, recs.len() as int),
        group_count_overflow(gs, 0) == record_count_overflow(recs, 0),
        group_ratio_views(gs) == group_record_ratios(recs),
        groups_sorted(gs) == records_sorted(recs),
{
    lemma_group_sums(gs, recs, recs.len() as int);
    lemma_count_overflow(gs, recs, 0);
    assert forall|k: int| 0 <= k < recs.len() implies group_ratio_views(gs)[k] == group_record_ratios(
        recs,
    )[k] && group_key(gs[k]) == encode_utf8(recs[k].instance_path@) by {
        assert(group_rebuilt(gs[k], recs[k]));
    }
    assert(group_ratio_views(gs) =~= group_record_ratios(recs));
    if groups_sorted(gs) {
        assert forall|a: int, b: int| 0 <= a < b < recs.len() implies byte_order(
            encode_utf8((#[trigger] recs[a]).instance_path@),
            encode_utf8((#[trigger] recs[b]).instance_path@),
        ) < 0 by {
            assert(group_rebuilt(gs[a], recs[a]));
            assert(group_rebuilt(gs[b], recs[b]));
            assert(byte_order(group_key(gs[a]), group_key(gs[b])) < 0);
        }
    }
    if records_sorted(recs) {
        assert forall|a: int, b: int| 0 <= a < b < gs.len() implies byte_order(
            group_key(gs[a]),
            group_key(gs[b]),
        ) < 0 by {
            assert(group_rebuilt(gs[a], recs[a]));
            assert(group_rebuilt(gs[b], recs[b]));
            assert(byte_order(encode_utf8(recs[a].instance_path@), encode_utf8(recs[b].instance_path@))
                < 0);
        }
    }
}

/// Rebuilds the inputs of a merged document and checks that one is included
/// and that they are in canonical order.
fn checked_inputs(d: &MergeRecord, policy: CoverageMergePolicy) -> (r: Result<
    Vec<CoverageMergeInput>,
    CoveragePersistenceError,
>)
    ensures
        match first_input_issue(d.inputs@, policy, 0) {
            Some(i) => r matches Err(e) && reports(e, i),
            None => if forall|k: int| 0 <= k < d.inputs@.len() ==> !(#[trigger] d.inputs@[k]).included {
                r matches Err(e) && reports(
                    e,
                    invalid_issue("inputs"@, "the policy excludes every input"@),
                )
            } else if !inputs_in_order(d.inputs@) {
                r matches Err(e) && reports(
                    e,
                    invalid_issue("inputs"@, "input records are not in canonical order"@),
                )
            } else {
                r matches Ok(v) && v@.len() == d.inputs@.len() && forall|k: int|
                    0 <= k < v@.len() ==> #[trigger] input_rebuilt(v@[k], d.inputs@[k])
            },
        },
{
    let rebuilt = rebuild_inputs(d, policy);
    let inputs = match rebuilt {
        Ok(v) => v,
        Err(e) => {
            return Err(e);
        },
    };
    proof {
        lemma_input_views(inputs@, d.inputs@);
    }
    let mut any_included = false;
    let mut k: usize = 0;
    while k < inputs.len()
        invariant
            k <= inputs@.len(),
            inputs@.len() == d.inputs@.len(),
            forall|t: int| 0 <= t < inputs@.len() ==> #[trigger] input_rebuilt(inputs@[t], d.inputs@[t]),
            first_input_issue(d.inputs@, policy, 0) is None,
            any_included ==> exists|t: int| 0 <= t < d.inputs@.len() && #[trigger] d.inputs@[t].included,
            !any_included ==> forall|t: int| 0 <= t < k ==> !(#[trigger] d.inputs@[t]).included,
        decreases inputs@.len() - k,
    {
        assert(input_rebuilt(inputs@[k as int], d.inputs@[k as int]));
        if inputs[k].included() {
            any_included = true;
        }
        k = k + 1;
    }
    if !any_included {
        return Err(invalid("inputs", "the policy excludes every input"));
    }
    let mut k: usize = 1;
    while k < inputs.len()
        invariant
            1 <= k,
            inputs@.len() == d.inputs@.len(),
            forall|t: int| 0 <= t < inputs@.len() ==> #[trigger] inputs@[t]@ == record_input_view(d.inputs@[t]),
            forall|j: int|
                1 <= j < k && j < d.inputs@.len() ==> byte_order(
                    input_order_key(#[trigger] d.inputs@[j - 1]),
                    input_order_key(d.inputs@[j]),
                ) <= 0,
            exists|t: int| 0 <= t < d.inputs@.len() && #[trigger] d.inputs@[t].included,
            first_input_issue(d.inputs@, policy, 0) is None,
        decreases inputs@.len() - k,
    {
        let first = input_debug_text(&inputs[k - 1]);
        let second = input_debug_text(&inputs[k]);
        assert(inputs@[k - 1]@ == record_input_view(d.inputs@[k - 1]));
        assert(inputs@[k as int]@ == record_input_view(d.inputs@[k as int]));
        if compare_text(first.as_str(), second.as_str()) > 0 {
            assert(byte_order(input_order_key(d.inputs@[k - 1]), input_order_key(d.inputs@[k as int])) > 0);
            assert(!inputs_in_order(d.inputs@));
            return Err(invalid("inputs", "input records are not in canonical order"));
        }
        k = k + 1;
    }
    assert(inputs_in_order(d.inputs@));
    Ok(inputs)
}

/// Rebuilds the groups of a merged document with rebuilt inputs, checks
/// their order, and recomputes and checks the summary.
#[verifier::rlimit(40)]
fn finish_from_groups(d: &MergeRecord, policy: CoverageMergePolicy, inputs: Vec<CoverageMergeInput>) -> (r:
    Result<CoverageMerge, CoveragePersistenceError>)
    requires
        merge_header_ok(*d),
        policy_text(policy) == d.policy@,
        inputs@.len() == d.inputs@.len(),
        inputs@.len() > 0,
        forall|k: int| 0 <= k < inputs@.len() ==> #[trigger] input_rebuilt(inputs@[k], d.inputs@[k]),
        exists|k: int| 0 <= k < d.inputs@.len() && #[trigger] d.inputs@[k].included,
    ensures
        r matches Ok(m) ==> merge_rebuilt(m, *d),
        (exists|k: int| 0 <= k < d.groups@.len() && !#[trigger] group_record_accepted(d.groups@[k], k as nat))
            ==> (r matches Err(e) && groups_refused(d.groups@, e)),
        (forall|k: int| 0 <= k < d.groups@.len() ==> #[trigger] group_record_accepted(d.groups@[k], k as nat))
            ==> match merge_tail_issue(*d) {
            Some(i) => r matches Err(e) && reports(e, i),
            None => r is Ok,
        },
{
    let groups = match rebuild_groups(d) {
        Ok(v) => v,
        Err(e) => {
            return Err(e);
        },
    };
    assert(groups_rebuilt(groups@, d.groups@));
    proof {
        lemma_group_records(groups@, d.groups@);
    }
    match check_group_order(groups.as_slice()) {
        Ok(()) => {},
        Err(e) => {
            return Err(e);
        },
    }
    let mut counts = MergeCounts {
        artifacts: 0,
        included: 0,
        excluded: 0,
        passed: 0,
        failed: 0,
        errored: 0,
    };
    let n = inputs.len();
    let mut k: usize = 0;
    while k < n
        invariant
            n == inputs@.len(),
            k <= n,
            counts == input_counts(inputs@, k as int),
            counts.artifacts == k,
            counts.included <= k,
            counts.excluded <= k,
            counts.passed <= k,
            counts.failed <= k,
            counts.errored <= k,
        decreases n - k,
    {
        assert(record_overflow(counts, inputs@[k as int].spec_test_status(), inputs@[k as int].spec_included()) is None);
        match counts.record(inputs[k].test_status(), inputs[k].included()) {
            Ok(()) => {},
            Err(_) => {
                return Err(invalid("summary", "could not count inputs"));
            },
        }
        k = k + 1;
    }
    proof {
        lemma_input_counts(inputs@, d.inputs@, n as int);
    }
    let computed = match merge_summary(groups.as_slice(), counts) {
        Ok(s) => s,
        Err(e) => {
            return Err(summary_error(e));
        },
    };
    match ratio_from_record(&d.summary.coverage, "summary.coverage") {
        Ok(_) => {},
        Err(e) => {
            return Err(e);
        },
    }
    if !summary_equal(&d.summary, computed) {
        return Err(invalid("summary", "stored summary does not match recomputed merged data"));
    }
    Ok(CoverageMerge::from_parts(d.producer_version.as_str(), policy, inputs, groups, computed))
}

impl CoverageMerge {
    /// Rebuilds a persisted merged document, checking every field, the
    /// input records against the policy, the group order and the stored
    /// summary against the one recomputed from the groups and inputs.
    #[verifier::rlimit(40)]
    pub fn from_record(d: &MergeRecord) -> (r: Result<Self, CoveragePersistenceError>)
        ensures
            d.format@ != MERGE_FORMAT_NAME@ ==> (r matches Err(
                CoveragePersistenceError::InvalidFormat { found },
            ) && found@ == d.format@),
            d.format@ == MERGE_FORMAT_NAME@ && d.schema_version != MERGE_SCHEMA_VERSION ==> r == Err::<
                Self,
                CoveragePersistenceError,
            >(
                CoveragePersistenceError::UnsupportedSchemaVersion {
                    found: d.schema_version,
                    supported: MERGE_SCHEMA_VERSION,
                },
            ),
            d.format@ == MERGE_FORMAT_NAME@ && d.schema_version == MERGE_SCHEMA_VERSION && (
            d.producer_name@ != "vvm-rs"@ || d.producer_version@.len() == 0) ==> (r matches Err(e)
                && reports(
                e,
                invalid_issue(
                    "producer"@,
                    "expected producer name `vvm-rs` and a non-empty version"@,
                ),
            )),
            d.format@ == MERGE_FORMAT_NAME@ && d.schema_version == MERGE_SCHEMA_VERSION
                && d.producer_name@ == "vvm-rs"@ && d.producer_version@.len() > 0 && !(d.policy@
                == "passed_only"@ || d.policy@ == "passed_and_failed"@ || d.policy@ == "all"@)
                ==> (r matches Err(e) && reports(
                e,
                invalid_issue("policy"@, "unknown merge policy `"@ + d.policy@ + "`"@),
            )),
            merge_header_ok(*d) && d.inputs@.len() == 0 ==> (r matches Err(e) && reports(
                e,
                invalid_issue("inputs"@, "a merged document must contain input records"@),
            )),
            r matches Ok(m) ==> merge_rebuilt(m, *d) && merge_valid(m),
            merge_header_ok(*d) && d.inputs@.len() > 0 ==> merge_body_outcome(*d, r),
    {
        if !str_eq(d.format.as_str(), MERGE_FORMAT_NAME) {
            return Err(CoveragePersistenceError::InvalidFormat { found: String::from_str(d.format.as_str()) });
        }
        if d.schema_version != MERGE_SCHEMA_VERSION {
            return Err(
                CoveragePersistenceError::UnsupportedSchemaVersion {
                    found: d.schema_version,
                    supported: MERGE_SCHEMA_VERSION,
                },
            );
        }
        if !str_eq(d.producer_name.as_str(), "vvm-rs") || d.producer_version.unicode_len() == 0 {
            return Err(invalid("producer", "expected producer name `vvm-rs` and a non-empty version"));
        }
        let policy = match CoverageMergePolicy::parse(d.policy.as_str()) {
            Ok(p) => p,
            Err(e) => {
                return Err(e);
            },
        };
        proof {
            crate::coverage::merge::lemma_policy_text_round_trip(policy);
            assert(policy_text(policy) == d.policy@);
            assert(policy == policy_named(d.policy@));
        }
        if d.inputs.len() == 0 {
            return Err(invalid("inputs", "a merged document must contain input records"));
        }
        let inputs = match checked_inputs(d, policy) {
            Ok(v) => v,
            Err(e) => {
                return Err(e);
            },
        };
        let result = finish_from_groups(d, policy, inputs);
        proof {
            if result is Ok {
                assert(merge_body_outcome(*d, result));
                crate::coverage::persistence::lemma_read_merge_valid(result.unwrap(), *d);
            }
        }
        result
    }
}

/// Converts a failure to recompute a merged summary into a persistence error.
fn summary_error(e: CoverageMergeError) -> (r: CoveragePersistenceError)
    ensures
        e matches CoverageMergeError::CountOverflow { counter } ==> reports(
            r,
            invalid_issue(
                "summary"@,
                "count overflow for "@ + crate::coverage::merge_error::merge_count_text(counter),
            ),
        ),
{
    match e {
        CoverageMergeError::Persistence { source } => source,
        CoverageMergeError::CountOverflow { counter } => {
            let mut reason = String::new();
            push_str(&mut reason, "count overflow for ");
            push_str(&mut reason, counter.text());
            invalid("summary", reason.as_str())
        },
        _ => invalid("summary", "could not recompute merged summary"),
    }
}

} // verus!

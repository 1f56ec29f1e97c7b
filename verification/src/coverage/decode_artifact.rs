use vstd::prelude::*;
use vstd::string::*;

use crate::coverage::artifact::{
    parse_status, CoverageArtifact, CoverageArtifactGroup, ARTIFACT_FORMAT_NAME,
    ARTIFACT_SCHEMA_VERSION,
};
use crate::coverage::artifact_error::CoveragePersistenceError;
use crate::coverage::decode_bins::{
    invalid, invalid_issue, overflow, overflow_issue, ratio_issue, reports, validate_ratio, Issue,
};
use crate::coverage::decode_group::{
    group_from_record, group_rebuilt, group_record_accepted, group_record_outcome, groups_refused,
};
use crate::coverage::identifier::{is_valid_test_name, valid_test_name};
use crate::coverage::merge::{ratio_sum_overflow, ratio_sums_of, ratio_views, sum_ratios};
use crate::coverage::merge_document::group_ratio_views;
use crate::coverage::record::{ArtifactRecord, GroupRecord, SessionSummaryRecord};
use crate::coverage::session::CoverageSessionSummary;
use crate::random::{find_colon, parse_unsigned_spec, replay_text, RandomAlgorithm, ReplayToken};
use crate::registry::TestStatus;
use crate::text::str_eq;

use crate::coverage::validity::artifact_valid;

verus! {

/// Status named by persisted text.
pub open spec fn status_value(s: Seq<char>) -> Option<TestStatus> {
    if s == "passed"@ {
        Some(TestStatus::Passed)
    } else if s == "failed"@ {
        Some(TestStatus::Failed)
    } else if s == "error"@ {
        Some(TestStatus::Error)
    } else {
        None
    }
}

/// Replay token written by persisted text.
pub open spec fn replay_value(s: Seq<char>) -> Option<(RandomAlgorithm, u64)> {
    let p = find_colon(s, 0);
    if p < 0 || s.take(p) != "chacha8-v1"@ {
        None
    } else {
        match parse_unsigned_spec(s.skip(p + 1), true) {
            None => None,
            Some(v) => Some((RandomAlgorithm::ChaCha8V1, v)),
        }
    }
}

/// The text of a replay token reads back as that token.
pub proof fn lemma_replay_value_of_text(t: (RandomAlgorithm, u64))
    ensures
        replay_value(replay_text(t)) == Some(t),
{
    crate::random::lemma_replay_text_parts(t);
    assert(t.0 == RandomAlgorithm::ChaCha8V1);
}

/// Persisted replay text reads back, when present.
pub open spec fn replay_ok(t: Option<String>) -> bool {
    match t {
        Some(s) => replay_value(s@) is Some,
        None => true,
    }
}

/// Token read back from present persisted replay text.
pub open spec fn replay_read(t: Option<String>, r: Option<ReplayToken>) -> bool {
    match t {
        Some(s) => r matches Some(tok) && Some(tok@) == replay_value(s@),
        None => r is None,
    }
}

/// Reads optional persisted replay text; `path` names the field.
pub fn read_replay(t: &Option<String>, path: &str) -> (r: Result<
    Option<ReplayToken>,
    CoveragePersistenceError,
>)
    ensures
        replay_ok(*t) ==> (r matches Ok(v) && replay_read(*t, v)),
        !replay_ok(*t) ==> (r matches Err(e) && reports(
            e,
            invalid_issue(path@, "invalid replay token"@),
        )),
{
    match t {
        Some(s) => match ReplayToken::parse(s.as_str()) {
            Ok(tok) => Ok(Some(tok)),
            Err(_) => Err(invalid(path, "invalid replay token")),
        },
        None => Ok(None),
    }
}

/// Sum of the first `n` counts.
pub open spec fn count_sum(v: Seq<usize>, n: int) -> int
    decreases n,
{
    if n <= 0 {
        0
    } else {
        count_sum(v, n - 1) + v[n - 1]
    }
}

/// Item counts of groups.
pub open spec fn group_item_counts(gs: Seq<CoverageArtifactGroup>) -> Seq<usize> {
    gs.map_values(|g: CoverageArtifactGroup| g.spec_snapshot().spec_summary().spec_items())
}

/// Coverpoint counts of groups.
pub open spec fn group_coverpoint_counts(gs: Seq<CoverageArtifactGroup>) -> Seq<usize> {
    gs.map_values(|g: CoverageArtifactGroup| g.spec_snapshot().spec_summary().spec_coverpoints())
}

/// Cross counts of groups.
pub open spec fn group_cross_counts(gs: Seq<CoverageArtifactGroup>) -> Seq<usize> {
    gs.map_values(|g: CoverageArtifactGroup| g.spec_snapshot().spec_summary().spec_crosses())
}

/// Two groups share an instance path.
pub open spec fn paths_repeat(gs: Seq<CoverageArtifactGroup>) -> bool {
    exists|j: int, k: int|
        0 <= k < j < gs.len() && gs[k].spec_snapshot().spec_instance_path()
            == gs[j].spec_snapshot().spec_instance_path()
}

/// Problem of recomputing the session summary of groups.
pub open spec fn session_summary_issue(gs: Seq<CoverageArtifactGroup>) -> Option<Issue> {
    if paths_repeat(gs) {
        Some(invalid_issue("groups"@, "duplicate instance path"@))
    } else if count_sum(group_item_counts(gs), gs.len() as int) > usize::MAX {
        Some(overflow_issue("summary.items"@))
    } else if count_sum(group_coverpoint_counts(gs), gs.len() as int) > usize::MAX {
        Some(overflow_issue("summary.coverpoints"@))
    } else if count_sum(group_cross_counts(gs), gs.len() as int) > usize::MAX {
        Some(overflow_issue("summary.crosses"@))
    } else if ratio_sum_overflow(group_ratio_views(gs), 0) is Some {
        Some(overflow_issue("summary.coverage"@))
    } else {
        None
    }
}

/// `s` is the session summary of groups `gs`.
pub open spec fn session_summary_of(s: CoverageSessionSummary, gs: Seq<CoverageArtifactGroup>) -> bool {
    let cov = ratio_sums_of(group_ratio_views(gs), gs.len() as int);
    &&& s.spec_groups() == gs.len()
    &&& s.spec_items() == count_sum(group_item_counts(gs), gs.len() as int)
    &&& s.spec_coverpoints() == count_sum(group_coverpoint_counts(gs), gs.len() as int)
    &&& s.spec_crosses() == count_sum(group_cross_counts(gs), gs.len() as int)
    &&& s.spec_coverage()@.0 == cov.0
    &&& s.spec_coverage()@.1 == cov.1
    &&& s.spec_coverage()@.2 == cov.2
}

proof fn lemma_count_sum_monotone(v: Seq<usize>, a: int, b: int)
    requires
        0 <= a <= b <= v.len(),
    ensures
        count_sum(v, a) <= count_sum(v, b),
    decreases b - a,
{
    if a < b {
        lemma_count_sum_monotone(v, a, b - 1);
    }
}

fn sum_counts(v: Vec<usize>, field: &str) -> (r: Result<usize, CoveragePersistenceError>)
    ensures
        count_sum(v@, v@.len() as int) > usize::MAX ==> (r matches Err(e) && reports(
            e,
            overflow_issue(field@),
        )),
        count_sum(v@, v@.len() as int) <= usize::MAX ==> (r matches Ok(t) && t == count_sum(
            v@,
            v@.len() as int,
        )),
{
    let mut total: usize = 0;
    let mut i: usize = 0;
    while i < v.len()
        invariant
            i <= v@.len(),
            total == count_sum(v@, i as int),
        decreases v@.len() - i,
    {
        match total.checked_add(v[i]) {
            Some(t) => {
                total = t;
            },
            None => {
                proof {
                    lemma_count_sum_monotone(v@, i + 1, v@.len() as int);
                }
                return Err(overflow(field));
            },
        }
        i = i + 1;
    }
    Ok(total)
}

/// Recomputes the session summary of rebuilt groups: unique instance paths,
/// and checked sums of items, coverpoints, crosses and coverage.
pub fn artifact_session_summary(groups: &[CoverageArtifactGroup]) -> (r: Result<
    CoverageSessionSummary,
    CoveragePersistenceError,
>)
    ensures
        match session_summary_issue(groups@) {
            Some(i) => r matches Err(e) && reports(e, i),
            None => r matches Ok(s) && session_summary_of(s, groups@),
        },
{
    let mut j: usize = 0;
    while j < groups.len()
        invariant
            j <= groups@.len(),
            forall|a: int, b: int|
                0 <= b < a < j ==> groups@[b].spec_snapshot().spec_instance_path()
                    != groups@[a].spec_snapshot().spec_instance_path(),
        decreases groups@.len() - j,
    {
        let mut k: usize = 0;
        while k < j
            invariant
                j < groups@.len(),
                k <= j,
                forall|b: int|
                    0 <= b < k ==> groups@[b].spec_snapshot().spec_instance_path()
                        != groups@[j as int].spec_snapshot().spec_instance_path(),
            decreases j - k,
        {
            if str_eq(groups[k].instance_path(), groups[j].instance_path()) {
                assert(0 <= k < j < groups@.len() && groups@[k as int].spec_snapshot().spec_instance_path()
                    == groups@[j as int].spec_snapshot().spec_instance_path());
                assert(paths_repeat(groups@));
                return Err(invalid("groups", "duplicate instance path"));
            }
            k = k + 1;
        }
        j = j + 1;
    }
    let mut items: Vec<usize> = Vec::new();
    let mut coverpoints: Vec<usize> = Vec::new();
    let mut crosses: Vec<usize> = Vec::new();
    let mut covs: Vec<crate::coverage::ratio::CoverageRatio> = Vec::new();
    let mut i: usize = 0;
    while i < groups.len()
        invariant
            i <= groups@.len(),
            items@ == group_item_counts(groups@).take(i as int),
            coverpoints@ == group_coverpoint_counts(groups@).take(i as int),
            crosses@ == group_cross_counts(groups@).take(i as int),
            ratio_views(covs@) == group_ratio_views(groups@).take(i as int),
        decreases groups@.len() - i,
    {
        let s = groups[i].summary();
        let ghost ci = covs@;
        items.push(s.item_count());
        coverpoints.push(s.coverpoint_count());
        crosses.push(s.cross_count());
        covs.push(groups[i].coverage());
        proof {
            assert(items@ =~= group_item_counts(groups@).take(i + 1));
            assert(coverpoints@ =~= group_coverpoint_counts(groups@).take(i + 1));
            assert(crosses@ =~= group_cross_counts(groups@).take(i + 1));
            assert(ratio_views(covs@) =~= ratio_views(ci).push(covs@[i as int]@));
            assert(ratio_views(covs@) =~= group_ratio_views(groups@).take(i + 1));
        }
        i = i + 1;
    }
    proof {
        assert(items@ =~= group_item_counts(groups@));
        assert(coverpoints@ =~= group_coverpoint_counts(groups@));
        assert(crosses@ =~= group_cross_counts(groups@));
        assert(ratio_views(covs@) =~= group_ratio_views(groups@));
    }
    let n_items = match sum_counts(items, "summary.items") {
        Ok(v) => v,
        Err(e) => {
            return Err(e);
        },
    };
    let n_points = match sum_counts(coverpoints, "summary.coverpoints") {
        Ok(v) => v,
        Err(e) => {
            return Err(e);
        },
    };
    let n_crosses = match sum_counts(crosses, "summary.crosses") {
        Ok(v) => v,
        Err(e) => {
            return Err(e);
        },
    };
    let coverage = match sum_ratios(covs.as_slice()) {
        Ok(c) => c,
        Err(_) => {
            return Err(overflow("summary.coverage"));
        },
    };
    Ok(CoverageSessionSummary::from_parts(groups.len(), n_items, n_points, n_crosses, coverage))
}

/// Problem of a stored session summary against the recomputed one.
pub open spec fn stored_session_issue(stored: SessionSummaryRecord, computed: CoverageSessionSummary) -> Option<
    Issue,
> {
    if stored.groups != computed.spec_groups() || stored.items != computed.spec_items()
        || stored.coverpoints != computed.spec_coverpoints() || stored.crosses
        != computed.spec_crosses() {
        Some(invalid_issue("summary"@, "counts disagree with groups"@))
    } else {
        ratio_issue(stored.coverage, computed.spec_coverage()@, "summary.coverage"@)
    }
}

/// Checks a stored session summary against the recomputed one.
pub fn validate_session_summary(stored: &SessionSummaryRecord, computed: CoverageSessionSummary) -> (r:
    Result<(), CoveragePersistenceError>)
    ensures
        match stored_session_issue(*stored, computed) {
            Some(i) => r matches Err(e) && reports(e, i),
            None => r is Ok,
        },
{
    if stored.groups != computed.group_count() || stored.items != computed.item_count()
        || stored.coverpoints != computed.coverpoint_count() || stored.crosses
        != computed.cross_count() {
        return Err(invalid("summary", "counts disagree with groups"));
    }
    validate_ratio(&stored.coverage, computed.coverage(), "summary.coverage")
}

/// The persisted artifact header is acceptable: format, schema, producer,
/// test name, status and replay token.
pub open spec fn artifact_header_ok(d: ArtifactRecord) -> bool {
    &&& d.format@ == ARTIFACT_FORMAT_NAME@
    &&& d.schema_version == ARTIFACT_SCHEMA_VERSION
    &&& d.producer_name@ == "vvm-rs"@
    &&& d.producer_version@.len() > 0
    &&& valid_test_name(d.test_name@)
    &&& status_value(d.test_status@) is Some
    &&& replay_ok(d.replay_token)
}

/// The summary recomputed from rebuilt groups `gs` cannot be had, or does not
/// match the stored summary `stored`, and `e` reports it.
pub open spec fn session_refused(
    gs: Seq<CoverageArtifactGroup>,
    stored: SessionSummaryRecord,
    e: CoveragePersistenceError,
) -> bool {
    match session_summary_issue(gs) {
        Some(i) => reports(e, i),
        None => exists|s: CoverageSessionSummary|
            #[trigger] session_summary_of(s, gs) && (stored_session_issue(stored, s) matches Some(i)
                && reports(e, i)),
    }
}

/// Groups `gs` are rebuilt, one by one, from persisted groups `rs`.
pub open spec fn groups_rebuilt(gs: Seq<CoverageArtifactGroup>, rs: Seq<GroupRecord>) -> bool {
    gs.len() == rs.len() && forall|k: int| 0 <= k < rs.len() ==> #[trigger] group_rebuilt(gs[k], rs[k])
}

/// Whatever groups are rebuilt from persisted groups `rs`, their recomputed
/// session summary can be had and matches the stored summary `stored`.
pub open spec fn session_accepted(rs: Seq<GroupRecord>, stored: SessionSummaryRecord) -> bool {
    forall|gs: Seq<CoverageArtifactGroup>|
        #[trigger] groups_rebuilt(gs, rs) ==> session_summary_issue(gs) is None && forall|
            s: CoverageSessionSummary,
        | #[trigger] session_summary_of(s, gs) ==> stored_session_issue(stored, s) is None
}

/// `a` is the artifact rebuilt from the valid persisted artifact `d`.
pub open spec fn artifact_rebuilt(a: CoverageArtifact, d: ArtifactRecord) -> bool {
    &&& artifact_header_ok(d)
    &&& a.spec_producer_version() == d.producer_version@
    &&& a.spec_test_name() == d.test_name@
    &&& Some(a.spec_test_status()) == status_value(d.test_status@)
    &&& replay_read(d.replay_token, a.spec_replay_token())
    &&& a.spec_groups().len() == d.groups@.len()
    &&& a.spec_groups().len() > 0
    &&& forall|k: int|
        0 <= k < d.groups@.len() ==> #[trigger] group_rebuilt(a.spec_groups()[k], d.groups@[k])
    &&& session_summary_issue(a.spec_groups()) is None
    &&& session_summary_of(a.spec_summary(), a.spec_groups())
    &&& stored_session_issue(d.summary, a.spec_summary()) is None
}

impl CoverageArtifact {
    /// Rebuilds a persisted per-test artifact, checking every field and
    /// every aggregate against the data it summarizes.
    #[verifier::rlimit(40)]
    pub fn from_record(d: &ArtifactRecord) -> (r: Result<Self, CoveragePersistenceError>)
        ensures
            d.format@ != ARTIFACT_FORMAT_NAME@ ==> (r matches Err(
                CoveragePersistenceError::InvalidFormat { found },
            ) && found@ == d.format@),
            d.format@ == ARTIFACT_FORMAT_NAME@ && d.schema_version != ARTIFACT_SCHEMA_VERSION ==> r
                == Err::<Self, CoveragePersistenceError>(
                CoveragePersistenceError::UnsupportedSchemaVersion {
                    found: d.schema_version,
                    supported: ARTIFACT_SCHEMA_VERSION,
                },
            ),
            d.format@ == ARTIFACT_FORMAT_NAME@ && d.schema_version == ARTIFACT_SCHEMA_VERSION && (
            d.producer_name@ != "vvm-rs"@ || d.producer_version@.len() == 0) ==> (r matches Err(e)
                && reports(
                e,
                invalid_issue(
                    "producer"@,
                    "expected producer name `vvm-rs` and a non-empty version"@,
                ),
            )),
            d.format@ == ARTIFACT_FORMAT_NAME@ && d.schema_version == ARTIFACT_SCHEMA_VERSION
                && d.producer_name@ == "vvm-rs"@ && d.producer_version@.len() > 0
                && !valid_test_name(d.test_name@) ==> (r matches Err(e) && reports(
                e,
                invalid_issue("test.name"@, "invalid test name"@),
            )),
            d.format@ == ARTIFACT_FORMAT_NAME@ && d.schema_version == ARTIFACT_SCHEMA_VERSION
                && d.producer_name@ == "vvm-rs"@ && d.producer_version@.len() > 0
                && valid_test_name(d.test_name@) && status_value(d.test_status@) is None ==> (r matches Err(
                e,
            ) && reports(e, invalid_issue("test.status"@, "unknown test status"@))),
            d.format@ == ARTIFACT_FORMAT_NAME@ && d.schema_version == ARTIFACT_SCHEMA_VERSION
                && d.producer_name@ == "vvm-rs"@ && d.producer_version@.len() > 0
                && valid_test_name(d.test_name@) && status_value(d.test_status@) is Some
                && !replay_ok(d.replay_token) ==> (r matches Err(e) && reports(
                e,
                invalid_issue("test.replay_token"@, "invalid replay token"@),
            )),
            artifact_header_ok(*d) && d.groups@.len() == 0 ==> (r matches Err(e) && reports(
                e,
                invalid_issue("groups"@, "an artifact must contain at least one group"@),
            )),
            r matches Ok(a) ==> artifact_rebuilt(a, *d) && artifact_valid(a),
            artifact_header_ok(*d) && d.groups@.len() > 0 && (forall|k: int|
                0 <= k < d.groups@.len() ==> #[trigger] group_record_accepted(d.groups@[k], k as nat))
                && session_accepted(d.groups@, d.summary) ==> r is Ok,
            r matches Err(e) ==> {
                ||| !artifact_header_ok(*d)
                ||| d.groups@.len() == 0
                ||| groups_refused(d.groups@, e)
                ||| exists|gs: Seq<CoverageArtifactGroup>|
                    #[trigger] groups_rebuilt(gs, d.groups@) && session_refused(gs, d.summary, e)
            },
    {
        if !str_eq(d.format.as_str(), ARTIFACT_FORMAT_NAME) {
            return Err(CoveragePersistenceError::InvalidFormat { found: String::from_str(d.format.as_str()) });
        }
        if d.schema_version != ARTIFACT_SCHEMA_VERSION {
            return Err(
                CoveragePersistenceError::UnsupportedSchemaVersion {
                    found: d.schema_version,
                    supported: ARTIFACT_SCHEMA_VERSION,
                },
            );
        }
        if !str_eq(d.producer_name.as_str(), "vvm-rs") || d.producer_version.unicode_len() == 0 {
            return Err(invalid("producer", "expected producer name `vvm-rs` and a non-empty version"));
        }
        if !is_valid_test_name(d.test_name.as_str()) {
            return Err(invalid("test.name", "invalid test name"));
        }
        let status = match parse_status(d.test_status.as_str()) {
            Ok(s) => s,
            Err(e) => {
                return Err(e);
            },
        };
        let replay = match read_replay(&d.replay_token, "test.replay_token") {
            Ok(t) => t,
            Err(e) => {
                return Err(e);
            },
        };
        let mut groups: Vec<CoverageArtifactGroup> = Vec::new();
        let mut k: usize = 0;
        while k < d.groups.len()
            invariant
                artifact_header_ok(*d),
                k <= d.groups@.len(),
                groups@.len() == k,
                forall|t: int| 0 <= t < k ==> #[trigger] group_rebuilt(groups@[t], d.groups@[t]),
                forall|t: int| 0 <= t < k ==> #[trigger] group_record_accepted(d.groups@[t], t as nat),
            decreases d.groups@.len() - k,
        {
            let g = group_from_record(&d.groups[k], k);
            match g {
                Ok(x) => {
                    groups.push(x);
                },
                Err(e) => {
                    proof {
                        let ki: int = k as int;
                        assert(group_record_outcome(
                            Err::<CoverageArtifactGroup, CoveragePersistenceError>(e),
                            d.groups@[ki],
                            ki as nat,
                        ));
                        assert(groups_refused(d.groups@, e));
                        if forall|t: int|
                            0 <= t < d.groups@.len() ==> #[trigger] group_record_accepted(d.groups@[t], t as nat) {
                            assert(group_record_accepted(d.groups@[ki], ki as nat));
                        }
                    }
                    return Err(e);
                },
            }
            k = k + 1;
        }
        if groups.len() == 0 {
            return Err(invalid("groups", "an artifact must contain at least one group"));
        }
        assert(groups_rebuilt(groups@, d.groups@));
        let summary = match artifact_session_summary(groups.as_slice()) {
            Ok(s) => s,
            Err(e) => {
                assert(session_refused(groups@, d.summary, e));
                proof {
                    if session_accepted(d.groups@, d.summary) {
                        assert(groups_rebuilt(groups@, d.groups@));
                    }
                }
                return Err(e);
            },
        };
        match validate_session_summary(&d.summary, summary) {
            Ok(()) => {},
            Err(e) => {
                assert(session_refused(groups@, d.summary, e));
                proof {
                    if session_accepted(d.groups@, d.summary) {
                        assert(groups_rebuilt(groups@, d.groups@));
                        assert(session_summary_of(summary, groups@));
                    }
                }
                return Err(e);
            },
        }
        let a = CoverageArtifact::from_parts(
            d.producer_version.as_str(),
            d.test_name.as_str(),
            status,
            replay,
            groups,
            summary,
        );
        proof {
            crate::coverage::persistence::lemma_read_artifact_valid(a, *d);
        }
        Ok(a)
    }
}

} // verus!

use vstd::prelude::*;
use vstd::string::*;

use crate::coverage::artifact_error::CoveragePersistenceError;
use crate::coverage::fingerprint::CoverageDefinitionFingerprint;
use crate::coverage::merge_error::{
    CoverageMergeCountKind, CoverageMergeError,
};
use crate::coverage::ratio::CoverageRatio;
use crate::coverage::session::CoverageSessionSummary;
use crate::coverage::snapshot::{
    item_snapshot_name, CoverageGroupSnapshot, CoverageItemSnapshot,
    CoverpointBinSnapshot, CoverpointSnapshot, Cross2Snapshot, CrossBinSnapshot,
};
use crate::coverage::item::item_kind_of;
use crate::random::{RandomAlgorithm, ReplayToken};
use crate::registry::TestStatus;
use crate::text::{decimal_spec, push_decimal, push_str, str_eq};

verus! {

/// Which persisted test outcomes contribute counters to a merge.
#[derive(Debug, Clone, Copy, PartialEq, Eq, Hash, Structural)]
pub enum CoverageMergePolicy {
    /// Only passed tests contribute.
    PassedOnly,
    /// Passed and failed tests contribute.
    PassedAndFailed,
    /// Every test contributes.
    All,
}

/// Stable name of a merge policy.
pub open spec fn policy_text(p: CoverageMergePolicy) -> Seq<char> {
    match p {
        CoverageMergePolicy::PassedOnly => "passed_only"@,
        CoverageMergePolicy::PassedAndFailed => "passed_and_failed"@,
        CoverageMergePolicy::All => "all"@,
    }
}

/// Whether a policy includes a status.
pub open spec fn policy_includes(p: CoverageMergePolicy, s: TestStatus) -> bool {
    match p {
        CoverageMergePolicy::PassedOnly => s == TestStatus::Passed,
        CoverageMergePolicy::PassedAndFailed => s == TestStatus::Passed || s == TestStatus::Failed,
        CoverageMergePolicy::All => true,
    }
}

impl CoverageMergePolicy {
    /// The default policy: passed tests only.
    pub fn passed_only() -> (r: Self)
        ensures
            r == CoverageMergePolicy::PassedOnly,
    {
        CoverageMergePolicy::PassedOnly
    }

    /// Passed and failed tests.
    pub fn passed_and_failed() -> (r: Self)
        ensures
            r == CoverageMergePolicy::PassedAndFailed,
    {
        CoverageMergePolicy::PassedAndFailed
    }

    /// Every persisted status.
    pub fn all() -> (r: Self)
        ensures
            r == CoverageMergePolicy::All,
    {
        CoverageMergePolicy::All
    }

    /// Returns whether one status contributes counters.
    pub fn includes(self, status: TestStatus) -> (r: bool)
        ensures
            r == policy_includes(self, status),
    {
        match self {
            CoverageMergePolicy::PassedOnly => status == TestStatus::Passed,
            CoverageMergePolicy::PassedAndFailed => status == TestStatus::Passed || status
                == TestStatus::Failed,
            CoverageMergePolicy::All => true,
        }
    }

    /// Returns the stable policy name.
    pub fn text(self) -> (r: &'static str)
        ensures
            r@ == policy_text(self),
    {
        match self {
            CoverageMergePolicy::PassedOnly => "passed_only",
            CoverageMergePolicy::PassedAndFailed => "passed_and_failed",
            CoverageMergePolicy::All => "all",
        }
    }

    /// Parses a stable policy name.
    pub fn parse(value: &str) -> (r: Result<Self, CoveragePersistenceError>)
        ensures
            value@ == "passed_only"@ ==> r == Ok::<Self, CoveragePersistenceError>(
                CoverageMergePolicy::PassedOnly,
            ),
            value@ == "passed_and_failed"@ ==> r == Ok::<Self, CoveragePersistenceError>(
                CoverageMergePolicy::PassedAndFailed,
            ),
            value@ == "all"@ ==> r == Ok::<Self, CoveragePersistenceError>(
                CoverageMergePolicy::All,
            ),
            value@ != "passed_only"@ && value@ != "passed_and_failed"@ && value@ != "all"@ ==> (
            r matches Err(CoveragePersistenceError::InvalidData { path, reason }) && path@
                == "policy"@ && reason@ == "unknown merge policy `"@ + value@ + "`"@),
    {
        proof {
            lemma_policy_names_distinct();
        }
        if str_eq(value, "passed_only") {
            Ok(CoverageMergePolicy::PassedOnly)
        } else if str_eq(value, "passed_and_failed") {
            Ok(CoverageMergePolicy::PassedAndFailed)
        } else if str_eq(value, "all") {
            Ok(CoverageMergePolicy::All)
        } else {
            let mut reason = String::new();
            push_str(&mut reason, "unknown merge policy `");
            push_str(&mut reason, value);
            push_str(&mut reason, "`");
            Err(CoveragePersistenceError::InvalidData { path: String::from_str("policy"), reason })
        }
    }
}

/// The three policy names differ.
proof fn lemma_policy_names_distinct()
    ensures
        "passed_only"@ != "passed_and_failed"@,
        "passed_only"@ != "all"@,
        "passed_and_failed"@ != "all"@,
{
    reveal_strlit("passed_only");
    reveal_strlit("passed_and_failed");
    reveal_strlit("all");
    assert("passed_only"@.len() != "passed_and_failed"@.len());
    assert("passed_only"@[0] != "all"@[0]);
    assert("passed_and_failed"@[0] != "all"@[0]);
}

/// A policy's stable name parses back to the same policy.
pub proof fn lemma_policy_text_round_trip(p: CoverageMergePolicy)
    ensures
        policy_text(p) == "passed_only"@ ==> p == CoverageMergePolicy::PassedOnly,
        policy_text(p) == "passed_and_failed"@ ==> p == CoverageMergePolicy::PassedAndFailed,
        policy_text(p) == "all"@ ==> p == CoverageMergePolicy::All,
{
    lemma_policy_names_distinct();
}

impl Default for CoverageMergePolicy {
    fn default() -> (r: Self)
        ensures
            r == CoverageMergePolicy::PassedOnly,
    {
        CoverageMergePolicy::PassedOnly
    }
}

impl core::str::FromStr for CoverageMergePolicy {
    type Err = CoveragePersistenceError;

    fn from_str(s: &str) -> Result<Self, CoveragePersistenceError> {
        CoverageMergePolicy::parse(s)
    }
}

/// One input artifact of a merge, as recorded in the merged document.
#[derive(Debug, Clone, PartialEq, Eq)]
pub struct CoverageMergeInput {
    producer_version: String,
    test_name: String,
    test_status: TestStatus,
    replay_token: Option<ReplayToken>,
    included: bool,
    summary: CoverageSessionSummary,
}

/// Producer version, test name, status, replay token, inclusion flag, and
/// the session summary's group, item, coverpoint and cross counts and coverage.
pub type MergeInputView = (
    Seq<char>,
    Seq<char>,
    TestStatus,
    Option<(RandomAlgorithm, u64)>,
    bool,
    (usize, usize, usize, usize, (usize, usize, usize)),
);

impl View for CoverageMergeInput {
    type V = MergeInputView;

    open spec fn view(&self) -> MergeInputView {
        let s = self.spec_summary();
        (
            self.spec_producer_version(),
            self.spec_test_name(),
            self.spec_test_status(),
            match self.spec_replay_token() {
                Some(t) => Some(t@),
                None => None,
            },
            self.spec_included(),
            (s.spec_groups(), s.spec_items(), s.spec_coverpoints(), s.spec_crosses(), s.spec_coverage()@),
        )
    }
}

impl CoverageMergeInput {
    /// Producer version.
    pub closed spec fn spec_producer_version(&self) -> Seq<char> {
        self.producer_version@
    }

    /// Test name.
    pub closed spec fn spec_test_name(&self) -> Seq<char> {
        self.test_name@
    }

    /// Test status.
    pub closed spec fn spec_test_status(&self) -> TestStatus {
        self.test_status
    }

    /// Replay token.
    pub closed spec fn spec_replay_token(&self) -> Option<ReplayToken> {
        self.replay_token
    }

    /// Whether the policy included the artifact.
    pub closed spec fn spec_included(&self) -> bool {
        self.included
    }

    /// Session summary of the artifact.
    pub closed spec fn spec_summary(&self) -> CoverageSessionSummary {
        self.summary
    }

    /// Assembles an input record.
    pub fn from_parts(
        producer_version: &str,
        test_name: &str,
        test_status: TestStatus,
        replay_token: Option<ReplayToken>,
        included: bool,
        summary: CoverageSessionSummary,
    ) -> (r: Self)
        ensures
            r.spec_producer_version() == producer_version@,
            r.spec_test_name() == test_name@,
            r.spec_test_status() == test_status,
            r.spec_replay_token() == replay_token,
            r.spec_included() == included,
            r.spec_summary() == summary,
    {
        CoverageMergeInput {
            producer_version: String::from_str(producer_version),
            test_name: String::from_str(test_name),
            test_status,
            replay_token,
            included,
            summary,
        }
    }

    /// Returns the producer version.
    pub fn producer_version(&self) -> (r: &str)
        ensures
            r@ == self.spec_producer_version(),
    {
        self.producer_version.as_str()
    }

    /// Returns the test name.
    pub fn test_name(&self) -> (r: &str)
        ensures
            r@ == self.spec_test_name(),
    {
        self.test_name.as_str()
    }

    /// Returns the test status.
    pub fn test_status(&self) -> (r: TestStatus)
        ensures
            r == self.spec_test_status(),
    {
        self.test_status
    }

    /// Returns the replay token.
    pub fn replay_token(&self) -> (r: Option<ReplayToken>)
        ensures
            r == self.spec_replay_token(),
    {
        self.replay_token
    }

    /// Returns whether the policy included the artifact.
    pub fn included(&self) -> (r: bool)
        ensures
            r == self.spec_included(),
    {
        self.included
    }

    /// Returns the artifact's session summary.
    pub fn summary(&self) -> (r: CoverageSessionSummary)
        ensures
            r == self.spec_summary(),
    {
        self.summary
    }
}

/// Input counts of a merge.
#[derive(Debug, Clone, Copy, PartialEq, Eq, Default)]
pub struct MergeCounts {
    /// All inputs.
    pub artifacts: usize,
    /// Included inputs.
    pub included: usize,
    /// Excluded inputs.
    pub excluded: usize,
    /// Passed inputs.
    pub passed: usize,
    /// Failed inputs.
    pub failed: usize,
    /// Errored inputs.
    pub errored: usize,
}

/// First count that recording one more input would overflow, in checking order.
pub open spec fn record_overflow(c: MergeCounts, status: TestStatus, included: bool) -> Option<
    CoverageMergeCountKind,
> {
    if c.artifacts == usize::MAX {
        Some(CoverageMergeCountKind::Artifacts)
    } else if included && c.included == usize::MAX {
        Some(CoverageMergeCountKind::IncludedArtifacts)
    } else if !included && c.excluded == usize::MAX {
        Some(CoverageMergeCountKind::ExcludedArtifacts)
    } else if status == TestStatus::Passed && c.passed == usize::MAX {
        Some(CoverageMergeCountKind::PassedArtifacts)
    } else if status == TestStatus::Failed && c.failed == usize::MAX {
        Some(CoverageMergeCountKind::FailedArtifacts)
    } else if status == TestStatus::Error && c.errored == usize::MAX {
        Some(CoverageMergeCountKind::ErroredArtifacts)
    } else {
        None
    }
}

/// Counts after recording one more input.
pub open spec fn recorded(c: MergeCounts, status: TestStatus, included: bool) -> MergeCounts {
    MergeCounts {
        artifacts: (c.artifacts + 1) as usize,
        included: if included {
            (c.included + 1) as usize
        } else {
            c.included
        },
        excluded: if included {
            c.excluded
        } else {
            (c.excluded + 1) as usize
        },
        passed: if status == TestStatus::Passed {
            (c.passed + 1) as usize
        } else {
            c.passed
        },
        failed: if status == TestStatus::Failed {
            (c.failed + 1) as usize
        } else {
            c.failed
        },
        errored: if status == TestStatus::Error {
            (c.errored + 1) as usize
        } else {
            c.errored
        },
    }
}

impl MergeCounts {
    /// Records one input, checking every affected count.
    pub fn record(&mut self, status: TestStatus, included: bool) -> (r: Result<(), CoverageMergeError>)
        ensures
            match record_overflow(*old(self), status, included) {
                Some(k) => r == Err::<(), CoverageMergeError>(
                    CoverageMergeError::CountOverflow { counter: k },
                ),
                None => r is Ok && *final(self) == recorded(*old(self), status, included),
            },
    {
        if self.artifacts == usize::MAX {
            return Err(CoverageMergeError::CountOverflow { counter: CoverageMergeCountKind::Artifacts });
        }
        if included && self.included == usize::MAX {
            return Err(
                CoverageMergeError::CountOverflow { counter: CoverageMergeCountKind::IncludedArtifacts },
            );
        }
        if !included && self.excluded == usize::MAX {
            return Err(
                CoverageMergeError::CountOverflow { counter: CoverageMergeCountKind::ExcludedArtifacts },
            );
        }
        if status == TestStatus::Passed && self.passed == usize::MAX {
            return Err(
                CoverageMergeError::CountOverflow { counter: CoverageMergeCountKind::PassedArtifacts },
            );
        }
        if status == TestStatus::Failed && self.failed == usize::MAX {
            return Err(
                CoverageMergeError::CountOverflow { counter: CoverageMergeCountKind::FailedArtifacts },
            );
        }
        if status == TestStatus::Error && self.errored == usize::MAX {
            return Err(
                CoverageMergeError::CountOverflow { counter: CoverageMergeCountKind::ErroredArtifacts },
            );
        }
        self.artifacts = self.artifacts + 1;
        if included {
            self.included = self.included + 1;
        } else {
            self.excluded = self.excluded + 1;
        }
        if status == TestStatus::Passed {
            self.passed = self.passed + 1;
        } else if status == TestStatus::Failed {
            self.failed = self.failed + 1;
        } else {
            self.errored = self.errored + 1;
        }
        Ok(())
    }
}

/// Views of a sequence of ratios.
pub open spec fn ratio_views(rs: Seq<CoverageRatio>) -> Seq<(usize, usize, usize)> {
    rs.map_values(|r: CoverageRatio| r@)
}

/// Covered, uncovered and total bins summed over the first `n` ratio views.
pub open spec fn ratio_sums_of(rs: Seq<(usize, usize, usize)>, n: int) -> (int, int, int)
    decreases n,
{
    if n <= 0 {
        (0, 0, 0)
    } else {
        let s = ratio_sums_of(rs, n - 1);
        (s.0 + rs[n - 1].0, s.1 + rs[n - 1].1, s.2 + rs[n - 1].2)
    }
}

/// First bin count, ratio by ratio, whose sum exceeds `usize::MAX`.
pub open spec fn ratio_sum_overflow(rs: Seq<(usize, usize, usize)>, i: int) -> Option<
    CoverageMergeCountKind,
>
    decreases rs.len() - i,
{
    if i < 0 || i >= rs.len() {
        None
    } else {
        let s = ratio_sums_of(rs, i + 1);
        if s.0 > usize::MAX {
            Some(CoverageMergeCountKind::CoveredBins)
        } else if s.1 > usize::MAX {
            Some(CoverageMergeCountKind::UncoveredBins)
        } else if s.2 > usize::MAX {
            Some(CoverageMergeCountKind::TotalBins)
        } else {
            ratio_sum_overflow(rs, i + 1)
        }
    }
}

/// Sums coverage ratios with checked counts.
pub fn sum_ratios(rs: &[CoverageRatio]) -> (r: Result<CoverageRatio, CoverageMergeError>)
    ensures
        match ratio_sum_overflow(ratio_views(rs@), 0) {
            Some(k) => r == Err::<CoverageRatio, CoverageMergeError>(
                CoverageMergeError::CountOverflow { counter: k },
            ),
            None => r matches Ok(t) && t@.0 == ratio_sums_of(ratio_views(rs@), rs@.len() as int).0
                && t@.1 == ratio_sums_of(ratio_views(rs@), rs@.len() as int).1 && t@.2
                == ratio_sums_of(ratio_views(rs@), rs@.len() as int).2,
        },
{
    let ghost vs = ratio_views(rs@);
    let mut covered: usize = 0;
    let mut uncovered: usize = 0;
    let mut total: usize = 0;
    let mut i: usize = 0;
    while i < rs.len()
        invariant
            vs == ratio_views(rs@),
            i <= rs@.len(),
            covered == ratio_sums_of(vs, i as int).0,
            uncovered == ratio_sums_of(vs, i as int).1,
            total == ratio_sums_of(vs, i as int).2,
            ratio_sum_overflow(vs, 0) == ratio_sum_overflow(vs, i as int),
        decreases rs@.len() - i,
    {
        let r = rs[i];
        assert(vs[i as int] == r@);
        let c = covered.checked_add(r.covered());
        let u = uncovered.checked_add(r.uncovered());
        let t = total.checked_add(r.total());
        if c.is_none() {
            return Err(CoverageMergeError::CountOverflow { counter: CoverageMergeCountKind::CoveredBins });
        }
        if u.is_none() {
            return Err(
                CoverageMergeError::CountOverflow { counter: CoverageMergeCountKind::UncoveredBins },
            );
        }
        if t.is_none() {
            return Err(CoverageMergeError::CountOverflow { counter: CoverageMergeCountKind::TotalBins });
        }
        covered = c.unwrap();
        uncovered = u.unwrap();
        total = t.unwrap();
        i = i + 1;
    }
    Ok(CoverageRatio::new(covered, uncovered, total))
}

/// `items[i]`.
pub open spec fn item_path(i: nat) -> Seq<char> {
    "items["@ + decimal_spec(i) + "]"@
}

/// `items[i].bins`.
pub open spec fn bins_path(i: nat) -> Seq<char> {
    item_path(i) + ".bins"@
}

/// `items[i].bins[j]`.
pub open spec fn bin_path(i: nat, j: nat) -> Seq<char> {
    item_path(i) + ".bins["@ + decimal_spec(j) + "]"@
}

fn item_path_text(i: usize) -> (r: String)
    ensures
        r@ == item_path(i as nat),
{
    let mut s = String::new();
    push_str(&mut s, "items[");
    push_decimal(&mut s, i as u64);
    push_str(&mut s, "]");
    s
}

fn bin_path_text(i: usize, j: usize) -> (r: String)
    ensures
        r@ == bin_path(i as nat, j as nat),
{
    let mut s = item_path_text(i);
    push_str(&mut s, ".bins[");
    push_decimal(&mut s, j as u64);
    push_str(&mut s, "]");
    s
}

/// Same definition (everything but the hit count) of two coverpoint bins.
pub open spec fn point_bins_match(l: CoverpointBinSnapshot, r: CoverpointBinSnapshot) -> bool {
    &&& l@.0 == r@.0
    &&& l@.1 == r@.1
    &&& l@.2 == r@.2
    &&& l@.3 == r@.3
    &&& l@.4 == r@.4
    &&& l@.6 == r@.6
}

/// Same definition (everything but the hit count) of two cross bins.
pub open spec fn cross_bins_match(l: CrossBinSnapshot, r: CrossBinSnapshot) -> bool {
    &&& l@.0 == r@.0
    &&& l@.1 == r@.1
    &&& l@.2 == r@.2
    &&& l@.3 == r@.3
    &&& l@.4 == r@.4
    &&& l@.6 == r@.6
}

/// First index at or after `j` where two coverpoint bin lists differ in definition.
pub open spec fn first_point_bin_issue(l: Seq<CoverpointBinSnapshot>, r: Seq<CoverpointBinSnapshot>, j: int) -> int
    decreases l.len() - j,
{
    if j < 0 || j >= l.len() {
        -1
    } else if !point_bins_match(l[j], r[j]) {
        j
    } else {
        first_point_bin_issue(l, r, j + 1)
    }
}

/// First index at or after `j` where two cross bin lists differ in definition.
pub open spec fn first_cross_bin_issue(l: Seq<CrossBinSnapshot>, r: Seq<CrossBinSnapshot>, j: int) -> int
    decreases l.len() - j,
{
    if j < 0 || j >= l.len() {
        -1
    } else if !cross_bins_match(l[j], r[j]) {
        j
    } else {
        first_cross_bin_issue(l, r, j + 1)
    }
}

/// Structural difference between two coverpoints at item `i`: path and reason.
pub open spec fn point_issue(l: CoverpointSnapshot, r: CoverpointSnapshot, i: nat) -> Option<
    (Seq<char>, Seq<char>),
> {
    if l.spec_bins().len() != r.spec_bins().len() {
        Some((bins_path(i), "bin counts differ"@))
    } else {
        let j = first_point_bin_issue(l.spec_bins(), r.spec_bins(), 0);
        if j >= 0 {
            Some((bin_path(i, j as nat), "bin definition differs"@))
        } else {
            None
        }
    }
}

/// Structural difference between two crosses at item `i`: path and reason.
pub open spec fn cross_issue(l: Cross2Snapshot, r: Cross2Snapshot, i: nat) -> Option<
    (Seq<char>, Seq<char>),
> {
    if l.spec_axis_names() != r.spec_axis_names() || l.spec_bins().len() != r.spec_bins().len() {
        Some((item_path(i), "cross axes or bin count differ"@))
    } else {
        let j = first_cross_bin_issue(l.spec_bins(), r.spec_bins(), 0);
        if j >= 0 {
            Some((bin_path(i, j as nat), "cross-bin definition differs"@))
        } else {
            None
        }
    }
}

/// Structural difference between two items at index `i`.
pub open spec fn item_issue(l: CoverageItemSnapshot, r: CoverageItemSnapshot, i: nat) -> Option<
    (Seq<char>, Seq<char>),
> {
    if item_kind_of(l) != item_kind_of(r) || item_snapshot_name(l) != item_snapshot_name(r) {
        Some((item_path(i), "item kind or name differs"@))
    } else {
        match (l, r) {
            (CoverageItemSnapshot::Coverpoint(a), CoverageItemSnapshot::Coverpoint(b)) =>
                point_issue(a, b, i),
            (CoverageItemSnapshot::Cross2(a), CoverageItemSnapshot::Cross2(b)) => cross_issue(
                a,
                b,
                i,
            ),
            _ => Some((item_path(i), "item kind differs"@)),
        }
    }
}

/// First structural difference between two item lists at or after index `i`.
pub open spec fn first_item_issue(
    l: Seq<CoverageItemSnapshot>,
    r: Seq<CoverageItemSnapshot>,
    i: int,
) -> Option<(Seq<char>, Seq<char>)>
    decreases l.len() - i,
{
    if i < 0 || i >= l.len() {
        None
    } else {
        match item_issue(l[i], r[i], i as nat) {
            Some(x) => Some(x),
            None => first_item_issue(l, r, i + 1),
        }
    }
}

/// Structural difference between two group snapshots.
pub open spec fn group_issue(e: CoverageGroupSnapshot, n: CoverageGroupSnapshot) -> Option<
    (Seq<char>, Seq<char>),
> {
    if e.spec_items().len() != n.spec_items().len() {
        Some(("items"@, "item counts differ"@))
    } else {
        first_item_issue(e.spec_items(), n.spec_items(), 0)
    }
}

/// Error `err` reports a structural difference at `path` for `reason`.
pub open spec fn is_structure_error(
    err: CoverageMergeError,
    instance_path: Seq<char>,
    fingerprint: CoverageDefinitionFingerprint,
    path: Seq<char>,
    reason: Seq<char>,
) -> bool {
    err matches CoverageMergeError::DefinitionStructureMismatch {
        instance_path: ip,
        fingerprint: f,
        path: p,
        reason: q,
    } && ip@ == instance_path && f == fingerprint && p@ == path && q@ == reason
}

fn structure_error(
    instance_path: &str,
    fingerprint: CoverageDefinitionFingerprint,
    path: String,
    reason: &str,
) -> (r: CoverageMergeError)
    ensures
        is_structure_error(r, instance_path@, fingerprint, path@, reason@),
{
    CoverageMergeError::DefinitionStructureMismatch {
        instance_path: String::from_str(instance_path),
        fingerprint,
        path,
        reason: String::from_str(reason),
    }
}

fn point_bins_equal(l: &CoverpointBinSnapshot, r: &CoverpointBinSnapshot) -> (b: bool)
    ensures
        b == point_bins_match(*l, *r),
{
    l.id() == r.id() && str_eq(l.name(), r.name()) && l.kind() == r.kind() && l.matcher_kind()
        == r.matcher_kind() && l.matcher_operand_count() == r.matcher_operand_count()
        && l.required_hits() == r.required_hits()
}

fn cross_bins_equal(l: &CrossBinSnapshot, r: &CrossBinSnapshot) -> (b: bool)
    ensures
        b == cross_bins_match(*l, *r),
{
    l.id() == r.id() && l.left_bin_id() == r.left_bin_id() && str_eq(
        l.left_bin_name(),
        r.left_bin_name(),
    ) && l.right_bin_id() == r.right_bin_id() && str_eq(l.right_bin_name(), r.right_bin_name())
        && l.required_hits() == r.required_hits()
}

/// Compares the definitions of two coverpoints at item `item`.
pub fn compare_point(
    left: &CoverpointSnapshot,
    right: &CoverpointSnapshot,
    group_path: &str,
    fingerprint: CoverageDefinitionFingerprint,
    item: usize,
) -> (r: Result<(), CoverageMergeError>)
    ensures
        match point_issue(*left, *right, item as nat) {
            Some((p, q)) => r matches Err(e) && is_structure_error(e, group_path@, fingerprint, p, q),
            None => r is Ok,
        },
{
    let lb = left.bins();
    let rb = right.bins();
    if lb.len() != rb.len() {
        let mut path = item_path_text(item);
        push_str(&mut path, ".bins");
        return Err(structure_error(group_path, fingerprint, path, "bin counts differ"));
    }
    let mut j: usize = 0;
    while j < lb.len()
        invariant
            lb@ == left.spec_bins(),
            rb@ == right.spec_bins(),
            lb@.len() == rb@.len(),
            j <= lb@.len(),
            first_point_bin_issue(lb@, rb@, 0) == first_point_bin_issue(lb@, rb@, j as int),
        decreases lb@.len() - j,
    {
        if !point_bins_equal(&lb[j], &rb[j]) {
            return Err(
                structure_error(group_path, fingerprint, bin_path_text(item, j), "bin definition differs"),
            );
        }
        j = j + 1;
    }
    Ok(())
}

/// Compares the definitions of two crosses at item `item`.
pub fn compare_cross(
    left: &Cross2Snapshot,
    right: &Cross2Snapshot,
    group_path: &str,
    fingerprint: CoverageDefinitionFingerprint,
    item: usize,
) -> (r: Result<(), CoverageMergeError>)
    ensures
        match cross_issue(*left, *right, item as nat) {
            Some((p, q)) => r matches Err(e) && is_structure_error(e, group_path@, fingerprint, p, q),
            None => r is Ok,
        },
{
    let lb = left.bins();
    let rb = right.bins();
    if !str_eq(left.left_coverpoint_name(), right.left_coverpoint_name()) || !str_eq(
        left.right_coverpoint_name(),
        right.right_coverpoint_name(),
    ) || lb.len() != rb.len() {
        return Err(
            structure_error(
                group_path,
                fingerprint,
                item_path_text(item),
                "cross axes or bin count differ",
            ),
        );
    }
    let mut j: usize = 0;
    while j < lb.len()
        invariant
            lb@ == left.spec_bins(),
            rb@ == right.spec_bins(),
            lb@.len() == rb@.len(),
            j <= lb@.len(),
            first_cross_bin_issue(lb@, rb@, 0) == first_cross_bin_issue(lb@, rb@, j as int),
            left.spec_axis_names() == right.spec_axis_names(),
        decreases lb@.len() - j,
    {
        if !cross_bins_equal(&lb[j], &rb[j]) {
            return Err(
                structure_error(
                    group_path,
                    fingerprint,
                    bin_path_text(item, j),
                    "cross-bin definition differs",
                ),
            );
        }
        j = j + 1;
    }
    Ok(())
}

/// Compares the definitions of two group snapshots item by item.
pub fn compare_group_structure(
    existing: &CoverageGroupSnapshot,
    incoming: &CoverageGroupSnapshot,
    fingerprint: CoverageDefinitionFingerprint,
) -> (r: Result<(), CoverageMergeError>)
    ensures
        match group_issue(*existing, *incoming) {
            Some((p, q)) => r matches Err(e) && is_structure_error(
                e,
                existing.spec_instance_path(),
                fingerprint,
                p,
                q,
            ),
            None => r is Ok,
        },
{
    let ei = existing.items();
    let ni = incoming.items();
    let path = existing.instance_path();
    if ei.len() != ni.len() {
        return Err(structure_error(path, fingerprint, String::from_str("items"), "item counts differ"));
    }
    let mut i: usize = 0;
    while i < ei.len()
        invariant
            ei@ == existing.spec_items(),
            ni@ == incoming.spec_items(),
            path@ == existing.spec_instance_path(),
            ei@.len() == ni@.len(),
            i <= ei@.len(),
            first_item_issue(ei@, ni@, 0) == first_item_issue(ei@, ni@, i as int),
        decreases ei@.len() - i,
    {
        let a = &ei[i];
        let b = &ni[i];
        if a.kind() != b.kind() || !str_eq(a.name(), b.name()) {
            return Err(
                structure_error(path, fingerprint, item_path_text(i), "item kind or name differs"),
            );
        }
        match (a, b) {
            (CoverageItemSnapshot::Coverpoint(x), CoverageItemSnapshot::Coverpoint(y)) => {
                match compare_point(x, y, path, fingerprint, i) {
                    Ok(()) => {},
                    Err(e) => {
                        return Err(e);
                    },
                }
            },
            (CoverageItemSnapshot::Cross2(x), CoverageItemSnapshot::Cross2(y)) => {
                match compare_cross(x, y, path, fingerprint, i) {
                    Ok(()) => {},
                    Err(e) => {
                        return Err(e);
                    },
                }
            },
            _ => {
                return Err(structure_error(path, fingerprint, item_path_text(i), "item kind differs"));
            },
        }
        i = i + 1;
    }
    Ok(())
}

} // verus!

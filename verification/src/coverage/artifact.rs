use vstd::prelude::*;
use vstd::string::*;

use crate::coverage::artifact_error::CoveragePersistenceError;
use crate::coverage::fingerprint::{definition_bytes, sha256, CoverageDefinitionFingerprint};
use crate::coverage::group::CoverageGroupSummary;
use crate::coverage::ratio::CoverageRatio;
use crate::coverage::session::{CoverageSessionSnapshot, CoverageSessionSummary};
use crate::coverage::snapshot::CoverageGroupSnapshot;
use crate::random::ReplayToken;
use crate::registry::TestStatus;
use crate::text::str_eq;

verus! {

/// Format name of a per-test coverage artifact.
pub const ARTIFACT_FORMAT_NAME: &'static str = "vvm-functional-coverage";

/// Schema version of a per-test coverage artifact.
pub const ARTIFACT_SCHEMA_VERSION: u32 = 1;

/// File suffix of a per-test coverage artifact.
pub const ARTIFACT_FILE_SUFFIX: &'static str = ".vvmcov.json";

/// Version of this library recorded as the producer of artifacts.
pub const PRODUCER_VERSION: &'static str = "0.1.0";

/// One group of a coverage artifact with its definition fingerprint.
#[derive(Debug, Clone, PartialEq, Eq)]
pub struct CoverageArtifactGroup {
    snapshot: CoverageGroupSnapshot,
    definition_fingerprint: CoverageDefinitionFingerprint,
}

impl CoverageArtifactGroup {
    /// Group snapshot.
    pub closed spec fn spec_snapshot(&self) -> CoverageGroupSnapshot {
        self.snapshot
    }

    /// Definition fingerprint.
    pub closed spec fn spec_fingerprint(&self) -> CoverageDefinitionFingerprint {
        self.definition_fingerprint
    }

    /// Pairs a snapshot with its fingerprint.
    pub fn from_parts(
        snapshot: CoverageGroupSnapshot,
        definition_fingerprint: CoverageDefinitionFingerprint,
    ) -> (r: Self)
        ensures
            r.spec_snapshot() == snapshot,
            r.spec_fingerprint() == definition_fingerprint,
    {
        CoverageArtifactGroup { snapshot, definition_fingerprint }
    }

    /// Returns the definition name.
    pub fn definition_name(&self) -> (r: &str)
        ensures
            r@ == self.spec_snapshot().spec_definition_name(),
    {
        self.snapshot.definition_name()
    }

    /// Returns the definition revision.
    pub fn definition_revision(&self) -> (r: u64)
        ensures
            r == self.spec_snapshot().spec_revision(),
    {
        self.snapshot.definition_revision()
    }

    /// Returns the definition fingerprint.
    pub fn definition_fingerprint(&self) -> (r: CoverageDefinitionFingerprint)
        ensures
            r == self.spec_fingerprint(),
    {
        self.definition_fingerprint
    }

    /// Returns the instance path.
    pub fn instance_path(&self) -> (r: &str)
        ensures
            r@ == self.spec_snapshot().spec_instance_path(),
    {
        self.snapshot.instance_path()
    }

    /// Returns the group snapshot.
    pub fn snapshot(&self) -> (r: &CoverageGroupSnapshot)
        ensures
            *r == self.spec_snapshot(),
    {
        &self.snapshot
    }

    /// Returns the group summary.
    pub fn summary(&self) -> (r: CoverageGroupSummary)
        ensures
            r == self.spec_snapshot().spec_summary(),
    {
        self.snapshot.summary()
    }

    /// Returns the group coverage.
    pub fn coverage(&self) -> (r: CoverageRatio)
        ensures
            r == self.spec_snapshot().spec_summary().spec_coverage(),
    {
        self.snapshot.coverage()
    }

    /// Splits the group into its snapshot and fingerprint.
    pub fn into_parts(self) -> (r: (CoverageGroupSnapshot, CoverageDefinitionFingerprint))
        ensures
            r == (self.spec_snapshot(), self.spec_fingerprint()),
    {
        (self.snapshot, self.definition_fingerprint)
    }
}

/// Persistent per-test coverage artifact.
#[derive(Debug, Clone, PartialEq, Eq)]
pub struct CoverageArtifact {
    producer_version: String,
    test_name: String,
    test_status: TestStatus,
    replay_token: Option<ReplayToken>,
    groups: Vec<CoverageArtifactGroup>,
    summary: CoverageSessionSummary,
}

/// Index of the first artifact group at or after `i` with the given path, or `-1`.
pub open spec fn find_artifact_group(groups: Seq<CoverageArtifactGroup>, path: Seq<char>, i: int) -> int
    decreases groups.len() - i,
{
    if i < 0 || i >= groups.len() {
        -1
    } else if groups[i].spec_snapshot().spec_instance_path() == path {
        i
    } else {
        find_artifact_group(groups, path, i + 1)
    }
}

/// Finds the first artifact group with the given instance path.
pub fn find_artifact_group_index(groups: &[CoverageArtifactGroup], path: &str) -> (r: Option<usize>)
    ensures
        match r {
            Some(i) => i as int == find_artifact_group(groups@, path@, 0) && i < groups@.len(),
            None => find_artifact_group(groups@, path@, 0) == -1,
        },
{
    let mut i: usize = 0;
    while i < groups.len()
        invariant
            i <= groups@.len(),
            find_artifact_group(groups@, path@, 0) == find_artifact_group(groups@, path@, i as int),
        decreases groups@.len() - i,
    {
        if str_eq(groups[i].instance_path(), path) {
            return Some(i);
        }
        i = i + 1;
    }
    None
}

impl CoverageArtifact {
    /// Producer version.
    pub closed spec fn spec_producer_version(&self) -> Seq<char> {
        self.producer_version@
    }

    /// Test name.
    pub closed spec fn spec_test_name(&self) -> Seq<char> {
        self.test_name@
    }

    /// Test status.
    pub closed spec fn spec_test_status(&self) -> TestStatus {
        self.test_status
    }

    /// Replay token.
    pub closed spec fn spec_replay_token(&self) -> Option<ReplayToken> {
        self.replay_token
    }

    /// Groups in capture order.
    pub closed spec fn spec_groups(&self) -> Seq<CoverageArtifactGroup> {
        self.groups@
    }

    /// Session summary.
    pub closed spec fn spec_summary(&self) -> CoverageSessionSummary {
        self.summary
    }

    /// Assembles an artifact from validated parts.
    pub fn from_parts(
        producer_version: &str,
        test_name: &str,
        test_status: TestStatus,
        replay_token: Option<ReplayToken>,
        groups: Vec<CoverageArtifactGroup>,
        summary: CoverageSessionSummary,
    ) -> (r: Self)
        ensures
            r.spec_producer_version() == producer_version@,
            r.spec_test_name() == test_name@,
            r.spec_test_status() == test_status,
            r.spec_replay_token() == replay_token,
            r.spec_groups() == groups@,
            r.spec_summary() == summary,
    {
        CoverageArtifact {
            producer_version: String::from_str(producer_version),
            test_name: String::from_str(test_name),
            test_status,
            replay_token,
            groups,
            summary,
        }
    }

    /// Builds the artifact of a finished session, fingerprinting each group.
    pub fn from_session(
        test_status: TestStatus,
        replay_token: Option<ReplayToken>,
        session: CoverageSessionSnapshot,
    ) -> (r: Result<Self, CoveragePersistenceError>)
        ensures
            r matches Ok(a) && {
                &&& a.spec_producer_version() == PRODUCER_VERSION@
                &&& a.spec_test_name() == session.spec_test_name()
                &&& a.spec_test_status() == test_status
                &&& a.spec_replay_token() == replay_token
                &&& a.spec_summary() == session.spec_summary()
                &&& a.spec_groups().len() == session.spec_groups().len()
                &&& forall|i: int|
                    0 <= i < a.spec_groups().len() ==> {
                        &&& (#[trigger] a.spec_groups()[i]).spec_snapshot()
                            == session.spec_groups()[i]
                        &&& a.spec_groups()[i].spec_fingerprint()@ == sha256(
                            definition_bytes(session.spec_groups()[i]),
                        )
                    }
            },
    {
        let (test_name, snapshots, summary) = session.into_parts();
        let ghost orig = snapshots@;
        let n = snapshots.len();
        let mut rest = snapshots;
        let mut reversed: Vec<CoverageGroupSnapshot> = Vec::new();
        while rest.len() > 0
            invariant
                n == orig.len(),
                rest@ == orig.take(rest@.len() as int),
                reversed@.len() + rest@.len() == n,
                forall|k: int| 0 <= k < reversed@.len() ==> #[trigger] reversed@[k] == orig[n - 1 - k],
            decreases rest@.len(),
        {
            let g = rest.pop().unwrap();
            reversed.push(g);
        }
        let mut groups: Vec<CoverageArtifactGroup> = Vec::new();
        while reversed.len() > 0
            invariant
                n == orig.len(),
                groups@.len() + reversed@.len() == n,
                forall|k: int| 0 <= k < reversed@.len() ==> #[trigger] reversed@[k] == orig[n - 1 - k],
                forall|k: int|
                    0 <= k < groups@.len() ==> {
                        &&& (#[trigger] groups@[k]).spec_snapshot() == orig[k]
                        &&& groups@[k].spec_fingerprint()@ == sha256(definition_bytes(orig[k]))
                    },
            decreases reversed@.len(),
        {
            let snapshot = reversed.pop().unwrap();
            let fingerprint = match CoverageDefinitionFingerprint::from_group(&snapshot) {
                Ok(f) => f,
                Err(e) => {
                    return Err(e);
                },
            };
            groups.push(CoverageArtifactGroup { snapshot, definition_fingerprint: fingerprint });
        }
        Ok(
            CoverageArtifact {
                producer_version: String::from_str(PRODUCER_VERSION),
                test_name,
                test_status,
                replay_token,
                groups,
                summary,
            },
        )
    }

    /// Returns the schema version.
    pub fn schema_version(&self) -> (r: u32)
        ensures
            r == ARTIFACT_SCHEMA_VERSION,
    {
        ARTIFACT_SCHEMA_VERSION
    }

    /// Returns the producer version.
    pub fn producer_version(&self) -> (r: &str)
        ensures
            r@ == self.spec_producer_version(),
    {
        self.producer_version.as_str()
    }

    /// Returns the test name.
    pub fn test_name(&self) -> (r: &str)
        ensures
            r@ == self.spec_test_name(),
    {
        self.test_name.as_str()
    }

    /// Returns the test status.
    pub fn test_status(&self) -> (r: TestStatus)
        ensures
            r == self.spec_test_status(),
    {
        self.test_status
    }

    /// Returns the replay token.
    pub fn replay_token(&self) -> (r: Option<ReplayToken>)
        ensures
            r == self.spec_replay_token(),
    {
        self.replay_token
    }

    /// Returns the groups in capture order.
    pub fn groups(&self) -> (r: &[CoverageArtifactGroup])
        ensures
            r@ == self.spec_groups(),
    {
        self.groups.as_slice()
    }

    /// Finds a group by instance path.
    pub fn group(&self, path: &str) -> (r: Option<&CoverageArtifactGroup>)
        ensures
            find_artifact_group(self.spec_groups(), path@, 0) < 0 ==> r is None,
            find_artifact_group(self.spec_groups(), path@, 0) >= 0 ==> r == Some(
                &self.spec_groups()[find_artifact_group(self.spec_groups(), path@, 0)],
            ),
    {
        match find_artifact_group_index(self.groups.as_slice(), path) {
            Some(i) => Some(&self.groups[i]),
            None => None,
        }
    }

    /// Returns the session summary.
    pub fn summary(&self) -> (r: CoverageSessionSummary)
        ensures
            r == self.spec_summary(),
    {
        self.summary
    }

    /// Returns the session coverage.
    pub fn coverage(&self) -> (r: CoverageRatio)
        ensures
            r == self.spec_summary().spec_coverage(),
    {
        self.summary.coverage()
    }

    /// Turns the artifact into its groups.
    pub fn into_groups(self) -> (r: Vec<CoverageArtifactGroup>)
        ensures
            r@ == self.spec_groups(),
    {
        self.groups
    }
}

/// Persisted name of a test status.
pub open spec fn status_name(status: TestStatus) -> Seq<char> {
    match status {
        TestStatus::Passed => "passed"@,
        TestStatus::Failed => "failed"@,
        TestStatus::Error => "error"@,
    }
}

/// Returns the persisted name of a test status.
pub fn status_text(status: TestStatus) -> (r: &'static str)
    ensures
        r@ == status_name(status),
{
    match status {
        TestStatus::Passed => "passed",
        TestStatus::Failed => "failed",
        TestStatus::Error => "error",
    }
}

/// Parses a persisted test status.
pub fn parse_status(value: &str) -> (r: Result<TestStatus, CoveragePersistenceError>)
    ensures
        value@ == "passed"@ ==> r == Ok::<TestStatus, CoveragePersistenceError>(TestStatus::Passed),
        value@ == "failed"@ ==> r == Ok::<TestStatus, CoveragePersistenceError>(TestStatus::Failed),
        value@ == "error"@ ==> r == Ok::<TestStatus, CoveragePersistenceError>(TestStatus::Error),
        value@ != "passed"@ && value@ != "failed"@ && value@ != "error"@ ==> (r matches Err(
            CoveragePersistenceError::InvalidData { path, reason },
        ) && path@ == "test.status"@ && reason@ == "unknown test status"@),
{
    proof {
        lemma_status_names_distinct();
    }
    if str_eq(value, "passed") {
        Ok(TestStatus::Passed)
    } else if str_eq(value, "failed") {
        Ok(TestStatus::Failed)
    } else if str_eq(value, "error") {
        Ok(TestStatus::Error)
    } else {
        Err(CoveragePersistenceError::invalid("test.status", "unknown test status"))
    }
}

/// Persisted status names read back as their statuses.
pub proof fn lemma_status_round_trip(status: TestStatus)
    ensures
        status_name(status) == "passed"@ ==> status == TestStatus::Passed,
        status_name(status) == "failed"@ ==> status == TestStatus::Failed,
        status_name(status) == "error"@ ==> status == TestStatus::Error,
{
    lemma_status_names_distinct();
}

/// The three persisted status names differ.
proof fn lemma_status_names_distinct()
    ensures
        "passed"@ != "failed"@,
        "passed"@ != "error"@,
        "failed"@ != "error"@,
{
    reveal_strlit("passed");
    reveal_strlit("failed");
    reveal_strlit("error");
    assert("passed"@[0] != "failed"@[0]);
    assert("passed"@[0] != "error"@[0]);
    assert("failed"@[0] != "error"@[0]);
}

} // verus!

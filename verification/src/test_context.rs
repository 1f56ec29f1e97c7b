use vstd::prelude::*;
use vstd::string::*;

use crate::coverage::group::{group_capture_outcome, CoverageGroup};
use crate::coverage::group_error::CoverageGroupError;
use crate::coverage::snapshot::CoverageGroupSnapshot;
use crate::coverage::model_error::{runtime_error_text, CoverageRuntimeError};
use crate::coverage::session::{record_outcome, CoverageSession, CoverageSessionSnapshot};
use crate::coverage::session_error::{session_error_text, CoverageSessionError};
use crate::registry::TestRunConfig;
use crate::text::push_str;

verus! {

/// Kind of non-fatal test diagnostic.
#[derive(Debug, Clone, Copy, PartialEq, Eq, Hash, Structural)]
pub enum TestDiagnosticKind {
    /// A coverage model rejected a sample.
    CoverageSampling,
    /// A coverage group could not be captured.
    CoverageCapture,
    /// The test declared coverage but captured no group.
    MissingCoverage,
}

/// Lowercase name of a diagnostic kind.
pub open spec fn diagnostic_kind_text(k: TestDiagnosticKind) -> Seq<char> {
    match k {
        TestDiagnosticKind::CoverageSampling => "coverage sampling"@,
        TestDiagnosticKind::CoverageCapture => "coverage capture"@,
        TestDiagnosticKind::MissingCoverage => "missing coverage"@,
    }
}

impl TestDiagnosticKind {
    /// Returns the lowercase kind name.
    pub fn text(self) -> (r: &'static str)
        ensures
            r@ == diagnostic_kind_text(self),
    {
        match self {
            TestDiagnosticKind::CoverageSampling => "coverage sampling",
            TestDiagnosticKind::CoverageCapture => "coverage capture",
            TestDiagnosticKind::MissingCoverage => "missing coverage",
        }
    }
}

/// Non-fatal problem recorded while running a test.
#[derive(Debug, Clone, PartialEq, Eq)]
pub enum TestDiagnostic {
    /// A coverage model rejected a sample.
    CoverageSampling {
        /// Sampling error.
        source: CoverageRuntimeError,
    },
    /// A coverage group could not be captured.
    CoverageCapture {
        /// Capture error.
        source: CoverageSessionError,
    },
    /// The test declared coverage but captured no group.
    MissingCoverage {
        /// Test name.
        test: String,
    },
}

/// Human-readable description of a diagnostic.
pub open spec fn diagnostic_text(d: TestDiagnostic) -> Seq<char> {
    match d {
        TestDiagnostic::CoverageSampling { source } => "coverage sampling: "@ + runtime_error_text(
            source,
        ),
        TestDiagnostic::CoverageCapture { source } => "coverage capture: "@ + session_error_text(
            source,
        ),
        TestDiagnostic::MissingCoverage { test } => "missing coverage for test `"@ + test@
            + "`: the test declared coverage but captured no groups"@,
    }
}

impl TestDiagnostic {
    /// Returns the diagnostic kind.
    pub fn kind(&self) -> (r: TestDiagnosticKind)
        ensures
            r == match *self {
                TestDiagnostic::CoverageSampling { .. } => TestDiagnosticKind::CoverageSampling,
                TestDiagnostic::CoverageCapture { .. } => TestDiagnosticKind::CoverageCapture,
                TestDiagnostic::MissingCoverage { .. } => TestDiagnosticKind::MissingCoverage,
            },
    {
        match self {
            TestDiagnostic::CoverageSampling { .. } => TestDiagnosticKind::CoverageSampling,
            TestDiagnostic::CoverageCapture { .. } => TestDiagnosticKind::CoverageCapture,
            TestDiagnostic::MissingCoverage { .. } => TestDiagnosticKind::MissingCoverage,
        }
    }

    /// Returns the coverage sampling error when applicable.
    pub fn coverage_runtime_error(&self) -> (r: Option<&CoverageRuntimeError>)
        ensures
            match *self {
                TestDiagnostic::CoverageSampling { source } => r == Some(&source),
                _ => r is None,
            },
    {
        match self {
            TestDiagnostic::CoverageSampling { source } => Some(source),
            _ => None,
        }
    }

    /// Returns the coverage capture error when applicable.
    pub fn coverage_session_error(&self) -> (r: Option<&CoverageSessionError>)
        ensures
            match *self {
                TestDiagnostic::CoverageCapture { source } => r == Some(&source),
                _ => r is None,
            },
    {
        match self {
            TestDiagnostic::CoverageCapture { source } => Some(source),
            _ => None,
        }
    }

    /// Returns the test name of a missing-coverage diagnostic.
    pub fn test_name(&self) -> (r: Option<&str>)
        ensures
            match *self {
                TestDiagnostic::MissingCoverage { test } => r is Some && r->0@ == test@,
                _ => r is None,
            },
    {
        match self {
            TestDiagnostic::MissingCoverage { test } => Some(test.as_str()),
            _ => None,
        }
    }

    /// Human-readable description of the diagnostic.
    pub fn message(&self) -> (r: String)
        ensures
            r@ == diagnostic_text(*self),
    {
        let mut s = String::new();
        match self {
            TestDiagnostic::CoverageSampling { source } => {
                push_str(&mut s, "coverage sampling: ");
                let inner = source.message();
                push_str(&mut s, inner.as_str());
            },
            TestDiagnostic::CoverageCapture { source } => {
                push_str(&mut s, "coverage capture: ");
                let inner = source.message();
                push_str(&mut s, inner.as_str());
            },
            TestDiagnostic::MissingCoverage { test } => {
                push_str(&mut s, "missing coverage for test `");
                push_str(&mut s, test.as_str());
                push_str(&mut s, "`: the test declared coverage but captured no groups");
            },
        }
        s
    }
}

/// Coverage and diagnostics left when a test context finishes.
pub struct FinishedTestContext {
    /// Coverage session snapshot, when a group was captured.
    pub coverage: Option<CoverageSessionSnapshot>,
    /// Recorded diagnostics in order.
    pub diagnostics: Vec<TestDiagnostic>,
}

/// Per-test context: run configuration, coverage session and diagnostics.
pub struct TestContext {
    config: TestRunConfig,
    coverage: CoverageSession,
    diagnostics: Vec<TestDiagnostic>,
}

impl TestContext {
    /// Run configuration.
    pub closed spec fn spec_config(&self) -> TestRunConfig {
        self.config
    }

    /// Coverage session.
    pub closed spec fn spec_coverage(&self) -> CoverageSession {
        self.coverage
    }

    /// Recorded diagnostics.
    pub closed spec fn spec_diagnostics(&self) -> Seq<TestDiagnostic> {
        self.diagnostics@
    }

    /// The coverage session is well formed.
    pub open spec fn wf(&self) -> bool {
        self.spec_coverage().wf()
    }

    /// Creates a context for a test with a valid name.
    pub fn new(test_name: &str, config: TestRunConfig) -> (r: Result<Self, CoverageSessionError>)
        ensures
            r matches Ok(c) ==> c.wf() && c.spec_config() == config
                && c.spec_coverage().spec_test_name() == test_name@
                && c.spec_coverage().spec_groups().len() == 0 && c.spec_diagnostics().len() == 0,
            r is Err <==> !crate::coverage::identifier::valid_test_name(test_name@),
    {
        match CoverageSession::new(test_name) {
            Ok(coverage) => Ok(TestContext { config, coverage, diagnostics: Vec::new() }),
            Err(e) => Err(e),
        }
    }

    /// Returns the test name.
    pub fn test_name(&self) -> (r: &str)
        ensures
            r@ == self.spec_coverage().spec_test_name(),
    {
        self.coverage.test_name()
    }

    /// Returns the run configuration.
    pub fn config(&self) -> (r: &TestRunConfig)
        ensures
            *r == self.spec_config(),
    {
        &self.config
    }

    /// Captures one coverage group into the test's session.
    pub fn capture_coverage<G: CoverageGroup>(&mut self, group: &G) -> (r: Result<
        (),
        CoverageSessionError,
    >)
        requires
            old(self).wf(),
        ensures
            final(self).wf(),
            r is Err ==> *final(self) == *old(self),
            final(self).spec_config() == old(self).spec_config(),
            final(self).spec_diagnostics() == old(self).spec_diagnostics(),
            exists|c: Result<CoverageGroupSnapshot, CoverageGroupError>|
                #[trigger] group_capture_outcome(c, group.spec_group_instance(), group.spec_group_items())
                    && record_outcome(
                    old(self).spec_coverage(),
                    final(self).spec_coverage(),
                    r,
                    group.spec_group_instance().spec_instance_path(),
                    c,
                ),
    {
        self.coverage.capture(group)
    }

    /// Returns the coverage session.
    pub fn coverage_session(&self) -> (r: &CoverageSession)
        ensures
            *r == self.spec_coverage(),
    {
        &self.coverage
    }

    /// Returns the recorded diagnostics.
    pub fn diagnostics(&self) -> (r: &[TestDiagnostic])
        ensures
            r@ == self.spec_diagnostics(),
    {
        self.diagnostics.as_slice()
    }

    /// Records a coverage sampling error.
    pub fn record_coverage_sampling_error(&mut self, error: CoverageRuntimeError)
        ensures
            final(self).spec_diagnostics() == old(self).spec_diagnostics().push(
                TestDiagnostic::CoverageSampling { source: error },
            ),
            final(self).spec_config() == old(self).spec_config(),
            final(self).spec_coverage() == old(self).spec_coverage(),
    {
        self.diagnostics.push(TestDiagnostic::CoverageSampling { source: error });
    }

    /// Records a coverage capture error.
    pub fn record_coverage_capture_error(&mut self, error: CoverageSessionError)
        ensures
            final(self).spec_diagnostics() == old(self).spec_diagnostics().push(
                TestDiagnostic::CoverageCapture { source: error },
            ),
            final(self).spec_config() == old(self).spec_config(),
            final(self).spec_coverage() == old(self).spec_coverage(),
    {
        self.diagnostics.push(TestDiagnostic::CoverageCapture { source: error });
    }

    /// Finishes the context into its coverage snapshot and diagnostics.
    pub fn finish(self) -> (r: FinishedTestContext)
        ensures
            r.diagnostics@ == self.spec_diagnostics(),
            self.spec_coverage().spec_summary() is None ==> r.coverage is None,
            self.spec_coverage().spec_summary() matches Some(s) ==> (r.coverage matches Some(snap)
                && snap.spec_test_name() == self.spec_coverage().spec_test_name()
                && snap.spec_groups() == self.spec_coverage().spec_groups()
                && snap.spec_summary() == s),
    {
        FinishedTestContext { coverage: self.coverage.finish(), diagnostics: self.diagnostics }
    }
}

} // verus!

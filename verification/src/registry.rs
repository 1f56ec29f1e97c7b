use vstd::prelude::*;
use vstd::string::*;

use crate::coverage::identifier::{is_valid_test_name, valid_test_name};
use crate::random::ReplayToken;
use crate::result::{display_string, report_of, summary_text, TestResult};
use crate::text::{push_str, str_eq};
use crate::time::SimulationTime;

verus! {

/// Whether a registered test accepts replay configuration.
#[derive(Debug, Clone, Copy, PartialEq, Eq, Hash, Structural)]
pub enum TestKind {
    /// Runs the same way every time and rejects replay tokens.
    Deterministic,
    /// Accepts a replay token that selects its random stream.
    Replayable,
}

/// Lowercase name of a test kind.
pub open spec fn test_kind_text(k: TestKind) -> Seq<char> {
    match k {
        TestKind::Deterministic => "deterministic"@,
        TestKind::Replayable => "replayable"@,
    }
}

impl TestKind {
    /// Returns the lowercase kind name.
    pub fn text(self) -> (r: &'static str)
        ensures
            r@ == test_kind_text(self),
    {
        match self {
            TestKind::Deterministic => "deterministic",
            TestKind::Replayable => "replayable",
        }
    }
}

/// Final status of one test execution.
#[derive(Debug, Clone, Copy, PartialEq, Eq, Hash, Structural)]
pub enum TestStatus {
    /// Every check passed.
    Passed,
    /// A check failed.
    Failed,
    /// The run could not complete.
    Error,
}

/// Upper-case status label.
pub open spec fn status_label(s: TestStatus) -> Seq<char> {
    match s {
        TestStatus::Passed => "PASS"@,
        TestStatus::Failed => "FAIL"@,
        TestStatus::Error => "ERROR"@,
    }
}

impl TestStatus {
    /// Returns whether the status is passed.
    pub fn passed(self) -> (r: bool)
        ensures
            r == (self == TestStatus::Passed),
    {
        self == TestStatus::Passed
    }

    /// Returns the upper-case status label.
    pub fn text(self) -> (r: &'static str)
        ensures
            r@ == status_label(self),
    {
        match self {
            TestStatus::Passed => "PASS",
            TestStatus::Failed => "FAIL",
            TestStatus::Error => "ERROR",
        }
    }
}

/// Configuration of one test execution.
#[derive(Debug, Clone, Copy, Default, PartialEq, Eq)]
pub struct TestRunConfig {
    /// Replay token selecting a random stream, if any.
    pub replay_token: Option<ReplayToken>,
}

impl TestRunConfig {
    /// Creates a configuration without a replay token.
    pub fn new() -> (r: Self)
        ensures
            r.replay_token is None,
    {
        TestRunConfig { replay_token: None }
    }

    /// Sets the replay token.
    pub fn with_replay_token(self, replay_token: ReplayToken) -> (r: Self)
        ensures
            r.replay_token == Some(replay_token),
    {
        TestRunConfig { replay_token: Some(replay_token) }
    }

    /// Returns the configured replay token, or `default` when none is set.
    pub fn replay_token_or(&self, default: ReplayToken) -> (r: ReplayToken)
        ensures
            r == match self.replay_token {
                Some(t) => t,
                None => default,
            },
    {
        match self.replay_token {
            Some(t) => t,
            None => default,
        }
    }

    /// Returns the configured replay token.
    pub fn replay_token(&self) -> (r: Option<ReplayToken>)
        ensures
            r == self.replay_token,
    {
        self.replay_token
    }
}

/// Counts and times of one completed run.
#[derive(Debug, Clone, Copy, PartialEq, Eq)]
pub struct TestStatistics {
    /// Completed primary cycles.
    pub cycles: u64,
    /// Performed checks.
    pub checks: u64,
    /// Retained check failures.
    pub check_failures: usize,
    /// Start time.
    pub start_time: SimulationTime,
    /// Final time.
    pub final_time: SimulationTime,
    /// Whether the failure policy stopped the run.
    pub stopped_by_failure_policy: bool,
}

impl TestStatistics {
    /// Returns completed primary cycles.
    pub fn cycles(self) -> (r: u64)
        ensures
            r == self.cycles,
    {
        self.cycles
    }

    /// Returns performed checks.
    pub fn checks(self) -> (r: u64)
        ensures
            r == self.checks,
    {
        self.checks
    }

    /// Returns retained check failures.
    pub fn check_failures(self) -> (r: usize)
        ensures
            r == self.check_failures,
    {
        self.check_failures
    }

    /// Returns the start time.
    pub fn start_time(self) -> (r: SimulationTime)
        ensures
            r == self.start_time,
    {
        self.start_time
    }

    /// Returns the final time.
    pub fn final_time(self) -> (r: SimulationTime)
        ensures
            r == self.final_time,
    {
        self.final_time
    }

    /// Returns whether the failure policy stopped the run.
    pub fn stopped_by_failure_policy(self) -> (r: bool)
        ensures
            r == self.stopped_by_failure_policy,
    {
        self.stopped_by_failure_policy
    }
}

/// Type-erased outcome of one registered test execution.
#[derive(Debug)]
pub struct TestOutcome {
    status: TestStatus,
    statistics: Option<TestStatistics>,
    replay_token: Option<ReplayToken>,
    summary: String,
    report: String,
}

/// Status of a finished result: passed, error when the DUT failed, failed otherwise.
pub open spec fn result_status<S, F, E>(r: TestResult<S, F, E>) -> TestStatus {
    if r.spec_passed() {
        TestStatus::Passed
    } else if r.spec_simulation_error() is Some || r.spec_finalization_error() is Some {
        TestStatus::Error
    } else {
        TestStatus::Failed
    }
}

/// A run passes exactly when it has no check failure, no simulation error
/// and no finalization error. A run with a simulation or finalization error
/// has the error status; one with only check failures has the failed
/// status. The summary of a run starts with `PASS: ` when it passes and
/// with `FAIL: ` otherwise.
pub proof fn lemma_run_status<S, F, E>(r: TestResult<S, F, E>)
    ensures
        r.spec_simulation_error() is Some || r.spec_finalization_error() is Some ==> !r.spec_passed()
            && result_status(r) == TestStatus::Error && summary_text(r).take(6) == "FAIL: "@,
        r.spec_simulation_error() is None && r.spec_finalization_error() is None && r.spec_failures().len()
            > 0 ==> !r.spec_passed() && result_status(r) == TestStatus::Failed && summary_text(r).take(6)
            == "FAIL: "@,
        r.spec_simulation_error() is None && r.spec_finalization_error() is None && r.spec_failures().len()
            == 0 ==> r.spec_passed() && result_status(r) == TestStatus::Passed && summary_text(r).take(6)
            == "PASS: "@,
{
    reveal_strlit("PASS");
    reveal_strlit("FAIL");
    reveal_strlit(": ");
    reveal_strlit("PASS: ");
    reveal_strlit("FAIL: ");
    let status = if r.spec_passed() {
        "PASS"@
    } else {
        "FAIL"@
    };
    let t = summary_text(r);
    let head = status + ": "@;
    assert(t == head + t.skip(6)) by {
        assert(t =~= head + t.skip(6));
    }
    assert(t.take(6) =~= head);
    assert(head =~= if r.spec_passed() {
        "PASS: "@
    } else {
        "FAIL: "@
    });
}

/// `r` is the outcome of the finished run `result`: its status, statistics,
/// replay token, one-line summary, and a report that starts with the summary.
pub open spec fn run_outcome<S, F, E>(r: TestOutcome, result: TestResult<S, F, E>) -> bool {
    &&& r.spec_status() == result_status(result)
    &&& r.spec_statistics() == Some(
        TestStatistics {
            cycles: result.spec_cycles(),
            checks: result.spec_checks(),
            check_failures: result.spec_failures().len() as usize,
            start_time: result.spec_start_time(),
            final_time: result.spec_final_time(),
            stopped_by_failure_policy: result.spec_stopped(),
        },
    )
    &&& r.spec_replay_token() == result.spec_replay_token()
    &&& r.spec_summary() == summary_text(result)
    &&& report_of(result, r.spec_report())
}

/// `r` is the outcome of a run that could not execute, with error text `message`.
pub open spec fn error_text_outcome(r: TestOutcome, message: Seq<char>) -> bool {
    &&& r.spec_status() == TestStatus::Error
    &&& r.spec_statistics() is None
    &&& r.spec_summary() == "ERROR: "@ + message
    &&& r.spec_report() == "Test execution error:\n\n  error: "@ + message
}

/// `r` is the outcome of a run that could not execute, with some error text.
pub open spec fn error_outcome(r: TestOutcome) -> bool {
    exists|message: Seq<char>| #[trigger] error_text_outcome(r, message)
}

impl TestOutcome {
    /// Status.
    pub closed spec fn spec_status(&self) -> TestStatus {
        self.status
    }

    /// Statistics of a completed run.
    pub closed spec fn spec_statistics(&self) -> Option<TestStatistics> {
        self.statistics
    }

    /// Replay token.
    pub closed spec fn spec_replay_token(&self) -> Option<ReplayToken> {
        self.replay_token
    }

    /// One-line summary.
    pub closed spec fn spec_summary(&self) -> Seq<char> {
        self.summary@
    }

    /// Multi-line report.
    pub closed spec fn spec_report(&self) -> Seq<char> {
        self.report@
    }

    /// Builds the outcome of a finished run.
    pub fn from_result<S, F, E>(result: &TestResult<S, F, E>) -> (r: Self) where
        S: core::fmt::Debug,
        F: core::fmt::Display,
        E: core::fmt::Display,

        ensures
            run_outcome(r, *result),
    {
        let status = if result.passed() {
            TestStatus::Passed
        } else if result.simulation_error().is_some() || result.finalization_error().is_some() {
            TestStatus::Error
        } else {
            TestStatus::Failed
        };
        let statistics = TestStatistics {
            cycles: result.cycles(),
            checks: result.checks(),
            check_failures: result.failure_count(),
            start_time: result.start_time(),
            final_time: result.final_time(),
            stopped_by_failure_policy: result.stopped_by_failure_policy(),
        };
        TestOutcome {
            status,
            statistics: Some(statistics),
            replay_token: result.replay_token(),
            summary: result.summary(),
            report: result.detailed_report(),
        }
    }

    /// Builds the outcome of a run that could not execute, from its error text.
    pub fn error_message(message: &str) -> (r: Self)
        ensures
            r.spec_status() == TestStatus::Error,
            r.spec_statistics() is None,
            r.spec_replay_token() is None,
            r.spec_summary() == "ERROR: "@ + message@,
            r.spec_report() == "Test execution error:\n\n  error: "@ + message@,
    {
        let mut summary = String::new();
        push_str(&mut summary, "ERROR: ");
        push_str(&mut summary, message);
        let mut report = String::new();
        push_str(&mut report, "Test execution error:\n\n  error: ");
        push_str(&mut report, message);
        TestOutcome { status: TestStatus::Error, statistics: None, replay_token: None, summary, report }
    }

    /// Builds the outcome of a run that could not execute.
    pub fn error<T: core::fmt::Display>(error: T) -> (r: Self)
        ensures
            error_outcome(r),
            r.spec_replay_token() is None,
    {
        let message = display_string(&error);
        let r = Self::error_message(message.as_str());
        assert(error_text_outcome(r, message@));
        r
    }

    /// Attaches a replay token.
    pub fn with_replay_token(self, replay_token: ReplayToken) -> (r: Self)
        ensures
            r.spec_replay_token() == Some(replay_token),
            r.spec_status() == self.spec_status(),
            r.spec_statistics() == self.spec_statistics(),
            r.spec_summary() == self.spec_summary(),
            r.spec_report() == self.spec_report(),
    {
        TestOutcome { replay_token: Some(replay_token), ..self }
    }

    /// Returns the status.
    pub fn status(&self) -> (r: TestStatus)
        ensures
            r == self.spec_status(),
    {
        self.status
    }

    /// Returns whether the test passed.
    pub fn passed(&self) -> (r: bool)
        ensures
            r == (self.spec_status() == TestStatus::Passed),
    {
        self.status.passed()
    }

    /// Returns the statistics of a completed run.
    pub fn statistics(&self) -> (r: Option<TestStatistics>)
        ensures
            r == self.spec_statistics(),
    {
        self.statistics
    }

    /// Returns the replay token.
    pub fn replay_token(&self) -> (r: Option<ReplayToken>)
        ensures
            r == self.spec_replay_token(),
    {
        self.replay_token
    }

    /// Returns the one-line summary.
    pub fn summary(&self) -> (r: &str)
        ensures
            r@ == self.spec_summary(),
    {
        self.summary.as_str()
    }

    /// Returns the multi-line report.
    pub fn report(&self) -> (r: &str)
        ensures
            r@ == self.spec_report(),
    {
        self.report.as_str()
    }
}

/// Conversion of a test function's own return value into an outcome.
pub trait IntoTestOutcome {
    /// Converts into an outcome.
    fn into_test_outcome(self) -> TestOutcome;

    /// Converts into an outcome, attaching `replay` to errors.
    fn into_test_outcome_with_replay(self, replay: ReplayToken) -> TestOutcome;
}

impl<S, F, E, X> IntoTestOutcome for Result<TestResult<S, F, E>, X> where
    S: core::fmt::Debug,
    F: core::fmt::Display,
    E: core::fmt::Display,
    X: core::fmt::Display,
 {
    fn into_test_outcome(self) -> (r: TestOutcome)
        ensures
            match self {
                Ok(result) => run_outcome(r, result),
                Err(_) => error_outcome(r) && r.spec_replay_token() is None,
            },
    {
        match self {
            Ok(result) => TestOutcome::from_result(&result),
            Err(error) => TestOutcome::error(error),
        }
    }

    fn into_test_outcome_with_replay(self, replay: ReplayToken) -> (r: TestOutcome)
        ensures
            match self {
                Ok(result) => run_outcome(r, result),
                Err(_) => error_outcome(r) && r.spec_replay_token() == Some(replay),
            },
    {
        match self {
            Ok(result) => TestOutcome::from_result(&result),
            Err(error) => {
                let o = TestOutcome::error(error);
                let ghost m = choose|m: Seq<char>| #[trigger] error_text_outcome(o, m);
                let r = o.with_replay_token(replay);
                assert(error_text_outcome(r, m));
                r
            },
        }
    }
}

/// One registered test.
#[derive(Debug, Clone, Copy)]
pub struct TestDescriptor<F> {
    name: &'static str,
    description: &'static str,
    kind: TestKind,
    function: F,
}

impl<F> TestDescriptor<F> {
    /// Name.
    pub closed spec fn spec_name(&self) -> Seq<char> {
        self.name@
    }

    /// Description.
    pub closed spec fn spec_description(&self) -> Seq<char> {
        self.description@
    }

    /// Kind.
    pub closed spec fn spec_kind(&self) -> TestKind {
        self.kind
    }

    /// Test function.
    pub closed spec fn spec_function(&self) -> F {
        self.function
    }

    /// Describes a deterministic test.
    pub fn deterministic(name: &'static str, description: &'static str, function: F) -> (r: Self)
        ensures
            r.spec_name() == name@,
            r.spec_description() == description@,
            r.spec_kind() == TestKind::Deterministic,
            r.spec_function() == function,
    {
        TestDescriptor { name, description, kind: TestKind::Deterministic, function }
    }

    /// Describes a replayable test.
    pub fn replayable(name: &'static str, description: &'static str, function: F) -> (r: Self)
        ensures
            r.spec_name() == name@,
            r.spec_description() == description@,
            r.spec_kind() == TestKind::Replayable,
            r.spec_function() == function,
    {
        TestDescriptor { name, description, kind: TestKind::Replayable, function }
    }

    /// Returns the name.
    pub fn name(&self) -> (r: &'static str)
        ensures
            r@ == self.spec_name(),
    {
        self.name
    }

    /// Returns the description.
    pub fn description(&self) -> (r: &'static str)
        ensures
            r@ == self.spec_description(),
    {
        self.description
    }

    /// Returns the kind.
    pub fn kind(&self) -> (r: TestKind)
        ensures
            r == self.spec_kind(),
    {
        self.kind
    }
}

/// Invalid registry or run request.
#[derive(Debug, Clone, PartialEq, Eq)]
pub enum TestRegistryError {
    /// A registered name breaks the naming rule.
    InvalidName {
        /// Rejected name.
        name: &'static str,
    },
    /// Two registered tests share a name.
    DuplicateName {
        /// Repeated name.
        name: &'static str,
    },
    /// No test has the requested name.
    UnknownTest {
        /// Requested name.
        name: String,
    },
    /// A deterministic test was given a replay token.
    ReplayNotSupported {
        /// Test name.
        name: &'static str,
    },
}

/// Human-readable description of a registry error.
pub open spec fn registry_error_text(e: TestRegistryError) -> Seq<char> {
    match e {
        TestRegistryError::InvalidName { name } => "invalid registered test name `"@ + name@
            + "`"@,
        TestRegistryError::DuplicateName { name } => "duplicate registered test name `"@ + name@
            + "`"@,
        TestRegistryError::UnknownTest { name } => "unknown registered test "@ + name@,
        TestRegistryError::ReplayNotSupported { name } => "test `"@ + name@
            + "` does not accept replay configuration"@,
    }
}

impl TestRegistryError {
    /// Human-readable description of the error.
    pub fn message(&self) -> (r: String)
        ensures
            r@ == registry_error_text(*self),
    {
        let mut s = String::new();
        match self {
            TestRegistryError::InvalidName { name } => {
                push_str(&mut s, "invalid registered test name `");
                push_str(&mut s, name);
                push_str(&mut s, "`");
            },
            TestRegistryError::DuplicateName { name } => {
                push_str(&mut s, "duplicate registered test name `");
                push_str(&mut s, name);
                push_str(&mut s, "`");
            },
            TestRegistryError::UnknownTest { name } => {
                push_str(&mut s, "unknown registered test ");
                push_str(&mut s, name.as_str());
            },
            TestRegistryError::ReplayNotSupported { name } => {
                push_str(&mut s, "test `");
                push_str(&mut s, name);
                push_str(&mut s, "` does not accept replay configuration");
            },
        }
        s
    }
}

/// Whether an earlier test has the same name as test `i`.
pub open spec fn name_registered_before<F>(tests: Seq<TestDescriptor<F>>, i: int) -> bool {
    exists|j: int| 0 <= j < i && #[trigger] tests[j].spec_name() == tests[i].spec_name()
}

/// First test at or after `i` with an invalid name (`true`) or a repeated one (`false`).
pub open spec fn first_bad_test<F>(tests: Seq<TestDescriptor<F>>, i: int) -> Option<(int, bool)>
    decreases tests.len() - i,
{
    if i < 0 || i >= tests.len() {
        None
    } else if !valid_test_name(tests[i].spec_name()) {
        Some((i, true))
    } else if name_registered_before(tests, i) {
        Some((i, false))
    } else {
        first_bad_test(tests, i + 1)
    }
}

/// Index of the first test at or after `i` with the given name, or `-1`.
pub open spec fn find_test<F>(tests: Seq<TestDescriptor<F>>, name: Seq<char>, i: int) -> int
    decreases tests.len() - i,
{
    if i < 0 || i >= tests.len() {
        -1
    } else if tests[i].spec_name() == name {
        i
    } else {
        find_test(tests, name, i + 1)
    }
}

/// Validated set of uniquely named tests.
#[derive(Debug, Clone, Copy)]
pub struct TestRegistry<'a, F> {
    tests: &'a [TestDescriptor<F>],
}

/// One executed registered test.
#[derive(Debug)]
pub struct TestRun<'a, F> {
    test: &'a TestDescriptor<F>,
    outcome: TestOutcome,
}

impl<'a, F> TestRegistry<'a, F> {
    /// Registered tests.
    pub closed spec fn spec_tests(&self) -> Seq<TestDescriptor<F>> {
        self.tests@
    }

    /// Validates names and uniqueness of a set of tests.
    pub fn new(tests: &'a [TestDescriptor<F>]) -> (r: Result<Self, TestRegistryError>)
        ensures
            match first_bad_test(tests@, 0) {
                None => r matches Ok(reg) && reg.spec_tests() == tests@,
                Some((i, true)) => r matches Err(TestRegistryError::InvalidName { name }) && name@
                    == tests@[i].spec_name(),
                Some((i, false)) => r matches Err(TestRegistryError::DuplicateName { name })
                    && name@ == tests@[i].spec_name(),
            },
    {
        let mut i: usize = 0;
        while i < tests.len()
            invariant
                i <= tests@.len(),
                first_bad_test(tests@, 0) == first_bad_test(tests@, i as int),
            decreases tests@.len() - i,
        {
            if !is_valid_test_name(tests[i].name) {
                return Err(TestRegistryError::InvalidName { name: tests[i].name });
            }
            let mut j: usize = 0;
            while j < i
                invariant
                    i < tests@.len(),
                    j <= i,
                    first_bad_test(tests@, 0) == first_bad_test(tests@, i as int),
                    valid_test_name(tests@[i as int].spec_name()),
                    forall|q: int| 0 <= q < j ==> #[trigger] tests@[q].spec_name() != tests@[i as int].spec_name(),
                decreases i - j,
            {
                if str_eq(tests[j].name, tests[i].name) {
                    assert(tests@[j as int].spec_name() == tests@[i as int].spec_name());
                    assert(name_registered_before(tests@, i as int));
                    return Err(TestRegistryError::DuplicateName { name: tests[i].name });
                }
                j = j + 1;
            }
            i = i + 1;
        }
        Ok(TestRegistry { tests })
    }

    /// Returns the registered tests.
    pub fn tests(&self) -> (r: &'a [TestDescriptor<F>])
        ensures
            r@ == self.spec_tests(),
    {
        self.tests
    }

    /// Returns the number of registered tests.
    pub fn len(&self) -> (r: usize)
        ensures
            r == self.spec_tests().len(),
    {
        self.tests.len()
    }

    /// Returns whether no test is registered.
    pub fn is_empty(&self) -> (r: bool)
        ensures
            r == (self.spec_tests().len() == 0),
    {
        self.tests.len() == 0
    }

    /// Finds a registered test by name.
    pub fn find(&self, name: &str) -> (r: Option<&'a TestDescriptor<F>>)
        ensures
            find_test(self.spec_tests(), name@, 0) < 0 ==> r is None,
            find_test(self.spec_tests(), name@, 0) >= 0 ==> r == Some(
                &self.spec_tests()[find_test(self.spec_tests(), name@, 0)],
            ),
    {
        let mut i: usize = 0;
        while i < self.tests.len()
            invariant
                i <= self.tests@.len(),
                find_test(self.tests@, name@, 0) == find_test(self.tests@, name@, i as int),
            decreases self.tests@.len() - i,
        {
            if str_eq(self.tests[i].name, name) {
                return Some(&self.tests[i]);
            }
            i = i + 1;
        }
        None
    }

    /// Decides whether a run request may proceed, and which test it runs.
    pub fn select(&self, name: &str, config: &TestRunConfig) -> (r: Result<
        &'a TestDescriptor<F>,
        TestRegistryError,
    >)
        ensures
            ({
                let i = find_test(self.spec_tests(), name@, 0);
                if i < 0 {
                    r matches Err(TestRegistryError::UnknownTest { name: n }) && n@ == name@
                } else if config.replay_token is Some && self.spec_tests()[i].spec_kind()
                    == TestKind::Deterministic {
                    r matches Err(TestRegistryError::ReplayNotSupported { name: n }) && n@
                        == self.spec_tests()[i].spec_name()
                } else {
                    r == Ok::<&TestDescriptor<F>, TestRegistryError>(&self.spec_tests()[i])
                }
            }),
    {
        let test = match self.find(name) {
            Some(t) => t,
            None => {
                return Err(TestRegistryError::UnknownTest { name: String::from_str(name) });
            },
        };
        if config.replay_token.is_some() && test.kind == TestKind::Deterministic {
            return Err(TestRegistryError::ReplayNotSupported { name: test.name });
        }
        Ok(test)
    }
}

impl<'a, F: Fn(&TestRunConfig) -> TestOutcome> TestRegistry<'a, F> {
    /// Runs one registered test by name.
    pub fn run(&self, name: &str, config: &TestRunConfig) -> (r: Result<
        TestRun<'a, F>,
        TestRegistryError,
    >)
        requires
            forall|i: int, c: &TestRunConfig|
                0 <= i < self.spec_tests().len() ==> #[trigger] self.spec_tests()[i].spec_function().requires(
                    (c,),
                ),
        ensures
            ({
                let i = find_test(self.spec_tests(), name@, 0);
                if i < 0 {
                    r matches Err(TestRegistryError::UnknownTest { name: n }) && n@ == name@
                } else if config.replay_token is Some && self.spec_tests()[i].spec_kind()
                    == TestKind::Deterministic {
                    r matches Err(TestRegistryError::ReplayNotSupported { name: n }) && n@
                        == self.spec_tests()[i].spec_name()
                } else {
                    r matches Ok(run) && run.spec_test() == self.spec_tests()[i] && call_ensures(
                        self.spec_tests()[i].spec_function(),
                        (config,),
                        run.spec_outcome(),
                    )
                }
            }),
    {
        let test = match self.select(name, config) {
            Ok(t) => t,
            Err(e) => {
                return Err(e);
            },
        };
        proof {
            let i = find_test(self.spec_tests(), name@, 0);
            lemma_find_test_range(self.spec_tests(), name@, 0);
            assert(self.spec_tests()[i].spec_function().requires((config,)));
        }
        let outcome = (test.function)(config);
        Ok(TestRun { test, outcome })
    }
}

/// A found test index lies within the registry.
proof fn lemma_find_test_range<F>(tests: Seq<TestDescriptor<F>>, name: Seq<char>, i: int)
    requires
        0 <= i,
    ensures
        -1 <= find_test(tests, name, i) < tests.len(),
    decreases tests.len() - i,
{
    if i < tests.len() && tests[i].spec_name() != name {
        lemma_find_test_range(tests, name, i + 1);
    }
}

impl<'a, F> TestRun<'a, F> {
    /// Executed test.
    pub closed spec fn spec_test(&self) -> TestDescriptor<F> {
        *self.test
    }

    /// Outcome.
    pub closed spec fn spec_outcome(&self) -> TestOutcome {
        self.outcome
    }

    /// Returns the executed test.
    pub fn test(&self) -> (r: &'a TestDescriptor<F>)
        ensures
            *r == self.spec_test(),
    {
        self.test
    }

    /// Returns the outcome status.
    pub fn status(&self) -> (r: TestStatus)
        ensures
            r == self.spec_outcome().spec_status(),
    {
        self.outcome.status()
    }

    /// Returns whether the test passed.
    pub fn passed(&self) -> (r: bool)
        ensures
            r == (self.spec_outcome().spec_status() == TestStatus::Passed),
    {
        self.outcome.passed()
    }

    /// Returns the outcome.
    pub fn outcome(&self) -> (r: &TestOutcome)
        ensures
            *r == self.spec_outcome(),
    {
        &self.outcome
    }

    /// Returns the owned outcome.
    pub fn into_outcome(self) -> (r: TestOutcome)
        ensures
            r == self.spec_outcome(),
    {
        self.outcome
    }

    /// Returns `name: summary`.
    pub fn to_text(&self) -> (r: String)
        ensures
            r@ == self.spec_test().spec_name() + ": "@ + self.spec_outcome().spec_summary(),
    {
        let mut s = String::new();
        push_str(&mut s, self.test.name);
        push_str(&mut s, ": ");
        push_str(&mut s, self.outcome.summary());
        s
    }
}

} // verus!

use vvm_core::{
    CheckFailure, ReplayToken, Seed, SimulationError, SimulationStage, SimulationTime,
    TestDescriptor, TestKind, TestOutcome, TestRegistry, TestRegistryError, TestResult,
    TestRunConfig, TestStatus,
};

fn passing(_config: &TestRunConfig) -> TestOutcome {
    let result: TestResult<u8, String, String> = TestResult::new(SimulationTime::zero(), None);
    TestOutcome::from_result(&result)
}

fn failing(_config: &TestRunConfig) -> TestOutcome {
    TestOutcome::error("boom")
}

type TestFn = fn(&TestRunConfig) -> TestOutcome;

#[test]
fn registry_validates_names_and_runs_tests() {
    let tests: [TestDescriptor<TestFn>; 2] = [
        TestDescriptor::deterministic("alpha", "first", passing as TestFn),
        TestDescriptor::replayable("beta", "second", failing as TestFn),
    ];
    let registry = TestRegistry::new(&tests).expect("valid registry");
    assert_eq!(registry.len(), 2);
    assert!(!registry.is_empty());
    assert_eq!(registry.find("beta").map(|t| t.kind()), Some(TestKind::Replayable));
    assert!(registry.find("gamma").is_none());

    let run = registry.run("alpha", &TestRunConfig::new()).expect("runs");
    assert!(run.passed());
    assert_eq!(run.status(), TestStatus::Passed);
    assert_eq!(run.to_text(), "alpha: PASS: 0 cycles, 0 checks, 0 check failures, time 0..0 ticks");

    let replay = TestRunConfig::new().with_replay_token(ReplayToken::new(Seed::new(1)));
    assert_eq!(
        registry.run("alpha", &replay).map(|_| ()),
        Err(TestRegistryError::ReplayNotSupported { name: "alpha" })
    );
    let run = registry.run("beta", &replay).expect("replayable");
    assert_eq!(run.status(), TestStatus::Error);
    assert_eq!(run.outcome().summary(), "ERROR: boom");
    assert_eq!(run.into_outcome().report(), "Test execution error:\n\n  error: boom");
    match registry.run("gamma", &TestRunConfig::new()) {
        Err(error) => assert_eq!(error.message(), "unknown registered test gamma"),
        Ok(_) => panic!("unknown test must fail"),
    }
}

#[test]
fn registry_rejects_invalid_and_duplicate_names() {
    let bad: [TestDescriptor<TestFn>; 1] = [TestDescriptor::deterministic("Bad", "", passing as TestFn)];
    assert_eq!(
        TestRegistry::new(&bad).map(|_| ()),
        Err(TestRegistryError::InvalidName { name: "Bad" })
    );
    let dup: [TestDescriptor<TestFn>; 2] = [
        TestDescriptor::deterministic("same", "", passing as TestFn),
        TestDescriptor::deterministic("same", "", passing as TestFn),
    ];
    let error = TestRegistry::new(&dup).map(|_| ()).unwrap_err();
    assert_eq!(error, TestRegistryError::DuplicateName { name: "same" });
    assert_eq!(error.message(), "duplicate registered test name `same`");
}

#[test]
fn run_config_prefers_explicit_replay_token() {
    let default = ReplayToken::new(Seed::new(5));
    let chosen = ReplayToken::new(Seed::new(6));
    assert_eq!(TestRunConfig::new().replay_token_or(default), default);
    assert_eq!(TestRunConfig::new().with_replay_token(chosen).replay_token_or(default), chosen);
    assert_eq!(TestRunConfig::default().replay_token(), None);
}

#[test]
fn result_summary_and_report_describe_failures() {
    let mut result: TestResult<u8, String, String> =
        TestResult::new(SimulationTime::from_ticks(2), Some(ReplayToken::new(Seed::new(255))));
    result.record_check();
    result.record_failure(CheckFailure::new(0, SimulationTime::from_ticks(3), 7, "mismatch".to_string()));
    result.mark_stopped_by_failure_policy();
    result.record_simulation_error(SimulationError::new_for_clock(
        1,
        SimulationTime::from_ticks(4),
        SimulationStage::DriveClockActive,
        "clk".to_string(),
        "backend".to_string(),
    ));
    result.record_final_time(SimulationTime::from_ticks(9));
    assert!(!result.passed());
    assert_eq!(
        result.summary(),
        "FAIL: 1 cycle, 1 check, 1 check failure, time 2..9 ticks, stopped by failure policy, simulation error on clock `clk`, replay token chacha8-v1:00000000000000ff"
    );
    let report = result.detailed_report();
    assert!(report.starts_with(&result.summary()));
    assert!(report.contains("\n\n  [1] primary cycle 0 at 3 ticks\n      stimulus: 7\n      error: mismatch"));
    assert!(report.contains("\n  clock: clk\n  error: backend"));
    let outcome = TestOutcome::from_result(&result);
    assert_eq!(outcome.status(), TestStatus::Error);
    assert_eq!(outcome.statistics().map(|s| s.check_failures()), Some(1));
    let error = result.simulation_error().expect("simulation error");
    assert_eq!(
        error.message_with("backend"),
        "simulation failed during primary cycle 1 at 4 ticks while driving clock `clk` active: backend"
    );
}

#[test]
fn record_check_saturates() {
    let mut result: TestResult<u8, String, String> = TestResult::new(SimulationTime::zero(), None);
    result.record_check();
    result.record_check();
    assert_eq!((result.cycles(), result.checks()), (2, 2));
    assert!(result.passed());
    let failures = result.into_failures();
    assert!(failures.is_empty());
}

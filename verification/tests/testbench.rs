use vvm_core::{
    record_check_outcome, Clock, Drive, Dut, ExactScoreboard, FailurePolicy, ReferenceModel,
    Sample, SimulationStage, SimulationTime, TestResult, Testbench, TimeStep,
};

/// A register that loads its input on the active clock edge.
struct Register {
    input: u8,
    output: u8,
    clock_high: bool,
    time: u64,
    fail_sample_at: Option<u64>,
}

impl Dut for Register {
    type Error = String;

    fn evaluate(&mut self) -> Result<(), String> {
        Ok(())
    }

    fn simulation_time(&self) -> SimulationTime {
        SimulationTime::from_ticks(self.time)
    }

    fn advance_time(&mut self, delta: TimeStep) -> Result<(), String> {
        self.time += delta.get();
        Ok(())
    }

    fn finalize(&mut self) -> Result<(), String> {
        Ok(())
    }
}

struct RegisterClock;

impl Clock<Register> for RegisterClock {
    fn drive_inactive(&mut self, dut: &mut Register) -> Result<(), String> {
        dut.clock_high = false;
        Ok(())
    }

    fn drive_active(&mut self, dut: &mut Register) -> Result<(), String> {
        dut.clock_high = true;
        dut.output = dut.input;
        Ok(())
    }
}

#[derive(Debug, Clone, Copy, PartialEq)]
struct Load(u8);

impl Drive<Register> for Load {
    fn drive(&self, dut: &mut Register) -> Result<(), String> {
        dut.input = self.0;
        Ok(())
    }
}

#[derive(Debug, Clone, Copy, PartialEq)]
struct Output(u8);

impl Sample<Register> for Output {
    fn sample(dut: &Register) -> Result<Self, String> {
        if dut.fail_sample_at == Some(dut.time) {
            return Err("sample failed".to_string());
        }
        Ok(Output(dut.output))
    }
}

/// Predicts the loaded value, or a wrong one for `wrong`.
struct Model {
    wrong: u8,
}

impl ReferenceModel<Load> for Model {
    type Expected = Output;

    fn predict(&mut self, stimulus: &Load) -> Output {
        if stimulus.0 == self.wrong {
            Output(stimulus.0.wrapping_add(1))
        } else {
            Output(stimulus.0)
        }
    }
}

fn register(fail_sample_at: Option<u64>) -> Register {
    Register { input: 0, output: 0, clock_high: false, time: 0, fail_sample_at }
}

#[test]
fn testbench_checks_every_stimulus() {
    let result = Testbench::new(register(None))
        .with_sequence(vec![Load(1), Load(2), Load(3)])
        .with_reference_model(Model { wrong: 99 })
        .with_scoreboard(ExactScoreboard)
        .with_clock(RegisterClock)
        .run::<Output>();
    assert!(result.passed());
    assert_eq!(result.cycles(), 3);
    assert_eq!(result.checks(), 3);
    assert_eq!(result.failure_count(), 0);
    assert_eq!(result.final_time(), SimulationTime::from_ticks(6));
}

#[test]
fn testbench_stops_on_first_failure() {
    let result = Testbench::new(register(None))
        .with_sequence(vec![Load(1), Load(2), Load(3)])
        .with_reference_model(Model { wrong: 2 })
        .with_scoreboard(ExactScoreboard)
        .with_clock(RegisterClock)
        .run::<Output>();
    assert!(!result.passed());
    assert_eq!(result.cycles(), 2);
    assert_eq!(result.failure_count(), 1);
    assert_eq!(result.failures()[0].cycle(), 1);
    assert_eq!(*result.failures()[0].stimulus(), Load(2));
    assert!(result.stopped_by_failure_policy());
}

#[test]
fn testbench_collects_failures_up_to_the_limit() {
    let result = Testbench::new(register(None))
        .with_sequence(vec![Load(2), Load(1), Load(2)])
        .with_reference_model(Model { wrong: 2 })
        .with_scoreboard(ExactScoreboard)
        .with_clock(RegisterClock)
        .with_failure_policy(FailurePolicy::collect_up_to(5).expect("limit"))
        .run::<Output>();
    assert_eq!(result.cycles(), 3);
    assert_eq!(result.failure_count(), 2);
    assert_eq!(result.failures()[0].cycle(), 0);
    assert_eq!(result.failures()[1].cycle(), 2);
    assert!(!result.stopped_by_failure_policy());
}

#[test]
fn testbench_records_sampling_errors() {
    let result = Testbench::new(register(Some(3)))
        .with_sequence(vec![Load(1), Load(2), Load(3)])
        .with_reference_model(Model { wrong: 99 })
        .with_scoreboard(ExactScoreboard)
        .with_clock(RegisterClock)
        .run::<Output>();
    assert_eq!(result.cycles(), 1);
    let error = result.simulation_error().expect("simulation error");
    assert_eq!(error.stage(), SimulationStage::Sample);
    assert_eq!(error.cycle(), 1);
}

#[test]
fn testbench_without_stimulus_runs_no_cycle() {
    let result = Testbench::new(register(None))
        .with_sequence(Vec::<Load>::new())
        .with_reference_model(Model { wrong: 99 })
        .with_scoreboard(ExactScoreboard)
        .with_clock(RegisterClock)
        .run::<Output>();
    assert!(result.passed());
    assert_eq!(result.cycles(), 0);
}

#[test]
fn check_outcomes_count_keep_failures_and_stop_at_the_limit() {
    let policy = FailurePolicy::collect_up_to(2).expect("limit");
    let mut result: TestResult<u8, String, String> = TestResult::new(SimulationTime::zero(), None);
    let stop = record_check_outcome(&mut result, 0, SimulationTime::from_ticks(1), 7, Ok(()), policy);
    assert!(!stop);
    assert_eq!(result.cycles(), 1);
    assert_eq!(result.checks(), 1);
    assert_eq!(result.failure_count(), 0);
    let stop = record_check_outcome(
        &mut result,
        1,
        SimulationTime::from_ticks(3),
        8,
        Err("bad".to_string()),
        policy,
    );
    assert!(!stop);
    assert!(!result.stopped_by_failure_policy());
    assert_eq!(result.failure_count(), 1);
    assert_eq!(result.failures()[0].cycle(), 1);
    assert_eq!(*result.failures()[0].stimulus(), 8);
    let stop = record_check_outcome(
        &mut result,
        2,
        SimulationTime::from_ticks(5),
        9,
        Err("worse".to_string()),
        policy,
    );
    assert!(stop);
    assert!(result.stopped_by_failure_policy());
    assert_eq!(result.cycles(), 3);
    assert_eq!(result.checks(), 3);
    assert_eq!(result.failure_count(), 2);
}

use vstd::prelude::*;
use vstd::string::*;

use crate::clock::{ClockScheduler, ClockTiming};
use crate::dut::{Clock, Drive, Dut, ReferenceModel, Sample};
use crate::failure_policy::FailurePolicy;
use crate::random::{ReplayToken, ReplayableSequence};
use crate::result::{CheckFailure, SimulationError, SimulationStage, TestResult};
use crate::scoreboard::Scoreboard;
use crate::time::{CycleTiming, SimulationTime, TimeStep};

verus! {

/// Marker for an unconfigured testbench component.
#[derive(Debug, Clone, Copy, Default, PartialEq, Eq)]
pub struct Unconfigured;

/// The primary clock of a testbench: its name, driver and timing.
pub struct PrimaryClock<K> {
    name: String,
    driver: K,
    timing: ClockTiming,
}

impl<K> PrimaryClock<K> {
    /// Clock name.
    pub closed spec fn spec_name(&self) -> Seq<char> {
        self.name@
    }

    /// Clock timing.
    pub closed spec fn spec_timing(&self) -> ClockTiming {
        self.timing
    }

    /// Creates a named primary clock with its timing.
    pub fn new(name: &str, driver: K, timing: ClockTiming) -> (r: Self)
        ensures
            r.spec_name() == name@,
            r.spec_timing() == timing,
    {
        PrimaryClock { name: String::from_str(name), driver, timing }
    }
}

/// Synchronous testbench with concrete component types.
pub struct Testbench<D, S = Unconfigured, R = Unconfigured, B = Unconfigured, C = Unconfigured> {
    dut: D,
    sequence: S,
    reference_model: R,
    scoreboard: B,
    clocks: C,
    failure_policy: FailurePolicy,
    primary_cycle_timing: Option<CycleTiming>,
    replay_token: Option<ReplayToken>,
}

impl<D, S, R, B, C> Testbench<D, S, R, B, C> {
    /// Stimulus sequence.
    pub closed spec fn spec_sequence(&self) -> S {
        self.sequence
    }

    /// Check-failure policy.
    pub closed spec fn spec_failure_policy(&self) -> FailurePolicy {
        self.failure_policy
    }

    /// Replay token of the sequence.
    pub closed spec fn spec_replay_token(&self) -> Option<ReplayToken> {
        self.replay_token
    }

    /// Override of the primary clock's recurring timing.
    pub closed spec fn spec_primary_cycle_timing(&self) -> Option<CycleTiming> {
        self.primary_cycle_timing
    }

    /// Clock configuration.
    pub closed spec fn spec_clocks(&self) -> C {
        self.clocks
    }
}

impl<D> Testbench<D> {
    /// Creates a testbench around the supplied DUT; it stops on the first
    /// check failure.
    pub fn new(dut: D) -> (r: Self)
        ensures
            r.spec_failure_policy()@ == 1,
            r.spec_replay_token() is None,
            r.spec_primary_cycle_timing() is None,
    {
        Testbench {
            dut,
            sequence: Unconfigured,
            reference_model: Unconfigured,
            scoreboard: Unconfigured,
            clocks: Unconfigured,
            failure_policy: FailurePolicy::stop_on_first(),
            primary_cycle_timing: None,
            replay_token: None,
        }
    }
}

impl<D, S, R, B, C> Testbench<D, S, R, B, C> {
    /// Configures the stimulus sequence; it has no replay token.
    pub fn with_sequence<NS>(self, sequence: NS) -> (r: Testbench<D, NS, R, B, C>)
        ensures
            r.spec_sequence() == sequence,
            r.spec_replay_token() is None,
            r.spec_failure_policy() == self.spec_failure_policy(),
            r.spec_primary_cycle_timing() == self.spec_primary_cycle_timing(),
    {
        Testbench {
            dut: self.dut,
            sequence,
            reference_model: self.reference_model,
            scoreboard: self.scoreboard,
            clocks: self.clocks,
            failure_policy: self.failure_policy,
            primary_cycle_timing: self.primary_cycle_timing,
            replay_token: None,
        }
    }

    /// Configures a replayable sequence and records its replay token.
    pub fn with_replayable_sequence<NS: ReplayableSequence>(self, sequence: NS) -> (r: Testbench<
        D,
        NS,
        R,
        B,
        C,
    >)
        ensures
            r.spec_sequence() == sequence,
            r.spec_replay_token() is Some,
            r.spec_failure_policy() == self.spec_failure_policy(),
            r.spec_primary_cycle_timing() == self.spec_primary_cycle_timing(),
    {
        let replay_token = Some(sequence.replay_token());
        Testbench {
            dut: self.dut,
            sequence,
            reference_model: self.reference_model,
            scoreboard: self.scoreboard,
            clocks: self.clocks,
            failure_policy: self.failure_policy,
            primary_cycle_timing: self.primary_cycle_timing,
            replay_token,
        }
    }

    /// Configures the reference model.
    pub fn with_reference_model<NR>(self, reference_model: NR) -> (r: Testbench<D, S, NR, B, C>)
        ensures
            r.spec_sequence() == self.spec_sequence(),
            r.spec_replay_token() == self.spec_replay_token(),
            r.spec_failure_policy() == self.spec_failure_policy(),
            r.spec_primary_cycle_timing() == self.spec_primary_cycle_timing(),
    {
        Testbench {
            dut: self.dut,
            sequence: self.sequence,
            reference_model,
            scoreboard: self.scoreboard,
            clocks: self.clocks,
            failure_policy: self.failure_policy,
            primary_cycle_timing: self.primary_cycle_timing,
            replay_token: self.replay_token,
        }
    }

    /// Configures the scoreboard.
    pub fn with_scoreboard<NB>(self, scoreboard: NB) -> (r: Testbench<D, S, R, NB, C>)
        ensures
            r.spec_sequence() == self.spec_sequence(),
            r.spec_replay_token() == self.spec_replay_token(),
            r.spec_failure_policy() == self.spec_failure_policy(),
            r.spec_primary_cycle_timing() == self.spec_primary_cycle_timing(),
    {
        Testbench {
            dut: self.dut,
            sequence: self.sequence,
            reference_model: self.reference_model,
            scoreboard,
            clocks: self.clocks,
            failure_policy: self.failure_policy,
            primary_cycle_timing: self.primary_cycle_timing,
            replay_token: self.replay_token,
        }
    }

    /// Configures the primary clock, named `clk`, with unit timing.
    pub fn with_clock<NC: Clock<D>>(self, clock: NC) -> (r: Testbench<D, S, R, B, PrimaryClock<NC>>)
        where
            D: Dut,

        ensures
            r.spec_sequence() == self.spec_sequence(),
            r.spec_replay_token() == self.spec_replay_token(),
            r.spec_failure_policy() == self.spec_failure_policy(),
            r.spec_primary_cycle_timing() == self.spec_primary_cycle_timing(),
    {
        Testbench {
            dut: self.dut,
            sequence: self.sequence,
            reference_model: self.reference_model,
            scoreboard: self.scoreboard,
            clocks: PrimaryClock::new("clk", clock, ClockTiming::unit()),
            failure_policy: self.failure_policy,
            primary_cycle_timing: self.primary_cycle_timing,
            replay_token: self.replay_token,
        }
    }

    /// Configures independently timed primary and secondary clocks.
    pub fn with_clocks(self, clocks: ClockScheduler) -> (r: Testbench<D, S, R, B, ClockScheduler>)
        ensures
            r.spec_clocks() == clocks,
            r.spec_sequence() == self.spec_sequence(),
            r.spec_replay_token() == self.spec_replay_token(),
            r.spec_failure_policy() == self.spec_failure_policy(),
            r.spec_primary_cycle_timing() == self.spec_primary_cycle_timing(),
    {
        Testbench {
            dut: self.dut,
            sequence: self.sequence,
            reference_model: self.reference_model,
            scoreboard: self.scoreboard,
            clocks,
            failure_policy: self.failure_policy,
            primary_cycle_timing: self.primary_cycle_timing,
            replay_token: self.replay_token,
        }
    }

    /// Configures a named primary clock with its own timing.
    pub fn with_primary_clock<NC: Clock<D>>(self, clock: PrimaryClock<NC>) -> (r: Testbench<
        D,
        S,
        R,
        B,
        PrimaryClock<NC>,
    >)
        where
            D: Dut,

        ensures
            r.spec_sequence() == self.spec_sequence(),
            r.spec_replay_token() == self.spec_replay_token(),
            r.spec_failure_policy() == self.spec_failure_policy(),
            r.spec_primary_cycle_timing() == self.spec_primary_cycle_timing(),
    {
        Testbench {
            dut: self.dut,
            sequence: self.sequence,
            reference_model: self.reference_model,
            scoreboard: self.scoreboard,
            clocks: clock,
            failure_policy: self.failure_policy,
            primary_cycle_timing: self.primary_cycle_timing,
            replay_token: self.replay_token,
        }
    }

    /// Configures check-failure collection and stopping behaviour.
    pub fn with_failure_policy(self, failure_policy: FailurePolicy) -> (r: Self)
        ensures
            r.spec_sequence() == self.spec_sequence(),
            r.spec_replay_token() == self.spec_replay_token(),
            r.spec_failure_policy() == failure_policy,
            r.spec_primary_cycle_timing() == self.spec_primary_cycle_timing(),
    {
        Testbench { failure_policy, ..self }
    }

    /// Overrides the recurring timing of the primary clock.
    pub fn with_primary_cycle_timing(self, cycle_timing: CycleTiming) -> (r: Self)
        ensures
            r.spec_sequence() == self.spec_sequence(),
            r.spec_replay_token() == self.spec_replay_token(),
            r.spec_failure_policy() == self.spec_failure_policy(),
            r.spec_primary_cycle_timing() == Some(cycle_timing),
    {
        Testbench { primary_cycle_timing: Some(cycle_timing), ..self }
    }

    /// Overrides the recurring timing of the primary clock.
    pub fn with_cycle_timing(self, cycle_timing: CycleTiming) -> (r: Self)
        ensures
            r.spec_sequence() == self.spec_sequence(),
            r.spec_replay_token() == self.spec_replay_token(),
            r.spec_failure_policy() == self.spec_failure_policy(),
            r.spec_primary_cycle_timing() == Some(cycle_timing),
    {
        self.with_primary_cycle_timing(cycle_timing)
    }
}

/// Check failures recorded at strictly increasing primary cycles, each with
/// the stimulus of its cycle.
pub open spec fn failures_in_order<T, F>(fs: Seq<CheckFailure<T, F>>, sequence: Seq<T>) -> bool {
    &&& forall|a: int, b: int| 0 <= a < b < fs.len() ==> fs[a].cycle < fs[b].cycle
    &&& forall|k: int|
        0 <= k < fs.len() ==> fs[k].cycle < sequence.len() && (#[trigger] fs[k]).stimulus
            == sequence[fs[k].cycle as int]
}

/// Bookkeeping that a run keeps: one cycle per check, at most the policy's
/// number of failures, failures in cycle order, and the replay token.
pub open spec fn run_bookkeeping<T, F, E>(
    r: TestResult<T, F, E>,
    sequence: Seq<T>,
    policy: FailurePolicy,
    replay_token: Option<ReplayToken>,
) -> bool {
    &&& r.spec_checks() == r.spec_cycles()
    &&& r.spec_cycles() <= sequence.len()
    &&& r.spec_failures().len() <= policy@
    &&& r.spec_stopped() ==> r.spec_failures().len() == policy@
    &&& failures_in_order(r.spec_failures(), sequence)
    &&& r.spec_replay_token() == replay_token
}

/// Records the outcome of the scoreboard's check of cycle `cycle`: counts the
/// cycle and the check, keeps a failure with its stimulus and time, and says
/// whether the failure policy now stops the run (marking the result so).
pub fn record_check_outcome<T, F, E>(
    result: &mut TestResult<T, F, E>,
    cycle: u64,
    time: SimulationTime,
    stimulus: T,
    outcome: Result<(), F>,
    policy: FailurePolicy,
) -> (stop: bool)
    ensures
        final(result).spec_cycles() == if old(result).spec_cycles() < u64::MAX {
            old(result).spec_cycles() + 1
        } else {
            old(result).spec_cycles() as int
        },
        final(result).spec_checks() == if old(result).spec_checks() < u64::MAX {
            old(result).spec_checks() + 1
        } else {
            old(result).spec_checks() as int
        },
        match outcome {
            Ok(()) => !stop && final(result).spec_failures() == old(result).spec_failures(),
            Err(error) => final(result).spec_failures() == old(result).spec_failures().push(
                CheckFailure { cycle, time, stimulus, error },
            ) && stop == (final(result).spec_failures().len() >= policy@),
        },
        final(result).spec_stopped() == (old(result).spec_stopped() || stop),
        final(result).spec_simulation_error() == old(result).spec_simulation_error(),
        final(result).spec_finalization_error() == old(result).spec_finalization_error(),
        final(result).spec_start_time() == old(result).spec_start_time(),
        final(result).spec_final_time() == old(result).spec_final_time(),
        final(result).spec_replay_token() == old(result).spec_replay_token(),
{
    result.record_check();
    match outcome {
        Ok(()) => false,
        Err(error) => {
            result.record_failure(CheckFailure::new(cycle, time, stimulus, error));
            if policy.should_stop(result.failure_count()) {
                result.mark_stopped_by_failure_policy();
                true
            } else {
                false
            }
        },
    }
}

/// Records a simulation error raised at `stage`, naming the clock for clock stages.
fn record_stage_failure<T, F, E>(
    result: &mut TestResult<T, F, E>,
    cycle: u64,
    time: SimulationTime,
    stage: SimulationStage,
    clock_name: Option<&str>,
    source: E,
)
    ensures
        final(result).spec_failures() == old(result).spec_failures(),
        final(result).spec_cycles() == old(result).spec_cycles(),
        final(result).spec_checks() == old(result).spec_checks(),
        final(result).spec_stopped() == old(result).spec_stopped(),
        final(result).spec_replay_token() == old(result).spec_replay_token(),
        final(result).spec_simulation_error() matches Some(e) && e.cycle == cycle && e.time == time
            && e.stage == stage,
        final(result).spec_start_time() == old(result).spec_start_time(),
{
    let error = match clock_name {
        Some(name) => SimulationError::new_for_clock(cycle, time, stage, String::from_str(name), source),
        None => SimulationError::new(cycle, time, stage, source),
    };
    result.record_simulation_error(error);
}

/// Finalizes the DUT and records its final time, and its error if finalization fails.
fn finalize_and_record<D: Dut, T, F>(dut: &mut D, result: &mut TestResult<T, F, D::Error>)
    ensures
        final(result).spec_failures() == old(result).spec_failures(),
        final(result).spec_cycles() == old(result).spec_cycles(),
        final(result).spec_checks() == old(result).spec_checks(),
        final(result).spec_stopped() == old(result).spec_stopped(),
        final(result).spec_replay_token() == old(result).spec_replay_token(),
        final(result).spec_simulation_error() == old(result).spec_simulation_error(),
        final(result).spec_start_time() == old(result).spec_start_time(),
        D::keeps_time() ==> final(result).spec_final_time() == old(dut).spec_time(),
{
    match dut.finalize() {
        Ok(()) => {},
        Err(error) => {
            result.record_finalization_error(error);
        },
    }
    let t = dut.simulation_time();
    result.record_final_time(t);
}

/// A runner stage's DUT error, with its stage and the clock it concerns.
struct StageError<E> {
    stage: SimulationStage,
    clock: bool,
    source: E,
}

/// Drives the primary clock inactive, the stimulus, and evaluates.
fn start_transaction<D: Dut, T: Drive<D>, K: Clock<D>>(
    dut: &mut D,
    clock: &mut K,
    stimulus: &T,
) -> (r: Result<(), StageError<D::Error>>)
    ensures
        r matches Err(e) ==> (e.stage == SimulationStage::DriveClockInactive && e.clock) || (
        e.stage == SimulationStage::DriveStimulus && !e.clock) || (e.stage
            == SimulationStage::EvaluateInactive && !e.clock),
        D::keeps_time() && T::drive_keeps_time() && K::clock_keeps_time() && r is Ok
            ==> final(dut).spec_time() == old(dut).spec_time(),
{
    match clock.drive_inactive(dut) {
        Ok(()) => {},
        Err(source) => {
            return Err(StageError { stage: SimulationStage::DriveClockInactive, clock: true, source });
        },
    }
    match stimulus.drive(dut) {
        Ok(()) => {},
        Err(source) => {
            return Err(StageError { stage: SimulationStage::DriveStimulus, clock: false, source });
        },
    }
    match dut.evaluate() {
        Ok(()) => Ok(()),
        Err(source) => Err(StageError { stage: SimulationStage::EvaluateInactive, clock: false, source }),
    }
}

/// Advances through the inactive phase, drives the primary clock active,
/// evaluates and samples.
fn run_to_active<D: Dut, K: Clock<D>, O: Sample<D>>(
    dut: &mut D,
    clock: &mut K,
    inactive: TimeStep,
) -> (r: Result<O, StageError<D::Error>>)
    ensures
        D::keeps_time() && K::clock_keeps_time() && r is Ok ==> final(dut).spec_time().ticks == old(
            dut,
        ).spec_time().ticks + inactive@,
{
    match dut.advance_time(inactive) {
        Ok(()) => {},
        Err(source) => {
            return Err(StageError { stage: SimulationStage::AdvanceInactivePhase, clock: false, source });
        },
    }
    match clock.drive_active(dut) {
        Ok(()) => {},
        Err(source) => {
            return Err(StageError { stage: SimulationStage::DriveClockActive, clock: true, source });
        },
    }
    match dut.evaluate() {
        Ok(()) => {},
        Err(source) => {
            return Err(StageError { stage: SimulationStage::EvaluateActive, clock: false, source });
        },
    }
    match O::sample(dut) {
        Ok(o) => Ok(o),
        Err(source) => Err(StageError { stage: SimulationStage::Sample, clock: false, source }),
    }
}

/// Phase durations of a run, in ticks: the delay to the first active edge,
/// the recurring inactive phase and the recurring active phase. A cycle
/// timing override replaces the primary clock's timing, its first delay
/// being one inactive phase.
pub open spec fn run_phases<D, T, R, B, K>(tb: Testbench<D, Vec<T>, R, B, PrimaryClock<K>>) -> (
    int,
    int,
    int,
) {
    match tb.spec_primary_cycle_timing() {
        Some(c) => (c.inactive@ as int, c.inactive@ as int, c.active@ as int),
        None => {
            let t = tb.spec_clocks().spec_timing();
            (
                t.spec_first_active_after()@ as int,
                t.spec_cycle().inactive@ as int,
                t.spec_cycle().active@ as int,
            )
        },
    }
}

/// Ticks from the start of a run to the check of primary cycle `k`: the
/// first delay, then a full active and inactive phase per earlier cycle.
pub open spec fn check_offset(p: (int, int, int), k: int) -> int {
    p.0 + k * (p.1 + p.2)
}

/// Ticks a run spends on `cycles` completed cycles: the first delay, an
/// active phase per cycle, and an inactive phase between cycles.
pub open spec fn completed_span(p: (int, int, int), cycles: int) -> int {
    if cycles <= 0 {
        0
    } else {
        p.0 + cycles * p.2 + (cycles - 1) * p.1
    }
}

/// One more cycle adds an active phase to a completed span, and a full
/// cycle to a check offset.
proof fn lemma_phase_steps(p: (int, int, int), i: int)
    requires
        0 <= i,
    ensures
        check_offset(p, i) + p.2 == completed_span(p, i + 1),
        check_offset(p, i) + p.2 + p.1 == check_offset(p, i + 1),
{
    assert((i + 1) * (p.1 + p.2) == i * (p.1 + p.2) + p.1 + p.2) by (nonlinear_arith);
    assert((i + 1) * p.2 == i * p.2 + p.2) by (nonlinear_arith);
    assert(i * (p.1 + p.2) == i * p.1 + i * p.2) by (nonlinear_arith);
}

/// A DUT, stimulus and clock that all state how they keep time.
pub open spec fn keeps_run_time<D: Dut, T: Drive<D>, K: Clock<D>>() -> bool {
    D::keeps_time() && T::drive_keeps_time() && K::clock_keeps_time()
}

impl<D: Dut, T: Drive<D>, R: ReferenceModel<T>, B, K: Clock<D>> Testbench<
    D,
    Vec<T>,
    R,
    B,
    PrimaryClock<K>,
> {
    /// Runs primary-clock transactions, one per stimulus: drive, advance to
    /// the active edge, sample, check against the prediction, advance to the
    /// next inactive edge. A check failure is kept and the run stops when the
    /// failure policy says so; a DUT error is recorded and ends the run; the
    /// DUT is always finalized.
    pub fn run<O: Sample<D>>(self) -> (r: TestResult<T, B::Error, D::Error>) where
        B: Scoreboard<R::Expected, O>,

        ensures
            run_bookkeeping(
                r,
                self.spec_sequence()@,
                self.spec_failure_policy(),
                self.spec_replay_token(),
            ),
            r.spec_simulation_error() is None && !r.spec_stopped() ==> r.spec_cycles()
                == self.spec_sequence()@.len(),
            keeps_run_time::<D, T, K>() && r.spec_simulation_error() is None && !r.spec_stopped()
                ==> r.spec_final_time().ticks == r.spec_start_time().ticks + completed_span(
                run_phases(self),
                r.spec_cycles() as int,
            ),
            keeps_run_time::<D, T, K>() && r.spec_simulation_error() is None && r.spec_stopped()
                ==> r.spec_final_time().ticks == r.spec_start_time().ticks + check_offset(
                run_phases(self),
                r.spec_cycles() - 1,
            ),
            keeps_run_time::<D, T, K>() ==> forall|k: int|
                0 <= k < r.spec_failures().len() ==> (#[trigger] r.spec_failures()[k]).time.ticks
                    == r.spec_start_time().ticks + check_offset(
                    run_phases(self),
                    r.spec_failures()[k].cycle as int,
                ),
    {
        let ghost ph = run_phases(self);
        let Testbench {
            mut dut,
            sequence,
            mut reference_model,
            mut scoreboard,
            clocks,
            failure_policy,
            primary_cycle_timing,
            replay_token,
        } = self;
        let ghost seq = sequence@;
        let PrimaryClock { name: clock_name, driver, timing } = clocks;
        let mut clock = driver;
        let timing = match primary_cycle_timing {
            Some(c) => ClockTiming::from_cycle(c),
            None => timing,
        };
        assert(ph == (
            timing.spec_first_active_after()@ as int,
            timing.spec_cycle().inactive@ as int,
            timing.spec_cycle().active@ as int,
        ));
        let ghost keeps = keeps_run_time::<D, T, K>();
        let start = dut.simulation_time();
        let mut result: TestResult<T, B::Error, D::Error> = TestResult::new(start, replay_token);
        let n = sequence.len();
        if n == 0 {
            finalize_and_record(&mut dut, &mut result);
            return result;
        }
        let mut rest = sequence;
        let mut stimulus = rest.remove(0);
        assert(stimulus == seq[0]);
        match start_transaction(&mut dut, &mut clock, &stimulus) {
            Ok(()) => {},
            Err(e) => {
                let t = dut.simulation_time();
                let name = if e.clock {
                    Some(clock_name.as_str())
                } else {
                    None
                };
                record_stage_failure(&mut result, 0, t, e.stage, name, e.source);
                finalize_and_record(&mut dut, &mut result);
                return result;
            },
        }
        let mut inactive = timing.first_active_after();
        let mut i: usize = 0;
        let limit: usize = failure_policy.maximum_failures();
        loop
            invariant_except_break
                n == seq.len(),
                i < n,
                rest@ == seq.subrange(i + 1, n as int),
                stimulus == seq[i as int],
                result.spec_cycles() == i,
                result.spec_checks() == i,
                result.spec_failures().len() < failure_policy@,
                !result.spec_stopped(),
                result.spec_simulation_error() is None,
                result.spec_replay_token() == replay_token,
                forall|a: int, b: int|
                    0 <= a < b < result.spec_failures().len() ==> result.spec_failures()[a].cycle
                        < result.spec_failures()[b].cycle,
                forall|k: int|
                    0 <= k < result.spec_failures().len() ==> (#[trigger] result.spec_failures()[k]).cycle
                        < i && result.spec_failures()[k].stimulus == seq[result.spec_failures()[k].cycle as int],
                keeps == keeps_run_time::<D, T, K>(),
                result.spec_start_time() == start,
                ph == (
                    timing.spec_first_active_after()@ as int,
                    timing.spec_cycle().inactive@ as int,
                    timing.spec_cycle().active@ as int,
                ),
                inactive@ == if i == 0 {
                    ph.0
                } else {
                    ph.1
                },
                keeps ==> dut.spec_time().ticks + inactive@ == start.ticks + check_offset(ph, i as int),
                keeps ==> forall|k: int|
                    0 <= k < result.spec_failures().len() ==> (#[trigger] result.spec_failures()[k]).time.ticks
                        == start.ticks + check_offset(ph, result.spec_failures()[k].cycle as int),
            ensures
                run_bookkeeping(result, seq, failure_policy, replay_token),
                result.spec_simulation_error() is None && !result.spec_stopped() ==> result.spec_cycles()
                    == n,
                result.spec_start_time() == start,
                keeps ==> forall|k: int|
                    0 <= k < result.spec_failures().len() ==> (#[trigger] result.spec_failures()[k]).time.ticks
                        == start.ticks + check_offset(ph, result.spec_failures()[k].cycle as int),
                keeps && result.spec_simulation_error() is None && !result.spec_stopped()
                    ==> dut.spec_time().ticks == start.ticks + completed_span(ph, result.spec_cycles() as int),
                keeps && result.spec_simulation_error() is None && result.spec_stopped()
                    ==> dut.spec_time().ticks == start.ticks + check_offset(ph, result.spec_cycles() - 1),
            decreases n - i,
        {
            let cycle = result.cycles();
            let observed: O = match run_to_active(&mut dut, &mut clock, inactive) {
                Ok(o) => o,
                Err(e) => {
                    let t = dut.simulation_time();
                    let name = if e.clock {
                        Some(clock_name.as_str())
                    } else {
                        None
                    };
                    record_stage_failure(&mut result, cycle, t, e.stage, name, e.source);
                    break ;
                },
            };
            let expected = reference_model.predict(&stimulus);
            let check_time = dut.simulation_time();
            let check_result = scoreboard.check(expected, observed);
            let stop = record_check_outcome(
                &mut result,
                cycle,
                check_time,
                stimulus,
                check_result,
                failure_policy,
            );
            if stop {
                break ;
            }
            match dut.advance_time(timing.active_phase()) {
                Ok(()) => {},
                Err(source) => {
                    let t = dut.simulation_time();
                    record_stage_failure(
                        &mut result,
                        cycle,
                        t,
                        SimulationStage::AdvanceActivePhase,
                        None,
                        source,
                    );
                    break ;
                },
            }
            proof {
                lemma_phase_steps(ph, i as int);
            }
            if rest.len() == 0 {
                break ;
            }
            let next = rest.remove(0);
            let next_cycle = result.cycles();
            match start_transaction(&mut dut, &mut clock, &next) {
                Ok(()) => {},
                Err(e) => {
                    let t = dut.simulation_time();
                    let name = if e.clock {
                        Some(clock_name.as_str())
                    } else {
                        None
                    };
                    record_stage_failure(&mut result, next_cycle, t, e.stage, name, e.source);
                    break ;
                },
            }
            stimulus = next;
            inactive = timing.inactive_phase();
            i = i + 1;
        }
        finalize_and_record(&mut dut, &mut result);
        result
    }
}

} // verus!

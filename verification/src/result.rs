use vstd::prelude::*;
use vstd::string::*;

use crate::random::{replay_text, ReplayToken};
use crate::text::{decimal_spec, push_decimal, push_str};
use crate::time::SimulationTime;

verus! {

/// Formats a value with its `Debug` implementation.
///
/// Wraps `format!("{:?}")`; the text comes from the value type's own `Debug`
/// implementation, so nothing is promised about it.
#[verifier::external_body]
pub(crate) fn debug_string<T: core::fmt::Debug>(value: &T) -> (r: String) {
    format!("{value:?}")
}

/// Formats a value with its `Display` implementation.
///
/// Wraps `format!("{}")`; the text comes from the value type's own `Display`
/// implementation, so nothing is promised about it.
#[verifier::external_body]
pub(crate) fn display_string<T: core::fmt::Display>(value: &T) -> (r: String) {
    format!("{value}")
}

/// Text of a simulation time: the tick count and the unit.
pub open spec fn time_text(t: SimulationTime) -> Seq<char> {
    decimal_spec(t.ticks as nat) + " ticks"@
}

/// Formats a simulation time as its tick count and the unit.
pub fn time_to_text(t: SimulationTime) -> (r: String)
    ensures
        r@ == time_text(t),
{
    let mut s = String::new();
    push_decimal(&mut s, t.ticks);
    push_str(&mut s, " ticks");
    s
}

/// Runner stage that produced a simulation error.
#[derive(Debug, Clone, Copy, PartialEq, Eq, Structural)]
pub enum SimulationStage {
    /// Driving one clock inactive.
    DriveClockInactive,
    /// Driving stimulus.
    DriveStimulus,
    /// Evaluating while the primary clock is inactive.
    EvaluateInactive,
    /// Advancing while the primary clock is inactive.
    AdvanceInactivePhase,
    /// Driving one clock active.
    DriveClockActive,
    /// Evaluating while the primary clock is active.
    EvaluateActive,
    /// Advancing while the primary clock is active.
    AdvanceActivePhase,
    /// Sampling DUT outputs.
    Sample,
}

/// Human-readable description of a stage.
pub open spec fn stage_text(s: SimulationStage) -> Seq<char> {
    match s {
        SimulationStage::DriveClockInactive => "driving a clock inactive"@,
        SimulationStage::DriveStimulus => "driving stimulus"@,
        SimulationStage::EvaluateInactive => "evaluating while the primary clock is inactive"@,
        SimulationStage::AdvanceInactivePhase => "advancing while the primary clock is inactive"@,
        SimulationStage::DriveClockActive => "driving a clock active"@,
        SimulationStage::EvaluateActive => "evaluating while the primary clock is active"@,
        SimulationStage::AdvanceActivePhase => "advancing while the primary clock is active"@,
        SimulationStage::Sample => "sampling DUT outputs"@,
    }
}

impl SimulationStage {
    /// Returns the human-readable stage description.
    pub fn text(self) -> (r: &'static str)
        ensures
            r@ == stage_text(self),
    {
        match self {
            SimulationStage::DriveClockInactive => "driving a clock inactive",
            SimulationStage::DriveStimulus => "driving stimulus",
            SimulationStage::EvaluateInactive => "evaluating while the primary clock is inactive",
            SimulationStage::AdvanceInactivePhase => "advancing while the primary clock is inactive",
            SimulationStage::DriveClockActive => "driving a clock active",
            SimulationStage::EvaluateActive => "evaluating while the primary clock is active",
            SimulationStage::AdvanceActivePhase => "advancing while the primary clock is active",
            SimulationStage::Sample => "sampling DUT outputs",
        }
    }
}

/// One failed scoreboard check.
#[derive(Debug, Clone, PartialEq, Eq)]
pub struct CheckFailure<S, F> {
    /// Primary cycle of the check.
    pub cycle: u64,
    /// Simulation time of the check.
    pub time: SimulationTime,
    /// Stimulus that produced the failing observation.
    pub stimulus: S,
    /// Scoreboard error.
    pub error: F,
}

impl<S, F> CheckFailure<S, F> {
    /// Creates a check failure record.
    pub fn new(cycle: u64, time: SimulationTime, stimulus: S, error: F) -> (r: Self)
        ensures
            r == (CheckFailure { cycle, time, stimulus, error }),
    {
        CheckFailure { cycle, time, stimulus, error }
    }

    /// Returns the primary cycle.
    pub fn cycle(&self) -> (r: u64)
        ensures
            r == self.cycle,
    {
        self.cycle
    }

    /// Returns the simulation time.
    pub fn time(&self) -> (r: SimulationTime)
        ensures
            r == self.time,
    {
        self.time
    }

    /// Returns the stimulus.
    pub fn stimulus(&self) -> (r: &S)
        ensures
            *r == self.stimulus,
    {
        &self.stimulus
    }

    /// Returns the scoreboard error.
    pub fn error(&self) -> (r: &F)
        ensures
            *r == self.error,
    {
        &self.error
    }

    /// Splits the record into cycle, time, stimulus and error.
    pub fn into_parts(self) -> (r: (u64, SimulationTime, S, F))
        ensures
            r == (self.cycle, self.time, self.stimulus, self.error),
    {
        (self.cycle, self.time, self.stimulus, self.error)
    }
}

/// DUT or clock failure during a run.
#[derive(Debug, Clone, PartialEq, Eq)]
pub struct SimulationError<E> {
    /// Primary cycle of the failure.
    pub cycle: u64,
    /// Simulation time of the failure.
    pub time: SimulationTime,
    /// Runner stage.
    pub stage: SimulationStage,
    /// Failing clock for clock-drive stages.
    pub clock_name: Option<String>,
    /// Underlying error.
    pub source: E,
}

/// Text of a simulation error, given the text of its source.
pub open spec fn simulation_error_text<E>(e: SimulationError<E>, source: Seq<char>) -> Seq<char> {
    let head = "simulation failed during primary cycle "@ + decimal_spec(e.cycle as nat) + " at "@
        + time_text(e.time);
    match e.clock_name {
        Some(name) => if e.stage == SimulationStage::DriveClockInactive {
            head + " while driving clock `"@ + name@ + "` inactive: "@ + source
        } else if e.stage == SimulationStage::DriveClockActive {
            head + " while driving clock `"@ + name@ + "` active: "@ + source
        } else {
            head + " while "@ + stage_text(e.stage) + ": "@ + source
        },
        None => head + " while "@ + stage_text(e.stage) + ": "@ + source,
    }
}

impl<E> SimulationError<E> {
    /// Creates a simulation error outside clock driving.
    pub fn new(cycle: u64, time: SimulationTime, stage: SimulationStage, source: E) -> (r: Self)
        ensures
            r == (SimulationError { cycle, time, stage, clock_name: None::<String>, source }),
    {
        SimulationError { cycle, time, stage, clock_name: None, source }
    }

    /// Creates a simulation error while driving one named clock.
    pub fn new_for_clock(
        cycle: u64,
        time: SimulationTime,
        stage: SimulationStage,
        clock_name: String,
        source: E,
    ) -> (r: Self)
        ensures
            r == (SimulationError { cycle, time, stage, clock_name: Some(clock_name), source }),
    {
        SimulationError { cycle, time, stage, clock_name: Some(clock_name), source }
    }

    /// Returns the primary cycle.
    pub fn cycle(&self) -> (r: u64)
        ensures
            r == self.cycle,
    {
        self.cycle
    }

    /// Returns the simulation time.
    pub fn time(&self) -> (r: SimulationTime)
        ensures
            r == self.time,
    {
        self.time
    }

    /// Returns the runner stage.
    pub fn stage(&self) -> (r: SimulationStage)
        ensures
            r == self.stage,
    {
        self.stage
    }

    /// Returns the failing clock name for clock-drive stages.
    pub fn clock_name(&self) -> (r: Option<&str>)
        ensures
            match self.clock_name {
                Some(n) => r is Some && r->0@ == n@,
                None => r is None,
            },
    {
        match &self.clock_name {
            Some(n) => Some(n.as_str()),
            None => None,
        }
    }

    /// Returns the underlying error.
    pub fn source_error(&self) -> (r: &E)
        ensures
            *r == self.source,
    {
        &self.source
    }

    /// Splits the error into cycle, time, stage and source.
    pub fn into_parts(self) -> (r: (u64, SimulationTime, SimulationStage, E))
        ensures
            r == (self.cycle, self.time, self.stage, self.source),
    {
        (self.cycle, self.time, self.stage, self.source)
    }

    /// Splits the error into cycle, time, stage, clock name and source.
    pub fn into_parts_with_clock(self) -> (r: (u64, SimulationTime, SimulationStage, Option<String>, E))
        ensures
            r == (self.cycle, self.time, self.stage, self.clock_name, self.source),
    {
        (self.cycle, self.time, self.stage, self.clock_name, self.source)
    }

    /// Human-readable description, given the text of the source error.
    pub fn message_with(&self, source: &str) -> (r: String)
        ensures
            r@ == simulation_error_text(*self, source@),
    {
        let mut s = String::new();
        push_str(&mut s, "simulation failed during primary cycle ");
        push_decimal(&mut s, self.cycle);
        push_str(&mut s, " at ");
        let t = time_to_text(self.time);
        push_str(&mut s, t.as_str());
        match &self.clock_name {
            Some(name) => {
                if self.stage == SimulationStage::DriveClockInactive {
                    push_str(&mut s, " while driving clock `");
                    push_str(&mut s, name.as_str());
                    push_str(&mut s, "` inactive: ");
                } else if self.stage == SimulationStage::DriveClockActive {
                    push_str(&mut s, " while driving clock `");
                    push_str(&mut s, name.as_str());
                    push_str(&mut s, "` active: ");
                } else {
                    push_str(&mut s, " while ");
                    push_str(&mut s, self.stage.text());
                    push_str(&mut s, ": ");
                }
            },
            None => {
                push_str(&mut s, " while ");
                push_str(&mut s, self.stage.text());
                push_str(&mut s, ": ");
            },
        }
        push_str(&mut s, source);
        s
    }
}

/// Result of one testbench run.
#[derive(Debug)]
pub struct TestResult<S, F, E> {
    cycles: u64,
    checks: u64,
    failures: Vec<CheckFailure<S, F>>,
    simulation_error: Option<SimulationError<E>>,
    finalization_error: Option<E>,
    stopped_by_failure_policy: bool,
    start_time: SimulationTime,
    final_time: SimulationTime,
    replay_token: Option<ReplayToken>,
}

/// `""` for one, `"s"` otherwise.
pub open spec fn plural(n: nat) -> Seq<char> {
    if n == 1 {
        ""@
    } else {
        "s"@
    }
}

/// Status, counts and time span of a result.
pub open spec fn summary_base<S, F, E>(r: TestResult<S, F, E>) -> Seq<char> {
    let status = if r.spec_passed() {
        "PASS"@
    } else {
        "FAIL"@
    };
    status + ": "@ + decimal_spec(r.spec_cycles() as nat) + " cycle"@ + plural(
        r.spec_cycles() as nat,
    ) + ", "@ + decimal_spec(r.spec_checks() as nat) + " check"@ + plural(r.spec_checks() as nat)
        + ", "@ + decimal_spec(r.spec_failures().len()) + " check failure"@ + plural(
        r.spec_failures().len(),
    ) + ", time "@ + decimal_spec(r.spec_start_time().ticks as nat) + ".."@ + decimal_spec(
        r.spec_final_time().ticks as nat,
    ) + " ticks"@
}

/// Notes on the policy stop, the errors and the replay token of a result.
pub open spec fn summary_notes<S, F, E>(r: TestResult<S, F, E>) -> Seq<char> {
    let stopped = if r.spec_stopped() {
        ", stopped by failure policy"@
    } else {
        Seq::empty()
    };
    let sim = match r.spec_simulation_error() {
        Some(e) => match e.clock_name {
            Some(name) => ", simulation error on clock `"@ + name@ + "`"@,
            None => ", simulation error"@,
        },
        None => Seq::empty(),
    };
    let fin = if r.spec_finalization_error() is Some {
        ", finalization error"@
    } else {
        Seq::empty()
    };
    let replay = match r.spec_replay_token() {
        Some(t) => ", replay token "@ + replay_text(t@),
        None => Seq::empty(),
    };
    stopped + sim + fin + replay
}

/// One-line summary of a result.
pub open spec fn summary_text<S, F, E>(r: TestResult<S, F, E>) -> Seq<char> {
    summary_base(r) + summary_notes(r)
}

impl<S, F, E> TestResult<S, F, E> {
    /// Completed primary cycles.
    pub closed spec fn spec_cycles(&self) -> u64 {
        self.cycles
    }

    /// Performed checks.
    pub closed spec fn spec_checks(&self) -> u64 {
        self.checks
    }

    /// Retained check failures in order.
    pub closed spec fn spec_failures(&self) -> Seq<CheckFailure<S, F>> {
        self.failures@
    }

    /// Simulation error, if any.
    pub closed spec fn spec_simulation_error(&self) -> Option<SimulationError<E>> {
        self.simulation_error
    }

    /// Finalization error, if any.
    pub closed spec fn spec_finalization_error(&self) -> Option<E> {
        self.finalization_error
    }

    /// Whether the failure policy stopped the run.
    pub closed spec fn spec_stopped(&self) -> bool {
        self.stopped_by_failure_policy
    }

    /// Start time.
    pub closed spec fn spec_start_time(&self) -> SimulationTime {
        self.start_time
    }

    /// Final time.
    pub closed spec fn spec_final_time(&self) -> SimulationTime {
        self.final_time
    }

    /// Replay token of the run, if any.
    pub closed spec fn spec_replay_token(&self) -> Option<ReplayToken> {
        self.replay_token
    }

    /// No failure, no simulation error and no finalization error.
    pub open spec fn spec_passed(&self) -> bool {
        &&& self.spec_failures().len() == 0
        &&& self.spec_simulation_error() is None
        &&& self.spec_finalization_error() is None
    }

    /// Creates an empty result that starts at `start_time`.
    pub fn new(start_time: SimulationTime, replay_token: Option<ReplayToken>) -> (r: Self)
        ensures
            r.spec_cycles() == 0,
            r.spec_checks() == 0,
            r.spec_failures().len() == 0,
            r.spec_simulation_error() is None,
            r.spec_finalization_error() is None,
            !r.spec_stopped(),
            r.spec_start_time() == start_time,
            r.spec_final_time() == start_time,
            r.spec_replay_token() == replay_token,
    {
        TestResult {
            cycles: 0,
            checks: 0,
            failures: Vec::new(),
            simulation_error: None,
            finalization_error: None,
            stopped_by_failure_policy: false,
            start_time,
            final_time: start_time,
            replay_token,
        }
    }

    /// Returns completed primary cycles.
    pub fn cycles(&self) -> (r: u64)
        ensures
            r == self.spec_cycles(),
    {
        self.cycles
    }

    /// Returns performed checks.
    pub fn checks(&self) -> (r: u64)
        ensures
            r == self.spec_checks(),
    {
        self.checks
    }

    /// Returns retained check failures.
    pub fn failures(&self) -> (r: &[CheckFailure<S, F>])
        ensures
            r@ == self.spec_failures(),
    {
        self.failures.as_slice()
    }

    /// Returns the retained check-failure count.
    pub fn failure_count(&self) -> (r: usize)
        ensures
            r == self.spec_failures().len(),
    {
        self.failures.len()
    }

    /// Returns the simulation error, if any.
    pub fn simulation_error(&self) -> (r: Option<&SimulationError<E>>)
        ensures
            match self.spec_simulation_error() {
                Some(e) => r == Some(&e),
                None => r is None,
            },
    {
        match &self.simulation_error {
            Some(e) => Some(e),
            None => None,
        }
    }

    /// Returns the finalization error, if any.
    pub fn finalization_error(&self) -> (r: Option<&E>)
        ensures
            match self.spec_finalization_error() {
                Some(e) => r == Some(&e),
                None => r is None,
            },
    {
        match &self.finalization_error {
            Some(e) => Some(e),
            None => None,
        }
    }

    /// Returns whether the failure policy stopped the run.
    pub fn stopped_by_failure_policy(&self) -> (r: bool)
        ensures
            r == self.spec_stopped(),
    {
        self.stopped_by_failure_policy
    }

    /// Returns the start time.
    pub fn start_time(&self) -> (r: SimulationTime)
        ensures
            r == self.spec_start_time(),
    {
        self.start_time
    }

    /// Returns the final time.
    pub fn final_time(&self) -> (r: SimulationTime)
        ensures
            r == self.spec_final_time(),
    {
        self.final_time
    }

    /// Returns whether no failure, simulation error or finalization error occurred.
    pub fn passed(&self) -> (r: bool)
        ensures
            r == self.spec_passed(),
            self.spec_simulation_error() is Some ==> !r,
            self.spec_finalization_error() is Some ==> !r,
            self.spec_failures().len() > 0 ==> !r,
            self.spec_failures().len() == 0 && self.spec_simulation_error() is None
                && self.spec_finalization_error() is None ==> r,
    {
        self.failures.len() == 0 && self.simulation_error.is_none()
            && self.finalization_error.is_none()
    }

    /// Returns the replay token, if any.
    pub fn replay_token(&self) -> (r: Option<ReplayToken>)
        ensures
            r == self.spec_replay_token(),
    {
        self.replay_token
    }

    /// Returns the retained check failures.
    pub fn into_failures(self) -> (r: Vec<CheckFailure<S, F>>)
        ensures
            r@ == self.spec_failures(),
    {
        self.failures
    }

    /// Records one completed check, saturating both counters.
    pub fn record_check(&mut self)
        ensures
            final(self).spec_cycles() == if old(self).spec_cycles() < u64::MAX {
                old(self).spec_cycles() + 1
            } else {
                old(self).spec_cycles() as int
            },
            final(self).spec_checks() == if old(self).spec_checks() < u64::MAX {
                old(self).spec_checks() + 1
            } else {
                old(self).spec_checks() as int
            },
            final(self).spec_failures() == old(self).spec_failures(),
            final(self).spec_simulation_error() == old(self).spec_simulation_error(),
            final(self).spec_finalization_error() == old(self).spec_finalization_error(),
            final(self).spec_stopped() == old(self).spec_stopped(),
            final(self).spec_start_time() == old(self).spec_start_time(),
            final(self).spec_final_time() == old(self).spec_final_time(),
            final(self).spec_replay_token() == old(self).spec_replay_token(),
    {
        self.cycles = self.cycles.saturating_add(1);
        self.checks = self.checks.saturating_add(1);
    }

    /// Records one check failure.
    pub fn record_failure(&mut self, failure: CheckFailure<S, F>)
        ensures
            final(self).spec_failures() == old(self).spec_failures().push(failure),
            final(self).spec_cycles() == old(self).spec_cycles(),
            final(self).spec_checks() == old(self).spec_checks(),
            final(self).spec_simulation_error() == old(self).spec_simulation_error(),
            final(self).spec_finalization_error() == old(self).spec_finalization_error(),
            final(self).spec_stopped() == old(self).spec_stopped(),
            final(self).spec_start_time() == old(self).spec_start_time(),
            final(self).spec_final_time() == old(self).spec_final_time(),
            final(self).spec_replay_token() == old(self).spec_replay_token(),
    {
        self.failures.push(failure);
    }

    /// Records the simulation error that ended the run.
    pub fn record_simulation_error(&mut self, error: SimulationError<E>)
        ensures
            final(self).spec_simulation_error() == Some(error),
            final(self).spec_failures() == old(self).spec_failures(),
            final(self).spec_cycles() == old(self).spec_cycles(),
            final(self).spec_checks() == old(self).spec_checks(),
            final(self).spec_finalization_error() == old(self).spec_finalization_error(),
            final(self).spec_stopped() == old(self).spec_stopped(),
            final(self).spec_start_time() == old(self).spec_start_time(),
            final(self).spec_final_time() == old(self).spec_final_time(),
            final(self).spec_replay_token() == old(self).spec_replay_token(),
    {
        self.simulation_error = Some(error);
    }

    /// Records the error reported while finalizing the DUT.
    pub fn record_finalization_error(&mut self, error: E)
        ensures
            final(self).spec_finalization_error() == Some(error),
            final(self).spec_simulation_error() == old(self).spec_simulation_error(),
            final(self).spec_failures() == old(self).spec_failures(),
            final(self).spec_cycles() == old(self).spec_cycles(),
            final(self).spec_checks() == old(self).spec_checks(),
            final(self).spec_stopped() == old(self).spec_stopped(),
            final(self).spec_start_time() == old(self).spec_start_time(),
            final(self).spec_final_time() == old(self).spec_final_time(),
            final(self).spec_replay_token() == old(self).spec_replay_token(),
    {
        self.finalization_error = Some(error);
    }

    /// Marks the run as stopped by the failure policy.
    pub fn mark_stopped_by_failure_policy(&mut self)
        ensures
            final(self).spec_stopped(),
            final(self).spec_finalization_error() == old(self).spec_finalization_error(),
            final(self).spec_simulation_error() == old(self).spec_simulation_error(),
            final(self).spec_failures() == old(self).spec_failures(),
            final(self).spec_cycles() == old(self).spec_cycles(),
            final(self).spec_checks() == old(self).spec_checks(),
            final(self).spec_start_time() == old(self).spec_start_time(),
            final(self).spec_final_time() == old(self).spec_final_time(),
            final(self).spec_replay_token() == old(self).spec_replay_token(),
    {
        self.stopped_by_failure_policy = true;
    }

    /// Records the final simulation time.
    pub fn record_final_time(&mut self, final_time: SimulationTime)
        ensures
            final(self).spec_final_time() == final_time,
            final(self).spec_stopped() == old(self).spec_stopped(),
            final(self).spec_finalization_error() == old(self).spec_finalization_error(),
            final(self).spec_simulation_error() == old(self).spec_simulation_error(),
            final(self).spec_failures() == old(self).spec_failures(),
            final(self).spec_cycles() == old(self).spec_cycles(),
            final(self).spec_checks() == old(self).spec_checks(),
            final(self).spec_start_time() == old(self).spec_start_time(),
            final(self).spec_replay_token() == old(self).spec_replay_token(),
    {
        self.final_time = final_time;
    }

    fn summary_base_text(&self) -> (r: String)
        ensures
            r@ == summary_base(*self),
    {
        let mut s = String::new();
        if self.passed() {
            push_str(&mut s, "PASS");
        } else {
            push_str(&mut s, "FAIL");
        }
        push_str(&mut s, ": ");
        push_decimal(&mut s, self.cycles);
        push_str(&mut s, " cycle");
        push_str(&mut s, plural_suffix(self.cycles == 1));
        push_str(&mut s, ", ");
        push_decimal(&mut s, self.checks);
        push_str(&mut s, " check");
        push_str(&mut s, plural_suffix(self.checks == 1));
        push_str(&mut s, ", ");
        push_decimal(&mut s, self.failures.len() as u64);
        push_str(&mut s, " check failure");
        push_str(&mut s, plural_suffix(self.failures.len() == 1));
        push_str(&mut s, ", time ");
        push_decimal(&mut s, self.start_time.ticks);
        push_str(&mut s, "..");
        push_decimal(&mut s, self.final_time.ticks);
        push_str(&mut s, " ticks");
        s
    }

    fn summary_notes_text(&self) -> (r: String)
        ensures
            r@ == summary_notes(*self),
    {
        let mut stopped = String::new();
        if self.stopped_by_failure_policy {
            push_str(&mut stopped, ", stopped by failure policy");
        }
        let mut sim = String::new();
        match &self.simulation_error {
            Some(e) => match &e.clock_name {
                Some(name) => {
                    push_str(&mut sim, ", simulation error on clock `");
                    push_str(&mut sim, name.as_str());
                    push_str(&mut sim, "`");
                },
                None => {
                    push_str(&mut sim, ", simulation error");
                },
            },
            None => {},
        }
        let mut fin = String::new();
        if self.finalization_error.is_some() {
            push_str(&mut fin, ", finalization error");
        }
        let mut replay = String::new();
        match self.replay_token {
            Some(t) => {
                push_str(&mut replay, ", replay token ");
                let text = t.to_text();
                push_str(&mut replay, text.as_str());
            },
            None => {},
        }
        let mut s = stopped;
        push_str(&mut s, sim.as_str());
        push_str(&mut s, fin.as_str());
        push_str(&mut s, replay.as_str());
        s
    }

    /// Returns the one-line summary.
    pub fn summary(&self) -> (r: String)
        ensures
            r@ == summary_text(*self),
    {
        let mut s = self.summary_base_text();
        let notes = self.summary_notes_text();
        push_str(&mut s, notes.as_str());
        s
    }

    fn push_failures_section(&self, s: &mut String) -> (texts: Ghost<(Seq<Seq<char>>, Seq<Seq<char>>)>) where
        S: core::fmt::Debug,
        F: core::fmt::Display,

        ensures
            texts@.0.len() == self.spec_failures().len(),
            texts@.1.len() == self.spec_failures().len(),
            final(s)@ == old(s)@ + failures_section(self.spec_failures(), texts@.0, texts@.1),
    {
        let ghost mut stimuli: Seq<Seq<char>> = Seq::empty();
        let ghost mut errors: Seq<Seq<char>> = Seq::empty();
        let ghost fs = self.failures@;
        let ghost start = s@;
        if self.failures.len() > 0 {
            push_str(s, "\n\nCheck failures (");
            push_decimal(s, self.failures.len() as u64);
            push_str(s, "):");
            let ghost head = s@;
            let mut i: usize = 0;
            while i < self.failures.len()
                invariant
                    i <= self.failures@.len(),
                    fs == self.failures@,
                    stimuli.len() == i,
                    errors.len() == i,
                    s@ == head + failure_entries(fs, stimuli, errors, i as int),
                decreases self.failures@.len() - i,
            {
                let failure = &self.failures[i];
                push_str(s, "\n\n  [");
                push_decimal(s, (i as u64) + 1);
                push_str(s, "] primary cycle ");
                push_decimal(s, failure.cycle);
                push_str(s, " at ");
                let t = time_to_text(failure.time);
                push_str(s, t.as_str());
                push_str(s, "\n      stimulus: ");
                let st = debug_string(&failure.stimulus);
                push_str(s, st.as_str());
                push_str(s, "\n      error: ");
                let et = display_string(&failure.error);
                push_str(s, et.as_str());
                proof {
                    let ps = stimuli;
                    let pe = errors;
                    stimuli = stimuli.push(st@);
                    errors = errors.push(et@);
                    lemma_failure_entries_prefix(fs, ps, pe, stimuli, errors, i as int);
                    assert(s@ =~= head + failure_entries(fs, stimuli, errors, i + 1));
                }
                i = i + 1;
            }
            proof {
                assert(s@ =~= start + failures_section(fs, stimuli, errors));
            }
        } else {
            proof {
                assert(s@ =~= start + failures_section(fs, stimuli, errors));
            }
        }
        Ghost((stimuli, errors))
    }

    fn push_simulation_section(&self, s: &mut String) -> (text: Ghost<Seq<char>>) where
        E: core::fmt::Display,

        ensures
            final(s)@ == old(s)@ + simulation_section(self.spec_simulation_error(), text@),
    {
        let ghost start = s@;
        let ghost mut simulation: Seq<char> = Seq::empty();
        match &self.simulation_error {
            Some(e) => {
                push_str(s, "\n\nSimulation error:\n\n  primary cycle: ");
                push_decimal(s, e.cycle);
                push_str(s, "\n  time: ");
                let t = time_to_text(e.time);
                push_str(s, t.as_str());
                push_str(s, "\n  stage: ");
                push_str(s, e.stage.text());
                match &e.clock_name {
                    Some(name) => {
                        push_str(s, "\n  clock: ");
                        push_str(s, name.as_str());
                    },
                    None => {},
                }
                push_str(s, "\n  error: ");
                let et = display_string(&e.source);
                push_str(s, et.as_str());
                proof {
                    simulation = et@;
                }
            },
            None => {},
        }
        proof {
            assert(s@ =~= start + simulation_section(self.spec_simulation_error(), simulation));
        }
        Ghost(simulation)
    }

    fn push_finalization_section(&self, s: &mut String) -> (text: Ghost<Seq<char>>) where
        E: core::fmt::Display,

        ensures
            final(s)@ == old(s)@ + finalization_section(
                self.spec_finalization_error(),
                self.spec_final_time(),
                text@,
            ),
    {
        let ghost start = s@;
        let ghost mut finalization: Seq<char> = Seq::empty();
        match &self.finalization_error {
            Some(e) => {
                push_str(s, "\n\nFinalization error:\n\n  time: ");
                let t = time_to_text(self.final_time);
                push_str(s, t.as_str());
                push_str(s, "\n  error: ");
                let et = display_string(e);
                push_str(s, et.as_str());
                proof {
                    finalization = et@;
                }
            },
            None => {},
        }
        proof {
            assert(s@ =~= start + finalization_section(
                self.spec_finalization_error(),
                self.spec_final_time(),
                finalization,
            ));
        }
        Ghost(finalization)
    }

    /// Returns the multi-line report: the summary, then each failure, the
    /// simulation error and the finalization error.
    pub fn detailed_report(&self) -> (r: String) where
        S: core::fmt::Debug,
        F: core::fmt::Display,
        E: core::fmt::Display,

        ensures
            report_of(*self, r@),
    {
        let mut report = self.summary();
        let ghost head = report@;
        let texts = self.push_failures_section(&mut report);
        let simulation = self.push_simulation_section(&mut report);
        let finalization = self.push_finalization_section(&mut report);
        proof {
            assert(report@ =~= report_text(*self, texts@.0, texts@.1, simulation@, finalization@));
        }
        report
    }
}

/// Report entry of check failure number `i` (counting from zero), given the
/// text of its stimulus and of its error.
pub open spec fn failure_entry<S, F>(
    i: nat,
    f: CheckFailure<S, F>,
    stimulus: Seq<char>,
    error: Seq<char>,
) -> Seq<char> {
    "\n\n  ["@ + decimal_spec(i + 1) + "] primary cycle "@ + decimal_spec(f.cycle as nat) + " at "@
        + time_text(f.time) + "\n      stimulus: "@ + stimulus + "\n      error: "@ + error
}

/// Entries of the first `n` failures depend only on the first `n` texts.
proof fn lemma_failure_entries_prefix<S, F>(
    fs: Seq<CheckFailure<S, F>>,
    a: Seq<Seq<char>>,
    b: Seq<Seq<char>>,
    c: Seq<Seq<char>>,
    d: Seq<Seq<char>>,
    n: int,
)
    requires
        n <= a.len(),
        n <= b.len(),
        n <= c.len(),
        n <= d.len(),
        forall|k: int| 0 <= k < n ==> a[k] == c[k] && b[k] == d[k],
    ensures
        failure_entries(fs, c, d, n) == failure_entries(fs, a, b, n),
    decreases n,
{
    if n > 0 {
        lemma_failure_entries_prefix(fs, a, b, c, d, n - 1);
    }
}

/// Report entries of the first `n` check failures.
pub open spec fn failure_entries<S, F>(
    fs: Seq<CheckFailure<S, F>>,
    stimuli: Seq<Seq<char>>,
    errors: Seq<Seq<char>>,
    n: int,
) -> Seq<char>
    decreases n,
{
    if n <= 0 {
        Seq::empty()
    } else {
        failure_entries(fs, stimuli, errors, n - 1) + failure_entry(
            (n - 1) as nat,
            fs[n - 1],
            stimuli[n - 1],
            errors[n - 1],
        )
    }
}

/// Check-failure section of a report: a heading with the count, then one
/// entry per failure; empty when nothing failed.
pub open spec fn failures_section<S, F>(
    fs: Seq<CheckFailure<S, F>>,
    stimuli: Seq<Seq<char>>,
    errors: Seq<Seq<char>>,
) -> Seq<char> {
    if fs.len() > 0 {
        "\n\nCheck failures ("@ + decimal_spec(fs.len()) + "):"@ + failure_entries(
            fs,
            stimuli,
            errors,
            fs.len() as int,
        )
    } else {
        Seq::empty()
    }
}

/// Simulation-error section of a report, given the text of the error's source.
pub open spec fn simulation_section<E>(e: Option<SimulationError<E>>, source: Seq<char>) -> Seq<char> {
    match e {
        Some(e) => "\n\nSimulation error:\n\n  primary cycle: "@ + decimal_spec(e.cycle as nat)
            + "\n  time: "@ + time_text(e.time) + "\n  stage: "@ + stage_text(e.stage) + (match e.clock_name {
            Some(name) => "\n  clock: "@ + name@,
            None => Seq::empty(),
        }) + "\n  error: "@ + source,
        None => Seq::empty(),
    }
}

/// Finalization-error section of a report, given the text of the error.
pub open spec fn finalization_section<E>(e: Option<E>, final_time: SimulationTime, error: Seq<char>) -> Seq<
    char,
> {
    match e {
        Some(_) => "\n\nFinalization error:\n\n  time: "@ + time_text(final_time) + "\n  error: "@
            + error,
        None => Seq::empty(),
    }
}

/// Report of `r`, given the texts of the failures' stimuli and errors and of
/// the simulation and finalization errors: the summary, then the sections.
pub open spec fn report_text<S, F, E>(
    r: TestResult<S, F, E>,
    stimuli: Seq<Seq<char>>,
    errors: Seq<Seq<char>>,
    simulation: Seq<char>,
    finalization: Seq<char>,
) -> Seq<char> {
    summary_text(r) + failures_section(r.spec_failures(), stimuli, errors) + simulation_section(
        r.spec_simulation_error(),
        simulation,
    ) + finalization_section(r.spec_finalization_error(), r.spec_final_time(), finalization)
}

/// `text` is the report of `r` for some texts of the user's values
/// (failure stimuli and errors, simulation and finalization errors).
pub open spec fn report_of<S, F, E>(r: TestResult<S, F, E>, text: Seq<char>) -> bool {
    exists|stimuli: Seq<Seq<char>>, errors: Seq<Seq<char>>, simulation: Seq<char>, finalization: Seq<char>|
        stimuli.len() == r.spec_failures().len() && errors.len() == r.spec_failures().len()
            && #[trigger] report_text(r, stimuli, errors, simulation, finalization) == text
}

/// `""` for one, `"s"` otherwise.
fn plural_suffix(is_one: bool) -> (r: &'static str)
    ensures
        r@ == (if is_one {
            ""@
        } else {
            "s"@
        }),
{
    if is_one {
        ""
    } else {
        "s"
    }
}

} // verus!

use vstd::prelude::*;
use vstd::string::*;

use crate::text::{push_str, str_eq};
use crate::time::{CycleTiming, TimeStep};

verus! {

/// Timing configuration for one independently scheduled clock.
#[derive(Debug, Clone, Copy, PartialEq, Eq, Hash)]
pub struct ClockTiming {
    cycle: CycleTiming,
    first_active_after: TimeStep,
}

impl ClockTiming {
    /// Recurring inactive and active phase durations.
    pub closed spec fn spec_cycle(&self) -> CycleTiming {
        self.cycle
    }

    /// Delay from scheduler initialization to the first active transition.
    pub closed spec fn spec_first_active_after(&self) -> TimeStep {
        self.first_active_after
    }

    /// Unit clock timing, matching a simple single-clock runner.
    pub fn unit() -> (r: Self)
        ensures
            r.spec_cycle().inactive@ == 1 && r.spec_cycle().active@ == 1 && r.spec_first_active_after()@ == 1,
    {
        ClockTiming::from_cycle(CycleTiming::unit())
    }

    /// Creates an independent clock timing configuration.
    pub fn new(cycle: CycleTiming, first_active_after: TimeStep) -> (r: Self)
        ensures
            r.spec_cycle() == cycle,
            r.spec_first_active_after() == first_active_after,
    {
        ClockTiming { cycle, first_active_after }
    }

    /// Creates timing whose first active transition follows one normal inactive phase.
    pub fn from_cycle(cycle: CycleTiming) -> (r: Self)
        ensures
            r.spec_cycle() == cycle,
            r.spec_first_active_after() == cycle.inactive,
    {
        ClockTiming { cycle, first_active_after: cycle.inactive_phase() }
    }

    /// Returns the recurring cycle timing.
    pub fn cycle(self) -> (r: CycleTiming)
        ensures
            r == self.spec_cycle(),
    {
        self.cycle
    }

    /// Returns the delay to the first active transition.
    pub fn first_active_after(self) -> (r: TimeStep)
        ensures
            r == self.spec_first_active_after(),
    {
        self.first_active_after
    }

    /// Returns the recurring inactive-phase duration.
    pub fn inactive_phase(self) -> (r: TimeStep)
        ensures
            r == self.spec_cycle().inactive,
    {
        self.cycle.inactive_phase()
    }

    /// Returns the recurring active-phase duration.
    pub fn active_phase(self) -> (r: TimeStep)
        ensures
            r == self.spec_cycle().active,
    {
        self.cycle.active_phase()
    }
}

impl Default for ClockTiming {
    fn default() -> (r: Self)
        ensures
            r.spec_cycle().inactive@ == 1 && r.spec_cycle().active@ == 1 && r.spec_first_active_after()@ == 1,
    {
        ClockTiming::unit()
    }
}

/// Error returned while configuring a clock scheduler.
#[derive(Debug, Clone, PartialEq, Eq)]
pub enum ClockConfigurationError {
    /// A clock name was empty.
    EmptyName,
    /// Two clocks used the same diagnostic name.
    DuplicateName {
        /// Duplicate clock name.
        name: String,
    },
}

impl ClockConfigurationError {
    /// Returns the duplicate name when a name caused this error.
    pub fn name(&self) -> (r: Option<&str>)
        ensures
            match *self {
                ClockConfigurationError::EmptyName => r is None,
                ClockConfigurationError::DuplicateName { name } => r is Some && r->0@ == name@,
            },
    {
        match self {
            ClockConfigurationError::EmptyName => None,
            ClockConfigurationError::DuplicateName { name } => Some(name.as_str()),
        }
    }

    /// Human-readable description of the error.
    pub fn message(&self) -> (r: String)
        ensures
            r@ == match *self {
                ClockConfigurationError::EmptyName => "clock name must not be empty"@,
                ClockConfigurationError::DuplicateName { name } => "clock name `"@ + name@
                    + "` is already registered"@,
            },
    {
        match self {
            ClockConfigurationError::EmptyName => String::from_str("clock name must not be empty"),
            ClockConfigurationError::DuplicateName { name } => {
                let mut s = String::from_str("clock name `");
                push_str(&mut s, name.as_str());
                push_str(&mut s, "` is already registered");
                s
            },
        }
    }
}

/// Current semantic clock phase.
#[derive(Debug, Default, Clone, Copy, PartialEq, Eq)]
pub enum ClockPhase {
    /// Clock is at its configured inactive level.
    #[default]
    Inactive,
    /// Clock is at its configured active level.
    Active,
}

impl ClockPhase {
    /// Returns the next semantic phase.
    pub fn next(self) -> (r: Self)
        ensures
            r == (match self {
                ClockPhase::Inactive => ClockPhase::Active,
                ClockPhase::Active => ClockPhase::Inactive,
            }),
    {
        match self {
            ClockPhase::Inactive => ClockPhase::Active,
            ClockPhase::Active => ClockPhase::Inactive,
        }
    }
}

/// Configuration and state of one scheduled clock.
///
/// The driver that toggles the clock input is held by the caller, at the
/// same registration index as the domain.
#[derive(Debug, Clone)]
pub struct ClockDomain {
    /// Diagnostic clock name.
    pub name: String,
    /// Timing configuration.
    pub timing: ClockTiming,
    /// Current semantic clock phase.
    pub phase: ClockPhase,
    /// Remaining time until the next transition.
    pub remaining: TimeStep,
}

impl ClockDomain {
    /// Creates a domain in its inactive phase, first transition after the initial delay.
    pub fn new(name: String, timing: ClockTiming) -> (r: Self)
        ensures
            r.name@ == name@,
            r.timing == timing,
            r.phase == ClockPhase::Inactive,
            r.remaining == timing.spec_first_active_after(),
    {
        ClockDomain {
            name,
            timing,
            phase: ClockPhase::Inactive,
            remaining: timing.first_active_after(),
        }
    }
}

/// Whether two domains agree on name, timing, phase and remaining time.
pub open spec fn same_domain(a: ClockDomain, b: ClockDomain) -> bool {
    a.name@ == b.name@ && a.timing == b.timing && a.phase == b.phase && a.remaining == b.remaining
}

/// Independently timed clocks: one required primary clock and secondary
/// clocks in registration order, all with distinct non-empty names.
pub struct ClockScheduler {
    primary: ClockDomain,
    secondary: Vec<ClockDomain>,
}

impl View for ClockScheduler {
    type V = Seq<ClockDomain>;

    closed spec fn view(&self) -> Seq<ClockDomain> {
        seq![self.primary] + self.secondary@
    }
}

/// Whether all names of a domain sequence are non-empty and distinct.
pub open spec fn valid_domains(domains: Seq<ClockDomain>) -> bool {
    &&& domains.len() >= 1
    &&& forall|i: int| 0 <= i < domains.len() ==> #[trigger] domains[i].name@.len() > 0
    &&& forall|i: int, j: int|
        0 <= i < j < domains.len() ==> #[trigger] domains[i].name@ != #[trigger] domains[j].name@
}

/// Validates a diagnostic clock name.
pub fn validate_clock_name(name: &str) -> (r: Result<(), ClockConfigurationError>)
    ensures
        r is Ok <==> name@.len() > 0,
        r is Err ==> r == Err::<(), ClockConfigurationError>(ClockConfigurationError::EmptyName),
{
    if name.unicode_len() == 0 {
        return Err(ClockConfigurationError::EmptyName);
    }
    Ok(())
}

impl ClockScheduler {
    /// All registered names are non-empty and distinct.
    pub open spec fn wf(&self) -> bool {
        valid_domains(self@)
    }

    /// Creates a scheduler with one required primary clock.
    pub fn new(name: String, timing: ClockTiming) -> (r: Result<Self, ClockConfigurationError>)
        ensures
            match r {
                Ok(s) => s.wf() && name@.len() > 0 && s@.len() == 1 && s@[0].name@ == name@ && s@[0].timing
                    == timing && s@[0].phase == ClockPhase::Inactive && s@[0].remaining
                    == timing.spec_first_active_after(),
                Err(e) => name@.len() == 0 && e == ClockConfigurationError::EmptyName,
            },
    {
        validate_clock_name(name.as_str())?;
        let primary = ClockDomain::new(name, timing);
        let s = ClockScheduler { primary, secondary: Vec::new() };
        assert(s@ =~= seq![primary]);
        Ok(s)
    }

    /// Registered domains in registration order, the primary first.
    pub fn domains(&self) -> (r: Vec<ClockDomain>)
        ensures
            r@.len() == self@.len(),
            forall|i: int| 0 <= i < r@.len() ==> same_domain(#[trigger] r@[i], self@[i]),
    {
        let mut out: Vec<ClockDomain> = Vec::new();
        out.push(self.primary.clone_domain());
        assert(self@.len() == self.secondary@.len() + 1);
        assert(self@[0] == self.primary);
        let mut i: usize = 0;
        while i < self.secondary.len()
            invariant
                i <= self.secondary@.len(),
                out@.len() == i + 1,
                self@ == seq![self.primary] + self.secondary@,
                forall|k: int| 0 <= k < out@.len() ==> same_domain(#[trigger] out@[k], self@[k]),
            decreases self.secondary@.len() - i,
        {
            let d = self.secondary[i].clone_domain();
            let ghost before = out@;
            out.push(d);
            assert(self@[i + 1] == self.secondary@[i as int]);
            assert forall|k: int| 0 <= k < out@.len() implies same_domain(#[trigger] out@[k], self@[k]) by {
                if k < before.len() {
                    assert(out@[k] == before[k]);
                }
            }
            i = i + 1;
        }
        out
    }

    /// Checks whether a clock with the given diagnostic name is registered.
    pub fn contains_name(&self, name: &str) -> (r: bool)
        ensures
            r == exists|i: int| 0 <= i < self@.len() && #[trigger] self@[i].name@ == name@,
    {
        if str_eq(self.primary.name.as_str(), name) {
            assert(self@[0] == self.primary);
            return true;
        }
        let mut i: usize = 0;
        while i < self.secondary.len()
            invariant
                i <= self.secondary@.len(),
                self.primary.name@ != name@,
                forall|k: int| 0 <= k < i ==> self.secondary@[k].name@ != name@,
            decreases self.secondary@.len() - i,
        {
            if str_eq(self.secondary[i].name.as_str(), name) {
                assert(self@[i + 1] == self.secondary@[i as int]);
                return true;
            }
            i = i + 1;
        }
        assert forall|k: int| 0 <= k < self@.len() implies #[trigger] self@[k].name@ != name@ by {
            if k > 0 {
                assert(self@[k] == self.secondary@[k - 1]);
            }
        }
        false
    }

    /// Registers one secondary clock after the existing ones.
    pub fn add_clock(&mut self, name: String, timing: ClockTiming) -> (r: Result<
        (),
        ClockConfigurationError,
    >)
        requires
            old(self).wf(),
        ensures
            final(self).wf(),
            match r {
                Ok(()) => {
                    &&& name@.len() > 0
                    &&& forall|i: int| 0 <= i < old(self)@.len() ==> #[trigger] old(self)@[i].name@
                        != name@
                    &&& final(self)@.len() == old(self)@.len() + 1
                    &&& final(self)@.subrange(0, old(self)@.len() as int) == old(self)@
                    &&& final(self)@.last().name@ == name@
                    &&& final(self)@.last().timing == timing
                    &&& final(self)@.last().phase == ClockPhase::Inactive
                    &&& final(self)@.last().remaining == timing.spec_first_active_after()
                },
                Err(e) => {
                    &&& final(self)@ == old(self)@
                    &&& if name@.len() == 0 {
                        e == ClockConfigurationError::EmptyName
                    } else {
                        &&& exists|i: int|
                            0 <= i < old(self)@.len() && #[trigger] old(self)@[i].name@ == name@
                        &&& e matches ClockConfigurationError::DuplicateName { name: n } && n@
                            == name@
                    }
                },
            },
    {
        validate_clock_name(name.as_str())?;
        if self.contains_name(name.as_str()) {
            return Err(ClockConfigurationError::DuplicateName { name });
        }
        let domain = ClockDomain::new(name, timing);
        let ghost before = self@;
        self.secondary.push(domain);
        proof {
            assert(self@ =~= before.push(domain));
            assert forall|i: int, j: int|
                0 <= i < j < self@.len() implies #[trigger] self@[i].name@ != #[trigger] self@[j].name@ by {
                if j == self@.len() - 1 {
                    assert(self@[i] == before[i]);
                } else {
                    assert(self@[i] == before[i]);
                    assert(self@[j] == before[j]);
                }
            }
            assert(self@.subrange(0, before.len() as int) =~= before);
        }
        Ok(())
    }

    /// Adds one secondary clock in registration order, consuming the scheduler.
    pub fn with_clock(self, name: String, timing: ClockTiming) -> (r: Result<
        Self,
        ClockConfigurationError,
    >)
        requires
            self.wf(),
        ensures
            match r {
                Ok(s) => {
                    &&& s.wf()
                    &&& name@.len() > 0
                    &&& forall|i: int| 0 <= i < self@.len() ==> #[trigger] self@[i].name@ != name@
                    &&& s@.len() == self@.len() + 1
                    &&& s@.subrange(0, self@.len() as int) == self@
                    &&& s@.last().name@ == name@
                    &&& s@.last().timing == timing
                },
                Err(e) => if name@.len() == 0 {
                    e == ClockConfigurationError::EmptyName
                } else {
                    e matches ClockConfigurationError::DuplicateName { name: n } && n@ == name@
                },
            },
    {
        let mut scheduler = self;
        scheduler.add_clock(name, timing)?;
        Ok(scheduler)
    }
}

impl ClockDomain {
    /// Copies the domain, its name included.
    pub fn clone_domain(&self) -> (r: Self)
        ensures
            r.name@ == self.name@,
            r.timing == self.timing,
            r.phase == self.phase,
            r.remaining == self.remaining,
    {
        ClockDomain {
            name: self.name.clone(),
            timing: self.timing,
            phase: self.phase,
            remaining: self.remaining,
        }
    }
}

} // verus!

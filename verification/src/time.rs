use vstd::prelude::*;

verus! {

/// A non-zero simulation time step, in ticks.
#[derive(Debug, Clone, Copy, PartialEq, Eq, Hash)]
pub struct TimeStep {
    ticks: u64,
}

/// Error returned for a zero time step.
#[derive(Debug, Clone, Copy, PartialEq, Eq)]
pub struct InvalidTimeStep;

impl View for TimeStep {
    type V = u64;

    closed spec fn view(&self) -> u64 {
        self.ticks
    }
}

impl TimeStep {
    #[verifier::type_invariant]
    closed spec fn inv(self) -> bool {
        self.ticks > 0
    }

    /// Creates a time step of `ticks` ticks; zero is rejected.
    pub fn new(ticks: u64) -> (r: Result<Self, InvalidTimeStep>)
        ensures
            match r {
                Ok(step) => ticks > 0 && step@ == ticks,
                Err(_) => ticks == 0,
            },
    {
        if ticks == 0 {
            Err(InvalidTimeStep)
        } else {
            Ok(TimeStep { ticks })
        }
    }

    /// The one-tick step.
    pub fn one() -> (r: Self)
        ensures
            r@ == 1,
    {
        TimeStep { ticks: 1 }
    }

    /// Returns the step length in ticks.
    pub fn get(self) -> (r: u64)
        ensures
            r == self@,
            r > 0,
    {
        proof {
            use_type_invariant(&self);
        }
        self.ticks
    }
}

/// Inactive and active phase durations of one clock cycle.
#[derive(Debug, Clone, Copy, PartialEq, Eq, Hash)]
pub struct CycleTiming {
    /// Duration of the inactive phase.
    pub inactive: TimeStep,
    /// Duration of the active phase.
    pub active: TimeStep,
}

impl CycleTiming {
    /// Creates cycle timing from its two phase durations.
    pub fn new(inactive: TimeStep, active: TimeStep) -> (r: Self)
        ensures
            r == (CycleTiming { inactive, active }),
    {
        CycleTiming { inactive, active }
    }

    /// One tick inactive, one tick active.
    pub fn unit() -> (r: Self)
        ensures
            r.inactive@ == 1 && r.active@ == 1,
    {
        CycleTiming { inactive: TimeStep::one(), active: TimeStep::one() }
    }

    /// Returns the inactive-phase duration.
    pub fn inactive_phase(self) -> (r: TimeStep)
        ensures
            r == self.inactive,
    {
        self.inactive
    }

    /// Returns the active-phase duration.
    pub fn active_phase(self) -> (r: TimeStep)
        ensures
            r == self.active,
    {
        self.active
    }
}

/// Absolute simulation time, in ticks.
#[derive(Debug, Clone, Copy, PartialEq, Eq, PartialOrd, Ord, Hash, Default)]
pub struct SimulationTime {
    /// Elapsed ticks.
    pub ticks: u64,
}

impl SimulationTime {
    /// Time zero.
    pub fn zero() -> (r: Self)
        ensures
            r.ticks == 0,
    {
        SimulationTime { ticks: 0 }
    }

    /// Time at `ticks` ticks.
    pub fn from_ticks(ticks: u64) -> (r: Self)
        ensures
            r.ticks == ticks,
    {
        SimulationTime { ticks }
    }

    /// Returns the elapsed ticks.
    pub fn ticks(self) -> (r: u64)
        ensures
            r == self.ticks,
    {
        self.ticks
    }

    /// Advances by one step, or `None` on overflow.
    pub fn checked_add(self, step: TimeStep) -> (r: Option<Self>)
        ensures
            match r {
                Some(t) => t.ticks == self.ticks + step@,
                None => self.ticks + step@ > u64::MAX,
            },
    {
        let delta = step.get();
        if self.ticks > u64::MAX - delta {
            None
        } else {
            Some(SimulationTime { ticks: self.ticks + delta })
        }
    }
}

} // verus!

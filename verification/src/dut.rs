use vstd::prelude::*;

use crate::time::{SimulationTime, TimeStep};

verus! {

/// Lifecycle of a device under test.
///
/// A DUT may state how it keeps time, by `keeps_time`: evaluation and
/// finalization leave its time alone, `simulation_time` reports it, and a
/// successful advance adds exactly the step. A DUT that states nothing
/// (the default) promises nothing of the kind.
pub trait Dut {
    /// Error reported by the DUT backend.
    type Error;

    /// The simulation time the DUT holds.
    open spec fn spec_time(&self) -> SimulationTime {
        vstd::pervasive::arbitrary()
    }

    /// Whether this DUT keeps time as described above.
    open spec fn keeps_time() -> bool {
        false
    }

    /// Evaluates the DUT's combinational and sequential logic; it does not
    /// advance time.
    fn evaluate(&mut self) -> (r: Result<(), Self::Error>)
        ensures
            Self::keeps_time() ==> final(self).spec_time() == old(self).spec_time(),
    ;

    /// Returns the DUT's current simulation time.
    fn simulation_time(&self) -> (r: SimulationTime)
        ensures
            Self::keeps_time() ==> r == self.spec_time(),
    ;

    /// Advances simulation time by one step.
    fn advance_time(&mut self, delta: TimeStep) -> (r: Result<(), Self::Error>)
        ensures
            Self::keeps_time() && r is Ok ==> final(self).spec_time().ticks == old(self).spec_time().ticks
                + delta@,
    ;

    /// Finalizes the DUT at the end of a run.
    fn finalize(&mut self) -> (r: Result<(), Self::Error>)
        ensures
            Self::keeps_time() ==> final(self).spec_time() == old(self).spec_time(),
    ;
}

/// A DUT with internally scheduled delayed events.
pub trait TimedDut: Dut {
    /// Returns whether delayed events are pending.
    fn events_pending(&self) -> Result<bool, Self::Error>;

    /// Returns the next time slot with a scheduled event.
    fn next_time_slot(&self) -> Result<Option<SimulationTime>, Self::Error>;
}

/// A stimulus value that can drive a particular DUT.
///
/// Driving changes DUT inputs only; it neither evaluates the DUT nor advances
/// simulation time.
pub trait Drive<D: Dut> {
    /// Whether driving states that it leaves the time of a time-keeping
    /// DUT alone; false unless an implementation says so.
    open spec fn drive_keeps_time() -> bool {
        false
    }

    /// Drives the stimulus to the DUT.
    fn drive(&self, dut: &mut D) -> (r: Result<(), D::Error>)
        ensures
            Self::drive_keeps_time() && D::keeps_time() ==> final(dut).spec_time() == old(dut).spec_time(),
    ;
}

/// An observation sampled from a particular DUT.
///
/// Sampling reads current state only; it neither evaluates the DUT nor
/// advances simulation time.
pub trait Sample<D: Dut>: Sized {
    /// Samples the current DUT outputs.
    fn sample(dut: &D) -> Result<Self, D::Error>;
}

/// Predicts expected behaviour from applied stimuli; may keep state between predictions.
pub trait ReferenceModel<S> {
    /// Expected value predicted by the model.
    type Expected;

    /// Updates the model from one stimulus and returns the expected result.
    fn predict(&mut self, stimulus: &S) -> Self::Expected;
}

/// Drives the inactive and active phases of a synchronous DUT clock.
///
/// Clock driving changes only the clock input; evaluation remains the
/// responsibility of the testbench runner.
pub trait Clock<D: Dut> {
    /// Whether clock driving states that it leaves the time of a
    /// time-keeping DUT alone; false unless an implementation says so.
    open spec fn clock_keeps_time() -> bool {
        false
    }

    /// Drives the clock to its inactive phase.
    fn drive_inactive(&mut self, dut: &mut D) -> (r: Result<(), D::Error>)
        ensures
            Self::clock_keeps_time() && D::keeps_time() ==> final(dut).spec_time() == old(dut).spec_time(),
    ;

    /// Drives the clock to its active phase.
    fn drive_active(&mut self, dut: &mut D) -> (r: Result<(), D::Error>)
        ensures
            Self::clock_keeps_time() && D::keeps_time() ==> final(dut).spec_time() == old(dut).spec_time(),
    ;
}

} // verus!

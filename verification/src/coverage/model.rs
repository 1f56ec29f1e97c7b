use vstd::prelude::*;

use crate::coverage::group::{
    group_validation_outcome, validate_group, CoverageGroup, CoverageGroupInstance,
    CoverageGroupVisitor,
};
use crate::coverage::item::CoverageItemRef;
use crate::coverage::group_error::CoverageGroupError;
use crate::coverage::identifier::{valid_identifier, valid_path};
use crate::coverage::model_error::{CoverageDefinitionError, CoverageRuntimeError};
use crate::time::SimulationTime;

verus! {

/// One completed primary cycle as a coverage model sees it.
pub struct ObservedCycle<'a, S, O> {
    /// Primary cycle number.
    pub cycle: u64,
    /// Simulation time of the observation.
    pub time: SimulationTime,
    /// Stimulus applied in the cycle.
    pub stimulus: &'a S,
    /// Observation sampled in the cycle.
    pub observed: &'a O,
}

impl<'a, S, O> ObservedCycle<'a, S, O> {
    /// Returns the primary cycle number.
    pub fn cycle(&self) -> (r: u64)
        ensures
            r == self.cycle,
    {
        self.cycle
    }

    /// Returns the simulation time.
    pub fn time(&self) -> (r: SimulationTime)
        ensures
            r == self.time,
    {
        self.time
    }

    /// Returns the applied stimulus.
    pub fn stimulus(&self) -> (r: &'a S)
        ensures
            *r == *self.stimulus,
    {
        self.stimulus
    }

    /// Returns the sampled observation.
    pub fn observed(&self) -> (r: &'a O)
        ensures
            *r == *self.observed,
    {
        self.observed
    }
}

/// Coverage group that samples itself from observed cycles.
pub trait CoverageModel<S, O>: CoverageGroup {
    /// Samples every item from one observed cycle.
    fn sample(&mut self, cycle: ObservedCycle<'_, S, O>) -> Result<(), CoverageRuntimeError>;
}

/// Declared coverage definition: its name, revision and items.
pub trait CoverageSpec {
    /// The definition name.
    open spec fn spec_definition_name() -> Seq<char> {
        vstd::pervasive::arbitrary()
    }

    /// The definition revision.
    open spec fn spec_definition_revision() -> u64 {
        vstd::pervasive::arbitrary()
    }

    /// The declared items in definition order.
    open spec fn spec_declared_items(&self) -> Seq<CoverageItemRef> {
        vstd::pervasive::arbitrary()
    }

    /// Reusable definition name.
    fn definition_name() -> (r: &'static str)
        ensures
            r@ == Self::spec_definition_name(),
    ;

    /// Semantic definition revision.
    fn definition_revision() -> (r: u64)
        ensures
            r == Self::spec_definition_revision(),
    ;

    /// Visits every declared item in definition order: the visitor receives
    /// the declared items, in order, after what it held.
    fn visit_coverage_items<V: CoverageGroupVisitor>(&self, visitor: &mut V)
        ensures
            final(visitor).spec_received() == old(visitor).spec_received() + self.spec_declared_items(),
    ;
}

/// Declared coverage definition that samples its items from observed cycles.
pub trait CoverageSampleSpec<S, O>: CoverageSpec {
    /// Samples every declared item from one observed cycle.
    fn sample_coverage_items(&mut self, cycle: ObservedCycle<'_, S, O>) -> Result<
        (),
        CoverageRuntimeError,
    >;
}

/// Validated instance of a declared coverage model.
pub struct CoverageInstance<M> {
    instance: CoverageGroupInstance,
    model: M,
}

impl<M> CoverageInstance<M> {
    /// Group identity.
    pub closed spec fn spec_instance(&self) -> CoverageGroupInstance {
        self.instance
    }

    /// Model.
    pub closed spec fn spec_model(&self) -> M {
        self.model
    }

    /// Returns the group identity.
    pub fn group_instance(&self) -> (r: &CoverageGroupInstance)
        ensures
            *r == self.spec_instance(),
    {
        &self.instance
    }

    /// Returns the model.
    pub fn model(&self) -> (r: &M)
        ensures
            *r == self.spec_model(),
    {
        &self.model
    }

    /// Returns the model for mutation.
    pub fn model_mut(&mut self) -> (r: &mut M)
        ensures
            *r == old(self).spec_model(),
            final(self).spec_instance() == old(self).spec_instance(),
            final(self).spec_model() == *final(r),
    {
        &mut self.model
    }

    /// Returns the owned model.
    pub fn into_model(self) -> (r: M)
        ensures
            r == self.spec_model(),
    {
        self.model
    }
}

impl<M: CoverageSpec> CoverageInstance<M> {
    /// Constructs and validates one instance of a declared model.
    pub fn __vvm_new(instance_path: &str, model: M) -> (r: Result<Self, CoverageDefinitionError>)
        ensures
            !valid_identifier(M::spec_definition_name()) ==> (r matches Err(
                CoverageDefinitionError::Group {
                    source: CoverageGroupError::InvalidDefinitionName { name },
                },
            ) && name@ == M::spec_definition_name()),
            valid_identifier(M::spec_definition_name()) && !valid_path(instance_path@) ==> (r matches Err(
                CoverageDefinitionError::Group {
                    source: CoverageGroupError::InvalidInstancePath { path },
                },
            ) && path@ == instance_path@),
            valid_identifier(M::spec_definition_name()) && valid_path(instance_path@) ==> exists|
                id: CoverageGroupInstance,
                v: Result<(), CoverageGroupError>,
            |
                #![trigger group_validation_outcome(v, id, model.spec_declared_items())]
                id.spec_definition_name() == M::spec_definition_name()
                    && id.spec_instance_path() == instance_path@ && id.spec_revision()
                    == M::spec_definition_revision() && group_validation_outcome(
                    v,
                    id,
                    model.spec_declared_items(),
                ) && match v {
                    Ok(()) => r matches Ok(c) && c.spec_model() == model && c.spec_instance() == id,
                    Err(e) => r == Err::<Self, CoverageDefinitionError>(
                        CoverageDefinitionError::Group { source: e },
                    ),
                },
    {
        let instance = match CoverageGroupInstance::new_with_revision(
            M::definition_name(),
            instance_path,
            M::definition_revision(),
        ) {
            Ok(i) => i,
            Err(source) => {
                return Err(CoverageDefinitionError::Group { source });
            },
        };
        let ghost id = instance;
        let coverage = CoverageInstance { instance, model };
        let v = validate_group(&coverage);
        assert(group_validation_outcome(v, id, model.spec_declared_items()));
        match v {
            Ok(()) => Ok(coverage),
            Err(source) => Err(CoverageDefinitionError::Group { source }),
        }
    }
}

impl<M: CoverageSpec> CoverageGroup for CoverageInstance<M> {
    open spec fn spec_group_instance(&self) -> CoverageGroupInstance {
        self.spec_instance()
    }

    open spec fn spec_group_items(&self) -> Seq<CoverageItemRef> {
        self.spec_model().spec_declared_items()
    }

    fn instance(&self) -> &CoverageGroupInstance {
        &self.instance
    }

    fn visit_items<V: CoverageGroupVisitor>(&self, visitor: &mut V) {
        self.model.visit_coverage_items(visitor);
    }
}

impl<M: CoverageSampleSpec<S, O>, S, O> CoverageModel<S, O> for CoverageInstance<M> {
    fn sample(&mut self, cycle: ObservedCycle<'_, S, O>) -> Result<(), CoverageRuntimeError> {
        self.model.sample_coverage_items(cycle)
    }
}

} // verus!

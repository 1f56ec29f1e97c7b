use vstd::prelude::*;
use vstd::string::*;

use crate::coverage::cross_error::{
    cross_build_error_text, cross_sample_error_text, CrossBuildError, CrossSampleError,
};
use crate::coverage::error::{
    build_error_text, sample_error_text, CoverageBuildError, CoverageSampleError,
};
use crate::coverage::group_error::{group_error_text, CoverageGroupError};
use crate::result::{time_text, time_to_text};
use crate::text::{decimal_spec, push_decimal, push_str};
use crate::time::SimulationTime;

verus! {

/// Failure while constructing a declared coverage model.
#[derive(Debug, Clone, PartialEq, Eq)]
pub enum CoverageDefinitionError {
    /// A coverpoint failed to build.
    Coverpoint {
        /// Declared item name.
        item: &'static str,
        /// Build error.
        source: CoverageBuildError,
    },
    /// A cross failed to build.
    Cross {
        /// Declared item name.
        item: &'static str,
        /// Build error.
        source: CrossBuildError,
    },
    /// The group identity or structure is invalid.
    Group {
        /// Group error.
        source: CoverageGroupError,
    },
}

/// Human-readable description of a definition error.
pub open spec fn definition_error_text(e: CoverageDefinitionError) -> Seq<char> {
    match e {
        CoverageDefinitionError::Coverpoint { item, source } =>
            "failed to build coverage coverpoint `"@ + item@ + "`: "@ + build_error_text(source),
        CoverageDefinitionError::Cross { item, source } => "failed to build coverage cross `"@
            + item@ + "`: "@ + cross_build_error_text(source),
        CoverageDefinitionError::Group { source } => "failed to construct coverage group: "@
            + group_error_text(source),
    }
}

impl CoverageDefinitionError {
    /// Returns the declared item name when an item failed.
    pub fn item(&self) -> (r: Option<&'static str>)
        ensures
            match *self {
                CoverageDefinitionError::Coverpoint { item, .. } => r == Some(item),
                CoverageDefinitionError::Cross { item, .. } => r == Some(item),
                CoverageDefinitionError::Group { .. } => r is None,
            },
    {
        match self {
            CoverageDefinitionError::Coverpoint { item, .. } => Some(*item),
            CoverageDefinitionError::Cross { item, .. } => Some(*item),
            CoverageDefinitionError::Group { .. } => None,
        }
    }

    /// Returns the coverpoint build error when applicable.
    pub fn coverpoint_source(&self) -> (r: Option<&CoverageBuildError>)
        ensures
            match *self {
                CoverageDefinitionError::Coverpoint { source, .. } => r == Some(&source),
                _ => r is None,
            },
    {
        match self {
            CoverageDefinitionError::Coverpoint { source, .. } => Some(source),
            _ => None,
        }
    }

    /// Returns the cross build error when applicable.
    pub fn cross_source(&self) -> (r: Option<&CrossBuildError>)
        ensures
            match *self {
                CoverageDefinitionError::Cross { source, .. } => r == Some(&source),
                _ => r is None,
            },
    {
        match self {
            CoverageDefinitionError::Cross { source, .. } => Some(source),
            _ => None,
        }
    }

    /// Returns the group error when applicable.
    pub fn group_source(&self) -> (r: Option<&CoverageGroupError>)
        ensures
            match *self {
                CoverageDefinitionError::Group { source } => r == Some(&source),
                _ => r is None,
            },
    {
        match self {
            CoverageDefinitionError::Group { source } => Some(source),
            _ => None,
        }
    }

    /// Human-readable description of the error.
    pub fn message(&self) -> (r: String)
        ensures
            r@ == definition_error_text(*self),
    {
        let mut s = String::new();
        match self {
            CoverageDefinitionError::Coverpoint { item, source } => {
                push_str(&mut s, "failed to build coverage coverpoint `");
                push_str(&mut s, item);
                push_str(&mut s, "`: ");
                let inner = source.message();
                push_str(&mut s, inner.as_str());
            },
            CoverageDefinitionError::Cross { item, source } => {
                push_str(&mut s, "failed to build coverage cross `");
                push_str(&mut s, item);
                push_str(&mut s, "`: ");
                let inner = source.message();
                push_str(&mut s, inner.as_str());
            },
            CoverageDefinitionError::Group { source } => {
                push_str(&mut s, "failed to construct coverage group: ");
                let inner = source.message();
                push_str(&mut s, inner.as_str());
            },
        }
        s
    }
}

/// Kind of coverage item that failed while sampling.
#[derive(Debug, Clone, Copy, PartialEq, Eq, Hash, Structural)]
pub enum CoverageRuntimeItemKind {
    /// A coverpoint.
    Coverpoint,
    /// A cross.
    Cross,
}

/// Failure while sampling a declared coverage model.
#[derive(Debug, Clone, PartialEq, Eq)]
pub enum CoverageRuntimeError {
    /// A coverpoint rejected a sample.
    Coverpoint {
        /// Declared item name.
        item: &'static str,
        /// Primary cycle.
        cycle: u64,
        /// Simulation time.
        time: SimulationTime,
        /// Sampling error.
        source: CoverageSampleError,
    },
    /// A cross rejected a sample.
    Cross {
        /// Declared item name.
        item: &'static str,
        /// Primary cycle.
        cycle: u64,
        /// Simulation time.
        time: SimulationTime,
        /// Sampling error.
        source: CrossSampleError,
    },
}

/// Human-readable description of a runtime error.
pub open spec fn runtime_error_text(e: CoverageRuntimeError) -> Seq<char> {
    match e {
        CoverageRuntimeError::Coverpoint { item, cycle, time, source } =>
            "coverage coverpoint `"@ + item@ + "` failed at cycle "@ + decimal_spec(cycle as nat)
            + " at "@ + time_text(time) + ": "@ + sample_error_text(source),
        CoverageRuntimeError::Cross { item, cycle, time, source } => "coverage cross `"@ + item@
            + "` failed at cycle "@ + decimal_spec(cycle as nat) + " at "@ + time_text(time)
            + ": "@ + cross_sample_error_text(source),
    }
}

impl CoverageRuntimeError {
    /// Returns the declared item name.
    pub fn item(&self) -> (r: &'static str)
        ensures
            r == match *self {
                CoverageRuntimeError::Coverpoint { item, .. } => item,
                CoverageRuntimeError::Cross { item, .. } => item,
            },
    {
        match self {
            CoverageRuntimeError::Coverpoint { item, .. } => *item,
            CoverageRuntimeError::Cross { item, .. } => *item,
        }
    }

    /// Returns the primary cycle.
    pub fn cycle(&self) -> (r: u64)
        ensures
            r == match *self {
                CoverageRuntimeError::Coverpoint { cycle, .. } => cycle,
                CoverageRuntimeError::Cross { cycle, .. } => cycle,
            },
    {
        match self {
            CoverageRuntimeError::Coverpoint { cycle, .. } => *cycle,
            CoverageRuntimeError::Cross { cycle, .. } => *cycle,
        }
    }

    /// Returns the simulation time.
    pub fn time(&self) -> (r: SimulationTime)
        ensures
            r == match *self {
                CoverageRuntimeError::Coverpoint { time, .. } => time,
                CoverageRuntimeError::Cross { time, .. } => time,
            },
    {
        match self {
            CoverageRuntimeError::Coverpoint { time, .. } => *time,
            CoverageRuntimeError::Cross { time, .. } => *time,
        }
    }

    /// Returns the kind of the failing item.
    pub fn item_kind(&self) -> (r: CoverageRuntimeItemKind)
        ensures
            r == match *self {
                CoverageRuntimeError::Coverpoint { .. } => CoverageRuntimeItemKind::Coverpoint,
                CoverageRuntimeError::Cross { .. } => CoverageRuntimeItemKind::Cross,
            },
    {
        match self {
            CoverageRuntimeError::Coverpoint { .. } => CoverageRuntimeItemKind::Coverpoint,
            CoverageRuntimeError::Cross { .. } => CoverageRuntimeItemKind::Cross,
        }
    }

    /// Returns the coverpoint sampling error when applicable.
    pub fn coverpoint_source(&self) -> (r: Option<&CoverageSampleError>)
        ensures
            match *self {
                CoverageRuntimeError::Coverpoint { source, .. } => r == Some(&source),
                _ => r is None,
            },
    {
        match self {
            CoverageRuntimeError::Coverpoint { source, .. } => Some(source),
            _ => None,
        }
    }

    /// Returns the cross sampling error when applicable.
    pub fn cross_source(&self) -> (r: Option<&CrossSampleError>)
        ensures
            match *self {
                CoverageRuntimeError::Cross { source, .. } => r == Some(&source),
                _ => r is None,
            },
    {
        match self {
            CoverageRuntimeError::Cross { source, .. } => Some(source),
            _ => None,
        }
    }

    /// Human-readable description of the error.
    pub fn message(&self) -> (r: String)
        ensures
            r@ == runtime_error_text(*self),
    {
        let mut s = String::new();
        match self {
            CoverageRuntimeError::Coverpoint { item, cycle, time, source } => {
                push_str(&mut s, "coverage coverpoint `");
                push_str(&mut s, item);
                push_str(&mut s, "` failed at cycle ");
                push_decimal(&mut s, *cycle);
                push_str(&mut s, " at ");
                let t = time_to_text(*time);
                push_str(&mut s, t.as_str());
                push_str(&mut s, ": ");
                let inner = source.message();
                push_str(&mut s, inner.as_str());
            },
            CoverageRuntimeError::Cross { item, cycle, time, source } => {
                push_str(&mut s, "coverage cross `");
                push_str(&mut s, item);
                push_str(&mut s, "` failed at cycle ");
                push_decimal(&mut s, *cycle);
                push_str(&mut s, " at ");
                let t = time_to_text(*time);
                push_str(&mut s, t.as_str());
                push_str(&mut s, ": ");
                let inner = source.message();
                push_str(&mut s, inner.as_str());
            },
        }
        s
    }
}

} // verus!

//! Verified verification primitives: packed bit vectors, packed layouts,
//! functional coverage and testbench bookkeeping.
#![allow(unused_imports)]

/// Arbitrary-width packed bit values.
pub mod bits;

/// Packed aggregate layout helpers.
pub mod packed;

/// Verified text construction helpers.
pub mod text;

/// Explicit simulation time.
pub mod time;

/// Bounded check-failure policy.
pub mod failure_policy;

/// Raw bidirectional-port state snapshots.
pub mod inout;

/// Scoreboard abstraction and exact-equality implementation.
pub mod scoreboard;

/// DUT, stimulus, sampling, reference-model and clock-driver abstractions.
pub mod dut;

/// Clock timing configuration and multi-clock scheduling.
pub mod clock;

/// Functional coverage primitives.
pub mod coverage;

/// Seeds, replay tokens and the deterministic random source.
pub mod random;

/// Check failures, simulation errors, run results and their reports.
pub mod result;

/// Registered tests, their outcomes and runs.
pub mod registry;

/// Per-test coverage context and diagnostics.
pub mod test_context;

/// Reusable synchronous testbench runner.
pub mod testbench;

pub use crate::bits::{Bits, InvalidBitVectorWordCount, SignedBits};
pub use crate::testbench::{record_check_outcome, PrimaryClock, Testbench, Unconfigured};
pub use crate::dut::{Clock, Drive, Dut, ReferenceModel, Sample, TimedDut};
pub use crate::scoreboard::{ExactScoreboard, Mismatch, Scoreboard};
pub use crate::clock::{
    ClockConfigurationError, ClockDomain, ClockPhase, ClockScheduler, ClockTiming,
};
pub use crate::coverage::bin::{Bin, BinId, BinKind, CoverpointBin};
pub use crate::coverage::coverpoint::{
    CoverageSampleDisposition, Coverpoint, CoverpointBuilder, CoverpointSample,
};
pub use crate::coverage::cross::{
    Cross2, Cross2Builder, CrossBin, CrossSample, CrossSampleDisposition,
};
pub use crate::coverage::cross_error::{
    CrossAxis, CrossBinId, CrossBuildError, CrossCounterKind, CrossSampleError,
};
pub use crate::coverage::error::{CoverageBuildError, CoverageCounterKind, CoverageSampleError};
pub use crate::coverage::group::{
    capture_group, CoverageGroup, CoverageGroupInstance, CoverageGroupSummary,
    CoverageGroupVisitor,
};
pub use crate::coverage::group_error::{CoverageGroupCountKind, CoverageGroupError};
pub use crate::coverage::item::{CoverageItemKind, CoverageItemRef};
pub use crate::coverage::matcher::{BinMatcher, BinMatcherKind, MatcherValidationError};
pub use crate::coverage::percentage::CoveragePercentage;
pub use crate::coverage::ratio::CoverageRatio;
pub use crate::coverage::session::{
    CoverageSession, CoverageSessionSnapshot, CoverageSessionSummary,
};
pub use crate::coverage::session_error::{CoverageSessionCountKind, CoverageSessionError};
pub use crate::coverage::snapshot::{
    CoverageGroupSnapshot, CoverageItemSnapshot, CoverpointBinSnapshot, CoverpointSnapshot,
    Cross2Snapshot, CrossBinSnapshot,
};
pub use crate::failure_policy::{FailurePolicy, InvalidFailureLimit};
pub use crate::inout::InoutState;
pub use crate::packed::{PackedFieldLayout, PackedLayout, PackedLayoutError, PackedRange, PackedValue};
pub use crate::time::{CycleTiming, InvalidTimeStep, SimulationTime, TimeStep};
pub use crate::random::{
    ParseReplayTokenError, ParseSeedError, RandomAlgorithm, RandomContext, Randomize, ReplayToken,
    ReplayableSequence, Seed,
};
pub use crate::result::{CheckFailure, SimulationError, SimulationStage, TestResult};
pub use crate::registry::{
    IntoTestOutcome, TestDescriptor, TestKind, TestOutcome, TestRegistry, TestRegistryError, TestRun,
    TestRunConfig, TestStatistics, TestStatus,
};
pub use crate::coverage::model::{
    CoverageInstance, CoverageModel, CoverageSampleSpec, CoverageSpec, ObservedCycle,
};
pub use crate::coverage::model_error::{
    CoverageDefinitionError, CoverageRuntimeError, CoverageRuntimeItemKind,
};
pub use crate::test_context::{FinishedTestContext, TestContext, TestDiagnostic, TestDiagnosticKind};
pub use crate::coverage::artifact::{CoverageArtifact, CoverageArtifactGroup};
pub use crate::coverage::artifact_error::{CoverageIoOperation, CoveragePersistenceError};
pub use crate::coverage::fingerprint::CoverageDefinitionFingerprint;
pub use crate::coverage::merge::{CoverageMergeInput, CoverageMergePolicy};
pub use crate::coverage::merge_document::{CoverageMerge, CoverageMergeSummary};
pub use crate::coverage::merge_error::{
    CoverageMergeCountKind, CoverageMergeCounterKind, CoverageMergeError,
};
pub use crate::coverage::record::{
    ArtifactRecord, CoverpointBinRecord, CrossBinRecord, DefinitionRecord, GroupRecord,
    GroupSummaryRecord, ItemRecord, MergeInputRecord, MergeRecord, MergeSummaryRecord, RatioRecord,
    SessionSummaryRecord,
};
pub use crate::coverage::report::{CoverageBinDetail, CoverageReport, CoverageReportOptions};
pub use crate::coverage::report_html::push_html_escaped;

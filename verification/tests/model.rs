use vvm_core::{
    CoverageBuildError, CoverageCounterKind, CoverageDefinitionError, CoverageGroupError,
    CoverageGroupVisitor, CoverageInstance, CoverageRuntimeError, CoverageRuntimeItemKind,
    CoverageSampleError, CoverageSpec, CrossAxis, CrossSampleError, SimulationTime,
    TestDiagnostic, TestDiagnosticKind,
};

struct EmptyModel;

impl CoverageSpec for EmptyModel {
    fn definition_name() -> &'static str {
        "decoder"
    }

    fn definition_revision() -> u64 {
        2
    }

    fn visit_coverage_items<V: CoverageGroupVisitor>(&self, _visitor: &mut V) {}
}

#[test]
fn coverage_instance_reports_invalid_group_identity() {
    let error = CoverageInstance::__vvm_new("dut..decoder", EmptyModel)
        .map(|_| ())
        .expect_err("invalid instance paths must be rejected");
    assert!(matches!(
        error,
        CoverageDefinitionError::Group { ref source }
            if matches!(source, CoverageGroupError::InvalidInstancePath { path } if path == "dut..decoder")
    ));
}

#[test]
fn coverage_instance_validates_its_model_items() {
    let error = CoverageInstance::__vvm_new("dut.decoder", EmptyModel)
        .map(|_| ())
        .expect_err("coverage models must expose at least one item");
    assert!(matches!(
        error,
        CoverageDefinitionError::Group { ref source } if matches!(source, CoverageGroupError::EmptyGroup { .. })
    ));
}

#[test]
fn definition_errors_retain_the_typed_source() {
    let error = CoverageDefinitionError::Coverpoint {
        item: "opcode",
        source: CoverageBuildError::NoNormalBins { coverpoint: "opcode".into() },
    };
    assert_eq!(error.item(), Some("opcode"));
    assert!(matches!(error.coverpoint_source(), Some(CoverageBuildError::NoNormalBins { .. })));
    assert_eq!(error.cross_source(), None);
    assert_eq!(error.group_source(), None);
    assert_eq!(
        error.message(),
        "failed to build coverage coverpoint `opcode`: coverpoint `opcode` contains no normal bins"
    );
}

#[test]
fn runtime_errors_retain_sampling_location_and_source_kind() {
    let error = CoverageRuntimeError::Cross {
        item: "opcode_x_response",
        cycle: 12,
        time: SimulationTime::from_ticks(48),
        source: CrossSampleError::SourceMismatch {
            cross: "opcode_x_response".into(),
            axis: CrossAxis::Left,
            expected: "opcode".into(),
            actual: "other_opcode".into(),
        },
    };
    assert_eq!(error.item(), "opcode_x_response");
    assert_eq!(error.cycle(), 12);
    assert_eq!(error.time(), SimulationTime::from_ticks(48));
    assert_eq!(error.item_kind(), CoverageRuntimeItemKind::Cross);
    assert_eq!(error.coverpoint_source(), None);
    assert!(matches!(error.cross_source(), Some(CrossSampleError::SourceMismatch { .. })));
    assert_eq!(
        error.message(),
        "coverage cross `opcode_x_response` failed at cycle 12 at 48 ticks: cross `opcode_x_response` expected left sample from `opcode`, but received a sample from `other_opcode`"
    );
    let coverpoint = CoverageRuntimeError::Coverpoint {
        item: "opcode",
        cycle: 0,
        time: SimulationTime::zero(),
        source: CoverageSampleError::CounterOverflow {
            coverpoint: "opcode".into(),
            bin: None,
            counter: CoverageCounterKind::Samples,
        },
    };
    assert_eq!(coverpoint.item_kind(), CoverageRuntimeItemKind::Coverpoint);
    assert!(coverpoint.coverpoint_source().is_some());
}

#[test]
fn sampling_diagnostic_retains_typed_source() {
    let runtime = CoverageRuntimeError::Coverpoint {
        item: "opcode",
        cycle: 7,
        time: SimulationTime::from_ticks(12),
        source: CoverageSampleError::CounterOverflow {
            coverpoint: "opcode".to_owned(),
            bin: Some("reserved".to_owned()),
            counter: CoverageCounterKind::BinHits,
        },
    };
    let diagnostic = TestDiagnostic::CoverageSampling { source: runtime };
    assert_eq!(diagnostic.kind(), TestDiagnosticKind::CoverageSampling);
    assert_eq!(diagnostic.coverage_runtime_error().map(|e| e.item()), Some("opcode"));
    assert!(diagnostic.coverage_session_error().is_none());
    assert!(diagnostic.test_name().is_none());
    assert_eq!(
        diagnostic.message(),
        "coverage sampling: coverage coverpoint `opcode` failed at cycle 7 at 12 ticks: functional coverage counter overflow in `opcode.reserved`: bin hit count",
    );
}

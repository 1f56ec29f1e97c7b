use vvm_core::{
    BinId, BinKind, CoverageBuildError, CoverageCounterKind, CoverageSampleError, CrossAxis,
    CrossBinId, CrossBuildError, CrossCounterKind, CrossSampleError,
};

fn illegal_error(bins: &[&str]) -> CoverageSampleError {
    CoverageSampleError::IllegalBinHit {
        coverpoint: "opcode".into(),
        bins: bins.iter().map(|b| b.to_string()).collect(),
        sampled_value: "255".into(),
    }
}

fn overflow_error(bin: Option<&str>, counter: CoverageCounterKind) -> CoverageSampleError {
    CoverageSampleError::CounterOverflow {
        coverpoint: "opcode".into(),
        bin: bin.map(str::to_owned),
        counter,
    }
}

#[test]
fn formats_invalid_coverpoint_name() {
    assert_eq!(
        CoverageBuildError::InvalidCoverpointName { name: "bad name".into() }.message(),
        "coverpoint name `bad name` is invalid"
    );
}

#[test]
fn formats_invalid_bin_name() {
    assert_eq!(
        CoverageBuildError::InvalidBinName { coverpoint: "opcode".into(), bin: "bad name".into() }
            .message(),
        "coverpoint `opcode`, bin `bad name` name is invalid"
    );
}

#[test]
fn formats_duplicate_bin_name() {
    assert_eq!(
        CoverageBuildError::DuplicateBinName { coverpoint: "opcode".into(), bin: "read".into() }
            .message(),
        "coverpoint `opcode` already contains bin `read`"
    );
}

#[test]
fn formats_missing_normal_bin() {
    assert_eq!(
        CoverageBuildError::NoNormalBins { coverpoint: "opcode".into() }.message(),
        "coverpoint `opcode` contains no normal bins"
    );
}

#[test]
fn formats_empty_value_set() {
    assert_eq!(
        CoverageBuildError::EmptyValueSet { coverpoint: "opcode".into(), bin: "reads".into() }
            .message(),
        "coverpoint `opcode`, bin `reads` contains no values to match against"
    );
}

#[test]
fn formats_duplicate_value_indices() {
    let error = CoverageBuildError::DuplicateValue {
        coverpoint: "opcode".into(),
        bin: "reads".into(),
        first: 0,
        duplicate: 2,
    };
    assert_eq!(error.message(), "coverpoint `opcode`, bin `reads` contains duplicate values");
}

#[test]
fn formats_invalid_range() {
    assert_eq!(
        CoverageBuildError::InvalidInclusiveRange {
            coverpoint: "opcode".into(),
            bin: "range".into()
        }
        .message(),
        "coverpoint `opcode`, bin `range` inclusive range boundaries are invalid"
    );
}

#[test]
fn formats_zero_hit_threshold() {
    assert_eq!(
        CoverageBuildError::ZeroRequiredHits { coverpoint: "opcode".into(), bin: "read".into() }
            .message(),
        "coverpoint `opcode`, normal bin `read` hit threshold is zero"
    );
}

#[test]
fn formats_excluded_bin_hit_threshold() {
    let error = CoverageBuildError::HitRequirementOnExcludedBin {
        coverpoint: "opcode".into(),
        bin: "reset".into(),
        kind: BinKind::Ignore,
    };
    assert_eq!(
        error.message(),
        "coverpoint `opcode`, excluded ignore bin `reset` has a non-zero hit requirement"
    );
}

#[test]
fn formats_too_many_bins() {
    assert_eq!(
        CoverageBuildError::TooManyBins { coverpoint: "opcode".into() }.message(),
        "coverpoint `opcode` contains too many bins"
    );
}

#[test]
fn formats_single_illegal_bin_hit() {
    assert_eq!(
        illegal_error(&["reserved"]).message(),
        "illegal coverage bin hit in `opcode`: bins [`reserved`], sampled value 255"
    );
}

#[test]
fn formats_multiple_illegal_bin_hits() {
    assert_eq!(
        illegal_error(&["reserved_a", "reserved_b"]).message(),
        "illegal coverage bin hit in `opcode`: bins [`reserved_a`, `reserved_b`], sampled value 255"
    );
}

#[test]
fn formats_coverpoint_counter_overflow() {
    assert_eq!(
        overflow_error(None, CoverageCounterKind::Samples).message(),
        "functional coverage counter overflow in `opcode`: total sample count"
    );
}

#[test]
fn formats_bin_counter_overflow() {
    assert_eq!(
        overflow_error(Some("read"), CoverageCounterKind::BinHits).message(),
        "functional coverage counter overflow in `opcode.read`: bin hit count"
    );
}

#[test]
fn sample_error_returns_coverpoint_name() {
    assert_eq!(illegal_error(&["reserved"]).coverpoint(), "opcode");
    assert_eq!(overflow_error(None, CoverageCounterKind::Samples).coverpoint(), "opcode");
}

#[test]
fn illegal_error_returns_illegal_bin_names() {
    let expected = vec!["reserved".to_string()];
    assert_eq!(illegal_error(&["reserved"]).illegal_bins(), Some(expected.as_slice()));
}

#[test]
fn illegal_error_returns_sampled_value() {
    assert_eq!(illegal_error(&["reserved"]).sampled_value(), Some("255"));
}

#[test]
fn illegal_error_has_no_counter_kind() {
    assert_eq!(illegal_error(&["reserved"]).counter(), None);
}

#[test]
fn illegal_error_has_no_overflow_bin() {
    assert_eq!(illegal_error(&["reserved"]).bin(), None);
}

#[test]
fn overflow_error_returns_counter_kind() {
    assert_eq!(
        overflow_error(None, CoverageCounterKind::Samples).counter(),
        Some(CoverageCounterKind::Samples)
    );
}

#[test]
fn bin_overflow_returns_bin_name() {
    assert_eq!(overflow_error(Some("read"), CoverageCounterKind::BinHits).bin(), Some("read"));
}

#[test]
fn coverpoint_overflow_has_no_bin_name() {
    assert_eq!(overflow_error(None, CoverageCounterKind::Samples).bin(), None);
}

#[test]
fn overflow_error_has_no_illegal_bins() {
    assert_eq!(overflow_error(None, CoverageCounterKind::Samples).illegal_bins(), None);
}

#[test]
fn overflow_error_has_no_sampled_value() {
    assert_eq!(overflow_error(None, CoverageCounterKind::Samples).sampled_value(), None);
}

#[test]
fn build_errors_expose_the_affected_cross_when_available() {
    let invalid = CrossBuildError::InvalidName { name: "bad name".into() };
    let limited = CrossBuildError::BinLimitExceeded {
        cross: "opcode_x_response".into(),
        left_bins: 2,
        right_bins: 3,
        total_bins: 6,
        limit: 4,
    };

    assert_eq!(invalid.cross(), None);
    assert_eq!(invalid.message(), "invalid functional coverage cross name `bad name`");
    assert_eq!(limited.cross(), Some("opcode_x_response"));
    assert_eq!(
        limited.message(),
        "cross `opcode_x_response` would generate 6 bins, exceeding limit 4"
    );
}

#[test]
fn sample_errors_return_variant_specific_context() {
    let unknown = CrossSampleError::UnknownBin {
        cross: "opcode_x_response".into(),
        axis: CrossAxis::Right,
        coverpoint: "response".into(),
        bin: BinId::new(7),
    };
    let overflow = CrossSampleError::CounterOverflow {
        cross: "opcode_x_response".into(),
        bin: Some(CrossBinId::new(2)),
        counter: CrossCounterKind::BinHits,
    };

    assert_eq!(unknown.cross(), "opcode_x_response");
    assert_eq!(unknown.axis(), Some(CrossAxis::Right));
    assert_eq!(unknown.source_bin(), Some(BinId::new(7)));
    assert_eq!(unknown.expected(), None);
    assert_eq!(unknown.actual(), None);
    assert_eq!(
        unknown.message(),
        "cross `opcode_x_response` received unknown right bin ID from `response`"
    );
    assert_eq!(overflow.axis(), None);
    assert_eq!(overflow.bin(), Some(CrossBinId::new(2)));
    assert_eq!(overflow.counter(), Some(CrossCounterKind::BinHits));
    assert_eq!(
        overflow.message(),
        "functional coverage cross counter overflow in `opcode_x_response`: cross bin hit count (CrossBinId(2)): bin hit count"
    );
}

use std::str::FromStr;

use vvm_core::coverage::merge_counters::merge_point;
use vvm_core::{
    Bin, BinId, BinKind, BinMatcherKind, CoverageArtifact, CoverageDefinitionFingerprint,
    CoverageGroup, CoverageGroupInstance, CoverageGroupVisitor, CoverageItemRef,
    CoverageItemSnapshot, CoverageMerge, CoverageMergeCountKind, CoverageMergeCounterKind,
    CoverageMergeError, CoverageMergePolicy, CoveragePersistenceError, CoverageRatio,
    CoverageSession, CoverpointBinSnapshot, CoverpointSnapshot, Coverpoint, TestStatus,
};

struct Group {
    instance: CoverageGroupInstance,
    point: Coverpoint<u8>,
}

impl CoverageGroup for Group {
    fn instance(&self) -> &CoverageGroupInstance {
        &self.instance
    }

    fn visit_items<V: CoverageGroupVisitor>(&self, visitor: &mut V) {
        visitor.visit(CoverageItemRef::coverpoint(&self.point));
    }
}

fn artifact_at(
    test_name: &str,
    status: TestStatus,
    samples: usize,
    definition: &str,
    path: &str,
) -> CoverageArtifact {
    let mut point = Coverpoint::builder("opcode")
        .bin(Bin::value("read", 1_u8).at_least(2))
        .build()
        .expect("valid coverpoint");
    for _ in 0..samples {
        point.sample(&1).expect("sample");
    }
    let group = Group {
        instance: CoverageGroupInstance::new(definition, path).expect("valid identity"),
        point,
    };
    let mut session = CoverageSession::new(test_name).expect("valid test name");
    session.capture(&group).expect("capture");
    let snapshot = session.finish().expect("session snapshot");
    CoverageArtifact::from_session(status, None, snapshot).expect("artifact")
}

fn artifact(test_name: &str, status: TestStatus, samples: usize) -> CoverageArtifact {
    artifact_at(test_name, status, samples, "decoder", "dut.decoder")
}

fn keyed(items: Vec<(&str, CoverageArtifact)>) -> Vec<(String, CoverageArtifact)> {
    items.into_iter().map(|(k, a)| (k.to_string(), a)).collect()
}

#[test]
fn merge_counter_names_are_stable() {
    let counters = [
        (CoverageMergeCounterKind::CoverpointSamples, "coverpoint samples"),
        (CoverageMergeCounterKind::IgnoredSamples, "ignored samples"),
        (CoverageMergeCounterKind::IllegalSamples, "illegal samples"),
        (CoverageMergeCounterKind::UnmatchedSamples, "unmatched samples"),
        (CoverageMergeCounterKind::CoverpointBinHits, "coverpoint bin hits"),
        (CoverageMergeCounterKind::CrossSamples, "cross samples"),
        (CoverageMergeCounterKind::SkippedCrossSamples, "skipped cross samples"),
        (CoverageMergeCounterKind::CrossBinHits, "cross bin hits"),
    ];
    for (counter, expected) in counters {
        assert_eq!(counter.text(), expected);
    }
}

#[test]
fn merge_errors_format_policy_path_and_overflow_context() {
    let excluded = CoverageMergeError::NoIncludedArtifacts { policy: CoverageMergePolicy::PassedOnly };
    let duplicate =
        CoverageMergeError::DuplicateInputPath { path: "coverage/decoder.json".to_string() };
    let overflow = CoverageMergeError::CounterOverflow {
        instance_path: "dut.decoder".into(),
        item: "opcode".into(),
        bin: Some("read".into()),
        counter: CoverageMergeCounterKind::CoverpointBinHits,
    };
    let summary =
        CoverageMergeError::CountOverflow { counter: CoverageMergeCountKind::IncludedArtifacts };

    assert_eq!(excluded.message(), "coverage merge policy `passed_only` excluded every artifact");
    assert_eq!(duplicate.message(), "duplicate coverage input path `coverage/decoder.json`");
    assert_eq!(
        overflow.message(),
        "coverage merge overflow for coverpoint bin hits in `dut.decoder.opcode`"
    );
    assert_eq!(summary.message(), "coverage merge summary overflow for included artifacts");
}

#[test]
fn fingerprint_parses_its_stable_display_form() {
    let text = "sha256-v1:0000000000000000000000000000000000000000000000000000000000000000";
    let fingerprint = CoverageDefinitionFingerprint::from_str(text).expect("canonical form");
    assert_eq!(fingerprint.to_text(), text);
    assert_eq!(fingerprint.as_bytes(), &[0_u8; 32]);
}

#[test]
fn fingerprint_rejects_noncanonical_strings() {
    for value in [
        "sha256-v2:0000000000000000000000000000000000000000000000000000000000000000",
        "sha256-v1:000000000000000000000000000000000000000000000000000000000000000",
        "sha256-v1:AAAAAAAAAAAAAAAAAAAAAAAAAAAAAAAAAAAAAAAAAAAAAAAAAAAAAAAAAAAAAAAA",
        "sha256-v1:000000000000000000000000000000000000000000000000000000000000000g",
    ] {
        assert!(matches!(
            CoverageDefinitionFingerprint::from_str(value),
            Err(CoveragePersistenceError::InvalidFingerprint { .. })
        ));
    }
}

#[test]
fn fingerprint_text_round_trips() {
    let art = artifact("decoder_smoke", TestStatus::Passed, 0);
    let fingerprint = art.groups()[0].definition_fingerprint();
    let text = fingerprint.to_text();
    assert!(text.starts_with("sha256-v1:"));
    assert_eq!(text.len(), 10 + 64);
    assert_eq!(CoverageDefinitionFingerprint::from_str(&text).expect("parse"), fingerprint);
    assert_ne!(fingerprint.as_bytes(), &[0_u8; 32]);
}

#[test]
fn fingerprint_ignores_counters() {
    let cold = artifact("decoder_smoke", TestStatus::Passed, 0);
    let hot = artifact("decoder_random", TestStatus::Failed, 3);
    assert_eq!(cold.groups()[0].definition_fingerprint(), hot.groups()[0].definition_fingerprint());
    let other = artifact_at("decoder_smoke", TestStatus::Passed, 0, "decoder2", "dut.decoder");
    assert_ne!(cold.groups()[0].definition_fingerprint(), other.groups()[0].definition_fingerprint());
}

#[test]
fn default_policy_is_passed_only() {
    assert_eq!(CoverageMergePolicy::default(), CoverageMergePolicy::PassedOnly);
}

#[test]
fn policy_inclusion_is_explicit() {
    assert!(CoverageMergePolicy::passed_only().includes(TestStatus::Passed));
    assert!(!CoverageMergePolicy::passed_only().includes(TestStatus::Failed));
    assert!(CoverageMergePolicy::passed_and_failed().includes(TestStatus::Failed));
    assert!(!CoverageMergePolicy::passed_and_failed().includes(TestStatus::Error));
    assert!(CoverageMergePolicy::all().includes(TestStatus::Error));
}

#[test]
fn policy_round_trips_stable_strings() {
    for policy in [
        CoverageMergePolicy::PassedOnly,
        CoverageMergePolicy::PassedAndFailed,
        CoverageMergePolicy::All,
    ] {
        assert_eq!(policy.text().parse::<CoverageMergePolicy>().expect("stable name"), policy);
    }
}

#[test]
fn unknown_policy_is_invalid_data() {
    let error = CoverageMergePolicy::parse("sometimes").expect_err("unknown policy");
    assert!(matches!(
        error,
        CoveragePersistenceError::InvalidData { ref path, ref reason }
            if path == "policy" && reason == "unknown merge policy `sometimes`"
    ));
}

#[test]
fn empty_artifact_merge_fails() {
    let error = CoverageMerge::from_artifacts(CoverageMergePolicy::passed_only(), Vec::new())
        .expect_err("empty merges must fail");
    assert!(matches!(error, CoverageMergeError::NoInputArtifacts));
}

#[test]
fn merged_hits_satisfy_threshold() {
    let left = artifact("decoder_smoke", TestStatus::Passed, 1);
    let right = artifact("decoder_random", TestStatus::Passed, 1);
    let merged = CoverageMerge::from_artifacts(
        CoverageMergePolicy::passed_only(),
        keyed(vec![("b", left), ("a", right)]),
    )
    .expect("merge");
    let group = merged.group("dut.decoder").expect("merged group");
    let point = group
        .snapshot()
        .item("opcode")
        .and_then(CoverageItemSnapshot::as_coverpoint)
        .expect("merged coverpoint");
    assert_eq!(point.sample_count(), 2);
    assert_eq!(point.bins()[0].hits(), 2);
    assert_eq!(point.coverage().covered(), 1);
    assert_eq!(merged.coverage().covered(), 1);
    assert!(merged.summary().is_complete());
    let names: Vec<&str> = merged.inputs().iter().map(|i| i.test_name()).collect();
    assert_eq!(names, ["decoder_random", "decoder_smoke"]);
    assert_eq!(merged.producer_version(), "0.1.0");
    assert_eq!(merged.schema_version(), 1);
}

#[test]
fn policy_excludes_failed_artifacts() {
    let passed = artifact("decoder_smoke", TestStatus::Passed, 1);
    let failed = artifact("decoder_random", TestStatus::Failed, 1);
    let merged = CoverageMerge::from_artifacts(
        CoverageMergePolicy::passed_only(),
        keyed(vec![("a", passed), ("b", failed)]),
    )
    .expect("merge");
    let summary = merged.summary();
    assert_eq!(summary.artifact_count(), 2);
    assert_eq!(summary.included_artifact_count(), 1);
    assert_eq!(summary.excluded_artifact_count(), 1);
    assert_eq!(summary.passed_artifact_count(), 1);
    assert_eq!(summary.failed_artifact_count(), 1);
    assert_eq!(summary.errored_artifact_count(), 0);
    assert_eq!(summary.group_count(), 1);
    assert_eq!(summary.item_count(), 1);
    assert_eq!(summary.coverpoint_count(), 1);
    assert_eq!(summary.cross_count(), 0);
    assert_eq!(summary.coverage().covered(), 0);
    assert!(!merged.inputs()[1].included());
    let point = merged.groups()[0].snapshot().items()[0].as_coverpoint().expect("point");
    assert_eq!(point.sample_count(), 1);
}

#[test]
fn all_excluded_merge_fails() {
    let failed = artifact("decoder_random", TestStatus::Failed, 1);
    let error = CoverageMerge::from_artifacts(
        CoverageMergePolicy::passed_only(),
        keyed(vec![("a", failed)]),
    )
    .expect_err("nothing included");
    assert_eq!(
        error,
        CoverageMergeError::NoIncludedArtifacts { policy: CoverageMergePolicy::PassedOnly }
    );
}

#[test]
fn incompatible_definitions_fail() {
    let first = artifact_at("decoder_smoke", TestStatus::Passed, 1, "decoder", "dut.decoder");
    let second = artifact_at("decoder_random", TestStatus::Passed, 1, "other", "dut.decoder");
    let error = CoverageMerge::from_artifacts(
        CoverageMergePolicy::passed_only(),
        keyed(vec![("a", first), ("b", second)]),
    )
    .expect_err("definitions differ");
    match error {
        CoverageMergeError::IncompatibleDefinition {
            instance_path,
            existing_test,
            incoming_test,
            existing_definition,
            incoming_definition,
            ..
        } => {
            assert_eq!(instance_path, "dut.decoder");
            assert_eq!(existing_test, "decoder_smoke");
            assert_eq!(incoming_test, "decoder_random");
            assert_eq!(existing_definition, "decoder");
            assert_eq!(incoming_definition, "other");
        }
        other => panic!("unexpected error {other:?}"),
    }
}

#[test]
fn distinct_instances_stay_in_path_order() {
    let first = artifact_at("decoder_smoke", TestStatus::Passed, 1, "decoder", "dut.zeta");
    let second = artifact_at("decoder_random", TestStatus::Passed, 0, "decoder", "dut.alpha");
    let merged = CoverageMerge::from_artifacts(
        CoverageMergePolicy::all(),
        keyed(vec![("a", first), ("b", second)]),
    )
    .expect("merge");
    let paths: Vec<&str> = merged.groups().iter().map(|g| g.instance_path()).collect();
    assert_eq!(paths, ["dut.alpha", "dut.zeta"]);
    assert_eq!(merged.summary().group_count(), 2);
    assert_eq!(merged.summary().coverage().total(), 2);
    assert!(merged.group("dut.missing").is_none());
}

fn point_with_hits(hits: u64, samples: u64) -> CoverpointSnapshot {
    let bin = CoverpointBinSnapshot::from_parts(
        BinId::new(0),
        "read",
        BinKind::Normal,
        BinMatcherKind::Value,
        1,
        hits,
        2,
    );
    CoverpointSnapshot::from_parts("opcode", vec![bin], samples, 0, 0, 0, CoverageRatio::new(0, 1, 1))
}

#[test]
fn bin_hit_overflow_names_the_bin() {
    let error = merge_point(&point_with_hits(u64::MAX, 1), &point_with_hits(1, 1), "dut.decoder")
        .expect_err("overflow");
    assert_eq!(
        error,
        CoverageMergeError::CounterOverflow {
            instance_path: "dut.decoder".into(),
            item: "opcode".into(),
            bin: Some("read".into()),
            counter: CoverageMergeCounterKind::CoverpointBinHits,
        }
    );
    let error = merge_point(&point_with_hits(0, u64::MAX), &point_with_hits(0, 1), "dut.decoder")
        .expect_err("overflow");
    assert!(matches!(
        error,
        CoverageMergeError::CounterOverflow { bin: None, counter: CoverageMergeCounterKind::CoverpointSamples, .. }
    ));
}

#[test]
fn merged_point_recomputes_coverage() {
    let merged = merge_point(&point_with_hits(1, 1), &point_with_hits(1, 1), "dut.decoder")
        .expect("merge");
    assert_eq!(merged.bins()[0].hits(), 2);
    assert_eq!(merged.sample_count(), 2);
    assert_eq!(merged.coverage(), CoverageRatio::new(1, 0, 1));
}

#[test]
fn merge_ignores_input_order() {
    let make = || {
        vec![
            ("b", artifact_at("decoder_random", TestStatus::Passed, 1, "decoder", "dut.zeta")),
            ("a", artifact_at("decoder_smoke", TestStatus::Failed, 2, "decoder", "dut.alpha")),
        ]
    };
    let forward = CoverageMerge::from_artifacts(CoverageMergePolicy::all(), keyed(make()))
        .expect("merge");
    let mut reversed_items = make();
    reversed_items.reverse();
    let reversed = CoverageMerge::from_artifacts(CoverageMergePolicy::all(), keyed(reversed_items))
        .expect("merge");
    let names = |m: &CoverageMerge| -> Vec<String> {
        m.inputs().iter().map(|i| i.test_name().to_string()).collect()
    };
    assert_eq!(names(&forward), ["decoder_smoke", "decoder_random"]);
    assert_eq!(names(&forward), names(&reversed));
    let paths = |m: &CoverageMerge| -> Vec<String> {
        m.groups().iter().map(|g| g.instance_path().to_string()).collect()
    };
    assert_eq!(paths(&forward), ["dut.alpha", "dut.zeta"]);
    assert_eq!(paths(&forward), paths(&reversed));
    assert_eq!(forward.summary().passed_artifact_count(), 1);
    assert_eq!(reversed.summary().failed_artifact_count(), 1);
    assert_eq!(forward.to_record(), reversed.to_record());
}

#[test]
fn merged_group_contents_ignore_input_order() {
    let make = || {
        vec![
            ("b", artifact_at("decoder_random", TestStatus::Passed, 1, "decoder", "dut.alpha")),
            ("a", artifact_at("decoder_smoke", TestStatus::Failed, 2, "decoder", "dut.alpha")),
        ]
    };
    let forward = CoverageMerge::from_artifacts(CoverageMergePolicy::all(), keyed(make()))
        .expect("merge");
    let mut reversed_items = make();
    reversed_items.reverse();
    let reversed = CoverageMerge::from_artifacts(CoverageMergePolicy::all(), keyed(reversed_items))
        .expect("merge");
    assert_eq!(forward.groups().len(), 1);
    assert_eq!(forward.to_record(), reversed.to_record());
}

use vvm_core::{
    ArtifactRecord, Bin, CoverageArtifact, CoverageGroup, CoverageGroupInstance,
    CoverageGroupVisitor, CoverageItemRef, CoverageMerge, CoverageMergePolicy,
    CoveragePersistenceError, CoverageSession, Coverpoint, Cross2, ItemRecord, ReplayToken, Seed,
    TestStatus,
};

struct Group {
    instance: CoverageGroupInstance,
    left: Coverpoint<u8>,
    right: Coverpoint<u8>,
    cross: Cross2,
}

impl CoverageGroup for Group {
    fn instance(&self) -> &CoverageGroupInstance {
        &self.instance
    }

    fn visit_items<V: CoverageGroupVisitor>(&self, visitor: &mut V) {
        visitor.visit(CoverageItemRef::coverpoint(&self.left));
        visitor.visit(CoverageItemRef::coverpoint(&self.right));
        visitor.visit(CoverageItemRef::cross2(&self.cross));
    }
}

fn artifact(name: &str, status: TestStatus) -> CoverageArtifact {
    let mut left = Coverpoint::builder("opcode")
        .bin(Bin::value("read", 1_u8))
        .bin(Bin::value("write", 2_u8))
        .build()
        .expect("left");
    let mut right = Coverpoint::builder("mode")
        .bin(Bin::value("user", 0_u8))
        .bin(Bin::value("supervisor", 1_u8))
        .build()
        .expect("right");
    let mut cross = Cross2::builder("opcode_mode", &left, &right).build().expect("cross");
    let ls = left.sample(&1).expect("left sample");
    let rs = right.sample(&0).expect("right sample");
    cross.sample(&ls, &rs).expect("cross sample");
    let group = Group {
        instance: CoverageGroupInstance::new("decoder", "dut.decoder").expect("identity"),
        left,
        right,
        cross,
    };
    let mut session = CoverageSession::new(name).expect("test name");
    session.capture(&group).expect("capture");
    let snapshot = session.finish().expect("snapshot");
    let token = ReplayToken::new(Seed::new(42));
    CoverageArtifact::from_session(status, Some(token), snapshot).expect("artifact")
}

fn invalid_at(result: Result<CoverageArtifact, CoveragePersistenceError>, at: &str, why: &str) {
    match result {
        Err(CoveragePersistenceError::InvalidData { path, reason }) => {
            assert_eq!(path, at);
            assert_eq!(reason, why);
        }
        other => panic!("unexpected result {other:?}"),
    }
}

#[test]
fn artifact_record_round_trips() {
    let original = artifact("decoder_smoke", TestStatus::Passed);
    let record = original.to_record();
    assert_eq!(record.format, "vvm-functional-coverage");
    assert_eq!(record.test_status, "passed");
    assert_eq!(record.replay_token.as_deref(), Some("chacha8-v1:000000000000002a"));
    let back = CoverageArtifact::from_record(&record).expect("valid record");
    assert_eq!(back, original);
}

#[test]
fn artifact_header_errors() {
    let record = artifact("decoder_smoke", TestStatus::Passed).to_record();

    let mut r = record.clone();
    r.format = "other".to_string();
    assert!(matches!(
        CoverageArtifact::from_record(&r),
        Err(CoveragePersistenceError::InvalidFormat { ref found }) if found == "other"
    ));

    let mut r = record.clone();
    r.schema_version = 2;
    assert_eq!(
        CoverageArtifact::from_record(&r),
        Err(CoveragePersistenceError::UnsupportedSchemaVersion { found: 2, supported: 1 })
    );

    let mut r = record.clone();
    r.producer_version = String::new();
    invalid_at(
        CoverageArtifact::from_record(&r),
        "producer",
        "expected producer name `vvm-rs` and a non-empty version",
    );

    let mut r = record.clone();
    r.test_name = "Bad Name".to_string();
    invalid_at(CoverageArtifact::from_record(&r), "test.name", "invalid test name");

    let mut r = record.clone();
    r.test_status = "skipped".to_string();
    invalid_at(CoverageArtifact::from_record(&r), "test.status", "unknown test status");

    let mut r = record.clone();
    r.replay_token = Some("xorshift:1".to_string());
    invalid_at(CoverageArtifact::from_record(&r), "test.replay_token", "invalid replay token");

    let mut r: ArtifactRecord = record.clone();
    r.groups.clear();
    invalid_at(CoverageArtifact::from_record(&r), "groups", "an artifact must contain at least one group");
}

#[test]
fn artifact_body_errors() {
    let record = artifact("decoder_smoke", TestStatus::Passed).to_record();

    let mut r = record.clone();
    r.summary.coverage.covered += 1;
    invalid_at(
        CoverageArtifact::from_record(&r),
        "summary.coverage",
        "covered plus uncovered must equal total",
    );

    let mut r = record.clone();
    r.summary.items += 1;
    invalid_at(CoverageArtifact::from_record(&r), "summary", "counts disagree with groups");

    let mut r = record.clone();
    if let ItemRecord::Coverpoint { bins, .. } = &mut r.groups[0].items[0] {
        bins[1].id = 7;
    }
    invalid_at(
        CoverageArtifact::from_record(&r),
        "groups[0].items[0].bins[1]",
        "bin IDs must be consecutive declaration ordinals",
    );

    let mut r = record.clone();
    if let ItemRecord::Coverpoint { bins, .. } = &mut r.groups[0].items[0] {
        bins[0].kind = "strange".to_string();
    }
    invalid_at(
        CoverageArtifact::from_record(&r),
        "groups[0].items[0].bins[0].kind",
        "unknown bin kind",
    );

    let mut r = record.clone();
    if let ItemRecord::Coverpoint { ignored_samples, .. } = &mut r.groups[0].items[0] {
        *ignored_samples = 5;
    }
    invalid_at(
        CoverageArtifact::from_record(&r),
        "groups[0].items[0]",
        "sample classifications exceed samples",
    );

    let mut r = record.clone();
    if let ItemRecord::Cross2 { left_coverpoint, .. } = &mut r.groups[0].items[2] {
        *left_coverpoint = "missing".to_string();
    }
    invalid_at(CoverageArtifact::from_record(&r), "groups[0]", "cross left coverpoint is not declared");

    let mut r = record.clone();
    if let ItemRecord::Coverpoint { name, .. } = &mut r.groups[0].items[1] {
        *name = "opcode".to_string();
    }
    invalid_at(CoverageArtifact::from_record(&r), "groups[0]", "duplicate item name");

    let mut r = record.clone();
    r.groups[0].definition.fingerprint = "sha256-v1:zz".to_string();
    assert!(matches!(
        CoverageArtifact::from_record(&r),
        Err(CoveragePersistenceError::InvalidFingerprint { .. })
    ));

    let mut r = record.clone();
    r.groups[0].definition.fingerprint =
        "sha256-v1:0000000000000000000000000000000000000000000000000000000000000000".to_string();
    assert!(matches!(
        CoverageArtifact::from_record(&r),
        Err(CoveragePersistenceError::FingerprintMismatch { ref instance_path, .. }) if instance_path == "dut.decoder"
    ));
}

#[test]
fn merge_record_round_trips() {
    let merged = CoverageMerge::from_artifacts(
        CoverageMergePolicy::passed_and_failed(),
        vec![
            ("decoder_smoke".to_string(), artifact("decoder_smoke", TestStatus::Passed)),
            ("decoder_random".to_string(), artifact("decoder_random", TestStatus::Failed)),
        ],
    )
    .expect("merge");
    let record = merged.to_record();
    assert_eq!(record.policy, "passed_and_failed");
    assert_eq!(record.summary.artifacts, 2);
    let back = CoverageMerge::from_record(&record).expect("valid record");
    assert_eq!(back, merged);

    let mut r = record.clone();
    r.policy = "never".to_string();
    assert!(matches!(
        CoverageMerge::from_record(&r),
        Err(CoveragePersistenceError::InvalidData { ref path, .. }) if path == "policy"
    ));

    let mut r = record.clone();
    r.summary.items += 1;
    assert!(matches!(
        CoverageMerge::from_record(&r),
        Err(CoveragePersistenceError::InvalidData { ref reason, .. })
            if reason == "stored summary does not match recomputed merged data"
    ));

    assert_eq!(back.inputs()[0].test_name(), "decoder_random");

    let mut r = record.clone();
    r.inputs[1].included = false;
    assert!(matches!(
        CoverageMerge::from_record(&r),
        Err(CoveragePersistenceError::InvalidData { ref path, .. }) if path == "inputs[1].included"
    ));

    let mut r = record.clone();
    r.inputs.swap(0, 1);
    assert!(matches!(
        CoverageMerge::from_record(&r),
        Err(CoveragePersistenceError::InvalidData { ref reason, .. })
            if reason == "input records are not in canonical order"
    ));

    let mut r = record.clone();
    r.inputs.clear();
    assert!(matches!(
        CoverageMerge::from_record(&r),
        Err(CoveragePersistenceError::InvalidData { ref path, ref reason })
            if path == "inputs" && reason == "a merged document must contain input records"
    ));
}

#[test]
fn fingerprint_mismatch_carries_both_digests() {
    let record = artifact("decoder_smoke", TestStatus::Passed).to_record();
    let written = record.groups[0].definition.fingerprint.clone();
    let zeros = "sha256-v1:0000000000000000000000000000000000000000000000000000000000000000";
    let mut r = record.clone();
    r.groups[0].definition.fingerprint = zeros.to_string();
    match CoverageArtifact::from_record(&r) {
        Err(CoveragePersistenceError::FingerprintMismatch { instance_path, stored, computed }) => {
            assert_eq!(instance_path, "dut.decoder");
            assert_eq!(stored.to_text(), zeros);
            assert_eq!(computed.to_text(), written);
        },
        other => panic!("expected a fingerprint mismatch, got {:?}", other.is_ok()),
    }

    let mut r = record.clone();
    r.groups[0].definition.revision += 1;
    assert!(matches!(
        CoverageArtifact::from_record(&r),
        Err(CoveragePersistenceError::FingerprintMismatch { .. })
    ));
}

#[test]
fn read_back_artifact_writes_and_reads_back_again() {
    let record = artifact("decoder_random", TestStatus::Failed).to_record();
    let first = CoverageArtifact::from_record(&record).expect("valid record");
    let rewritten = first.to_record();
    assert_eq!(rewritten, record);
    let second = CoverageArtifact::from_record(&rewritten).expect("valid record");
    assert_eq!(second, first);
}

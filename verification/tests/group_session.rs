use vvm_core::{
    capture_group, Bin, CoverageGroup, CoverageGroupError, CoverageGroupInstance,
    CoverageGroupVisitor, CoverageItemRef, CoverageSession, CoverageSessionError, Coverpoint,
    Cross2,
};

struct Group {
    instance: CoverageGroupInstance,
    point: Coverpoint<u8>,
}

impl CoverageGroup for Group {
    fn instance(&self) -> &CoverageGroupInstance {
        &self.instance
    }

    fn visit_items<V: CoverageGroupVisitor>(&self, visitor: &mut V) {
        visitor.visit(CoverageItemRef::coverpoint(&self.point));
    }
}

fn group(path: &str) -> Group {
    Group {
        instance: CoverageGroupInstance::new("decoder", path).expect("valid identity"),
        point: Coverpoint::builder("opcode")
            .bin(Bin::value("read", 1_u8))
            .bin(Bin::value("write", 2_u8))
            .build()
            .expect("valid coverpoint"),
    }
}

#[test]
fn captures_coverpoint_bins_in_declaration_order() {
    let group = group("dut.decoder");
    let snapshot = capture_group(&group).expect("valid group");
    let items = snapshot.items();
    let point = items.first().and_then(|item| item.as_coverpoint()).expect("coverpoint");
    let names = point.bins().iter().map(|bin| bin.name()).collect::<Vec<_>>();
    assert_eq!(names, ["read", "write"]);
    assert_eq!(point.coverage().total(), 2);
}

#[test]
fn snapshot_does_not_change_after_later_coverpoint_sampling() {
    let mut group = group("dut.decoder");
    let snapshot = capture_group(&group).expect("valid group");
    group.point.sample(&1).expect("sample");
    let point = snapshot.items().first().and_then(|item| item.as_coverpoint()).expect("coverpoint");
    assert_eq!(point.sample_count(), 0);
    assert_eq!(point.coverage().covered(), 0);
}

#[test]
fn capture_freezes_group_state_and_preserves_order() {
    let mut first = group("dut.first");
    let second = group("dut.second");
    let mut session = CoverageSession::new("decoder-random").expect("valid name");
    session.capture(&first).expect("first capture");
    session.capture(&second).expect("second capture");
    first.point.sample(&1).expect("sample");

    assert_eq!(
        session.groups().iter().map(|g| g.instance_path()).collect::<Vec<_>>(),
        ["dut.first", "dut.second"]
    );
    let first_snapshot = session.groups().first().expect("first group");
    assert_eq!(first_snapshot.coverage().covered(), 0);
    assert_eq!(session.summary().expect("summary").group_count(), 2);
}

#[test]
fn duplicate_capture_leaves_session_unchanged() {
    let group = group("dut.decoder");
    let mut session = CoverageSession::new("decoder-random").expect("valid name");
    session.capture(&group).expect("capture");
    let before = session.groups().to_vec();
    let error = session.capture(&group).expect_err("duplicate path");
    assert!(matches!(error, CoverageSessionError::DuplicateInstancePath { .. }));
    assert_eq!(session.groups(), before.as_slice());
}

#[test]
fn invalid_identities_are_rejected() {
    assert!(matches!(
        CoverageGroupInstance::new("bad name", "dut.x"),
        Err(CoverageGroupError::InvalidDefinitionName { .. })
    ));
    match CoverageGroupInstance::new("decoder", "dut..decoder") {
        Err(CoverageGroupError::InvalidInstancePath { path }) => assert_eq!(path, "dut..decoder"),
        _ => panic!("expected an invalid path"),
    }
    assert!(matches!(
        CoverageSession::new("Bad Name"),
        Err(CoverageSessionError::InvalidTestName { .. })
    ));
}

struct Empty {
    instance: CoverageGroupInstance,
}

impl CoverageGroup for Empty {
    fn instance(&self) -> &CoverageGroupInstance {
        &self.instance
    }

    fn visit_items<V: CoverageGroupVisitor>(&self, _visitor: &mut V) {}
}

#[test]
fn empty_group_is_rejected_with_message() {
    let empty = Empty { instance: CoverageGroupInstance::new("decoder", "dut.decoder").unwrap() };
    let error = capture_group(&empty).expect_err("empty group");
    assert_eq!(
        error.message(),
        "coverage group `decoder` instance `dut.decoder` contains no coverage items"
    );
    let mut session = CoverageSession::new("t").unwrap();
    let error = session.capture(&empty).expect_err("empty group");
    assert_eq!(
        error.message(),
        "coverage session for test `t` could not capture coverage group: coverage group `decoder` instance `dut.decoder` contains no coverage items"
    );
    assert!(session.is_empty());
    assert!(session.finish().is_none());
}

struct Crossed {
    instance: CoverageGroupInstance,
    a: Coverpoint<u8>,
    b: Coverpoint<u8>,
    other: Coverpoint<u8>,
    cross: Cross2,
    expose_b: bool,
}

impl CoverageGroup for Crossed {
    fn instance(&self) -> &CoverageGroupInstance {
        &self.instance
    }

    fn visit_items<V: CoverageGroupVisitor>(&self, visitor: &mut V) {
        visitor.visit(CoverageItemRef::coverpoint(&self.a));
        if self.expose_b {
            visitor.visit(CoverageItemRef::coverpoint(&self.b));
        } else {
            visitor.visit(CoverageItemRef::coverpoint(&self.other));
        }
        visitor.visit(CoverageItemRef::cross2(&self.cross));
    }
}

fn point(name: &str) -> Coverpoint<u8> {
    Coverpoint::builder(name).bin(Bin::value("one", 1_u8)).build().unwrap()
}

#[test]
fn cross_sources_must_be_exposed() {
    let a = point("a");
    let b = point("b");
    let cross = Cross2::builder("a_x_b", &a, &b).build().unwrap();
    let mut group = Crossed {
        instance: CoverageGroupInstance::new("g", "top.g").unwrap(),
        a,
        b,
        other: point("other"),
        cross,
        expose_b: true,
    };
    let snapshot = capture_group(&group).expect("valid group");
    assert_eq!(snapshot.summary().item_count(), 3);
    assert_eq!(snapshot.summary().coverpoint_count(), 2);
    assert_eq!(snapshot.summary().cross_count(), 1);
    assert_eq!(snapshot.coverage().total(), 3);
    assert!(snapshot.item("a_x_b").is_some());
    group.expose_b = false;
    match capture_group(&group) {
        Err(CoverageGroupError::MissingCrossSource { cross, axis, coverpoint, .. }) => {
            assert_eq!(cross, "a_x_b");
            assert_eq!(axis, vvm_core::CrossAxis::Right);
            assert_eq!(coverpoint, "b");
        }
        other => panic!("expected a missing source, got {other:?}"),
    }
}

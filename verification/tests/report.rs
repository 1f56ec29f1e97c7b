use vvm_core::{
    push_html_escaped, Bin, CoverageArtifact, CoverageBinDetail, CoverageGroup,
    CoverageGroupInstance, CoverageGroupVisitor, CoverageItemRef, CoverageMerge,
    CoverageMergePolicy, CoverageReport, CoverageReportOptions, CoverageSession, Coverpoint,
    TestStatus,
};

struct Group {
    instance: CoverageGroupInstance,
    point: Coverpoint<u8>,
}

impl CoverageGroup for Group {
    fn instance(&self) -> &CoverageGroupInstance {
        &self.instance
    }

    fn visit_items<V: CoverageGroupVisitor>(&self, visitor: &mut V) {
        visitor.visit(CoverageItemRef::coverpoint(&self.point));
    }
}

fn artifact(name: &str, status: TestStatus) -> CoverageArtifact {
    let mut point = Coverpoint::builder("opcode")
        .bin(Bin::value("read", 1_u8))
        .bin(Bin::value("write", 2_u8).at_least(2))
        .ignore_bin(Bin::value("reset", 0_u8))
        .illegal_bin(Bin::value("reserved", 3_u8))
        .build()
        .expect("valid coverpoint");
    point.sample(&1).expect("sample");
    assert!(point.sample(&3).is_err(), "illegal sample unexpectedly succeeded");
    let group = Group {
        instance: CoverageGroupInstance::new("decoder", "dut.decoder").expect("identity"),
        point,
    };
    let mut session = CoverageSession::new(name).expect("test name");
    session.capture(&group).expect("capture");
    let snapshot = session.finish().expect("snapshot");
    CoverageArtifact::from_session(status, None, snapshot).expect("artifact")
}

fn merge() -> CoverageMerge {
    CoverageMerge::from_artifacts(
        CoverageMergePolicy::passed_only(),
        vec![
            ("1".to_string(), artifact("included", TestStatus::Passed)),
            ("2".to_string(), artifact("excluded", TestStatus::Failed)),
        ],
    )
    .expect("merge")
}

#[test]
fn defaults_are_documented() {
    let options = CoverageReportOptions::default();
    assert_eq!(options.bin_detail(), CoverageBinDetail::Uncovered);
    assert!(options.includes_inputs());
    assert!(!options.includes_fingerprints());
}

#[test]
fn builders_preserve_other_fields() {
    let options = CoverageReportOptions::default()
        .with_bin_detail(CoverageBinDetail::All)
        .with_inputs(false)
        .with_fingerprints(true);
    assert_eq!(options.bin_detail(), CoverageBinDetail::All);
    assert!(!options.includes_inputs());
    assert!(options.includes_fingerprints());
}

#[test]
fn renderers_and_metric_are_deterministic() {
    let merge = merge();
    let report = CoverageReport::new(&merge);
    let text = report.to_text();
    let html = report.to_html();

    assert_eq!(text, report.to_text());
    assert_eq!(html, report.to_html());
    assert!(text.contains("included  included  passed  50.00% (1/2)"));
    assert!(text.contains("excluded  excluded  failed  50.00% (1/2)"));
    assert!(text.contains("write: value, 0/2 hits [uncovered]"));
    assert!(text.contains("reserved: 1 hits [illegal]"));
    assert!(text.ends_with("VVM functional coverage: 50.00%\n"));
    assert!(html.contains("<!doctype html>"));
    assert!(html.contains("<progress max=\"10000\" value=\"5000\">"));
    assert!(!html.contains("<script"));
    assert_eq!(report.gitlab_metric(), "VVM functional coverage: 50.00%");
}

#[test]
fn escapes_markup() {
    let mut output = String::new();
    push_html_escaped(&mut output, "<script>alert(\"x\")</script>&'");
    assert_eq!(output, "&lt;script&gt;alert(&quot;x&quot;)&lt;/script&gt;&amp;&#39;");
}

#[test]
fn text_report_has_exact_overall_section() {
    let merge = merge();
    let text = CoverageReport::new(&merge).to_text();
    assert!(text.starts_with(
        "VVM Functional Coverage\n=======================\n\nOverall\n-------\nCoverage: 50.00% (1/2 bins; 1 uncovered)\nPolicy: passed_only\nArtifacts: 2 total, 1 included, 1 excluded\nStatuses: 1 passed, 1 failed, 0 errored\nStructure: 1 groups, 1 coverpoints, 0 crosses\n"
    ));
    assert!(text.contains("\ndut.decoder\n  Definition: decoder, revision 0\n"));
    assert!(text.contains("  opcode [coverpoint]\n    Coverage: 50.00% (1/2 bins; 1 uncovered)\n    Samples: 2\n"));
    assert!(text.contains("    Uncovered bins:\n      write: value, 0/2 hits [uncovered]\n"));
    assert!(text.contains("    Hit illegal bins:\n      reserved: 1 hits [illegal]\n"));
}

#[test]
fn options_hide_inputs_and_show_all_bins() {
    let merge = merge();
    let options = CoverageReportOptions::default()
        .with_inputs(false)
        .with_bin_detail(CoverageBinDetail::All)
        .with_fingerprints(true);
    let report = CoverageReport::with_options(&merge, options);
    let text = report.to_text();
    assert!(!text.contains("Inputs\n------"));
    assert!(text.contains("    Bins:\n      read: value, 1/1 hits [covered]\n"));
    assert!(text.contains("      reset: 0 hits [ignore]\n"));
    assert!(text.contains("    Illegal bins:\n"));
    assert!(text.contains("  Fingerprint: sha256-v1:"));
    let html = report.to_html();
    assert!(html.contains("<td>reset</td><td>ignore</td><td>value</td><td>0</td><td>1</td><td class=\"ignore\">ignore</td>"));
    assert!(!html.contains("id=\"inputs\""));
    let none = CoverageReport::with_options(
        &merge,
        CoverageReportOptions::default().with_bin_detail(CoverageBinDetail::NoBins),
    );
    assert!(!none.to_text().contains("bins:\n"));
}

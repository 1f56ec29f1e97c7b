use vstd::prelude::*;
use vstd::string::*;

use crate::coverage::artifact::{status_name, status_text, CoverageArtifactGroup};
use crate::coverage::bin::{bin_covered, BinKind};
use crate::coverage::fingerprint::fingerprint_text;
use crate::coverage::matcher::BinMatcherKind;
use crate::coverage::merge::{policy_text, CoverageMergeInput};
use crate::coverage::merge_document::CoverageMerge;
use crate::coverage::report::{
    cross_bin_listed, include_coverpoint_bin, include_cross_bin, metric_text, point_bin_listed,
    push_ratio_text, push_short_ratio_text, ratio_text_spec, short_ratio_text_spec,
    CoverageBinDetail, CoverageReport, CoverageReportOptions,
};
use crate::coverage::snapshot::{
    CoverageItemSnapshot, CoverpointBinSnapshot, CoverpointSnapshot, Cross2Snapshot,
    CrossBinSnapshot,
};
use crate::random::replay_text;
use crate::text::{decimal_spec, push_decimal, push_str};

verus! {

/// Decimal text of a count.
pub open spec fn dec(n: int) -> Seq<char> {
    decimal_spec(n as nat)
}

/// Shape of a matcher: `value`, `values(N)` or `inclusive_range`.
pub open spec fn matcher_shape_text(k: BinMatcherKind, n: nat) -> Seq<char> {
    match k {
        BinMatcherKind::Value => "value"@,
        BinMatcherKind::Values => "values("@ + decimal_spec(n) + ")"@,
        BinMatcherKind::InclusiveRange => "inclusive_range"@,
    }
}

/// `covered` or `uncovered`.
pub open spec fn covered_word(covered: bool) -> Seq<char> {
    if covered {
        "covered"@
    } else {
        "uncovered"@
    }
}

/// Line of one listed coverpoint bin.
pub open spec fn point_bin_line(b: CoverpointBinSnapshot) -> Seq<char> {
    match b@.2 {
        BinKind::Normal => "      "@ + b@.1 + ": "@ + matcher_shape_text(b@.3, b@.4) + ", "@ + dec(
            b@.5 as int,
        ) + "/"@ + dec(b@.6 as int) + " hits ["@ + covered_word(bin_covered(b@.2, b@.5, b@.6))
            + "]\n"@,
        BinKind::Ignore => "      "@ + b@.1 + ": "@ + dec(b@.5 as int) + " hits [ignore]\n"@,
        BinKind::Illegal => "      "@ + b@.1 + ": "@ + dec(b@.5 as int) + " hits [illegal]\n"@,
    }
}

/// Lines of the listed bins among the first `n`: the illegal ones when
/// `illegal`, the others otherwise.
pub open spec fn point_bin_lines(
    bins: Seq<CoverpointBinSnapshot>,
    n: int,
    detail: CoverageBinDetail,
    illegal: bool,
) -> Seq<char>
    decreases n,
{
    if n <= 0 {
        Seq::empty()
    } else {
        let prev = point_bin_lines(bins, n - 1, detail, illegal);
        let b = bins[n - 1];
        if point_bin_listed(detail, b) && ((b@.2 == BinKind::Illegal) == illegal) {
            prev + point_bin_line(b)
        } else {
            prev
        }
    }
}

/// A labelled list, or nothing when the list is empty.
pub open spec fn labelled(label: Seq<char>, lines: Seq<char>) -> Seq<char> {
    if lines.len() > 0 {
        "    "@ + label + ":\n"@ + lines
    } else {
        Seq::empty()
    }
}

/// Heading and counters of the text section of one coverpoint.
pub open spec fn point_head(p: CoverpointSnapshot) -> Seq<char> {
    let c = p.spec_counts();
    "  "@ + p.spec_name() + " [coverpoint]\n    Coverage: "@ + ratio_text_spec(p.spec_coverage()@)
        + "\n    Samples: "@ + dec(c.0 as int) + "\n    Ignored: "@ + dec(c.1 as int)
        + "\n    Illegal: "@ + dec(c.2 as int) + "\n    Unmatched: "@ + dec(c.3 as int) + "\n"@
}

/// Text section of one coverpoint.
pub open spec fn point_section(p: CoverpointSnapshot, detail: CoverageBinDetail) -> Seq<char> {
    let bins = p.spec_bins();
    point_head(p) + labelled(
        if detail == CoverageBinDetail::All {
            "Bins"@
        } else {
            "Uncovered bins"@
        },
        point_bin_lines(bins, bins.len() as int, detail, false),
    ) + labelled(
        if detail == CoverageBinDetail::All {
            "Illegal bins"@
        } else {
            "Hit illegal bins"@
        },
        point_bin_lines(bins, bins.len() as int, detail, true),
    )
}

/// Line of one listed cross bin.
pub open spec fn cross_bin_line(b: CrossBinSnapshot) -> Seq<char> {
    "      "@ + b@.2 + " x "@ + b@.4 + ": "@ + dec(b@.5 as int) + "/"@ + dec(b@.6 as int) + " hits ["@
        + covered_word(b@.5 >= b@.6) + "]\n"@
}

/// Lines of the listed cross bins among the first `n`.
pub open spec fn cross_bin_lines(bins: Seq<CrossBinSnapshot>, n: int, detail: CoverageBinDetail) -> Seq<
    char,
>
    decreases n,
{
    if n <= 0 {
        Seq::empty()
    } else if cross_bin_listed(detail, bins[n - 1]) {
        cross_bin_lines(bins, n - 1, detail) + cross_bin_line(bins[n - 1])
    } else {
        cross_bin_lines(bins, n - 1, detail)
    }
}

/// Text section of one cross.
pub open spec fn cross_section(c: Cross2Snapshot, detail: CoverageBinDetail) -> Seq<char> {
    let k = c.spec_counts();
    let bins = c.spec_bins();
    "  "@ + c.spec_name() + " [cross]\n    Coverage: "@ + ratio_text_spec(c.spec_coverage()@)
        + "\n    Samples: "@ + dec(k.0 as int) + "\n    Skipped: "@ + dec(k.1 as int) + "\n    Axes: "@
        + c.spec_axis_names().0 + " x "@ + c.spec_axis_names().1 + "\n"@ + labelled(
        if detail == CoverageBinDetail::All {
            "Bins"@
        } else {
            "Uncovered bins"@
        },
        cross_bin_lines(bins, bins.len() as int, detail),
    )
}

/// Text section of one item.
pub open spec fn item_section(i: CoverageItemSnapshot, detail: CoverageBinDetail) -> Seq<char> {
    match i {
        CoverageItemSnapshot::Coverpoint(p) => point_section(p, detail),
        CoverageItemSnapshot::Cross2(c) => cross_section(c, detail),
    }
}

/// Sections of the first `n` items.
pub open spec fn items_text(items: Seq<CoverageItemSnapshot>, n: int, detail: CoverageBinDetail) -> Seq<
    char,
>
    decreases n,
{
    if n <= 0 {
        Seq::empty()
    } else {
        items_text(items, n - 1, detail) + item_section(items[n - 1], detail)
    }
}

/// Heading of the text section of one group.
pub open spec fn group_head(g: CoverageArtifactGroup, o: (CoverageBinDetail, bool, bool)) -> Seq<char> {
    let s = g.spec_snapshot();
    "\n"@ + s.spec_instance_path() + "\n  Definition: "@ + s.spec_definition_name() + ", revision "@
        + dec(s.spec_revision() as int) + "\n  Coverage: "@ + ratio_text_spec(
        s.spec_summary().spec_coverage()@,
    ) + "\n"@ + (if o.2 {
        "  Fingerprint: "@ + fingerprint_text(g.spec_fingerprint()@) + "\n"@
    } else {
        Seq::empty()
    })
}

/// Text section of one group.
pub open spec fn group_text(g: CoverageArtifactGroup, o: (CoverageBinDetail, bool, bool)) -> Seq<char> {
    let s = g.spec_snapshot();
    group_head(g, o) + items_text(s.spec_items(), s.spec_items().len() as int, o.0)
}

/// Sections of the first `n` groups.
pub open spec fn groups_text(gs: Seq<CoverageArtifactGroup>, n: int, o: (CoverageBinDetail, bool, bool)) -> Seq<
    char,
>
    decreases n,
{
    if n <= 0 {
        Seq::empty()
    } else {
        groups_text(gs, n - 1, o) + group_text(gs[n - 1], o)
    }
}

/// Lines of one input record.
pub open spec fn input_text(i: CoverageMergeInput) -> Seq<char> {
    (if i.spec_included() {
        "included"@
    } else {
        "excluded"@
    }) + "  "@ + i.spec_test_name() + "  "@ + status_name(i.spec_test_status()) + "  "@
        + short_ratio_text_spec(i.spec_summary().spec_coverage()@) + "\n"@ + (
    match i.spec_replay_token() {
        Some(t) => "  Replay: "@ + replay_text(t@) + "\n"@,
        None => Seq::empty(),
    }) + "  Producer: "@ + i.spec_producer_version() + "\n"@
}

/// Lines of the first `n` input records.
pub open spec fn inputs_text(inputs: Seq<CoverageMergeInput>, n: int) -> Seq<char>
    decreases n,
{
    if n <= 0 {
        Seq::empty()
    } else {
        inputs_text(inputs, n - 1) + input_text(inputs[n - 1])
    }
}

/// Title and overall section of a text report.
pub open spec fn header_text(m: CoverageMerge) -> Seq<char> {
    let s = m.spec_summary();
    let c = s.spec_counts();
    let t = s.spec_totals();
    "VVM Functional Coverage\n=======================\n\nOverall\n-------\nCoverage: "@
        + ratio_text_spec(s.spec_coverage()@) + "\nPolicy: "@ + policy_text(m.spec_policy())
        + "\nArtifacts: "@ + dec(c.artifacts as int) + " total, "@ + dec(c.included as int)
        + " included, "@ + dec(c.excluded as int) + " excluded\nStatuses: "@ + dec(c.passed as int)
        + " passed, "@ + dec(c.failed as int) + " failed, "@ + dec(c.errored as int)
        + " errored\nStructure: "@ + dec(t.0 as int) + " groups, "@ + dec(t.2 as int)
        + " coverpoints, "@ + dec(t.3 as int) + " crosses\n"@
}

/// Complete plain-text report of a merge under options `o`.
pub open spec fn report_text(m: CoverageMerge, o: (CoverageBinDetail, bool, bool)) -> Seq<char> {
    header_text(m) + (if o.1 {
        "\nInputs\n------\n"@ + inputs_text(m.spec_inputs(), m.spec_inputs().len() as int)
    } else {
        Seq::empty()
    }) + groups_text(m.spec_groups(), m.spec_groups().len() as int, o) + "\n"@ + metric_text(m)
        + "\n"@
}

pub(crate) fn push_matcher_shape(out: &mut String, kind: BinMatcherKind, operands: usize)
    ensures
        final(out)@ == old(out)@ + matcher_shape_text(kind, operands as nat),
{
    match kind {
        BinMatcherKind::Value => push_str(out, "value"),
        BinMatcherKind::Values => {
            push_str(out, "values(");
            push_decimal(out, operands as u64);
            push_str(out, ")");
            proof {
                assert(final(out)@ =~= old(out)@ + matcher_shape_text(kind, operands as nat));
            }
        },
        BinMatcherKind::InclusiveRange => push_str(out, "inclusive_range"),
    }
}

fn push_covered_word(out: &mut String, covered: bool)
    ensures
        final(out)@ == old(out)@ + covered_word(covered),
{
    if covered {
        push_str(out, "covered");
    } else {
        push_str(out, "uncovered");
    }
}

fn push_point_bin_line(out: &mut String, b: &CoverpointBinSnapshot)
    ensures
        final(out)@ == old(out)@ + point_bin_line(*b),
{
    push_str(out, "      ");
    push_str(out, b.name());
    push_str(out, ": ");
    match b.kind() {
        BinKind::Normal => {
            push_matcher_shape(out, b.matcher_kind(), b.matcher_operand_count());
            push_str(out, ", ");
            push_decimal(out, b.hits());
            push_str(out, "/");
            push_decimal(out, b.required_hits());
            push_str(out, " hits [");
            push_covered_word(out, b.covered());
            push_str(out, "]\n");
        },
        BinKind::Ignore => {
            push_decimal(out, b.hits());
            push_str(out, " hits [ignore]\n");
        },
        BinKind::Illegal => {
            push_decimal(out, b.hits());
            push_str(out, " hits [illegal]\n");
        },
    }
    proof {
        assert(final(out)@ =~= old(out)@ + point_bin_line(*b));
    }
}

fn point_lines(bins: &[CoverpointBinSnapshot], detail: CoverageBinDetail, illegal: bool) -> (r: String)
    ensures
        r@ == point_bin_lines(bins@, bins@.len() as int, detail, illegal),
{
    let mut s = String::new();
    let mut i: usize = 0;
    while i < bins.len()
        invariant
            i <= bins@.len(),
            s@ == point_bin_lines(bins@, i as int, detail, illegal),
        decreases bins@.len() - i,
    {
        let b = &bins[i];
        if include_coverpoint_bin(detail, b) && ((b.kind() == BinKind::Illegal) == illegal) {
            push_point_bin_line(&mut s, b);
        }
        i = i + 1;
    }
    s
}

fn push_labelled(out: &mut String, label: &str, lines: &str)
    ensures
        final(out)@ == old(out)@ + labelled(label@, lines@),
{
    if lines.unicode_len() > 0 {
        push_str(out, "    ");
        push_str(out, label);
        push_str(out, ":\n");
        push_str(out, lines);
        proof {
            assert(final(out)@ =~= old(out)@ + labelled(label@, lines@));
        }
    } else {
        proof {
            assert(final(out)@ =~= old(out)@ + labelled(label@, lines@));
        }
    }
}

#[verifier::spinoff_prover]
fn push_point_head(out: &mut String, p: &CoverpointSnapshot)
    ensures
        final(out)@ == old(out)@ + point_head(*p),
{
    let ghost start = out@;
    push_str(out, "  ");
    push_str(out, p.name());
    push_str(out, " [coverpoint]\n    Coverage: ");
    push_ratio_text(out, p.coverage());
    push_str(out, "\n    Samples: ");
    push_decimal(out, p.sample_count());
    push_str(out, "\n    Ignored: ");
    push_decimal(out, p.ignored_sample_count());
    push_str(out, "\n    Illegal: ");
    push_decimal(out, p.illegal_sample_count());
    push_str(out, "\n    Unmatched: ");
    push_decimal(out, p.unmatched_sample_count());
    push_str(out, "\n");
    proof {
        assert(final(out)@ =~= start + point_head(*p));
    }
}

#[verifier::spinoff_prover]
fn push_point_section(out: &mut String, p: &CoverpointSnapshot, detail: CoverageBinDetail)
    ensures
        final(out)@ == old(out)@ + point_section(*p, detail),
{
    let ghost start = out@;
    push_point_head(out, p);
    let all = detail == CoverageBinDetail::All;
    let normal = point_lines(p.bins(), detail, false);
    push_labelled(
        out,
        if all {
            "Bins"
        } else {
            "Uncovered bins"
        },
        normal.as_str(),
    );
    let illegal = point_lines(p.bins(), detail, true);
    push_labelled(
        out,
        if all {
            "Illegal bins"
        } else {
            "Hit illegal bins"
        },
        illegal.as_str(),
    );
    proof {
        assert(final(out)@ =~= start + point_section(*p, detail));
    }
}

fn push_cross_bin_line(out: &mut String, b: &CrossBinSnapshot)
    ensures
        final(out)@ == old(out)@ + cross_bin_line(*b),
{
    push_str(out, "      ");
    push_str(out, b.left_bin_name());
    push_str(out, " x ");
    push_str(out, b.right_bin_name());
    push_str(out, ": ");
    push_decimal(out, b.hits());
    push_str(out, "/");
    push_decimal(out, b.required_hits());
    push_str(out, " hits [");
    push_covered_word(out, b.covered());
    push_str(out, "]\n");
    proof {
        assert(final(out)@ =~= old(out)@ + cross_bin_line(*b));
    }
}

fn cross_lines(bins: &[CrossBinSnapshot], detail: CoverageBinDetail) -> (r: String)
    ensures
        r@ == cross_bin_lines(bins@, bins@.len() as int, detail),
{
    let mut s = String::new();
    let mut i: usize = 0;
    while i < bins.len()
        invariant
            i <= bins@.len(),
            s@ == cross_bin_lines(bins@, i as int, detail),
        decreases bins@.len() - i,
    {
        if include_cross_bin(detail, &bins[i]) {
            push_cross_bin_line(&mut s, &bins[i]);
        }
        i = i + 1;
    }
    s
}

#[verifier::spinoff_prover]
fn push_cross_section(out: &mut String, c: &Cross2Snapshot, detail: CoverageBinDetail)
    ensures
        final(out)@ == old(out)@ + cross_section(*c, detail),
{
    let ghost start = out@;
    push_str(out, "  ");
    push_str(out, c.name());
    push_str(out, " [cross]\n    Coverage: ");
    push_ratio_text(out, c.coverage());
    push_str(out, "\n    Samples: ");
    push_decimal(out, c.sample_count());
    push_str(out, "\n    Skipped: ");
    push_decimal(out, c.skipped_sample_count());
    push_str(out, "\n    Axes: ");
    push_str(out, c.left_coverpoint_name());
    push_str(out, " x ");
    push_str(out, c.right_coverpoint_name());
    push_str(out, "\n");
    let lines = cross_lines(c.bins(), detail);
    push_labelled(
        out,
        if detail == CoverageBinDetail::All {
            "Bins"
        } else {
            "Uncovered bins"
        },
        lines.as_str(),
    );
    proof {
        assert(final(out)@ =~= start + cross_section(*c, detail));
    }
}

#[verifier::spinoff_prover]
fn push_group_head(out: &mut String, g: &CoverageArtifactGroup, o: CoverageReportOptions)
    ensures
        final(out)@ == old(out)@ + group_head(*g, o@),
{
    let ghost start = out@;
    push_str(out, "\n");
    push_str(out, g.instance_path());
    push_str(out, "\n  Definition: ");
    push_str(out, g.definition_name());
    push_str(out, ", revision ");
    push_decimal(out, g.definition_revision());
    push_str(out, "\n  Coverage: ");
    push_ratio_text(out, g.coverage());
    push_str(out, "\n");
    if o.includes_fingerprints() {
        push_str(out, "  Fingerprint: ");
        let t = g.definition_fingerprint().to_text();
        push_str(out, t.as_str());
        push_str(out, "\n");
    }
    proof {
        assert(final(out)@ =~= start + group_head(*g, o@));
    }
}

fn push_group_text(out: &mut String, g: &CoverageArtifactGroup, o: CoverageReportOptions)
    ensures
        final(out)@ == old(out)@ + group_text(*g, o@),
{
    let ghost start = out@;
    push_group_head(out, g, o);
    let ghost after_head = out@;
    let items = g.snapshot().items();
    let mut i: usize = 0;
    while i < items.len()
        invariant
            items@ == g.spec_snapshot().spec_items(),
            i <= items@.len(),
            out@ == after_head + items_text(items@, i as int, o@.0),
        decreases items@.len() - i,
    {
        match &items[i] {
            CoverageItemSnapshot::Coverpoint(p) => push_point_section(out, p, o.bin_detail()),
            CoverageItemSnapshot::Cross2(c) => push_cross_section(out, c, o.bin_detail()),
        }
        proof {
            assert(out@ =~= after_head + items_text(items@, i + 1, o@.0));
        }
        i = i + 1;
    }
    proof {
        assert(final(out)@ =~= start + group_text(*g, o@));
    }
}

#[verifier::spinoff_prover]
fn input_text_string(i: &CoverageMergeInput) -> (r: String)
    ensures
        r@ == input_text(*i),
{
    let mut buf = String::new();
    let out = &mut buf;
    if i.included() {
        push_str(out, "included");
    } else {
        push_str(out, "excluded");
    }
    proof {
        assert(out@ =~= (if i.spec_included() {
            "included"@
        } else {
            "excluded"@
        }));
    }
    push_str(out, "  ");
    push_str(out, i.test_name());
    push_str(out, "  ");
    push_str(out, status_text(i.test_status()));
    push_str(out, "  ");
    push_short_ratio_text(out, i.summary().coverage());
    push_str(out, "\n");
    let ghost before_replay = out@;
    match i.replay_token() {
        Some(t) => {
            let mut r = String::new();
            push_str(&mut r, "  Replay: ");
            let s = t.to_text();
            push_str(&mut r, s.as_str());
            push_str(&mut r, "\n");
            proof {
                assert(r@ =~= "  Replay: "@ + replay_text(t@) + "\n"@);
            }
            push_str(out, r.as_str());
        },
        None => {
            proof {
                assert(out@ =~= before_replay + Seq::<char>::empty());
            }
        },
    }
    push_str(out, "  Producer: ");
    push_str(out, i.producer_version());
    push_str(out, "\n");
    buf
}

fn push_input_text(out: &mut String, i: &CoverageMergeInput)
    ensures
        final(out)@ == old(out)@ + input_text(*i),
{
    let t = input_text_string(i);
    push_str(out, t.as_str());
}

#[verifier::spinoff_prover]
fn push_header(out: &mut String, m: &CoverageMerge)
    ensures
        final(out)@ == old(out)@ + header_text(*m),
{
    let ghost start = out@;
    let s = m.summary();
    push_str(out, "VVM Functional Coverage\n=======================\n\nOverall\n-------\nCoverage: ");
    push_ratio_text(out, s.coverage());
    push_str(out, "\nPolicy: ");
    push_str(out, m.policy().text());
    push_str(out, "\nArtifacts: ");
    push_decimal(out, s.artifact_count() as u64);
    push_str(out, " total, ");
    push_decimal(out, s.included_artifact_count() as u64);
    push_str(out, " included, ");
    push_decimal(out, s.excluded_artifact_count() as u64);
    push_str(out, " excluded\nStatuses: ");
    push_decimal(out, s.passed_artifact_count() as u64);
    push_str(out, " passed, ");
    push_decimal(out, s.failed_artifact_count() as u64);
    push_str(out, " failed, ");
    push_decimal(out, s.errored_artifact_count() as u64);
    push_str(out, " errored\nStructure: ");
    push_decimal(out, s.group_count() as u64);
    push_str(out, " groups, ");
    push_decimal(out, s.coverpoint_count() as u64);
    push_str(out, " coverpoints, ");
    push_decimal(out, s.cross_count() as u64);
    push_str(out, " crosses\n");
    proof {
        assert(final(out)@ =~= start + header_text(*m));
    }
}

/// Renders the complete plain-text report.
pub fn render_text(report: CoverageReport) -> (r: String)
    ensures
        r@ == report_text(report.spec_merge(), report.spec_options()@),
{
    let m = report.merge();
    let o = report.options();
    let mut out = String::new();
    push_header(&mut out, m);
    let ghost after_header = out@;
    if o.includes_inputs() {
        push_str(&mut out, "\nInputs\n------\n");
        let inputs = m.inputs();
        let ghost base = out@;
        let mut i: usize = 0;
        while i < inputs.len()
            invariant
                i <= inputs@.len(),
                out@ == base + inputs_text(inputs@, i as int),
            decreases inputs@.len() - i,
        {
            push_input_text(&mut out, &inputs[i]);
            i = i + 1;
        }
    }
    let ghost after_inputs = out@;
    let groups = m.groups();
    let mut k: usize = 0;
    while k < groups.len()
        invariant
            k <= groups@.len(),
            out@ == after_inputs + groups_text(groups@, k as int, o@),
        decreases groups@.len() - k,
    {
        push_group_text(&mut out, &groups[k], o);
        k = k + 1;
    }
    push_str(&mut out, "\n");
    let metric = report.gitlab_metric();
    push_str(&mut out, metric.as_str());
    push_str(&mut out, "\n");
    proof {
        assert(out@ =~= report_text(report.spec_merge(), report.spec_options()@));
    }
    out
}

} // verus!

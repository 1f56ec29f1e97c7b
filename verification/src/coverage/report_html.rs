use vstd::prelude::*;
use vstd::string::*;

use crate::coverage::artifact::{status_name, status_text, CoverageArtifactGroup};
use crate::coverage::bin::{bin_covered, bin_kind_text, BinKind};
use crate::coverage::fingerprint::fingerprint_text;
use crate::coverage::merge::{policy_text, CoverageMergeInput};
use crate::coverage::merge_document::CoverageMerge;
use crate::coverage::percentage::{basis_points_spec, CoveragePercentage};
use crate::coverage::report::{
    cross_bin_listed, include_coverpoint_bin, include_cross_bin, metric_text, point_bin_listed,
    push_ratio_text, push_short_ratio_text, ratio_percent_text, ratio_text_spec,
    short_ratio_text_spec, CoverageBinDetail, CoverageReport, CoverageReportOptions,
};
use crate::coverage::report_text::{covered_word, dec, matcher_shape_text};
use crate::coverage::snapshot::{
    item_snapshot_name, CoverageItemSnapshot, CoverpointBinSnapshot, CoverpointSnapshot,
    Cross2Snapshot, CrossBinSnapshot,
};
use crate::random::replay_text;
use crate::text::{push_decimal, push_str};

verus! {

/// A character with HTML metacharacters escaped.
pub open spec fn escaped_char(c: char) -> Seq<char> {
    if c == '&' {
        "&amp;"@
    } else if c == '<' {
        "&lt;"@
    } else if c == '>' {
        "&gt;"@
    } else if c == '"' {
        "&quot;"@
    } else if c == '\'' {
        "&#39;"@
    } else {
        seq![c]
    }
}

/// The first `n` characters of `s` with HTML metacharacters escaped.
pub open spec fn html_escaped(s: Seq<char>, n: int) -> Seq<char>
    decreases n,
{
    if n <= 0 {
        Seq::empty()
    } else {
        html_escaped(s, n - 1) + escaped_char(s[n - 1])
    }
}

/// Appends text with `&`, `<`, `>`, `"` and `'` escaped for HTML.
pub fn push_html_escaped(out: &mut String, value: &str)
    ensures
        final(out)@ == old(out)@ + html_escaped(value@, value@.len() as int),
{
    let ghost start = out@;
    let len = value.unicode_len();
    let mut i: usize = 0;
    while i < len
        invariant
            len == value@.len(),
            i <= len,
            out@ == start + html_escaped(value@, i as int),
        decreases len - i,
    {
        let c = value.get_char(i);
        if c == '&' {
            push_str(out, "&amp;");
        } else if c == '<' {
            push_str(out, "&lt;");
        } else if c == '>' {
            push_str(out, "&gt;");
        } else if c == '"' {
            push_str(out, "&quot;");
        } else if c == '\'' {
            push_str(out, "&#39;");
        } else {
            let one = value.substring_char(i, i + 1);
            proof {
                assert(one@ =~= seq![c]);
            }
            push_str(out, one);
        }
        proof {
            assert(out@ =~= start + html_escaped(value@, i + 1));
        }
        i = i + 1;
    }
}

/// Document head of an HTML report, up to the opening of its main content.
pub const HTML_HEAD: &'static str = "<!doctype html>\n<html lang=\"en\">\n<head>\n  <meta charset=\"utf-8\">\n  <meta name=\"viewport\" content=\"width=device-width, initial-scale=1\">\n  <title>VVM Functional Coverage</title>\n  <style>\n:root { color-scheme: light dark; --bg: #fff; --fg: #18212b; --muted: #667; --border: #bcc; --bad: #9b1c1c; --good: #176b3a; }\n@media (prefers-color-scheme: dark) { :root { --bg: #18212b; --fg: #f5f7fa; --muted: #b5bec8; --border: #52606d; --bad: #ff9999; --good: #89db9f; } }\nbody { max-width: 1100px; margin: 2rem auto; padding: 0 1rem; background: var(--bg); color: var(--fg); font: 16px system-ui, sans-serif; } table { width: 100%; border-collapse: collapse; margin: 1rem 0; } th, td { border: 1px solid var(--border); padding: .45rem; text-align: left; } .grid { display: grid; grid-template-columns: repeat(auto-fit, minmax(10rem, 1fr)); gap: .75rem; } .card { border: 1px solid var(--border); padding: .75rem; } .excluded { opacity: .72; } .covered { color: var(--good); } .uncovered, .illegal { color: var(--bad); } progress { width: 12rem; }\n  </style>\n</head>\n<body>\n<header><h1>VVM Functional Coverage</h1></header>\n<main>\n";

/// Text with HTML metacharacters escaped.
pub open spec fn esc(s: Seq<char>) -> Seq<char> {
    html_escaped(s, s.len() as int)
}

fn push_escaped_string(out: &mut String, s: String)
    ensures
        final(out)@ == old(out)@ + esc(s@),
{
    push_html_escaped(out, s.as_str());
}

/// Overall section of an HTML report.
pub open spec fn summary_html(m: CoverageMerge) -> Seq<char> {
    let s = m.spec_summary();
    let c = s.spec_counts();
    let t = s.spec_totals();
    let cov = s.spec_coverage()@;
    let pct = ratio_percent_text(cov);
    "<section aria-labelledby=\"overall\"><h2 id=\"overall\">Overall</h2><div class=\"grid\"><div class=\"card\"><strong>"@
        + pct + "</strong><br><progress max=\"10000\" value=\""@ + dec(
        basis_points_spec(cov.0 as nat, cov.1 as nat, cov.2 as nat) as int,
    ) + "\">"@ + pct + "</progress><br>"@ + ratio_text_spec(cov)
        + "</div><div class=\"card\">Covered bins: "@ + dec(cov.0 as int)
        + "</div><div class=\"card\">Uncovered bins: "@ + dec(cov.1 as int)
        + "</div><div class=\"card\">Included artifacts: "@ + dec(c.included as int)
        + "</div><div class=\"card\">Excluded artifacts: "@ + dec(c.excluded as int)
        + "</div><div class=\"card\">Group instances: "@ + dec(t.0 as int)
        + "</div></div><p>Merge policy: "@ + policy_text(m.spec_policy()) + "</p><p>Statuses: "@
        + dec(c.passed as int) + " passed, "@ + dec(c.failed as int) + " failed, "@ + dec(
        c.errored as int,
    ) + " errored. Structure: "@ + dec(t.2 as int) + " coverpoints, "@ + dec(t.3 as int)
        + " crosses.</p></section>\n"@
}

#[verifier::rlimit(100)]
#[verifier::spinoff_prover]
fn summary_html_text(report: CoverageReport) -> (r: String)
    ensures
        r@ == summary_html(report.spec_merge()),
{
    let mut buf = String::new();
    let out = &mut buf;
    let m = report.merge();
    let s = m.summary();
    let cov = s.coverage();
    let p = CoveragePercentage::from_ratio(cov);
    let pct = p.to_text();
    push_str(
        out,
        "<section aria-labelledby=\"overall\"><h2 id=\"overall\">Overall</h2><div class=\"grid\"><div class=\"card\"><strong>",
    );
    proof {
        assert(out@ =~= "<section aria-labelledby=\"overall\"><h2 id=\"overall\">Overall</h2><div class=\"grid\"><div class=\"card\"><strong>"@);
    }
    push_str(out, pct.as_str());
    push_str(out, "</strong><br><progress max=\"10000\" value=\"");
    push_decimal(out, p.basis_points() as u64);
    push_str(out, "\">");
    push_str(out, pct.as_str());
    push_str(out, "</progress><br>");
    push_ratio_text(out, cov);
    push_str(out, "</div><div class=\"card\">Covered bins: ");
    push_decimal(out, cov.covered() as u64);
    push_str(out, "</div><div class=\"card\">Uncovered bins: ");
    push_decimal(out, cov.uncovered() as u64);
    push_str(out, "</div><div class=\"card\">Included artifacts: ");
    push_decimal(out, s.included_artifact_count() as u64);
    push_str(out, "</div><div class=\"card\">Excluded artifacts: ");
    push_decimal(out, s.excluded_artifact_count() as u64);
    push_str(out, "</div><div class=\"card\">Group instances: ");
    push_decimal(out, s.group_count() as u64);
    push_str(out, "</div></div><p>Merge policy: ");
    push_str(out, m.policy().text());
    push_str(out, "</p><p>Statuses: ");
    push_decimal(out, s.passed_artifact_count() as u64);
    push_str(out, " passed, ");
    push_decimal(out, s.failed_artifact_count() as u64);
    push_str(out, " failed, ");
    push_decimal(out, s.errored_artifact_count() as u64);
    push_str(out, " errored. Structure: ");
    push_decimal(out, s.coverpoint_count() as u64);
    push_str(out, " coverpoints, ");
    push_decimal(out, s.cross_count() as u64);
    push_str(out, " crosses.</p></section>\n");
    buf
}

/// Table row of one input record.
pub open spec fn input_html(i: CoverageMergeInput) -> Seq<char> {
    let cls = if i.spec_included() {
        "included"@
    } else {
        "excluded"@
    };
    let cov = i.spec_summary().spec_coverage()@;
    "<tr class=\""@ + cls + "\"><td>"@ + cls + "</td><td>"@ + esc(i.spec_test_name()) + "</td><td>"@
        + esc(status_name(i.spec_test_status())) + "</td><td>"@ + esc(i.spec_producer_version())
        + "</td><td>"@ + (match i.spec_replay_token() {
        Some(t) => esc(replay_text(t@)),
        None => Seq::empty(),
    }) + "</td><td>"@ + esc(ratio_percent_text(cov)) + "</td><td>"@ + esc(short_ratio_text_spec(cov))
        + "</td></tr>"@
}

/// Rows of the first `n` input records.
pub open spec fn input_rows(inputs: Seq<CoverageMergeInput>, n: int) -> Seq<char>
    decreases n,
{
    if n <= 0 {
        Seq::empty()
    } else {
        input_rows(inputs, n - 1) + input_html(inputs[n - 1])
    }
}

/// Inputs section of an HTML report.
pub open spec fn inputs_html(inputs: Seq<CoverageMergeInput>) -> Seq<char> {
    "<section aria-labelledby=\"inputs\"><h2 id=\"inputs\">Inputs</h2><table><thead><tr><th>Contribution</th><th>Test</th><th>Status</th><th>Producer</th><th>Replay token</th><th>Coverage</th><th>Bins</th></tr></thead><tbody>"@
        + input_rows(inputs, inputs.len() as int) + "</tbody></table></section>\n"@
}

#[verifier::spinoff_prover]
fn push_input_html(out: &mut String, i: &CoverageMergeInput)
    ensures
        final(out)@ == old(out)@ + input_html(*i),
{
    let ghost start = out@;
    let cls = if i.included() {
        "included"
    } else {
        "excluded"
    };
    push_str(out, "<tr class=\"");
    push_str(out, cls);
    push_str(out, "\"><td>");
    push_str(out, cls);
    push_str(out, "</td><td>");
    push_html_escaped(out, i.test_name());
    push_str(out, "</td><td>");
    push_html_escaped(out, status_text(i.test_status()));
    push_str(out, "</td><td>");
    push_html_escaped(out, i.producer_version());
    push_str(out, "</td><td>");
    match i.replay_token() {
        Some(t) => push_escaped_string(out, t.to_text()),
        None => {},
    }
    push_str(out, "</td><td>");
    let cov = i.summary().coverage();
    push_escaped_string(out, CoveragePercentage::from_ratio(cov).to_text());
    push_str(out, "</td><td>");
    let mut short = String::new();
    push_short_ratio_text(&mut short, cov);
    proof {
        assert(short@ =~= short_ratio_text_spec(cov@));
    }
    push_escaped_string(out, short);
    push_str(out, "</td></tr>");
    proof {
        assert(final(out)@ =~= start + input_html(*i));
    }
}

/// Status word of a coverpoint bin.
pub open spec fn point_status_text(b: CoverpointBinSnapshot) -> Seq<char> {
    match b@.2 {
        BinKind::Normal => covered_word(bin_covered(b@.2, b@.5, b@.6)),
        BinKind::Ignore => "ignore"@,
        BinKind::Illegal => "illegal"@,
    }
}

/// Table row of one listed coverpoint bin.
pub open spec fn point_row(b: CoverpointBinSnapshot) -> Seq<char> {
    "<tr><td>"@ + esc(b@.1) + "</td><td>"@ + esc(bin_kind_text(b@.2)) + "</td><td>"@ + esc(
        matcher_shape_text(b@.3, b@.4),
    ) + "</td><td>"@ + dec(b@.5 as int) + "</td><td>"@ + dec(b@.6 as int) + "</td><td class=\""@
        + point_status_text(b) + "\">"@ + point_status_text(b) + "</td></tr>"@
}

/// Rows of the listed bins among the first `n`.
pub open spec fn point_rows(bins: Seq<CoverpointBinSnapshot>, n: int, detail: CoverageBinDetail) -> Seq<
    char,
>
    decreases n,
{
    if n <= 0 {
        Seq::empty()
    } else if point_bin_listed(detail, bins[n - 1]) {
        point_rows(bins, n - 1, detail) + point_row(bins[n - 1])
    } else {
        point_rows(bins, n - 1, detail)
    }
}

/// A table with a head, or nothing when it has no rows.
pub open spec fn table_html(head: Seq<char>, rows: Seq<char>) -> Seq<char> {
    if rows.len() > 0 {
        head + rows + "</tbody></table></details>"@
    } else {
        Seq::empty()
    }
}

/// Head of the bin table of a coverpoint.
pub open spec fn point_table_head() -> Seq<char> {
    "<details open><summary>Bins</summary><table><thead><tr><th>Bin</th><th>Role</th><th>Matcher</th><th>Hits</th><th>Required</th><th>Status</th></tr></thead><tbody>"@
}

/// Head of the bin table of a cross.
pub open spec fn cross_table_head() -> Seq<char> {
    "<details open><summary>Cross bins</summary><table><thead><tr><th>Left bin</th><th>Right bin</th><th>Hits</th><th>Required</th><th>Status</th></tr></thead><tbody>"@
}

/// Table row of one listed cross bin.
pub open spec fn cross_row(b: CrossBinSnapshot) -> Seq<char> {
    "<tr><td>"@ + esc(b@.2) + "</td><td>"@ + esc(b@.4) + "</td><td>"@ + dec(b@.5 as int)
        + "</td><td>"@ + dec(b@.6 as int) + "</td><td class=\""@ + covered_word(b@.5 >= b@.6) + "\">"@
        + covered_word(b@.5 >= b@.6) + "</td></tr>"@
}

/// Rows of the listed cross bins among the first `n`.
pub open spec fn cross_rows(bins: Seq<CrossBinSnapshot>, n: int, detail: CoverageBinDetail) -> Seq<char>
    decreases n,
{
    if n <= 0 {
        Seq::empty()
    } else if cross_bin_listed(detail, bins[n - 1]) {
        cross_rows(bins, n - 1, detail) + cross_row(bins[n - 1])
    } else {
        cross_rows(bins, n - 1, detail)
    }
}

#[verifier::spinoff_prover]
fn push_point_row(out: &mut String, b: &CoverpointBinSnapshot)
    ensures
        final(out)@ == old(out)@ + point_row(*b),
{
    let ghost start = out@;
    push_str(out, "<tr><td>");
    push_html_escaped(out, b.name());
    push_str(out, "</td><td>");
    push_html_escaped(out, b.kind().text());
    push_str(out, "</td><td>");
    let mut shape = String::new();
    crate::coverage::report_text::push_matcher_shape(&mut shape, b.matcher_kind(), b.matcher_operand_count());
    proof {
        assert(shape@ =~= matcher_shape_text(b@.3, b@.4));
    }
    push_escaped_string(out, shape);
    push_str(out, "</td><td>");
    push_decimal(out, b.hits());
    push_str(out, "</td><td>");
    push_decimal(out, b.required_hits());
    let status = match b.kind() {
        BinKind::Normal => if b.covered() {
            "covered"
        } else {
            "uncovered"
        },
        BinKind::Ignore => "ignore",
        BinKind::Illegal => "illegal",
    };
    push_str(out, "</td><td class=\"");
    push_str(out, status);
    push_str(out, "\">");
    push_str(out, status);
    push_str(out, "</td></tr>");
    proof {
        assert(final(out)@ =~= start + point_row(*b));
    }
}

#[verifier::spinoff_prover]
fn push_cross_row(out: &mut String, b: &CrossBinSnapshot)
    ensures
        final(out)@ == old(out)@ + cross_row(*b),
{
    let ghost start = out@;
    push_str(out, "<tr><td>");
    push_html_escaped(out, b.left_bin_name());
    push_str(out, "</td><td>");
    push_html_escaped(out, b.right_bin_name());
    push_str(out, "</td><td>");
    push_decimal(out, b.hits());
    push_str(out, "</td><td>");
    push_decimal(out, b.required_hits());
    let status = if b.covered() {
        "covered"
    } else {
        "uncovered"
    };
    push_str(out, "</td><td class=\"");
    push_str(out, status);
    push_str(out, "\">");
    push_str(out, status);
    push_str(out, "</td></tr>");
    proof {
        assert(final(out)@ =~= start + cross_row(*b));
    }
}

fn point_rows_text(bins: &[CoverpointBinSnapshot], detail: CoverageBinDetail) -> (r: String)
    ensures
        r@ == point_rows(bins@, bins@.len() as int, detail),
{
    let mut s = String::new();
    let mut i: usize = 0;
    while i < bins.len()
        invariant
            i <= bins@.len(),
            s@ == point_rows(bins@, i as int, detail),
        decreases bins@.len() - i,
    {
        if include_coverpoint_bin(detail, &bins[i]) {
            push_point_row(&mut s, &bins[i]);
        }
        i = i + 1;
    }
    s
}

fn cross_rows_text(bins: &[CrossBinSnapshot], detail: CoverageBinDetail) -> (r: String)
    ensures
        r@ == cross_rows(bins@, bins@.len() as int, detail),
{
    let mut s = String::new();
    let mut i: usize = 0;
    while i < bins.len()
        invariant
            i <= bins@.len(),
            s@ == cross_rows(bins@, i as int, detail),
        decreases bins@.len() - i,
    {
        if include_cross_bin(detail, &bins[i]) {
            push_cross_row(&mut s, &bins[i]);
        }
        i = i + 1;
    }
    s
}

fn push_table(out: &mut String, head: &str, rows: String)
    ensures
        final(out)@ == old(out)@ + table_html(head@, rows@),
{
    if rows.unicode_len() > 0 {
        push_str(out, head);
        push_str(out, rows.as_str());
        push_str(out, "</tbody></table></details>");
        proof {
            assert(final(out)@ =~= old(out)@ + table_html(head@, rows@));
        }
    } else {
        proof {
            assert(final(out)@ =~= old(out)@ + table_html(head@, rows@));
        }
    }
}

/// Body of one item section.
pub open spec fn item_body_html(i: CoverageItemSnapshot, detail: CoverageBinDetail) -> Seq<char> {
    match i {
        CoverageItemSnapshot::Coverpoint(p) => {
            let c = p.spec_counts();
            "<p>Coverpoint. Coverage: "@ + ratio_text_spec(p.spec_coverage()@) + ". Samples: "@ + dec(
                c.0 as int,
            ) + ". Ignored: "@ + dec(c.1 as int) + ". Illegal: "@ + dec(c.2 as int) + ". Unmatched: "@
                + dec(c.3 as int) + ".</p>"@ + table_html(
                point_table_head(),
                point_rows(p.spec_bins(), p.spec_bins().len() as int, detail),
            )
        },
        CoverageItemSnapshot::Cross2(x) => {
            let c = x.spec_counts();
            "<p>Cross. Coverage: "@ + esc(ratio_text_spec(x.spec_coverage()@)) + ". Samples: "@ + dec(
                c.0 as int,
            ) + ". Skipped: "@ + dec(c.1 as int) + ". Axes: "@ + esc(x.spec_axis_names().0) + " x "@
                + esc(x.spec_axis_names().1) + ".</p>"@ + table_html(
                cross_table_head(),
                cross_rows(x.spec_bins(), x.spec_bins().len() as int, detail),
            )
        },
    }
}

/// Section of item `ii` of group `gi`.
pub open spec fn item_html(gi: int, ii: int, i: CoverageItemSnapshot, detail: CoverageBinDetail) -> Seq<
    char,
> {
    "<section id=\"item-"@ + dec(gi) + "-"@ + dec(ii) + "\"><h3>"@ + esc(item_snapshot_name(i))
        + "</h3>"@ + item_body_html(i, detail) + "</section>"@
}

/// Sections of the first `n` items of group `gi`.
pub open spec fn items_html(gi: int, items: Seq<CoverageItemSnapshot>, n: int, detail: CoverageBinDetail) -> Seq<
    char,
>
    decreases n,
{
    if n <= 0 {
        Seq::empty()
    } else {
        items_html(gi, items, n - 1, detail) + item_html(gi, n - 1, items[n - 1], detail)
    }
}

#[verifier::spinoff_prover]
fn push_point_body(out: &mut String, p: &CoverpointSnapshot, detail: CoverageBinDetail)
    ensures
        final(out)@ == old(out)@ + item_body_html(CoverageItemSnapshot::Coverpoint(*p), detail),
{
    let ghost start = out@;
    push_str(out, "<p>Coverpoint. Coverage: ");
    push_ratio_text(out, p.coverage());
    push_str(out, ". Samples: ");
    push_decimal(out, p.sample_count());
    push_str(out, ". Ignored: ");
    push_decimal(out, p.ignored_sample_count());
    push_str(out, ". Illegal: ");
    push_decimal(out, p.illegal_sample_count());
    push_str(out, ". Unmatched: ");
    push_decimal(out, p.unmatched_sample_count());
    push_str(out, ".</p>");
    let rows = point_rows_text(p.bins(), detail);
    push_table(
        out,
        "<details open><summary>Bins</summary><table><thead><tr><th>Bin</th><th>Role</th><th>Matcher</th><th>Hits</th><th>Required</th><th>Status</th></tr></thead><tbody>",
        rows,
    );
    proof {
        assert(final(out)@ =~= start + item_body_html(CoverageItemSnapshot::Coverpoint(*p), detail));
    }
}

#[verifier::spinoff_prover]
fn push_cross_body(out: &mut String, x: &Cross2Snapshot, detail: CoverageBinDetail)
    ensures
        final(out)@ == old(out)@ + item_body_html(CoverageItemSnapshot::Cross2(*x), detail),
{
    let ghost start = out@;
    push_str(out, "<p>Cross. Coverage: ");
    let mut ratio = String::new();
    push_ratio_text(&mut ratio, x.coverage());
    proof {
        assert(ratio@ =~= ratio_text_spec(x.spec_coverage()@));
    }
    push_escaped_string(out, ratio);
    push_str(out, ". Samples: ");
    push_decimal(out, x.sample_count());
    push_str(out, ". Skipped: ");
    push_decimal(out, x.skipped_sample_count());
    push_str(out, ". Axes: ");
    push_html_escaped(out, x.left_coverpoint_name());
    push_str(out, " x ");
    push_html_escaped(out, x.right_coverpoint_name());
    push_str(out, ".</p>");
    let rows = cross_rows_text(x.bins(), detail);
    push_table(
        out,
        "<details open><summary>Cross bins</summary><table><thead><tr><th>Left bin</th><th>Right bin</th><th>Hits</th><th>Required</th><th>Status</th></tr></thead><tbody>",
        rows,
    );
    proof {
        assert(final(out)@ =~= start + item_body_html(CoverageItemSnapshot::Cross2(*x), detail));
    }
}

#[verifier::spinoff_prover]
fn push_item_html(out: &mut String, gi: usize, ii: usize, item: &CoverageItemSnapshot, detail: CoverageBinDetail)
    ensures
        final(out)@ == old(out)@ + item_html(gi as int, ii as int, *item, detail),
{
    let ghost start = out@;
    push_str(out, "<section id=\"item-");
    push_decimal(out, gi as u64);
    push_str(out, "-");
    push_decimal(out, ii as u64);
    push_str(out, "\"><h3>");
    push_html_escaped(out, item.name());
    push_str(out, "</h3>");
    match item {
        CoverageItemSnapshot::Coverpoint(p) => push_point_body(out, p, detail),
        CoverageItemSnapshot::Cross2(x) => push_cross_body(out, x, detail),
    }
    push_str(out, "</section>");
    proof {
        assert(final(out)@ =~= start + item_html(gi as int, ii as int, *item, detail));
    }
}

/// Heading and summary of the section of group `gi`.
pub open spec fn group_head_html(gi: int, g: CoverageArtifactGroup, o: (CoverageBinDetail, bool, bool)) -> Seq<
    char,
> {
    let s = g.spec_snapshot();
    let m = s.spec_summary();
    "<section id=\"group-"@ + dec(gi) + "\"><h2>"@ + esc(s.spec_instance_path()) + "</h2><p>Definition: "@
        + esc(s.spec_definition_name()) + ", revision "@ + dec(s.spec_revision() as int)
        + ". Coverage: "@ + ratio_text_spec(m.spec_coverage()@) + ". Items: "@ + dec(
        m.spec_items() as int,
    ) + "; coverpoints: "@ + dec(m.spec_coverpoints() as int) + "; crosses: "@ + dec(
        m.spec_crosses() as int,
    ) + ".</p>"@ + (if o.2 {
        "<p>Fingerprint: "@ + esc(fingerprint_text(g.spec_fingerprint()@)) + "</p>"@
    } else {
        Seq::empty()
    })
}

/// Section of group `gi`.
pub open spec fn group_html(gi: int, g: CoverageArtifactGroup, o: (CoverageBinDetail, bool, bool)) -> Seq<
    char,
> {
    let s = g.spec_snapshot();
    group_head_html(gi, g, o) + items_html(gi, s.spec_items(), s.spec_items().len() as int, o.0)
        + "</section>\n"@
}

/// Sections of the first `n` groups.
pub open spec fn groups_html(gs: Seq<CoverageArtifactGroup>, n: int, o: (CoverageBinDetail, bool, bool)) -> Seq<
    char,
>
    decreases n,
{
    if n <= 0 {
        Seq::empty()
    } else {
        groups_html(gs, n - 1, o) + group_html(n - 1, gs[n - 1], o)
    }
}

#[verifier::spinoff_prover]
fn push_group_head_html(out: &mut String, gi: usize, g: &CoverageArtifactGroup, o: CoverageReportOptions)
    ensures
        final(out)@ == old(out)@ + group_head_html(gi as int, *g, o@),
{
    let ghost start = out@;
    let m = g.summary();
    push_str(out, "<section id=\"group-");
    push_decimal(out, gi as u64);
    push_str(out, "\"><h2>");
    push_html_escaped(out, g.instance_path());
    push_str(out, "</h2><p>Definition: ");
    push_html_escaped(out, g.definition_name());
    push_str(out, ", revision ");
    push_decimal(out, g.definition_revision());
    push_str(out, ". Coverage: ");
    push_ratio_text(out, g.coverage());
    push_str(out, ". Items: ");
    push_decimal(out, m.item_count() as u64);
    push_str(out, "; coverpoints: ");
    push_decimal(out, m.coverpoint_count() as u64);
    push_str(out, "; crosses: ");
    push_decimal(out, m.cross_count() as u64);
    push_str(out, ".</p>");
    let ghost before_fp = out@;
    if o.includes_fingerprints() {
        push_str(out, "<p>Fingerprint: ");
        push_escaped_string(out, g.definition_fingerprint().to_text());
        push_str(out, "</p>");
    }
    proof {
        assert(final(out)@ =~= start + group_head_html(gi as int, *g, o@));
    }
}

fn push_group_html(out: &mut String, gi: usize, g: &CoverageArtifactGroup, o: CoverageReportOptions)
    ensures
        final(out)@ == old(out)@ + group_html(gi as int, *g, o@),
{
    let ghost start = out@;
    push_group_head_html(out, gi, g, o);
    let ghost after_head = out@;
    let items = g.snapshot().items();
    let mut i: usize = 0;
    while i < items.len()
        invariant
            items@ == g.spec_snapshot().spec_items(),
            i <= items@.len(),
            out@ == after_head + items_html(gi as int, items@, i as int, o@.0),
        decreases items@.len() - i,
    {
        push_item_html(out, gi, i, &items[i], o.bin_detail());
        i = i + 1;
    }
    push_str(out, "</section>\n");
    proof {
        assert(final(out)@ =~= start + group_html(gi as int, *g, o@));
    }
}

/// Complete HTML report of a merge under options `o`.
pub open spec fn report_html(m: CoverageMerge, o: (CoverageBinDetail, bool, bool)) -> Seq<char> {
    HTML_HEAD@ + summary_html(m) + (if o.1 {
        inputs_html(m.spec_inputs())
    } else {
        Seq::empty()
    }) + groups_html(m.spec_groups(), m.spec_groups().len() as int, o) + "</main>\n<footer><p>"@ + esc(
        metric_text(m),
    ) + "</p></footer>\n</body>\n</html>\n"@
}

fn inputs_html_text(inputs: &[CoverageMergeInput]) -> (r: String)
    ensures
        r@ == inputs_html(inputs@),
{
    let mut rows = String::new();
    let mut i: usize = 0;
    while i < inputs.len()
        invariant
            i <= inputs@.len(),
            rows@ == input_rows(inputs@, i as int),
        decreases inputs@.len() - i,
    {
        push_input_html(&mut rows, &inputs[i]);
        i = i + 1;
    }
    let mut out = String::new();
    push_str(
        &mut out,
        "<section aria-labelledby=\"inputs\"><h2 id=\"inputs\">Inputs</h2><table><thead><tr><th>Contribution</th><th>Test</th><th>Status</th><th>Producer</th><th>Replay token</th><th>Coverage</th><th>Bins</th></tr></thead><tbody>",
    );
    push_str(&mut out, rows.as_str());
    push_str(&mut out, "</tbody></table></section>\n");
    proof {
        assert(out@ =~= inputs_html(inputs@));
    }
    out
}

fn groups_html_text(groups: &[CoverageArtifactGroup], o: CoverageReportOptions) -> (r: String)
    ensures
        r@ == groups_html(groups@, groups@.len() as int, o@),
{
    let mut out = String::new();
    let mut k: usize = 0;
    while k < groups.len()
        invariant
            k <= groups@.len(),
            out@ == groups_html(groups@, k as int, o@),
        decreases groups@.len() - k,
    {
        push_group_html(&mut out, k, &groups[k], o);
        k = k + 1;
    }
    out
}

/// Renders the complete self-contained HTML report.
pub fn render_html(report: CoverageReport) -> (r: String)
    ensures
        r@ == report_html(report.spec_merge(), report.spec_options()@),
{
    let m = report.merge();
    let o = report.options();
    let mut out = String::new();
    push_str(&mut out, HTML_HEAD);
    proof {
        assert(out@ =~= HTML_HEAD@);
    }
    let summary = summary_html_text(report);
    push_str(&mut out, summary.as_str());
    let ghost before_inputs = out@;
    if o.includes_inputs() {
        let inputs = inputs_html_text(m.inputs());
        push_str(&mut out, inputs.as_str());
    } else {
        proof {
            assert(out@ =~= before_inputs + Seq::<char>::empty());
        }
    }
    let groups = groups_html_text(m.groups(), o);
    push_str(&mut out, groups.as_str());
    push_str(&mut out, "</main>\n<footer><p>");
    push_escaped_string(&mut out, report.gitlab_metric());
    push_str(&mut out, "</p></footer>\n</body>\n</html>\n");
    out
}

} // verus!

use vstd::prelude::*;
use vstd::string::*;

use crate::coverage::bin::{bin_covered, BinKind};
use crate::coverage::merge_document::CoverageMerge;
use crate::coverage::percentage::{basis_points_spec, CoveragePercentage};
use crate::coverage::ratio::CoverageRatio;
use crate::coverage::snapshot::{CoverpointBinSnapshot, CrossBinSnapshot};
use crate::text::{decimal_spec, digit_char, push_decimal, push_str};

verus! {

/// Prefix of the CI metric line.
pub const GITLAB_METRIC_PREFIX: &'static str = "VVM functional coverage: ";

/// GitLab `coverage` expression that matches the metric line.
pub const GITLAB_COVERAGE_REGEX: &'static str = "/^VVM functional coverage: \\d+\\.\\d{2}%$/";

/// Suggested suffix of a text report.
pub const TEXT_FILE_SUFFIX: &'static str = ".vvmcov.txt";

/// Suggested suffix of an HTML report.
pub const HTML_FILE_SUFFIX: &'static str = ".vvmcov.html";

/// Amount of per-bin detail in rendered reports.
#[derive(Debug, Clone, Copy, PartialEq, Eq, Hash, Structural)]
pub enum CoverageBinDetail {
    /// No individual bins.
    NoBins,
    /// Uncovered normal bins and hit illegal bins.
    Uncovered,
    /// Every bin.
    All,
}

impl Default for CoverageBinDetail {
    fn default() -> (r: Self)
        ensures
            r == CoverageBinDetail::Uncovered,
    {
        CoverageBinDetail::Uncovered
    }
}

/// Rendering options shared by the text and HTML reports.
#[derive(Debug, Clone, Copy, PartialEq, Eq)]
pub struct CoverageReportOptions {
    bin_detail: CoverageBinDetail,
    include_inputs: bool,
    include_fingerprints: bool,
}

impl View for CoverageReportOptions {
    /// Bin detail, whether inputs are shown, whether fingerprints are shown.
    type V = (CoverageBinDetail, bool, bool);

    closed spec fn view(&self) -> (CoverageBinDetail, bool, bool) {
        (self.bin_detail, self.include_inputs, self.include_fingerprints)
    }
}

impl Default for CoverageReportOptions {
    fn default() -> (r: Self)
        ensures
            r@ == (CoverageBinDetail::Uncovered, true, false),
    {
        CoverageReportOptions {
            bin_detail: CoverageBinDetail::Uncovered,
            include_inputs: true,
            include_fingerprints: false,
        }
    }
}

impl CoverageReportOptions {
    /// Sets the amount of bin detail.
    pub fn with_bin_detail(self, detail: CoverageBinDetail) -> (r: Self)
        ensures
            r@ == (detail, self@.1, self@.2),
    {
        CoverageReportOptions { bin_detail: detail, ..self }
    }

    /// Shows or hides the input records.
    pub fn with_inputs(self, enabled: bool) -> (r: Self)
        ensures
            r@ == (self@.0, enabled, self@.2),
    {
        CoverageReportOptions { include_inputs: enabled, ..self }
    }

    /// Shows or hides the full definition fingerprints.
    pub fn with_fingerprints(self, enabled: bool) -> (r: Self)
        ensures
            r@ == (self@.0, self@.1, enabled),
    {
        CoverageReportOptions { include_fingerprints: enabled, ..self }
    }

    /// Returns the amount of bin detail.
    pub fn bin_detail(self) -> (r: CoverageBinDetail)
        ensures
            r == self@.0,
    {
        self.bin_detail
    }

    /// Returns whether input records are shown.
    pub fn includes_inputs(self) -> (r: bool)
        ensures
            r == self@.1,
    {
        self.include_inputs
    }

    /// Returns whether full fingerprints are shown.
    pub fn includes_fingerprints(self) -> (r: bool)
        ensures
            r == self@.2,
    {
        self.include_fingerprints
    }
}

/// Read-only renderer over one merged coverage document.
#[derive(Debug, Clone, Copy)]
pub struct CoverageReport<'a> {
    merge: &'a CoverageMerge,
    options: CoverageReportOptions,
}

/// Text `W.FF%` of a percentage in basis points.
pub open spec fn percent_text(bp: nat) -> Seq<char> {
    decimal_spec(bp / 100) + "."@ + seq![digit_char((bp % 100) / 10), digit_char(bp % 10)] + "%"@
}

/// Percentage of a ratio view, as text.
pub open spec fn ratio_percent_text(r: (usize, usize, usize)) -> Seq<char> {
    percent_text(basis_points_spec(r.0 as nat, r.1 as nat, r.2 as nat))
}

/// `P% (covered/total bins; uncovered uncovered)`.
pub open spec fn ratio_text_spec(r: (usize, usize, usize)) -> Seq<char> {
    ratio_percent_text(r) + " ("@ + decimal_spec(r.0 as nat) + "/"@ + decimal_spec(r.2 as nat) + (
    if r.2 == 1 {
        " bin; "@
    } else {
        " bins; "@
    }) + decimal_spec(r.1 as nat) + " uncovered)"@
}

/// `P% (covered/total)`.
pub open spec fn short_ratio_text_spec(r: (usize, usize, usize)) -> Seq<char> {
    ratio_percent_text(r) + " ("@ + decimal_spec(r.0 as nat) + "/"@ + decimal_spec(r.2 as nat) + ")"@
}

/// The CI metric line of a merge.
pub open spec fn metric_text(m: CoverageMerge) -> Seq<char> {
    GITLAB_METRIC_PREFIX@ + ratio_percent_text(m.spec_summary().spec_coverage()@)
}

/// Appends the percentage of a ratio.
pub fn push_percent(out: &mut String, ratio: CoverageRatio)
    ensures
        final(out)@ == old(out)@ + ratio_percent_text(ratio@),
{
    let p = CoveragePercentage::from_ratio(ratio);
    let t = p.to_text();
    push_str(out, t.as_str());
}

/// Appends `P% (covered/total bins; uncovered uncovered)`.
pub fn push_ratio_text(out: &mut String, ratio: CoverageRatio)
    ensures
        final(out)@ == old(out)@ + ratio_text_spec(ratio@),
{
    push_percent(out, ratio);
    push_str(out, " (");
    push_decimal(out, ratio.covered() as u64);
    push_str(out, "/");
    push_decimal(out, ratio.total() as u64);
    if ratio.total() == 1 {
        push_str(out, " bin; ");
    } else {
        push_str(out, " bins; ");
    }
    push_decimal(out, ratio.uncovered() as u64);
    push_str(out, " uncovered)");
    proof {
        assert(final(out)@ =~= old(out)@ + ratio_text_spec(ratio@));
    }
}

/// Appends `P% (covered/total)`.
pub fn push_short_ratio_text(out: &mut String, ratio: CoverageRatio)
    ensures
        final(out)@ == old(out)@ + short_ratio_text_spec(ratio@),
{
    push_percent(out, ratio);
    push_str(out, " (");
    push_decimal(out, ratio.covered() as u64);
    push_str(out, "/");
    push_decimal(out, ratio.total() as u64);
    push_str(out, ")");
    proof {
        assert(final(out)@ =~= old(out)@ + short_ratio_text_spec(ratio@));
    }
}

/// Whether a coverpoint bin is listed under a detail level.
pub open spec fn point_bin_listed(detail: CoverageBinDetail, b: CoverpointBinSnapshot) -> bool {
    match detail {
        CoverageBinDetail::NoBins => false,
        CoverageBinDetail::Uncovered => (b@.2 == BinKind::Normal && !bin_covered(b@.2, b@.5, b@.6))
            || (b@.2 == BinKind::Illegal && b@.5 > 0),
        CoverageBinDetail::All => true,
    }
}

/// Whether a cross bin is listed under a detail level.
pub open spec fn cross_bin_listed(detail: CoverageBinDetail, b: CrossBinSnapshot) -> bool {
    match detail {
        CoverageBinDetail::NoBins => false,
        CoverageBinDetail::Uncovered => b@.5 < b@.6,
        CoverageBinDetail::All => true,
    }
}

/// Which bins a detail level lists. With no bins, none; with all bins,
/// every one. Listing uncovered bins lists a cross bin exactly when it is
/// not covered, its hits short of its threshold, so a partly hit bin is
/// listed and a covered one is not; and it lists a coverpoint bin exactly
/// when it is a normal bin short of its threshold or an illegal bin that
/// was hit, never an ignore bin.
pub proof fn lemma_listed_bins(detail: CoverageBinDetail, p: CoverpointBinSnapshot, c: CrossBinSnapshot)
    ensures
        detail == CoverageBinDetail::NoBins ==> !point_bin_listed(detail, p) && !cross_bin_listed(
            detail,
            c,
        ),
        detail == CoverageBinDetail::All ==> point_bin_listed(detail, p) && cross_bin_listed(detail, c),
        detail == CoverageBinDetail::Uncovered ==> (cross_bin_listed(detail, c) <==> c@.5 < c@.6),
        detail == CoverageBinDetail::Uncovered && c@.5 >= c@.6 ==> !cross_bin_listed(detail, c),
        detail == CoverageBinDetail::Uncovered && 0 < c@.5 < c@.6 ==> cross_bin_listed(detail, c),
        detail == CoverageBinDetail::Uncovered ==> (point_bin_listed(detail, p) <==> ((p@.2
            == BinKind::Normal && p@.5 < p@.6) || (p@.2 == BinKind::Illegal && p@.5 > 0))),
        detail == CoverageBinDetail::Uncovered && p@.2 == BinKind::Ignore ==> !point_bin_listed(
            detail,
            p,
        ),
{
}

/// Returns whether a coverpoint bin is listed under a detail level.
pub fn include_coverpoint_bin(detail: CoverageBinDetail, bin: &CoverpointBinSnapshot) -> (r: bool)
    ensures
        r == point_bin_listed(detail, *bin),
        detail == CoverageBinDetail::NoBins ==> !r,
        detail == CoverageBinDetail::All ==> r,
        detail == CoverageBinDetail::Uncovered ==> (r <==> ((bin@.2 == BinKind::Normal && bin@.5
            < bin@.6) || (bin@.2 == BinKind::Illegal && bin@.5 > 0))),
{
    match detail {
        CoverageBinDetail::NoBins => false,
        CoverageBinDetail::Uncovered => (bin.kind() == BinKind::Normal && !bin.covered()) || (
        bin.kind() == BinKind::Illegal && bin.hits() > 0),
        CoverageBinDetail::All => true,
    }
}

/// Returns whether a cross bin is listed under a detail level.
pub fn include_cross_bin(detail: CoverageBinDetail, bin: &CrossBinSnapshot) -> (r: bool)
    ensures
        r == cross_bin_listed(detail, *bin),
        detail == CoverageBinDetail::NoBins ==> !r,
        detail == CoverageBinDetail::All ==> r,
        detail == CoverageBinDetail::Uncovered ==> (r <==> !(bin@.5 >= bin@.6)),
{
    match detail {
        CoverageBinDetail::NoBins => false,
        CoverageBinDetail::Uncovered => !bin.covered(),
        CoverageBinDetail::All => true,
    }
}

impl<'a> CoverageReport<'a> {
    /// Merged document reported on.
    pub closed spec fn spec_merge(&self) -> CoverageMerge {
        *self.merge
    }

    /// Rendering options.
    pub closed spec fn spec_options(&self) -> CoverageReportOptions {
        self.options
    }

    /// A report with the default options.
    pub fn new(merge: &'a CoverageMerge) -> (r: Self)
        ensures
            r.spec_merge() == *merge,
            r.spec_options()@ == (CoverageBinDetail::Uncovered, true, false),
    {
        CoverageReport { merge, options: CoverageReportOptions::default() }
    }

    /// A report with explicit options.
    pub fn with_options(merge: &'a CoverageMerge, options: CoverageReportOptions) -> (r: Self)
        ensures
            r.spec_merge() == *merge,
            r.spec_options() == options,
    {
        CoverageReport { merge, options }
    }

    /// Returns the merged document.
    pub fn merge(self) -> (r: &'a CoverageMerge)
        ensures
            *r == self.spec_merge(),
    {
        self.merge
    }

    /// Returns the rendering options.
    pub fn options(self) -> (r: CoverageReportOptions)
        ensures
            r == self.spec_options(),
    {
        self.options
    }

    /// Returns the overall percentage.
    pub fn percentage(self) -> (r: CoveragePercentage)
        ensures
            r@ == basis_points_spec(
                self.spec_merge().spec_summary().spec_coverage()@.0 as nat,
                self.spec_merge().spec_summary().spec_coverage()@.1 as nat,
                self.spec_merge().spec_summary().spec_coverage()@.2 as nat,
            ),
    {
        CoveragePercentage::from_ratio(self.merge.coverage())
    }

    /// Renders the deterministic plain-text report.
    pub fn to_text(self) -> (r: String)
        ensures
            r@ == crate::coverage::report_text::report_text(self.spec_merge(), self.spec_options()@),
    {
        crate::coverage::report_text::render_text(self)
    }

    /// Renders the deterministic self-contained HTML report.
    pub fn to_html(self) -> (r: String)
        ensures
            r@ == crate::coverage::report_html::report_html(self.spec_merge(), self.spec_options()@),
    {
        crate::coverage::report_html::render_html(self)
    }

    /// Returns the CI metric line, `VVM functional coverage: P%`.
    pub fn gitlab_metric(self) -> (r: String)
        ensures
            r@ == metric_text(self.spec_merge()),
    {
        let mut s = String::new();
        push_str(&mut s, GITLAB_METRIC_PREFIX);
        push_percent(&mut s, self.merge.coverage());
        proof {
            assert(s@ =~= metric_text(self.spec_merge()));
        }
        s
    }
}

} // verus!

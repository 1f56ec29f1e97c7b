use vstd::prelude::*;
use vstd::string::*;

use crate::coverage::bin::{bin_covered, BinId, BinKind, CoverpointBin};
use crate::coverage::coverpoint::{count_covered, count_normal, Coverpoint};
use crate::coverage::cross::{count_cross_covered, Cross2, CrossBin};
use crate::coverage::cross_error::CrossBinId;
use crate::coverage::group::CoverageGroupSummary;
use crate::coverage::item::{item_kind_of, CoverageItemKind};
use crate::coverage::matcher::{matcher_kind_of, matcher_operands_of, BinMatcherKind};
use crate::coverage::ratio::CoverageRatio;
use crate::text::str_eq;

verus! {

/// Immutable runtime snapshot of one coverpoint bin.
#[derive(Debug, Clone, PartialEq, Eq)]
pub struct CoverpointBinSnapshot {
    id: BinId,
    name: String,
    kind: BinKind,
    matcher_kind: BinMatcherKind,
    matcher_operand_count: usize,
    hits: u64,
    required_hits: u64,
}

/// Identifier, name, kind, matcher shape, matcher operand count, hit count and
/// required hit count of a bin snapshot.
pub type BinSnapshotView = (BinId, Seq<char>, BinKind, BinMatcherKind, nat, u64, u64);

impl View for CoverpointBinSnapshot {
    type V = BinSnapshotView;

    closed spec fn view(&self) -> BinSnapshotView {
        (
            self.id,
            self.name@,
            self.kind,
            self.matcher_kind,
            self.matcher_operand_count as nat,
            self.hits,
            self.required_hits,
        )
    }
}

/// The snapshot of a live coverpoint bin.
pub open spec fn bin_snapshot_of<T>(b: CoverpointBin<T>) -> BinSnapshotView {
    (
        b.id,
        b.definition.name@,
        b.kind,
        matcher_kind_of(b.definition.matcher),
        matcher_operands_of(b.definition.matcher),
        b.hits,
        b.required_hits,
    )
}

impl CoverpointBinSnapshot {
    /// Assembles a bin snapshot from its parts.
    pub fn from_parts(
        id: BinId,
        name: &str,
        kind: BinKind,
        matcher_kind: BinMatcherKind,
        matcher_operand_count: usize,
        hits: u64,
        required_hits: u64,
    ) -> (r: Self)
        ensures
            r@ == (id, name@, kind, matcher_kind, matcher_operand_count as nat, hits, required_hits),
    {
        CoverpointBinSnapshot {
            id,
            name: String::from_str(name),
            kind,
            matcher_kind,
            matcher_operand_count,
            hits,
            required_hits,
        }
    }

    /// Returns the matcher shape.
    pub fn matcher_kind(&self) -> (r: BinMatcherKind)
        ensures
            r == self@.3,
    {
        self.matcher_kind
    }

    /// Returns the matcher operand count.
    pub fn matcher_operand_count(&self) -> (r: usize)
        ensures
            r == self@.4,
    {
        self.matcher_operand_count
    }

    /// Returns the coverpoint-local bin identifier.
    pub fn id(&self) -> (r: BinId)
        ensures
            r == self@.0,
    {
        self.id
    }

    /// Returns the stable bin name.
    pub fn name(&self) -> (r: &str)
        ensures
            r@ == self@.1,
    {
        self.name.as_str()
    }

    /// Returns the normal, ignore, or illegal role.
    pub fn kind(&self) -> (r: BinKind)
        ensures
            r == self@.2,
    {
        self.kind
    }

    /// Returns the captured hit count.
    pub fn hits(&self) -> (r: u64)
        ensures
            r == self@.5,
    {
        self.hits
    }

    /// Returns the required hit count.
    pub fn required_hits(&self) -> (r: u64)
        ensures
            r == self@.6,
    {
        self.required_hits
    }

    /// Returns whether this normal bin is covered.
    pub fn covered(&self) -> (r: bool)
        ensures
            r == bin_covered(self@.2, self@.5, self@.6),
    {
        self.kind == BinKind::Normal && self.hits >= self.required_hits
    }
}

/// Immutable runtime snapshot of one generated two-way cross bin.
#[derive(Debug, Clone, PartialEq, Eq)]
pub struct CrossBinSnapshot {
    id: CrossBinId,
    left_bin_id: BinId,
    left_bin_name: String,
    right_bin_id: BinId,
    right_bin_name: String,
    hits: u64,
    required_hits: u64,
}

impl View for CrossBinSnapshot {
    /// Identifier, left bin, left name, right bin, right name, hits, required hits.
    type V = (CrossBinId, BinId, Seq<char>, BinId, Seq<char>, u64, u64);

    closed spec fn view(&self) -> (CrossBinId, BinId, Seq<char>, BinId, Seq<char>, u64, u64) {
        (
            self.id,
            self.left_bin_id,
            self.left_bin_name@,
            self.right_bin_id,
            self.right_bin_name@,
            self.hits,
            self.required_hits,
        )
    }
}

/// The snapshot of a live cross bin.
pub open spec fn cross_bin_snapshot_of(b: CrossBin) -> (
    CrossBinId,
    BinId,
    Seq<char>,
    BinId,
    Seq<char>,
    u64,
    u64,
) {
    (b.id, b.left_bin_id, b.left_bin_name@, b.right_bin_id, b.right_bin_name@, b.hits, b.required_hits)
}

impl CrossBinSnapshot {
    /// Assembles a cross-bin snapshot from its parts.
    pub fn from_parts(
        id: CrossBinId,
        left_bin_id: BinId,
        left_bin_name: &str,
        right_bin_id: BinId,
        right_bin_name: &str,
        hits: u64,
        required_hits: u64,
    ) -> (r: Self)
        ensures
            r@ == (id, left_bin_id, left_bin_name@, right_bin_id, right_bin_name@, hits, required_hits),
    {
        CrossBinSnapshot {
            id,
            left_bin_id,
            left_bin_name: String::from_str(left_bin_name),
            right_bin_id,
            right_bin_name: String::from_str(right_bin_name),
            hits,
            required_hits,
        }
    }

    /// Returns the cross-local bin identifier.
    pub fn id(&self) -> (r: CrossBinId)
        ensures
            r == self@.0,
    {
        self.id
    }

    /// Returns the left source-bin identifier.
    pub fn left_bin_id(&self) -> (r: BinId)
        ensures
            r == self@.1,
    {
        self.left_bin_id
    }

    /// Returns the left source-bin name.
    pub fn left_bin_name(&self) -> (r: &str)
        ensures
            r@ == self@.2,
    {
        self.left_bin_name.as_str()
    }

    /// Returns the right source-bin identifier.
    pub fn right_bin_id(&self) -> (r: BinId)
        ensures
            r == self@.3,
    {
        self.right_bin_id
    }

    /// Returns the right source-bin name.
    pub fn right_bin_name(&self) -> (r: &str)
        ensures
            r@ == self@.4,
    {
        self.right_bin_name.as_str()
    }

    /// Returns the captured hit count.
    pub fn hits(&self) -> (r: u64)
        ensures
            r == self@.5,
    {
        self.hits
    }

    /// Returns the required hit count.
    pub fn required_hits(&self) -> (r: u64)
        ensures
            r == self@.6,
    {
        self.required_hits
    }

    /// Returns whether the cross bin is covered.
    pub fn covered(&self) -> (r: bool)
        ensures
            r == (self@.5 >= self@.6),
    {
        self.hits >= self.required_hits
    }
}

/// Immutable type-erased runtime snapshot of one typed coverpoint.
#[derive(Debug, Clone, PartialEq, Eq)]
pub struct CoverpointSnapshot {
    name: String,
    bins: Vec<CoverpointBinSnapshot>,
    samples: u64,
    ignored_samples: u64,
    illegal_samples: u64,
    unmatched_samples: u64,
    coverage: CoverageRatio,
}

/// Views of a sequence of bin snapshots.
pub open spec fn bin_views(bins: Seq<CoverpointBinSnapshot>) -> Seq<BinSnapshotView> {
    bins.map_values(|b: CoverpointBinSnapshot| b@)
}

/// Views of a sequence of cross-bin snapshots.
pub open spec fn cross_bin_views(bins: Seq<CrossBinSnapshot>) -> Seq<
    (CrossBinId, BinId, Seq<char>, BinId, Seq<char>, u64, u64),
> {
    bins.map_values(|b: CrossBinSnapshot| b@)
}

/// Bin snapshots among the first `n` that are covered (or, when `covered`
/// is false, normal and not covered).
pub open spec fn filter_bin_snapshots(bins: Seq<CoverpointBinSnapshot>, n: int, covered: bool) -> Seq<
    CoverpointBinSnapshot,
>
    decreases n,
{
    if n <= 0 {
        Seq::empty()
    } else {
        let b = bins[n - 1];
        let keep = if covered {
            bin_covered(b@.2, b@.5, b@.6)
        } else {
            b@.2 == BinKind::Normal && !bin_covered(b@.2, b@.5, b@.6)
        };
        if keep {
            filter_bin_snapshots(bins, n - 1, covered).push(b)
        } else {
            filter_bin_snapshots(bins, n - 1, covered)
        }
    }
}

/// Cross-bin snapshots among the first `n` whose coverage equals `covered`.
pub open spec fn filter_cross_snapshots(bins: Seq<CrossBinSnapshot>, n: int, covered: bool) -> Seq<
    CrossBinSnapshot,
>
    decreases n,
{
    if n <= 0 {
        Seq::empty()
    } else if (bins[n - 1]@.5 >= bins[n - 1]@.6) == covered {
        filter_cross_snapshots(bins, n - 1, covered).push(bins[n - 1])
    } else {
        filter_cross_snapshots(bins, n - 1, covered)
    }
}

impl CoverpointSnapshot {
    /// Coverpoint name.
    pub closed spec fn spec_name(&self) -> Seq<char> {
        self.name@
    }

    /// Bins in declaration order.
    pub closed spec fn spec_bins(&self) -> Seq<CoverpointBinSnapshot> {
        self.bins@
    }

    /// Total, ignored, illegal and unmatched sample counts.
    pub closed spec fn spec_counts(&self) -> (u64, u64, u64, u64) {
        (self.samples, self.ignored_samples, self.illegal_samples, self.unmatched_samples)
    }

    /// Captured normal-bin coverage.
    pub closed spec fn spec_coverage(&self) -> CoverageRatio {
        self.coverage
    }

    /// Assembles a coverpoint snapshot from its parts.
    pub fn from_parts(
        name: &str,
        bins: Vec<CoverpointBinSnapshot>,
        samples: u64,
        ignored_samples: u64,
        illegal_samples: u64,
        unmatched_samples: u64,
        coverage: CoverageRatio,
    ) -> (r: Self)
        ensures
            r.spec_name() == name@,
            r.spec_bins() == bins@,
            r.spec_counts() == (samples, ignored_samples, illegal_samples, unmatched_samples),
            r.spec_coverage() == coverage,
    {
        CoverpointSnapshot {
            name: String::from_str(name),
            bins,
            samples,
            ignored_samples,
            illegal_samples,
            unmatched_samples,
            coverage,
        }
    }

    /// Captures an owned snapshot of one live coverpoint.
    pub fn capture<T>(coverpoint: &Coverpoint<T>) -> (r: Self)
        ensures
            r.spec_name() == coverpoint.spec_name(),
            bin_views(r.spec_bins()) == coverpoint.spec_bins().map_values(
                |b: CoverpointBin<T>| bin_snapshot_of(b),
            ),
            r.spec_counts() == (
                coverpoint.spec_samples(),
                coverpoint.spec_ignored(),
                coverpoint.spec_illegal(),
                coverpoint.spec_unmatched(),
            ),
            r.spec_coverage()@.0 == count_covered(
                coverpoint.spec_bins(),
                coverpoint.spec_bins().len() as int,
            ),
            r.spec_coverage()@.2 == count_normal(
                coverpoint.spec_bins(),
                coverpoint.spec_bins().len() as int,
            ),
            r.spec_coverage()@.0 + r.spec_coverage()@.1 == r.spec_coverage()@.2,
    {
        let src = coverpoint.bins();
        let mut bins: Vec<CoverpointBinSnapshot> = Vec::new();
        let mut i: usize = 0;
        while i < src.len()
            invariant
                src@ == coverpoint.spec_bins(),
                i <= src@.len(),
                bin_views(bins@) == src@.take(i as int).map_values(
                    |b: CoverpointBin<T>| bin_snapshot_of(b),
                ),
            decreases src@.len() - i,
        {
            let b = &src[i];
            let snap = CoverpointBinSnapshot {
                id: b.id,
                name: String::from_str(b.definition.name.as_str()),
                kind: b.kind,
                matcher_kind: b.definition.matcher.kind(),
                matcher_operand_count: b.definition.matcher.operand_count(),
                hits: b.hits,
                required_hits: b.required_hits,
            };
            let ghost before = bins@;
            bins.push(snap);
            proof {
                assert(src@.take(i + 1) =~= src@.take(i as int).push(src@[i as int]));
                assert(bin_views(bins@) =~= bin_views(before).push(snap@));
                assert(src@.take(i + 1).map_values(|b: CoverpointBin<T>| bin_snapshot_of(b))
                    =~= src@.take(i as int).map_values(
                    |b: CoverpointBin<T>| bin_snapshot_of(b),
                ).push(bin_snapshot_of(src@[i as int])));
            }
            i = i + 1;
        }
        proof {
            assert(src@.take(src@.len() as int) =~= src@);
        }
        CoverpointSnapshot {
            name: String::from_str(coverpoint.name()),
            bins,
            samples: coverpoint.sample_count(),
            ignored_samples: coverpoint.ignored_sample_count(),
            illegal_samples: coverpoint.illegal_sample_count(),
            unmatched_samples: coverpoint.unmatched_sample_count(),
            coverage: coverpoint.coverage(),
        }
    }

    /// Returns the coverpoint name.
    pub fn name(&self) -> (r: &str)
        ensures
            r@ == self.spec_name(),
    {
        self.name.as_str()
    }

    /// Returns bins in declaration order.
    pub fn bins(&self) -> (r: &[CoverpointBinSnapshot])
        ensures
            r@ == self.spec_bins(),
    {
        self.bins.as_slice()
    }

    /// Returns total attempted samples.
    pub fn sample_count(&self) -> (r: u64)
        ensures
            r == self.spec_counts().0,
    {
        self.samples
    }

    /// Returns ignored samples.
    pub fn ignored_sample_count(&self) -> (r: u64)
        ensures
            r == self.spec_counts().1,
    {
        self.ignored_samples
    }

    /// Returns illegal samples.
    pub fn illegal_sample_count(&self) -> (r: u64)
        ensures
            r == self.spec_counts().2,
    {
        self.illegal_samples
    }

    /// Returns unmatched samples.
    pub fn unmatched_sample_count(&self) -> (r: u64)
        ensures
            r == self.spec_counts().3,
    {
        self.unmatched_samples
    }

    /// Returns exact captured normal-bin coverage.
    pub fn coverage(&self) -> (r: CoverageRatio)
        ensures
            r == self.spec_coverage(),
    {
        self.coverage
    }

    /// Returns covered normal bins in declaration order.
    pub fn covered_bins(&self) -> (r: Vec<&CoverpointBinSnapshot>)
        ensures
            r@.map_values(|b: &CoverpointBinSnapshot| *b) == filter_bin_snapshots(
                self.spec_bins(),
                self.spec_bins().len() as int,
                true,
            ),
    {
        self.filtered(true)
    }

    /// Returns uncovered normal bins in declaration order.
    pub fn uncovered_bins(&self) -> (r: Vec<&CoverpointBinSnapshot>)
        ensures
            r@.map_values(|b: &CoverpointBinSnapshot| *b) == filter_bin_snapshots(
                self.spec_bins(),
                self.spec_bins().len() as int,
                false,
            ),
    {
        self.filtered(false)
    }

    fn filtered(&self, covered: bool) -> (r: Vec<&CoverpointBinSnapshot>)
        ensures
            r@.map_values(|b: &CoverpointBinSnapshot| *b) == filter_bin_snapshots(
                self.spec_bins(),
                self.spec_bins().len() as int,
                covered,
            ),
    {
        let mut out: Vec<&CoverpointBinSnapshot> = Vec::new();
        let mut i: usize = 0;
        while i < self.bins.len()
            invariant
                i <= self.bins@.len(),
                out@.map_values(|b: &CoverpointBinSnapshot| *b) == filter_bin_snapshots(
                    self.bins@,
                    i as int,
                    covered,
                ),
            decreases self.bins@.len() - i,
        {
            let b = &self.bins[i];
            let is_covered = b.covered();
            let keep = if covered {
                is_covered
            } else {
                b.kind() == BinKind::Normal && !is_covered
            };
            if keep {
                let ghost before = out@;
                out.push(b);
                proof {
                    assert(out@.map_values(|b: &CoverpointBinSnapshot| *b) =~= before.map_values(
                        |b: &CoverpointBinSnapshot| *b,
                    ).push(self.bins@[i as int]));
                }
            }
            i = i + 1;
        }
        out
    }
}

/// Immutable runtime snapshot of one two-way cross.
#[derive(Debug, Clone, PartialEq, Eq)]
pub struct Cross2Snapshot {
    name: String,
    left_coverpoint_name: String,
    right_coverpoint_name: String,
    bins: Vec<CrossBinSnapshot>,
    samples: u64,
    skipped_samples: u64,
    coverage: CoverageRatio,
}

impl Cross2Snapshot {
    /// Cross name.
    pub closed spec fn spec_name(&self) -> Seq<char> {
        self.name@
    }

    /// Left and right source coverpoint names.
    pub closed spec fn spec_axis_names(&self) -> (Seq<char>, Seq<char>) {
        (self.left_coverpoint_name@, self.right_coverpoint_name@)
    }

    /// Generated bins in row-major order.
    pub closed spec fn spec_bins(&self) -> Seq<CrossBinSnapshot> {
        self.bins@
    }

    /// Total and skipped sample counts.
    pub closed spec fn spec_counts(&self) -> (u64, u64) {
        (self.samples, self.skipped_samples)
    }

    /// Captured cross-bin coverage.
    pub closed spec fn spec_coverage(&self) -> CoverageRatio {
        self.coverage
    }

    /// Assembles a cross snapshot from its parts.
    pub fn from_parts(
        name: &str,
        left_coverpoint_name: &str,
        right_coverpoint_name: &str,
        bins: Vec<CrossBinSnapshot>,
        samples: u64,
        skipped_samples: u64,
        coverage: CoverageRatio,
    ) -> (r: Self)
        ensures
            r.spec_name() == name@,
            r.spec_axis_names() == (left_coverpoint_name@, right_coverpoint_name@),
            r.spec_bins() == bins@,
            r.spec_counts() == (samples, skipped_samples),
            r.spec_coverage() == coverage,
    {
        Cross2Snapshot {
            name: String::from_str(name),
            left_coverpoint_name: String::from_str(left_coverpoint_name),
            right_coverpoint_name: String::from_str(right_coverpoint_name),
            bins,
            samples,
            skipped_samples,
            coverage,
        }
    }

    /// Captures an owned snapshot of one live cross.
    pub fn capture(cross: &Cross2) -> (r: Self)
        ensures
            r.spec_name() == cross.spec_name(),
            r.spec_axis_names() == (cross.spec_left_name(), cross.spec_right_name()),
            cross_bin_views(r.spec_bins()) == cross.spec_bins().map_values(
                |b: CrossBin| cross_bin_snapshot_of(b),
            ),
            r.spec_counts() == (cross.spec_samples(), cross.spec_skipped()),
            r.spec_coverage()@.0 == count_cross_covered(
                cross.spec_bins(),
                cross.spec_bins().len() as int,
            ),
            r.spec_coverage()@.2 == cross.spec_bins().len(),
            r.spec_coverage()@.0 + r.spec_coverage()@.1 == r.spec_coverage()@.2,
    {
        let src = cross.bins();
        let mut bins: Vec<CrossBinSnapshot> = Vec::new();
        let mut i: usize = 0;
        while i < src.len()
            invariant
                src@ == cross.spec_bins(),
                i <= src@.len(),
                cross_bin_views(bins@) == src@.take(i as int).map_values(
                    |b: CrossBin| cross_bin_snapshot_of(b),
                ),
            decreases src@.len() - i,
        {
            let b = &src[i];
            let snap = CrossBinSnapshot {
                id: b.id,
                left_bin_id: b.left_bin_id,
                left_bin_name: String::from_str(b.left_bin_name.as_str()),
                right_bin_id: b.right_bin_id,
                right_bin_name: String::from_str(b.right_bin_name.as_str()),
                hits: b.hits,
                required_hits: b.required_hits,
            };
            let ghost before = bins@;
            bins.push(snap);
            proof {
                assert(src@.take(i + 1) =~= src@.take(i as int).push(src@[i as int]));
                assert(cross_bin_views(bins@) =~= cross_bin_views(before).push(snap@));
                assert(src@.take(i + 1).map_values(|b: CrossBin| cross_bin_snapshot_of(b))
                    =~= src@.take(i as int).map_values(|b: CrossBin| cross_bin_snapshot_of(b)).push(
                    cross_bin_snapshot_of(src@[i as int]),
                ));
            }
            i = i + 1;
        }
        proof {
            assert(src@.take(src@.len() as int) =~= src@);
        }
        Cross2Snapshot {
            name: String::from_str(cross.name()),
            left_coverpoint_name: String::from_str(cross.left_coverpoint_name()),
            right_coverpoint_name: String::from_str(cross.right_coverpoint_name()),
            bins,
            samples: cross.sample_count(),
            skipped_samples: cross.skipped_sample_count(),
            coverage: cross.coverage(),
        }
    }

    /// Returns the cross name.
    pub fn name(&self) -> (r: &str)
        ensures
            r@ == self.spec_name(),
    {
        self.name.as_str()
    }

    /// Returns the left source coverpoint name.
    pub fn left_coverpoint_name(&self) -> (r: &str)
        ensures
            r@ == self.spec_axis_names().0,
    {
        self.left_coverpoint_name.as_str()
    }

    /// Returns the right source coverpoint name.
    pub fn right_coverpoint_name(&self) -> (r: &str)
        ensures
            r@ == self.spec_axis_names().1,
    {
        self.right_coverpoint_name.as_str()
    }

    /// Returns generated bins in row-major order.
    pub fn bins(&self) -> (r: &[CrossBinSnapshot])
        ensures
            r@ == self.spec_bins(),
    {
        self.bins.as_slice()
    }

    /// Returns total cross sample calls.
    pub fn sample_count(&self) -> (r: u64)
        ensures
            r == self.spec_counts().0,
    {
        self.samples
    }

    /// Returns skipped cross sample calls.
    pub fn skipped_sample_count(&self) -> (r: u64)
        ensures
            r == self.spec_counts().1,
    {
        self.skipped_samples
    }

    /// Returns exact captured cross-bin coverage.
    pub fn coverage(&self) -> (r: CoverageRatio)
        ensures
            r == self.spec_coverage(),
    {
        self.coverage
    }

    /// Returns covered cross bins in row-major order.
    pub fn covered_bins(&self) -> (r: Vec<&CrossBinSnapshot>)
        ensures
            r@.map_values(|b: &CrossBinSnapshot| *b) == filter_cross_snapshots(
                self.spec_bins(),
                self.spec_bins().len() as int,
                true,
            ),
    {
        self.filtered(true)
    }

    /// Returns uncovered cross bins in row-major order.
    pub fn uncovered_bins(&self) -> (r: Vec<&CrossBinSnapshot>)
        ensures
            r@.map_values(|b: &CrossBinSnapshot| *b) == filter_cross_snapshots(
                self.spec_bins(),
                self.spec_bins().len() as int,
                false,
            ),
    {
        self.filtered(false)
    }

    fn filtered(&self, covered: bool) -> (r: Vec<&CrossBinSnapshot>)
        ensures
            r@.map_values(|b: &CrossBinSnapshot| *b) == filter_cross_snapshots(
                self.spec_bins(),
                self.spec_bins().len() as int,
                covered,
            ),
    {
        let mut out: Vec<&CrossBinSnapshot> = Vec::new();
        let mut i: usize = 0;
        while i < self.bins.len()
            invariant
                i <= self.bins@.len(),
                out@.map_values(|b: &CrossBinSnapshot| *b) == filter_cross_snapshots(
                    self.bins@,
                    i as int,
                    covered,
                ),
            decreases self.bins@.len() - i,
        {
            let b = &self.bins[i];
            if b.covered() == covered {
                let ghost before = out@;
                out.push(b);
                proof {
                    assert(out@.map_values(|b: &CrossBinSnapshot| *b) =~= before.map_values(
                        |b: &CrossBinSnapshot| *b,
                    ).push(self.bins@[i as int]));
                }
            }
            i = i + 1;
        }
        out
    }
}

/// Immutable snapshot of one supported coverage item.
#[derive(Debug, Clone, PartialEq, Eq)]
pub enum CoverageItemSnapshot {
    /// Typed coverpoint snapshot.
    Coverpoint(CoverpointSnapshot),
    /// Two-way cross snapshot.
    Cross2(Cross2Snapshot),
}

/// Name of an item snapshot.
pub open spec fn item_snapshot_name(s: CoverageItemSnapshot) -> Seq<char> {
    match s {
        CoverageItemSnapshot::Coverpoint(p) => p.spec_name(),
        CoverageItemSnapshot::Cross2(c) => c.spec_name(),
    }
}

/// Coverage of an item snapshot.
pub open spec fn item_snapshot_coverage(s: CoverageItemSnapshot) -> CoverageRatio {
    match s {
        CoverageItemSnapshot::Coverpoint(p) => p.spec_coverage(),
        CoverageItemSnapshot::Cross2(c) => c.spec_coverage(),
    }
}

/// Sample count of an item snapshot.
pub open spec fn item_snapshot_samples(s: CoverageItemSnapshot) -> u64 {
    match s {
        CoverageItemSnapshot::Coverpoint(p) => p.spec_counts().0,
        CoverageItemSnapshot::Cross2(c) => c.spec_counts().0,
    }
}

impl CoverageItemSnapshot {
    /// Returns the item kind.
    pub fn kind(&self) -> (r: CoverageItemKind)
        ensures
            r == item_kind_of(*self),
    {
        match self {
            CoverageItemSnapshot::Coverpoint(_) => CoverageItemKind::Coverpoint,
            CoverageItemSnapshot::Cross2(_) => CoverageItemKind::Cross2,
        }
    }

    /// Returns the item name.
    pub fn name(&self) -> (r: &str)
        ensures
            r@ == item_snapshot_name(*self),
    {
        match self {
            CoverageItemSnapshot::Coverpoint(item) => item.name(),
            CoverageItemSnapshot::Cross2(item) => item.name(),
        }
    }

    /// Returns exact coverage.
    pub fn coverage(&self) -> (r: CoverageRatio)
        ensures
            r == item_snapshot_coverage(*self),
    {
        match self {
            CoverageItemSnapshot::Coverpoint(item) => item.coverage(),
            CoverageItemSnapshot::Cross2(item) => item.coverage(),
        }
    }

    /// Returns sample calls.
    pub fn sample_count(&self) -> (r: u64)
        ensures
            r == item_snapshot_samples(*self),
    {
        match self {
            CoverageItemSnapshot::Coverpoint(item) => item.sample_count(),
            CoverageItemSnapshot::Cross2(item) => item.sample_count(),
        }
    }

    /// Returns the coverpoint snapshot when applicable.
    pub fn as_coverpoint(&self) -> (r: Option<&CoverpointSnapshot>)
        ensures
            match *self {
                CoverageItemSnapshot::Coverpoint(p) => r == Some(&p),
                CoverageItemSnapshot::Cross2(_) => r is None,
            },
    {
        match self {
            CoverageItemSnapshot::Coverpoint(item) => Some(item),
            CoverageItemSnapshot::Cross2(_) => None,
        }
    }

    /// Returns the cross snapshot when applicable.
    pub fn as_cross2(&self) -> (r: Option<&Cross2Snapshot>)
        ensures
            match *self {
                CoverageItemSnapshot::Cross2(c) => r == Some(&c),
                CoverageItemSnapshot::Coverpoint(_) => r is None,
            },
    {
        match self {
            CoverageItemSnapshot::Cross2(item) => Some(item),
            CoverageItemSnapshot::Coverpoint(_) => None,
        }
    }
}

/// Index of the first item at or after `i` whose name is `name`, or `-1`.
pub open spec fn find_item(items: Seq<CoverageItemSnapshot>, name: Seq<char>, i: int) -> int
    decreases items.len() - i,
{
    if i < 0 || i >= items.len() {
        -1
    } else if item_snapshot_name(items[i]) == name {
        i
    } else {
        find_item(items, name, i + 1)
    }
}

/// Immutable snapshot of one coverage-group instance.
#[derive(Debug, Clone, PartialEq, Eq)]
pub struct CoverageGroupSnapshot {
    definition_name: String,
    definition_revision: u64,
    instance_path: String,
    items: Vec<CoverageItemSnapshot>,
    summary: CoverageGroupSummary,
}

impl CoverageGroupSnapshot {
    /// Reusable definition name.
    pub closed spec fn spec_definition_name(&self) -> Seq<char> {
        self.definition_name@
    }

    /// Hierarchical instance path.
    pub closed spec fn spec_instance_path(&self) -> Seq<char> {
        self.instance_path@
    }

    /// Semantic definition revision.
    pub closed spec fn spec_revision(&self) -> u64 {
        self.definition_revision
    }

    /// Items in visitation order.
    pub closed spec fn spec_items(&self) -> Seq<CoverageItemSnapshot> {
        self.items@
    }

    /// Captured group summary.
    pub closed spec fn spec_summary(&self) -> CoverageGroupSummary {
        self.summary
    }

    /// Assembles a group snapshot from its parts.
    pub fn from_parts(
        definition_name: &str,
        definition_revision: u64,
        instance_path: &str,
        items: Vec<CoverageItemSnapshot>,
        summary: CoverageGroupSummary,
    ) -> (r: Self)
        ensures
            r.spec_definition_name() == definition_name@,
            r.spec_revision() == definition_revision,
            r.spec_instance_path() == instance_path@,
            r.spec_items() == items@,
            r.spec_summary() == summary,
    {
        CoverageGroupSnapshot {
            definition_name: String::from_str(definition_name),
            definition_revision,
            instance_path: String::from_str(instance_path),
            items,
            summary,
        }
    }

    /// Returns the semantic definition revision.
    pub fn definition_revision(&self) -> (r: u64)
        ensures
            r == self.spec_revision(),
    {
        self.definition_revision
    }

    /// Returns the reusable definition name.
    pub fn definition_name(&self) -> (r: &str)
        ensures
            r@ == self.spec_definition_name(),
    {
        self.definition_name.as_str()
    }

    /// Returns the hierarchical instance path.
    pub fn instance_path(&self) -> (r: &str)
        ensures
            r@ == self.spec_instance_path(),
    {
        self.instance_path.as_str()
    }

    /// Returns items in visitation order.
    pub fn items(&self) -> (r: &[CoverageItemSnapshot])
        ensures
            r@ == self.spec_items(),
    {
        self.items.as_slice()
    }

    /// Returns the exact group summary.
    pub fn summary(&self) -> (r: CoverageGroupSummary)
        ensures
            r == self.spec_summary(),
    {
        self.summary
    }

    /// Returns exact group coverage.
    pub fn coverage(&self) -> (r: CoverageRatio)
        ensures
            r == self.spec_summary().spec_coverage(),
    {
        self.summary.coverage()
    }

    /// Finds the first item with the given name.
    pub fn item(&self, name: &str) -> (r: Option<&CoverageItemSnapshot>)
        ensures
            find_item(self.spec_items(), name@, 0) < 0 ==> r is None,
            find_item(self.spec_items(), name@, 0) >= 0 ==> r == Some(
                &self.spec_items()[find_item(self.spec_items(), name@, 0)],
            ),
    {
        let mut i: usize = 0;
        while i < self.items.len()
            invariant
                i <= self.items@.len(),
                find_item(self.items@, name@, 0) == find_item(self.items@, name@, i as int),
            decreases self.items@.len() - i,
        {
            if str_eq(self.items[i].name(), name) {
                return Some(&self.items[i]);
            }
            i = i + 1;
        }
        None
    }
}

} // verus!

use vstd::prelude::*;
use vstd::string::*;

use crate::coverage::bin::{bin_covered, BinKind};
use crate::coverage::cross_error::CrossBinId;
use crate::coverage::bin::BinId;
use crate::coverage::fingerprint::CoverageDefinitionFingerprint;
use crate::coverage::item::item_kind_of;
use crate::coverage::merge::is_structure_error;
use crate::coverage::merge_error::{CoverageMergeCounterKind, CoverageMergeError};
use crate::coverage::ratio::CoverageRatio;
use crate::coverage::snapshot::{
    bin_views, cross_bin_views, item_snapshot_name, BinSnapshotView, CoverageItemSnapshot,
    CoverpointBinSnapshot, CoverpointSnapshot, Cross2Snapshot, CrossBinSnapshot,
};
use crate::text::push_str;

verus! {

/// View of a cross-bin snapshot.
pub type CrossBinView = (CrossBinId, BinId, Seq<char>, BinId, Seq<char>, u64, u64);

/// Whether two counters sum past `u64::MAX`.
pub open spec fn sum_overflows(a: u64, b: u64) -> bool {
    a + b > u64::MAX
}

/// The smaller of two lengths.
pub open spec fn shorter(a: nat, b: nat) -> nat {
    if a <= b {
        a
    } else {
        b
    }
}

/// Error `e` reports that `counter` of `item` (and of `bin`, for a bin
/// counter) overflowed in the group at `instance_path`.
pub open spec fn is_counter_overflow(
    e: CoverageMergeError,
    instance_path: Seq<char>,
    item: Seq<char>,
    bin: Option<Seq<char>>,
    counter: CoverageMergeCounterKind,
) -> bool {
    e matches CoverageMergeError::CounterOverflow { instance_path: ip, item: it, bin: b, counter: c }
        && ip@ == instance_path && it@ == item && c == counter && (match b {
        Some(s) => bin == Some(s@),
        None => bin is None,
    })
}

fn counter_overflow(
    instance_path: &str,
    item: &str,
    bin: Option<String>,
    counter: CoverageMergeCounterKind,
) -> (e: CoverageMergeError)
    ensures
        is_counter_overflow(
            e,
            instance_path@,
            item@,
            match bin {
                Some(s) => Some(s@),
                None => None,
            },
            counter,
        ),
{
    CoverageMergeError::CounterOverflow {
        instance_path: String::from_str(instance_path),
        item: String::from_str(item),
        bin,
        counter,
    }
}

// Coverpoints.
/// A merged coverpoint bin: the left definition with summed hits.
pub open spec fn merged_point_bin(l: CoverpointBinSnapshot, r: CoverpointBinSnapshot) -> BinSnapshotView {
    (l@.0, l@.1, l@.2, l@.3, l@.4, (l@.5 + r@.5) as u64, l@.6)
}

/// Bins of two coverpoints merged pairwise, as far as both reach.
pub open spec fn merged_point_bins(l: Seq<CoverpointBinSnapshot>, r: Seq<CoverpointBinSnapshot>) -> Seq<
    BinSnapshotView,
> {
    Seq::new(shorter(l.len(), r.len()), |k: int| merged_point_bin(l[k], r[k]))
}

/// Covered bins among the first `n` bin views.
pub open spec fn views_covered(v: Seq<BinSnapshotView>, n: int) -> nat
    decreases n,
{
    if n <= 0 {
        0
    } else {
        views_covered(v, n - 1) + if bin_covered(v[n - 1].2, v[n - 1].5, v[n - 1].6) {
            1nat
        } else {
            0nat
        }
    }
}

/// Normal bins among the first `n` bin views.
pub open spec fn views_normal(v: Seq<BinSnapshotView>, n: int) -> nat
    decreases n,
{
    if n <= 0 {
        0
    } else {
        views_normal(v, n - 1) + if v[n - 1].2 == BinKind::Normal {
            1nat
        } else {
            0nat
        }
    }
}

/// First bin index at or after `j` whose summed hits overflow, or `-1`.
pub open spec fn point_hits_overflow(
    l: Seq<CoverpointBinSnapshot>,
    r: Seq<CoverpointBinSnapshot>,
    j: int,
) -> int
    decreases shorter(l.len(), r.len()) - j,
{
    if j < 0 || j >= shorter(l.len(), r.len()) {
        -1
    } else if sum_overflows(l[j]@.5, r[j]@.5) {
        j
    } else {
        point_hits_overflow(l, r, j + 1)
    }
}

/// The counter that overflows first when two coverpoints are merged, with
/// the bin name for a bin counter.
pub open spec fn point_overflow(l: CoverpointSnapshot, r: CoverpointSnapshot) -> Option<
    (CoverageMergeCounterKind, Option<Seq<char>>),
> {
    let a = l.spec_counts();
    let b = r.spec_counts();
    if sum_overflows(a.0, b.0) {
        Some((CoverageMergeCounterKind::CoverpointSamples, None))
    } else if sum_overflows(a.1, b.1) {
        Some((CoverageMergeCounterKind::IgnoredSamples, None))
    } else if sum_overflows(a.2, b.2) {
        Some((CoverageMergeCounterKind::IllegalSamples, None))
    } else if sum_overflows(a.3, b.3) {
        Some((CoverageMergeCounterKind::UnmatchedSamples, None))
    } else {
        let j = point_hits_overflow(l.spec_bins(), r.spec_bins(), 0);
        if j >= 0 {
            Some((CoverageMergeCounterKind::CoverpointBinHits, Some(l.spec_bins()[j]@.1)))
        } else {
            None
        }
    }
}

/// Coverage of two merged coverpoints: covered, uncovered and normal bins.
pub open spec fn point_merged_ratio(l: CoverpointSnapshot, r: CoverpointSnapshot) -> (
    usize,
    usize,
    usize,
) {
    let m = merged_point_bins(l.spec_bins(), r.spec_bins());
    let c = views_covered(m, m.len() as int);
    let n = views_normal(m, m.len() as int);
    (c as usize, (n - c) as usize, n as usize)
}

/// `p` is the merge of coverpoints `l` and `r`.
pub open spec fn point_merged(p: CoverpointSnapshot, l: CoverpointSnapshot, r: CoverpointSnapshot) -> bool {
    let a = l.spec_counts();
    let b = r.spec_counts();
    &&& p.spec_name() == l.spec_name()
    &&& bin_views(p.spec_bins()) == merged_point_bins(l.spec_bins(), r.spec_bins())
    &&& p.spec_counts() == (
        (a.0 + b.0) as u64,
        (a.1 + b.1) as u64,
        (a.2 + b.2) as u64,
        (a.3 + b.3) as u64,
    )
    &&& p.spec_coverage()@ == point_merged_ratio(l, r)
}

fn add_or_overflow(
    a: u64,
    b: u64,
    instance_path: &str,
    item: &str,
    counter: CoverageMergeCounterKind,
) -> (r: Result<u64, CoverageMergeError>)
    ensures
        sum_overflows(a, b) ==> (r matches Err(e) && is_counter_overflow(
            e,
            instance_path@,
            item@,
            None,
            counter,
        )),
        !sum_overflows(a, b) ==> r == Ok::<u64, CoverageMergeError>((a + b) as u64),
{
    match a.checked_add(b) {
        Some(v) => Ok(v),
        None => Err(counter_overflow(instance_path, item, None, counter)),
    }
}

/// Sums the counters of two coverpoints and recomputes their coverage.
pub fn merge_point(left: &CoverpointSnapshot, right: &CoverpointSnapshot, instance_path: &str) -> (r:
    Result<CoverpointSnapshot, CoverageMergeError>)
    ensures
        match point_overflow(*left, *right) {
            Some((c, b)) => r matches Err(e) && is_counter_overflow(
                e,
                instance_path@,
                left.spec_name(),
                b,
                c,
            ),
            None => r matches Ok(p) && point_merged(p, *left, *right),
        },
{
    let name = left.name();
    let samples = match add_or_overflow(
        left.sample_count(),
        right.sample_count(),
        instance_path,
        name,
        CoverageMergeCounterKind::CoverpointSamples,
    ) {
        Ok(v) => v,
        Err(e) => {
            return Err(e);
        },
    };
    let ignored = match add_or_overflow(
        left.ignored_sample_count(),
        right.ignored_sample_count(),
        instance_path,
        name,
        CoverageMergeCounterKind::IgnoredSamples,
    ) {
        Ok(v) => v,
        Err(e) => {
            return Err(e);
        },
    };
    let illegal = match add_or_overflow(
        left.illegal_sample_count(),
        right.illegal_sample_count(),
        instance_path,
        name,
        CoverageMergeCounterKind::IllegalSamples,
    ) {
        Ok(v) => v,
        Err(e) => {
            return Err(e);
        },
    };
    let unmatched = match add_or_overflow(
        left.unmatched_sample_count(),
        right.unmatched_sample_count(),
        instance_path,
        name,
        CoverageMergeCounterKind::UnmatchedSamples,
    ) {
        Ok(v) => v,
        Err(e) => {
            return Err(e);
        },
    };
    let lb = left.bins();
    let rb = right.bins();
    let n: usize = if lb.len() <= rb.len() {
        lb.len()
    } else {
        rb.len()
    };
    let ghost m = merged_point_bins(lb@, rb@);
    let mut bins: Vec<CoverpointBinSnapshot> = Vec::new();
    let mut covered: usize = 0;
    let mut normal: usize = 0;
    let mut j: usize = 0;
    while j < n
        invariant
            lb@ == left.spec_bins(),
            rb@ == right.spec_bins(),
            name@ == left.spec_name(),
            n == shorter(lb@.len(), rb@.len()),
            m == merged_point_bins(lb@, rb@),
            point_overflow(*left, *right) == (if point_hits_overflow(lb@, rb@, 0) >= 0 {
                Some(
                    (
                        CoverageMergeCounterKind::CoverpointBinHits,
                        Some(lb@[point_hits_overflow(lb@, rb@, 0)]@.1),
                    ),
                )
            } else {
                None
            }),
            j <= n,
            bins@.len() == j,
            forall|k: int| 0 <= k < j ==> #[trigger] bins@[k]@ == m[k],
            covered == views_covered(m, j as int),
            normal == views_normal(m, j as int),
            covered <= normal,
            normal <= j,
            point_hits_overflow(lb@, rb@, 0) == point_hits_overflow(lb@, rb@, j as int),
        decreases n - j,
    {
        let lbin = &lb[j];
        let rbin = &rb[j];
        let hits = match lbin.hits().checked_add(rbin.hits()) {
            Some(v) => v,
            None => {
                let mut bn = String::new();
                push_str(&mut bn, lbin.name());
                return Err(
                    counter_overflow(
                        instance_path,
                        name,
                        Some(bn),
                        CoverageMergeCounterKind::CoverpointBinHits,
                    ),
                );
            },
        };
        let b = CoverpointBinSnapshot::from_parts(
            lbin.id(),
            lbin.name(),
            lbin.kind(),
            lbin.matcher_kind(),
            lbin.matcher_operand_count(),
            hits,
            lbin.required_hits(),
        );
        assert(b@ == m[j as int]);
        if b.covered() {
            covered = covered + 1;
        }
        if b.kind() == BinKind::Normal {
            normal = normal + 1;
        }
        bins.push(b);
        j = j + 1;
    }
    proof {
        assert(bin_views(bins@) =~= m);
    }
    let coverage = CoverageRatio::new(covered, normal - covered, normal);
    Ok(CoverpointSnapshot::from_parts(name, bins, samples, ignored, illegal, unmatched, coverage))
}

// Crosses.
/// A merged cross bin: the left definition with summed hits.
pub open spec fn merged_cross_bin(l: CrossBinSnapshot, r: CrossBinSnapshot) -> CrossBinView {
    (l@.0, l@.1, l@.2, l@.3, l@.4, (l@.5 + r@.5) as u64, l@.6)
}

/// Bins of two crosses merged pairwise, as far as both reach.
pub open spec fn merged_cross_bins(l: Seq<CrossBinSnapshot>, r: Seq<CrossBinSnapshot>) -> Seq<
    CrossBinView,
> {
    Seq::new(shorter(l.len(), r.len()), |k: int| merged_cross_bin(l[k], r[k]))
}

/// Covered cross bins among the first `n` views.
pub open spec fn cross_views_covered(v: Seq<CrossBinView>, n: int) -> nat
    decreases n,
{
    if n <= 0 {
        0
    } else {
        cross_views_covered(v, n - 1) + if v[n - 1].5 >= v[n - 1].6 {
            1nat
        } else {
            0nat
        }
    }
}

/// First cross-bin index at or after `j` whose summed hits overflow, or `-1`.
pub open spec fn cross_hits_overflow(l: Seq<CrossBinSnapshot>, r: Seq<CrossBinSnapshot>, j: int) -> int
    decreases shorter(l.len(), r.len()) - j,
{
    if j < 0 || j >= shorter(l.len(), r.len()) {
        -1
    } else if sum_overflows(l[j]@.5, r[j]@.5) {
        j
    } else {
        cross_hits_overflow(l, r, j + 1)
    }
}

/// Description of a cross bin in overflow reports: `left x right`.
pub open spec fn cross_bin_description(b: CrossBinSnapshot) -> Seq<char> {
    b@.2 + " x "@ + b@.4
}

/// The counter that overflows first when two crosses are merged, with the
/// bin description for a bin counter.
pub open spec fn cross_overflow(l: Cross2Snapshot, r: Cross2Snapshot) -> Option<
    (CoverageMergeCounterKind, Option<Seq<char>>),
> {
    let a = l.spec_counts();
    let b = r.spec_counts();
    if sum_overflows(a.0, b.0) {
        Some((CoverageMergeCounterKind::CrossSamples, None))
    } else if sum_overflows(a.1, b.1) {
        Some((CoverageMergeCounterKind::SkippedCrossSamples, None))
    } else {
        let j = cross_hits_overflow(l.spec_bins(), r.spec_bins(), 0);
        if j >= 0 {
            Some(
                (
                    CoverageMergeCounterKind::CrossBinHits,
                    Some(cross_bin_description(l.spec_bins()[j])),
                ),
            )
        } else {
            None
        }
    }
}

/// Coverage of two merged crosses: covered, uncovered and all bins.
pub open spec fn cross_merged_ratio(l: Cross2Snapshot, r: Cross2Snapshot) -> (usize, usize, usize) {
    let m = merged_cross_bins(l.spec_bins(), r.spec_bins());
    let c = cross_views_covered(m, m.len() as int);
    (c as usize, (m.len() - c) as usize, m.len() as usize)
}

/// `p` is the merge of crosses `l` and `r`.
pub open spec fn cross_merged(p: Cross2Snapshot, l: Cross2Snapshot, r: Cross2Snapshot) -> bool {
    let a = l.spec_counts();
    let b = r.spec_counts();
    &&& p.spec_name() == l.spec_name()
    &&& p.spec_axis_names() == l.spec_axis_names()
    &&& cross_bin_views(p.spec_bins()) == merged_cross_bins(l.spec_bins(), r.spec_bins())
    &&& p.spec_counts() == ((a.0 + b.0) as u64, (a.1 + b.1) as u64)
    &&& p.spec_coverage()@ == cross_merged_ratio(l, r)
}

/// Sums the counters of two crosses and recomputes their coverage.
pub fn merge_cross(left: &Cross2Snapshot, right: &Cross2Snapshot, instance_path: &str) -> (r: Result<
    Cross2Snapshot,
    CoverageMergeError,
>)
    ensures
        match cross_overflow(*left, *right) {
            Some((c, b)) => r matches Err(e) && is_counter_overflow(
                e,
                instance_path@,
                left.spec_name(),
                b,
                c,
            ),
            None => r matches Ok(p) && cross_merged(p, *left, *right),
        },
{
    let name = left.name();
    let samples = match add_or_overflow(
        left.sample_count(),
        right.sample_count(),
        instance_path,
        name,
        CoverageMergeCounterKind::CrossSamples,
    ) {
        Ok(v) => v,
        Err(e) => {
            return Err(e);
        },
    };
    let skipped = match add_or_overflow(
        left.skipped_sample_count(),
        right.skipped_sample_count(),
        instance_path,
        name,
        CoverageMergeCounterKind::SkippedCrossSamples,
    ) {
        Ok(v) => v,
        Err(e) => {
            return Err(e);
        },
    };
    let lb = left.bins();
    let rb = right.bins();
    let n: usize = if lb.len() <= rb.len() {
        lb.len()
    } else {
        rb.len()
    };
    let ghost m = merged_cross_bins(lb@, rb@);
    let mut bins: Vec<CrossBinSnapshot> = Vec::new();
    let mut covered: usize = 0;
    let mut j: usize = 0;
    while j < n
        invariant
            lb@ == left.spec_bins(),
            rb@ == right.spec_bins(),
            name@ == left.spec_name(),
            n == shorter(lb@.len(), rb@.len()),
            m == merged_cross_bins(lb@, rb@),
            cross_overflow(*left, *right) == (if cross_hits_overflow(lb@, rb@, 0) >= 0 {
                Some(
                    (
                        CoverageMergeCounterKind::CrossBinHits,
                        Some(cross_bin_description(lb@[cross_hits_overflow(lb@, rb@, 0)])),
                    ),
                )
            } else {
                None
            }),
            j <= n,
            bins@.len() == j,
            forall|k: int| 0 <= k < j ==> #[trigger] bins@[k]@ == m[k],
            covered == cross_views_covered(m, j as int),
            covered <= j,
            cross_hits_overflow(lb@, rb@, 0) == cross_hits_overflow(lb@, rb@, j as int),
        decreases n - j,
    {
        let lbin = &lb[j];
        let rbin = &rb[j];
        let hits = match lbin.hits().checked_add(rbin.hits()) {
            Some(v) => v,
            None => {
                let mut bn = String::new();
                push_str(&mut bn, lbin.left_bin_name());
                push_str(&mut bn, " x ");
                push_str(&mut bn, lbin.right_bin_name());
                return Err(
                    counter_overflow(
                        instance_path,
                        name,
                        Some(bn),
                        CoverageMergeCounterKind::CrossBinHits,
                    ),
                );
            },
        };
        let b = CrossBinSnapshot::from_parts(
            lbin.id(),
            lbin.left_bin_id(),
            lbin.left_bin_name(),
            lbin.right_bin_id(),
            lbin.right_bin_name(),
            hits,
            lbin.required_hits(),
        );
        assert(b@ == m[j as int]);
        if b.covered() {
            covered = covered + 1;
        }
        bins.push(b);
        j = j + 1;
    }
    proof {
        assert(cross_bin_views(bins@) =~= m);
    }
    let coverage = CoverageRatio::new(covered, n - covered, n);
    Ok(
        Cross2Snapshot::from_parts(
            name,
            left.left_coverpoint_name(),
            left.right_coverpoint_name(),
            bins,
            samples,
            skipped,
            coverage,
        ),
    )
}

// Items.
/// The counter that overflows first when two items of one kind are merged.
pub open spec fn item_overflow(l: CoverageItemSnapshot, r: CoverageItemSnapshot) -> Option<
    (CoverageMergeCounterKind, Option<Seq<char>>),
> {
    match (l, r) {
        (CoverageItemSnapshot::Coverpoint(a), CoverageItemSnapshot::Coverpoint(b)) =>
            point_overflow(a, b),
        (CoverageItemSnapshot::Cross2(a), CoverageItemSnapshot::Cross2(b)) => cross_overflow(a, b),
        _ => None,
    }
}

/// `m` is the merge of items `l` and `r` of one kind.
pub open spec fn item_merged(m: CoverageItemSnapshot, l: CoverageItemSnapshot, r: CoverageItemSnapshot) -> bool {
    match (m, l, r) {
        (
            CoverageItemSnapshot::Coverpoint(p),
            CoverageItemSnapshot::Coverpoint(a),
            CoverageItemSnapshot::Coverpoint(b),
        ) => point_merged(p, a, b),
        (
            CoverageItemSnapshot::Cross2(p),
            CoverageItemSnapshot::Cross2(a),
            CoverageItemSnapshot::Cross2(b),
        ) => cross_merged(p, a, b),
        _ => false,
    }
}

/// Coverage of two merged items of one kind.
pub open spec fn merged_item_ratio(l: CoverageItemSnapshot, r: CoverageItemSnapshot) -> (
    usize,
    usize,
    usize,
) {
    match (l, r) {
        (CoverageItemSnapshot::Coverpoint(a), CoverageItemSnapshot::Coverpoint(b)) =>
            point_merged_ratio(a, b),
        (CoverageItemSnapshot::Cross2(a), CoverageItemSnapshot::Cross2(b)) => cross_merged_ratio(
            a,
            b,
        ),
        _ => (0, 0, 0),
    }
}

/// Merges two items of one kind; items of different kinds are a structure error.
pub fn merge_item(
    left: &CoverageItemSnapshot,
    right: &CoverageItemSnapshot,
    instance_path: &str,
    fingerprint: CoverageDefinitionFingerprint,
) -> (r: Result<CoverageItemSnapshot, CoverageMergeError>)
    ensures
        item_kind_of(*left) != item_kind_of(*right) ==> (r matches Err(e) && is_structure_error(
            e,
            instance_path@,
            fingerprint,
            "items"@,
            "item kind changed during merge"@,
        )),
        item_kind_of(*left) == item_kind_of(*right) ==> match item_overflow(*left, *right) {
            Some((c, b)) => r matches Err(e) && is_counter_overflow(
                e,
                instance_path@,
                item_snapshot_name(*left),
                b,
                c,
            ),
            None => r matches Ok(m) && item_merged(m, *left, *right),
        },
{
    match (left, right) {
        (CoverageItemSnapshot::Coverpoint(a), CoverageItemSnapshot::Coverpoint(b)) => {
            match merge_point(a, b, instance_path) {
                Ok(p) => Ok(CoverageItemSnapshot::Coverpoint(p)),
                Err(e) => Err(e),
            }
        },
        (CoverageItemSnapshot::Cross2(a), CoverageItemSnapshot::Cross2(b)) => {
            match merge_cross(a, b, instance_path) {
                Ok(p) => Ok(CoverageItemSnapshot::Cross2(p)),
                Err(e) => Err(e),
            }
        },
        _ => Err(
            CoverageMergeError::DefinitionStructureMismatch {
                instance_path: String::from_str(instance_path),
                fingerprint,
                path: String::from_str("items"),
                reason: String::from_str("item kind changed during merge"),
            },
        ),
    }
}

} // verus!

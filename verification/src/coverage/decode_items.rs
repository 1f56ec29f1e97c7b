use vstd::prelude::*;
use vstd::string::*;

use crate::coverage::artifact_error::CoveragePersistenceError;
use crate::coverage::decode_bins::{
    coverpoint_bin_from_record, coverpoint_ratio, cross_bin_from_record, cross_bin_issue,
    cross_bin_view, cross_bins_issue, cross_ratio, cross_views_ratio, invalid, invalid_issue,
    name_issue, point_bin_issue, point_bin_view, point_bins_issue, point_views_ratio,
    ratio_issue, reports, validate_coverpoint_bins, validate_cross_bins, validate_name,
    validate_ratio, Issue,
};
use crate::coverage::merge_counters::CrossBinView;
use crate::coverage::record::{CoverpointBinRecord, CrossBinRecord, ItemRecord, RatioRecord};
use crate::coverage::snapshot::{
    bin_views, cross_bin_views, BinSnapshotView, CoverageItemSnapshot, CoverpointBinSnapshot,
    CoverpointSnapshot, Cross2Snapshot, CrossBinSnapshot,
};
use crate::text::push_str;

verus! {

/// Snapshot views of valid persisted coverpoint bins.
pub open spec fn point_views_of(bins: Seq<CoverpointBinRecord>) -> Seq<BinSnapshotView> {
    bins.map_values(|b: CoverpointBinRecord| point_bin_view(b))
}

/// Snapshot views of valid persisted cross bins.
pub open spec fn cross_views_of(bins: Seq<CrossBinRecord>) -> Seq<CrossBinView> {
    bins.map_values(|b: CrossBinRecord| cross_bin_view(b))
}

/// First problem, bin by bin from `j`, of persisted coverpoint bins.
pub open spec fn first_point_bin_issue(bins: Seq<CoverpointBinRecord>, path: Seq<char>, j: int) -> Option<
    Issue,
>
    decreases bins.len() - j,
{
    if j < 0 || j >= bins.len() {
        None
    } else {
        match point_bin_issue(bins[j], j as nat, path) {
            Some(i) => Some(i),
            None => first_point_bin_issue(bins, path, j + 1),
        }
    }
}

/// First problem, bin by bin from `j`, of persisted cross bins.
pub open spec fn first_cross_bin_issue(bins: Seq<CrossBinRecord>, path: Seq<char>, j: int) -> Option<
    Issue,
>
    decreases bins.len() - j,
{
    if j < 0 || j >= bins.len() {
        None
    } else {
        match cross_bin_issue(bins[j], j as nat, path) {
            Some(i) => Some(i),
            None => first_cross_bin_issue(bins, path, j + 1),
        }
    }
}

/// First of two optional problems.
pub open spec fn or_else(a: Option<Issue>, b: Option<Issue>) -> Option<Issue> {
    match a {
        Some(i) => Some(i),
        None => b,
    }
}

/// Problem of a persisted coverpoint at `path`.
pub open spec fn point_record_issue(
    name: Seq<char>,
    counts: (u64, u64, u64, u64),
    coverage: RatioRecord,
    bins: Seq<CoverpointBinRecord>,
    path: Seq<char>,
) -> Option<Issue> {
    or_else(
        name_issue(name, path + ".name"@),
        if counts.1 + counts.2 + counts.3 > counts.0 {
            Some(invalid_issue(path, "sample classifications exceed samples"@))
        } else {
            or_else(
                first_point_bin_issue(bins, path, 0),
                or_else(
                    point_bins_issue(point_views_of(bins), counts.0, path),
                    ratio_issue(coverage, point_views_ratio(point_views_of(bins)), path + ".coverage"@),
                ),
            )
        },
    )
}

/// Problem of a persisted cross at `path`.
pub open spec fn cross_record_issue(
    names: (Seq<char>, Seq<char>, Seq<char>),
    counts: (u64, u64),
    coverage: RatioRecord,
    bins: Seq<CrossBinRecord>,
    path: Seq<char>,
) -> Option<Issue> {
    or_else(
        name_issue(names.0, path + ".name"@),
        or_else(
            name_issue(names.1, path + ".left_coverpoint"@),
            or_else(
                name_issue(names.2, path + ".right_coverpoint"@),
                if counts.1 > counts.0 {
                    Some(invalid_issue(path, "skipped samples exceed samples"@))
                } else {
                    or_else(
                        first_cross_bin_issue(bins, path, 0),
                        or_else(
                            cross_bins_issue(cross_views_of(bins), counts.0, path),
                            ratio_issue(
                                coverage,
                                cross_views_ratio(cross_views_of(bins)),
                                path + ".coverage"@,
                            ),
                        ),
                    )
                },
            ),
        ),
    )
}

/// Problem of a persisted item at `path`.
pub open spec fn item_record_issue(item: ItemRecord, path: Seq<char>) -> Option<Issue> {
    match item {
        ItemRecord::Coverpoint {
            name,
            samples,
            ignored_samples,
            illegal_samples,
            unmatched_samples,
            coverage,
            bins,
        } => point_record_issue(
            name@,
            (samples, ignored_samples, illegal_samples, unmatched_samples),
            coverage,
            bins@,
            path,
        ),
        ItemRecord::Cross2 {
            name,
            left_coverpoint,
            right_coverpoint,
            samples,
            skipped_samples,
            coverage,
            bins,
        } => cross_record_issue(
            (name@, left_coverpoint@, right_coverpoint@),
            (samples, skipped_samples),
            coverage,
            bins@,
            path,
        ),
    }
}

/// `m` is the item rebuilt from a valid persisted item.
pub open spec fn item_rebuilt(m: CoverageItemSnapshot, item: ItemRecord) -> bool {
    match (m, item) {
        (
            CoverageItemSnapshot::Coverpoint(p),
            ItemRecord::Coverpoint {
                name,
                samples,
                ignored_samples,
                illegal_samples,
                unmatched_samples,
                coverage,
                bins,
            },
        ) => {
            &&& p.spec_name() == name@
            &&& p.spec_coverage()@ == (coverage.covered, coverage.uncovered, coverage.total)
            &&& bin_views(p.spec_bins()) == point_views_of(bins@)
            &&& p.spec_counts() == (samples, ignored_samples, illegal_samples, unmatched_samples)
            &&& p.spec_coverage()@ == point_views_ratio(point_views_of(bins@))
        },
        (
            CoverageItemSnapshot::Cross2(c),
            ItemRecord::Cross2 {
                name,
                left_coverpoint,
                right_coverpoint,
                samples,
                skipped_samples,
                coverage,
                bins,
            },
        ) => {
            &&& c.spec_name() == name@
            &&& c.spec_coverage()@ == (coverage.covered, coverage.uncovered, coverage.total)
            &&& c.spec_axis_names() == (left_coverpoint@, right_coverpoint@)
            &&& cross_bin_views(c.spec_bins()) == cross_views_of(bins@)
            &&& c.spec_counts() == (samples, skipped_samples)
            &&& c.spec_coverage()@ == cross_views_ratio(cross_views_of(bins@))
        },
        _ => false,
    }
}

fn concat(a: &str, b: &str) -> (r: String)
    ensures
        r@ == a@ + b@,
{
    let mut s = String::new();
    push_str(&mut s, a);
    push_str(&mut s, b);
    proof {
        assert(s@ =~= a@ + b@);
    }
    s
}

fn point_bins_from_records(bins: &Vec<CoverpointBinRecord>, path: &str) -> (r: Result<
    Vec<CoverpointBinSnapshot>,
    CoveragePersistenceError,
>)
    ensures
        match first_point_bin_issue(bins@, path@, 0) {
            Some(i) => r matches Err(e) && reports(e, i),
            None => r matches Ok(v) && bin_views(v@) == point_views_of(bins@),
        },
{
    let mut out: Vec<CoverpointBinSnapshot> = Vec::new();
    let mut j: usize = 0;
    while j < bins.len()
        invariant
            j <= bins@.len(),
            out@.len() == j,
            forall|k: int| 0 <= k < j ==> #[trigger] out@[k]@ == point_bin_view(bins@[k]),
            first_point_bin_issue(bins@, path@, 0) == first_point_bin_issue(bins@, path@, j as int),
        decreases bins@.len() - j,
    {
        match coverpoint_bin_from_record(&bins[j], j, path) {
            Ok(b) => {
                out.push(b);
            },
            Err(e) => {
                return Err(e);
            },
        }
        j = j + 1;
    }
    proof {
        assert(bin_views(out@) =~= point_views_of(bins@));
    }
    Ok(out)
}

fn cross_bins_from_records(bins: &Vec<CrossBinRecord>, path: &str) -> (r: Result<
    Vec<CrossBinSnapshot>,
    CoveragePersistenceError,
>)
    ensures
        match first_cross_bin_issue(bins@, path@, 0) {
            Some(i) => r matches Err(e) && reports(e, i),
            None => r matches Ok(v) && cross_bin_views(v@) == cross_views_of(bins@),
        },
{
    let mut out: Vec<CrossBinSnapshot> = Vec::new();
    let mut j: usize = 0;
    while j < bins.len()
        invariant
            j <= bins@.len(),
            out@.len() == j,
            forall|k: int| 0 <= k < j ==> #[trigger] out@[k]@ == cross_bin_view(bins@[k]),
            first_cross_bin_issue(bins@, path@, 0) == first_cross_bin_issue(bins@, path@, j as int),
        decreases bins@.len() - j,
    {
        match cross_bin_from_record(&bins[j], j, path) {
            Ok(b) => {
                out.push(b);
            },
            Err(e) => {
                return Err(e);
            },
        }
        j = j + 1;
    }
    proof {
        assert(cross_bin_views(out@) =~= cross_views_of(bins@));
    }
    Ok(out)
}

fn point_from_record(
    name: &String,
    counts: (u64, u64, u64, u64),
    coverage: &RatioRecord,
    bins: &Vec<CoverpointBinRecord>,
    path: &str,
) -> (r: Result<CoverpointSnapshot, CoveragePersistenceError>)
    ensures
        match point_record_issue(name@, counts, *coverage, bins@, path@) {
            Some(i) => r matches Err(e) && reports(e, i),
            None => r matches Ok(p) && p.spec_name() == name@ && bin_views(p.spec_bins())
                == point_views_of(bins@) && p.spec_counts() == counts && p.spec_coverage()@
                == point_views_ratio(point_views_of(bins@)) && p.spec_coverage()@ == (
                coverage.covered,
                coverage.uncovered,
                coverage.total,
            ),
        },
{
    let (samples, ignored, illegal, unmatched) = counts;
    let name_path = concat(path, ".name");
    match validate_name(name.as_str(), name_path.as_str()) {
        Ok(()) => {},
        Err(e) => {
            return Err(e);
        },
    }
    let too_many = match ignored.checked_add(illegal) {
        None => true,
        Some(a) => match a.checked_add(unmatched) {
            None => true,
            Some(b) => b > samples,
        },
    };
    if too_many {
        return Err(invalid(path, "sample classifications exceed samples"));
    }
    let out = match point_bins_from_records(bins, path) {
        Ok(v) => v,
        Err(e) => {
            return Err(e);
        },
    };
    match validate_coverpoint_bins(out.as_slice(), samples, path) {
        Ok(()) => {},
        Err(e) => {
            return Err(e);
        },
    }
    let computed = coverpoint_ratio(out.as_slice());
    let coverage_path = concat(path, ".coverage");
    match validate_ratio(coverage, computed, coverage_path.as_str()) {
        Ok(()) => {},
        Err(e) => {
            return Err(e);
        },
    }
    Ok(CoverpointSnapshot::from_parts(name.as_str(), out, samples, ignored, illegal, unmatched, computed))
}

fn cross_from_record(
    names: (&String, &String, &String),
    counts: (u64, u64),
    coverage: &RatioRecord,
    bins: &Vec<CrossBinRecord>,
    path: &str,
) -> (r: Result<Cross2Snapshot, CoveragePersistenceError>)
    ensures
        match cross_record_issue(
            (names.0@, names.1@, names.2@),
            counts,
            *coverage,
            bins@,
            path@,
        ) {
            Some(i) => r matches Err(e) && reports(e, i),
            None => r matches Ok(c) && c.spec_name() == names.0@ && c.spec_axis_names() == (
                names.1@,
                names.2@,
            ) && cross_bin_views(c.spec_bins()) == cross_views_of(bins@) && c.spec_counts()
                == counts && c.spec_coverage()@ == cross_views_ratio(cross_views_of(bins@))
                && c.spec_coverage()@ == (coverage.covered, coverage.uncovered, coverage.total),
        },
{
    let (name, left, right) = names;
    let (samples, skipped) = counts;
    let p0 = concat(path, ".name");
    match validate_name(name.as_str(), p0.as_str()) {
        Ok(()) => {},
        Err(e) => {
            return Err(e);
        },
    }
    let p1 = concat(path, ".left_coverpoint");
    match validate_name(left.as_str(), p1.as_str()) {
        Ok(()) => {},
        Err(e) => {
            return Err(e);
        },
    }
    let p2 = concat(path, ".right_coverpoint");
    match validate_name(right.as_str(), p2.as_str()) {
        Ok(()) => {},
        Err(e) => {
            return Err(e);
        },
    }
    if skipped > samples {
        return Err(invalid(path, "skipped samples exceed samples"));
    }
    let out = match cross_bins_from_records(bins, path) {
        Ok(v) => v,
        Err(e) => {
            return Err(e);
        },
    };
    match validate_cross_bins(out.as_slice(), samples, path) {
        Ok(()) => {},
        Err(e) => {
            return Err(e);
        },
    }
    let computed = cross_ratio(out.as_slice());
    let coverage_path = concat(path, ".coverage");
    match validate_ratio(coverage, computed, coverage_path.as_str()) {
        Ok(()) => {},
        Err(e) => {
            return Err(e);
        },
    }
    Ok(
        Cross2Snapshot::from_parts(
            name.as_str(),
            left.as_str(),
            right.as_str(),
            out,
            samples,
            skipped,
            computed,
        ),
    )
}

/// Rebuilds one persisted item, checking it as the live item would hold it.
pub fn item_from_record(item: &ItemRecord, path: &str) -> (r: Result<
    CoverageItemSnapshot,
    CoveragePersistenceError,
>)
    ensures
        match item_record_issue(*item, path@) {
            Some(i) => r matches Err(e) && reports(e, i),
            None => r matches Ok(m) && item_rebuilt(m, *item),
        },
{
    match item {
        ItemRecord::Coverpoint {
            name,
            samples,
            ignored_samples,
            illegal_samples,
            unmatched_samples,
            coverage,
            bins,
        } => {
            match point_from_record(
                name,
                (*samples, *ignored_samples, *illegal_samples, *unmatched_samples),
                coverage,
                bins,
                path,
            ) {
                Ok(p) => Ok(CoverageItemSnapshot::Coverpoint(p)),
                Err(e) => Err(e),
            }
        },
        ItemRecord::Cross2 {
            name,
            left_coverpoint,
            right_coverpoint,
            samples,
            skipped_samples,
            coverage,
            bins,
        } => {
            match cross_from_record(
                (name, left_coverpoint, right_coverpoint),
                (*samples, *skipped_samples),
                coverage,
                bins,
                path,
            ) {
                Ok(c) => Ok(CoverageItemSnapshot::Cross2(c)),
                Err(e) => Err(e),
            }
        },
    }
}

} // verus!

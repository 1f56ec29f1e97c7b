use vstd::prelude::*;
use vstd::string::*;

use crate::coverage::group::{
    capture_group, group_capture_outcome, CoverageGroup, CoverageGroupSummary,
};
use crate::coverage::group_error::CoverageGroupError;
use crate::coverage::identifier::{is_valid_test_name, valid_test_name};
use crate::coverage::ratio::CoverageRatio;
use crate::coverage::session_error::{CoverageSessionCountKind, CoverageSessionError};
use crate::coverage::snapshot::CoverageGroupSnapshot;
use crate::text::str_eq;

verus! {

/// Exact read-only summary of one per-test coverage session.
#[derive(Debug, Clone, Copy, PartialEq, Eq)]
pub struct CoverageSessionSummary {
    groups: usize,
    items: usize,
    coverpoints: usize,
    crosses: usize,
    coverage: CoverageRatio,
}

/// Group, item, coverpoint, cross, covered, uncovered and total counts of a summary.
pub open spec fn session_counts(s: CoverageSessionSummary) -> (int, int, int, int, int, int, int) {
    (
        s.spec_groups() as int,
        s.spec_items() as int,
        s.spec_coverpoints() as int,
        s.spec_crosses() as int,
        s.spec_coverage()@.0 as int,
        s.spec_coverage()@.1 as int,
        s.spec_coverage()@.2 as int,
    )
}

/// Counts after adding one group summary to the current session summary.
pub open spec fn session_next(cur: Option<CoverageSessionSummary>, g: CoverageGroupSummary) -> (
    int,
    int,
    int,
    int,
    int,
    int,
    int,
) {
    let b = match cur {
        Some(s) => session_counts(s),
        None => (0, 0, 0, 0, 0, 0, 0),
    };
    let c = g.spec_coverage()@;
    (
        b.0 + 1,
        b.1 + g.spec_items(),
        b.2 + g.spec_coverpoints(),
        b.3 + g.spec_crosses(),
        b.4 + c.0,
        b.5 + c.1,
        b.6 + c.2,
    )
}

/// First session count, in checking order, that adding the group would overflow.
pub open spec fn session_overflow(cur: Option<CoverageSessionSummary>, g: CoverageGroupSummary) -> Option<
    CoverageSessionCountKind,
> {
    let n = session_next(cur, g);
    if n.4 > usize::MAX {
        Some(CoverageSessionCountKind::CoveredBins)
    } else if n.5 > usize::MAX {
        Some(CoverageSessionCountKind::UncoveredBins)
    } else if n.6 > usize::MAX {
        Some(CoverageSessionCountKind::TotalBins)
    } else if n.0 > usize::MAX {
        Some(CoverageSessionCountKind::Groups)
    } else if n.1 > usize::MAX {
        Some(CoverageSessionCountKind::Items)
    } else if n.2 > usize::MAX {
        Some(CoverageSessionCountKind::Coverpoints)
    } else if n.3 > usize::MAX {
        Some(CoverageSessionCountKind::Crosses)
    } else {
        None
    }
}

impl CoverageSessionSummary {
    /// Captured groups.
    pub closed spec fn spec_groups(&self) -> usize {
        self.groups
    }

    /// Captured items.
    pub closed spec fn spec_items(&self) -> usize {
        self.items
    }

    /// Captured coverpoints.
    pub closed spec fn spec_coverpoints(&self) -> usize {
        self.coverpoints
    }

    /// Captured crosses.
    pub closed spec fn spec_crosses(&self) -> usize {
        self.crosses
    }

    /// Aggregate bin coverage.
    pub closed spec fn spec_coverage(&self) -> CoverageRatio {
        self.coverage
    }

    /// Reconstructs a session summary from its counts.
    pub fn from_parts(
        groups: usize,
        items: usize,
        coverpoints: usize,
        crosses: usize,
        coverage: CoverageRatio,
    ) -> (r: Self)
        ensures
            r.spec_groups() == groups,
            r.spec_items() == items,
            r.spec_coverpoints() == coverpoints,
            r.spec_crosses() == crosses,
            r.spec_coverage() == coverage,
    {
        CoverageSessionSummary { groups, items, coverpoints, crosses, coverage }
    }

    /// Returns captured group count.
    pub fn group_count(self) -> (r: usize)
        ensures
            r == self.spec_groups(),
    {
        self.groups
    }

    /// Returns captured item count.
    pub fn item_count(self) -> (r: usize)
        ensures
            r == self.spec_items(),
    {
        self.items
    }

    /// Returns captured coverpoint count.
    pub fn coverpoint_count(self) -> (r: usize)
        ensures
            r == self.spec_coverpoints(),
    {
        self.coverpoints
    }

    /// Returns captured cross count.
    pub fn cross_count(self) -> (r: usize)
        ensures
            r == self.spec_crosses(),
    {
        self.crosses
    }

    /// Returns exact aggregate bin coverage.
    pub fn coverage(self) -> (r: CoverageRatio)
        ensures
            r == self.spec_coverage(),
    {
        self.coverage
    }

    /// Returns whether every captured bin is covered.
    pub fn is_complete(self) -> (r: bool)
        ensures
            r == (self.spec_coverage()@.1 == 0),
    {
        self.coverage.is_complete()
    }
}

/// Adds one group summary to the current session summary with checked counts.
pub fn next_summary(
    current: Option<CoverageSessionSummary>,
    group: CoverageGroupSummary,
    test: &str,
) -> (r: Result<CoverageSessionSummary, CoverageSessionError>)
    ensures
        match session_overflow(current, group) {
            Some(c) => r matches Err(CoverageSessionError::CountOverflow { test: t, counter }) && t@
                == test@ && counter == c,
            None => r matches Ok(s) && session_counts(s) == session_next(current, group),
        },
{
    let cur = match current {
        Some(s) => s,
        None => CoverageSessionSummary {
            groups: 0,
            items: 0,
            coverpoints: 0,
            crosses: 0,
            coverage: CoverageRatio::new(0, 0, 0),
        },
    };
    let gc = group.coverage();
    let covered = cur.coverage.covered().checked_add(gc.covered());
    let uncovered = cur.coverage.uncovered().checked_add(gc.uncovered());
    let total = cur.coverage.total().checked_add(gc.total());
    let groups = cur.groups.checked_add(1);
    let items = cur.items.checked_add(group.item_count());
    let coverpoints = cur.coverpoints.checked_add(group.coverpoint_count());
    let crosses = cur.crosses.checked_add(group.cross_count());
    let counter = if covered.is_none() {
        Some(CoverageSessionCountKind::CoveredBins)
    } else if uncovered.is_none() {
        Some(CoverageSessionCountKind::UncoveredBins)
    } else if total.is_none() {
        Some(CoverageSessionCountKind::TotalBins)
    } else if groups.is_none() {
        Some(CoverageSessionCountKind::Groups)
    } else if items.is_none() {
        Some(CoverageSessionCountKind::Items)
    } else if coverpoints.is_none() {
        Some(CoverageSessionCountKind::Coverpoints)
    } else if crosses.is_none() {
        Some(CoverageSessionCountKind::Crosses)
    } else {
        None
    };
    match counter {
        Some(c) => Err(CoverageSessionError::CountOverflow { test: String::from_str(test), counter: c }),
        None => Ok(
            CoverageSessionSummary {
                groups: groups.unwrap(),
                items: items.unwrap(),
                coverpoints: coverpoints.unwrap(),
                crosses: crosses.unwrap(),
                coverage: CoverageRatio::new(covered.unwrap(), uncovered.unwrap(), total.unwrap()),
            },
        ),
    }
}

/// Index of the first group at or after `i` with the given instance path, or `-1`.
pub open spec fn find_group(groups: Seq<CoverageGroupSnapshot>, path: Seq<char>, i: int) -> int
    decreases groups.len() - i,
{
    if i < 0 || i >= groups.len() {
        -1
    } else if groups[i].spec_instance_path() == path {
        i
    } else {
        find_group(groups, path, i + 1)
    }
}

/// Finds the first group with the given instance path.
fn find_group_index(groups: &Vec<CoverageGroupSnapshot>, path: &str) -> (r: Option<usize>)
    ensures
        match r {
            Some(i) => i as int == find_group(groups@, path@, 0) && i < groups@.len(),
            None => find_group(groups@, path@, 0) == -1,
        },
{
    let mut i: usize = 0;
    while i < groups.len()
        invariant
            i <= groups@.len(),
            find_group(groups@, path@, 0) == find_group(groups@, path@, i as int),
        decreases groups@.len() - i,
    {
        if str_eq(groups[i].instance_path(), path) {
            return Some(i);
        }
        i = i + 1;
    }
    None
}

/// Ordered per-test collection of immutable coverage-group snapshots.
pub struct CoverageSession {
    test_name: String,
    groups: Vec<CoverageGroupSnapshot>,
    summary: Option<CoverageSessionSummary>,
}

/// `r` and `after` are what recording the capture outcome `captured` of
/// the group at `path` into session `before` gives: a duplicate path, the
/// group's error or a counter overflow is refused; else the snapshot is
/// appended and the summary advanced.
pub open spec fn record_outcome(
    before: CoverageSession,
    after: CoverageSession,
    r: Result<(), CoverageSessionError>,
    path: Seq<char>,
    captured: Result<CoverageGroupSnapshot, CoverageGroupError>,
) -> bool {
    if find_group(before.spec_groups(), path, 0) >= 0 {
        r matches Err(CoverageSessionError::DuplicateInstancePath { test, instance_path: p })
            && test@ == before.spec_test_name() && p@ == path
    } else {
        match captured {
            Err(ge) => r matches Err(CoverageSessionError::InvalidGroup { test, source })
                && test@ == before.spec_test_name() && *source == ge,
            Ok(snap) => match session_overflow(before.spec_summary(), snap.spec_summary()) {
                Some(c) => r matches Err(CoverageSessionError::CountOverflow { test, counter })
                    && test@ == before.spec_test_name() && counter == c,
                None => r is Ok && after.spec_test_name() == before.spec_test_name()
                    && after.spec_groups() == before.spec_groups().push(snap) && (
                after.spec_summary() matches Some(s) && session_counts(s) == session_next(
                    before.spec_summary(),
                    snap.spec_summary(),
                )),
            },
        }
    }
}

impl CoverageSession {
    /// Test name.
    pub closed spec fn spec_test_name(&self) -> Seq<char> {
        self.test_name@
    }

    /// Captured groups in capture order.
    pub closed spec fn spec_groups(&self) -> Seq<CoverageGroupSnapshot> {
        self.groups@
    }

    /// Aggregate summary, present once a group was captured.
    pub closed spec fn spec_summary(&self) -> Option<CoverageSessionSummary> {
        self.summary
    }

    /// The summary exists exactly when a group was captured.
    pub open spec fn wf(&self) -> bool {
        self.spec_summary() is Some <==> self.spec_groups().len() > 0
    }

    /// Creates one empty session for a valid test name.
    pub fn new(test_name: &str) -> (r: Result<Self, CoverageSessionError>)
        ensures
            valid_test_name(test_name@) ==> (r matches Ok(s) && s.wf() && s.spec_test_name()
                == test_name@ && s.spec_groups().len() == 0),
            !valid_test_name(test_name@) ==> (r matches Err(
                CoverageSessionError::InvalidTestName { name },
            ) && name@ == test_name@),
    {
        if !is_valid_test_name(test_name) {
            return Err(CoverageSessionError::InvalidTestName { name: String::from_str(test_name) });
        }
        Ok(CoverageSession { test_name: String::from_str(test_name), groups: Vec::new(), summary: None })
    }

    /// Returns the test name.
    pub fn test_name(&self) -> (r: &str)
        ensures
            r@ == self.spec_test_name(),
    {
        self.test_name.as_str()
    }

    /// Returns captured groups in capture order.
    pub fn groups(&self) -> (r: &[CoverageGroupSnapshot])
        ensures
            r@ == self.spec_groups(),
    {
        self.groups.as_slice()
    }

    /// Finds one captured group by instance path.
    pub fn group(&self, instance_path: &str) -> (r: Option<&CoverageGroupSnapshot>)
        ensures
            find_group(self.spec_groups(), instance_path@, 0) < 0 ==> r is None,
            find_group(self.spec_groups(), instance_path@, 0) >= 0 ==> r == Some(
                &self.spec_groups()[find_group(self.spec_groups(), instance_path@, 0)],
            ),
    {
        match find_group_index(&self.groups, instance_path) {
            Some(i) => Some(&self.groups[i]),
            None => None,
        }
    }

    /// Returns whether no group was captured.
    pub fn is_empty(&self) -> (r: bool)
        ensures
            r == (self.spec_groups().len() == 0),
    {
        self.groups.len() == 0
    }

    /// Returns the aggregate summary once a group was captured.
    pub fn summary(&self) -> (r: Option<CoverageSessionSummary>)
        ensures
            r == self.spec_summary(),
    {
        self.summary
    }

    /// Records one group capture, given the group's instance path and the
    /// outcome of capturing it. A rejected capture leaves the session unchanged.
    pub fn record_capture(
        &mut self,
        instance_path: &str,
        captured: Result<CoverageGroupSnapshot, CoverageGroupError>,
    ) -> (r: Result<(), CoverageSessionError>)
        requires
            old(self).wf(),
        ensures
            final(self).wf(),
            r is Err ==> *final(self) == *old(self),
            record_outcome(*old(self), *final(self), r, instance_path@, captured),
    {
        match find_group_index(&self.groups, instance_path) {
            Some(_) => {
                return Err(
                    CoverageSessionError::DuplicateInstancePath {
                        test: self.test_name.clone(),
                        instance_path: String::from_str(instance_path),
                    },
                );
            },
            None => {},
        }
        let snapshot = match captured {
            Ok(s) => s,
            Err(e) => {
                return Err(
                    CoverageSessionError::InvalidGroup {
                        test: self.test_name.clone(),
                        source: Box::new(e),
                    },
                );
            },
        };
        let summary = match next_summary(self.summary, snapshot.summary(), self.test_name.as_str()) {
            Ok(s) => s,
            Err(e) => {
                return Err(e);
            },
        };
        self.groups.push(snapshot);
        self.summary = Some(summary);
        Ok(())
    }

    /// Captures one validated group instance into the session.
    pub fn capture<G: CoverageGroup>(&mut self, group: &G) -> (r: Result<(), CoverageSessionError>)
        requires
            old(self).wf(),
        ensures
            final(self).wf(),
            r is Err ==> *final(self) == *old(self),
            r is Ok ==> final(self).spec_groups().len() == old(self).spec_groups().len() + 1,
            exists|c: Result<CoverageGroupSnapshot, CoverageGroupError>|
                #[trigger] group_capture_outcome(c, group.spec_group_instance(), group.spec_group_items())
                    && record_outcome(
                    *old(self),
                    *final(self),
                    r,
                    group.spec_group_instance().spec_instance_path(),
                    c,
                ),
    {
        let instance_path = group.instance().instance_path();
        let captured = capture_group(group);
        let ghost c = captured;
        let r = self.record_capture(instance_path, captured);
        assert(group_capture_outcome(c, group.spec_group_instance(), group.spec_group_items()));
        r
    }

    /// Finishes the session; `None` when no group was captured.
    pub fn finish(self) -> (r: Option<CoverageSessionSnapshot>)
        ensures
            self.spec_summary() is None ==> r is None,
            self.spec_summary() matches Some(s) ==> (r matches Some(snap) && snap.spec_test_name()
                == self.spec_test_name() && snap.spec_groups() == self.spec_groups()
                && snap.spec_summary() == s),
    {
        match self.summary {
            Some(summary) => Some(
                CoverageSessionSnapshot {
                    test_name: self.test_name,
                    groups: self.groups,
                    summary,
                },
            ),
            None => None,
        }
    }
}

/// Immutable ordered snapshot of one finished per-test coverage session.
#[derive(Debug, Clone, PartialEq, Eq)]
pub struct CoverageSessionSnapshot {
    test_name: String,
    groups: Vec<CoverageGroupSnapshot>,
    summary: CoverageSessionSummary,
}

impl CoverageSessionSnapshot {
    /// Test name.
    pub closed spec fn spec_test_name(&self) -> Seq<char> {
        self.test_name@
    }

    /// Captured groups in capture order.
    pub closed spec fn spec_groups(&self) -> Seq<CoverageGroupSnapshot> {
        self.groups@
    }

    /// Aggregate summary.
    pub closed spec fn spec_summary(&self) -> CoverageSessionSummary {
        self.summary
    }

    /// Assembles a session snapshot from its parts.
    pub fn from_parts(
        test_name: &str,
        groups: Vec<CoverageGroupSnapshot>,
        summary: CoverageSessionSummary,
    ) -> (r: Self)
        ensures
            r.spec_test_name() == test_name@,
            r.spec_groups() == groups@,
            r.spec_summary() == summary,
    {
        CoverageSessionSnapshot { test_name: String::from_str(test_name), groups, summary }
    }

    /// Returns the test name.
    pub fn test_name(&self) -> (r: &str)
        ensures
            r@ == self.spec_test_name(),
    {
        self.test_name.as_str()
    }

    /// Returns captured groups in capture order.
    pub fn groups(&self) -> (r: &[CoverageGroupSnapshot])
        ensures
            r@ == self.spec_groups(),
    {
        self.groups.as_slice()
    }

    /// Finds one captured group by instance path.
    pub fn group(&self, instance_path: &str) -> (r: Option<&CoverageGroupSnapshot>)
        ensures
            find_group(self.spec_groups(), instance_path@, 0) < 0 ==> r is None,
            find_group(self.spec_groups(), instance_path@, 0) >= 0 ==> r == Some(
                &self.spec_groups()[find_group(self.spec_groups(), instance_path@, 0)],
            ),
    {
        match find_group_index(&self.groups, instance_path) {
            Some(i) => Some(&self.groups[i]),
            None => None,
        }
    }

    /// Returns the aggregate summary.
    pub fn summary(&self) -> (r: CoverageSessionSummary)
        ensures
            r == self.spec_summary(),
    {
        self.summary
    }

    /// Returns exact aggregate coverage.
    pub fn coverage(&self) -> (r: CoverageRatio)
        ensures
            r == self.spec_summary().spec_coverage(),
    {
        self.summary.coverage()
    }

    /// Splits the snapshot into its test name, groups and summary.
    pub fn into_parts(self) -> (r: (String, Vec<CoverageGroupSnapshot>, CoverageSessionSummary))
        ensures
            r.0@ == self.spec_test_name(),
            r.1@ == self.spec_groups(),
            r.2 == self.spec_summary(),
    {
        (self.test_name, self.groups, self.summary)
    }
}

} // verus!

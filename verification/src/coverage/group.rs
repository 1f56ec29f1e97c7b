use vstd::prelude::*;
use vstd::string::*;

use crate::coverage::coverpoint::same_source;
use crate::coverage::cross_error::CrossAxis;
use crate::coverage::group_error::{CoverageGroupCountKind, CoverageGroupError};
use crate::coverage::identifier::{
    is_valid_coverage_identifier, is_valid_coverage_path, valid_identifier, valid_path,
};
use crate::coverage::item::{item_kind_of, CoverageItemKind, CoverageItemRef};
use crate::coverage::ratio::CoverageRatio;
use crate::coverage::snapshot::{
    item_snapshot_coverage, item_snapshot_name, CoverageGroupSnapshot, CoverageItemSnapshot,
};
use crate::text::str_eq;

verus! {

/// Stable identity of one coverage-group instance.
#[derive(Debug, Clone, PartialEq, Eq, Hash)]
pub struct CoverageGroupInstance {
    definition_name: String,
    definition_revision: u64,
    instance_path: String,
}

impl CoverageGroupInstance {
    /// Reusable group-definition name.
    pub closed spec fn spec_definition_name(&self) -> Seq<char> {
        self.definition_name@
    }

    /// Semantic definition revision.
    pub closed spec fn spec_revision(&self) -> u64 {
        self.definition_revision
    }

    /// Hierarchical instance path.
    pub closed spec fn spec_instance_path(&self) -> Seq<char> {
        self.instance_path@
    }

    /// Constructs one validated group instance at revision zero.
    pub fn new(definition_name: &str, instance_path: &str) -> (r: Result<Self, CoverageGroupError>)
        ensures
            group_instance_outcome(definition_name@, instance_path@, 0, r),
    {
        Self::new_with_revision(definition_name, instance_path, 0)
    }

    /// Constructs one validated group instance with a semantic definition revision.
    pub fn new_with_revision(
        definition_name: &str,
        instance_path: &str,
        definition_revision: u64,
    ) -> (r: Result<Self, CoverageGroupError>)
        ensures
            group_instance_outcome(definition_name@, instance_path@, definition_revision, r),
    {
        if !is_valid_coverage_identifier(definition_name) {
            return Err(
                CoverageGroupError::InvalidDefinitionName { name: String::from_str(definition_name) },
            );
        }
        if !is_valid_coverage_path(instance_path) {
            return Err(
                CoverageGroupError::InvalidInstancePath { path: String::from_str(instance_path) },
            );
        }
        Ok(
            CoverageGroupInstance {
                definition_name: String::from_str(definition_name),
                definition_revision,
                instance_path: String::from_str(instance_path),
            },
        )
    }

    /// Returns the reusable coverage definition name.
    pub fn definition_name(&self) -> (r: &str)
        ensures
            r@ == self.spec_definition_name(),
    {
        self.definition_name.as_str()
    }

    /// Returns the semantic definition revision.
    pub fn definition_revision(&self) -> (r: u64)
        ensures
            r == self.spec_revision(),
    {
        self.definition_revision
    }

    /// Returns the hierarchical instance path.
    pub fn instance_path(&self) -> (r: &str)
        ensures
            r@ == self.spec_instance_path(),
    {
        self.instance_path.as_str()
    }
}

/// Outcome of constructing a group instance.
pub open spec fn group_instance_outcome(
    name: Seq<char>,
    path: Seq<char>,
    revision: u64,
    r: Result<CoverageGroupInstance, CoverageGroupError>,
) -> bool {
    if !valid_identifier(name) {
        r matches Err(CoverageGroupError::InvalidDefinitionName { name: n }) && n@ == name
    } else if !valid_path(path) {
        r matches Err(CoverageGroupError::InvalidInstancePath { path: p }) && p@ == path
    } else {
        r matches Ok(g) && g.spec_definition_name() == name && g.spec_instance_path() == path
            && g.spec_revision() == revision
    }
}

/// Visitor receiving coverage items in group-definition order.
pub trait CoverageGroupVisitor {
    /// Items received so far, in order.
    open spec fn spec_received(&self) -> Seq<CoverageItemRef> {
        vstd::pervasive::arbitrary()
    }

    /// Visits one coverage item: it is received after the earlier ones.
    fn visit(&mut self, item: CoverageItemRef)
        ensures
            final(self).spec_received() == old(self).spec_received().push(item),
    ;
}

/// User-owned functional coverage group.
pub trait CoverageGroup: Sized {
    /// The group's instance identity.
    open spec fn spec_group_instance(&self) -> CoverageGroupInstance {
        vstd::pervasive::arbitrary()
    }

    /// The group's items in definition order.
    open spec fn spec_group_items(&self) -> Seq<CoverageItemRef> {
        vstd::pervasive::arbitrary()
    }

    /// Returns this group's stable instance identity.
    fn instance(&self) -> (r: &CoverageGroupInstance)
        ensures
            *r == self.spec_group_instance(),
    ;

    /// Visits every coverage item in stable definition order: the visitor
    /// receives the group's items, in order, after what it held.
    fn visit_items<V: CoverageGroupVisitor>(&self, visitor: &mut V)
        ensures
            final(visitor).spec_received() == old(visitor).spec_received() + self.spec_group_items(),
    ;
}

/// Exact read-only summary of one coverage-group instance.
#[derive(Debug, Clone, Copy, PartialEq, Eq)]
pub struct CoverageGroupSummary {
    items: usize,
    coverpoints: usize,
    crosses: usize,
    coverage: CoverageRatio,
}

impl CoverageGroupSummary {
    /// Total exposed items.
    pub closed spec fn spec_items(&self) -> usize {
        self.items
    }

    /// Typed coverpoints.
    pub closed spec fn spec_coverpoints(&self) -> usize {
        self.coverpoints
    }

    /// Two-way crosses.
    pub closed spec fn spec_crosses(&self) -> usize {
        self.crosses
    }

    /// Aggregate bin coverage.
    pub closed spec fn spec_coverage(&self) -> CoverageRatio {
        self.coverage
    }

    /// Reconstructs a group summary from its counts.
    pub fn from_parts(items: usize, coverpoints: usize, crosses: usize, coverage: CoverageRatio) -> (r:
        Self)
        ensures
            r.spec_items() == items,
            r.spec_coverpoints() == coverpoints,
            r.spec_crosses() == crosses,
            r.spec_coverage() == coverage,
    {
        CoverageGroupSummary { items, coverpoints, crosses, coverage }
    }

    /// Returns total item count.
    pub fn item_count(self) -> (r: usize)
        ensures
            r == self.spec_items(),
    {
        self.items
    }

    /// Returns typed coverpoint count.
    pub fn coverpoint_count(self) -> (r: usize)
        ensures
            r == self.spec_coverpoints(),
    {
        self.coverpoints
    }

    /// Returns two-way cross count.
    pub fn cross_count(self) -> (r: usize)
        ensures
            r == self.spec_crosses(),
    {
        self.crosses
    }

    /// Returns exact aggregate bin coverage.
    pub fn coverage(self) -> (r: CoverageRatio)
        ensures
            r == self.spec_coverage(),
    {
        self.coverage
    }

    /// Returns whether all bins in all items are covered.
    pub fn is_complete(self) -> (r: bool)
        ensures
            r == (self.spec_coverage()@.1 == 0),
    {
        self.coverage.is_complete()
    }
}

/// Name of the item at index `i`.
pub open spec fn item_name_at(items: Seq<CoverageItemRef>, i: int) -> Seq<char> {
    item_snapshot_name(items[i].spec_snapshot())
}

/// Kind of the item at index `i`.
pub open spec fn item_kind_at(items: Seq<CoverageItemRef>, i: int) -> CoverageItemKind {
    item_kind_of(items[i].spec_snapshot())
}

/// Whether an item before index `i` has the same name as item `i`.
pub open spec fn name_seen_before(items: Seq<CoverageItemRef>, i: int) -> bool {
    exists|j: int| 0 <= j < i && item_name_at(items, j) == item_name_at(items, i)
}

/// First item at or after `i` that repeats an earlier name (`true`) or
/// exposes an already exposed coverpoint (`false`).
pub open spec fn first_structure_error(items: Seq<CoverageItemRef>, dup: Seq<bool>, i: int) -> Option<
    (int, bool),
>
    decreases items.len() - i,
{
    if i < 0 || i >= items.len() {
        None
    } else if name_seen_before(items, i) {
        Some((i, true))
    } else if item_kind_at(items, i) == CoverageItemKind::Coverpoint && dup[i] {
        Some((i, false))
    } else {
        first_structure_error(items, dup, i + 1)
    }
}

/// First cross at or after `i` whose left or right source coverpoint is not exposed.
pub open spec fn first_missing_source(
    items: Seq<CoverageItemRef>,
    left_found: Seq<bool>,
    right_found: Seq<bool>,
    i: int,
) -> Option<(int, CrossAxis)>
    decreases items.len() - i,
{
    if i < 0 || i >= items.len() {
        None
    } else if item_kind_at(items, i) == CoverageItemKind::Cross2 && !left_found[i] {
        Some((i, CrossAxis::Left))
    } else if item_kind_at(items, i) == CoverageItemKind::Cross2 && !right_found[i] {
        Some((i, CrossAxis::Right))
    } else {
        first_missing_source(items, left_found, right_found, i + 1)
    }
}

/// Source coverpoint name on one axis of the cross item at index `i`.
pub open spec fn cross_axis_name(items: Seq<CoverageItemRef>, i: int, axis: CrossAxis) -> Seq<char> {
    match items[i].spec_snapshot() {
        CoverageItemSnapshot::Cross2(c) => if axis == CrossAxis::Left {
            c.spec_axis_names().0
        } else {
            c.spec_axis_names().1
        },
        CoverageItemSnapshot::Coverpoint(_) => Seq::empty(),
    }
}

/// Whether a group with these items and identity facts is structurally valid.
///
/// `dup[i]` tells whether coverpoint item `i` is a coverpoint instance that an
/// earlier item already exposed; `left_found[i]` and `right_found[i]` tell
/// whether the source coverpoints of cross item `i` are exposed by the group.
pub open spec fn group_structure_ok(
    items: Seq<CoverageItemRef>,
    dup: Seq<bool>,
    left_found: Seq<bool>,
    right_found: Seq<bool>,
) -> bool {
    &&& first_structure_error(items, dup, 0) is None
    &&& items.len() > 0
    &&& first_missing_source(items, left_found, right_found, 0) is None
}

/// The error that a structurally invalid group reports.
pub open spec fn group_structure_error(
    e: CoverageGroupError,
    definition: Seq<char>,
    instance: Seq<char>,
    items: Seq<CoverageItemRef>,
    dup: Seq<bool>,
    left_found: Seq<bool>,
    right_found: Seq<bool>,
) -> bool {
    match first_structure_error(items, dup, 0) {
        Some((i, true)) => e matches CoverageGroupError::DuplicateItemName {
            definition: d,
            instance: p,
            item,
        } && d@ == definition && p@ == instance && item@ == item_name_at(items, i),
        Some((i, false)) => e matches CoverageGroupError::DuplicateCoverpoint {
            definition: d,
            instance: p,
            coverpoint,
        } && d@ == definition && p@ == instance && coverpoint@ == item_name_at(items, i),
        None => if items.len() == 0 {
            e matches CoverageGroupError::EmptyGroup { definition: d, instance: p } && d@
                == definition && p@ == instance
        } else {
            match first_missing_source(items, left_found, right_found, 0) {
                Some((i, axis)) => e matches CoverageGroupError::MissingCrossSource {
                    definition: d,
                    instance: p,
                    cross,
                    axis: a,
                    coverpoint,
                } && d@ == definition && p@ == instance && cross@ == item_name_at(items, i) && a
                    == axis && coverpoint@ == cross_axis_name(items, i, axis),
                None => false,
            }
        },
    }
}

/// Covered, uncovered and total bins summed over the first `n` items.
pub open spec fn ratio_sums(items: Seq<CoverageItemRef>, n: int) -> (int, int, int)
    decreases n,
{
    if n <= 0 {
        (0, 0, 0)
    } else {
        let s = ratio_sums(items, n - 1);
        let c = item_snapshot_coverage(items[n - 1].spec_snapshot())@;
        (s.0 + c.0, s.1 + c.1, s.2 + c.2)
    }
}

/// Number of items of one kind among the first `n`.
pub open spec fn count_items_of_kind(items: Seq<CoverageItemRef>, n: int, kind: CoverageItemKind) -> nat
    decreases n,
{
    if n <= 0 {
        0
    } else {
        count_items_of_kind(items, n - 1, kind) + if item_kind_at(items, n - 1) == kind {
            1nat
        } else {
            0nat
        }
    }
}

/// First aggregate bin count, item by item, that exceeds `usize::MAX`.
pub open spec fn group_sum_overflow(items: Seq<CoverageItemRef>, i: int) -> Option<
    CoverageGroupCountKind,
>
    decreases items.len() - i,
{
    if i < 0 || i >= items.len() {
        None
    } else {
        let s = ratio_sums(items, i + 1);
        if s.0 > usize::MAX {
            Some(CoverageGroupCountKind::CoveredBins)
        } else if s.1 > usize::MAX {
            Some(CoverageGroupCountKind::UncoveredBins)
        } else if s.2 > usize::MAX {
            Some(CoverageGroupCountKind::TotalBins)
        } else {
            group_sum_overflow(items, i + 1)
        }
    }
}

/// Item `j` is a coverpoint with an identity to compare.
pub open spec fn exposes_point(items: Seq<CoverageItemRef>, j: int) -> bool {
    item_kind_at(items, j) == CoverageItemKind::Coverpoint && items[j].spec_sources().len() > 0
}

/// The identity facts have one entry per item, and each fact that holds
/// rests on a comparison that was made: a coverpoint repeats only an
/// earlier coverpoint, and a cross finds a source only among the group's
/// coverpoints. Which comparisons succeed is a matter of instance identity.
pub open spec fn facts_fit(
    items: Seq<CoverageItemRef>,
    dup: Seq<bool>,
    left_found: Seq<bool>,
    right_found: Seq<bool>,
) -> bool {
    &&& dup.len() == items.len()
    &&& left_found.len() == items.len()
    &&& right_found.len() == items.len()
    &&& forall|i: int|
        0 <= i < items.len() && #[trigger] dup[i] ==> exposes_point(items, i) && exists|j: int|
            0 <= j < i && #[trigger] exposes_point(items, j)
    &&& forall|i: int|
        0 <= i < items.len() && #[trigger] left_found[i] ==> item_kind_at(items, i)
            == CoverageItemKind::Cross2 && items[i].spec_sources().len() > 0 && exists|j: int|
            0 <= j < items.len() && #[trigger] exposes_point(items, j)
    &&& forall|i: int|
        0 <= i < items.len() && #[trigger] right_found[i] ==> item_kind_at(items, i)
            == CoverageItemKind::Cross2 && items[i].spec_sources().len() > 1 && exists|j: int|
            0 <= j < items.len() && #[trigger] exposes_point(items, j)
}

/// `r` is what validating the items of a group named `definition` at
/// `instance` gives, with these identity facts.
pub open spec fn validation_outcome(
    r: Result<(), CoverageGroupError>,
    definition: Seq<char>,
    instance: Seq<char>,
    items: Seq<CoverageItemRef>,
    dup: Seq<bool>,
    left_found: Seq<bool>,
    right_found: Seq<bool>,
) -> bool {
    &&& (r is Ok <==> group_structure_ok(items, dup, left_found, right_found))
    &&& (r matches Err(e) ==> group_structure_error(
        e,
        definition,
        instance,
        items,
        dup,
        left_found,
        right_found,
    ))
}

/// `s` summarizes `items`: counts by kind and summed coverage.
pub open spec fn summary_of_items(s: CoverageGroupSummary, items: Seq<CoverageItemRef>) -> bool {
    &&& s.spec_items() == items.len()
    &&& s.spec_coverpoints() == count_items_of_kind(items, items.len() as int, CoverageItemKind::Coverpoint)
    &&& s.spec_crosses() == count_items_of_kind(items, items.len() as int, CoverageItemKind::Cross2)
    &&& s.spec_coverage()@.0 == ratio_sums(items, items.len() as int).0
    &&& s.spec_coverage()@.1 == ratio_sums(items, items.len() as int).1
    &&& s.spec_coverage()@.2 == ratio_sums(items, items.len() as int).2
}

/// `r` is what summarizing the items of a group named `definition` at
/// `instance` gives, with these identity facts.
pub open spec fn summary_outcome(
    r: Result<CoverageGroupSummary, CoverageGroupError>,
    definition: Seq<char>,
    instance: Seq<char>,
    items: Seq<CoverageItemRef>,
    dup: Seq<bool>,
    left_found: Seq<bool>,
    right_found: Seq<bool>,
) -> bool {
    if !group_structure_ok(items, dup, left_found, right_found) {
        r matches Err(e) && group_structure_error(
            e,
            definition,
            instance,
            items,
            dup,
            left_found,
            right_found,
        )
    } else {
        match group_sum_overflow(items, 0) {
            Some(c) => r matches Err(CoverageGroupError::CountOverflow { definition: d, instance: p, counter })
                && d@ == definition && p@ == instance && counter == c,
            None => r matches Ok(s) && summary_of_items(s, items),
        }
    }
}

/// `r` is what summarizing group `id` with items `items` gives, for some
/// answer to which coverpoint instances are the same.
pub open spec fn group_summary_outcome(
    r: Result<CoverageGroupSummary, CoverageGroupError>,
    id: CoverageGroupInstance,
    items: Seq<CoverageItemRef>,
) -> bool {
    exists|dup: Seq<bool>, left_found: Seq<bool>, right_found: Seq<bool>|
        #[trigger] facts_fit(items, dup, left_found, right_found) && summary_outcome(
            r,
            id.spec_definition_name(),
            id.spec_instance_path(),
            items,
            dup,
            left_found,
            right_found,
        )
}

/// `r` is what validating group `id` with items `items` gives, for some
/// answer to which coverpoint instances are the same.
pub open spec fn group_validation_outcome(
    r: Result<(), CoverageGroupError>,
    id: CoverageGroupInstance,
    items: Seq<CoverageItemRef>,
) -> bool {
    exists|dup: Seq<bool>, left_found: Seq<bool>, right_found: Seq<bool>|
        #[trigger] facts_fit(items, dup, left_found, right_found) && validation_outcome(
            r,
            id.spec_definition_name(),
            id.spec_instance_path(),
            items,
            dup,
            left_found,
            right_found,
        )
}

/// For the same answer to which coverpoint instances are the same,
/// summarizing a group fails with validation's error when validation fails;
/// when validation succeeds it fails only on a counter overflow, and
/// otherwise gives the group's item counts and summed coverage.
pub proof fn lemma_summary_agrees_with_validation(
    v: Result<(), CoverageGroupError>,
    s: Result<CoverageGroupSummary, CoverageGroupError>,
    definition: Seq<char>,
    instance: Seq<char>,
    items: Seq<CoverageItemRef>,
    dup: Seq<bool>,
    left_found: Seq<bool>,
    right_found: Seq<bool>,
)
    requires
        validation_outcome(v, definition, instance, items, dup, left_found, right_found),
        summary_outcome(s, definition, instance, items, dup, left_found, right_found),
    ensures
        v matches Err(e) ==> (s matches Err(f) && group_structure_error(
            f,
            definition,
            instance,
            items,
            dup,
            left_found,
            right_found,
        ) && group_structure_error(e, definition, instance, items, dup, left_found, right_found)),
        v is Ok && group_sum_overflow(items, 0) is None ==> (s matches Ok(x) && summary_of_items(
            x,
            items,
        ) && x.spec_items() == x.spec_coverpoints() + x.spec_crosses()),
        v is Ok && group_sum_overflow(items, 0) is Some ==> s is Err,
{
    if v is Ok && group_sum_overflow(items, 0) is None {
        lemma_kind_counts(items, items.len() as int);
    }
}

/// Every item is a coverpoint or a cross.
proof fn lemma_kind_counts(items: Seq<CoverageItemRef>, n: int)
    requires
        0 <= n <= items.len(),
    ensures
        count_items_of_kind(items, n, CoverageItemKind::Coverpoint) + count_items_of_kind(
            items,
            n,
            CoverageItemKind::Cross2,
        ) == n,
    decreases n,
{
    if n > 0 {
        lemma_kind_counts(items, n - 1);
    }
}

/// Validates a group's items, given the identity facts about them.
pub fn validate_items(
    definition: &str,
    instance: &str,
    items: &[CoverageItemRef],
    dup: &[bool],
    left_found: &[bool],
    right_found: &[bool],
) -> (r: Result<(), CoverageGroupError>)
    requires
        dup@.len() == items@.len(),
        left_found@.len() == items@.len(),
        right_found@.len() == items@.len(),
    ensures
        validation_outcome(r, definition@, instance@, items@, dup@, left_found@, right_found@),
{
    let n = items.len();
    let mut i: usize = 0;
    while i < n
        invariant
            n == items@.len(),
            dup@.len() == n,
            i <= n,
            first_structure_error(items@, dup@, 0) == first_structure_error(items@, dup@, i as int),
        decreases n - i,
    {
        let mut j: usize = 0;
        let mut seen = false;
        while j < i
            invariant
                i < n,
                n == items@.len(),
                j <= i,
                seen == exists|q: int| 0 <= q < j && item_name_at(items@, q) == item_name_at(items@, i as int),
            decreases i - j,
        {
            if str_eq(items[j].name(), items[i].name()) {
                seen = true;
                assert(item_name_at(items@, j as int) == item_name_at(items@, i as int));
            } else {
                assert(item_name_at(items@, j as int) != item_name_at(items@, i as int));
            }
            j = j + 1;
        }
        if seen {
            return Err(
                CoverageGroupError::DuplicateItemName {
                    definition: String::from_str(definition),
                    instance: String::from_str(instance),
                    item: String::from_str(items[i].name()),
                },
            );
        }
        if items[i].kind() == CoverageItemKind::Coverpoint && dup[i] {
            return Err(
                CoverageGroupError::DuplicateCoverpoint {
                    definition: String::from_str(definition),
                    instance: String::from_str(instance),
                    coverpoint: String::from_str(items[i].name()),
                },
            );
        }
        i = i + 1;
    }
    if n == 0 {
        return Err(
            CoverageGroupError::EmptyGroup {
                definition: String::from_str(definition),
                instance: String::from_str(instance),
            },
        );
    }
    let mut i: usize = 0;
    while i < n
        invariant
            n == items@.len(),
            left_found@.len() == n,
            right_found@.len() == n,
            i <= n,
            first_structure_error(items@, dup@, 0) is None,
            first_missing_source(items@, left_found@, right_found@, 0) == first_missing_source(
                items@,
                left_found@,
                right_found@,
                i as int,
            ),
        decreases n - i,
    {
        if items[i].kind() == CoverageItemKind::Cross2 {
            let axis = if !left_found[i] {
                Some(CrossAxis::Left)
            } else if !right_found[i] {
                Some(CrossAxis::Right)
            } else {
                None
            };
            match axis {
                Some(a) => {
                    let snapshot = items[i].snapshot_ref();
                    let coverpoint = match snapshot {
                        CoverageItemSnapshot::Cross2(c) => if a == CrossAxis::Left {
                            String::from_str(c.left_coverpoint_name())
                        } else {
                            String::from_str(c.right_coverpoint_name())
                        },
                        CoverageItemSnapshot::Coverpoint(_) => String::new(),
                    };
                    return Err(
                        CoverageGroupError::MissingCrossSource {
                            definition: String::from_str(definition),
                            instance: String::from_str(instance),
                            cross: String::from_str(items[i].name()),
                            axis: a,
                            coverpoint,
                        },
                    );
                },
                None => {},
            }
        }
        i = i + 1;
    }
    Ok(())
}

/// Summarises a group's items, given the identity facts about them.
pub fn summarize_items(
    definition: &str,
    instance: &str,
    items: &[CoverageItemRef],
    dup: &[bool],
    left_found: &[bool],
    right_found: &[bool],
) -> (r: Result<CoverageGroupSummary, CoverageGroupError>)
    requires
        dup@.len() == items@.len(),
        left_found@.len() == items@.len(),
        right_found@.len() == items@.len(),
    ensures
        summary_outcome(r, definition@, instance@, items@, dup@, left_found@, right_found@),
{
    match validate_items(definition, instance, items, dup, left_found, right_found) {
        Ok(()) => {},
        Err(e) => {
            return Err(e);
        },
    }
    let n = items.len();
    let mut coverpoints: usize = 0;
    let mut crosses: usize = 0;
    let mut covered: usize = 0;
    let mut uncovered: usize = 0;
    let mut total: usize = 0;
    let mut i: usize = 0;
    while i < n
        invariant
            n == items@.len(),
            i <= n,
            coverpoints == count_items_of_kind(items@, i as int, CoverageItemKind::Coverpoint),
            crosses == count_items_of_kind(items@, i as int, CoverageItemKind::Cross2),
            coverpoints + crosses == i,
            covered == ratio_sums(items@, i as int).0,
            uncovered == ratio_sums(items@, i as int).1,
            total == ratio_sums(items@, i as int).2,
            group_sum_overflow(items@, 0) == group_sum_overflow(items@, i as int),
            group_structure_ok(items@, dup@, left_found@, right_found@),
        decreases n - i,
    {
        if items[i].kind() == CoverageItemKind::Coverpoint {
            coverpoints = coverpoints + 1;
        } else {
            crosses = crosses + 1;
        }
        let ratio = items[i].coverage();
        let c = covered.checked_add(ratio.covered());
        let u = uncovered.checked_add(ratio.uncovered());
        let t = total.checked_add(ratio.total());
        let counter = if c.is_none() {
            Some(CoverageGroupCountKind::CoveredBins)
        } else if u.is_none() {
            Some(CoverageGroupCountKind::UncoveredBins)
        } else if t.is_none() {
            Some(CoverageGroupCountKind::TotalBins)
        } else {
            None
        };
        match counter {
            Some(k) => {
                return Err(
                    CoverageGroupError::CountOverflow {
                        definition: String::from_str(definition),
                        instance: String::from_str(instance),
                        counter: k,
                    },
                );
            },
            None => {},
        }
        covered = c.unwrap();
        uncovered = u.unwrap();
        total = t.unwrap();
        i = i + 1;
    }
    Ok(
        CoverageGroupSummary {
            items: n,
            coverpoints,
            crosses,
            coverage: CoverageRatio::new(covered, uncovered, total),
        },
    )
}

/// Computes, for each item, whether it is a coverpoint that an earlier item
/// already exposed, and whether the source coverpoints of each cross are
/// exposed by the group.
pub fn identity_facts(items: &[CoverageItemRef]) -> (r: (Vec<bool>, Vec<bool>, Vec<bool>))
    ensures
        facts_fit(items@, r.0@, r.1@, r.2@),
{
    let n = items.len();
    let mut dup: Vec<bool> = Vec::new();
    let mut left: Vec<bool> = Vec::new();
    let mut right: Vec<bool> = Vec::new();
    let mut i: usize = 0;
    while i < n
        invariant
            n == items@.len(),
            i <= n,
            dup@.len() == i,
            left@.len() == i,
            right@.len() == i,
            forall|t: int|
                0 <= t < i && #[trigger] dup@[t] ==> exposes_point(items@, t) && exists|q: int|
                    0 <= q < t && #[trigger] exposes_point(items@, q),
            forall|t: int|
                0 <= t < i && #[trigger] left@[t] ==> item_kind_at(items@, t)
                    == CoverageItemKind::Cross2 && items@[t].spec_sources().len() > 0 && exists|q: int|
                    0 <= q < n && #[trigger] exposes_point(items@, q),
            forall|t: int|
                0 <= t < i && #[trigger] right@[t] ==> item_kind_at(items@, t)
                    == CoverageItemKind::Cross2 && items@[t].spec_sources().len() > 1 && exists|q: int|
                    0 <= q < n && #[trigger] exposes_point(items@, q),
        decreases n - i,
    {
        let is_point = items[i].kind() == CoverageItemKind::Coverpoint;
        let own = items[i].sources();
        let mut d = false;
        let mut lf = false;
        let mut rf = false;
        let mut j: usize = 0;
        while j < n
            invariant
                n == items@.len(),
                i < n,
                j <= n,
                own@ == items@[i as int].spec_sources(),
                is_point == (item_kind_at(items@, i as int) == CoverageItemKind::Coverpoint),
                d ==> is_point && own@.len() > 0 && exists|q: int|
                    0 <= q < i && #[trigger] exposes_point(items@, q),
                lf ==> !is_point && own@.len() > 0 && exists|q: int|
                    0 <= q < n && #[trigger] exposes_point(items@, q),
                rf ==> !is_point && own@.len() > 1 && exists|q: int|
                    0 <= q < n && #[trigger] exposes_point(items@, q),
            decreases n - j,
        {
            if items[j].kind() == CoverageItemKind::Coverpoint {
                let other = items[j].sources();
                if other.len() > 0 && own.len() > 0 {
                    assert(exposes_point(items@, j as int));
                    if is_point && j < i && same_source(&other[0], &own[0]) {
                        d = true;
                    }
                    if !is_point && same_source(&other[0], &own[0]) {
                        lf = true;
                    }
                    if !is_point && own.len() > 1 && same_source(&other[0], &own[1]) {
                        rf = true;
                    }
                }
            }
            j = j + 1;
        }
        proof {
            if !is_point {
                assert(item_kind_at(items@, i as int) == CoverageItemKind::Cross2) by {
                    match items@[i as int].spec_snapshot() {
                        CoverageItemSnapshot::Coverpoint(_) => {},
                        CoverageItemSnapshot::Cross2(_) => {},
                    }
                }
            }
        }
        dup.push(d);
        left.push(lf);
        right.push(rf);
        i = i + 1;
    }
    (dup, left, right)
}

/// Gathers the items that a group visits, in order.
pub struct ItemCollector {
    /// Items received so far.
    pub items: Vec<CoverageItemRef>,
}

impl CoverageGroupVisitor for ItemCollector {
    open spec fn spec_received(&self) -> Seq<CoverageItemRef> {
        self.items@
    }

    fn visit(&mut self, item: CoverageItemRef) {
        self.items.push(item);
    }
}

/// Collects the items of one group in visitation order.
pub fn collect_items<G: CoverageGroup>(group: &G) -> (r: Vec<CoverageItemRef>)
    ensures
        r@ == group.spec_group_items(),
{
    let mut collector = ItemCollector { items: Vec::new() };
    group.visit_items(&mut collector);
    assert(collector.items@ =~= group.spec_group_items());
    collector.items
}

/// Validates one group definition.
pub fn validate_group<G: CoverageGroup>(group: &G) -> (r: Result<(), CoverageGroupError>)
    ensures
        group_validation_outcome(r, group.spec_group_instance(), group.spec_group_items()),
{
    let items = collect_items(group);
    let (dup, left, right) = identity_facts(items.as_slice());
    let instance = group.instance();
    let r = validate_items(
        instance.definition_name(),
        instance.instance_path(),
        items.as_slice(),
        dup.as_slice(),
        left.as_slice(),
        right.as_slice(),
    );
    assert(facts_fit(items@, dup@, left@, right@));
    r
}

/// Computes one checked aggregate group summary.
pub fn summarize_group<G: CoverageGroup>(group: &G) -> (r: Result<
    CoverageGroupSummary,
    CoverageGroupError,
>)
    ensures
        group_summary_outcome(r, group.spec_group_instance(), group.spec_group_items()),
{
    let items = collect_items(group);
    let (dup, left, right) = identity_facts(items.as_slice());
    let instance = group.instance();
    let r = summarize_items(
        instance.definition_name(),
        instance.instance_path(),
        items.as_slice(),
        dup.as_slice(),
        left.as_slice(),
        right.as_slice(),
    );
    assert(facts_fit(items@, dup@, left@, right@));
    r
}

/// Returns raw aggregate bin coverage of one group.
pub fn group_coverage<G: CoverageGroup>(group: &G) -> (r: Result<CoverageRatio, CoverageGroupError>)
    ensures
        exists|s: Result<CoverageGroupSummary, CoverageGroupError>|
            #[trigger] group_summary_outcome(s, group.spec_group_instance(), group.spec_group_items())
                && match s {
                Ok(x) => r == Ok::<CoverageRatio, CoverageGroupError>(x.spec_coverage()),
                Err(e) => r == Err::<CoverageRatio, CoverageGroupError>(e),
            },
{
    let s = summarize_group(group);
    match s {
        Ok(x) => Ok(x.coverage()),
        Err(e) => Err(e),
    }
}

/// `snap` is the snapshot of group `id` with items `items` and summary `summary`.
pub open spec fn group_snapshot_of(
    snap: CoverageGroupSnapshot,
    id: CoverageGroupInstance,
    items: Seq<CoverageItemRef>,
    summary: CoverageGroupSummary,
) -> bool {
    &&& snap.spec_definition_name() == id.spec_definition_name()
    &&& snap.spec_revision() == id.spec_revision()
    &&& snap.spec_instance_path() == id.spec_instance_path()
    &&& snap.spec_items() == items.map_values(|i: CoverageItemRef| i.spec_snapshot())
    &&& snap.spec_summary() == summary
}

/// `r` is what capturing group `id` with items `items` gives, for some
/// answer to which coverpoint instances are the same: the summary's error,
/// or the snapshot of the items with their summary.
pub open spec fn group_capture_outcome(
    r: Result<CoverageGroupSnapshot, CoverageGroupError>,
    id: CoverageGroupInstance,
    items: Seq<CoverageItemRef>,
) -> bool {
    exists|s: Result<CoverageGroupSummary, CoverageGroupError>|
        #[trigger] group_summary_outcome(s, id, items) && match s {
            Ok(summary) => r matches Ok(snap) && group_snapshot_of(snap, id, items, summary),
            Err(e) => r == Err::<CoverageGroupSnapshot, CoverageGroupError>(e),
        }
}

/// Captures one validated group into an owned snapshot.
pub fn capture_group<G: CoverageGroup>(group: &G) -> (r: Result<
    CoverageGroupSnapshot,
    CoverageGroupError,
>)
    ensures
        group_capture_outcome(r, group.spec_group_instance(), group.spec_group_items()),
        r matches Ok(s) ==> {
            &&& s.spec_summary().spec_items() == s.spec_items().len()
        },
{
    let items = collect_items(group);
    let (dup, left, right) = identity_facts(items.as_slice());
    let instance = group.instance();
    let summarized = summarize_items(
        instance.definition_name(),
        instance.instance_path(),
        items.as_slice(),
        dup.as_slice(),
        left.as_slice(),
        right.as_slice(),
    );
    assert(facts_fit(items@, dup@, left@, right@));
    assert(group_summary_outcome(summarized, *instance, items@));
    let summary = match summarized {
        Ok(s) => s,
        Err(e) => {
            return Err(e);
        },
    };
    let ghost orig = items@;
    let n = items.len();
    let mut snapshots: Vec<CoverageItemSnapshot> = Vec::new();
    let mut items = items;
    let mut rest: Vec<CoverageItemRef> = Vec::new();
    while items.len() > 0
        invariant
            n == orig.len(),
            items@ == orig.take(items@.len() as int),
            rest@.len() + items@.len() == n,
            forall|k: int| 0 <= k < rest@.len() ==> #[trigger] rest@[k] == orig[n - 1 - k],
        decreases items@.len(),
    {
        let item = items.pop().unwrap();
        rest.push(item);
    }
    while rest.len() > 0
        invariant
            n == orig.len(),
            snapshots@.len() + rest@.len() == n,
            forall|k: int| 0 <= k < rest@.len() ==> #[trigger] rest@[k] == orig[n - 1 - k],
            forall|k: int|
                0 <= k < snapshots@.len() ==> #[trigger] snapshots@[k] == orig[k].spec_snapshot(),
        decreases rest@.len(),
    {
        let item = rest.pop().unwrap();
        snapshots.push(item.snapshot());
    }
    let snap = CoverageGroupSnapshot::from_parts(
        instance.definition_name(),
        instance.definition_revision(),
        instance.instance_path(),
        snapshots,
        summary,
    );
    assert(snap.spec_items() =~= orig.map_values(|i: CoverageItemRef| i.spec_snapshot()));
    assert(group_snapshot_of(snap, *instance, orig, summary));
    Ok(snap)
}

} // verus!

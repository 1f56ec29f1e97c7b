use std::sync::Arc;

use vstd::prelude::*;

use crate::coverage::coverpoint::Coverpoint;
use crate::coverage::cross::Cross2;
use crate::coverage::ratio::CoverageRatio;
use crate::coverage::snapshot::{
    item_snapshot_coverage, item_snapshot_name, item_snapshot_samples, CoverageItemSnapshot,
    CoverpointSnapshot, Cross2Snapshot,
};

verus! {

/// Kind of one item exposed by a coverage group.
#[derive(Debug, Clone, Copy, PartialEq, Eq, Hash, Structural)]
pub enum CoverageItemKind {
    /// Typed functional coverpoint.
    Coverpoint,
    /// Complete two-way cross.
    Cross2,
}

/// Lowercase name of an item kind.
pub open spec fn item_kind_text(kind: CoverageItemKind) -> Seq<char> {
    match kind {
        CoverageItemKind::Coverpoint => "coverpoint"@,
        CoverageItemKind::Cross2 => "cross"@,
    }
}

/// Kind of an item snapshot.
pub open spec fn item_kind_of(s: CoverageItemSnapshot) -> CoverageItemKind {
    match s {
        CoverageItemSnapshot::Coverpoint(_) => CoverageItemKind::Coverpoint,
        CoverageItemSnapshot::Cross2(_) => CoverageItemKind::Cross2,
    }
}

impl CoverageItemKind {
    /// Returns the lowercase name of the kind.
    pub fn text(self) -> (r: &'static str)
        ensures
            r@ == item_kind_text(self),
    {
        match self {
            CoverageItemKind::Coverpoint => "coverpoint",
            CoverageItemKind::Cross2 => "cross",
        }
    }
}

/// Read-only view of one supported coverage item: its captured state and
/// the identities of the coverpoints it stands on.
pub struct CoverageItemRef {
    snapshot: CoverageItemSnapshot,
    sources: Vec<Arc<str>>,
}

impl CoverageItemRef {
    /// Captured state of the item.
    pub closed spec fn spec_snapshot(&self) -> CoverageItemSnapshot {
        self.snapshot
    }

    /// Source identities: the coverpoint's own, or a cross's left and right.
    pub closed spec fn spec_sources(&self) -> Seq<Arc<str>> {
        self.sources@
    }

    /// A coverpoint carries one identity, a cross two.
    pub open spec fn wf(&self) -> bool {
        match self.spec_snapshot() {
            CoverageItemSnapshot::Coverpoint(_) => self.spec_sources().len() == 1,
            CoverageItemSnapshot::Cross2(_) => self.spec_sources().len() == 2,
        }
    }

    /// Creates a read-only item view over a typed coverpoint.
    pub fn coverpoint<T>(coverpoint: &Coverpoint<T>) -> (r: Self)
        ensures
            r.wf(),
            r.spec_snapshot() matches CoverageItemSnapshot::Coverpoint(p) && p.spec_name()
                == coverpoint.spec_name(),
            r.spec_sources() == seq![coverpoint.spec_source()],
    {
        let snapshot = CoverpointSnapshot::capture(coverpoint);
        let mut sources: Vec<Arc<str>> = Vec::new();
        sources.push(coverpoint.source_identity().clone());
        CoverageItemRef { snapshot: CoverageItemSnapshot::Coverpoint(snapshot), sources }
    }

    /// Creates a read-only item view over a two-way cross.
    pub fn cross2(cross: &Cross2) -> (r: Self)
        ensures
            r.wf(),
            r.spec_snapshot() matches CoverageItemSnapshot::Cross2(c) && c.spec_name()
                == cross.spec_name() && c.spec_axis_names() == (
                cross.spec_left_name(),
                cross.spec_right_name(),
            ),
            r.spec_sources() == seq![cross.spec_left_source(), cross.spec_right_source()],
    {
        let snapshot = Cross2Snapshot::capture(cross);
        let mut sources: Vec<Arc<str>> = Vec::new();
        sources.push(cross.left_source_identity().clone());
        sources.push(cross.right_source_identity().clone());
        CoverageItemRef { snapshot: CoverageItemSnapshot::Cross2(snapshot), sources }
    }

    /// Returns the item kind.
    pub fn kind(&self) -> (r: CoverageItemKind)
        ensures
            r == item_kind_of(self.spec_snapshot()),
    {
        self.snapshot.kind()
    }

    /// Returns the item name.
    pub fn name(&self) -> (r: &str)
        ensures
            r@ == item_snapshot_name(self.spec_snapshot()),
    {
        self.snapshot.name()
    }

    /// Returns exact bin coverage.
    pub fn coverage(&self) -> (r: CoverageRatio)
        ensures
            r == item_snapshot_coverage(self.spec_snapshot()),
    {
        self.snapshot.coverage()
    }

    /// Returns the item's sample-call count.
    pub fn sample_count(&self) -> (r: u64)
        ensures
            r == item_snapshot_samples(self.spec_snapshot()),
    {
        self.snapshot.sample_count()
    }

    /// Returns the source identities the item stands on.
    pub fn sources(&self) -> (r: &[Arc<str>])
        ensures
            r@ == self.spec_sources(),
    {
        self.sources.as_slice()
    }

    /// Returns the captured state.
    pub fn snapshot_ref(&self) -> (r: &CoverageItemSnapshot)
        ensures
            *r == self.spec_snapshot(),
    {
        &self.snapshot
    }

    /// Turns the view into its captured state.
    pub fn snapshot(self) -> (r: CoverageItemSnapshot)
        ensures
            r == self.spec_snapshot(),
    {
        self.snapshot
    }
}

} // verus!

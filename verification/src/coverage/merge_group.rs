use vstd::prelude::*;
use vstd::string::*;

use crate::coverage::artifact::CoverageArtifactGroup;
use crate::coverage::fingerprint::{
    definition_bytes, enc_cross_bins, enc_item, enc_items, enc_point_bins, sha256,
    CoverageDefinitionFingerprint,
};
use crate::coverage::group::CoverageGroupSummary;
use crate::coverage::item::{item_kind_of, CoverageItemKind};
use crate::coverage::merge::{
    compare_group_structure, first_item_issue, group_issue, is_structure_error, item_issue,
    ratio_sum_overflow, ratio_sums_of, ratio_views, sum_ratios,
};
use crate::coverage::merge_counters::{
    is_counter_overflow, item_merged, item_overflow, merge_item, merged_item_ratio,
};
use crate::coverage::merge_error::CoverageMergeError;
use crate::coverage::ratio::CoverageRatio;
use crate::coverage::snapshot::{
    bin_views, cross_bin_views, item_snapshot_coverage, item_snapshot_name, CoverageGroupSnapshot,
    CoverageItemSnapshot, CoverpointBinSnapshot, CrossBinSnapshot,
};
use crate::coverage::merge_counters::{merged_cross_bins, merged_point_bins, point_merged};
use crate::coverage::snapshot::CoverpointSnapshot;
use crate::text::str_eq;

verus! {

/// Number of items of one kind among the first `n` snapshots.
pub open spec fn count_snapshot_kind(items: Seq<CoverageItemSnapshot>, n: int, kind: CoverageItemKind) -> nat
    decreases n,
{
    if n <= 0 {
        0
    } else {
        count_snapshot_kind(items, n - 1, kind) + if item_kind_of(items[n - 1]) == kind {
            1nat
        } else {
            0nat
        }
    }
}

/// Coverage views of a sequence of item snapshots.
pub open spec fn item_ratio_views(items: Seq<CoverageItemSnapshot>) -> Seq<(usize, usize, usize)> {
    items.map_values(|i: CoverageItemSnapshot| item_snapshot_coverage(i)@)
}

/// `s` summarizes `items` whose coverages are `ratios`.
pub open spec fn summarizes(
    s: CoverageGroupSummary,
    items: Seq<CoverageItemSnapshot>,
    ratios: Seq<(usize, usize, usize)>,
) -> bool {
    &&& s.spec_items() == items.len()
    &&& s.spec_coverpoints() == count_snapshot_kind(
        items,
        items.len() as int,
        CoverageItemKind::Coverpoint,
    )
    &&& s.spec_crosses() == count_snapshot_kind(items, items.len() as int, CoverageItemKind::Cross2)
    &&& s.spec_coverage()@.0 == ratio_sums_of(ratios, ratios.len() as int).0
    &&& s.spec_coverage()@.1 == ratio_sums_of(ratios, ratios.len() as int).1
    &&& s.spec_coverage()@.2 == ratio_sums_of(ratios, ratios.len() as int).2
}

/// Recomputes a group summary from its items, with checked bin counts.
pub fn group_summary(items: &[CoverageItemSnapshot]) -> (r: Result<CoverageGroupSummary, CoverageMergeError>)
    ensures
        match ratio_sum_overflow(item_ratio_views(items@), 0) {
            Some(k) => r == Err::<CoverageGroupSummary, CoverageMergeError>(
                CoverageMergeError::CountOverflow { counter: k },
            ),
            None => r matches Ok(s) && summarizes(s, items@, item_ratio_views(items@)),
        },
{
    let mut coverpoints: usize = 0;
    let mut crosses: usize = 0;
    let mut covs: Vec<CoverageRatio> = Vec::new();
    let mut i: usize = 0;
    while i < items.len()
        invariant
            i <= items@.len(),
            coverpoints == count_snapshot_kind(items@, i as int, CoverageItemKind::Coverpoint),
            crosses == count_snapshot_kind(items@, i as int, CoverageItemKind::Cross2),
            coverpoints + crosses == i,
            ratio_views(covs@) == item_ratio_views(items@).take(i as int),
        decreases items@.len() - i,
    {
        let it = &items[i];
        if it.kind() == CoverageItemKind::Coverpoint {
            coverpoints = coverpoints + 1;
        } else {
            crosses = crosses + 1;
        }
        let c = it.coverage();
        let ghost before = covs@;
        covs.push(c);
        proof {
            assert(ratio_views(covs@) =~= ratio_views(before).push(c@));
            assert(item_ratio_views(items@).take(i + 1) =~= item_ratio_views(items@).take(
                i as int,
            ).push(c@));
        }
        i = i + 1;
    }
    proof {
        assert(item_ratio_views(items@).take(items@.len() as int) =~= item_ratio_views(items@));
    }
    match sum_ratios(covs.as_slice()) {
        Ok(coverage) => Ok(CoverageGroupSummary::from_parts(items.len(), coverpoints, crosses, coverage)),
        Err(e) => Err(e),
    }
}

/// Two groups disagree on definition name, revision or fingerprint.
pub open spec fn definitions_incompatible(e: CoverageArtifactGroup, n: CoverageArtifactGroup) -> bool {
    ||| e.spec_snapshot().spec_definition_name() != n.spec_snapshot().spec_definition_name()
    ||| e.spec_snapshot().spec_revision() != n.spec_snapshot().spec_revision()
    ||| e.spec_fingerprint()@ != n.spec_fingerprint()@
}

/// Error `err` reports that groups `e` (from test `et`) and `n` (from test
/// `nt`) define one instance incompatibly.
pub open spec fn is_incompatible_error(
    err: CoverageMergeError,
    e: CoverageArtifactGroup,
    n: CoverageArtifactGroup,
    et: Seq<char>,
    nt: Seq<char>,
) -> bool {
    err matches CoverageMergeError::IncompatibleDefinition {
        instance_path,
        existing_test,
        incoming_test,
        existing_definition,
        incoming_definition,
        existing_revision,
        incoming_revision,
        existing_fingerprint,
        incoming_fingerprint,
    } && instance_path@ == e.spec_snapshot().spec_instance_path() && existing_test@ == et
        && incoming_test@ == nt && existing_definition@ == e.spec_snapshot().spec_definition_name()
        && incoming_definition@ == n.spec_snapshot().spec_definition_name() && existing_revision
        == e.spec_snapshot().spec_revision() && incoming_revision == n.spec_snapshot().spec_revision()
        && existing_fingerprint == e.spec_fingerprint() && incoming_fingerprint
        == n.spec_fingerprint()
}

/// First counter overflow, item by item from index `i`: counter, item name and bin.
pub open spec fn first_item_overflow(
    ls: Seq<CoverageItemSnapshot>,
    rs: Seq<CoverageItemSnapshot>,
    i: int,
) -> Option<(crate::coverage::merge_error::CoverageMergeCounterKind, Seq<char>, Option<Seq<char>>)>
    decreases ls.len() - i,
{
    if i < 0 || i >= ls.len() {
        None
    } else {
        match item_overflow(ls[i], rs[i]) {
            Some((c, b)) => Some((c, item_snapshot_name(ls[i]), b)),
            None => first_item_overflow(ls, rs, i + 1),
        }
    }
}

/// Coverages of items merged pairwise.
pub open spec fn merged_ratio_views(ls: Seq<CoverageItemSnapshot>, rs: Seq<CoverageItemSnapshot>) -> Seq<
    (usize, usize, usize),
> {
    Seq::new(ls.len(), |k: int| merged_item_ratio(ls[k], rs[k]))
}

/// `g` is the merge of groups `e` and `n`: the definition of `e` with the
/// counters of both, its summary recomputed.
pub open spec fn group_merged(g: CoverageArtifactGroup, e: CoverageArtifactGroup, n: CoverageArtifactGroup) -> bool {
    let gs = g.spec_snapshot();
    let es = e.spec_snapshot();
    let ns = n.spec_snapshot();
    &&& g.spec_fingerprint() == e.spec_fingerprint()
    &&& gs.spec_definition_name() == es.spec_definition_name()
    &&& gs.spec_revision() == es.spec_revision()
    &&& gs.spec_instance_path() == es.spec_instance_path()
    &&& gs.spec_items().len() == es.spec_items().len()
    &&& forall|k: int|
        0 <= k < es.spec_items().len() ==> #[trigger] item_merged(
            gs.spec_items()[k],
            es.spec_items()[k],
            ns.spec_items()[k],
        )
    &&& summarizes(
        gs.spec_summary(),
        es.spec_items(),
        merged_ratio_views(es.spec_items(), ns.spec_items()),
    )
}

proof fn lemma_no_item_issue(ls: Seq<CoverageItemSnapshot>, rs: Seq<CoverageItemSnapshot>, i: int)
    requires
        0 <= i,
        first_item_issue(ls, rs, i) is None,
    ensures
        forall|k: int| i <= k < ls.len() ==> #[trigger] item_issue(ls[k], rs[k], k as nat) is None,
    decreases ls.len() - i,
{
    if i < ls.len() {
        lemma_no_item_issue(ls, rs, i + 1);
    }
}

proof fn lemma_enc_point_bins(
    p: Seq<CoverpointBinSnapshot>,
    a: Seq<CoverpointBinSnapshot>,
    b: Seq<CoverpointBinSnapshot>,
    n: int,
)
    requires
        a.len() == b.len(),
        bin_views(p) == merged_point_bins(a, b),
        0 <= n <= a.len(),
    ensures
        enc_point_bins(p, n) == enc_point_bins(a, n),
    decreases n,
{
    if n > 0 {
        lemma_enc_point_bins(p, a, b, n - 1);
        assert(bin_views(p).len() == p.len());
        assert(merged_point_bins(a, b).len() == a.len());
        assert(p[n - 1]@ == bin_views(p)[n - 1]);
    }
}

proof fn lemma_enc_cross_bins(
    p: Seq<CrossBinSnapshot>,
    a: Seq<CrossBinSnapshot>,
    b: Seq<CrossBinSnapshot>,
    n: int,
)
    requires
        a.len() == b.len(),
        cross_bin_views(p) == merged_cross_bins(a, b),
        0 <= n <= a.len(),
    ensures
        enc_cross_bins(p, n) == enc_cross_bins(a, n),
    decreases n,
{
    if n > 0 {
        lemma_enc_cross_bins(p, a, b, n - 1);
        assert(cross_bin_views(p).len() == p.len());
        assert(merged_cross_bins(a, b).len() == a.len());
        assert(p[n - 1]@ == cross_bin_views(p)[n - 1]);
    }
}

proof fn lemma_enc_item(m: CoverageItemSnapshot, l: CoverageItemSnapshot, r: CoverageItemSnapshot, k: nat)
    requires
        item_merged(m, l, r),
        item_issue(l, r, k) is None,
    ensures
        enc_item(m) == enc_item(l),
        item_kind_of(m) == item_kind_of(l),
        item_snapshot_coverage(m)@ == merged_item_ratio(l, r),
{
    match (m, l, r) {
        (
            CoverageItemSnapshot::Coverpoint(p),
            CoverageItemSnapshot::Coverpoint(a),
            CoverageItemSnapshot::Coverpoint(b),
        ) => {
            assert(bin_views(p.spec_bins()).len() == p.spec_bins().len());
            lemma_enc_point_bins(p.spec_bins(), a.spec_bins(), b.spec_bins(), a.spec_bins().len() as int);
        },
        (
            CoverageItemSnapshot::Cross2(p),
            CoverageItemSnapshot::Cross2(a),
            CoverageItemSnapshot::Cross2(b),
        ) => {
            assert(cross_bin_views(p.spec_bins()).len() == p.spec_bins().len());
            lemma_enc_cross_bins(p.spec_bins(), a.spec_bins(), b.spec_bins(), a.spec_bins().len() as int);
        },
        _ => {},
    }
}

proof fn lemma_merged_items(
    ms: Seq<CoverageItemSnapshot>,
    ls: Seq<CoverageItemSnapshot>,
    rs: Seq<CoverageItemSnapshot>,
    n: int,
)
    requires
        0 <= n <= ls.len(),
        ms.len() == ls.len(),
        forall|k: int| 0 <= k < ls.len() ==> #[trigger] item_merged(ms[k], ls[k], rs[k]),
        forall|k: int| 0 <= k < ls.len() ==> #[trigger] item_issue(ls[k], rs[k], k as nat) is None,
    ensures
        enc_items(ms, n) == enc_items(ls, n),
        count_snapshot_kind(ms, n, CoverageItemKind::Coverpoint) == count_snapshot_kind(
            ls,
            n,
            CoverageItemKind::Coverpoint,
        ),
        count_snapshot_kind(ms, n, CoverageItemKind::Cross2) == count_snapshot_kind(
            ls,
            n,
            CoverageItemKind::Cross2,
        ),
    decreases n,
{
    if n > 0 {
        lemma_merged_items(ms, ls, rs, n - 1);
        assert(item_merged(ms[n - 1], ls[n - 1], rs[n - 1]));
        assert(item_issue(ls[n - 1], rs[n - 1], (n - 1) as nat) is None);
        lemma_enc_item(ms[n - 1], ls[n - 1], rs[n - 1], (n - 1) as nat);
    }
}

/// Merges two item lists of equal structure pairwise.
fn merge_item_lists(
    ei: &[CoverageItemSnapshot],
    ni: &[CoverageItemSnapshot],
    path: &str,
    fingerprint: CoverageDefinitionFingerprint,
) -> (r: Result<Vec<CoverageItemSnapshot>, CoverageMergeError>)
    requires
        ei@.len() == ni@.len(),
        forall|k: int| 0 <= k < ei@.len() ==> #[trigger] item_issue(ei@[k], ni@[k], k as nat) is None,
    ensures
        match first_item_overflow(ei@, ni@, 0) {
            Some((c, it, b)) => r matches Err(e) && is_counter_overflow(e, path@, it, b, c),
            None => r matches Ok(items) && items@.len() == ei@.len() && forall|k: int|
                0 <= k < ei@.len() ==> #[trigger] item_merged(items@[k], ei@[k], ni@[k]),
        },
{
    let mut items: Vec<CoverageItemSnapshot> = Vec::new();
    let mut i: usize = 0;
    while i < ei.len()
        invariant
            ei@.len() == ni@.len(),
            forall|k: int| 0 <= k < ei@.len() ==> #[trigger] item_issue(ei@[k], ni@[k], k as nat) is None,
            i <= ei@.len(),
            items@.len() == i,
            forall|k: int| 0 <= k < i ==> #[trigger] item_merged(items@[k], ei@[k], ni@[k]),
            first_item_overflow(ei@, ni@, 0) == first_item_overflow(ei@, ni@, i as int),
        decreases ei@.len() - i,
    {
        let ghost k = i as int;
        assert(item_issue(ei@[k], ni@[k], k as nat) is None);
        match merge_item(&ei[i], &ni[i], path, fingerprint) {
            Ok(m) => {
                items.push(m);
            },
            Err(e) => {
                return Err(e);
            },
        }
        i = i + 1;
    }
    Ok(items)
}

/// What merged items keep of the first list: definition bytes, kind counts
/// and pairwise-merged coverages.
proof fn lemma_merged_lists(
    ms: Seq<CoverageItemSnapshot>,
    ls: Seq<CoverageItemSnapshot>,
    rs: Seq<CoverageItemSnapshot>,
)
    requires
        ms.len() == ls.len(),
        forall|k: int| 0 <= k < ls.len() ==> #[trigger] item_merged(ms[k], ls[k], rs[k]),
        forall|k: int| 0 <= k < ls.len() ==> #[trigger] item_issue(ls[k], rs[k], k as nat) is None,
    ensures
        enc_items(ms, ms.len() as int) == enc_items(ls, ls.len() as int),
        count_snapshot_kind(ms, ms.len() as int, CoverageItemKind::Coverpoint) == count_snapshot_kind(
            ls,
            ls.len() as int,
            CoverageItemKind::Coverpoint,
        ),
        count_snapshot_kind(ms, ms.len() as int, CoverageItemKind::Cross2) == count_snapshot_kind(
            ls,
            ls.len() as int,
            CoverageItemKind::Cross2,
        ),
        item_ratio_views(ms) == merged_ratio_views(ls, rs),
{
    lemma_merged_items(ms, ls, rs, ls.len() as int);
    assert forall|k: int| 0 <= k < ls.len() implies item_ratio_views(ms)[k] == merged_ratio_views(
        ls,
        rs,
    )[k] by {
        assert(item_merged(ms[k], ls[k], rs[k]));
        assert(item_issue(ls[k], rs[k], k as nat) is None);
        lemma_enc_item(ms[k], ls[k], rs[k], k as nat);
    }
    assert(item_ratio_views(ms) =~= merged_ratio_views(ls, rs));
}

/// `r` is what merging group `n` into group `base` gives, `existing_test` and
/// `incoming_test` naming the tests they came from.
pub open spec fn merge_outcome(
    r: Result<CoverageArtifactGroup, CoverageMergeError>,
    base: CoverageArtifactGroup,
    n: CoverageArtifactGroup,
    existing_test: Seq<char>,
    incoming_test: Seq<char>,
) -> bool {
    &&& (definitions_incompatible(base, n) ==> (r matches Err(e)
        && is_incompatible_error(e, base, n, existing_test, incoming_test)))
    &&& (!definitions_incompatible(base, n) ==> match group_issue(
        base.spec_snapshot(),
        n.spec_snapshot(),
    ) {
        Some((p, q)) => r matches Err(e) && is_structure_error(
            e,
            base.spec_snapshot().spec_instance_path(),
            base.spec_fingerprint(),
            p,
            q,
        ),
        None => match first_item_overflow(
            base.spec_snapshot().spec_items(),
            n.spec_snapshot().spec_items(),
            0,
        ) {
            Some((c, it, b)) => r matches Err(e) && is_counter_overflow(
                e,
                base.spec_snapshot().spec_instance_path(),
                it,
                b,
                c,
            ),
            None => match ratio_sum_overflow(
                merged_ratio_views(
                    base.spec_snapshot().spec_items(),
                    n.spec_snapshot().spec_items(),
                ),
                0,
            ) {
                Some(k) => r == Err::<CoverageArtifactGroup, CoverageMergeError>(
                    CoverageMergeError::CountOverflow { counter: k },
                ),
                None => if sha256(definition_bytes(base.spec_snapshot()))
                    != base.spec_fingerprint()@ {
                    r matches Err(e) && is_structure_error(
                        e,
                        base.spec_snapshot().spec_instance_path(),
                        base.spec_fingerprint(),
                        "fingerprint"@,
                        "recomputed fingerprint changed while merging counters"@,
                    )
                } else {
                    r matches Ok(g) && group_merged(g, base, n)
                },
            },
        },
    })
}

/// Merges two groups that share an instance path: checks that their
/// definitions agree, sums their counters item by item, recomputes the
/// summary and checks that the definition fingerprint still holds.
#[verifier::rlimit(40)]
pub fn merge_group(
    existing: &CoverageArtifactGroup,
    incoming: &CoverageArtifactGroup,
    existing_test: &str,
    incoming_test: &str,
) -> (r: Result<CoverageArtifactGroup, CoverageMergeError>)
    ensures
        merge_outcome(r, *existing, *incoming, existing_test@, incoming_test@),
{
    let ef = existing.definition_fingerprint();
    let nf = incoming.definition_fingerprint();
    if !str_eq(existing.definition_name(), incoming.definition_name())
        || existing.definition_revision() != incoming.definition_revision() || !ef.same_as(&nf) {
        return Err(
            CoverageMergeError::IncompatibleDefinition {
                instance_path: String::from_str(existing.instance_path()),
                existing_test: String::from_str(existing_test),
                incoming_test: String::from_str(incoming_test),
                existing_definition: String::from_str(existing.definition_name()),
                incoming_definition: String::from_str(incoming.definition_name()),
                existing_revision: existing.definition_revision(),
                incoming_revision: incoming.definition_revision(),
                existing_fingerprint: ef,
                incoming_fingerprint: nf,
            },
        );
    }
    let es = existing.snapshot();
    let ns = incoming.snapshot();
    match compare_group_structure(es, ns, ef) {
        Ok(()) => {},
        Err(e) => {
            return Err(e);
        },
    }
    let ei = es.items();
    let ni = ns.items();
    let path = es.instance_path();
    proof {
        lemma_no_item_issue(ei@, ni@, 0);
    }
    let items = match merge_item_lists(ei, ni, path, ef) {
        Ok(v) => v,
        Err(e) => {
            return Err(e);
        },
    };
    proof {
        lemma_merged_lists(items@, ei@, ni@);
    }
    let summary = match group_summary(items.as_slice()) {
        Ok(s) => s,
        Err(e) => {
            return Err(e);
        },
    };
    let ghost merged_items = items@;
    let snapshot = CoverageGroupSnapshot::from_parts(
        es.definition_name(),
        es.definition_revision(),
        path,
        items,
        summary,
    );
    assert(definition_bytes(snapshot) == definition_bytes(*es));
    let fingerprint = match CoverageDefinitionFingerprint::from_group(&snapshot) {
        Ok(f) => f,
        Err(e) => {
            return Err(CoverageMergeError::Persistence { source: e });
        },
    };
    if !fingerprint.same_as(&ef) {
        return Err(
            CoverageMergeError::DefinitionStructureMismatch {
                instance_path: String::from_str(path),
                fingerprint: ef,
                path: String::from_str("fingerprint"),
                reason: String::from_str("recomputed fingerprint changed while merging counters"),
            },
        );
    }
    Ok(CoverageArtifactGroup::from_parts(snapshot, ef))
}

/// Merging the counters of two groups keeps the definition bytes of the
/// first, and so its fingerprint.
pub proof fn lemma_merge_keeps_definition(
    g: CoverageArtifactGroup,
    e: CoverageArtifactGroup,
    n: CoverageArtifactGroup,
)
    requires
        group_merged(g, e, n),
        group_issue(e.spec_snapshot(), n.spec_snapshot()) is None,
    ensures
        definition_bytes(g.spec_snapshot()) == definition_bytes(e.spec_snapshot()),
{
    let es = e.spec_snapshot().spec_items();
    let ns = n.spec_snapshot().spec_items();
    lemma_no_item_issue(es, ns, 0);
    lemma_merged_items(g.spec_snapshot().spec_items(), es, ns, es.len() as int);
}

proof fn lemma_point_bins_all_match(l: Seq<CoverpointBinSnapshot>, r: Seq<CoverpointBinSnapshot>, j: int)
    requires
        0 <= j,
        l.len() == r.len(),
        crate::coverage::merge::first_point_bin_issue(l, r, j) < 0,
    ensures
        forall|k: int| j <= k < l.len() ==> #[trigger] crate::coverage::merge::point_bins_match(l[k], r[k]),
    decreases l.len() - j,
{
    if j < l.len() {
        lemma_point_bins_all_match(l, r, j + 1);
    }
}

/// Merging two coverpoints with the same definition gives the same
/// counters, bins and coverage in either order.
pub proof fn lemma_point_merge_commutes(
    p: CoverpointSnapshot,
    q: CoverpointSnapshot,
    a: CoverpointSnapshot,
    b: CoverpointSnapshot,
)
    requires
        point_merged(p, a, b),
        point_merged(q, b, a),
        a.spec_name() == b.spec_name(),
        crate::coverage::merge::point_issue(a, b, 0) is None,
    ensures
        p.spec_name() == q.spec_name(),
        p.spec_counts() == q.spec_counts(),
        bin_views(p.spec_bins()) == bin_views(q.spec_bins()),
        p.spec_coverage()@ == q.spec_coverage()@,
{
    let la = a.spec_bins();
    let lb = b.spec_bins();
    lemma_point_bins_all_match(la, lb, 0);
    assert(merged_point_bins(la, lb) =~= merged_point_bins(lb, la)) by {
        assert forall|k: int| 0 <= k < la.len() implies merged_point_bins(la, lb)[k]
            == merged_point_bins(lb, la)[k] by {
            assert(crate::coverage::merge::point_bins_match(la[k], lb[k]));
        }
    }
}

} // verus!

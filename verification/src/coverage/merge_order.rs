use vstd::prelude::*;

use crate::coverage::merge::CoverageMergePolicy;
use crate::coverage::merge_document::{
    counts_of, group_at, group_key, group_keys, group_ratio_views, group_sums, groups_sorted,
    groups_with_key, input_records, key_of, keys_sorted, merge_chain, merge_step, merged_from, merges,
    path_history, CoverageMerge,
};
use crate::coverage::artifact::{CoverageArtifact, CoverageArtifactGroup};
use crate::coverage::item::CoverageItemKind;
use crate::coverage::merge_counters::{
    item_merged, merged_cross_bins, merged_item_ratio, merged_point_bins,
};
use crate::coverage::merge_group::{count_snapshot_kind, group_merged, merged_ratio_views};
use crate::coverage::order::{lemma_byte_order_flip, lemma_byte_order_zero};
use crate::coverage::persistence::{same_group, same_input, same_item};
use crate::coverage::snapshot::{bin_views, cross_bin_views, CoverageItemSnapshot};

verus! {

/// Keys of keyed artifacts differ pairwise.
pub open spec fn keys_distinct(s: Seq<(String, CoverageArtifact)>) -> bool {
    forall|a: int, b: int| 0 <= a < b < s.len() ==> key_of(s[a]) != key_of(s[b])
}

/// Two key-sorted orderings of the same keyed artifacts, with distinct keys,
/// are the same sequence.
pub proof fn lemma_sorted_keyed_unique(x: Seq<(String, CoverageArtifact)>, y: Seq<(String, CoverageArtifact)>)
    requires
        keys_sorted(x),
        keys_sorted(y),
        keys_distinct(x),
        x.to_multiset() == y.to_multiset(),
    ensures
        x == y,
    decreases x.len(),
{
    broadcast use vstd::multiset::group_multiset_axioms;
    broadcast use vstd::seq_lib::group_to_multiset_ensures;

    vstd::seq_lib::to_multiset_len(x);
    vstd::seq_lib::to_multiset_len(y);
    if x.len() == 0 {
        assert(x =~= y);
    } else {
        assert(y.to_multiset().contains(x[0]));
        assert(x.to_multiset().contains(y[0]));
        let i = choose|i: int| 0 <= i < x.len() && x[i] == y[0];
        let j = choose|j: int| 0 <= j < y.len() && y[j] == x[0];
        let k0 = key_of(x[0]);
        let ki = key_of(x[i]);
        lemma_byte_order_zero(k0, ki);
        lemma_byte_order_zero(ki, k0);
        lemma_byte_order_flip(k0, ki);
        if i > 0 {
            assert(byte_order_le(k0, ki));
        }
        if j > 0 {
            assert(crate::coverage::order::byte_order(key_of(y[0]), key_of(y[j])) <= 0);
        }
        assert(k0 == ki);
        assert(i == 0);
        vstd::seq_lib::to_multiset_remove(x, 0);
        vstd::seq_lib::to_multiset_remove(y, 0);
        assert(x.remove(0) =~= x.drop_first());
        assert(y.remove(0) =~= y.drop_first());
        lemma_sorted_keyed_unique(x.drop_first(), y.drop_first());
        assert(x =~= seq![x[0]] + x.drop_first());
        assert(y =~= seq![y[0]] + y.drop_first());
    }
}

spec fn byte_order_le(a: Seq<u8>, b: Seq<u8>) -> bool {
    crate::coverage::order::byte_order(a, b) <= 0
}

/// Two strictly increasing sequences of keys with the same members are the
/// same sequence.
pub proof fn lemma_strict_keys_unique(x: Seq<Seq<u8>>, y: Seq<Seq<u8>>)
    requires
        forall|a: int, b: int| 0 <= a < b < x.len() ==> crate::coverage::order::byte_order(x[a], x[b]) < 0,
        forall|a: int, b: int| 0 <= a < b < y.len() ==> crate::coverage::order::byte_order(y[a], y[b]) < 0,
        x.to_set() == y.to_set(),
    ensures
        x == y,
    decreases x.len(),
{
    if x.len() == 0 {
        if y.len() > 0 {
            assert(y.to_set().contains(y[0]));
        }
        assert(x =~= y);
    } else {
        assert(x.to_set().contains(x[0]));
        assert(y.to_set().contains(x[0]));
        let j = choose|j: int| 0 <= j < y.len() && y[j] == x[0];
        assert(y.to_set().contains(y[0]));
        assert(x.to_set().contains(y[0]));
        let i = choose|i: int| 0 <= i < x.len() && x[i] == y[0];
        lemma_byte_order_zero(x[0], x[0]);
        lemma_byte_order_flip(x[0], y[0]);
        if i > 0 {
            assert(crate::coverage::order::byte_order(x[0], x[i]) < 0);
            if j > 0 {
                assert(crate::coverage::order::byte_order(y[0], y[j]) < 0);
            }
            assert(false);
        }
        assert(x[0] == y[0]);
        let x1 = x.drop_first();
        let y1 = y.drop_first();
        assert forall|v: Seq<u8>| x1.to_set().contains(v) <==> y1.to_set().contains(v) by {
            if x1.to_set().contains(v) {
                let a = choose|a: int| 0 <= a < x1.len() && x1[a] == v;
                assert(x[a + 1] == v);
                assert(x.to_set().contains(v));
                let b = choose|b: int| 0 <= b < y.len() && y[b] == v;
                lemma_byte_order_zero(x[0], v);
                if b == 0 {
                    assert(crate::coverage::order::byte_order(x[0], x[a + 1]) < 0);
                    assert(false);
                }
                assert(y1[b - 1] == v);
            }
            if y1.to_set().contains(v) {
                let b = choose|b: int| 0 <= b < y1.len() && y1[b] == v;
                assert(y[b + 1] == v);
                assert(y.to_set().contains(v));
                let a = choose|a: int| 0 <= a < x.len() && x[a] == v;
                lemma_byte_order_zero(y[0], v);
                if a == 0 {
                    assert(crate::coverage::order::byte_order(y[0], y[b + 1]) < 0);
                    assert(false);
                }
                assert(x1[a - 1] == v);
            }
        }
        assert(x1.to_set() =~= y1.to_set());
        lemma_strict_keys_unique(x1, y1);
        assert(x =~= seq![x[0]] + x1);
        assert(y =~= seq![y[0]] + y1);
    }
}

/// What is kept for one path in two merges: nothing in either, or two
/// groups holding the same data.
pub open spec fn same_kept(a: Option<CoverageArtifactGroup>, b: Option<CoverageArtifactGroup>) -> bool {
    match (a, b) {
        (None, None) => true,
        (Some(x), Some(y)) => same_group(x, y),
        _ => false,
    }
}

proof fn lemma_same_group_refl(g: CoverageArtifactGroup)
    ensures
        same_group(g, g),
{
    let s = g.spec_snapshot();
    assert forall|k: int| 0 <= k < s.spec_items().len() implies #[trigger] same_item(
        s.spec_items()[k],
        s.spec_items()[k],
    ) by {
        match s.spec_items()[k] {
            CoverageItemSnapshot::Coverpoint(_) => {},
            CoverageItemSnapshot::Cross2(_) => {},
        }
    }
}

/// Merging the same item into two items holding the same data gives two
/// items holding the same data.
proof fn lemma_item_merged_unique(
    m1: CoverageItemSnapshot,
    l1: CoverageItemSnapshot,
    m2: CoverageItemSnapshot,
    l2: CoverageItemSnapshot,
    r: CoverageItemSnapshot,
)
    requires
        item_merged(m1, l1, r),
        item_merged(m2, l2, r),
        same_item(l1, l2),
    ensures
        same_item(m1, m2),
        merged_item_ratio(l1, r) == merged_item_ratio(l2, r),
{
    match (m1, l1, m2, l2, r) {
        (
            CoverageItemSnapshot::Coverpoint(p1),
            CoverageItemSnapshot::Coverpoint(a1),
            CoverageItemSnapshot::Coverpoint(p2),
            CoverageItemSnapshot::Coverpoint(a2),
            CoverageItemSnapshot::Coverpoint(b),
        ) => {
            let v1 = bin_views(a1.spec_bins());
            let v2 = bin_views(a2.spec_bins());
            assert(v1.len() == a1.spec_bins().len());
            assert(v2.len() == a2.spec_bins().len());
            assert forall|k: int| 0 <= k < a1.spec_bins().len() implies a1.spec_bins()[k]@
                == a2.spec_bins()[k]@ by {
                assert(v1[k] == v2[k]);
            }
            assert(merged_point_bins(a1.spec_bins(), b.spec_bins()) =~= merged_point_bins(
                a2.spec_bins(),
                b.spec_bins(),
            ));
        },
        (
            CoverageItemSnapshot::Cross2(p1),
            CoverageItemSnapshot::Cross2(a1),
            CoverageItemSnapshot::Cross2(p2),
            CoverageItemSnapshot::Cross2(a2),
            CoverageItemSnapshot::Cross2(b),
        ) => {
            let v1 = cross_bin_views(a1.spec_bins());
            let v2 = cross_bin_views(a2.spec_bins());
            assert(v1.len() == a1.spec_bins().len());
            assert(v2.len() == a2.spec_bins().len());
            assert forall|k: int| 0 <= k < a1.spec_bins().len() implies a1.spec_bins()[k]@
                == a2.spec_bins()[k]@ by {
                assert(v1[k] == v2[k]);
            }
            assert(merged_cross_bins(a1.spec_bins(), b.spec_bins()) =~= merged_cross_bins(
                a2.spec_bins(),
                b.spec_bins(),
            ));
        },
        _ => {},
    }
}

proof fn lemma_same_kind_counts(
    xs: Seq<CoverageItemSnapshot>,
    ys: Seq<CoverageItemSnapshot>,
    n: int,
    kind: CoverageItemKind,
)
    requires
        xs.len() == ys.len(),
        0 <= n <= xs.len(),
        forall|k: int| 0 <= k < xs.len() ==> #[trigger] same_item(xs[k], ys[k]),
    ensures
        count_snapshot_kind(xs, n, kind) == count_snapshot_kind(ys, n, kind),
    decreases n,
{
    if n > 0 {
        lemma_same_kind_counts(xs, ys, n - 1, kind);
        assert(same_item(xs[n - 1], ys[n - 1]));
    }
}

/// Merging the same group into two groups holding the same data gives two
/// groups holding the same data.
proof fn lemma_group_merged_unique(
    g1: CoverageArtifactGroup,
    e1: CoverageArtifactGroup,
    g2: CoverageArtifactGroup,
    e2: CoverageArtifactGroup,
    n: CoverageArtifactGroup,
)
    requires
        group_merged(g1, e1, n),
        group_merged(g2, e2, n),
        same_group(e1, e2),
    ensures
        same_group(g1, g2),
{
    let es1 = e1.spec_snapshot().spec_items();
    let es2 = e2.spec_snapshot().spec_items();
    let gs1 = g1.spec_snapshot().spec_items();
    let gs2 = g2.spec_snapshot().spec_items();
    let ns = n.spec_snapshot().spec_items();
    assert forall|k: int| 0 <= k < gs1.len() implies #[trigger] same_item(gs1[k], gs2[k])
        && merged_item_ratio(es1[k], ns[k]) == merged_item_ratio(es2[k], ns[k]) by {
        assert(item_merged(gs1[k], es1[k], ns[k]));
        assert(item_merged(gs2[k], es2[k], ns[k]));
        assert(same_item(es1[k], es2[k]));
        lemma_item_merged_unique(gs1[k], es1[k], gs2[k], es2[k], ns[k]);
    }
    assert forall|k: int| 0 <= k < es1.len() implies #[trigger] merged_item_ratio(es1[k], ns[k])
        == merged_item_ratio(es2[k], ns[k]) by {
        assert(same_item(gs1[k], gs2[k]));
    }
    assert(merged_ratio_views(es1, ns) =~= merged_ratio_views(es2, ns));
    lemma_same_kind_counts(es1, es2, es1.len() as int, CoverageItemKind::Coverpoint);
    lemma_same_kind_counts(es1, es2, es1.len() as int, CoverageItemKind::Cross2);
}

/// Two chains of groups added, in the same order, for one path from
/// nothing keep the same data at every step.
proof fn lemma_chains_agree(
    c1: Seq<Option<CoverageArtifactGroup>>,
    c2: Seq<Option<CoverageArtifactGroup>>,
    xs: Seq<CoverageArtifactGroup>,
    a1: Option<CoverageArtifactGroup>,
    a2: Option<CoverageArtifactGroup>,
    k: int,
)
    requires
        merge_chain(c1, None, xs, a1),
        merge_chain(c2, None, xs, a2),
        0 <= k <= xs.len(),
    ensures
        same_kept(c1[k], c2[k]),
    decreases k,
{
    if k > 0 {
        let j = k - 1;
        lemma_chains_agree(c1, c2, xs, a1, a2, j);
        assert(merge_step(c1[j], xs[j], c1[j + 1]));
        assert(merge_step(c2[j], xs[j], c2[j + 1]));
        match (c1[j], c2[j]) {
            (Some(e1), Some(e2)) => {
                lemma_group_merged_unique(c1[j + 1]->0, e1, c2[j + 1]->0, e2, xs[j]);
            },
            _ => {
                lemma_same_group_refl(xs[j]);
            },
        }
    }
}

/// In groups sorted by strictly increasing key, the group kept for the key
/// of the group at `k` is that group.
proof fn lemma_group_at_index(gs: Seq<CoverageArtifactGroup>, k: int)
    requires
        groups_sorted(gs),
        0 <= k < gs.len(),
    ensures
        group_at(gs, group_key(gs[k])) == Some(gs[k]),
{
    let key = group_key(gs[k]);
    let pred = |g: CoverageArtifactGroup| group_key(g) == key;
    gs.filter_lemma(pred);
    let f = gs.filter(pred);
    assert(groups_with_key(gs, key) == f);
    assert(f.contains(gs[k]));
    assert(pred(f[0]));
    assert(f.contains(f[0]));
    gs.lemma_filter_contains_rev(pred, f[0]);
    let j = choose|j: int| 0 <= j < gs.len() && gs[j] == f[0];
    lemma_byte_order_zero(group_key(gs[j]), key);
    if j < k {
        assert(crate::coverage::order::byte_order(group_key(gs[j]), group_key(gs[k])) < 0);
    } else if j > k {
        assert(crate::coverage::order::byte_order(group_key(gs[k]), group_key(gs[j])) < 0);
        lemma_byte_order_zero(key, group_key(gs[j]));
    }
    assert(j == k);
}

proof fn lemma_same_group_sums(xs: Seq<CoverageArtifactGroup>, ys: Seq<CoverageArtifactGroup>, n: int)
    requires
        xs.len() == ys.len(),
        0 <= n <= xs.len(),
        forall|k: int| 0 <= k < xs.len() ==> #[trigger] same_group(xs[k], ys[k]),
    ensures
        group_sums(xs, n) == group_sums(ys, n),
    decreases n,
{
    if n > 0 {
        lemma_same_group_sums(xs, ys, n - 1);
        assert(same_group(xs[n - 1], ys[n - 1]));
    }
}

/// The order in which artifacts are handed to a merge does not change its
/// outcome: two orderings of the same keyed artifacts, with distinct keys,
/// merge to the same input records in the same order, the same instance
/// paths of merged groups in the same order, the same data in the merged
/// group of every path, and the same summary.
pub proof fn lemma_merge_order_independent(
    first: Seq<(String, CoverageArtifact)>,
    second: Seq<(String, CoverageArtifact)>,
    policy: CoverageMergePolicy,
    m1: CoverageMerge,
    m2: CoverageMerge,
)
    requires
        first.to_multiset() == second.to_multiset(),
        keys_distinct(first),
        merges(m1, first, policy),
        merges(m2, second, policy),
    ensures
        m1.spec_inputs().len() == m2.spec_inputs().len(),
        forall|k: int|
            0 <= k < m1.spec_inputs().len() ==> #[trigger] same_input(
                m1.spec_inputs()[k],
                m2.spec_inputs()[k],
            ),
        group_keys(m1.spec_groups()) == group_keys(m2.spec_groups()),
        forall|key: Seq<u8>|
            same_kept(#[trigger] group_at(m1.spec_groups(), key), group_at(m2.spec_groups(), key)),
        m1.spec_groups().len() == m2.spec_groups().len(),
        forall|k: int|
            0 <= k < m1.spec_groups().len() ==> #[trigger] same_group(
                m1.spec_groups()[k],
                m2.spec_groups()[k],
            ),
        m1.spec_summary().spec_counts() == m2.spec_summary().spec_counts(),
        m1.spec_summary().spec_totals() == m2.spec_summary().spec_totals(),
        m1.spec_summary().spec_coverage()@ == m2.spec_summary().spec_coverage()@,
{
    broadcast use vstd::seq_lib::group_to_multiset_ensures;

    let s1 = choose|s: Seq<(String, CoverageArtifact)>|
        s.to_multiset() == first.to_multiset() && keys_sorted(s) && #[trigger] merged_from(m1, s, policy);
    let s2 = choose|s: Seq<(String, CoverageArtifact)>|
        s.to_multiset() == second.to_multiset() && keys_sorted(s) && #[trigger] merged_from(m2, s, policy);
    assert(keys_distinct(s1)) by {
        assert forall|a: int, b: int| 0 <= a < b < s1.len() implies key_of(s1[a]) != key_of(s1[b]) by {
            assert(s1.to_multiset().count(s1[a]) > 0);
            assert(first.to_multiset().contains(s1[a]));
            assert(first.to_multiset().contains(s1[b]));
            let p = choose|p: int| 0 <= p < first.len() && first[p] == s1[a];
            let q = choose|q: int| 0 <= q < first.len() && first[q] == s1[b];
            if key_of(s1[a]) == key_of(s1[b]) {
                if p == q {
                    assert(s1[a] == s1[b]);
                    assert(s1.to_multiset().count(s1[a]) >= 2) by {
                        lemma_two_positions_count(s1, a, b);
                    }
                    assert(first.to_multiset().count(s1[a]) <= 1) by {
                        lemma_distinct_keys_count(first, p);
                    }
                    assert(false);
                }
            }
        }
    }
    lemma_sorted_keyed_unique(s1, s2);
    assert forall|k: int| 0 <= k < m1.spec_inputs().len() implies #[trigger] same_input(
        m1.spec_inputs()[k],
        m2.spec_inputs()[k],
    ) by {
        assert(input_records(m1.spec_inputs()[k], s1[k].1, policy));
        assert(input_records(m2.spec_inputs()[k], s2[k].1, policy));
    }
    let g1 = group_keys(m1.spec_groups());
    let g2 = group_keys(m2.spec_groups());
    assert(groups_sorted(m1.spec_groups()));
    assert(groups_sorted(m2.spec_groups()));
    lemma_strict_keys_unique(g1, g2);
    assert(counts_of(s1, policy, s1.len() as int) == counts_of(s2, policy, s2.len() as int));
    assert forall|key: Seq<u8>|
        same_kept(#[trigger] group_at(m1.spec_groups(), key), group_at(m2.spec_groups(), key)) by {
        let h = path_history(s1, policy, s1.len() as int, key);
        let a1 = group_at(m1.spec_groups(), key);
        let a2 = group_at(m2.spec_groups(), key);
        assert(merged_from(m1, s1, policy));
        assert(merged_from(m2, s2, policy));
        assert(crate::coverage::merge_document::merge_steps(None, h, a1));
        assert(crate::coverage::merge_document::merge_steps(None, h, a2));
        let c1 = choose|c: Seq<Option<CoverageArtifactGroup>>| #[trigger] merge_chain(c, None, h, a1);
        let c2 = choose|c: Seq<Option<CoverageArtifactGroup>>| #[trigger] merge_chain(c, None, h, a2);
        lemma_chains_agree(c1, c2, h, a1, a2, h.len() as int);
    }
    let gs1 = m1.spec_groups();
    let gs2 = m2.spec_groups();
    assert(g1.len() == gs1.len() && g2.len() == gs2.len());
    assert forall|k: int| 0 <= k < gs1.len() implies #[trigger] same_group(gs1[k], gs2[k]) by {
        assert(g1[k] == group_key(gs1[k]));
        assert(g2[k] == group_key(gs2[k]));
        lemma_group_at_index(gs1, k);
        lemma_group_at_index(gs2, k);
        assert(same_kept(group_at(gs1, group_key(gs1[k])), group_at(gs2, group_key(gs1[k]))));
    }
    lemma_same_group_sums(gs1, gs2, gs1.len() as int);
    assert forall|k: int| 0 <= k < gs1.len() implies group_ratio_views(gs1)[k] == group_ratio_views(
        gs2,
    )[k] by {
        assert(same_group(gs1[k], gs2[k]));
    }
    assert(group_ratio_views(gs1) =~= group_ratio_views(gs2));
}

proof fn lemma_two_positions_count(s: Seq<(String, CoverageArtifact)>, a: int, b: int)
    requires
        0 <= a < b < s.len(),
        s[a] == s[b],
    ensures
        s.to_multiset().count(s[a]) >= 2,
{
    broadcast use vstd::multiset::group_multiset_axioms;
    broadcast use vstd::seq_lib::group_to_multiset_ensures;

    let t = s.remove(b);
    assert(t[a] == s[a]);
    assert(t.to_multiset().contains(s[a]));
    vstd::seq_lib::to_multiset_remove(s, b);
}

proof fn lemma_distinct_keys_count(s: Seq<(String, CoverageArtifact)>, p: int)
    requires
        keys_distinct(s),
        0 <= p < s.len(),
    ensures
        s.to_multiset().count(s[p]) <= 1,
{
    broadcast use vstd::multiset::group_multiset_axioms;
    broadcast use vstd::seq_lib::group_to_multiset_ensures;

    let t = s.remove(p);
    vstd::seq_lib::to_multiset_remove(s, p);
    if t.to_multiset().contains(s[p]) {
        let q = choose|q: int| 0 <= q < t.len() && t[q] == s[p];
        if q < p {
            assert(key_of(s[q]) != key_of(s[p]));
        } else {
            assert(t[q] == s[q + 1]);
            assert(key_of(s[p]) != key_of(s[q + 1]));
        }
    }
}

} // verus!

use vstd::prelude::*;
use vstd::string::*;
use vstd::multiset::Multiset;
use vstd::set::Set;
use vstd::utf8::encode_utf8;

use crate::coverage::artifact::{find_artifact_group_index, CoverageArtifact, CoverageArtifactGroup, find_artifact_group, PRODUCER_VERSION};
use crate::coverage::merge::{
    policy_includes, ratio_sum_overflow, ratio_sums_of, ratio_views, record_overflow, recorded, sum_ratios,
    CoverageMergeInput, CoverageMergePolicy, MergeCounts,
};
use crate::coverage::merge_error::{CoverageMergeCountKind, CoverageMergeError};
use crate::coverage::merge_group::{group_merged, merge_group, merge_outcome};
use crate::coverage::order::{
    byte_order, compare_text, lemma_byte_order_flip, lemma_byte_order_trans,
    lemma_byte_order_trans_le, lemma_byte_order_zero,
};
use crate::coverage::ratio::CoverageRatio;

verus! {

/// Format name of a merged coverage document.
pub const MERGE_FORMAT_NAME: &'static str = "vvm-functional-coverage-merge";

/// Schema version of a merged coverage document.
pub const MERGE_SCHEMA_VERSION: u32 = 1;

/// File suffix of a merged coverage document.
pub const MERGE_FILE_SUFFIX: &'static str = ".vvmcov-merged.json";

/// Exact summary of one deterministic multi-artifact merge.
#[derive(Debug, Clone, Copy, PartialEq, Eq)]
pub struct CoverageMergeSummary {
    counts: MergeCounts,
    groups: usize,
    items: usize,
    coverpoints: usize,
    crosses: usize,
    coverage: CoverageRatio,
}

impl CoverageMergeSummary {
    /// Input counts: all, included, excluded, passed, failed and errored artifacts.
    pub closed spec fn spec_counts(&self) -> MergeCounts {
        self.counts
    }

    /// Merged groups, items, coverpoints and crosses.
    pub closed spec fn spec_totals(&self) -> (usize, usize, usize, usize) {
        (self.groups, self.items, self.coverpoints, self.crosses)
    }

    /// Merged bin coverage.
    pub closed spec fn spec_coverage(&self) -> CoverageRatio {
        self.coverage
    }

    /// Assembles a summary from its parts.
    pub fn from_parts(
        counts: MergeCounts,
        groups: usize,
        items: usize,
        coverpoints: usize,
        crosses: usize,
        coverage: CoverageRatio,
    ) -> (r: Self)
        ensures
            r.spec_counts() == counts,
            r.spec_totals() == (groups, items, coverpoints, crosses),
            r.spec_coverage() == coverage,
    {
        CoverageMergeSummary { counts, groups, items, coverpoints, crosses, coverage }
    }

    /// Returns the number of input artifacts.
    pub fn artifact_count(self) -> (r: usize)
        ensures
            r == self.spec_counts().artifacts,
    {
        self.counts.artifacts
    }

    /// Returns the number of artifacts the policy included.
    pub fn included_artifact_count(self) -> (r: usize)
        ensures
            r == self.spec_counts().included,
    {
        self.counts.included
    }

    /// Returns the number of artifacts the policy excluded.
    pub fn excluded_artifact_count(self) -> (r: usize)
        ensures
            r == self.spec_counts().excluded,
    {
        self.counts.excluded
    }

    /// Returns the number of passed artifacts.
    pub fn passed_artifact_count(self) -> (r: usize)
        ensures
            r == self.spec_counts().passed,
    {
        self.counts.passed
    }

    /// Returns the number of failed artifacts.
    pub fn failed_artifact_count(self) -> (r: usize)
        ensures
            r == self.spec_counts().failed,
    {
        self.counts.failed
    }

    /// Returns the number of errored artifacts.
    pub fn errored_artifact_count(self) -> (r: usize)
        ensures
            r == self.spec_counts().errored,
    {
        self.counts.errored
    }

    /// Returns the number of merged groups.
    pub fn group_count(self) -> (r: usize)
        ensures
            r == self.spec_totals().0,
    {
        self.groups
    }

    /// Returns the number of merged items.
    pub fn item_count(self) -> (r: usize)
        ensures
            r == self.spec_totals().1,
    {
        self.items
    }

    /// Returns the number of merged coverpoints.
    pub fn coverpoint_count(self) -> (r: usize)
        ensures
            r == self.spec_totals().2,
    {
        self.coverpoints
    }

    /// Returns the number of merged crosses.
    pub fn cross_count(self) -> (r: usize)
        ensures
            r == self.spec_totals().3,
    {
        self.crosses
    }

    /// Returns the merged bin coverage.
    pub fn coverage(self) -> (r: CoverageRatio)
        ensures
            r == self.spec_coverage(),
    {
        self.coverage
    }

    /// Returns whether every merged bin is covered.
    pub fn is_complete(self) -> (r: bool)
        ensures
            r == (self.spec_coverage()@.1 == 0),
    {
        self.coverage.is_complete()
    }
}

/// Items, coverpoints and crosses summed over the first `n` groups.
pub open spec fn group_sums(gs: Seq<CoverageArtifactGroup>, n: int) -> (int, int, int)
    decreases n,
{
    if n <= 0 {
        (0, 0, 0)
    } else {
        let s = group_sums(gs, n - 1);
        let m = gs[n - 1].spec_snapshot().spec_summary();
        (s.0 + m.spec_items(), s.1 + m.spec_coverpoints(), s.2 + m.spec_crosses())
    }
}

/// First count, group by group from `i`, whose sum exceeds `usize::MAX`.
pub open spec fn group_count_overflow(gs: Seq<CoverageArtifactGroup>, i: int) -> Option<
    CoverageMergeCountKind,
>
    decreases gs.len() - i,
{
    if i < 0 || i >= gs.len() {
        None
    } else {
        let s = group_sums(gs, i + 1);
        if s.0 > usize::MAX {
            Some(CoverageMergeCountKind::Items)
        } else if s.1 > usize::MAX {
            Some(CoverageMergeCountKind::Coverpoints)
        } else if s.2 > usize::MAX {
            Some(CoverageMergeCountKind::Crosses)
        } else {
            group_count_overflow(gs, i + 1)
        }
    }
}

/// Coverage views of a sequence of groups.
pub open spec fn group_ratio_views(gs: Seq<CoverageArtifactGroup>) -> Seq<(usize, usize, usize)> {
    gs.map_values(|g: CoverageArtifactGroup| g.spec_snapshot().spec_summary().spec_coverage()@)
}

/// `s` summarizes groups `gs` merged from inputs counted by `counts`.
pub open spec fn summarizes_groups(
    s: CoverageMergeSummary,
    gs: Seq<CoverageArtifactGroup>,
    counts: MergeCounts,
) -> bool {
    let sums = group_sums(gs, gs.len() as int);
    let cov = ratio_sums_of(group_ratio_views(gs), gs.len() as int);
    &&& s.spec_counts() == counts
    &&& s.spec_totals().0 == gs.len()
    &&& s.spec_totals().1 == sums.0
    &&& s.spec_totals().2 == sums.1
    &&& s.spec_totals().3 == sums.2
    &&& s.spec_coverage()@.0 == cov.0
    &&& s.spec_coverage()@.1 == cov.1
    &&& s.spec_coverage()@.2 == cov.2
}

/// Recomputes the summary of merged groups with checked counts.
pub fn merge_summary(groups: &[CoverageArtifactGroup], counts: MergeCounts) -> (r: Result<
    CoverageMergeSummary,
    CoverageMergeError,
>)
    ensures
        match group_count_overflow(groups@, 0) {
            Some(k) => r == Err::<CoverageMergeSummary, CoverageMergeError>(
                CoverageMergeError::CountOverflow { counter: k },
            ),
            None => match ratio_sum_overflow(group_ratio_views(groups@), 0) {
                Some(k) => r == Err::<CoverageMergeSummary, CoverageMergeError>(
                    CoverageMergeError::CountOverflow { counter: k },
                ),
                None => r matches Ok(s) && summarizes_groups(s, groups@, counts),
            },
        },
{
    let mut items: usize = 0;
    let mut coverpoints: usize = 0;
    let mut crosses: usize = 0;
    let mut covs: Vec<CoverageRatio> = Vec::new();
    let mut i: usize = 0;
    while i < groups.len()
        invariant
            i <= groups@.len(),
            items == group_sums(groups@, i as int).0,
            coverpoints == group_sums(groups@, i as int).1,
            crosses == group_sums(groups@, i as int).2,
            group_count_overflow(groups@, 0) == group_count_overflow(groups@, i as int),
            ratio_views(covs@) == group_ratio_views(groups@).take(i as int),
        decreases groups@.len() - i,
    {
        let s = groups[i].summary();
        let a = items.checked_add(s.item_count());
        if a.is_none() {
            return Err(CoverageMergeError::CountOverflow { counter: CoverageMergeCountKind::Items });
        }
        let b = coverpoints.checked_add(s.coverpoint_count());
        if b.is_none() {
            return Err(
                CoverageMergeError::CountOverflow { counter: CoverageMergeCountKind::Coverpoints },
            );
        }
        let c = crosses.checked_add(s.cross_count());
        if c.is_none() {
            return Err(CoverageMergeError::CountOverflow { counter: CoverageMergeCountKind::Crosses });
        }
        items = a.unwrap();
        coverpoints = b.unwrap();
        crosses = c.unwrap();
        let cov = groups[i].coverage();
        let ghost before = covs@;
        covs.push(cov);
        proof {
            assert(ratio_views(covs@) =~= ratio_views(before).push(cov@));
            assert(group_ratio_views(groups@).take(i + 1) =~= group_ratio_views(groups@).take(
                i as int,
            ).push(cov@));
        }
        i = i + 1;
    }
    proof {
        assert(group_ratio_views(groups@).take(groups@.len() as int) =~= group_ratio_views(groups@));
    }
    match sum_ratios(covs.as_slice()) {
        Ok(coverage) => Ok(
            CoverageMergeSummary::from_parts(counts, groups.len(), items, coverpoints, crosses, coverage),
        ),
        Err(e) => Err(e),
    }
}

/// Ordering key of a keyed artifact: the bytes of its key.
pub open spec fn key_of(x: (String, CoverageArtifact)) -> Seq<u8> {
    encode_utf8(x.0@)
}

/// Keyed artifacts in non-decreasing key order.
pub open spec fn keys_sorted(s: Seq<(String, CoverageArtifact)>) -> bool {
    forall|a: int, b: int| 0 <= a < b < s.len() ==> byte_order(key_of(s[a]), key_of(s[b])) <= 0
}

/// Sorts keyed artifacts by the bytes of their keys.
pub fn sort_keyed(v: Vec<(String, CoverageArtifact)>) -> (r: Vec<(String, CoverageArtifact)>)
    ensures
        r@.to_multiset() == v@.to_multiset(),
        r@.len() == v@.len(),
        keys_sorted(r@),
{
    broadcast use vstd::multiset::group_multiset_axioms;
    broadcast use vstd::seq_lib::group_to_multiset_ensures;

    let ghost original = v@;
    let mut rest = v;
    let mut out: Vec<(String, CoverageArtifact)> = Vec::new();
    while rest.len() > 0
        invariant
            out@.to_multiset().add(rest@.to_multiset()) == original.to_multiset(),
            out@.len() + rest@.len() == original.len(),
            keys_sorted(out@),
        decreases rest@.len(),
    {
        let ghost before = rest@;
        let x = rest.pop().unwrap();
        proof {
            assert(before =~= rest@.push(x));
        }
        let mut p: usize = 0;
        let mut found = false;
        while p < out.len() && !found
            invariant
                p <= out@.len(),
                forall|q: int| 0 <= q < p ==> byte_order(key_of(#[trigger] out@[q]), key_of(x)) <= 0,
                found ==> p < out@.len() && byte_order(key_of(x), key_of(out@[p as int])) < 0,
            decreases out@.len() - p + if found {
                0int
            } else {
                1int
            },
        {
            let c = compare_text(x.0.as_str(), out[p].0.as_str());
            if c < 0 {
                found = true;
            } else {
                proof {
                    lemma_byte_order_flip(key_of(x), key_of(out@[p as int]));
                }
                p = p + 1;
            }
        }
        let ghost old_out = out@;
        out.insert(p, x);
        proof {
            assert forall|a: int| 0 <= a < p implies out@[a] == old_out[a] by {}
            assert(out@[p as int] == x);
            assert forall|a: int| p < a < out@.len() implies out@[a] == old_out[a - 1] by {}
            assert forall|a: int, b: int| 0 <= a < b < out@.len() implies byte_order(
                key_of(out@[a]),
                key_of(out@[b]),
            ) <= 0 by {
                if b < p {
                } else if b == p {
                } else if a <= p {
                    assert(found);
                    if p < b - 1 {
                        assert(byte_order(key_of(old_out[p as int]), key_of(old_out[b - 1])) <= 0);
                    } else {
                        lemma_byte_order_zero(key_of(old_out[p as int]), key_of(old_out[b - 1]));
                    }
                    lemma_byte_order_trans_le(
                        key_of(x),
                        key_of(old_out[p as int]),
                        key_of(old_out[b - 1]),
                    );
                    if a < p {
                        lemma_byte_order_trans_le(key_of(old_out[a]), key_of(x), key_of(old_out[b - 1]));
                    }
                } else {
                    assert(byte_order(key_of(old_out[a - 1]), key_of(old_out[b - 1])) <= 0);
                }
            }
            vstd::seq_lib::to_multiset_insert(old_out, p as int, x);
            vstd::seq_lib::to_multiset_build(rest@, x);
            assert(out@.to_multiset() == old_out.to_multiset().insert(x));
            assert(before.to_multiset() == rest@.to_multiset().insert(x));
            assert(out@.to_multiset().add(rest@.to_multiset()) =~= original.to_multiset());
        }
    }
    proof {
        assert(rest@ =~= Seq::<(String, CoverageArtifact)>::empty());
        assert(rest@.to_multiset() =~= Multiset::empty());
        assert(out@.to_multiset().add(rest@.to_multiset()) =~= out@.to_multiset());
    }
    out
}

/// Ordering key of a group: the bytes of its instance path.
pub open spec fn group_key(g: CoverageArtifactGroup) -> Seq<u8> {
    encode_utf8(g.spec_snapshot().spec_instance_path())
}

/// Ordering keys of a sequence of groups.
pub open spec fn group_keys(gs: Seq<CoverageArtifactGroup>) -> Seq<Seq<u8>> {
    gs.map_values(|g: CoverageArtifactGroup| group_key(g))
}

/// Groups in strictly increasing instance-path order.
pub open spec fn groups_sorted(gs: Seq<CoverageArtifactGroup>) -> bool {
    forall|a: int, b: int| 0 <= a < b < gs.len() ==> byte_order(group_key(gs[a]), group_key(gs[b])) < 0
}

/// Groups among `gs` whose key is `key`, in order.
pub open spec fn groups_with_key(gs: Seq<CoverageArtifactGroup>, key: Seq<u8>) -> Seq<CoverageArtifactGroup> {
    gs.filter(|g: CoverageArtifactGroup| group_key(g) == key)
}

/// The first group among `gs` whose key is `key`.
pub open spec fn group_at(gs: Seq<CoverageArtifactGroup>, key: Seq<u8>) -> Option<CoverageArtifactGroup> {
    let f = groups_with_key(gs, key);
    if f.len() > 0 {
        Some(f[0])
    } else {
        None
    }
}

/// One step of adding group `x` where `before` was kept for its path:
/// `x` itself when there was none, else the merge of `before` and `x`.
pub open spec fn merge_step(
    before: Option<CoverageArtifactGroup>,
    x: CoverageArtifactGroup,
    after: Option<CoverageArtifactGroup>,
) -> bool {
    match before {
        None => after == Some(x),
        Some(e) => after matches Some(g) && group_merged(g, e, x),
    }
}

/// `after` is what `before` becomes once each group of `xs` is added, in order.
pub open spec fn merge_steps(
    before: Option<CoverageArtifactGroup>,
    xs: Seq<CoverageArtifactGroup>,
    after: Option<CoverageArtifactGroup>,
) -> bool {
    exists|chain: Seq<Option<CoverageArtifactGroup>>| #[trigger] merge_chain(chain, before, xs, after)
}

/// `chain` lists what is kept for a path before and after each group of `xs`
/// is added.
pub open spec fn merge_chain(
    chain: Seq<Option<CoverageArtifactGroup>>,
    before: Option<CoverageArtifactGroup>,
    xs: Seq<CoverageArtifactGroup>,
    after: Option<CoverageArtifactGroup>,
) -> bool {
    &&& chain.len() == xs.len() + 1
    &&& chain[0] == before
    &&& chain[xs.len() as int] == after
    &&& forall|k: int| 0 <= k < xs.len() ==> #[trigger] merge_step(chain[k], xs[k], chain[k + 1])
}

proof fn lemma_merge_steps_empty(a: Option<CoverageArtifactGroup>)
    ensures
        merge_steps(a, Seq::empty(), a),
{
    assert(merge_chain(seq![a], a, Seq::empty(), a));
}

proof fn lemma_merge_steps_push(
    a: Option<CoverageArtifactGroup>,
    xs: Seq<CoverageArtifactGroup>,
    b: Option<CoverageArtifactGroup>,
    x: CoverageArtifactGroup,
    c: Option<CoverageArtifactGroup>,
)
    requires
        merge_steps(a, xs, b),
        merge_step(b, x, c),
    ensures
        merge_steps(a, xs.push(x), c),
{
    let ch = choose|ch: Seq<Option<CoverageArtifactGroup>>| #[trigger] merge_chain(ch, a, xs, b);
    let ch2 = ch.push(c);
    let ys = xs.push(x);
    assert forall|k: int| 0 <= k < ys.len() implies #[trigger] merge_step(ch2[k], ys[k], ch2[k + 1]) by {
        if k < xs.len() {
            assert(merge_step(ch[k], xs[k], ch[k + 1]));
        }
    }
    assert(merge_chain(ch2, a, ys, c));
}

proof fn lemma_merge_steps_concat(
    a: Option<CoverageArtifactGroup>,
    xs: Seq<CoverageArtifactGroup>,
    b: Option<CoverageArtifactGroup>,
    ys: Seq<CoverageArtifactGroup>,
    c: Option<CoverageArtifactGroup>,
)
    requires
        merge_steps(a, xs, b),
        merge_steps(b, ys, c),
    ensures
        merge_steps(a, xs + ys, c),
{
    let c1 = choose|ch: Seq<Option<CoverageArtifactGroup>>| #[trigger] merge_chain(ch, a, xs, b);
    let c2 = choose|ch: Seq<Option<CoverageArtifactGroup>>| #[trigger] merge_chain(ch, b, ys, c);
    let ch = c1 + c2.skip(1);
    let zs = xs + ys;
    assert forall|k: int| 0 <= k < zs.len() implies #[trigger] merge_step(ch[k], zs[k], ch[k + 1]) by {
        if k < xs.len() {
            assert(merge_step(c1[k], xs[k], c1[k + 1]));
        } else {
            let t = k - xs.len();
            assert(merge_step(c2[t], ys[t], c2[t + 1]));
            assert(ch[k] == c2[t]);
            assert(ch[k + 1] == c2[t + 1]);
        }
    }
    assert(merge_chain(ch, a, zs, c));
}

proof fn lemma_with_key_push(xs: Seq<CoverageArtifactGroup>, g: CoverageArtifactGroup, key: Seq<u8>)
    ensures
        groups_with_key(xs.push(g), key) == if group_key(g) == key {
            groups_with_key(xs, key).push(g)
        } else {
            groups_with_key(xs, key)
        },
{
    reveal_with_fuel(Seq::filter, 1);
    assert(xs.push(g).drop_last() =~= xs);
}

proof fn lemma_with_key_empty(key: Seq<u8>)
    ensures
        groups_with_key(Seq::empty(), key) == Seq::<CoverageArtifactGroup>::empty(),
{
    reveal_with_fuel(Seq::filter, 1);
}

proof fn lemma_with_key_none(gs: Seq<CoverageArtifactGroup>, key: Seq<u8>)
    requires
        forall|j: int| 0 <= j < gs.len() ==> group_key(#[trigger] gs[j]) != key,
    ensures
        groups_with_key(gs, key) == Seq::<CoverageArtifactGroup>::empty(),
    decreases gs.len(),
{
    reveal_with_fuel(Seq::filter, 2);
    if gs.len() > 0 {
        lemma_with_key_none(gs.drop_last(), key);
        assert(group_key(gs[gs.len() - 1]) != key);
    }
    assert(groups_with_key(gs, key) =~= Seq::<CoverageArtifactGroup>::empty());
}

proof fn lemma_with_key_split(gs: Seq<CoverageArtifactGroup>, q: int, key: Seq<u8>)
    requires
        0 <= q < gs.len(),
    ensures
        groups_with_key(gs, key) == groups_with_key(gs.take(q), key) + groups_with_key(
            seq![gs[q]],
            key,
        ) + groups_with_key(gs.skip(q + 1), key),
{
    reveal_with_fuel(Seq::filter, 2);
    assert(gs =~= gs.take(q) + seq![gs[q]] + gs.skip(q + 1));
    assert(seq![gs[q]].drop_last() =~= Seq::<CoverageArtifactGroup>::empty());
}

/// In groups kept in instance-path order, the group at a position is the one
/// kept for its path.
proof fn lemma_group_at_index(gs: Seq<CoverageArtifactGroup>, q: int)
    requires
        groups_sorted(gs),
        0 <= q < gs.len(),
    ensures
        group_at(gs, group_key(gs[q])) == Some(gs[q]),
{
    reveal_with_fuel(Seq::filter, 2);
    let key = group_key(gs[q]);
    assert forall|j: int| 0 <= j < gs.take(q).len() implies group_key(#[trigger] gs.take(q)[j]) != key by {
        assert(gs.take(q)[j] == gs[j]);
        lemma_byte_order_zero(group_key(gs[j]), key);
    }
    assert forall|j: int| 0 <= j < gs.skip(q + 1).len() implies group_key(#[trigger] gs.skip(q + 1)[j])
        != key by {
        assert(gs.skip(q + 1)[j] == gs[q + 1 + j]);
        lemma_byte_order_zero(key, group_key(gs[q + 1 + j]));
    }
    lemma_with_key_none(gs.take(q), key);
    lemma_with_key_none(gs.skip(q + 1), key);
    lemma_with_key_split(gs, q, key);
    assert(seq![gs[q]].drop_last() =~= Seq::<CoverageArtifactGroup>::empty());
    assert(groups_with_key(seq![gs[q]], key) =~= seq![gs[q]]);
    assert(groups_with_key(gs, key) =~= seq![gs[q]]);
}

/// Replacing a group by one with the same key leaves other keys' groups alone.
proof fn lemma_group_at_update(gs: Seq<CoverageArtifactGroup>, q: int, x: CoverageArtifactGroup, key: Seq<u8>)
    requires
        0 <= q < gs.len(),
        group_key(gs[q]) != key,
        group_key(x) != key,
    ensures
        groups_with_key(gs.update(q, x), key) == groups_with_key(gs, key),
{
    reveal_with_fuel(Seq::filter, 2);
    let u = gs.update(q, x);
    lemma_with_key_split(gs, q, key);
    lemma_with_key_split(u, q, key);
    assert(u.take(q) =~= gs.take(q));
    assert(u.skip(q + 1) =~= gs.skip(q + 1));
    assert(seq![gs[q]].drop_last() =~= Seq::<CoverageArtifactGroup>::empty());
    assert(seq![u[q]].drop_last() =~= Seq::<CoverageArtifactGroup>::empty());
    assert(groups_with_key(seq![gs[q]], key) =~= Seq::<CoverageArtifactGroup>::empty());
    assert(groups_with_key(seq![u[q]], key) =~= Seq::<CoverageArtifactGroup>::empty());
}

/// Inserting a group with another key leaves this key's groups alone.
proof fn lemma_group_at_insert(gs: Seq<CoverageArtifactGroup>, q: int, x: CoverageArtifactGroup, key: Seq<u8>)
    requires
        0 <= q <= gs.len(),
        group_key(x) != key,
    ensures
        groups_with_key(gs.insert(q, x), key) == groups_with_key(gs, key),
{
    reveal_with_fuel(Seq::filter, 2);
    let u = gs.insert(q, x);
    lemma_with_key_split(u, q, key);
    assert(u.take(q) =~= gs.take(q));
    assert(u.skip(q + 1) =~= gs.skip(q));
    assert(gs =~= gs.take(q) + gs.skip(q));
    assert(seq![u[q]].drop_last() =~= Seq::<CoverageArtifactGroup>::empty());
    assert(groups_with_key(seq![u[q]], key) =~= Seq::<CoverageArtifactGroup>::empty());
}

/// `r` is what merging `n`, from test `test`, into the group `base` kept for
/// its path gives: success exactly when that merge succeeds, else its error.
#[verifier::opaque]
pub open spec fn placed_by_merge(
    r: Result<(), CoverageMergeError>,
    base: CoverageArtifactGroup,
    n: CoverageArtifactGroup,
    test: Seq<char>,
) -> bool {
    exists|owner: Seq<char>, m: Result<CoverageArtifactGroup, CoverageMergeError>|
        #[trigger] merge_outcome(m, base, n, owner, test) && (r is Ok <==> m is Ok) && (m matches Err(
            x,
        ) ==> r == Err::<(), CoverageMergeError>(x))
}

/// Adding the groups `xs` from test `test`, in order, where `before` was kept
/// for their path, meets a merge that fails with `x`.
pub open spec fn refused_along(
    before: Option<CoverageArtifactGroup>,
    xs: Seq<CoverageArtifactGroup>,
    x: CoverageMergeError,
    test: Seq<char>,
) -> bool {
    exists|k: int, mid: Option<CoverageArtifactGroup>|
        0 <= k < xs.len() && #[trigger] merge_steps(before, xs.take(k), mid) && (mid matches Some(e)
            && placed_by_merge(Err(x), e, xs[k], test))
}

proof fn lemma_refused_after_steps(
    a: Option<CoverageArtifactGroup>,
    hs: Seq<CoverageArtifactGroup>,
    b: Option<CoverageArtifactGroup>,
    xs: Seq<CoverageArtifactGroup>,
    x: CoverageMergeError,
    test: Seq<char>,
)
    requires
        merge_steps(a, hs, b),
        refused_along(b, xs, x, test),
    ensures
        refused_along(a, hs + xs, x, test),
{
    let (k, mid) = choose|k: int, mid: Option<CoverageArtifactGroup>|
        0 <= k < xs.len() && #[trigger] merge_steps(b, xs.take(k), mid) && (mid matches Some(e)
            && placed_by_merge(Err(x), e, xs[k], test));
    lemma_merge_steps_concat(a, hs, b, xs.take(k), mid);
    let ys = hs + xs;
    assert(ys.take(hs.len() + k) =~= hs + xs.take(k));
    assert(ys[hs.len() + k] == xs[k]);
    assert(merge_steps(a, ys.take(hs.len() + k), mid));
}

proof fn lemma_refused_prefix(
    a: Option<CoverageArtifactGroup>,
    xs: Seq<CoverageArtifactGroup>,
    ys: Seq<CoverageArtifactGroup>,
    x: CoverageMergeError,
    test: Seq<char>,
)
    requires
        xs.len() <= ys.len(),
        ys.take(xs.len() as int) == xs,
        refused_along(a, xs, x, test),
    ensures
        refused_along(a, ys, x, test),
{
    let (k, mid) = choose|k: int, mid: Option<CoverageArtifactGroup>|
        0 <= k < xs.len() && #[trigger] merge_steps(a, xs.take(k), mid) && (mid matches Some(e)
            && placed_by_merge(Err(x), e, xs[k], test));
    assert(ys.take(k) =~= xs.take(k));
    assert(ys[k] == xs[k]);
    assert(merge_steps(a, ys.take(k), mid));
}

proof fn lemma_with_key_prefix(all: Seq<CoverageArtifactGroup>, t: int, key: Seq<u8>)
    requires
        0 <= t < all.len(),
        group_key(all[t]) == key,
    ensures
        groups_with_key(all.take(t), key).len() < groups_with_key(all, key).len(),
        groups_with_key(all, key).take(groups_with_key(all.take(t), key).len() as int)
            == groups_with_key(all.take(t), key),
        groups_with_key(all, key)[groups_with_key(all.take(t), key).len() as int] == all[t],
{
    assert(all =~= all.take(t).push(all[t]) + all.skip(t + 1));
    lemma_with_key_push(all.take(t), all[t], key);
    let a = groups_with_key(all.take(t), key);
    assert(groups_with_key(all, key) == a.push(all[t]) + groups_with_key(all.skip(t + 1), key));
    assert((a.push(all[t]) + groups_with_key(all.skip(t + 1), key)).take(a.len() as int) =~= a);
}

/// Adds one group to groups kept in instance-path order: merges it into the
/// group with the same path, or inserts it where its path belongs.
#[verifier::spinoff_prover]
#[verifier::rlimit(100)]
fn place_group(
    groups: &mut Vec<CoverageArtifactGroup>,
    owners: &mut Vec<String>,
    incoming: CoverageArtifactGroup,
    test_name: &str,
) -> (r: Result<(), CoverageMergeError>)
    requires
        old(groups)@.len() == old(owners)@.len(),
        groups_sorted(old(groups)@),
    ensures
        r is Ok ==> final(groups)@.len() == final(owners)@.len() && groups_sorted(final(groups)@)
            && group_keys(final(groups)@).to_set() == group_keys(old(groups)@).to_set().insert(
            group_key(incoming),
        ),
        r is Ok ==> merge_step(
            group_at(old(groups)@, group_key(incoming)),
            incoming,
            group_at(final(groups)@, group_key(incoming)),
        ),
        r is Ok ==> forall|key: Seq<u8>|
            key != group_key(incoming) ==> #[trigger] group_at(final(groups)@, key) == group_at(
                old(groups)@,
                key,
            ),
        group_at(old(groups)@, group_key(incoming)) is None ==> r is Ok,
        group_at(old(groups)@, group_key(incoming)) matches Some(e) ==> placed_by_merge(
            r,
            e,
            incoming,
            test_name@,
        ),
{
    let ghost key = group_key(incoming);
    let mut p: usize = 0;
    let mut found = false;
    while p < groups.len() && !found
        invariant
            key == group_key(incoming),
            p <= groups@.len(),
            forall|q: int| 0 <= q < p ==> byte_order(group_key(#[trigger] groups@[q]), key) < 0,
            found ==> p < groups@.len() && byte_order(key, group_key(groups@[p as int])) <= 0,
        decreases groups@.len() - p + if found {
            0int
        } else {
            1int
        },
    {
        let c = compare_text(groups[p].instance_path(), incoming.instance_path());
        if c < 0 {
            p = p + 1;
        } else {
            proof {
                lemma_byte_order_flip(group_key(groups@[p as int]), key);
            }
            found = true;
        }
    }
    let ghost old_groups = groups@;
    let same = found && compare_text(groups[p].instance_path(), incoming.instance_path()) == 0;
    if same {
        proof {
            lemma_byte_order_zero(group_key(old_groups[p as int]), key);
            lemma_group_at_index(old_groups, p as int);
        }
        let existing = groups.remove(p);
        let owner = owners.remove(p);
        let m = merge_group(&existing, &incoming, owner.as_str(), test_name);
        let ghost gm = m;
        let ghost owner_name = owner@;
        assert(group_at(old_groups, key) == Some(existing));
        assert(merge_outcome(gm, existing, incoming, owner_name, test_name@));
        match m {
            Ok(merged) => {
                assert(group_merged(merged, existing, incoming));
                groups.insert(p, merged);
                owners.insert(p, owner);
                proof {
                    assert(group_keys(groups@) =~= group_keys(old_groups));
                    assert(group_keys(old_groups)[p as int] == key);
                    assert(group_keys(old_groups).to_set().contains(key));
                    assert(group_keys(groups@).to_set() =~= group_keys(old_groups).to_set().insert(
                        key,
                    ));
                    assert(groups@ =~= old_groups.update(p as int, merged));
                    assert(group_key(merged) == key);
                    lemma_group_at_index(old_groups, p as int);
                    assert forall|a: int, b: int| 0 <= a < b < groups@.len() implies byte_order(
                        group_key(groups@[a]),
                        group_key(groups@[b]),
                    ) < 0 by {
                        assert(group_key(groups@[a]) == group_key(old_groups[a]));
                        assert(group_key(groups@[b]) == group_key(old_groups[b]));
                    }
                    lemma_group_at_index(groups@, p as int);
                    assert forall|k: Seq<u8>| k != key implies #[trigger] group_at(groups@, k)
                        == group_at(old_groups, k) by {
                        lemma_group_at_update(old_groups, p as int, merged, k);
                    }
                    assert(merge_outcome(gm, existing, incoming, owner_name, test_name@) && gm is Ok);
                    assert(group_at(old(groups)@, group_key(incoming)) == Some(existing));
                }
                let res: Result<(), CoverageMergeError> = Ok(());
                proof {
                    reveal(placed_by_merge);
                    assert(placed_by_merge(res, existing, incoming, test_name@));
                }
                res
            },
            Err(e) => {
                let res: Result<(), CoverageMergeError> = Err(e);
                proof {
                    reveal(placed_by_merge);
                    assert(merge_outcome(gm, existing, incoming, owner_name, test_name@));
                    assert(placed_by_merge(res, existing, incoming, test_name@));
                }
                res
            },
        }
    } else {
        groups.insert(p, incoming);
        owners.insert(p, String::from_str(test_name));
        proof {
            assert forall|a: int| 0 <= a < p implies groups@[a] == old_groups[a] by {}
            assert(groups@[p as int] == incoming);
            assert forall|a: int| p < a < groups@.len() implies groups@[a] == old_groups[a - 1] by {}
            if found {
                lemma_byte_order_zero(key, group_key(old_groups[p as int]));
            }
            assert forall|a: int, b: int| 0 <= a < b < groups@.len() implies byte_order(
                group_key(groups@[a]),
                group_key(groups@[b]),
            ) < 0 by {
                if b <= p {
                } else if a <= p {
                    assert(found);
                    if p < b - 1 {
                        lemma_byte_order_trans(
                            key,
                            group_key(old_groups[p as int]),
                            group_key(old_groups[b - 1]),
                        );
                    }
                    if a < p {
                        lemma_byte_order_trans(group_key(old_groups[a]), key, group_key(old_groups[b - 1]));
                    }
                } else {
                    assert(byte_order(group_key(old_groups[a - 1]), group_key(old_groups[b - 1])) < 0);
                }
            }
            assert forall|k: Seq<u8>| #[trigger] group_keys(groups@).to_set().contains(k)
                == group_keys(old_groups).to_set().insert(key).contains(k) by {
                if group_keys(groups@).contains(k) {
                    let j = choose|j: int| 0 <= j < group_keys(groups@).len() && group_keys(groups@)[j] == k;
                    if j < p {
                        assert(group_keys(old_groups)[j] == k);
                    } else if j > p {
                        assert(group_keys(old_groups)[j - 1] == k);
                    }
                }
                if group_keys(old_groups).contains(k) {
                    let j = choose|j: int| 0 <= j < group_keys(old_groups).len() && group_keys(old_groups)[j] == k;
                    if j < p {
                        assert(group_keys(groups@)[j] == k);
                    } else {
                        assert(group_keys(groups@)[j + 1] == k);
                    }
                }
                if k == key {
                    assert(group_keys(groups@)[p as int] == k);
                }
            }
            assert(group_keys(groups@).to_set() =~= group_keys(old_groups).to_set().insert(key));
            assert(groups@ =~= old_groups.insert(p as int, incoming));
            assert forall|j: int| 0 <= j < old_groups.len() implies group_key(#[trigger] old_groups[j])
                != key by {
                if j < p {
                    lemma_byte_order_zero(group_key(old_groups[j]), key);
                } else {
                    assert(found);
                    lemma_byte_order_zero(key, group_key(old_groups[p as int]));
                    if j > p {
                        lemma_byte_order_trans(
                            key,
                            group_key(old_groups[p as int]),
                            group_key(old_groups[j]),
                        );
                    }
                    lemma_byte_order_zero(key, group_key(old_groups[j]));
                }
            }
            lemma_with_key_none(old_groups, key);
            assert(group_at(old_groups, key) is None);
            lemma_group_at_index(groups@, p as int);
            assert forall|k: Seq<u8>| k != key implies #[trigger] group_at(groups@, k) == group_at(
                old_groups,
                k,
            ) by {
                lemma_group_at_insert(old_groups, p as int, incoming, k);
            }
        }
        Ok(())
    }
}

/// Adds the groups of one artifact, in order, to groups kept in instance-path order.
fn place_groups(
    groups: &mut Vec<CoverageArtifactGroup>,
    owners: &mut Vec<String>,
    incoming: Vec<CoverageArtifactGroup>,
    test_name: &str,
) -> (r: Result<(), CoverageMergeError>)
    requires
        old(groups)@.len() == old(owners)@.len(),
        groups_sorted(old(groups)@),
    ensures
        r is Ok ==> final(groups)@.len() == final(owners)@.len() && groups_sorted(final(groups)@)
            && group_keys(final(groups)@).to_set() == group_keys(old(groups)@).to_set().union(
            group_keys(incoming@).to_set(),
        ),
        r is Ok ==> forall|key: Seq<u8>|
            merge_steps(
                group_at(old(groups)@, key),
                groups_with_key(incoming@, key),
                #[trigger] group_at(final(groups)@, key),
            ),
        r matches Err(x) ==> exists|key: Seq<u8>|
            #[trigger] refused_along(
                group_at(old(groups)@, key),
                groups_with_key(incoming@, key),
                x,
                test_name@,
            ),
{
    let ghost start = group_keys(groups@).to_set();
    let ghost start_groups = groups@;
    let ghost all = incoming@;
    let n = incoming.len();
    let mut rest = incoming;
    let mut t: usize = 0;
    assert(all.skip(0) =~= all);
    assert(group_keys(all.take(0)).to_set() =~= Set::empty());
    assert(start.union(Set::empty()) =~= start);
    assert forall|key: Seq<u8>|
        merge_steps(
            group_at(start_groups, key),
            groups_with_key(all.take(0), key),
            #[trigger] group_at(groups@, key),
        ) by {
        assert(all.take(0) =~= Seq::<CoverageArtifactGroup>::empty());
        lemma_with_key_empty(key);
        lemma_merge_steps_empty(group_at(start_groups, key));
    }
    while rest.len() > 0
        invariant
            start_groups == old(groups)@,
            all == incoming@,
            rest@ == all.skip(t as int),
            all.len() == n,
            t <= all.len(),
            groups@.len() == owners@.len(),
            groups_sorted(groups@),
            group_keys(groups@).to_set() == start.union(group_keys(all.take(t as int)).to_set()),
            forall|key: Seq<u8>|
                merge_steps(
                    group_at(start_groups, key),
                    groups_with_key(all.take(t as int), key),
                    #[trigger] group_at(groups@, key),
                ),
        decreases rest@.len(),
    {
        let g = rest.remove(0);
        assert(g == all[t as int]);
        let ghost before = group_keys(groups@).to_set();
        let ghost before_groups = groups@;
        match place_group(groups, owners, g, test_name) {
            Ok(()) => {},
            Err(e) => {
                proof {
                    let key = group_key(g);
                    let xs = groups_with_key(all, key);
                    let k = groups_with_key(all.take(t as int), key).len() as int;
                    lemma_with_key_prefix(all, t as int, key);
                    assert(merge_steps(
                        group_at(start_groups, key),
                        xs.take(k),
                        group_at(before_groups, key),
                    ));
                    assert(xs[k] == g);
                    assert(refused_along(group_at(start_groups, key), xs, e, test_name@));
                }
                return Err(e);
            },
        }
        proof {
            assert(group_keys(all.take(t + 1)) =~= group_keys(all.take(t as int)).push(group_key(g)));
            group_keys(all.take(t as int)).lemma_push_to_set_commute(group_key(g));
            assert(group_keys(all.take(t + 1)).to_set() =~= group_keys(all.take(t as int)).to_set().insert(
                group_key(g),
            ));
            assert(group_keys(groups@).to_set() =~= start.union(group_keys(all.take(t + 1)).to_set()));
            assert(all.skip(t + 1) =~= rest@);
            assert(all.take(t + 1) =~= all.take(t as int).push(g));
            assert forall|key: Seq<u8>|
                merge_steps(
                    group_at(start_groups, key),
                    groups_with_key(all.take(t + 1), key),
                    #[trigger] group_at(groups@, key),
                ) by {
                lemma_with_key_push(all.take(t as int), g, key);
                assert(merge_steps(
                    group_at(start_groups, key),
                    groups_with_key(all.take(t as int), key),
                    group_at(before_groups, key),
                ));
                if key == group_key(g) {
                    lemma_merge_steps_push(
                        group_at(start_groups, key),
                        groups_with_key(all.take(t as int), key),
                        group_at(before_groups, key),
                        g,
                        group_at(groups@, key),
                    );
                } else {
                    assert(group_at(groups@, key) == group_at(before_groups, key));
                }
            }
        }
        t = t + 1;
    }
    proof {
        assert(all.take(t as int) =~= all);
    }
    Ok(())
}

/// Input counts before any input is recorded.
pub open spec fn zero_counts() -> MergeCounts {
    MergeCounts { artifacts: 0, included: 0, excluded: 0, passed: 0, failed: 0, errored: 0 }
}

/// Counts after recording the first `n` keyed artifacts under `policy`.
pub open spec fn counts_of(s: Seq<(String, CoverageArtifact)>, policy: CoverageMergePolicy, n: int) -> MergeCounts
    decreases n,
{
    if n <= 0 {
        zero_counts()
    } else {
        let st = s[n - 1].1.spec_test_status();
        recorded(counts_of(s, policy, n - 1), st, policy_includes(policy, st))
    }
}

/// `inp` records artifact `a` under `policy`.
pub open spec fn input_records(inp: CoverageMergeInput, a: CoverageArtifact, policy: CoverageMergePolicy) -> bool {
    &&& inp.spec_producer_version() == a.spec_producer_version()
    &&& inp.spec_test_name() == a.spec_test_name()
    &&& inp.spec_test_status() == a.spec_test_status()
    &&& inp.spec_replay_token() == a.spec_replay_token()
    &&& inp.spec_included() == policy_includes(policy, a.spec_test_status())
    &&& inp.spec_summary() == a.spec_summary()
}

/// Instance paths, as bytes, of the groups of the included artifacts among the first `n`.
pub open spec fn seen_keys(s: Seq<(String, CoverageArtifact)>, policy: CoverageMergePolicy, n: int) -> Set<
    Seq<u8>,
>
    decreases n,
{
    if n <= 0 {
        Set::empty()
    } else if policy_includes(policy, s[n - 1].1.spec_test_status()) {
        seen_keys(s, policy, n - 1).union(group_keys(s[n - 1].1.spec_groups()).to_set())
    } else {
        seen_keys(s, policy, n - 1)
    }
}

/// Groups with key `key` of the included artifacts among the first `n`, in
/// artifact order and, within an artifact, in group order.
pub open spec fn path_history(
    s: Seq<(String, CoverageArtifact)>,
    policy: CoverageMergePolicy,
    n: int,
    key: Seq<u8>,
) -> Seq<CoverageArtifactGroup>
    decreases n,
{
    if n <= 0 {
        Seq::empty()
    } else if policy_includes(policy, s[n - 1].1.spec_test_status()) {
        path_history(s, policy, n - 1, key) + groups_with_key(s[n - 1].1.spec_groups(), key)
    } else {
        path_history(s, policy, n - 1, key)
    }
}

proof fn lemma_history_prefix(
    s: Seq<(String, CoverageArtifact)>,
    policy: CoverageMergePolicy,
    m: int,
    n: int,
    key: Seq<u8>,
)
    requires
        0 <= m <= n,
    ensures
        path_history(s, policy, m, key).len() <= path_history(s, policy, n, key).len(),
        path_history(s, policy, n, key).take(path_history(s, policy, m, key).len() as int)
            == path_history(s, policy, m, key),
    decreases n - m,
{
    if m < n {
        lemma_history_prefix(s, policy, m, n - 1, key);
        let a = path_history(s, policy, m, key);
        let b = path_history(s, policy, n - 1, key);
        let c = path_history(s, policy, n, key);
        if policy_includes(policy, s[n - 1].1.spec_test_status()) {
            assert(c.take(a.len() as int) =~= b.take(a.len() as int));
        }
    } else {
        assert(path_history(s, policy, n, key).take(path_history(s, policy, n, key).len() as int)
            =~= path_history(s, policy, n, key));
    }
}

/// Groups `gs` are what merging the keyed artifacts `s`, in this order, under
/// `policy` keeps: in path order, one per path seen, each the result of
/// merging the included groups with its path.
pub open spec fn merged_groups(
    gs: Seq<CoverageArtifactGroup>,
    s: Seq<(String, CoverageArtifact)>,
    policy: CoverageMergePolicy,
) -> bool {
    &&& groups_sorted(gs)
    &&& group_keys(gs).to_set() == seen_keys(s, policy, s.len() as int)
    &&& forall|key: Seq<u8>|
        merge_steps(None, path_history(s, policy, s.len() as int, key), #[trigger] group_at(gs, key))
}

/// Merging the keyed artifacts `s`, in this order, under `policy` fails with
/// `x`: a merge of two groups with one path is refused, or the summary of
/// the merged groups overflows.
pub open spec fn merge_refused(
    s: Seq<(String, CoverageArtifact)>,
    policy: CoverageMergePolicy,
    x: CoverageMergeError,
) -> bool {
    ||| exists|key: Seq<u8>, test: Seq<char>|
        #[trigger] refused_along(None, path_history(s, policy, s.len() as int, key), x, test)
    ||| exists|gs: Seq<CoverageArtifactGroup>|
        #[trigger] merged_groups(gs, s, policy) && match group_count_overflow(gs, 0) {
            Some(k) => x == CoverageMergeError::CountOverflow { counter: k },
            None => match ratio_sum_overflow(group_ratio_views(gs), 0) {
                Some(k) => x == CoverageMergeError::CountOverflow { counter: k },
                None => false,
            },
        }
}

/// Deterministically merged functional coverage of several per-test artifacts.
#[derive(Debug, Clone, PartialEq, Eq)]
pub struct CoverageMerge {
    producer_version: String,
    policy: CoverageMergePolicy,
    inputs: Vec<CoverageMergeInput>,
    groups: Vec<CoverageArtifactGroup>,
    summary: CoverageMergeSummary,
}

/// `m` merges the artifacts `s`, taken in this order, under `policy`.
pub open spec fn merged_from(
    m: CoverageMerge,
    s: Seq<(String, CoverageArtifact)>,
    policy: CoverageMergePolicy,
) -> bool {
    &&& m.spec_policy() == policy
    &&& m.spec_producer_version() == PRODUCER_VERSION@
    &&& m.spec_inputs().len() == s.len()
    &&& forall|k: int| 0 <= k < s.len() ==> #[trigger] input_records(m.spec_inputs()[k], s[k].1, policy)
    &&& groups_sorted(m.spec_groups())
    &&& group_keys(m.spec_groups()).to_set() == seen_keys(s, policy, s.len() as int)
    &&& forall|key: Seq<u8>|
        merge_steps(
            None,
            path_history(s, policy, s.len() as int, key),
            #[trigger] group_at(m.spec_groups(), key),
        )
    &&& summarizes_groups(m.spec_summary(), m.spec_groups(), counts_of(s, policy, s.len() as int))
}

/// `m` merges the keyed artifacts `artifacts` under `policy`: they are taken
/// in the order of their keys.
pub open spec fn merges(
    m: CoverageMerge,
    artifacts: Seq<(String, CoverageArtifact)>,
    policy: CoverageMergePolicy,
) -> bool {
    exists|s: Seq<(String, CoverageArtifact)>|
        s.to_multiset() == artifacts.to_multiset() && keys_sorted(s) && #[trigger] merged_from(
            m,
            s,
            policy,
        )
}

impl CoverageMerge {
    /// Producer version.
    pub closed spec fn spec_producer_version(&self) -> Seq<char> {
        self.producer_version@
    }

    /// Applied inclusion policy.
    pub closed spec fn spec_policy(&self) -> CoverageMergePolicy {
        self.policy
    }

    /// Input records in canonical order.
    pub closed spec fn spec_inputs(&self) -> Seq<CoverageMergeInput> {
        self.inputs@
    }

    /// Merged groups in instance-path order.
    pub closed spec fn spec_groups(&self) -> Seq<CoverageArtifactGroup> {
        self.groups@
    }

    /// Recomputed summary.
    pub closed spec fn spec_summary(&self) -> CoverageMergeSummary {
        self.summary
    }

    /// Assembles a merged document from parts that were checked elsewhere.
    pub fn from_parts(
        producer_version: &str,
        policy: CoverageMergePolicy,
        inputs: Vec<CoverageMergeInput>,
        groups: Vec<CoverageArtifactGroup>,
        summary: CoverageMergeSummary,
    ) -> (r: Self)
        ensures
            r.spec_producer_version() == producer_version@,
            r.spec_policy() == policy,
            r.spec_inputs() == inputs@,
            r.spec_groups() == groups@,
            r.spec_summary() == summary,
    {
        CoverageMerge { producer_version: String::from_str(producer_version), policy, inputs, groups, summary }
    }

    /// Merges keyed per-test artifacts deterministically.
    ///
    /// The artifacts are taken in the byte order of their keys (their
    /// canonical encodings); only those whose status the policy includes
    /// contribute counters, and groups with one instance path are merged.
    pub fn from_artifacts(policy: CoverageMergePolicy, artifacts: Vec<(String, CoverageArtifact)>) -> (r:
        Result<Self, CoverageMergeError>)
        ensures
            artifacts@.len() == 0 ==> r == Err::<Self, CoverageMergeError>(
                CoverageMergeError::NoInputArtifacts,
            ),
            artifacts@.len() > 0 && (forall|j: int|
                0 <= j < artifacts@.len() ==> !policy_includes(
                    policy,
                    (#[trigger] artifacts@[j]).1.spec_test_status(),
                )) ==> r == Err::<Self, CoverageMergeError>(
                CoverageMergeError::NoIncludedArtifacts { policy },
            ),
            r matches Ok(m) ==> merges(m, artifacts@, policy),
            r matches Err(x) ==> {
                ||| artifacts@.len() == 0 && x == CoverageMergeError::NoInputArtifacts
                ||| (forall|j: int|
                    0 <= j < artifacts@.len() ==> !policy_includes(
                        policy,
                        (#[trigger] artifacts@[j]).1.spec_test_status(),
                    )) && x == CoverageMergeError::NoIncludedArtifacts { policy }
                ||| exists|s: Seq<(String, CoverageArtifact)>|
                    s.to_multiset() == artifacts@.to_multiset() && keys_sorted(s)
                        && #[trigger] merge_refused(s, policy, x)
            },
    {
        broadcast use vstd::seq_lib::group_to_multiset_ensures;

        let n = artifacts.len();
        if n == 0 {
            return Err(CoverageMergeError::NoInputArtifacts);
        }
        let ghost original = artifacts@;
        let ghost none_included = forall|j: int|
            0 <= j < original.len() ==> !policy_includes(
                policy,
                (#[trigger] original[j]).1.spec_test_status(),
            );
        let sorted = sort_keyed(artifacts);
        let ghost s = sorted@;
        let mut rest = sorted;
        let mut inputs: Vec<CoverageMergeInput> = Vec::new();
        let mut groups: Vec<CoverageArtifactGroup> = Vec::new();
        let mut owners: Vec<String> = Vec::new();
        let mut counts = MergeCounts {
            artifacts: 0,
            included: 0,
            excluded: 0,
            passed: 0,
            failed: 0,
            errored: 0,
        };
        let mut i: usize = 0;
        assert(s.skip(0) =~= s);
        assert forall|key: Seq<u8>|
            merge_steps(None, path_history(s, policy, 0, key), #[trigger] group_at(groups@, key)) by {
            lemma_with_key_empty(key);
            assert(groups@ =~= Seq::<CoverageArtifactGroup>::empty());
            lemma_merge_steps_empty(None);
        }
        while rest.len() > 0
            invariant
                s.len() == n,
                n > 0,
                original == artifacts@,
                s.to_multiset() == original.to_multiset(),
                keys_sorted(s),
                i <= s.len(),
                counts.included == 0 ==> forall|j: int|
                    0 <= j < i ==> !policy_includes(policy, (#[trigger] s[j]).1.spec_test_status()),
                rest@ == s.skip(i as int),
                counts == counts_of(s, policy, i as int),
                counts.artifacts == i,
                counts.included <= i,
                counts.excluded <= i,
                counts.passed <= i,
                counts.failed <= i,
                counts.errored <= i,
                inputs@.len() == i,
                forall|k: int| 0 <= k < i ==> #[trigger] input_records(inputs@[k], s[k].1, policy),
                groups@.len() == owners@.len(),
                groups_sorted(groups@),
                group_keys(groups@).to_set() == seen_keys(s, policy, i as int),
                forall|key: Seq<u8>|
                    merge_steps(
                        None,
                        path_history(s, policy, i as int, key),
                        #[trigger] group_at(groups@, key),
                    ),
                none_included ==> counts.included == 0,
                none_included == (forall|j: int|
                    0 <= j < original.len() ==> !policy_includes(
                        policy,
                        (#[trigger] original[j]).1.spec_test_status(),
                    )),
            decreases rest@.len(),
        {
            let entry = rest.remove(0);
            assert(entry == s[i as int]);
            let art = entry.1;
            let status = art.test_status();
            let included = policy.includes(status);
            proof {
                if none_included {
                    assert(s.contains(s[i as int]));
                    vstd::seq_lib::to_multiset_contains(s, s[i as int]);
                    vstd::seq_lib::to_multiset_contains(original, s[i as int]);
                    assert(s.to_multiset().count(s[i as int]) > 0);
                    assert(original.to_multiset().count(s[i as int]) > 0);
                    assert(original.contains(s[i as int]));
                    let j = choose|j: int| 0 <= j < original.len() && original[j] == s[i as int];
                    assert(!policy_includes(policy, original[j].1.spec_test_status()));
                }
            }
            proof {
                assert(i < n);
                assert(record_overflow(counts, status, included) is None);
            }
            match counts.record(status, included) {
                Ok(()) => {},
                Err(e) => {
                    return Err(e);
                },
            }
            inputs.push(
                CoverageMergeInput::from_parts(
                    art.producer_version(),
                    art.test_name(),
                    status,
                    art.replay_token(),
                    included,
                    art.summary(),
                ),
            );
            let ghost before_groups = groups@;
            if included {
                let test_name = String::from_str(art.test_name());
                let ghost art_groups = art.spec_groups();
                let ag = art.into_groups();
                match place_groups(&mut groups, &mut owners, ag, test_name.as_str()) {
                    Ok(()) => {},
                    Err(e) => {
                        proof {
                            assert(art_groups == s[i as int].1.spec_groups());
                            let key = choose|key: Seq<u8>|
                                #[trigger] refused_along(
                                    group_at(before_groups, key),
                                    groups_with_key(art_groups, key),
                                    e,
                                    test_name@,
                                );
                            let hi = path_history(s, policy, i as int, key);
                            assert(merge_steps(None, hi, group_at(before_groups, key)));
                            lemma_refused_after_steps(
                                None,
                                hi,
                                group_at(before_groups, key),
                                groups_with_key(art_groups, key),
                                e,
                                test_name@,
                            );
                            assert(path_history(s, policy, i + 1, key) == hi + groups_with_key(
                                art_groups,
                                key,
                            ));
                            lemma_history_prefix(s, policy, i + 1, s.len() as int, key);
                            lemma_refused_prefix(
                                None,
                                path_history(s, policy, i + 1, key),
                                path_history(s, policy, s.len() as int, key),
                                e,
                                test_name@,
                            );
                            assert(merge_refused(s, policy, e));
                        }
                        return Err(e);
                    },
                }
                assert(art_groups == s[i as int].1.spec_groups());
                proof {
                    assert forall|key: Seq<u8>|
                        merge_steps(
                            None,
                            path_history(s, policy, i + 1, key),
                            #[trigger] group_at(groups@, key),
                        ) by {
                        assert(merge_steps(
                            None,
                            path_history(s, policy, i as int, key),
                            group_at(before_groups, key),
                        ));
                        assert(merge_steps(
                            group_at(before_groups, key),
                            groups_with_key(art_groups, key),
                            group_at(groups@, key),
                        ));
                        lemma_merge_steps_concat(
                            None,
                            path_history(s, policy, i as int, key),
                            group_at(before_groups, key),
                            groups_with_key(art_groups, key),
                            group_at(groups@, key),
                        );
                    }
                }
            }
            proof {
                assert(s.skip(i + 1) =~= rest@);
                assert forall|key: Seq<u8>|
                    merge_steps(
                        None,
                        path_history(s, policy, i + 1, key),
                        #[trigger] group_at(groups@, key),
                    ) by {
                    if !included {
                        assert(merge_steps(
                            None,
                            path_history(s, policy, i as int, key),
                            group_at(before_groups, key),
                        ));
                    }
                }
            }
            i = i + 1;
        }
        if counts.included == 0 {
            proof {
                assert forall|j: int| 0 <= j < original.len() implies !policy_includes(
                    policy,
                    (#[trigger] original[j]).1.spec_test_status(),
                ) by {
                    vstd::seq_lib::to_multiset_contains(original, original[j]);
                    vstd::seq_lib::to_multiset_contains(s, original[j]);
                    assert(original.contains(original[j]));
                    let q = choose|q: int| 0 <= q < s.len() && s[q] == original[j];
                    assert(!policy_includes(policy, s[q].1.spec_test_status()));
                }
            }
            return Err(CoverageMergeError::NoIncludedArtifacts { policy });
        }
        let summarized = merge_summary(groups.as_slice(), counts);
        let summary = match summarized {
            Ok(v) => v,
            Err(e) => {
                proof {
                    assert(merged_groups(groups@, s, policy));
                    assert(merge_refused(s, policy, e));
                }
                return Err(e);
            },
        };
        let m = CoverageMerge {
            producer_version: String::from_str(PRODUCER_VERSION),
            policy,
            inputs,
            groups,
            summary,
        };
        assert(merged_from(m, s, policy));
        Ok(m)
    }

    /// Returns the schema version.
    pub fn schema_version(&self) -> (r: u32)
        ensures
            r == MERGE_SCHEMA_VERSION,
    {
        MERGE_SCHEMA_VERSION
    }

    /// Returns the producer version.
    pub fn producer_version(&self) -> (r: &str)
        ensures
            r@ == self.spec_producer_version(),
    {
        self.producer_version.as_str()
    }

    /// Returns the applied inclusion policy.
    pub fn policy(&self) -> (r: CoverageMergePolicy)
        ensures
            r == self.spec_policy(),
    {
        self.policy
    }

    /// Returns the input records in canonical order.
    pub fn inputs(&self) -> (r: &[CoverageMergeInput])
        ensures
            r@ == self.spec_inputs(),
    {
        self.inputs.as_slice()
    }

    /// Returns the merged groups in instance-path order.
    pub fn groups(&self) -> (r: &[CoverageArtifactGroup])
        ensures
            r@ == self.spec_groups(),
    {
        self.groups.as_slice()
    }

    /// Finds a merged group by exact instance path.
    pub fn group(&self, instance_path: &str) -> (r: Option<&CoverageArtifactGroup>)
        ensures
            find_artifact_group(self.spec_groups(), instance_path@, 0) < 0 ==> r is None,
            find_artifact_group(self.spec_groups(), instance_path@, 0) >= 0 ==> r == Some(
                &self.spec_groups()[find_artifact_group(self.spec_groups(), instance_path@, 0)],
            ),
    {
        match find_artifact_group_index(self.groups.as_slice(), instance_path) {
            Some(i) => Some(&self.groups[i]),
            None => None,
        }
    }

    /// Returns the recomputed summary.
    pub fn summary(&self) -> (r: CoverageMergeSummary)
        ensures
            r == self.spec_summary(),
    {
        self.summary
    }

    /// Returns the merged bin coverage.
    pub fn coverage(&self) -> (r: CoverageRatio)
        ensures
            r == self.spec_summary().spec_coverage(),
    {
        self.summary.coverage()
    }
}

} // verus!

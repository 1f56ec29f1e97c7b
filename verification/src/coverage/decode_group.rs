use vstd::prelude::*;
use vstd::string::*;

use crate::coverage::artifact::CoverageArtifactGroup;
use crate::coverage::artifact_error::CoveragePersistenceError;
use crate::coverage::bin::BinKind;
use crate::coverage::decode_bins::{
    invalid, invalid_issue, overflow, overflow_issue, ratio_issue, reports, validate_ratio, Issue,
};
use crate::coverage::decode_items::{
    cross_views_of, item_from_record, item_rebuilt, item_record_issue, point_views_of,
};
use crate::coverage::fingerprint::{
    be_u64, definition_bytes, definition_prefix, enc_cross_bin, enc_cross_bins, enc_item, enc_items,
    enc_point_bin, enc_point_bins, enc_string, fingerprint_text_value, sha256,
    CoverageDefinitionFingerprint,
};
use crate::coverage::group::CoverageGroupSummary;
use crate::coverage::identifier::{
    is_valid_coverage_identifier, is_valid_coverage_path, valid_identifier, valid_path,
};
use crate::coverage::merge::ratio_sum_overflow;
use crate::coverage::merge_counters::CrossBinView;
use crate::coverage::merge_group::{group_summary, item_ratio_views, summarizes};
use crate::coverage::record::{GroupRecord, GroupSummaryRecord, ItemRecord};
use crate::coverage::snapshot::{
    bin_views, cross_bin_views, item_snapshot_name, BinSnapshotView, CoverageGroupSnapshot, CoverageItemSnapshot,
    CoverpointBinSnapshot, CoverpointSnapshot, Cross2Snapshot,
};
use crate::text::{decimal_spec, push_decimal, push_str, str_eq};

verus! {

/// What the group checks read of an item: whether it is a cross, its name,
/// its source names (crosses), and its bin views.
pub type Shape = (bool, Seq<char>, Seq<char>, Seq<char>, Seq<BinSnapshotView>, Seq<CrossBinView>);

/// Shape of an item snapshot.
pub open spec fn shape_of_item(i: CoverageItemSnapshot) -> Shape {
    match i {
        CoverageItemSnapshot::Coverpoint(p) => (
            false,
            p.spec_name(),
            Seq::empty(),
            Seq::empty(),
            bin_views(p.spec_bins()),
            Seq::empty(),
        ),
        CoverageItemSnapshot::Cross2(c) => (
            true,
            c.spec_name(),
            c.spec_axis_names().0,
            c.spec_axis_names().1,
            Seq::empty(),
            cross_bin_views(c.spec_bins()),
        ),
    }
}

/// Shape of a persisted item.
pub open spec fn shape_of_record(r: ItemRecord) -> Shape {
    match r {
        ItemRecord::Coverpoint { name, bins, .. } => (
            false,
            name@,
            Seq::empty(),
            Seq::empty(),
            point_views_of(bins@),
            Seq::empty(),
        ),
        ItemRecord::Cross2 { name, left_coverpoint, right_coverpoint, bins, .. } => (
            true,
            name@,
            left_coverpoint@,
            right_coverpoint@,
            Seq::empty(),
            cross_views_of(bins@),
        ),
    }
}

/// Shapes of item snapshots.
pub open spec fn item_shapes(items: Seq<CoverageItemSnapshot>) -> Seq<Shape> {
    items.map_values(|i: CoverageItemSnapshot| shape_of_item(i))
}

/// Shapes of persisted items.
pub open spec fn record_shapes(items: Seq<ItemRecord>) -> Seq<Shape> {
    items.map_values(|i: ItemRecord| shape_of_record(i))
}

/// Two items share a name.
pub open spec fn names_repeat(sh: Seq<Shape>) -> bool {
    exists|j: int, k: int| 0 <= k < j < sh.len() && sh[k].1 == sh[j].1
}

/// Index of the first coverpoint at or after `i` named `name`, or `-1`.
pub open spec fn find_point(sh: Seq<Shape>, name: Seq<char>, i: int) -> int
    decreases sh.len() - i,
{
    if i < 0 || i >= sh.len() {
        -1
    } else if !sh[i].0 && sh[i].1 == name {
        i
    } else {
        find_point(sh, name, i + 1)
    }
}

/// Normal bins among the first `n` bin views.
pub open spec fn normals(v: Seq<BinSnapshotView>, n: int) -> Seq<BinSnapshotView>
    decreases n,
{
    if n <= 0 {
        Seq::empty()
    } else if v[n - 1].2 == BinKind::Normal {
        normals(v, n - 1).push(v[n - 1])
    } else {
        normals(v, n - 1)
    }
}

/// Cross bin `b` at index `k` names source bins `l` and `r`.
pub open spec fn pair_matches(b: CrossBinView, k: int, l: BinSnapshotView, r: BinSnapshotView) -> bool {
    &&& b.0.0 == k
    &&& b.1 == l.0
    &&& b.2 == l.1
    &&& b.3 == r.0
    &&& b.4 == r.1
}

/// First problem, bin by bin from `k`, of cross bins against the row-major
/// product of normal source bins `ls` and `rs`: `Some(true)` for an ordinal
/// that does not fit, `Some(false)` for a mismatch.
pub open spec fn pairs_problem(
    cb: Seq<CrossBinView>,
    ls: Seq<BinSnapshotView>,
    rs: Seq<BinSnapshotView>,
    k: int,
) -> Option<bool>
    decreases cb.len() - k,
{
    if k < 0 || k >= cb.len() {
        None
    } else if k > u32::MAX {
        Some(true)
    } else if !pair_matches(cb[k], k, ls[k / rs.len() as int], rs[k % rs.len() as int]) {
        Some(false)
    } else {
        pairs_problem(cb, ls, rs, k + 1)
    }
}

/// Problem of cross bins `cb` against the row-major product of normal source bins.
pub open spec fn pairs_issue(
    cb: Seq<CrossBinView>,
    ls: Seq<BinSnapshotView>,
    rs: Seq<BinSnapshotView>,
    path: Seq<char>,
) -> Option<Issue> {
    if cb.len() != ls.len() * rs.len() {
        Some(invalid_issue(path, "cross bin count does not match source normal bins"@))
    } else {
        match pairs_problem(cb, ls, rs, 0) {
            Some(true) => Some(overflow_issue(path)),
            Some(false) => Some(
                invalid_issue(path, "cross bins do not match source bins in row-major order"@),
            ),
            None => None,
        }
    }
}

/// Problem of one cross (shape `c`) against the coverpoints among `sh`.
pub open spec fn source_issue(sh: Seq<Shape>, c: Shape, path: Seq<char>) -> Option<Issue> {
    let li = find_point(sh, c.2, 0);
    let ri = find_point(sh, c.3, 0);
    if li < 0 {
        Some(invalid_issue(path, "cross left coverpoint is not declared"@))
    } else if ri < 0 {
        Some(invalid_issue(path, "cross right coverpoint is not declared"@))
    } else {
        pairs_issue(
            c.5,
            normals(sh[li].4, sh[li].4.len() as int),
            normals(sh[ri].4, sh[ri].4.len() as int),
            path,
        )
    }
}

/// First cross, item by item from `j`, whose sources are wrong.
pub open spec fn first_source_issue(sh: Seq<Shape>, path: Seq<char>, j: int) -> Option<Issue>
    decreases sh.len() - j,
{
    if j < 0 || j >= sh.len() {
        None
    } else if sh[j].0 {
        match source_issue(sh, sh[j], path) {
            Some(i) => Some(i),
            None => first_source_issue(sh, path, j + 1),
        }
    } else {
        first_source_issue(sh, path, j + 1)
    }
}

/// Checks that item names are unique.
pub fn validate_item_names(items: &[CoverageItemSnapshot], path: &str) -> (r: Result<
    (),
    CoveragePersistenceError,
>)
    ensures
        names_repeat(item_shapes(items@)) ==> (r matches Err(e) && reports(
            e,
            invalid_issue(path@, "duplicate item name"@),
        )),
        !names_repeat(item_shapes(items@)) ==> r is Ok,
{
    let ghost sh = item_shapes(items@);
    let mut j: usize = 0;
    while j < items.len()
        invariant
            sh == item_shapes(items@),
            j <= items@.len(),
            forall|a: int, b: int| 0 <= b < a < j ==> sh[b].1 != sh[a].1,
        decreases items@.len() - j,
    {
        let mut k: usize = 0;
        while k < j
            invariant
                sh == item_shapes(items@),
                j < items@.len(),
                k <= j,
                forall|b: int| 0 <= b < k ==> sh[b].1 != sh[j as int].1,
            decreases j - k,
        {
            assert(sh[k as int].1 == item_snapshot_name(items@[k as int]));
            if str_eq(items[k].name(), items[j].name()) {
                assert(sh[j as int].1 == item_snapshot_name(items@[j as int]));
                return Err(invalid(path, "duplicate item name"));
            }
            assert(sh[j as int].1 == item_snapshot_name(items@[j as int]));
            k = k + 1;
        }
        j = j + 1;
    }
    Ok(())
}

fn find_point_index(items: &[CoverageItemSnapshot], name: &str) -> (r: Option<usize>)
    ensures
        match r {
            Some(t) => t as int == find_point(item_shapes(items@), name@, 0) && t < items@.len(),
            None => find_point(item_shapes(items@), name@, 0) == -1,
        },
{
    let ghost sh = item_shapes(items@);
    let mut i: usize = 0;
    while i < items.len()
        invariant
            sh == item_shapes(items@),
            i <= items@.len(),
            find_point(sh, name@, 0) == find_point(sh, name@, i as int),
        decreases items@.len() - i,
    {
        match &items[i] {
            CoverageItemSnapshot::Coverpoint(p) => {
                if str_eq(p.name(), name) {
                    return Some(i);
                }
            },
            CoverageItemSnapshot::Cross2(_) => {},
        }
        i = i + 1;
    }
    None
}

fn normal_indices(bins: &[CoverpointBinSnapshot]) -> (r: Vec<usize>)
    ensures
        r@.len() == normals(bin_views(bins@), bins@.len() as int).len(),
        forall|t: int|
            0 <= t < r@.len() ==> #[trigger] r@[t] < bins@.len() && bins@[r@[t] as int]@ == normals(
                bin_views(bins@),
                bins@.len() as int,
            )[t],
{
    let ghost v = bin_views(bins@);
    let mut out: Vec<usize> = Vec::new();
    let mut j: usize = 0;
    while j < bins.len()
        invariant
            v == bin_views(bins@),
            j <= bins@.len(),
            out@.len() == normals(v, j as int).len(),
            forall|t: int|
                0 <= t < out@.len() ==> #[trigger] out@[t] < j && bins@[out@[t] as int]@ == normals(
                    v,
                    j as int,
                )[t],
        decreases bins@.len() - j,
    {
        assert(v[j as int] == bins@[j as int]@);
        if bins[j].kind() == BinKind::Normal {
            out.push(j);
        }
        j = j + 1;
    }
    out
}

/// Checks the bins of a cross against the normal bins of its two sources.
#[verifier::loop_isolation(false)]
fn check_pairs(cross: &Cross2Snapshot, left: &CoverpointSnapshot, right: &CoverpointSnapshot, path: &str) -> (r:
    Result<(), CoveragePersistenceError>)
    ensures
        match pairs_issue(
            cross_bin_views(cross.spec_bins()),
            normals(bin_views(left.spec_bins()), left.spec_bins().len() as int),
            normals(bin_views(right.spec_bins()), right.spec_bins().len() as int),
            path@,
        ) {
            Some(i) => r matches Err(e) && reports(e, i),
            None => r is Ok,
        },
{
    let cb = cross.bins();
    let lb = left.bins();
    let rb = right.bins();
    let li = normal_indices(lb);
    let ri = normal_indices(rb);
    let ghost cv = cross_bin_views(cb@);
    let ghost ls = normals(bin_views(lb@), lb@.len() as int);
    let ghost rs = normals(bin_views(rb@), rb@.len() as int);
    let nl = li.len();
    let nr = ri.len();
    assert(nl as int * nr as int <= 0xffff_ffff_ffff_ffff * 0xffff_ffff_ffff_ffff) by (nonlinear_arith)
        requires
            nl as int <= 0xffff_ffff_ffff_ffff,
            nr as int <= 0xffff_ffff_ffff_ffff,
    ;
    let product: u128 = (nl as u128) * (nr as u128);
    assert(product == nl * nr) by (nonlinear_arith)
        requires
            product == (nl as u128) * (nr as u128),
            nl <= usize::MAX,
            nr <= usize::MAX,
    ;
    if cb.len() as u128 != product {
        return Err(invalid(path, "cross bin count does not match source normal bins"));
    }
    let mut k: usize = 0;
    let mut a: usize = 0;
    while a < nl
        invariant
            a <= nl,
            k == a * nr,
            cv.len() == nl * nr,
            pairs_problem(cv, ls, rs, 0) == pairs_problem(cv, ls, rs, k as int),
        decreases nl - a,
    {
        let mut b: usize = 0;
        while b < nr
            invariant
                a < nl,
                b <= nr,
                k == a * nr + b,
                cv.len() == nl * nr,
                pairs_problem(cv, ls, rs, 0) == pairs_problem(cv, ls, rs, k as int),
            decreases nr - b,
        {
            proof {
                crate::coverage::cross::lemma_row_major(a as int, b as int, nl as int, nr as int);
            }
            if k > 0xffff_ffffusize {
                return Err(overflow(path));
            }
            let c = &cb[k];
            let lbin = &lb[li[a]];
            let rbin = &rb[ri[b]];
            assert(cv[k as int] == cb@[k as int]@);
            if c.id().0 as usize != k || c.left_bin_id() != lbin.id() || !str_eq(
                c.left_bin_name(),
                lbin.name(),
            ) || c.right_bin_id() != rbin.id() || !str_eq(c.right_bin_name(), rbin.name()) {
                return Err(invalid(path, "cross bins do not match source bins in row-major order"));
            }
            k = k + 1;
            b = b + 1;
        }
        proof {
            assert(k == (a + 1) * nr) by (nonlinear_arith)
                requires
                    k == a * nr + nr,
            ;
        }
        a = a + 1;
    }
    Ok(())
}

/// Checks that every cross names declared coverpoints and that its bins are
/// the row-major product of their normal bins.
pub fn validate_cross_sources(items: &[CoverageItemSnapshot], path: &str) -> (r: Result<
    (),
    CoveragePersistenceError,
>)
    ensures
        match first_source_issue(item_shapes(items@), path@, 0) {
            Some(i) => r matches Err(e) && reports(e, i),
            None => r is Ok,
        },
{
    let ghost sh = item_shapes(items@);
    let mut j: usize = 0;
    while j < items.len()
        invariant
            sh == item_shapes(items@),
            j <= items@.len(),
            first_source_issue(sh, path@, 0) == first_source_issue(sh, path@, j as int),
        decreases items@.len() - j,
    {
        match &items[j] {
            CoverageItemSnapshot::Cross2(c) => {
                let ghost shj = sh[j as int];
                let l = match find_point_index(items, c.left_coverpoint_name()) {
                    Some(t) => t,
                    None => {
                        return Err(invalid(path, "cross left coverpoint is not declared"));
                    },
                };
                let r = match find_point_index(items, c.right_coverpoint_name()) {
                    Some(t) => t,
                    None => {
                        return Err(invalid(path, "cross right coverpoint is not declared"));
                    },
                };
                proof {
                    lemma_find_point_is_point(sh, shj.2, 0);
                    lemma_find_point_is_point(sh, shj.3, 0);
                }
                match (&items[l], &items[r]) {
                    (CoverageItemSnapshot::Coverpoint(lp), CoverageItemSnapshot::Coverpoint(rp)) => {
                        match check_pairs(c, lp, rp, path) {
                            Ok(()) => {},
                            Err(e) => {
                                return Err(e);
                            },
                        }
                    },
                    _ => {
                        return Err(invalid(path, "cross left coverpoint is not declared"));
                    },
                }
            },
            CoverageItemSnapshot::Coverpoint(_) => {},
        }
        j = j + 1;
    }
    Ok(())
}

/// The index found for a coverpoint name holds a coverpoint of that name.
proof fn lemma_find_point_is_point(sh: Seq<Shape>, name: Seq<char>, i: int)
    requires
        0 <= i,
    ensures
        find_point(sh, name, i) >= 0 ==> find_point(sh, name, i) < sh.len() && !sh[find_point(
            sh,
            name,
            i,
        )].0 && sh[find_point(sh, name, i)].1 == name,
        find_point(sh, name, i) >= 0 ==> find_point(sh, name, i) >= i,
    decreases sh.len() - i,
{
    if i < sh.len() && !(!sh[i].0 && sh[i].1 == name) {
        lemma_find_point_is_point(sh, name, i + 1);
    }
}

/// Path `groups[index]`.
pub open spec fn group_path(index: nat) -> Seq<char> {
    "groups["@ + decimal_spec(index) + "]"@
}

/// Path `path.items[k]`.
pub open spec fn item_path_of(path: Seq<char>, k: nat) -> Seq<char> {
    path + ".items["@ + decimal_spec(k) + "]"@
}

/// First problem, item by item from `k`, of persisted items.
pub open spec fn first_item_record_issue(items: Seq<ItemRecord>, path: Seq<char>, k: int) -> Option<
    Issue,
>
    decreases items.len() - k,
{
    if k < 0 || k >= items.len() {
        None
    } else {
        match item_record_issue(items[k], item_path_of(path, k as nat)) {
            Some(i) => Some(i),
            None => first_item_record_issue(items, path, k + 1),
        }
    }
}

/// Coverage a valid persisted item recomputes.
pub open spec fn record_item_ratio(r: ItemRecord) -> (usize, usize, usize) {
    match r {
        ItemRecord::Coverpoint { bins, .. } => crate::coverage::decode_bins::point_views_ratio(
            point_views_of(bins@),
        ),
        ItemRecord::Cross2 { bins, .. } => crate::coverage::decode_bins::cross_views_ratio(
            cross_views_of(bins@),
        ),
    }
}

/// Recomputed coverages of valid persisted items.
pub open spec fn record_ratio_views(items: Seq<ItemRecord>) -> Seq<(usize, usize, usize)> {
    items.map_values(|r: ItemRecord| record_item_ratio(r))
}

/// Number of persisted items among the first `n` that are crosses (or, when
/// `crosses` is false, coverpoints).
pub open spec fn count_records(items: Seq<ItemRecord>, n: int, crosses: bool) -> nat
    decreases n,
{
    if n <= 0 {
        0
    } else {
        count_records(items, n - 1, crosses) + if (items[n - 1] is Cross2) == crosses {
            1nat
        } else {
            0nat
        }
    }
}

/// Problem of a stored group summary against its persisted items.
pub open spec fn group_summary_issue(stored: GroupSummaryRecord, items: Seq<ItemRecord>, path: Seq<char>) -> Option<
    Issue,
> {
    let sums = crate::coverage::merge::ratio_sums_of(record_ratio_views(items), items.len() as int);
    if stored.items != items.len() || stored.coverpoints != count_records(
        items,
        items.len() as int,
        false,
    ) || stored.crosses != count_records(items, items.len() as int, true) {
        Some(invalid_issue(path + ".summary"@, "item counts disagree with items"@))
    } else {
        ratio_issue(
            stored.coverage,
            (sums.0 as usize, sums.1 as usize, sums.2 as usize),
            path + ".summary.coverage"@,
        )
    }
}

/// Problem of a persisted group at position `index`, short of its fingerprint.
pub open spec fn group_record_issue(g: GroupRecord, index: nat) -> Option<Issue> {
    let path = group_path(index);
    let items = g.items@;
    if !valid_identifier(g.definition.name@) {
        Some(invalid_issue(path + ".definition.name"@, "invalid definition name"@))
    } else if !valid_path(g.instance_path@) {
        Some(invalid_issue(path + ".instance_path"@, "invalid instance path"@))
    } else {
        match first_item_record_issue(items, path, 0) {
            Some(i) => Some(i),
            None => if names_repeat(record_shapes(items)) {
                Some(invalid_issue(path, "duplicate item name"@))
            } else {
                match first_source_issue(record_shapes(items), path, 0) {
                    Some(i) => Some(i),
                    None => if ratio_sum_overflow(record_ratio_views(items), 0) is Some {
                        Some(overflow_issue("group coverage"@))
                    } else {
                        group_summary_issue(g.summary, items, path)
                    },
                }
            },
        }
    }
}

/// Definition bytes of the first `n` coverpoint bin views.
pub open spec fn enc_point_views(v: Seq<BinSnapshotView>, n: int) -> Seq<u8>
    decreases n,
{
    if n <= 0 {
        Seq::empty()
    } else {
        enc_point_views(v, n - 1) + enc_point_bin(v[n - 1])
    }
}

/// Definition bytes of the first `n` cross-bin views.
pub open spec fn enc_cross_views(v: Seq<CrossBinView>, n: int) -> Seq<u8>
    decreases n,
{
    if n <= 0 {
        Seq::empty()
    } else {
        enc_cross_views(v, n - 1) + enc_cross_bin(v[n - 1])
    }
}

/// Definition bytes of a persisted item: what the rebuilt item encodes.
pub open spec fn enc_item_record(r: ItemRecord) -> Seq<u8> {
    match r {
        ItemRecord::Coverpoint { name, bins, .. } => seq![0u8] + enc_string(name@) + be_u64(
            bins@.len() as u64,
        ) + enc_point_views(point_views_of(bins@), bins@.len() as int),
        ItemRecord::Cross2 { name, left_coverpoint, right_coverpoint, bins, .. } => seq![1u8]
            + enc_string(name@) + enc_string(left_coverpoint@) + enc_string(right_coverpoint@)
            + be_u64(bins@.len() as u64) + enc_cross_views(cross_views_of(bins@), bins@.len() as int),
    }
}

/// Definition bytes of the first `n` persisted items.
pub open spec fn enc_item_records(items: Seq<ItemRecord>, n: int) -> Seq<u8>
    decreases n,
{
    if n <= 0 {
        Seq::empty()
    } else {
        enc_item_records(items, n - 1) + enc_item_record(items[n - 1])
    }
}

/// Canonical definition bytes of a persisted group: those of the group its
/// records describe.
pub open spec fn record_definition_bytes(g: GroupRecord) -> Seq<u8> {
    definition_prefix() + enc_string(g.definition.name@) + be_u64(g.definition.revision) + be_u64(
        g.items@.len() as u64,
    ) + enc_item_records(g.items@, g.items@.len() as int)
}

/// SHA-256 digest of the definition a persisted group describes.
pub open spec fn record_digest(g: GroupRecord) -> Seq<u8> {
    sha256(record_definition_bytes(g))
}

pub(crate) proof fn lemma_point_views_enc(bins: Seq<CoverpointBinSnapshot>, v: Seq<BinSnapshotView>, n: int)
    requires
        bin_views(bins) == v,
        0 <= n <= bins.len(),
    ensures
        enc_point_bins(bins, n) == enc_point_views(v, n),
    decreases n,
{
    if n > 0 {
        lemma_point_views_enc(bins, v, n - 1);
        assert(v[n - 1] == bins[n - 1]@);
    }
}

pub(crate) proof fn lemma_cross_views_enc(
    bins: Seq<crate::coverage::snapshot::CrossBinSnapshot>,
    v: Seq<CrossBinView>,
    n: int,
)
    requires
        cross_bin_views(bins) == v,
        0 <= n <= bins.len(),
    ensures
        enc_cross_bins(bins, n) == enc_cross_views(v, n),
    decreases n,
{
    if n > 0 {
        lemma_cross_views_enc(bins, v, n - 1);
        assert(v[n - 1] == bins[n - 1]@);
    }
}

proof fn lemma_item_enc(m: CoverageItemSnapshot, r: ItemRecord)
    requires
        item_rebuilt(m, r),
    ensures
        enc_item(m) == enc_item_record(r),
{
    match (m, r) {
        (CoverageItemSnapshot::Coverpoint(p), ItemRecord::Coverpoint { bins, .. }) => {
            assert(bin_views(p.spec_bins()).len() == p.spec_bins().len());
            lemma_point_views_enc(p.spec_bins(), point_views_of(bins@), p.spec_bins().len() as int);
        },
        (CoverageItemSnapshot::Cross2(c), ItemRecord::Cross2 { bins, .. }) => {
            assert(cross_bin_views(c.spec_bins()).len() == c.spec_bins().len());
            lemma_cross_views_enc(c.spec_bins(), cross_views_of(bins@), c.spec_bins().len() as int);
        },
        _ => {},
    }
}

proof fn lemma_items_enc(ms: Seq<CoverageItemSnapshot>, rs: Seq<ItemRecord>, n: int)
    requires
        ms.len() == rs.len(),
        0 <= n <= rs.len(),
        forall|k: int| 0 <= k < rs.len() ==> #[trigger] item_rebuilt(ms[k], rs[k]),
    ensures
        enc_items(ms, n) == enc_item_records(rs, n),
    decreases n,
{
    if n > 0 {
        lemma_items_enc(ms, rs, n - 1);
        lemma_item_enc(ms[n - 1], rs[n - 1]);
    }
}

/// A group rebuilt from its records has the definition bytes the records describe.
pub(crate) proof fn lemma_definition_bytes(s: CoverageGroupSnapshot, g: GroupRecord)
    requires
        s.spec_definition_name() == g.definition.name@,
        s.spec_revision() == g.definition.revision,
        s.spec_items().len() == g.items@.len(),
        forall|k: int| 0 <= k < g.items@.len() ==> #[trigger] item_rebuilt(s.spec_items()[k], g.items@[k]),
    ensures
        definition_bytes(s) == record_definition_bytes(g),
{
    lemma_items_enc(s.spec_items(), g.items@, g.items@.len() as int);
}

/// `r` is what rebuilding persisted group `g` at `index` gives: its first
/// problem, an unreadable fingerprint, the rebuilt group when the digest of
/// the definition its records describe is the stored one, else a fingerprint
/// mismatch that carries both digests.
pub open spec fn group_record_outcome(
    r: Result<CoverageArtifactGroup, CoveragePersistenceError>,
    g: GroupRecord,
    index: nat,
) -> bool {
    match group_record_issue(g, index) {
        Some(i) => r matches Err(e) && reports(e, i),
        None => match fingerprint_text_value(g.definition.fingerprint@) {
            None => r matches Err(CoveragePersistenceError::InvalidFingerprint { value }) && value@
                == g.definition.fingerprint@,
            Some(d) => if record_digest(g) == d {
                r matches Ok(a) && group_rebuilt(a, g) && a.spec_fingerprint()@ == d && sha256(
                    definition_bytes(a.spec_snapshot()),
                ) == d
            } else {
                r matches Err(
                    CoveragePersistenceError::FingerprintMismatch { instance_path, stored, computed },
                ) && instance_path@ == g.instance_path@ && stored@ == d && computed@ == record_digest(g)
            },
        },
    }
}

/// Persisted group `g` at `index` passes every check, its stored
/// fingerprint included.
pub open spec fn group_record_accepted(g: GroupRecord, index: nat) -> bool {
    group_record_issue(g, index) is None && fingerprint_text_value(g.definition.fingerprint@) == Some(
        record_digest(g),
    )
}

/// Rebuilding persisted groups `gs` fails with `e` at some group, every
/// earlier one having passed its checks.
pub open spec fn groups_refused(gs: Seq<GroupRecord>, e: CoveragePersistenceError) -> bool {
    exists|k: int|
        0 <= k < gs.len() && #[trigger] group_record_outcome(
            Err::<CoverageArtifactGroup, CoveragePersistenceError>(e),
            gs[k],
            k as nat,
        ) && forall|j: int| 0 <= j < k ==> #[trigger] group_record_accepted(gs[j], j as nat)
}

/// `a` is the group rebuilt from the valid persisted group `g`.
pub open spec fn group_rebuilt(a: CoverageArtifactGroup, g: GroupRecord) -> bool {
    let s = a.spec_snapshot();
    &&& s.spec_definition_name() == g.definition.name@
    &&& s.spec_revision() == g.definition.revision
    &&& s.spec_instance_path() == g.instance_path@
    &&& s.spec_items().len() == g.items@.len()
    &&& forall|k: int| 0 <= k < g.items@.len() ==> #[trigger] item_rebuilt(s.spec_items()[k], g.items@[k])
    &&& summarizes(s.spec_summary(), s.spec_items(), record_ratio_views(g.items@))
    &&& g.summary.items == s.spec_summary().spec_items()
    &&& g.summary.coverpoints == s.spec_summary().spec_coverpoints()
    &&& g.summary.crosses == s.spec_summary().spec_crosses()
    &&& (g.summary.coverage.covered, g.summary.coverage.uncovered, g.summary.coverage.total)
        == s.spec_summary().spec_coverage()@
    &&& fingerprint_text_value(g.definition.fingerprint@) == Some(a.spec_fingerprint()@)
}

pub(crate) proof fn lemma_rebuilt_items(ms: Seq<CoverageItemSnapshot>, rs: Seq<ItemRecord>, n: int)
    requires
        ms.len() == rs.len(),
        0 <= n <= rs.len(),
        forall|k: int| 0 <= k < rs.len() ==> #[trigger] item_rebuilt(ms[k], rs[k]),
    ensures
        crate::coverage::merge_group::count_snapshot_kind(
            ms,
            n,
            crate::coverage::item::CoverageItemKind::Coverpoint,
        ) == count_records(rs, n, false),
        crate::coverage::merge_group::count_snapshot_kind(
            ms,
            n,
            crate::coverage::item::CoverageItemKind::Cross2,
        ) == count_records(rs, n, true),
    decreases n,
{
    if n > 0 {
        lemma_rebuilt_items(ms, rs, n - 1);
        assert(item_rebuilt(ms[n - 1], rs[n - 1]));
    }
}

pub(crate) proof fn lemma_rebuilt_views(ms: Seq<CoverageItemSnapshot>, rs: Seq<ItemRecord>)
    requires
        ms.len() == rs.len(),
        forall|k: int| 0 <= k < rs.len() ==> #[trigger] item_rebuilt(ms[k], rs[k]),
    ensures
        item_shapes(ms) == record_shapes(rs),
        item_ratio_views(ms) == record_ratio_views(rs),
{
    assert forall|k: int| 0 <= k < rs.len() implies item_shapes(ms)[k] == record_shapes(rs)[k]
        && item_ratio_views(ms)[k] == record_ratio_views(rs)[k] by {
        assert(item_rebuilt(ms[k], rs[k]));
    }
    assert(item_shapes(ms) =~= record_shapes(rs));
    assert(item_ratio_views(ms) =~= record_ratio_views(rs));
}

fn item_path_text(path: &str, k: usize) -> (r: String)
    ensures
        r@ == item_path_of(path@, k as nat),
{
    let mut s = String::new();
    push_str(&mut s, path);
    push_str(&mut s, ".items[");
    push_decimal(&mut s, k as u64);
    push_str(&mut s, "]");
    proof {
        assert(s@ =~= item_path_of(path@, k as nat));
    }
    s
}

fn items_from_records(items: &Vec<ItemRecord>, path: &str) -> (r: Result<
    Vec<CoverageItemSnapshot>,
    CoveragePersistenceError,
>)
    ensures
        match first_item_record_issue(items@, path@, 0) {
            Some(i) => r matches Err(e) && reports(e, i),
            None => r matches Ok(v) && v@.len() == items@.len() && forall|k: int|
                0 <= k < items@.len() ==> #[trigger] item_rebuilt(v@[k], items@[k]),
        },
{
    let mut out: Vec<CoverageItemSnapshot> = Vec::new();
    let mut k: usize = 0;
    while k < items.len()
        invariant
            k <= items@.len(),
            out@.len() == k,
            forall|t: int| 0 <= t < k ==> #[trigger] item_rebuilt(out@[t], items@[t]),
            first_item_record_issue(items@, path@, 0) == first_item_record_issue(
                items@,
                path@,
                k as int,
            ),
        decreases items@.len() - k,
    {
        let p = item_path_text(path, k);
        match item_from_record(&items[k], p.as_str()) {
            Ok(m) => {
                out.push(m);
            },
            Err(e) => {
                return Err(e);
            },
        }
        k = k + 1;
    }
    Ok(out)
}

fn concat(a: &str, b: &str) -> (r: String)
    ensures
        r@ == a@ + b@,
{
    let mut s = String::new();
    push_str(&mut s, a);
    push_str(&mut s, b);
    proof {
        assert(s@ =~= a@ + b@);
    }
    s
}

/// Checks a stored group summary against the recomputed one.
fn validate_group_summary(
    stored: &GroupSummaryRecord,
    computed: CoverageGroupSummary,
    path: &str,
) -> (r: Result<(), CoveragePersistenceError>)
    ensures
        (stored.items != computed.spec_items() || stored.coverpoints != computed.spec_coverpoints()
            || stored.crosses != computed.spec_crosses()) ==> (r matches Err(e) && reports(
            e,
            invalid_issue(path@ + ".summary"@, "item counts disagree with items"@),
        )),
        !(stored.items != computed.spec_items() || stored.coverpoints
            != computed.spec_coverpoints() || stored.crosses != computed.spec_crosses())
            ==> match ratio_issue(
            stored.coverage,
            computed.spec_coverage()@,
            path@ + ".summary.coverage"@,
        ) {
            Some(i) => r matches Err(e) && reports(e, i),
            None => r is Ok,
        },
{
    if stored.items != computed.item_count() || stored.coverpoints != computed.coverpoint_count()
        || stored.crosses != computed.cross_count() {
        let p = concat(path, ".summary");
        return Err(invalid(p.as_str(), "item counts disagree with items"));
    }
    let p = concat(path, ".summary.coverage");
    validate_ratio(&stored.coverage, computed.coverage(), p.as_str())
}

fn group_path_text(index: usize) -> (r: String)
    ensures
        r@ == group_path(index as nat),
{
    let mut s = String::new();
    push_str(&mut s, "groups[");
    push_decimal(&mut s, index as u64);
    push_str(&mut s, "]");
    proof {
        assert(s@ =~= group_path(index as nat));
    }
    s
}

/// Rebuilds one persisted group at position `index`, checking its
/// identity, items, cross sources, summary and definition fingerprint.
#[verifier::rlimit(40)]
pub fn group_from_record(g: &GroupRecord, index: usize) -> (r: Result<
    CoverageArtifactGroup,
    CoveragePersistenceError,
>)
    ensures
        group_record_outcome(r, *g, index as nat),
{
    let path = group_path_text(index);
    if !is_valid_coverage_identifier(g.definition.name.as_str()) {
        let p = concat(path.as_str(), ".definition.name");
        return Err(invalid(p.as_str(), "invalid definition name"));
    }
    if !is_valid_coverage_path(g.instance_path.as_str()) {
        let p = concat(path.as_str(), ".instance_path");
        return Err(invalid(p.as_str(), "invalid instance path"));
    }
    let items = match items_from_records(&g.items, path.as_str()) {
        Ok(v) => v,
        Err(e) => {
            return Err(e);
        },
    };
    proof {
        lemma_rebuilt_views(items@, g.items@);
        lemma_rebuilt_items(items@, g.items@, g.items@.len() as int);
    }
    match validate_item_names(items.as_slice(), path.as_str()) {
        Ok(()) => {},
        Err(e) => {
            return Err(e);
        },
    }
    match validate_cross_sources(items.as_slice(), path.as_str()) {
        Ok(()) => {},
        Err(e) => {
            return Err(e);
        },
    }
    let summary = match group_summary(items.as_slice()) {
        Ok(s) => s,
        Err(_) => {
            return Err(overflow("group coverage"));
        },
    };
    match validate_group_summary(&g.summary, summary, path.as_str()) {
        Ok(()) => {},
        Err(e) => {
            return Err(e);
        },
    }
    let snapshot = CoverageGroupSnapshot::from_parts(
        g.definition.name.as_str(),
        g.definition.revision,
        g.instance_path.as_str(),
        items,
        summary,
    );
    let stored = match CoverageDefinitionFingerprint::parse(g.definition.fingerprint.as_str()) {
        Ok(f) => f,
        Err(e) => {
            return Err(e);
        },
    };
    let computed = match CoverageDefinitionFingerprint::from_group(&snapshot) {
        Ok(f) => f,
        Err(e) => {
            return Err(e);
        },
    };
    proof {
        lemma_definition_bytes(snapshot, *g);
    }
    if !stored.same_as(&computed) {
        return Err(
            CoveragePersistenceError::FingerprintMismatch {
                instance_path: String::from_str(g.instance_path.as_str()),
                stored,
                computed,
            },
        );
    }
    Ok(CoverageArtifactGroup::from_parts(snapshot, stored))
}

} // verus!

use std::sync::Arc;

use vstd::prelude::*;
use vstd::string::*;

use crate::coverage::bin::{BinId, BinKind, CoverpointBin};
use crate::coverage::coverpoint::{
    CoverageSampleDisposition, Coverpoint, CoverpointSample,
};
use crate::coverage::cross_error::{
    CrossAxis, CrossBinId, CrossBuildError, CrossCounterKind, CrossSampleError,
};
use crate::coverage::identifier::{is_valid_coverage_identifier, valid_identifier};
use crate::coverage::ratio::CoverageRatio;

verus! {

/// Default maximum generated-bin count of a two-way cross.
pub const DEFAULT_CROSS_BIN_LIMIT: usize = 4096;

/// Identifiers of the normal bins among the first `n` bins of a coverpoint.
pub open spec fn normal_ids<T>(bins: Seq<CoverpointBin<T>>, n: int) -> Seq<BinId>
    decreases n,
{
    if n <= 0 {
        Seq::empty()
    } else if bins[n - 1].kind == BinKind::Normal {
        normal_ids(bins, n - 1).push(bins[n - 1].id)
    } else {
        normal_ids(bins, n - 1)
    }
}

/// Names of the normal bins among the first `n` bins of a coverpoint.
pub open spec fn normal_names<T>(bins: Seq<CoverpointBin<T>>, n: int) -> Seq<Seq<char>>
    decreases n,
{
    if n <= 0 {
        Seq::empty()
    } else if bins[n - 1].kind == BinKind::Normal {
        normal_names(bins, n - 1).push(bins[n - 1].definition.name@)
    } else {
        normal_names(bins, n - 1)
    }
}

/// Views of a sequence of strings.
pub open spec fn string_views(v: Seq<String>) -> Seq<Seq<char>> {
    v.map_values(|s: String| s@)
}

/// Position of `id` in `ids` at or after `i`, or `-1`.
pub open spec fn find_from(ids: Seq<BinId>, id: BinId, i: int) -> int
    decreases ids.len() - i,
{
    if i < 0 || i >= ids.len() {
        -1
    } else if ids[i] == id {
        i
    } else {
        find_from(ids, id, i + 1)
    }
}

/// First identifier of `ms` at or after `i` that is not on the axis.
pub open spec fn first_unknown(axis: Seq<BinId>, ms: Seq<BinId>, i: int) -> Option<BinId>
    decreases ms.len() - i,
{
    if i < 0 || i >= ms.len() {
        None
    } else if find_from(axis, ms[i], 0) < 0 {
        Some(ms[i])
    } else {
        first_unknown(axis, ms, i + 1)
    }
}

/// Row-major ordinal of the cross bin for a pair of source bins.
pub open spec fn pair_ordinal(lids: Seq<BinId>, rids: Seq<BinId>, a: BinId, b: BinId) -> int {
    find_from(lids, a, 0) * rids.len() + find_from(rids, b, 0)
}

/// Cross bins for one left source bin paired with each right bin of `rm`.
pub open spec fn row_pairs(lids: Seq<BinId>, rids: Seq<BinId>, a: BinId, rm: Seq<BinId>) -> Seq<
    CrossBinId,
> {
    rm.map_values(|b: BinId| CrossBinId(pair_ordinal(lids, rids, a, b) as u32))
}

/// Cross bins for the Cartesian product of `lm` and `rm`, in row-major order.
pub open spec fn matched_pairs(
    lids: Seq<BinId>,
    rids: Seq<BinId>,
    lm: Seq<BinId>,
    rm: Seq<BinId>,
) -> Seq<CrossBinId>
    decreases lm.len(),
{
    if lm.len() == 0 {
        Seq::empty()
    } else {
        matched_pairs(lids, rids, lm.drop_last(), rm) + row_pairs(lids, rids, lm.last(), rm)
    }
}

/// First cross bin of `ms` at or after `i` whose hit count is saturated.
pub open spec fn first_full(bins: Seq<CrossBin>, ms: Seq<CrossBinId>, i: int) -> Option<CrossBinId>
    decreases ms.len() - i,
{
    if i < 0 || i >= ms.len() {
        None
    } else if bins[ms[i].0 as int].hits == u64::MAX {
        Some(ms[i])
    } else {
        first_full(bins, ms, i + 1)
    }
}

/// Whether ordinal `k` occurs among the first `t` entries of `ms`.
pub open spec fn hit_in(ms: Seq<CrossBinId>, k: int, t: int) -> bool {
    exists|u: int| 0 <= u < t && (#[trigger] ms[u]).0 == k
}

/// Whether a cross bin is covered.
pub open spec fn cross_bin_covered(b: CrossBin) -> bool {
    b.hits >= b.required_hits
}

/// Number of covered bins among the first `n`.
pub open spec fn count_cross_covered(bins: Seq<CrossBin>, n: int) -> nat
    decreases n,
{
    if n <= 0 {
        0
    } else {
        count_cross_covered(bins, n - 1) + if cross_bin_covered(bins[n - 1]) {
            1nat
        } else {
            0nat
        }
    }
}

/// The covered (or uncovered) bins among the first `n`, in order.
pub open spec fn filter_cross(bins: Seq<CrossBin>, n: int, covered: bool) -> Seq<CrossBin>
    decreases n,
{
    if n <= 0 {
        Seq::empty()
    } else if cross_bin_covered(bins[n - 1]) == covered {
        filter_cross(bins, n - 1, covered).push(bins[n - 1])
    } else {
        filter_cross(bins, n - 1, covered)
    }
}

/// Bin `b` is `a` with only the hit count possibly changed.
pub open spec fn same_cross_bin_but_hits(a: CrossBin, b: CrossBin) -> bool {
    &&& a.id == b.id
    &&& a.left_bin_id == b.left_bin_id
    &&& a.left_bin_name == b.left_bin_name
    &&& a.right_bin_id == b.right_bin_id
    &&& a.right_bin_name == b.right_bin_name
    &&& a.required_hits == b.required_hits
}

/// Builder for one complete two-way normal-bin cross.
pub struct Cross2Builder {
    name: String,
    left_name: String,
    left_source: Arc<str>,
    left_ids: Vec<BinId>,
    left_names: Vec<String>,
    right_name: String,
    right_source: Arc<str>,
    right_ids: Vec<BinId>,
    right_names: Vec<String>,
    required_hits: u64,
    max_bins: usize,
}

/// One generated bin in a complete two-way cross.
#[derive(Debug)]
pub struct CrossBin {
    /// Cross-local identifier.
    pub id: CrossBinId,
    /// Left source-bin identifier.
    pub left_bin_id: BinId,
    /// Left source-bin name.
    pub left_bin_name: String,
    /// Right source-bin identifier.
    pub right_bin_id: BinId,
    /// Right source-bin name.
    pub right_bin_name: String,
    /// Required hit count.
    pub required_hits: u64,
    /// Current hit count.
    pub hits: u64,
}

/// Disposition of one valid two-way cross sample.
#[derive(Debug, Clone, Copy, PartialEq, Eq, Hash, Structural)]
pub enum CrossSampleDisposition {
    /// Both axes hit normal bins and cross bins were incremented.
    Hit,
    /// At least one axis was ignored or unmatched.
    Skipped,
}

/// Result of one successfully processed cross sample.
#[derive(Debug, Clone)]
pub struct CrossSample {
    disposition: CrossSampleDisposition,
    left_disposition: CoverageSampleDisposition,
    right_disposition: CoverageSampleDisposition,
    matched_bins: Vec<CrossBinId>,
}

/// Explicitly sampled complete two-way functional cross.
pub struct Cross2 {
    name: String,
    left_name: String,
    left_source: Arc<str>,
    left_ids: Vec<BinId>,
    right_name: String,
    right_source: Arc<str>,
    right_ids: Vec<BinId>,
    bins: Vec<CrossBin>,
    samples: u64,
    skipped_samples: u64,
}

/// Captures the normal bins of one coverpoint, in declaration order.
fn capture_axis<T>(cp: &Coverpoint<T>) -> (r: (Vec<BinId>, Vec<String>))
    ensures
        r.0@ == normal_ids(cp.spec_bins(), cp.spec_bins().len() as int),
        string_views(r.1@) == normal_names(cp.spec_bins(), cp.spec_bins().len() as int),
{
    let bins = cp.bins();
    let mut ids: Vec<BinId> = Vec::new();
    let mut names: Vec<String> = Vec::new();
    let mut i: usize = 0;
    while i < bins.len()
        invariant
            bins@ == cp.spec_bins(),
            i <= bins@.len(),
            ids@ == normal_ids(bins@, i as int),
            string_views(names@) == normal_names(bins@, i as int),
        decreases bins@.len() - i,
    {
        if bins[i].kind == BinKind::Normal {
            ids.push(bins[i].id);
            let ghost before = names@;
            names.push(String::from_str(bins[i].definition.name.as_str()));
            proof {
                assert(string_views(names@) =~= string_views(before).push(
                    bins@[i as int].definition.name@,
                ));
            }
        }
        i = i + 1;
    }
    (ids, names)
}

impl Cross2Builder {
    /// Cross name.
    pub closed spec fn spec_name(&self) -> Seq<char> {
        self.name@
    }

    /// Left coverpoint name.
    pub closed spec fn spec_left_name(&self) -> Seq<char> {
        self.left_name@
    }

    /// Left coverpoint identity.
    pub closed spec fn spec_left_source(&self) -> Arc<str> {
        self.left_source
    }

    /// Left normal-bin identifiers.
    pub closed spec fn spec_left_ids(&self) -> Seq<BinId> {
        self.left_ids@
    }

    /// Left normal-bin names.
    pub closed spec fn spec_left_names(&self) -> Seq<Seq<char>> {
        string_views(self.left_names@)
    }

    /// Right coverpoint name.
    pub closed spec fn spec_right_name(&self) -> Seq<char> {
        self.right_name@
    }

    /// Right coverpoint identity.
    pub closed spec fn spec_right_source(&self) -> Arc<str> {
        self.right_source
    }

    /// Right normal-bin identifiers.
    pub closed spec fn spec_right_ids(&self) -> Seq<BinId> {
        self.right_ids@
    }

    /// Right normal-bin names.
    pub closed spec fn spec_right_names(&self) -> Seq<Seq<char>> {
        string_views(self.right_names@)
    }

    /// Hit threshold of every generated bin.
    pub closed spec fn spec_required_hits(&self) -> u64 {
        self.required_hits
    }

    /// Maximum generated-bin count.
    pub closed spec fn spec_max_bins(&self) -> usize {
        self.max_bins
    }

    /// Both axes carry as many names as identifiers.
    pub open spec fn wf(&self) -> bool {
        &&& self.spec_left_ids().len() == self.spec_left_names().len()
        &&& self.spec_right_ids().len() == self.spec_right_names().len()
    }

    /// Sets the hit threshold applied to every generated cross bin.
    pub fn at_least(self, required_hits: u64) -> (r: Self)
        ensures
            r.spec_required_hits() == required_hits,
            r.spec_max_bins() == self.spec_max_bins(),
            r.same_axes(&self),
    {
        Cross2Builder { required_hits, ..self }
    }

    /// Overrides the maximum generated cross-bin count.
    pub fn max_bins(self, max_bins: usize) -> (r: Self)
        ensures
            r.spec_max_bins() == max_bins,
            r.spec_required_hits() == self.spec_required_hits(),
            r.same_axes(&self),
    {
        Cross2Builder { max_bins, ..self }
    }

    /// Same name and captured axes as `other`.
    pub open spec fn same_axes(&self, other: &Self) -> bool {
        &&& self.spec_name() == other.spec_name()
        &&& self.spec_left_name() == other.spec_left_name()
        &&& self.spec_left_source() == other.spec_left_source()
        &&& self.spec_left_ids() == other.spec_left_ids()
        &&& self.spec_left_names() == other.spec_left_names()
        &&& self.spec_right_name() == other.spec_right_name()
        &&& self.spec_right_source() == other.spec_right_source()
        &&& self.spec_right_ids() == other.spec_right_ids()
        &&& self.spec_right_names() == other.spec_right_names()
    }

    /// Validates and constructs the cross.
    pub fn build(self) -> (r: Result<Cross2, CrossBuildError>)
        requires
            self.wf(),
        ensures
            r is Ok <==> cross_build_accepted(
                self.spec_name(),
                self.spec_left_ids().len(),
                self.spec_right_ids().len(),
                self.spec_required_hits(),
                self.spec_max_bins(),
            ),
            r matches Err(e) ==> cross_build_rejected(
                e,
                self.spec_name(),
                self.spec_left_ids().len(),
                self.spec_right_ids().len(),
                self.spec_required_hits(),
                self.spec_max_bins(),
            ),
            r matches Ok(c) ==> c.wf() && built_from(c, self),
    {
        let l = self.left_ids.len();
        let rl = self.right_ids.len();
        if !is_valid_coverage_identifier(self.name.as_str()) {
            return Err(CrossBuildError::InvalidName { name: self.name });
        }
        if self.required_hits == 0 {
            return Err(CrossBuildError::ZeroRequiredHits { cross: self.name });
        }
        if self.max_bins == 0 {
            return Err(CrossBuildError::ZeroBinLimit { cross: self.name });
        }
        let total = match l.checked_mul(rl) {
            Some(t) => t,
            None => {
                return Err(
                    CrossBuildError::CardinalityOverflow {
                        cross: self.name,
                        left_bins: l,
                        right_bins: rl,
                    },
                );
            },
        };
        if total > self.max_bins {
            return Err(
                CrossBuildError::BinLimitExceeded {
                    cross: self.name,
                    left_bins: l,
                    right_bins: rl,
                    total_bins: total,
                    limit: self.max_bins,
                },
            );
        }
        if total as u64 > 0x1_0000_0000u64 {
            return Err(CrossBuildError::TooManyBins { cross: self.name, total_bins: total });
        }
        let ghost lids = self.left_ids@;
        let ghost rids = self.right_ids@;
        let ghost lnames = string_views(self.left_names@);
        let ghost rnames = string_views(self.right_names@);
        let mut bins: Vec<CrossBin> = Vec::new();
        let mut i: usize = 0;
        while i < l
            invariant
                l == lids.len(),
                rl == rids.len(),
                total == l * rl,
                total <= 0x1_0000_0000,
                lids == self.left_ids@,
                rids == self.right_ids@,
                lnames == string_views(self.left_names@),
                rnames == string_views(self.right_names@),
                self.wf(),
                self.required_hits > 0,
                i <= l,
                bins@.len() == i * rl,
                forall|k: int|
                    0 <= k < bins@.len() ==> cross_bin_at(
                        #[trigger] bins@[k],
                        k,
                        lids,
                        rids,
                        lnames,
                        rnames,
                        self.required_hits,
                    ) && bins@[k].hits == 0,
            decreases l - i,
        {
            let mut j: usize = 0;
            while j < rl
                invariant
                    l == lids.len(),
                    rl == rids.len(),
                    total == l * rl,
                    total <= 0x1_0000_0000,
                    lids == self.left_ids@,
                    rids == self.right_ids@,
                    lnames == string_views(self.left_names@),
                    rnames == string_views(self.right_names@),
                    self.wf(),
                    self.required_hits > 0,
                    i < l,
                    j <= rl,
                    bins@.len() == i * rl + j,
                    forall|k: int|
                        0 <= k < bins@.len() ==> cross_bin_at(
                            #[trigger] bins@[k],
                            k,
                            lids,
                            rids,
                            lnames,
                            rnames,
                            self.required_hits,
                        ) && bins@[k].hits == 0,
                decreases rl - j,
            {
                proof {
                    lemma_row_major(i as int, j as int, l as int, rl as int);
                }
                let ordinal = i * rl + j;
                let ghost k = ordinal as int;
                let b = CrossBin {
                    id: CrossBinId(ordinal as u32),
                    left_bin_id: self.left_ids[i],
                    left_bin_name: String::from_str(self.left_names[i].as_str()),
                    right_bin_id: self.right_ids[j],
                    right_bin_name: String::from_str(self.right_names[j].as_str()),
                    required_hits: self.required_hits,
                    hits: 0,
                };
                proof {
                    assert(lnames[i as int] == self.left_names@[i as int]@);
                    assert(rnames[j as int] == self.right_names@[j as int]@);
                }
                bins.push(b);
                j = j + 1;
            }
            proof {
                assert((i + 1) * rl == i * rl + rl) by (nonlinear_arith);
            }
            i = i + 1;
        }
        let c = Cross2 {
            name: self.name,
            left_name: self.left_name,
            left_source: self.left_source,
            left_ids: self.left_ids,
            right_name: self.right_name,
            right_source: self.right_source,
            right_ids: self.right_ids,
            bins,
            samples: 0,
            skipped_samples: 0,
        };
        Ok(c)
    }
}

/// Row-major arithmetic for one generated cross bin.
pub proof fn lemma_row_major(i: int, j: int, l: int, r: int)
    requires
        0 <= i < l,
        0 <= j < r,
    ensures
        i * r + j < l * r,
        (i * r + j) / r == i,
        (i * r + j) % r == j,
{
    assert(i * r + j < l * r) by (nonlinear_arith)
        requires
            0 <= i < l,
            0 <= j < r,
    ;
    vstd::arithmetic::div_mod::lemma_fundamental_div_mod_converse(i * r + j, r, i, j);
}

/// Cross bin `b` is the generated bin with row-major ordinal `k`.
pub open spec fn cross_bin_at(
    b: CrossBin,
    k: int,
    lids: Seq<BinId>,
    rids: Seq<BinId>,
    lnames: Seq<Seq<char>>,
    rnames: Seq<Seq<char>>,
    required_hits: u64,
) -> bool {
    &&& b.id == CrossBinId(k as u32)
    &&& b.left_bin_id == lids[k / rids.len() as int]
    &&& b.left_bin_name@ == lnames[k / rids.len() as int]
    &&& b.right_bin_id == rids[k % rids.len() as int]
    &&& b.right_bin_name@ == rnames[k % rids.len() as int]
    &&& b.required_hits == required_hits
}

/// Whether a cross definition is accepted.
pub open spec fn cross_build_accepted(
    name: Seq<char>,
    left_bins: nat,
    right_bins: nat,
    required_hits: u64,
    max_bins: usize,
) -> bool {
    &&& valid_identifier(name)
    &&& required_hits > 0
    &&& max_bins > 0
    &&& left_bins * right_bins <= max_bins
    &&& left_bins * right_bins <= 0x1_0000_0000
}

/// The error that a rejected cross definition reports.
pub open spec fn cross_build_rejected(
    e: CrossBuildError,
    name: Seq<char>,
    left_bins: nat,
    right_bins: nat,
    required_hits: u64,
    max_bins: usize,
) -> bool {
    let total = left_bins * right_bins;
    if !valid_identifier(name) {
        e matches CrossBuildError::InvalidName { name: n } && n@ == name
    } else if required_hits == 0 {
        e matches CrossBuildError::ZeroRequiredHits { cross } && cross@ == name
    } else if max_bins == 0 {
        e matches CrossBuildError::ZeroBinLimit { cross } && cross@ == name
    } else if total > usize::MAX {
        e matches CrossBuildError::CardinalityOverflow { cross, left_bins: lb, right_bins: rb }
            && cross@ == name && lb as nat == left_bins && rb as nat == right_bins
    } else if total > max_bins {
        e matches CrossBuildError::BinLimitExceeded {
            cross,
            left_bins: lb,
            right_bins: rb,
            total_bins,
            limit,
        } && cross@ == name && lb as nat == left_bins && rb as nat == right_bins && total_bins as nat
            == total && limit == max_bins
    } else if total > 0x1_0000_0000 {
        e matches CrossBuildError::TooManyBins { cross, total_bins } && cross@ == name && total_bins as nat
            == total
    } else {
        false
    }
}

/// Cross `c` is the fresh cross generated from builder `b`.
pub open spec fn built_from(c: Cross2, b: Cross2Builder) -> bool {
    let lids = b.spec_left_ids();
    let rids = b.spec_right_ids();
    &&& c.spec_name() == b.spec_name()
    &&& c.spec_left_name() == b.spec_left_name()
    &&& c.spec_left_source() == b.spec_left_source()
    &&& c.spec_left_ids() == lids
    &&& c.spec_right_name() == b.spec_right_name()
    &&& c.spec_right_source() == b.spec_right_source()
    &&& c.spec_right_ids() == rids
    &&& c.spec_samples() == 0
    &&& c.spec_skipped() == 0
    &&& c.spec_bins().len() == lids.len() * rids.len()
    &&& forall|k: int|
        0 <= k < c.spec_bins().len() ==> cross_bin_at(
            #[trigger] c.spec_bins()[k],
            k,
            lids,
            rids,
            b.spec_left_names(),
            b.spec_right_names(),
            b.spec_required_hits(),
        ) && c.spec_bins()[k].hits == 0
}

impl CrossBin {
    /// Returns the cross-local identifier.
    pub fn id(&self) -> (r: CrossBinId)
        ensures
            r == self.id,
    {
        self.id
    }

    /// Returns the left source-bin identifier.
    pub fn left_bin_id(&self) -> (r: BinId)
        ensures
            r == self.left_bin_id,
    {
        self.left_bin_id
    }

    /// Returns the left source-bin name.
    pub fn left_bin_name(&self) -> (r: &str)
        ensures
            r@ == self.left_bin_name@,
    {
        self.left_bin_name.as_str()
    }

    /// Returns the right source-bin identifier.
    pub fn right_bin_id(&self) -> (r: BinId)
        ensures
            r == self.right_bin_id,
    {
        self.right_bin_id
    }

    /// Returns the right source-bin name.
    pub fn right_bin_name(&self) -> (r: &str)
        ensures
            r@ == self.right_bin_name@,
    {
        self.right_bin_name.as_str()
    }

    /// Returns the current hit count.
    pub fn hits(&self) -> (r: u64)
        ensures
            r == self.hits,
    {
        self.hits
    }

    /// Returns the required hit count.
    pub fn required_hits(&self) -> (r: u64)
        ensures
            r == self.required_hits,
    {
        self.required_hits
    }

    /// Returns whether the cross bin is covered.
    pub fn covered(&self) -> (r: bool)
        ensures
            r == cross_bin_covered(*self),
    {
        self.hits >= self.required_hits
    }
}

impl CrossSample {
    /// Cross disposition.
    pub closed spec fn spec_disposition(&self) -> CrossSampleDisposition {
        self.disposition
    }

    /// Left source disposition.
    pub closed spec fn spec_left_disposition(&self) -> CoverageSampleDisposition {
        self.left_disposition
    }

    /// Right source disposition.
    pub closed spec fn spec_right_disposition(&self) -> CoverageSampleDisposition {
        self.right_disposition
    }

    /// Matching cross-bin identifiers in row-major order.
    pub closed spec fn spec_matched_bins(&self) -> Seq<CrossBinId> {
        self.matched_bins@
    }

    /// Returns the cross disposition.
    pub fn disposition(&self) -> (r: CrossSampleDisposition)
        ensures
            r == self.spec_disposition(),
    {
        self.disposition
    }

    /// Returns the left coverpoint-sample disposition.
    pub fn left_disposition(&self) -> (r: CoverageSampleDisposition)
        ensures
            r == self.spec_left_disposition(),
    {
        self.left_disposition
    }

    /// Returns the right coverpoint-sample disposition.
    pub fn right_disposition(&self) -> (r: CoverageSampleDisposition)
        ensures
            r == self.spec_right_disposition(),
    {
        self.right_disposition
    }

    /// Returns matching cross-bin identifiers.
    pub fn matched_bins(&self) -> (r: &[CrossBinId])
        ensures
            r@ == self.spec_matched_bins(),
    {
        self.matched_bins.as_slice()
    }

    /// Returns whether cross bins were hit.
    pub fn hit(&self) -> (r: bool)
        ensures
            r == (self.spec_disposition() == CrossSampleDisposition::Hit),
    {
        self.disposition == CrossSampleDisposition::Hit
    }

    /// Returns whether the cross sample was skipped.
    pub fn skipped(&self) -> (r: bool)
        ensures
            r == (self.spec_disposition() == CrossSampleDisposition::Skipped),
    {
        self.disposition == CrossSampleDisposition::Skipped
    }
}

impl Cross2 {
    /// Cross name.
    pub closed spec fn spec_name(&self) -> Seq<char> {
        self.name@
    }

    /// Left coverpoint name.
    pub closed spec fn spec_left_name(&self) -> Seq<char> {
        self.left_name@
    }

    /// Left coverpoint identity.
    pub closed spec fn spec_left_source(&self) -> Arc<str> {
        self.left_source
    }

    /// Left normal-bin identifiers.
    pub closed spec fn spec_left_ids(&self) -> Seq<BinId> {
        self.left_ids@
    }

    /// Right coverpoint name.
    pub closed spec fn spec_right_name(&self) -> Seq<char> {
        self.right_name@
    }

    /// Right coverpoint identity.
    pub closed spec fn spec_right_source(&self) -> Arc<str> {
        self.right_source
    }

    /// Right normal-bin identifiers.
    pub closed spec fn spec_right_ids(&self) -> Seq<BinId> {
        self.right_ids@
    }

    /// Generated bins in row-major order.
    pub closed spec fn spec_bins(&self) -> Seq<CrossBin> {
        self.bins@
    }

    /// Valid sample calls.
    pub closed spec fn spec_samples(&self) -> u64 {
        self.samples
    }

    /// Skipped sample calls.
    pub closed spec fn spec_skipped(&self) -> u64 {
        self.skipped_samples
    }

    /// Generated bins are the row-major product of the two axes.
    pub open spec fn wf(&self) -> bool {
        let lids = self.spec_left_ids();
        let rids = self.spec_right_ids();
        &&& self.spec_bins().len() == lids.len() * rids.len()
        &&& lids.len() * rids.len() <= 0x1_0000_0000
        &&& forall|k: int|
            0 <= k < self.spec_bins().len() ==> {
                let b = #[trigger] self.spec_bins()[k];
                &&& b.id == CrossBinId(k as u32)
                &&& b.left_bin_id == lids[k / rids.len() as int]
                &&& b.right_bin_id == rids[k % rids.len() as int]
            }
    }

    /// Begins constructing a complete two-way cross over the normal bins of two coverpoints.
    pub fn builder<L, R>(name: &str, left: &Coverpoint<L>, right: &Coverpoint<R>) -> (r:
        Cross2Builder)
        ensures
            r.wf(),
            r.spec_name() == name@,
            r.spec_left_name() == left.spec_name(),
            r.spec_left_source() == left.spec_source(),
            r.spec_left_ids() == normal_ids(left.spec_bins(), left.spec_bins().len() as int),
            r.spec_left_names() == normal_names(left.spec_bins(), left.spec_bins().len() as int),
            r.spec_right_name() == right.spec_name(),
            r.spec_right_source() == right.spec_source(),
            r.spec_right_ids() == normal_ids(right.spec_bins(), right.spec_bins().len() as int),
            r.spec_right_names() == normal_names(
                right.spec_bins(),
                right.spec_bins().len() as int,
            ),
            r.spec_required_hits() == 1,
            r.spec_max_bins() == DEFAULT_CROSS_BIN_LIMIT,
    {
        let (left_ids, left_names) = capture_axis(left);
        let (right_ids, right_names) = capture_axis(right);
        proof {
            lemma_normal_lengths(left.spec_bins(), left.spec_bins().len() as int);
            lemma_normal_lengths(right.spec_bins(), right.spec_bins().len() as int);
        }
        Cross2Builder {
            name: String::from_str(name),
            left_name: String::from_str(left.name()),
            left_source: left.source_identity().clone(),
            left_ids,
            left_names,
            right_name: String::from_str(right.name()),
            right_source: right.source_identity().clone(),
            right_ids,
            right_names,
            required_hits: 1,
            max_bins: DEFAULT_CROSS_BIN_LIMIT,
        }
    }

    /// Returns the cross name.
    pub fn name(&self) -> (r: &str)
        ensures
            r@ == self.spec_name(),
    {
        self.name.as_str()
    }

    /// Returns the left coverpoint name.
    pub fn left_coverpoint_name(&self) -> (r: &str)
        ensures
            r@ == self.spec_left_name(),
    {
        self.left_name.as_str()
    }

    /// Returns the right coverpoint name.
    pub fn right_coverpoint_name(&self) -> (r: &str)
        ensures
            r@ == self.spec_right_name(),
    {
        self.right_name.as_str()
    }

    /// Returns the identity of the left source coverpoint.
    pub fn left_source_identity(&self) -> (r: &Arc<str>)
        ensures
            *r == self.spec_left_source(),
    {
        &self.left_source
    }

    /// Returns the identity of the right source coverpoint.
    pub fn right_source_identity(&self) -> (r: &Arc<str>)
        ensures
            *r == self.spec_right_source(),
    {
        &self.right_source
    }

    /// Returns cross bins in row-major order.
    pub fn bins(&self) -> (r: &[CrossBin])
        ensures
            r@ == self.spec_bins(),
    {
        self.bins.as_slice()
    }

    /// Finds one cross bin by identifier.
    pub fn bin(&self, id: CrossBinId) -> (r: Option<&CrossBin>)
        ensures
            (id.0 as int) < self.spec_bins().len() ==> r == Some(&self.spec_bins()[id.0 as int]),
            (id.0 as int) >= self.spec_bins().len() ==> r is None,
    {
        let index = id.0 as usize;
        if index < self.bins.len() {
            Some(&self.bins[index])
        } else {
            None
        }
    }

    /// Returns valid cross sample calls.
    pub fn sample_count(&self) -> (r: u64)
        ensures
            r == self.spec_samples(),
    {
        self.samples
    }

    /// Returns skipped cross sample calls.
    pub fn skipped_sample_count(&self) -> (r: u64)
        ensures
            r == self.spec_skipped(),
    {
        self.skipped_samples
    }

    /// Returns exact generated-bin coverage.
    pub fn coverage(&self) -> (r: CoverageRatio)
        ensures
            r@.0 == count_cross_covered(self.spec_bins(), self.spec_bins().len() as int),
            r@.2 == self.spec_bins().len(),
            r@.0 + r@.1 == r@.2,
    {
        let mut covered: usize = 0;
        let mut i: usize = 0;
        while i < self.bins.len()
            invariant
                i <= self.bins@.len(),
                covered == count_cross_covered(self.bins@, i as int),
                covered <= i,
            decreases self.bins@.len() - i,
        {
            if self.bins[i].hits >= self.bins[i].required_hits {
                covered = covered + 1;
            }
            i = i + 1;
        }
        CoverageRatio::new(covered, self.bins.len() - covered, self.bins.len())
    }

    /// Returns covered cross bins in row-major order.
    pub fn covered_bins(&self) -> (r: Vec<&CrossBin>)
        ensures
            r@.map_values(|b: &CrossBin| *b) == filter_cross(self.spec_bins(), self.spec_bins().len() as int, true),
    {
        self.filtered(true)
    }

    /// Returns uncovered cross bins in row-major order.
    pub fn uncovered_bins(&self) -> (r: Vec<&CrossBin>)
        ensures
            r@.map_values(|b: &CrossBin| *b) == filter_cross(self.spec_bins(), self.spec_bins().len() as int, false),
    {
        self.filtered(false)
    }

    fn filtered(&self, covered: bool) -> (r: Vec<&CrossBin>)
        ensures
            r@.map_values(|b: &CrossBin| *b) == filter_cross(self.spec_bins(), self.spec_bins().len() as int, covered),
    {
        let mut out: Vec<&CrossBin> = Vec::new();
        let mut i: usize = 0;
        while i < self.bins.len()
            invariant
                i <= self.bins@.len(),
                out@.map_values(|b: &CrossBin| *b) == filter_cross(self.bins@, i as int, covered),
            decreases self.bins@.len() - i,
        {
            let b = &self.bins[i];
            if (b.hits >= b.required_hits) == covered {
                let ghost before = out@;
                out.push(b);
                proof {
                    assert(out@.map_values(|b: &CrossBin| *b) =~= before.map_values(
                        |b: &CrossBin| *b,
                    ).push(self.bins@[i as int]));
                }
            }
            i = i + 1;
        }
        out
    }
}

/// Normal-bin identifier and name sequences have equal length.
proof fn lemma_normal_lengths<T>(bins: Seq<CoverpointBin<T>>, n: int)
    ensures
        normal_ids(bins, n).len() == normal_names(bins, n).len(),
    decreases n,
{
    if n > 0 {
        lemma_normal_lengths(bins, n - 1);
    }
}


/// Same definition and bins (up to hit counts) as `old`.
pub open spec fn same_cross_shape(old: Cross2, new: Cross2) -> bool {
    &&& new.spec_name() == old.spec_name()
    &&& new.spec_left_name() == old.spec_left_name()
    &&& new.spec_left_source() == old.spec_left_source()
    &&& new.spec_left_ids() == old.spec_left_ids()
    &&& new.spec_right_name() == old.spec_right_name()
    &&& new.spec_right_source() == old.spec_right_source()
    &&& new.spec_right_ids() == old.spec_right_ids()
    &&& new.spec_bins().len() == old.spec_bins().len()
    &&& forall|k: int|
        0 <= k < old.spec_bins().len() ==> same_cross_bin_but_hits(
            #[trigger] new.spec_bins()[k],
            old.spec_bins()[k],
        )
}

/// One cross sample from `old` to `new` with result `res`, given whether each
/// source sample originates from the cross's own source coverpoint.
pub open spec fn cross_sample_step(
    old: Cross2,
    new: Cross2,
    left: CoverpointSample,
    right: CoverpointSample,
    left_from_source: bool,
    right_from_source: bool,
    res: Result<CrossSample, CrossSampleError>,
) -> bool {
    let lids = old.spec_left_ids();
    let rids = old.spec_right_ids();
    let lm = left.spec_matched_bins();
    let rm = right.spec_matched_bins();
    let name = old.spec_name();
    let hit = left.spec_disposition() == CoverageSampleDisposition::Hit
        && right.spec_disposition() == CoverageSampleDisposition::Hit;
    let ms = matched_pairs(lids, rids, lm, rm);
    if !left_from_source {
        &&& new == old
        &&& res matches Err(CrossSampleError::SourceMismatch { cross, axis, expected, actual },)
        &&& cross@ == name
        &&& axis == CrossAxis::Left
        &&& expected@ == old.spec_left_name()
        &&& actual@ == left.spec_coverpoint()
    } else if !right_from_source {
        &&& new == old
        &&& res matches Err(CrossSampleError::SourceMismatch { cross, axis, expected, actual },)
        &&& cross@ == name
        &&& axis == CrossAxis::Right
        &&& expected@ == old.spec_right_name()
        &&& actual@ == right.spec_coverpoint()
    } else if first_unknown(lids, lm, 0) is Some {
        &&& new == old
        &&& res matches Err(CrossSampleError::UnknownBin { cross, axis, coverpoint, bin })
        &&& cross@ == name
        &&& axis == CrossAxis::Left
        &&& coverpoint@ == old.spec_left_name()
        &&& bin == first_unknown(lids, lm, 0)->0
    } else if first_unknown(rids, rm, 0) is Some {
        &&& new == old
        &&& res matches Err(CrossSampleError::UnknownBin { cross, axis, coverpoint, bin })
        &&& cross@ == name
        &&& axis == CrossAxis::Right
        &&& coverpoint@ == old.spec_right_name()
        &&& bin == first_unknown(rids, rm, 0)->0
    } else if old.spec_samples() == u64::MAX {
        &&& new == old
        &&& res matches Err(CrossSampleError::CounterOverflow { cross, bin, counter })
        &&& cross@ == name
        &&& bin is None
        &&& counter == CrossCounterKind::Samples
    } else if !hit {
        if old.spec_skipped() == u64::MAX {
            &&& new == old
            &&& res matches Err(CrossSampleError::CounterOverflow { cross, bin, counter })
            &&& cross@ == name
            &&& bin is None
            &&& counter == CrossCounterKind::SkippedSamples
        } else {
            &&& same_cross_shape(old, new)
            &&& new.spec_samples() == old.spec_samples() + 1
            &&& new.spec_skipped() == old.spec_skipped() + 1
            &&& forall|k: int|
                0 <= k < old.spec_bins().len() ==> (#[trigger] new.spec_bins()[k]).hits
                    == old.spec_bins()[k].hits
            &&& res matches Ok(s)
            &&& s.spec_disposition() == CrossSampleDisposition::Skipped
            &&& s.spec_left_disposition() == left.spec_disposition()
            &&& s.spec_right_disposition() == right.spec_disposition()
            &&& s.spec_matched_bins().len() == 0
        }
    } else if first_full(old.spec_bins(), ms, 0) is Some {
        &&& new == old
        &&& res matches Err(CrossSampleError::CounterOverflow { cross, bin, counter })
        &&& cross@ == name
        &&& bin == Some(first_full(old.spec_bins(), ms, 0)->0)
        &&& counter == CrossCounterKind::BinHits
    } else {
        &&& same_cross_shape(old, new)
        &&& new.spec_samples() == old.spec_samples() + 1
        &&& new.spec_skipped() == old.spec_skipped()
        &&& forall|k: int|
            0 <= k < old.spec_bins().len() ==> (#[trigger] new.spec_bins()[k]).hits
                == old.spec_bins()[k].hits + if hit_in(ms, k, ms.len() as int) {
                1int
            } else {
                0int
            }
        &&& res matches Ok(s)
        &&& s.spec_disposition() == CrossSampleDisposition::Hit
        &&& s.spec_left_disposition() == left.spec_disposition()
        &&& s.spec_right_disposition() == right.spec_disposition()
        &&& s.spec_matched_bins() == ms
    }
}

/// Finds the position of a source-bin identifier on an axis.
fn find_position(ids: &Vec<BinId>, id: BinId) -> (r: Option<usize>)
    ensures
        match r {
            Some(p) => p as int == find_from(ids@, id, 0) && 0 <= p < ids@.len(),
            None => find_from(ids@, id, 0) == -1,
        },
{
    let mut i: usize = 0;
    while i < ids.len()
        invariant
            i <= ids@.len(),
            find_from(ids@, id, 0) == find_from(ids@, id, i as int),
        decreases ids@.len() - i,
    {
        if ids[i] == id {
            return Some(i);
        }
        i = i + 1;
    }
    None
}

/// Finds the first matched identifier that is not on an axis.
fn find_unknown(axis: &Vec<BinId>, ms: &[BinId]) -> (r: Option<BinId>)
    ensures
        r == first_unknown(axis@, ms@, 0),
{
    let mut i: usize = 0;
    while i < ms.len()
        invariant
            i <= ms@.len(),
            first_unknown(axis@, ms@, 0) == first_unknown(axis@, ms@, i as int),
        decreases ms@.len() - i,
    {
        if find_position(axis, ms[i]).is_none() {
            return Some(ms[i]);
        }
        i = i + 1;
    }
    None
}

/// Positions found for known identifiers lie on the axis.
proof fn lemma_find_from_range(ids: Seq<BinId>, id: BinId, i: int)
    requires
        0 <= i,
    ensures
        -1 <= find_from(ids, id, i) < ids.len(),
        find_from(ids, id, i) >= 0 ==> i <= find_from(ids, id, i),
    decreases ids.len() - i,
{
    if i < ids.len() && ids[i] != id {
        lemma_find_from_range(ids, id, i + 1);
    }
}

/// With no unknown identifier, every matched identifier is on the axis.
proof fn lemma_no_unknown(axis: Seq<BinId>, ms: Seq<BinId>, i: int, t: int)
    requires
        0 <= i <= t < ms.len(),
        first_unknown(axis, ms, i) is None,
    ensures
        find_from(axis, ms[t], 0) >= 0,
    decreases t - i,
{
    if i < t {
        lemma_no_unknown(axis, ms, i + 1, t);
    }
}

/// With no saturated bin, every matched bin has room for one more hit.
proof fn lemma_no_full(bins: Seq<CrossBin>, ms: Seq<CrossBinId>, i: int, t: int)
    requires
        0 <= i <= t < ms.len(),
        first_full(bins, ms, i) is None,
    ensures
        bins[ms[t].0 as int].hits < u64::MAX,
    decreases t - i,
{
    if i < t {
        lemma_no_full(bins, ms, i + 1, t);
    }
}

impl Cross2 {
    /// Samples one pair of processed coverpoint samples, given whether each
    /// one originates from this cross's own source coverpoint.
    ///
    /// Every check runs before any counter changes, so a rejected sample
    /// leaves the cross untouched.
    #[verifier::loop_isolation(false)]
    pub fn sample_with_sources(
        &mut self,
        left: &CoverpointSample,
        right: &CoverpointSample,
        left_from_source: bool,
        right_from_source: bool,
    ) -> (res: Result<CrossSample, CrossSampleError>)
        requires
            old(self).wf(),
        ensures
            final(self).wf(),
            cross_sample_step(
                *old(self),
                *final(self),
                *left,
                *right,
                left_from_source,
                right_from_source,
                res,
            ),
    {
        let ghost lids = self.left_ids@;
        let ghost rids = self.right_ids@;
        let ghost lm = left.spec_matched_bins();
        let ghost rm = right.spec_matched_bins();
        if !left_from_source {
            return Err(
                CrossSampleError::SourceMismatch {
                    cross: self.name.clone(),
                    axis: CrossAxis::Left,
                    expected: self.left_name.clone(),
                    actual: String::from_str(left.coverpoint_name()),
                },
            );
        }
        if !right_from_source {
            return Err(
                CrossSampleError::SourceMismatch {
                    cross: self.name.clone(),
                    axis: CrossAxis::Right,
                    expected: self.right_name.clone(),
                    actual: String::from_str(right.coverpoint_name()),
                },
            );
        }
        let lms = left.matched_bins();
        let rms = right.matched_bins();
        match find_unknown(&self.left_ids, lms) {
            Some(bin) => {
                return Err(
                    CrossSampleError::UnknownBin {
                        cross: self.name.clone(),
                        axis: CrossAxis::Left,
                        coverpoint: self.left_name.clone(),
                        bin,
                    },
                );
            },
            None => {},
        }
        match find_unknown(&self.right_ids, rms) {
            Some(bin) => {
                return Err(
                    CrossSampleError::UnknownBin {
                        cross: self.name.clone(),
                        axis: CrossAxis::Right,
                        coverpoint: self.right_name.clone(),
                        bin,
                    },
                );
            },
            None => {},
        }
        if self.samples == u64::MAX {
            return Err(
                CrossSampleError::CounterOverflow {
                    cross: self.name.clone(),
                    bin: None,
                    counter: CrossCounterKind::Samples,
                },
            );
        }
        if !(left.hit() && right.hit()) {
            if self.skipped_samples == u64::MAX {
                return Err(
                    CrossSampleError::CounterOverflow {
                        cross: self.name.clone(),
                        bin: None,
                        counter: CrossCounterKind::SkippedSamples,
                    },
                );
            }
            self.samples = self.samples + 1;
            self.skipped_samples = self.skipped_samples + 1;
            return Ok(
                CrossSample {
                    disposition: CrossSampleDisposition::Skipped,
                    left_disposition: left.disposition(),
                    right_disposition: right.disposition(),
                    matched_bins: Vec::new(),
                },
            );
        }
        let n = self.bins.len();
        let rl = self.right_ids.len();
        let ghost ms = matched_pairs(lids, rids, lm, rm);
        let mut matched: Vec<CrossBinId> = Vec::new();
        let mut i: usize = 0;
        while i < lms.len()
            invariant
                *self == *old(self),
                i <= lm.len(),
                matched@ == matched_pairs(lids, rids, lm.take(i as int), rm),
                forall|t: int| 0 <= t < matched@.len() ==> (#[trigger] matched@[t]).0 < n,
            decreases lm.len() - i,
        {
            proof {
                lemma_no_unknown(lids, lm, 0, i as int);
                lemma_find_from_range(lids, lm[i as int], 0);
            }
            let pl = match find_position(&self.left_ids, lms[i]) {
                Some(p) => p,
                None => 0,
            };
            let ghost row_start = matched@;
            let mut j: usize = 0;
            while j < rms.len()
                invariant
                    *self == *old(self),
                    i < lm.len(),
                    j <= rm.len(),
                    pl as int == find_from(lids, lm[i as int], 0),
                    0 <= pl < lids.len(),
                    row_start == matched_pairs(lids, rids, lm.take(i as int), rm),
                    matched@ == row_start + row_pairs(lids, rids, lm[i as int], rm.take(j as int)),
                    forall|t: int| 0 <= t < matched@.len() ==> (#[trigger] matched@[t]).0 < n,
                decreases rm.len() - j,
            {
                proof {
                    lemma_no_unknown(rids, rm, 0, j as int);
                    lemma_find_from_range(rids, rm[j as int], 0);
                }
                let pr = match find_position(&self.right_ids, rms[j]) {
                    Some(p) => p,
                    None => 0,
                };
                proof {
                    lemma_row_major(pl as int, pr as int, lids.len() as int, rl as int);
                }
                let ordinal = pl * rl + pr;
                let ghost before = matched@;
                matched.push(CrossBinId(ordinal as u32));
                proof {
                    assert(rm.take(j + 1) =~= rm.take(j as int).push(rm[j as int]));
                    assert(row_pairs(lids, rids, lm[i as int], rm.take(j + 1)) =~= row_pairs(
                        lids,
                        rids,
                        lm[i as int],
                        rm.take(j as int),
                    ).push(CrossBinId(ordinal as u32)));
                    assert(matched@ =~= row_start + row_pairs(
                        lids,
                        rids,
                        lm[i as int],
                        rm.take(j + 1),
                    ));
                }
                j = j + 1;
            }
            proof {
                assert(rm.take(rm.len() as int) =~= rm);
                assert(lm.take(i + 1).drop_last() =~= lm.take(i as int));
                assert(lm.take(i + 1).last() == lm[i as int]);
            }
            i = i + 1;
        }
        proof {
            assert(lm.take(lm.len() as int) =~= lm);
        }
        let mut t: usize = 0;
        while t < matched.len()
            invariant
                *self == *old(self),
                matched@ == ms,
                t <= ms.len(),
                first_full(self.bins@, ms, 0) == first_full(self.bins@, ms, t as int),
            decreases ms.len() - t,
        {
            let k = matched[t].0 as usize;
            if self.bins[k].hits == u64::MAX {
                return Err(
                    CrossSampleError::CounterOverflow {
                        cross: self.name.clone(),
                        bin: Some(matched[t]),
                        counter: CrossCounterKind::BinHits,
                    },
                );
            }
            t = t + 1;
        }
        let mut marks: Vec<bool> = Vec::new();
        let mut k: usize = 0;
        while k < n
            invariant
                marks@.len() == k,
                k <= n,
                forall|q: int| 0 <= q < k ==> !(#[trigger] marks@[q]),
            decreases n - k,
        {
            marks.push(false);
            k = k + 1;
        }
        let mut t: usize = 0;
        while t < matched.len()
            invariant
                *self == *old(self),
                matched@ == ms,
                t <= ms.len(),
                marks@.len() == n,
                forall|q: int| 0 <= q < n ==> (#[trigger] marks@[q]) == hit_in(ms, q, t as int),
            decreases ms.len() - t,
        {
            let q = matched[t].0 as usize;
            marks.set(q, true);
            proof {
                assert forall|p: int| 0 <= p < n implies (#[trigger] marks@[p]) == hit_in(
                    ms,
                    p,
                    t + 1,
                ) by {
                    if p == q as int {
                        assert(ms[t as int].0 == p);
                    } else {
                        if hit_in(ms, p, t + 1) {
                            let u = choose|u: int| 0 <= u < t + 1 && (#[trigger] ms[u]).0 == p;
                            assert(u != t);
                            assert(hit_in(ms, p, t as int));
                        }
                    }
                }
            }
            t = t + 1;
        }
        let ghost old_bins = self.bins@;
        self.samples = self.samples + 1;
        let mut k: usize = 0;
        while k < n
            invariant
                k <= n,
                n == old_bins.len(),
                self.bins@.len() == n,
                marks@.len() == n,
                forall|q: int| 0 <= q < n ==> (#[trigger] marks@[q]) == hit_in(ms, q, ms.len() as int),
                first_full(old_bins, ms, 0) is None,
                self.name == old(self).name,
                self.left_name == old(self).left_name,
                self.left_source == old(self).left_source,
                self.left_ids == old(self).left_ids,
                self.right_name == old(self).right_name,
                self.right_source == old(self).right_source,
                self.right_ids == old(self).right_ids,
                self.samples == old(self).samples + 1,
                self.skipped_samples == old(self).skipped_samples,
                old_bins == old(self).bins@,
                forall|q: int| 0 <= q < n ==> same_cross_bin_but_hits(#[trigger] self.bins@[q], old_bins[q]),
                forall|q: int|
                    0 <= q < k ==> (#[trigger] self.bins@[q]).hits == old_bins[q].hits + if hit_in(
                        ms,
                        q,
                        ms.len() as int,
                    ) {
                        1int
                    } else {
                        0int
                    },
                forall|q: int| k <= q < n ==> (#[trigger] self.bins@[q]).hits == old_bins[q].hits,
            decreases n - k,
        {
            if marks[k] {
                proof {
                    let u = choose|u: int| 0 <= u < ms.len() && (#[trigger] ms[u]).0 == k;
                    lemma_no_full(old_bins, ms, 0, u);
                }
                let next = self.bins[k].hits + 1;
                self.bins[k].hits = next;
            }
            k = k + 1;
        }
        Ok(
            CrossSample {
                disposition: CrossSampleDisposition::Hit,
                left_disposition: left.disposition(),
                right_disposition: right.disposition(),
                matched_bins: matched,
            },
        )
    }

    /// Samples one pair of processed coverpoint samples.
    ///
    /// Each sample must come from the exact coverpoint instance that the
    /// cross was built from; a rejected sample leaves the cross untouched.
    pub fn sample(&mut self, left: &CoverpointSample, right: &CoverpointSample) -> (res: Result<
        CrossSample,
        CrossSampleError,
    >)
        requires
            old(self).wf(),
        ensures
            final(self).wf(),
            res is Err ==> *final(self) == *old(self),
            exists|lo: bool, ro: bool|
                #[trigger] cross_sample_step(*old(self), *final(self), *left, *right, lo, ro, res),
    {
        let lo = left.originates_from(&self.left_source);
        let ro = right.originates_from(&self.right_source);
        let res = self.sample_with_sources(left, right, lo, ro);
        assert(cross_sample_step(*old(self), *self, *left, *right, lo, ro, res));
        res
    }
}

} // verus!

use std::sync::Arc;

use vstd::prelude::*;
use vstd::std_specs::cmp::{PartialEqSpec, PartialOrdIs, PartialOrdSpec};
use vstd::string::*;

use crate::coverage::bin::{bin_covered, Bin, BinId, BinKind, CoverpointBin};
use crate::coverage::error::{CoverageBuildError, CoverageCounterKind, CoverageSampleError};
use crate::coverage::identifier::{is_valid_coverage_identifier, valid_identifier};
use crate::coverage::matcher::{
    distinct_values, first_duplicate, matches_spec, obeys_order, BinMatcher,
    MatcherValidationError,
};
use crate::coverage::ratio::CoverageRatio;
use crate::text::str_eq;

verus! {

/// Creates a fresh source identity for one coverpoint instance.
///
/// Wraps `Arc::<str>::from`. Each call allocates a new `Arc`, whose address is
/// the identity; nothing is promised about the address itself.
#[verifier::external_body]
fn fresh_source(name: &str) -> (r: Arc<str>) {
    Arc::from(name)
}

/// Whether two source identities are the same allocation.
///
/// Wraps `Arc::ptr_eq`; the answer depends on addresses, so nothing is
/// promised about it.
#[verifier::external_body]
pub(crate) fn same_source(a: &Arc<str>, b: &Arc<str>) -> (r: bool) {
    Arc::ptr_eq(a, b)
}

/// Formats a sampled value with its `Debug` implementation.
///
/// Wraps `format!("{:?}")`; the text depends on the value type's own
/// `Debug` implementation, so nothing is promised about it.
#[verifier::external_body]
fn debug_text<T: core::fmt::Debug>(value: &T) -> (r: String) {
    format!("{value:?}")
}

/// Bin definition waiting to be validated and bound.
#[derive(Debug)]
pub struct PendingBin<T> {
    /// Requested semantic role.
    pub kind: BinKind,
    /// User-provided definition.
    pub definition: Bin<T>,
}

/// Builder for one typed functional coverpoint.
pub struct CoverpointBuilder<T> {
    name: String,
    bins: Vec<PendingBin<T>>,
}

/// Explicitly owned typed functional coverpoint.
pub struct Coverpoint<T> {
    name: String,
    source: Arc<str>,
    bins: Vec<CoverpointBin<T>>,
    samples: u64,
    ignored_samples: u64,
    illegal_samples: u64,
    unmatched_samples: u64,
}

/// Kind of a successfully processed sample.
#[derive(Debug, Clone, Copy, PartialEq, Eq, Hash, Structural)]
pub enum CoverageSampleDisposition {
    /// One or more normal bins were hit.
    Hit,
    /// An ignore bin excluded the sample.
    Ignored,
    /// No bin matched.
    Unmatched,
}

/// Result of one non-illegal coverpoint sample.
#[derive(Debug, Clone)]
pub struct CoverpointSample {
    disposition: CoverageSampleDisposition,
    matched_bins: Vec<BinId>,
    coverpoint: String,
    source: Arc<str>,
}

/// Whether the hit requirement is acceptable for a bin kind: non-zero for
/// normal bins, exactly one (the default) for excluded bins.
pub open spec fn hits_rule_ok(kind: BinKind, requested: u64) -> bool {
    if kind == BinKind::Normal {
        requested > 0
    } else {
        requested == 1
    }
}

/// Whether a matcher definition is valid, by the specified comparisons of `T`.
pub open spec fn matcher_ok<T: PartialOrd>(m: BinMatcher<T>) -> bool {
    match m {
        BinMatcher::Value { .. } => true,
        BinMatcher::Values { members } => members@.len() > 0 && distinct_values(members@),
        BinMatcher::InclusiveRange { start, end } => start.is_le(&end),
    }
}

/// No earlier pending bin has the same name as bin `i`.
pub open spec fn name_is_new<T>(bins: Seq<PendingBin<T>>, i: int) -> bool {
    forall|j: int| 0 <= j < i ==> (#[trigger] bins[j]).definition.name@ != bins[i].definition.name@
}

/// Pending bin `i` passes every definition check.
pub open spec fn pending_ok<T: PartialOrd>(bins: Seq<PendingBin<T>>, i: int) -> bool {
    &&& valid_identifier(bins[i].definition.name@)
    &&& name_is_new(bins, i)
    &&& obeys_order::<T>() ==> matcher_ok(bins[i].definition.matcher)
    &&& matcher_shape_ok(bins[i].definition.matcher)
    &&& hits_rule_ok(bins[i].kind, bins[i].definition.required_hits)
    &&& i <= u32::MAX
}

/// The parts of matcher validity that do not depend on comparing values.
pub open spec fn matcher_shape_ok<T>(m: BinMatcher<T>) -> bool {
    match m {
        BinMatcher::Values { members } => members@.len() > 0,
        _ => true,
    }
}

/// All pending bins before `n` pass every definition check.
pub open spec fn pending_prefix_ok<T: PartialOrd>(bins: Seq<PendingBin<T>>, n: int) -> bool {
    forall|i: int| 0 <= i < n ==> #[trigger] pending_ok(bins, i)
}

/// Some pending bin is a normal bin.
pub open spec fn has_normal_bin<T>(bins: Seq<PendingBin<T>>) -> bool {
    exists|i: int| 0 <= i < bins.len() && (#[trigger] bins[i]).kind == BinKind::Normal
}

/// `e` is the error reported for pending bin `i` of coverpoint `name`, all
/// earlier bins having passed.
pub open spec fn bin_error<T: PartialOrd>(
    name: Seq<char>,
    bins: Seq<PendingBin<T>>,
    i: int,
    e: CoverageBuildError,
) -> bool {
    let p = bins[i];
    let bin = p.definition.name@;
    let named = valid_identifier(bin) && name_is_new(bins, i);
    let matched = named && matcher_shape_ok(p.definition.matcher) && (obeys_order::<T>()
        ==> matcher_ok(p.definition.matcher));
    match e {
        CoverageBuildError::InvalidBinName { coverpoint, bin: b } => coverpoint@ == name && b@
            == bin && !valid_identifier(bin),
        CoverageBuildError::DuplicateBinName { coverpoint, bin: b } => coverpoint@ == name && b@
            == bin && valid_identifier(bin) && !name_is_new(bins, i),
        CoverageBuildError::EmptyValueSet { coverpoint, bin: b } => {
            &&& coverpoint@ == name && b@ == bin && named
            &&& p.definition.matcher matches BinMatcher::Values { members }
            &&& members@.len() == 0
        },
        CoverageBuildError::DuplicateValue { coverpoint, bin: b, first, duplicate } => {
            &&& coverpoint@ == name && b@ == bin && named
            &&& p.definition.matcher matches BinMatcher::Values { members }
            &&& first < duplicate < members@.len()
            &&& T::obeys_eq_spec() ==> first_duplicate(members@, first as int, duplicate as int)
        },
        CoverageBuildError::InvalidInclusiveRange { coverpoint, bin: b } => {
            &&& coverpoint@ == name && b@ == bin && named
            &&& p.definition.matcher matches BinMatcher::InclusiveRange { start, end }
            &&& obeys_order::<T>() ==> !start.is_le(&end)
        },
        CoverageBuildError::ZeroRequiredHits { coverpoint, bin: b } => coverpoint@ == name && b@
            == bin && matched && p.kind == BinKind::Normal && p.definition.required_hits == 0,
        CoverageBuildError::HitRequirementOnExcludedBin { coverpoint, bin: b, kind } =>
            coverpoint@ == name && b@ == bin && matched && kind == p.kind && p.kind
            != BinKind::Normal && p.definition.required_hits != 1,
        CoverageBuildError::TooManyBins { coverpoint } => coverpoint@ == name && matched
            && hits_rule_ok(p.kind, p.definition.required_hits) && i > u32::MAX,
        _ => false,
    }
}

/// The live bin built from pending bin `i`.
pub open spec fn built_bin<T>(p: PendingBin<T>, i: int) -> CoverpointBin<T> {
    CoverpointBin {
        id: BinId(i as u32),
        kind: p.kind,
        definition: p.definition,
        required_hits: p.definition.required_hits,
        hits: 0,
    }
}

/// Outcome of building coverpoint `name` from the pending bins.
pub open spec fn build_outcome<T: PartialOrd>(
    name: Seq<char>,
    bins: Seq<PendingBin<T>>,
    r: Result<Coverpoint<T>, CoverageBuildError>,
) -> bool {
    match r {
                Ok(cp) => {
                    &&& valid_identifier(name)
                    &&& pending_prefix_ok(bins, bins.len() as int)
                    &&& has_normal_bin(bins)
                    &&& cp.wf()
                    &&& cp.spec_name() == name
                    &&& cp.spec_bins().len() == bins.len()
                    &&& forall|i: int|
                        0 <= i < cp.spec_bins().len() ==> #[trigger] cp.spec_bins()[i] == built_bin(
                            bins[i],
                            i,
                        )
                    &&& cp.spec_samples() == 0 && cp.spec_ignored() == 0 && cp.spec_illegal() == 0
                        && cp.spec_unmatched() == 0
                },
                Err(e) => if !valid_identifier(name) {
                    e matches CoverageBuildError::InvalidCoverpointName { name: n } && n@ == name
                } else {
                    ||| exists|i: int|
                        0 <= i < bins.len() && pending_prefix_ok(bins, i)
                            && #[trigger] bin_error(name, bins, i, e)
                    ||| {
                        &&& pending_prefix_ok(bins, bins.len() as int)
                        &&& !has_normal_bin(bins)
                        &&& e matches CoverageBuildError::NoNormalBins { coverpoint }
                        &&& coverpoint@ == name
                    }
                },
            }
}

impl<T> CoverpointBuilder<T> {
    /// Coverpoint name being built.
    pub closed spec fn spec_name(&self) -> Seq<char> {
        self.name@
    }

    /// Pending bins in declaration order.
    pub closed spec fn spec_bins(&self) -> Seq<PendingBin<T>> {
        self.bins@
    }

    /// Adds a normal bin.
    pub fn bin(self, definition: Bin<T>) -> (r: Self)
        ensures
            r.spec_name() == self.spec_name(),
            r.spec_bins() == self.spec_bins().push(PendingBin { kind: BinKind::Normal, definition }),
    {
        let mut bins = self.bins;
        bins.push(PendingBin { kind: BinKind::Normal, definition });
        CoverpointBuilder { name: self.name, bins }
    }

    /// Adds an ignore bin.
    pub fn ignore_bin(self, definition: Bin<T>) -> (r: Self)
        ensures
            r.spec_name() == self.spec_name(),
            r.spec_bins() == self.spec_bins().push(PendingBin { kind: BinKind::Ignore, definition }),
    {
        let mut bins = self.bins;
        bins.push(PendingBin { kind: BinKind::Ignore, definition });
        CoverpointBuilder { name: self.name, bins }
    }

    /// Adds an illegal bin.
    pub fn illegal_bin(self, definition: Bin<T>) -> (r: Self)
        ensures
            r.spec_name() == self.spec_name(),
            r.spec_bins() == self.spec_bins().push(
                PendingBin { kind: BinKind::Illegal, definition },
            ),
    {
        let mut bins = self.bins;
        bins.push(PendingBin { kind: BinKind::Illegal, definition });
        CoverpointBuilder { name: self.name, bins }
    }

    /// Validates and builds the coverpoint.
    ///
    /// Checks, in order: the coverpoint name; then for each bin in declaration
    /// order its name, its uniqueness, its matcher, its hit requirement and
    /// its ordinal; finally that some bin is a normal bin.
    #[verifier::loop_isolation(false)]
    pub fn build(self) -> (r: Result<Coverpoint<T>, CoverageBuildError>) where T: PartialOrd
        ensures
            build_outcome(self.spec_name(), self.spec_bins(), r),
    {
        let ghost pending = self.bins@;
        let ghost cp_name = self.name@;

        let name = self.name;
        let mut rest = self.bins;
        if !is_valid_coverage_identifier(name.as_str()) {
            return Err(CoverageBuildError::InvalidCoverpointName { name });
        }
        let n = rest.len();
        let mut live: Vec<CoverpointBin<T>> = Vec::new();
        let mut has_normal = false;
        let mut i: usize = 0;
        while i < n
            invariant
                n == pending.len(),
                i <= n,
                name@ == cp_name,
                valid_identifier(cp_name),
                rest@ == pending.subrange(i as int, n as int),
                live@.len() == i,
                forall|k: int| 0 <= k < i ==> #[trigger] live@[k] == built_bin(pending[k], k),
                pending_prefix_ok(pending, i as int),
                has_normal == exists|k: int| 0 <= k < i && (#[trigger] pending[k]).kind == BinKind::Normal,
            decreases n - i,
        {
            let p = rest.remove(0);
            assert(p == pending[i as int]);
            let bin_name = p.definition.name.as_str();
            if !is_valid_coverage_identifier(bin_name) {
                let e = CoverageBuildError::InvalidBinName {
                    coverpoint: name,
                    bin: p.definition.name,
                };
                assert(bin_error(cp_name, pending, i as int, e));
                assert(build_outcome(cp_name, pending, Err::<Coverpoint<T>, CoverageBuildError>(e)));
                return Err(e);
            }
            let mut k: usize = 0;
            while k < i
                invariant
                    k <= i,
                    live@.len() == i,
                    i < n == pending.len(),
                    p == pending[i as int],
                    name@ == cp_name,
                    valid_identifier(p.definition.name@),
                    pending_prefix_ok(pending, i as int),
                    forall|m: int| 0 <= m < i ==> #[trigger] live@[m] == built_bin(pending[m], m),
                    forall|m: int| 0 <= m < k ==> (#[trigger] pending[m]).definition.name@
                        != p.definition.name@,
                decreases i - k,
            {
                if str_eq(live[k].definition.name.as_str(), p.definition.name.as_str()) {
                    let e = CoverageBuildError::DuplicateBinName {
                        coverpoint: name,
                        bin: p.definition.name,
                    };
                    assert(live@[k as int] == built_bin(pending[k as int], k as int));
                    assert(!name_is_new(pending, i as int));
                    assert(bin_error(cp_name, pending, i as int, e));
                assert(build_outcome(cp_name, pending, Err::<Coverpoint<T>, CoverageBuildError>(e)));
                    return Err(e);
                }
                k = k + 1;
            }
            assert(name_is_new(pending, i as int));
            match p.definition.matcher.validate() {
                Ok(()) => {},
                Err(MatcherValidationError::EmptyValueSet) => {
                    let e = CoverageBuildError::EmptyValueSet {
                        coverpoint: name,
                        bin: p.definition.name,
                    };
                    assert(bin_error(cp_name, pending, i as int, e));
                assert(build_outcome(cp_name, pending, Err::<Coverpoint<T>, CoverageBuildError>(e)));
                    return Err(e);
                },
                Err(MatcherValidationError::DuplicateValue { first, duplicate }) => {
                    let e = CoverageBuildError::DuplicateValue {
                        coverpoint: name,
                        bin: p.definition.name,
                        first,
                        duplicate,
                    };
                    assert(bin_error(cp_name, pending, i as int, e));
                assert(build_outcome(cp_name, pending, Err::<Coverpoint<T>, CoverageBuildError>(e)));
                    return Err(e);
                },
                Err(MatcherValidationError::InvalidInclusiveRange) => {
                    let e = CoverageBuildError::InvalidInclusiveRange {
                        coverpoint: name,
                        bin: p.definition.name,
                    };
                    assert(bin_error(cp_name, pending, i as int, e));
                assert(build_outcome(cp_name, pending, Err::<Coverpoint<T>, CoverageBuildError>(e)));
                    return Err(e);
                },
            }
            let requested = p.definition.required_hits;
            if p.kind == BinKind::Normal {
                if requested == 0 {
                    let e = CoverageBuildError::ZeroRequiredHits {
                        coverpoint: name,
                        bin: p.definition.name,
                    };
                    assert(bin_error(cp_name, pending, i as int, e));
                assert(build_outcome(cp_name, pending, Err::<Coverpoint<T>, CoverageBuildError>(e)));
                    return Err(e);
                }
            } else if requested != 1 {
                let e = CoverageBuildError::HitRequirementOnExcludedBin {
                    coverpoint: name,
                    bin: p.definition.name,
                    kind: p.kind,
                };
                assert(bin_error(cp_name, pending, i as int, e));
                assert(build_outcome(cp_name, pending, Err::<Coverpoint<T>, CoverageBuildError>(e)));
                return Err(e);
            }
            if i > u32::MAX as usize {
                let e = CoverageBuildError::TooManyBins { coverpoint: name };
                assert(bin_error(cp_name, pending, i as int, e));
                assert(build_outcome(cp_name, pending, Err::<Coverpoint<T>, CoverageBuildError>(e)));
                return Err(e);
            }
            if p.kind == BinKind::Normal {
                has_normal = true;
            }
            let kind = p.kind;
            live.push(CoverpointBin::new(BinId(i as u32), kind, p.definition, requested));
            proof {
                assert(pending_ok(pending, i as int));
                assert(rest@ =~= pending.subrange(i + 1, n as int));
            }
            i = i + 1;
        }
        if !has_normal {
            return Err(CoverageBuildError::NoNormalBins { coverpoint: name });
        }
        let source = fresh_source(name.as_str());
        let cp = Coverpoint {
            name,
            source,
            bins: live,
            samples: 0,
            ignored_samples: 0,
            illegal_samples: 0,
            unmatched_samples: 0,
        };
        proof {
            assert(pending_ok(pending, n - 1));
            assert forall|k: int| 0 <= k < cp.bins@.len() implies (#[trigger] cp.bins@[k]).id == BinId(
                k as u32,
            ) && cp.bins@[k].required_hits > 0 by {
                assert(pending_ok(pending, k));
                assert(cp.bins@[k] == built_bin(pending[k], k));
            }
            assert(build_outcome(cp_name, pending, Ok::<Coverpoint<T>, CoverageBuildError>(cp)));
        }
        Ok(cp)
    }
}

impl<T> Coverpoint<T> {
    /// Coverpoint name.
    pub closed spec fn spec_name(&self) -> Seq<char> {
        self.name@
    }

    /// Source identity of this coverpoint instance.
    pub closed spec fn spec_source(&self) -> Arc<str> {
        self.source
    }

    /// Live bins in declaration order.
    pub closed spec fn spec_bins(&self) -> Seq<CoverpointBin<T>> {
        self.bins@
    }

    /// Total attempted samples.
    pub closed spec fn spec_samples(&self) -> u64 {
        self.samples
    }

    /// Samples excluded by ignore bins.
    pub closed spec fn spec_ignored(&self) -> u64 {
        self.ignored_samples
    }

    /// Samples rejected by illegal bins.
    pub closed spec fn spec_illegal(&self) -> u64 {
        self.illegal_samples
    }

    /// Samples matching no bin.
    pub closed spec fn spec_unmatched(&self) -> u64 {
        self.unmatched_samples
    }

    /// Bins carry their ordinals as identifiers and non-zero thresholds.
    pub open spec fn wf(&self) -> bool {
        &&& self.spec_bins().len() <= u32::MAX + 1
        &&& forall|i: int|
            0 <= i < self.spec_bins().len() ==> (#[trigger] self.spec_bins()[i]).id == BinId(
                i as u32,
            ) && self.spec_bins()[i].required_hits > 0
    }

    /// Starts constructing a coverpoint.
    pub fn builder(name: &str) -> (r: CoverpointBuilder<T>)
        ensures
            r.spec_name() == name@,
            r.spec_bins() == Seq::<PendingBin<T>>::empty(),
    {
        CoverpointBuilder { name: String::from_str(name), bins: Vec::new() }
    }

    /// Returns the coverpoint name.
    pub fn name(&self) -> (r: &str)
        ensures
            r@ == self.spec_name(),
    {
        self.name.as_str()
    }

    /// Returns the source identity of this coverpoint instance.
    pub fn source_identity(&self) -> (r: &Arc<str>)
        ensures
            *r == self.spec_source(),
    {
        &self.source
    }

    /// Returns the bins in declaration order.
    pub fn bins(&self) -> (r: &[CoverpointBin<T>])
        ensures
            r@ == self.spec_bins(),
    {
        self.bins.as_slice()
    }

    /// Returns the total attempted sample count.
    pub fn sample_count(&self) -> (r: u64)
        ensures
            r == self.spec_samples(),
    {
        self.samples
    }

    /// Returns the ignored sample count.
    pub fn ignored_sample_count(&self) -> (r: u64)
        ensures
            r == self.spec_ignored(),
    {
        self.ignored_samples
    }

    /// Returns the illegal sample count.
    pub fn illegal_sample_count(&self) -> (r: u64)
        ensures
            r == self.spec_illegal(),
    {
        self.illegal_samples
    }

    /// Returns the unmatched sample count.
    pub fn unmatched_sample_count(&self) -> (r: u64)
        ensures
            r == self.spec_unmatched(),
    {
        self.unmatched_samples
    }

    /// Returns exact normal-bin coverage.
    pub fn coverage(&self) -> (r: CoverageRatio)
        ensures
            r@.0 == count_covered(self.spec_bins(), self.spec_bins().len() as int),
            r@.2 == count_normal(self.spec_bins(), self.spec_bins().len() as int),
            r@.0 + r@.1 == r@.2,
    {
        let mut covered: usize = 0;
        let mut total: usize = 0;
        let mut i: usize = 0;
        while i < self.bins.len()
            invariant
                i <= self.bins@.len(),
                covered == count_covered(self.bins@, i as int),
                total == count_normal(self.bins@, i as int),
                covered <= total <= i,
            decreases self.bins@.len() - i,
        {
            if self.bins[i].kind == BinKind::Normal {
                total = total + 1;
                if self.bins[i].hits >= self.bins[i].required_hits {
                    covered = covered + 1;
                }
            }
            i = i + 1;
        }
        CoverageRatio::new(covered, total - covered, total)
    }
}

/// Number of covered bins among the first `n`.
pub open spec fn count_covered<T>(bins: Seq<CoverpointBin<T>>, n: int) -> nat
    decreases n,
{
    if n <= 0 {
        0
    } else {
        count_covered(bins, n - 1) + if bin_covered(
            bins[n - 1].kind,
            bins[n - 1].hits,
            bins[n - 1].required_hits,
        ) {
            1nat
        } else {
            0nat
        }
    }
}

/// Number of normal bins among the first `n`.
pub open spec fn count_normal<T>(bins: Seq<CoverpointBin<T>>, n: int) -> nat
    decreases n,
{
    if n <= 0 {
        0
    } else {
        count_normal(bins, n - 1) + if bins[n - 1].kind == BinKind::Normal {
            1nat
        } else {
            0nat
        }
    }
}

impl CoverpointSample {
    /// Disposition of the sample.
    pub closed spec fn spec_disposition(&self) -> CoverageSampleDisposition {
        self.disposition
    }

    /// Matching normal-bin identifiers in declaration order.
    pub closed spec fn spec_matched_bins(&self) -> Seq<BinId> {
        self.matched_bins@
    }

    /// Name of the producing coverpoint.
    pub closed spec fn spec_coverpoint(&self) -> Seq<char> {
        self.coverpoint@
    }

    /// Source identity of the producing coverpoint.
    pub closed spec fn spec_source(&self) -> Arc<str> {
        self.source
    }

    /// Returns the disposition.
    pub fn disposition(&self) -> (r: CoverageSampleDisposition)
        ensures
            r == self.spec_disposition(),
    {
        self.disposition
    }

    /// Returns the matching normal-bin identifiers.
    pub fn matched_bins(&self) -> (r: &[BinId])
        ensures
            r@ == self.spec_matched_bins(),
    {
        self.matched_bins.as_slice()
    }

    /// Returns whether normal bins were hit.
    pub fn hit(&self) -> (r: bool)
        ensures
            r == (self.spec_disposition() == CoverageSampleDisposition::Hit),
    {
        self.disposition == CoverageSampleDisposition::Hit
    }

    /// Returns whether the sample was ignored.
    pub fn ignored(&self) -> (r: bool)
        ensures
            r == (self.spec_disposition() == CoverageSampleDisposition::Ignored),
    {
        self.disposition == CoverageSampleDisposition::Ignored
    }

    /// Returns whether no bin matched.
    pub fn unmatched(&self) -> (r: bool)
        ensures
            r == (self.spec_disposition() == CoverageSampleDisposition::Unmatched),
    {
        self.disposition == CoverageSampleDisposition::Unmatched
    }

    /// Returns the name of the producing coverpoint.
    pub fn coverpoint_name(&self) -> (r: &str)
        ensures
            r@ == self.spec_coverpoint(),
    {
        self.coverpoint.as_str()
    }

    /// Returns whether the sample came from the coverpoint with this source identity.
    pub fn originates_from(&self, source: &Arc<str>) -> (r: bool) {
        same_source(&self.source, source)
    }
}

/// Some matching bin has the given kind.
pub open spec fn any_matched<T>(bins: Seq<CoverpointBin<T>>, ms: Seq<bool>, kind: BinKind) -> bool {
    exists|i: int| 0 <= i < bins.len() && ms[i] && (#[trigger] bins[i]).kind == kind
}

/// Highest-precedence matched kind: illegal, then ignore, then normal; `None` when nothing matched.
pub open spec fn selected_kind<T>(bins: Seq<CoverpointBin<T>>, ms: Seq<bool>) -> Option<BinKind> {
    if any_matched(bins, ms, BinKind::Illegal) {
        Some(BinKind::Illegal)
    } else if any_matched(bins, ms, BinKind::Ignore) {
        Some(BinKind::Ignore)
    } else if any_matched(bins, ms, BinKind::Normal) {
        Some(BinKind::Normal)
    } else {
        None
    }
}

/// Bin `i` matched and belongs to the selected category.
pub open spec fn is_selected<T>(bins: Seq<CoverpointBin<T>>, ms: Seq<bool>, i: int) -> bool {
    ms[i] && selected_kind(bins, ms) == Some(bins[i].kind)
}

/// First selected bin at or after `i` whose hit counter is saturated.
pub open spec fn first_saturated<T>(bins: Seq<CoverpointBin<T>>, ms: Seq<bool>, i: int) -> Option<int>
    decreases bins.len() - i,
{
    if i >= bins.len() || i < 0 {
        None
    } else if is_selected(bins, ms, i) && bins[i].hits == u64::MAX {
        Some(i)
    } else {
        first_saturated(bins, ms, i + 1)
    }
}

/// Identifiers of the selected bins among the first `n`, in order.
pub open spec fn selected_ids<T>(bins: Seq<CoverpointBin<T>>, ms: Seq<bool>, n: int) -> Seq<BinId>
    decreases n,
{
    if n <= 0 {
        Seq::empty()
    } else if is_selected(bins, ms, n - 1) {
        selected_ids(bins, ms, n - 1).push(bins[n - 1].id)
    } else {
        selected_ids(bins, ms, n - 1)
    }
}

/// Names of the selected bins among the first `n`, in order.
pub open spec fn selected_names<T>(bins: Seq<CoverpointBin<T>>, ms: Seq<bool>, n: int) -> Seq<
    Seq<char>,
>
    decreases n,
{
    if n <= 0 {
        Seq::empty()
    } else if is_selected(bins, ms, n - 1) {
        selected_names(bins, ms, n - 1).push(bins[n - 1].definition.name@)
    } else {
        selected_names(bins, ms, n - 1)
    }
}

/// The counter overflow, if any, that rejects a sample before any change:
/// the total count first, then the first saturated selected bin, then the
/// counter of the selected category.
pub open spec fn sample_overflow<T>(cp: Coverpoint<T>, ms: Seq<bool>) -> Option<
    (CoverageCounterKind, Option<int>),
> {
    let bins = cp.spec_bins();
    if cp.spec_samples() == u64::MAX {
        Some((CoverageCounterKind::Samples, None))
    } else if first_saturated(bins, ms, 0) is Some {
        Some((CoverageCounterKind::BinHits, first_saturated(bins, ms, 0)))
    } else {
        match selected_kind(bins, ms) {
            Some(BinKind::Ignore) => if cp.spec_ignored() == u64::MAX {
                Some((CoverageCounterKind::IgnoredSamples, None))
            } else {
                None
            },
            Some(BinKind::Illegal) => if cp.spec_illegal() == u64::MAX {
                Some((CoverageCounterKind::IllegalSamples, None))
            } else {
                None
            },
            None => if cp.spec_unmatched() == u64::MAX {
                Some((CoverageCounterKind::UnmatchedSamples, None))
            } else {
                None
            },
            Some(BinKind::Normal) => None,
        }
    }
}

/// Bin `b` is `a` with only the hit count possibly changed.
pub open spec fn same_bin_but_hits<T>(a: CoverpointBin<T>, b: CoverpointBin<T>) -> bool {
    a.id == b.id && a.kind == b.kind && a.definition == b.definition && a.required_hits
        == b.required_hits
}

/// One sample step from `old` to `new` with match vector `ms` and result `r`.
pub open spec fn sample_step<T: PartialOrd>(
    old: Coverpoint<T>,
    new: Coverpoint<T>,
    sampled: T,
    ms: Seq<bool>,
    r: Result<CoverpointSample, CoverageSampleError>,
) -> bool {
    let bins = old.spec_bins();
    let sel = selected_kind(bins, ms);
    &&& ms.len() == bins.len()
    &&& obeys_order::<T>() ==> forall|i: int|
        0 <= i < ms.len() ==> #[trigger] ms[i] == matches_spec(bins[i].definition.matcher, sampled)
    &&& new.spec_name() == old.spec_name()
    &&& new.spec_source() == old.spec_source()
    &&& new.spec_bins().len() == bins.len()
    &&& forall|i: int| 0 <= i < bins.len() ==> same_bin_but_hits(#[trigger] new.spec_bins()[i], bins[i])
    &&& match sample_overflow(old, ms) {
        Some((counter, bin)) => {
            &&& new.spec_samples() == old.spec_samples()
            &&& new.spec_ignored() == old.spec_ignored()
            &&& new.spec_illegal() == old.spec_illegal()
            &&& new.spec_unmatched() == old.spec_unmatched()
            &&& forall|i: int| 0 <= i < bins.len() ==> (#[trigger] new.spec_bins()[i]).hits == bins[i].hits
            &&& r matches Err(CoverageSampleError::CounterOverflow { coverpoint, bin: b, counter: c })
            &&& coverpoint@ == old.spec_name() && c == counter
            &&& match bin {
                Some(i) => b is Some && b->0@ == bins[i].definition.name@,
                None => b is None,
            }
        },
        None => {
            &&& new.spec_samples() == old.spec_samples() + 1
            &&& new.spec_ignored() == old.spec_ignored() + if sel == Some(BinKind::Ignore) {
                1int
            } else {
                0int
            }
            &&& new.spec_illegal() == old.spec_illegal() + if sel == Some(BinKind::Illegal) {
                1int
            } else {
                0int
            }
            &&& new.spec_unmatched() == old.spec_unmatched() + if sel is None {
                1int
            } else {
                0int
            }
            &&& forall|i: int|
                0 <= i < bins.len() ==> (#[trigger] new.spec_bins()[i]).hits == bins[i].hits + if is_selected(
                    bins,
                    ms,
                    i,
                ) {
                    1int
                } else {
                    0int
                }
            &&& match sel {
                Some(BinKind::Illegal) => r matches Err(
                    CoverageSampleError::IllegalBinHit { coverpoint, bins: names, .. },
                ) && coverpoint@ == old.spec_name() && names@.map_values(|s: String| s@)
                    == selected_names(bins, ms, bins.len() as int),
                Some(BinKind::Normal) => r matches Ok(s) && s.spec_disposition()
                    == CoverageSampleDisposition::Hit && s.spec_matched_bins() == selected_ids(
                    bins,
                    ms,
                    bins.len() as int,
                ) && s.spec_coverpoint() == old.spec_name() && s.spec_source() == old.spec_source(),
                Some(BinKind::Ignore) => r matches Ok(s) && s.spec_disposition()
                    == CoverageSampleDisposition::Ignored && s.spec_matched_bins().len() == 0
                    && s.spec_coverpoint() == old.spec_name() && s.spec_source() == old.spec_source(),
                None => r matches Ok(s) && s.spec_disposition()
                    == CoverageSampleDisposition::Unmatched && s.spec_matched_bins().len() == 0
                    && s.spec_coverpoint() == old.spec_name() && s.spec_source() == old.spec_source(),
            }
        },
    }
}

impl<T> Coverpoint<T> {
    /// Samples one value into the coverpoint.
    ///
    /// Matching precedence is illegal, then ignore, then normal, then
    /// unmatched; every matching bin of the selected category is incremented.
    /// Illegal hits are recorded before their error is returned. A counter
    /// overflow leaves every counter unchanged.
    pub fn sample(&mut self, sampled: &T) -> (r: Result<CoverpointSample, CoverageSampleError>) where
        T: PartialOrd + core::fmt::Debug,

        requires
            old(self).wf(),
        ensures
            final(self).wf(),
            exists|ms: Seq<bool>| #[trigger] sample_step(*old(self), *final(self), *sampled, ms, r),
    {
        let n = self.bins.len();
        let mut ms: Vec<bool> = Vec::new();
        let mut i: usize = 0;
        while i < n
            invariant
                n == self.bins@.len(),
                *self == *old(self),
                old(self).wf(),
                i <= n,
                ms@.len() == i,
                obeys_order::<T>() ==> forall|k: int|
                    0 <= k < i ==> #[trigger] ms@[k] == matches_spec(
                        self.bins@[k].definition.matcher,
                        *sampled,
                    ),
            decreases n - i,
        {
            let m = self.bins[i].matches(sampled);
            ms.push(m);
            i = i + 1;
        }
        let ghost bins = self.bins@;
        let ghost msv = ms@;
        let mut has_illegal = false;
        let mut has_ignore = false;
        let mut has_normal = false;
        let mut i: usize = 0;
        while i < n
            invariant
                n == bins.len(),
                n == ms@.len(),
                ms@ == msv,
                bins == self.bins@,
                *self == *old(self),
                i <= n,
                has_illegal == exists|k: int| 0 <= k < i && msv[k] && (#[trigger] bins[k]).kind == BinKind::Illegal,
                has_ignore == exists|k: int| 0 <= k < i && msv[k] && (#[trigger] bins[k]).kind == BinKind::Ignore,
                has_normal == exists|k: int| 0 <= k < i && msv[k] && (#[trigger] bins[k]).kind == BinKind::Normal,
            decreases n - i,
        {
            if ms[i] {
                match self.bins[i].kind {
                    BinKind::Illegal => {
                        has_illegal = true;
                    },
                    BinKind::Ignore => {
                        has_ignore = true;
                    },
                    BinKind::Normal => {
                        has_normal = true;
                    },
                }
            }
            i = i + 1;
        }
        let selected: Option<BinKind> = if has_illegal {
            Some(BinKind::Illegal)
        } else if has_ignore {
            Some(BinKind::Ignore)
        } else if has_normal {
            Some(BinKind::Normal)
        } else {
            None
        };
        assert(selected == selected_kind(bins, msv));
        if self.samples == u64::MAX {
            let r = Err(
                CoverageSampleError::CounterOverflow {
                    coverpoint: self.name.clone(),
                    bin: None,
                    counter: CoverageCounterKind::Samples,
                },
            );
            assert(sample_step(*old(self), *self, *sampled, msv, r));
            return r;
        }
        let mut i: usize = 0;
        while i < n
            invariant
                n == bins.len(),
                n == ms@.len(),
                ms@ == msv,
                bins == self.bins@,
                *self == *old(self),
                old(self).wf(),
                selected == selected_kind(bins, msv),
                i <= n,
                obeys_order::<T>() ==> forall|k: int|
                    0 <= k < n ==> #[trigger] msv[k] == matches_spec(
                        bins[k].definition.matcher,
                        *sampled,
                    ),
                first_saturated(bins, msv, 0) == first_saturated(bins, msv, i as int),
                self.samples < u64::MAX,
            decreases n - i,
        {
            if ms[i] && selected == Some(self.bins[i].kind) && self.bins[i].hits == u64::MAX {
                let r = Err(
                    CoverageSampleError::CounterOverflow {
                        coverpoint: self.name.clone(),
                        bin: Some(self.bins[i].definition.name.clone()),
                        counter: CoverageCounterKind::BinHits,
                    },
                );
                assert(first_saturated(bins, msv, i as int) == Some(i as int));
                assert(sample_step(*old(self), *self, *sampled, msv, r));
                return r;
            }
            i = i + 1;
        }
        assert(first_saturated(bins, msv, 0) is None);
        let overflow = match selected {
            Some(BinKind::Ignore) => self.ignored_samples == u64::MAX,
            Some(BinKind::Illegal) => self.illegal_samples == u64::MAX,
            None => self.unmatched_samples == u64::MAX,
            Some(BinKind::Normal) => false,
        };
        if overflow {
            let counter = match selected {
                Some(BinKind::Ignore) => CoverageCounterKind::IgnoredSamples,
                Some(BinKind::Illegal) => CoverageCounterKind::IllegalSamples,
                _ => CoverageCounterKind::UnmatchedSamples,
            };
            let r = Err(
                CoverageSampleError::CounterOverflow {
                    coverpoint: self.name.clone(),
                    bin: None,
                    counter,
                },
            );
            assert(sample_step(*old(self), *self, *sampled, msv, r));
            return r;
        }
        assert(sample_overflow(*old(self), msv) is None);
        let mut ids: Vec<BinId> = Vec::new();
        let mut names: Vec<String> = Vec::new();
        let mut i: usize = 0;
        while i < n
            invariant
                n == bins.len(),
                n == ms@.len(),
                ms@ == msv,
                bins == self.bins@,
                *self == *old(self),
                selected == selected_kind(bins, msv),
                i <= n,
                ids@ == selected_ids(bins, msv, i as int),
                names@.map_values(|s: String| s@) == selected_names(bins, msv, i as int),
            decreases n - i,
        {
            if ms[i] && selected == Some(self.bins[i].kind) {
                ids.push(self.bins[i].id);
                let ghost before = names@;
                names.push(self.bins[i].definition.name.clone());
                proof {
                    assert(names@.map_values(|s: String| s@) =~= before.map_values(|s: String| s@).push(
                        bins[i as int].definition.name@,
                    ));
                }
            }
            i = i + 1;
        }
        let sampled_value = if selected == Some(BinKind::Illegal) {
            debug_text(sampled)
        } else {
            String::new()
        };
        self.samples = self.samples + 1;
        match selected {
            Some(BinKind::Ignore) => {
                self.ignored_samples = self.ignored_samples + 1;
            },
            Some(BinKind::Illegal) => {
                self.illegal_samples = self.illegal_samples + 1;
            },
            None => {
                self.unmatched_samples = self.unmatched_samples + 1;
            },
            Some(BinKind::Normal) => {},
        }
        let mut i: usize = 0;
        while i < n
            invariant
                n == bins.len(),
                n == ms@.len(),
                ms@ == msv,
                selected == selected_kind(bins, msv),
                first_saturated(bins, msv, 0) is None,
                bins == old(self).bins@,
                old(self).wf(),
                self.name == old(self).name,
                self.source == old(self).source,
                self.samples == old(self).samples + 1,
                self.ignored_samples == old(self).ignored_samples + if selected == Some(
                    BinKind::Ignore,
                ) {
                    1int
                } else {
                    0int
                },
                self.illegal_samples == old(self).illegal_samples + if selected == Some(
                    BinKind::Illegal,
                ) {
                    1int
                } else {
                    0int
                },
                self.unmatched_samples == old(self).unmatched_samples + if selected is None {
                    1int
                } else {
                    0int
                },
                i <= n,
                self.bins@.len() == n,
                forall|k: int| 0 <= k < n ==> same_bin_but_hits(#[trigger] self.bins@[k], bins[k]),
                forall|k: int|
                    0 <= k < i ==> (#[trigger] self.bins@[k]).hits == bins[k].hits + if is_selected(
                        bins,
                        msv,
                        k,
                    ) {
                        1int
                    } else {
                        0int
                    },
                forall|k: int| i <= k < n ==> (#[trigger] self.bins@[k]).hits == bins[k].hits,
            decreases n - i,
        {
            if ms[i] && selected == Some(self.bins[i].kind) {
                proof {
                    lemma_first_saturated_none(bins, msv, 0, i as int);
                }
                let next = self.bins[i].hits + 1;
                self.bins[i].set_hits(next);
            }
            i = i + 1;
        }
        let source = self.source.clone();
        let r = match selected {
            Some(BinKind::Illegal) => Err(
                CoverageSampleError::IllegalBinHit {
                    coverpoint: self.name.clone(),
                    bins: names,
                    sampled_value,
                },
            ),
            Some(BinKind::Normal) => Ok(
                CoverpointSample {
                    disposition: CoverageSampleDisposition::Hit,
                    matched_bins: ids,
                    coverpoint: self.name.clone(),
                    source,
                },
            ),
            Some(BinKind::Ignore) => Ok(
                CoverpointSample {
                    disposition: CoverageSampleDisposition::Ignored,
                    matched_bins: Vec::new(),
                    coverpoint: self.name.clone(),
                    source,
                },
            ),
            None => Ok(
                CoverpointSample {
                    disposition: CoverageSampleDisposition::Unmatched,
                    matched_bins: Vec::new(),
                    coverpoint: self.name.clone(),
                    source,
                },
            ),
        };
        assert(sample_step(*old(self), *self, *sampled, msv, r));
        r
    }
}

/// When no saturated selected bin exists from `start`, none of those bins is saturated.
proof fn lemma_first_saturated_none<T>(bins: Seq<CoverpointBin<T>>, ms: Seq<bool>, start: int, i: int)
    requires
        0 <= start <= i < bins.len(),
        first_saturated(bins, ms, start) is None,
        is_selected(bins, ms, i),
    ensures
        bins[i].hits < u64::MAX,
    decreases i - start,
{
    if start < i {
        lemma_first_saturated_none(bins, ms, start + 1, i);
    }
}

} // verus!

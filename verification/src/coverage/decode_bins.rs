use vstd::prelude::*;
use vstd::string::*;

use crate::coverage::artifact_error::CoveragePersistenceError;
use crate::coverage::bin::{BinId, BinKind};
use crate::coverage::cross_error::CrossBinId;
use crate::coverage::identifier::{is_valid_coverage_identifier, valid_identifier};
use crate::coverage::matcher::BinMatcherKind;
use crate::coverage::merge_counters::{cross_views_covered, views_covered, views_normal, CrossBinView};
use crate::coverage::ratio::CoverageRatio;
use crate::coverage::record::{CoverpointBinRecord, CrossBinRecord, RatioRecord};
use crate::coverage::snapshot::{
    bin_views, cross_bin_views, BinSnapshotView, CoverpointBinSnapshot, CrossBinSnapshot,
};
use crate::text::{decimal_spec, push_decimal, push_str, str_eq};

verus! {

/// A problem found in a persisted record: whether it is a numeric overflow,
/// the field path, and the reason.
pub type Issue = (bool, Seq<char>, Seq<char>);

/// Invalid data at `path` for `reason`.
pub open spec fn invalid_issue(path: Seq<char>, reason: Seq<char>) -> Issue {
    (false, path, reason)
}

/// A number at `field` that does not fit.
pub open spec fn overflow_issue(field: Seq<char>) -> Issue {
    (true, field, Seq::empty())
}

/// Error `e` reports issue `i`.
pub open spec fn reports(e: CoveragePersistenceError, i: Issue) -> bool {
    if i.0 {
        e matches CoveragePersistenceError::NumericOverflow { field } && field@ == i.1
    } else {
        e matches CoveragePersistenceError::InvalidData { path, reason } && path@ == i.1 && reason@
            == i.2
    }
}

/// Builds an invalid-data error.
pub fn invalid(path: &str, reason: &str) -> (e: CoveragePersistenceError)
    ensures
        reports(e, invalid_issue(path@, reason@)),
{
    CoveragePersistenceError::InvalidData {
        path: String::from_str(path),
        reason: String::from_str(reason),
    }
}

/// Builds a numeric-overflow error.
pub fn overflow(field: &str) -> (e: CoveragePersistenceError)
    ensures
        reports(e, overflow_issue(field@)),
{
    CoveragePersistenceError::NumericOverflow { field: String::from_str(field) }
}

/// Problem of a stored ratio checked against a recomputed one.
pub open spec fn ratio_issue(stored: RatioRecord, computed: (usize, usize, usize), path: Seq<char>) -> Option<
    Issue,
> {
    if stored.covered + stored.uncovered > usize::MAX {
        Some(overflow_issue(path))
    } else if stored.covered + stored.uncovered != stored.total {
        Some(invalid_issue(path, "covered plus uncovered must equal total"@))
    } else if stored.covered != computed.0 || stored.uncovered != computed.1 || stored.total
        != computed.2 {
        Some(invalid_issue(path, "stored ratio disagrees with bins"@))
    } else {
        None
    }
}

/// Checks a stored ratio: consistent in itself and equal to the recomputed one.
pub fn validate_ratio(stored: &RatioRecord, computed: CoverageRatio, path: &str) -> (r: Result<
    (),
    CoveragePersistenceError,
>)
    ensures
        match ratio_issue(*stored, computed@, path@) {
            Some(i) => r matches Err(e) && reports(e, i),
            None => r is Ok,
        },
{
    let total = match stored.covered.checked_add(stored.uncovered) {
        Some(t) => t,
        None => {
            return Err(overflow(path));
        },
    };
    if total != stored.total {
        return Err(invalid(path, "covered plus uncovered must equal total"));
    }
    if stored.covered != computed.covered() || stored.uncovered != computed.uncovered()
        || stored.total != computed.total() {
        return Err(invalid(path, "stored ratio disagrees with bins"));
    }
    Ok(())
}

/// Problem of a persisted identifier.
pub open spec fn name_issue(value: Seq<char>, path: Seq<char>) -> Option<Issue> {
    if valid_identifier(value) {
        None
    } else {
        Some(invalid_issue(path, "invalid coverage identifier"@))
    }
}

/// Checks a persisted identifier.
pub fn validate_name(value: &str, path: &str) -> (r: Result<(), CoveragePersistenceError>)
    ensures
        match name_issue(value@, path@) {
            Some(i) => r matches Err(e) && reports(e, i),
            None => r is Ok,
        },
{
    if is_valid_coverage_identifier(value) {
        Ok(())
    } else {
        Err(invalid(path, "invalid coverage identifier"))
    }
}

/// Bin role named by a persisted string.
pub open spec fn bin_kind_named(s: Seq<char>) -> Option<BinKind> {
    if s == "normal"@ {
        Some(BinKind::Normal)
    } else if s == "ignore"@ {
        Some(BinKind::Ignore)
    } else if s == "illegal"@ {
        Some(BinKind::Illegal)
    } else {
        None
    }
}

/// Matcher shape named by a persisted string.
pub open spec fn matcher_kind_named(s: Seq<char>) -> Option<BinMatcherKind> {
    if s == "value"@ {
        Some(BinMatcherKind::Value)
    } else if s == "values"@ {
        Some(BinMatcherKind::Values)
    } else if s == "inclusive_range"@ {
        Some(BinMatcherKind::InclusiveRange)
    } else {
        None
    }
}

/// The persisted name of a bin role reads back as that role.
pub proof fn lemma_bin_kind_name(k: BinKind)
    ensures
        bin_kind_named(crate::coverage::bin::bin_kind_text(k)) == Some(k),
{
    reveal_strlit("normal");
    reveal_strlit("ignore");
    reveal_strlit("illegal");
    assert("normal"@[0] != "ignore"@[0]);
    assert("normal"@[0] != "illegal"@[0]);
    assert("ignore"@.len() != "illegal"@.len());
}

/// The persisted name of a matcher shape reads back as that shape.
pub proof fn lemma_matcher_kind_name(k: BinMatcherKind)
    ensures
        matcher_kind_named(crate::coverage::matcher::matcher_kind_text(k)) == Some(k),
{
    reveal_strlit("value");
    reveal_strlit("values");
    reveal_strlit("inclusive_range");
    assert("value"@.len() != "values"@.len());
    assert("value"@[0] != "inclusive_range"@[0]);
    assert("values"@[0] != "inclusive_range"@[0]);
}

/// Whether an operand count fits a matcher shape.
pub open spec fn operands_fit(k: BinMatcherKind, n: usize) -> bool {
    match k {
        BinMatcherKind::Value => n == 1,
        BinMatcherKind::Values => n > 0,
        BinMatcherKind::InclusiveRange => n == 2,
    }
}

/// Path `path.bins[index]`.
pub open spec fn bin_field(path: Seq<char>, index: nat) -> Seq<char> {
    path + ".bins["@ + decimal_spec(index) + "]"@
}

/// Problem of one persisted coverpoint bin at `index` of the item at `path`.
pub open spec fn point_bin_issue(b: CoverpointBinRecord, index: nat, path: Seq<char>) -> Option<Issue> {
    let field = bin_field(path, index);
    if index > u32::MAX {
        Some(overflow_issue(field))
    } else if b.id != index {
        Some(invalid_issue(field, "bin IDs must be consecutive declaration ordinals"@))
    } else if !valid_identifier(b.name@) {
        Some(invalid_issue(field + ".name"@, "invalid coverage identifier"@))
    } else if bin_kind_named(b.kind@) is None {
        Some(invalid_issue(field + ".kind"@, "unknown bin kind"@))
    } else if matcher_kind_named(b.matcher_kind@) is None {
        Some(invalid_issue(field + ".matcher.kind"@, "unknown matcher kind"@))
    } else if !operands_fit(matcher_kind_named(b.matcher_kind@).unwrap(), b.operand_count) {
        Some(invalid_issue(field + ".matcher.operand_count"@, "invalid matcher operand count"@))
    } else if b.required_hits == 0 {
        Some(invalid_issue(field + ".required_hits"@, "required hits must be non-zero"@))
    } else if bin_kind_named(b.kind@) != Some(BinKind::Normal) && b.required_hits != 1 {
        Some(invalid_issue(field + ".required_hits"@, "non-normal bins require exactly one hit"@))
    } else {
        None
    }
}

/// Snapshot view of a valid persisted coverpoint bin.
pub open spec fn point_bin_view(b: CoverpointBinRecord) -> BinSnapshotView {
    (
        BinId(b.id),
        b.name@,
        bin_kind_named(b.kind@).unwrap(),
        matcher_kind_named(b.matcher_kind@).unwrap(),
        b.operand_count as nat,
        b.hits,
        b.required_hits,
    )
}

fn push_bin_field(s: &mut String, path: &str, index: usize)
    ensures
        final(s)@ == old(s)@ + bin_field(path@, index as nat),
{
    push_str(s, path);
    push_str(s, ".bins[");
    push_decimal(s, index as u64);
    push_str(s, "]");
    proof {
        assert(final(s)@ =~= old(s)@ + bin_field(path@, index as nat));
    }
}

fn field_text(path: &str, index: usize, suffix: &str) -> (r: String)
    ensures
        r@ == bin_field(path@, index as nat) + suffix@,
{
    let mut s = String::new();
    push_bin_field(&mut s, path, index);
    push_str(&mut s, suffix);
    s
}

/// Rebuilds one persisted coverpoint bin, checking its definition fields.
pub fn coverpoint_bin_from_record(bin: &CoverpointBinRecord, index: usize, path: &str) -> (r: Result<
    CoverpointBinSnapshot,
    CoveragePersistenceError,
>)
    ensures
        match point_bin_issue(*bin, index as nat, path@) {
            Some(i) => r matches Err(e) && reports(e, i),
            None => r matches Ok(b) && b@ == point_bin_view(*bin),
        },
{
    if index > 0xffff_ffffusize {
        let f = field_text(path, index, "");
        proof {
            reveal_strlit("");
            assert(f@ =~= bin_field(path@, index as nat));
        }
        return Err(overflow(f.as_str()));
    }
    if bin.id as usize != index {
        let f = field_text(path, index, "");
        proof {
            reveal_strlit("");
            assert(f@ =~= bin_field(path@, index as nat));
        }
        return Err(invalid(f.as_str(), "bin IDs must be consecutive declaration ordinals"));
    }
    if !is_valid_coverage_identifier(bin.name.as_str()) {
        let f = field_text(path, index, ".name");
        return Err(invalid(f.as_str(), "invalid coverage identifier"));
    }
    let k = bin.kind.as_str();
    let kind = if str_eq(k, "normal") {
        BinKind::Normal
    } else if str_eq(k, "ignore") {
        BinKind::Ignore
    } else if str_eq(k, "illegal") {
        BinKind::Illegal
    } else {
        let f = field_text(path, index, ".kind");
        return Err(invalid(f.as_str(), "unknown bin kind"));
    };
    let m = bin.matcher_kind.as_str();
    let matcher_kind = if str_eq(m, "value") {
        BinMatcherKind::Value
    } else if str_eq(m, "values") {
        BinMatcherKind::Values
    } else if str_eq(m, "inclusive_range") {
        BinMatcherKind::InclusiveRange
    } else {
        let f = field_text(path, index, ".matcher.kind");
        return Err(invalid(f.as_str(), "unknown matcher kind"));
    };
    let fits = match matcher_kind {
        BinMatcherKind::Value => bin.operand_count == 1,
        BinMatcherKind::Values => bin.operand_count > 0,
        BinMatcherKind::InclusiveRange => bin.operand_count == 2,
    };
    if !fits {
        let f = field_text(path, index, ".matcher.operand_count");
        return Err(invalid(f.as_str(), "invalid matcher operand count"));
    }
    if bin.required_hits == 0 {
        let f = field_text(path, index, ".required_hits");
        return Err(invalid(f.as_str(), "required hits must be non-zero"));
    }
    if kind != BinKind::Normal && bin.required_hits != 1 {
        let f = field_text(path, index, ".required_hits");
        return Err(invalid(f.as_str(), "non-normal bins require exactly one hit"));
    }
    Ok(
        CoverpointBinSnapshot::from_parts(
            BinId::new(bin.id),
            bin.name.as_str(),
            kind,
            matcher_kind,
            bin.operand_count,
            bin.hits,
            bin.required_hits,
        ),
    )
}

/// Problem of one persisted cross bin at `index` of the item at `path`.
pub open spec fn cross_bin_issue(b: CrossBinRecord, index: nat, path: Seq<char>) -> Option<Issue> {
    let field = bin_field(path, index);
    if index > u32::MAX {
        Some(overflow_issue(field))
    } else if b.id != index {
        Some(invalid_issue(field, "bin IDs must be consecutive row-major ordinals"@))
    } else if !valid_identifier(b.left_bin_name@) {
        Some(invalid_issue(field + ".left_bin_name"@, "invalid coverage identifier"@))
    } else if !valid_identifier(b.right_bin_name@) {
        Some(invalid_issue(field + ".right_bin_name"@, "invalid coverage identifier"@))
    } else if b.required_hits == 0 {
        Some(invalid_issue(field + ".required_hits"@, "required hits must be non-zero"@))
    } else {
        None
    }
}

/// Snapshot view of a valid persisted cross bin.
pub open spec fn cross_bin_view(b: CrossBinRecord) -> CrossBinView {
    (
        CrossBinId(b.id),
        BinId(b.left_bin_id),
        b.left_bin_name@,
        BinId(b.right_bin_id),
        b.right_bin_name@,
        b.hits,
        b.required_hits,
    )
}

/// Rebuilds one persisted cross bin, checking its ordinal, names and threshold.
pub fn cross_bin_from_record(bin: &CrossBinRecord, index: usize, path: &str) -> (r: Result<
    CrossBinSnapshot,
    CoveragePersistenceError,
>)
    ensures
        match cross_bin_issue(*bin, index as nat, path@) {
            Some(i) => r matches Err(e) && reports(e, i),
            None => r matches Ok(b) && b@ == cross_bin_view(*bin),
        },
{
    if index > 0xffff_ffffusize {
        let f = field_text(path, index, "");
        proof {
            reveal_strlit("");
            assert(f@ =~= bin_field(path@, index as nat));
        }
        return Err(overflow(f.as_str()));
    }
    if bin.id as usize != index {
        let f = field_text(path, index, "");
        proof {
            reveal_strlit("");
            assert(f@ =~= bin_field(path@, index as nat));
        }
        return Err(invalid(f.as_str(), "bin IDs must be consecutive row-major ordinals"));
    }
    if !is_valid_coverage_identifier(bin.left_bin_name.as_str()) {
        let f = field_text(path, index, ".left_bin_name");
        return Err(invalid(f.as_str(), "invalid coverage identifier"));
    }
    if !is_valid_coverage_identifier(bin.right_bin_name.as_str()) {
        let f = field_text(path, index, ".right_bin_name");
        return Err(invalid(f.as_str(), "invalid coverage identifier"));
    }
    if bin.required_hits == 0 {
        let f = field_text(path, index, ".required_hits");
        return Err(invalid(f.as_str(), "required hits must be non-zero"));
    }
    Ok(
        CrossBinSnapshot::from_parts(
            CrossBinId::new(bin.id),
            BinId::new(bin.left_bin_id),
            bin.left_bin_name.as_str(),
            BinId::new(bin.right_bin_id),
            bin.right_bin_name.as_str(),
            bin.hits,
            bin.required_hits,
        ),
    )
}

/// Coverage of coverpoint bins: covered, uncovered and normal bins.
pub open spec fn point_views_ratio(v: Seq<BinSnapshotView>) -> (usize, usize, usize) {
    let c = views_covered(v, v.len() as int);
    let n = views_normal(v, v.len() as int);
    (c as usize, (n - c) as usize, n as usize)
}

/// Recomputes the coverage of coverpoint bins.
pub fn coverpoint_ratio(bins: &[CoverpointBinSnapshot]) -> (r: CoverageRatio)
    ensures
        r@ == point_views_ratio(bin_views(bins@)),
        r@.0 == views_covered(bin_views(bins@), bins@.len() as int),
        r@.2 == views_normal(bin_views(bins@), bins@.len() as int),
{
    let ghost v = bin_views(bins@);
    let mut covered: usize = 0;
    let mut normal: usize = 0;
    let mut j: usize = 0;
    while j < bins.len()
        invariant
            v == bin_views(bins@),
            j <= bins@.len(),
            covered == views_covered(v, j as int),
            normal == views_normal(v, j as int),
            covered <= normal,
            normal <= j,
        decreases bins@.len() - j,
    {
        assert(v[j as int] == bins@[j as int]@);
        if bins[j].covered() {
            covered = covered + 1;
        }
        if bins[j].kind() == BinKind::Normal {
            normal = normal + 1;
        }
        j = j + 1;
    }
    CoverageRatio::new(covered, normal - covered, normal)
}

/// Coverage of cross bins: covered, uncovered and all bins.
pub open spec fn cross_views_ratio(v: Seq<CrossBinView>) -> (usize, usize, usize) {
    let c = cross_views_covered(v, v.len() as int);
    (c as usize, (v.len() - c) as usize, v.len() as usize)
}

/// Recomputes the coverage of cross bins.
pub fn cross_ratio(bins: &[CrossBinSnapshot]) -> (r: CoverageRatio)
    ensures
        r@ == cross_views_ratio(cross_bin_views(bins@)),
{
    let ghost v = cross_bin_views(bins@);
    let mut covered: usize = 0;
    let mut j: usize = 0;
    while j < bins.len()
        invariant
            v == cross_bin_views(bins@),
            j <= bins@.len(),
            covered == cross_views_covered(v, j as int),
            covered <= j,
        decreases bins@.len() - j,
    {
        assert(v[j as int] == bins@[j as int]@);
        if bins[j].covered() {
            covered = covered + 1;
        }
        j = j + 1;
    }
    CoverageRatio::new(covered, bins.len() - covered, bins.len())
}

/// First reason, bin by bin from `j`, that coverpoint bins break: a repeated
/// name or more hits than samples.
pub open spec fn point_bins_problem(v: Seq<BinSnapshotView>, samples: u64, j: int) -> Option<Seq<char>>
    decreases v.len() - j,
{
    if j < 0 || j >= v.len() {
        None
    } else if exists|k: int| 0 <= k < j && v[k].1 == v[j].1 {
        Some("duplicate coverpoint bin name"@)
    } else if v[j].5 > samples {
        Some("bin hits exceed samples"@)
    } else {
        point_bins_problem(v, samples, j + 1)
    }
}

/// Problem of the bins of one coverpoint, as a live coverpoint would hold them.
pub open spec fn point_bins_issue(v: Seq<BinSnapshotView>, samples: u64, path: Seq<char>) -> Option<
    Issue,
> {
    if views_normal(v, v.len() as int) == 0 {
        Some(invalid_issue(path, "coverpoint must contain a normal bin"@))
    } else {
        match point_bins_problem(v, samples, 0) {
            Some(reason) => Some(invalid_issue(path, reason)),
            None => None,
        }
    }
}

/// Checks the bins of one coverpoint: a normal bin, unique names, hits within samples.
pub fn validate_coverpoint_bins(bins: &[CoverpointBinSnapshot], samples: u64, path: &str) -> (r:
    Result<(), CoveragePersistenceError>)
    ensures
        match point_bins_issue(bin_views(bins@), samples, path@) {
            Some(i) => r matches Err(e) && reports(e, i),
            None => r is Ok,
        },
{
    let ghost v = bin_views(bins@);
    let ratio = coverpoint_ratio(bins);
    if ratio.total() == 0 {
        return Err(invalid(path, "coverpoint must contain a normal bin"));
    }
    let mut j: usize = 0;
    while j < bins.len()
        invariant
            v == bin_views(bins@),
            j <= bins@.len(),
            views_normal(v, v.len() as int) > 0,
            point_bins_problem(v, samples, 0) == point_bins_problem(v, samples, j as int),
        decreases bins@.len() - j,
    {
        let mut k: usize = 0;
        let mut dup = false;
        while k < j && !dup
            invariant
                v == bin_views(bins@),
                j < bins@.len(),
                k <= j,
                !dup ==> forall|q: int| 0 <= q < k ==> v[q].1 != v[j as int].1,
                dup ==> k < j && v[k as int].1 == v[j as int].1,
            decreases j - k + if dup {
                0int
            } else {
                1int
            },
        {
            assert(v[k as int] == bins@[k as int]@);
            assert(v[j as int] == bins@[j as int]@);
            if str_eq(bins[k].name(), bins[j].name()) {
                dup = true;
            } else {
                k = k + 1;
            }
        }
        if dup {
            return Err(invalid(path, "duplicate coverpoint bin name"));
        }
        assert(v[j as int] == bins@[j as int]@);
        if bins[j].hits() > samples {
            return Err(invalid(path, "bin hits exceed samples"));
        }
        j = j + 1;
    }
    Ok(())
}

/// First reason, bin by bin from `j`, that cross bins break: more hits than
/// samples or a threshold other than `required`.
pub open spec fn cross_bins_problem(v: Seq<CrossBinView>, samples: u64, required: u64, j: int) -> Option<
    Seq<char>,
>
    decreases v.len() - j,
{
    if j < 0 || j >= v.len() {
        None
    } else if v[j].5 > samples {
        Some("cross bin hits exceed samples"@)
    } else if v[j].6 != required {
        Some("cross bins must have one hit threshold"@)
    } else {
        cross_bins_problem(v, samples, required, j + 1)
    }
}

/// Problem of the bins of one cross, as a live cross would hold them.
pub open spec fn cross_bins_issue(v: Seq<CrossBinView>, samples: u64, path: Seq<char>) -> Option<Issue> {
    if v.len() == 0 {
        Some(invalid_issue(path, "cross must contain generated bins"@))
    } else {
        match cross_bins_problem(v, samples, v[0].6, 0) {
            Some(reason) => Some(invalid_issue(path, reason)),
            None => None,
        }
    }
}

/// Checks the bins of one cross: at least one, hits within samples, one threshold.
pub fn validate_cross_bins(bins: &[CrossBinSnapshot], samples: u64, path: &str) -> (r: Result<
    (),
    CoveragePersistenceError,
>)
    ensures
        match cross_bins_issue(cross_bin_views(bins@), samples, path@) {
            Some(i) => r matches Err(e) && reports(e, i),
            None => r is Ok,
        },
{
    let ghost v = cross_bin_views(bins@);
    if bins.len() == 0 {
        return Err(invalid(path, "cross must contain generated bins"));
    }
    assert(v[0] == bins@[0]@);
    let required = bins[0].required_hits();
    let mut j: usize = 0;
    while j < bins.len()
        invariant
            v == cross_bin_views(bins@),
            v.len() > 0,
            required == v[0].6,
            j <= bins@.len(),
            cross_bins_problem(v, samples, required, 0) == cross_bins_problem(
                v,
                samples,
                required,
                j as int,
            ),
        decreases bins@.len() - j,
    {
        assert(v[j as int] == bins@[j as int]@);
        if bins[j].hits() > samples {
            return Err(invalid(path, "cross bin hits exceed samples"));
        }
        if bins[j].required_hits() != required {
            return Err(invalid(path, "cross bins must have one hit threshold"));
        }
        j = j + 1;
    }
    Ok(())
}

} // verus!

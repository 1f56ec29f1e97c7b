use sha2::{Digest, Sha256};

use vstd::prelude::*;
use vstd::string::*;
use vstd::utf8::encode_utf8;

use crate::coverage::artifact_error::CoveragePersistenceError;
use crate::coverage::bin::BinKind;
use crate::coverage::cross_error::CrossBinId;
use crate::coverage::matcher::BinMatcherKind;
use crate::coverage::snapshot::{
    BinSnapshotView, CoverageGroupSnapshot, CoverageItemSnapshot, CoverpointBinSnapshot,
    CrossBinSnapshot,
};
use crate::coverage::bin::BinId;
use crate::text::{digit_char, hex_spec, push_hex, push_str, str_eq};

verus! {

/// SHA-256 digest of a byte sequence.
pub uninterp spec fn sha256(bytes: Seq<u8>) -> Seq<u8>;

/// Hashes bytes with SHA-256.
///
/// Calls `sha2::Sha256::digest` and copies its 32-byte output; the contract
/// names the digest and claims nothing more of it.
#[verifier::external_body]
fn sha256_digest(bytes: &Vec<u8>) -> (r: [u8; 32])
    ensures
        r@ == sha256(bytes@),
{
    let digest = Sha256::digest(bytes.as_slice());
    let mut out = [0u8; 32];
    out.copy_from_slice(digest.as_slice());
    out
}

/// Big-endian bytes of a 64-bit value.
pub open spec fn be_u64(v: u64) -> Seq<u8> {
    seq![
        (v >> 56u64) as u8,
        (v >> 48u64) as u8,
        (v >> 40u64) as u8,
        (v >> 32u64) as u8,
        (v >> 24u64) as u8,
        (v >> 16u64) as u8,
        (v >> 8u64) as u8,
        v as u8,
    ]
}

/// Big-endian bytes of a 32-bit value.
pub open spec fn be_u32(v: u32) -> Seq<u8> {
    seq![(v >> 24u32) as u8, (v >> 16u32) as u8, (v >> 8u32) as u8, v as u8]
}

/// Length-prefixed UTF-8 bytes of a string.
pub open spec fn enc_string(s: Seq<char>) -> Seq<u8> {
    be_u64(encode_utf8(s).len() as u64) + encode_utf8(s)
}

/// Tag of a bin kind.
pub open spec fn bin_kind_tag(k: BinKind) -> u8 {
    match k {
        BinKind::Normal => 0,
        BinKind::Ignore => 1,
        BinKind::Illegal => 2,
    }
}

/// Tag of a matcher shape.
pub open spec fn matcher_tag(k: BinMatcherKind) -> u8 {
    match k {
        BinMatcherKind::Value => 0,
        BinMatcherKind::Values => 1,
        BinMatcherKind::InclusiveRange => 2,
    }
}

/// Definition bytes of one coverpoint bin: everything but its hit count.
pub open spec fn enc_point_bin(b: BinSnapshotView) -> Seq<u8> {
    be_u32(b.0.0) + enc_string(b.1) + seq![bin_kind_tag(b.2)] + be_u64(b.6) + seq![
        matcher_tag(b.3),
    ] + be_u64(b.4 as u64)
}

/// Definition bytes of the first `n` coverpoint bins.
pub open spec fn enc_point_bins(bins: Seq<CoverpointBinSnapshot>, n: int) -> Seq<u8>
    decreases n,
{
    if n <= 0 {
        Seq::empty()
    } else {
        enc_point_bins(bins, n - 1) + enc_point_bin(bins[n - 1]@)
    }
}

/// Definition bytes of one cross bin: everything but its hit count.
pub open spec fn enc_cross_bin(b: (CrossBinId, BinId, Seq<char>, BinId, Seq<char>, u64, u64)) -> Seq<
    u8,
> {
    be_u32(b.0.0) + be_u32(b.1.0) + enc_string(b.2) + be_u32(b.3.0) + enc_string(b.4) + be_u64(b.6)
}

/// Definition bytes of the first `n` cross bins.
pub open spec fn enc_cross_bins(bins: Seq<CrossBinSnapshot>, n: int) -> Seq<u8>
    decreases n,
{
    if n <= 0 {
        Seq::empty()
    } else {
        enc_cross_bins(bins, n - 1) + enc_cross_bin(bins[n - 1]@)
    }
}

/// Definition bytes of one item.
pub open spec fn enc_item(item: CoverageItemSnapshot) -> Seq<u8> {
    match item {
        CoverageItemSnapshot::Coverpoint(p) => seq![0u8] + enc_string(p.spec_name()) + be_u64(
            p.spec_bins().len() as u64,
        ) + enc_point_bins(p.spec_bins(), p.spec_bins().len() as int),
        CoverageItemSnapshot::Cross2(c) => seq![1u8] + enc_string(c.spec_name()) + enc_string(
            c.spec_axis_names().0,
        ) + enc_string(c.spec_axis_names().1) + be_u64(c.spec_bins().len() as u64)
            + enc_cross_bins(c.spec_bins(), c.spec_bins().len() as int),
    }
}

/// Definition bytes of the first `n` items.
pub open spec fn enc_items(items: Seq<CoverageItemSnapshot>, n: int) -> Seq<u8>
    decreases n,
{
    if n <= 0 {
        Seq::empty()
    } else {
        enc_items(items, n - 1) + enc_item(items[n - 1])
    }
}

/// Domain-separation prefix of the definition encoding.
pub open spec fn definition_prefix() -> Seq<u8> {
    encode_utf8("vvm.functional-coverage.group-definition.sha256.v1\0"@)
}

/// Canonical definition bytes of a group: its name, revision and the
/// definitions of its items, without runtime counters.
pub open spec fn definition_bytes(g: CoverageGroupSnapshot) -> Seq<u8> {
    definition_prefix() + enc_string(g.spec_definition_name()) + be_u64(g.spec_revision())
        + be_u64(g.spec_items().len() as u64) + enc_items(g.spec_items(), g.spec_items().len() as int)
}

fn push_u8(out: &mut Vec<u8>, v: u8)
    ensures
        final(out)@ == old(out)@ + seq![v],
{
    out.push(v);
    proof {
        assert(final(out)@ =~= old(out)@ + seq![v]);
    }
}

fn push_u32(out: &mut Vec<u8>, v: u32)
    ensures
        final(out)@ == old(out)@ + be_u32(v),
{
    out.push((v >> 24u32) as u8);
    out.push((v >> 16u32) as u8);
    out.push((v >> 8u32) as u8);
    out.push(v as u8);
    proof {
        assert(final(out)@ =~= old(out)@ + be_u32(v));
    }
}

fn push_u64(out: &mut Vec<u8>, v: u64)
    ensures
        final(out)@ == old(out)@ + be_u64(v),
{
    out.push((v >> 56u64) as u8);
    out.push((v >> 48u64) as u8);
    out.push((v >> 40u64) as u8);
    out.push((v >> 32u64) as u8);
    out.push((v >> 24u64) as u8);
    out.push((v >> 16u64) as u8);
    out.push((v >> 8u64) as u8);
    out.push(v as u8);
    proof {
        assert(final(out)@ =~= old(out)@ + be_u64(v));
    }
}

fn push_bytes(out: &mut Vec<u8>, bytes: &Vec<u8>)
    ensures
        final(out)@ == old(out)@ + bytes@,
{
    let mut i: usize = 0;
    while i < bytes.len()
        invariant
            i <= bytes@.len(),
            out@ == old(out)@ + bytes@.take(i as int),
        decreases bytes@.len() - i,
    {
        out.push(bytes[i]);
        proof {
            assert(bytes@.take(i + 1) =~= bytes@.take(i as int).push(bytes@[i as int]));
            assert(out@ =~= old(out)@ + bytes@.take(i + 1));
        }
        i = i + 1;
    }
    proof {
        assert(bytes@.take(bytes@.len() as int) =~= bytes@);
    }
}

fn push_string(out: &mut Vec<u8>, s: &str)
    ensures
        final(out)@ == old(out)@ + enc_string(s@),
{
    let bytes = s.as_bytes_vec();
    push_u64(out, bytes.len() as u64);
    push_bytes(out, &bytes);
    proof {
        assert(final(out)@ =~= old(out)@ + enc_string(s@));
    }
}

fn kind_tag(k: BinKind) -> (r: u8)
    ensures
        r == bin_kind_tag(k),
{
    match k {
        BinKind::Normal => 0,
        BinKind::Ignore => 1,
        BinKind::Illegal => 2,
    }
}

fn matcher_kind_tag(k: BinMatcherKind) -> (r: u8)
    ensures
        r == matcher_tag(k),
{
    match k {
        BinMatcherKind::Value => 0,
        BinMatcherKind::Values => 1,
        BinMatcherKind::InclusiveRange => 2,
    }
}

fn encode_item(out: &mut Vec<u8>, item: &CoverageItemSnapshot)
    ensures
        final(out)@ == old(out)@ + enc_item(*item),
{
    match item {
        CoverageItemSnapshot::Coverpoint(point) => {
            let ghost start = out@;
            push_u8(out, 0);
            push_string(out, point.name());
            let bins = point.bins();
            push_u64(out, bins.len() as u64);
            let ghost head = out@;
            let mut i: usize = 0;
            while i < bins.len()
                invariant
                    bins@ == point.spec_bins(),
                    i <= bins@.len(),
                    out@ == head + enc_point_bins(bins@, i as int),
                decreases bins@.len() - i,
            {
                let b = &bins[i];
                let ghost before = out@;
                push_u32(out, b.id().0);
                push_string(out, b.name());
                push_u8(out, kind_tag(b.kind()));
                push_u64(out, b.required_hits());
                push_u8(out, matcher_kind_tag(b.matcher_kind()));
                push_u64(out, b.matcher_operand_count() as u64);
                proof {
                    assert(out@ =~= before + enc_point_bin(bins@[i as int]@));
                    assert(out@ =~= head + enc_point_bins(bins@, i + 1));
                }
                i = i + 1;
            }
            proof {
                assert(out@ =~= start + enc_item(*item));
            }
        },
        CoverageItemSnapshot::Cross2(cross) => {
            let ghost start = out@;
            push_u8(out, 1);
            push_string(out, cross.name());
            push_string(out, cross.left_coverpoint_name());
            push_string(out, cross.right_coverpoint_name());
            let bins = cross.bins();
            push_u64(out, bins.len() as u64);
            let ghost head = out@;
            let mut i: usize = 0;
            while i < bins.len()
                invariant
                    bins@ == cross.spec_bins(),
                    i <= bins@.len(),
                    out@ == head + enc_cross_bins(bins@, i as int),
                decreases bins@.len() - i,
            {
                let b = &bins[i];
                let ghost before = out@;
                push_u32(out, b.id().0);
                push_u32(out, b.left_bin_id().0);
                push_string(out, b.left_bin_name());
                push_u32(out, b.right_bin_id().0);
                push_string(out, b.right_bin_name());
                push_u64(out, b.required_hits());
                proof {
                    assert(out@ =~= before + enc_cross_bin(bins@[i as int]@));
                    assert(out@ =~= head + enc_cross_bins(bins@, i + 1));
                }
                i = i + 1;
            }
            proof {
                assert(out@ =~= start + enc_item(*item));
            }
        },
    }
}

/// Encodes the canonical definition bytes of a group.
pub fn encode_definition(group: &CoverageGroupSnapshot) -> (r: Vec<u8>)
    ensures
        r@ == definition_bytes(*group),
{
    let mut out = "vvm.functional-coverage.group-definition.sha256.v1\0".as_bytes_vec();
    push_string(&mut out, group.definition_name());
    push_u64(&mut out, group.definition_revision());
    let items = group.items();
    push_u64(&mut out, items.len() as u64);
    let ghost head = out@;
    let mut i: usize = 0;
    while i < items.len()
        invariant
            items@ == group.spec_items(),
            i <= items@.len(),
            out@ == head + enc_items(items@, i as int),
        decreases items@.len() - i,
    {
        encode_item(&mut out, &items[i]);
        proof {
            assert(out@ =~= head + enc_items(items@, i + 1));
        }
        i = i + 1;
    }
    proof {
        assert(out@ =~= definition_bytes(*group));
    }
    out
}

/// SHA-256 fingerprint of a coverage-group definition.
#[derive(Debug, Clone, Copy, PartialEq, Eq, PartialOrd, Ord, Hash)]
pub struct CoverageDefinitionFingerprint {
    digest: [u8; 32],
}

impl View for CoverageDefinitionFingerprint {
    type V = Seq<u8>;

    closed spec fn view(&self) -> Seq<u8> {
        self.digest@
    }
}

/// A fingerprint holds thirty-two bytes.
pub proof fn lemma_fingerprint_len(f: CoverageDefinitionFingerprint)
    ensures
        f@.len() == 32,
{
}

/// Lowercase hex text of the first `n` bytes, two digits per byte.
pub open spec fn hex_bytes(d: Seq<u8>, n: int) -> Seq<char>
    decreases n,
{
    if n <= 0 {
        Seq::empty()
    } else {
        hex_bytes(d, n - 1) + hex_spec(d[n - 1] as nat, 2)
    }
}

/// Text of a fingerprint: `sha256-v1:` and sixty-four lowercase hex digits.
pub open spec fn fingerprint_text(d: Seq<u8>) -> Seq<char> {
    "sha256-v1:"@ + hex_bytes(d, d.len() as int)
}

/// Value of a lowercase hex digit, or `-1`.
pub open spec fn lower_hex_value(c: char) -> int {
    let u = c as u32;
    if 48 <= u <= 57 {
        u - 48
    } else if 97 <= u <= 102 {
        u - 87
    } else {
        -1
    }
}

/// Digest written by canonical fingerprint text, if it is canonical.
pub open spec fn fingerprint_text_value(s: Seq<char>) -> Option<Seq<u8>> {
    if s.len() == 74 && s.take(10) == "sha256-v1:"@ && (forall|i: int|
        10 <= i < 74 ==> #[trigger] lower_hex_value(s[i]) >= 0) {
        Some(
            Seq::new(
                32,
                |i: int| (lower_hex_value(s[10 + 2 * i]) * 16 + lower_hex_value(s[11 + 2 * i])) as u8,
            ),
        )
    } else {
        None
    }
}

fn lower_hex(c: char) -> (r: Option<u8>)
    ensures
        match r {
            Some(v) => v == lower_hex_value(c) && v < 16,
            None => lower_hex_value(c) < 0,
        },
{
    let u = c as u32;
    if 48 <= u && u <= 57 {
        Some((u - 48) as u8)
    } else if 97 <= u && u <= 102 {
        Some((u - 87) as u8)
    } else {
        None
    }
}

impl CoverageDefinitionFingerprint {
    /// Returns the digest bytes.
    pub fn as_bytes(&self) -> (r: &[u8; 32])
        ensures
            r@ == self@,
    {
        &self.digest
    }

    /// Fingerprints a group definition: SHA-256 of its canonical definition bytes.
    pub fn from_group(group: &CoverageGroupSnapshot) -> (r: Result<Self, CoveragePersistenceError>)
        ensures
            r matches Ok(f) && f@ == sha256(definition_bytes(*group)),
    {
        let bytes = encode_definition(group);
        Ok(CoverageDefinitionFingerprint { digest: sha256_digest(&bytes) })
    }

    /// Returns whether two fingerprints hold the same digest.
    pub fn same_as(&self, other: &Self) -> (r: bool)
        ensures
            r == (self@ == other@),
    {
        let mut i: usize = 0;
        while i < 32
            invariant
                i <= 32,
                self.digest@.len() == 32,
                other.digest@.len() == 32,
                forall|j: int| 0 <= j < i ==> self.digest@[j] == other.digest@[j],
            decreases 32 - i,
        {
            if self.digest[i] != other.digest[i] {
                return false;
            }
            i = i + 1;
        }
        proof {
            assert(self.digest@ =~= other.digest@);
        }
        true
    }

    /// Formats the fingerprint as `sha256-v1:` and sixty-four lowercase hex digits.
    pub fn to_text(&self) -> (r: String)
        ensures
            r@ == fingerprint_text(self@),
    {
        let mut s = String::new();
        push_str(&mut s, "sha256-v1:");
        let ghost head = s@;
        let mut i: usize = 0;
        while i < 32
            invariant
                i <= 32,
                self.digest@.len() == 32,
                s@ == head + hex_bytes(self.digest@, i as int),
            decreases 32 - i,
        {
            push_hex(&mut s, self.digest[i] as u64, 2);
            proof {
                assert(s@ =~= head + hex_bytes(self.digest@, i + 1));
            }
            i = i + 1;
        }
        s
    }

    /// Parses canonical fingerprint text.
    pub fn parse(value: &str) -> (r: Result<Self, CoveragePersistenceError>)
        ensures
            match fingerprint_text_value(value@) {
                Some(d) => r matches Ok(f) && f@ == d,
                None => r matches Err(CoveragePersistenceError::InvalidFingerprint { value: v })
                    && v@ == value@,
            },
    {
        let len = value.unicode_len();
        if len != 74 {
            return Err(CoveragePersistenceError::InvalidFingerprint { value: String::from_str(value) });
        }
        let prefix = value.substring_char(0, 10);
        proof {
            assert(prefix@ =~= value@.take(10));
        }
        if !str_eq(prefix, "sha256-v1:") {
            return Err(CoveragePersistenceError::InvalidFingerprint { value: String::from_str(value) });
        }
        match hex_digest(value) {
            Some(bytes) => {
                let f = CoverageDefinitionFingerprint { digest: digest_from_vec(&bytes) };
                Ok(f)
            },
            None => Err(
                CoveragePersistenceError::InvalidFingerprint { value: String::from_str(value) },
            ),
        }
    }
}

/// Reads the thirty-two bytes after the prefix of 74-character fingerprint text.
fn hex_digest(value: &str) -> (r: Option<Vec<u8>>)
    requires
        value@.len() == 74,
        value@.take(10) == "sha256-v1:"@,
    ensures
        match r {
            Some(bytes) => fingerprint_text_value(value@) == Some(bytes@),
            None => fingerprint_text_value(value@) is None,
        },
{
    let mut bytes: Vec<u8> = Vec::new();
    let mut i: usize = 0;
    while i < 32
        invariant
            value@.len() == 74,
            i <= 32,
            bytes@.len() == i,
            forall|k: int| 10 <= k < 10 + 2 * i ==> #[trigger] lower_hex_value(value@[k]) >= 0,
            forall|j: int|
                0 <= j < i ==> bytes@[j] == (lower_hex_value(value@[10 + 2 * j]) * 16
                    + lower_hex_value(value@[11 + 2 * j])) as u8,
        decreases 32 - i,
    {
        let hi = lower_hex(value.get_char(10 + 2 * i));
        let lo = lower_hex(value.get_char(11 + 2 * i));
        match (hi, lo) {
            (Some(h), Some(l)) => {
                bytes.push(h * 16 + l);
            },
            _ => {
                proof {
                    if hi is None {
                        assert(lower_hex_value(value@[10 + 2 * i]) < 0);
                    } else {
                        assert(lower_hex_value(value@[11 + 2 * i]) < 0);
                    }
                }
                return None;
            },
        }
        i = i + 1;
    }
    proof {
        let d = Seq::new(
            32,
            |i: int| (lower_hex_value(value@[10 + 2 * i]) * 16 + lower_hex_value(value@[11 + 2 * i])) as u8,
        );
        assert(bytes@ =~= d);
    }
    Some(bytes)
}

/// Copies thirty-two bytes into a digest array.
fn digest_from_vec(bytes: &Vec<u8>) -> (r: [u8; 32])
    requires
        bytes@.len() == 32,
    ensures
        r@ == bytes@,
{
    let digest = [
        bytes[0], bytes[1], bytes[2], bytes[3], bytes[4], bytes[5], bytes[6], bytes[7],
        bytes[8], bytes[9], bytes[10], bytes[11], bytes[12], bytes[13], bytes[14], bytes[15],
        bytes[16], bytes[17], bytes[18], bytes[19], bytes[20], bytes[21], bytes[22], bytes[23],
        bytes[24], bytes[25], bytes[26], bytes[27], bytes[28], bytes[29], bytes[30], bytes[31],
    ];
    proof {
        assert(digest@ =~= bytes@);
    }
    digest
}

impl core::str::FromStr for CoverageDefinitionFingerprint {
    type Err = CoveragePersistenceError;

    fn from_str(s: &str) -> Result<Self, CoveragePersistenceError> {
        CoverageDefinitionFingerprint::parse(s)
    }
}

/// Lowercase digit characters read back as their values.
proof fn lemma_lower_hex_digit(k: nat)
    requires
        k < 16,
    ensures
        lower_hex_value(digit_char(k)) == k,
{
    if k < 10 {
        assert(((48 + k) as char) as u32 == 48 + k);
    } else {
        assert(((87 + k) as char) as u32 == 87 + k);
    }
}

/// Two hex digits per byte, most significant first.
proof fn lemma_hex_bytes(d: Seq<u8>, n: int)
    requires
        0 <= n <= d.len(),
    ensures
        hex_bytes(d, n).len() == 2 * n,
        forall|i: int|
            0 <= i < n ==> hex_bytes(d, n)[2 * i] == digit_char(((d[i] as nat) / 16) % 16)
                && hex_bytes(d, n)[2 * i + 1] == digit_char((d[i] as nat) % 16),
    decreases n,
{
    if n > 0 {
        lemma_hex_bytes(d, n - 1);
        let x = d[n - 1] as nat;
        reveal_with_fuel(hex_spec, 3);
        assert(hex_spec(x, 2) =~= seq![digit_char((x / 16) % 16), digit_char(x % 16)]);
        let prev = hex_bytes(d, n - 1);
        let cur = hex_bytes(d, n);
        assert forall|i: int| 0 <= i < n implies cur[2 * i] == digit_char(((d[i] as nat) / 16) % 16)
            && cur[2 * i + 1] == digit_char((d[i] as nat) % 16) by {
            if i < n - 1 {
                assert(cur[2 * i] == prev[2 * i]);
                assert(cur[2 * i + 1] == prev[2 * i + 1]);
            }
        }
    }
}

/// A fingerprint's text parses back to the same digest.
pub proof fn lemma_fingerprint_round_trip(d: Seq<u8>)
    requires
        d.len() == 32,
    ensures
        fingerprint_text_value(fingerprint_text(d)) == Some(d),
{
    reveal_strlit("sha256-v1:");
    lemma_hex_bytes(d, 32);
    let s = fingerprint_text(d);
    let h = hex_bytes(d, 32);
    assert(s.take(10) =~= "sha256-v1:"@);
    assert forall|k: int| 10 <= k < 74 implies #[trigger] lower_hex_value(s[k]) >= 0 by {
        let j = (k - 10) / 2;
        assert(s[k] == h[k - 10]);
        if (k - 10) % 2 == 0 {
            assert(k - 10 == 2 * j);
            lemma_lower_hex_digit(((d[j] as nat) / 16) % 16);
        } else {
            assert(k - 10 == 2 * j + 1);
            lemma_lower_hex_digit((d[j] as nat) % 16);
        }
    }
    let v = fingerprint_text_value(s)->0;
    assert forall|i: int| 0 <= i < 32 implies v[i] == d[i] by {
        let x = d[i] as nat;
        assert(s[10 + 2 * i] == h[2 * i]);
        assert(s[11 + 2 * i] == h[2 * i + 1]);
        lemma_lower_hex_digit((x / 16) % 16);
        lemma_lower_hex_digit(x % 16);
        assert((x / 16) % 16 == x / 16);
        assert((x / 16) * 16 + x % 16 == x);
    }
    assert(v =~= d);
}

} // verus!

use vstd::prelude::*;
use vstd::string::*;

use crate::text::{decimal_spec, hex_spec, push_decimal, push_hex, push_str};

/// Numeric order of bit values.
pub mod order;

verus! {

/// Number of bits stored by one transfer word.
pub const WORD_BITS: usize = 32;

/// Number of hexadecimal digits represented by one transfer word.
pub const HEX_DIGITS_PER_WORD: usize = 8;

/// Number of 32-bit words needed to hold `width` bits.
pub open spec fn word_count_spec(width: nat) -> nat {
    if width % 32 == 0 {
        width / 32
    } else {
        width / 32 + 1
    }
}

/// Number of hexadecimal digits needed to show `width` bits.
pub open spec fn hex_digit_count_spec(width: nat) -> nat {
    if width % 4 == 0 {
        width / 4
    } else {
        width / 4 + 1
    }
}

/// Valid-bit mask of the final word of a `width`-bit value.
pub open spec fn final_word_mask_spec(width: nat) -> u32 {
    if width % 32 == 0 {
        u32::MAX
    } else {
        u32::MAX >> ((32 - width % 32) as u32)
    }
}

/// Whether bit `index` (below 32) of one word is set.
pub open spec fn word_bit(word: u32, index: nat) -> bool {
    word & (1u32 << (index as u32)) != 0
}

/// Whether bit `index` of a least-significant-word-first sequence is set.
pub open spec fn words_bit(words: Seq<u32>, index: nat) -> bool {
    word_bit(words[(index / 32) as int], index % 32)
}

/// Canonical storage of a `width`-bit value: the right number of words and
/// no set bit above the declared width.
pub open spec fn canonical(words: Seq<u32>, width: nat) -> bool {
    &&& words.len() == word_count_spec(width)
    &&& words.len() > 0 ==> words.last() & final_word_mask_spec(width) == words.last()
}

/// The words with every bit above the declared width cleared.
pub open spec fn masked(words: Seq<u32>, width: nat) -> Seq<u32> {
    if words.len() == 0 {
        words
    } else {
        words.update(words.len() - 1, words.last() & final_word_mask_spec(width))
    }
}

/// Words of a value built from a 64-bit pattern, with `extension` above bit 63,
/// before masking to the declared width.
pub open spec fn unmasked_words_from_64(width: nat, value: u64, extension: u32) -> Seq<u32> {
    Seq::new(
        word_count_spec(width),
        |i: int|
            if i == 0 {
                value as u32
            } else if i == 1 {
                (value >> 32u64) as u32
            } else {
                extension
            },
    )
}

/// Canonical words of a `width`-bit value built from a 64-bit pattern.
pub open spec fn words_from_64_spec(width: nat, value: u64, extension: u32) -> Seq<u32> {
    masked(unmasked_words_from_64(width, value, extension), width)
}

/// Whether bit `index` (below 64) of a 64-bit pattern is set.
pub open spec fn u64_bit(value: u64, index: nat) -> bool {
    value & (1u64 << (index as u64)) != 0
}

/// Error returned when a packed value is constructed from the wrong number of 32-bit words.
#[derive(Debug, Clone, Copy, PartialEq, Eq)]
pub struct InvalidBitVectorWordCount {
    /// Declared packed width.
    pub width: usize,
    /// Number of words required by the declared width.
    pub expected: usize,
    /// Number of words supplied by the caller.
    pub actual: usize,
}

impl InvalidBitVectorWordCount {
    /// Returns the declared packed width.
    pub fn width(self) -> (r: usize)
        ensures
            r == self.width,
    {
        self.width
    }

    /// Returns the required number of words.
    pub fn expected(self) -> (r: usize)
        ensures
            r == self.expected,
    {
        self.expected
    }

    /// Returns the supplied number of words.
    pub fn actual(self) -> (r: usize)
        ensures
            r == self.actual,
    {
        self.actual
    }
}

proof fn lemma_mask_bit(w: u32, fb: u32, b: u32)
    by (bit_vector)
    requires
        0 < fb < 32,
        b < 32,
    ensures
        ((w & (u32::MAX >> ((32 - fb) as u32))) & (1u32 << b) != 0) == (b < fb && (w & (1u32 << b)
            != 0)),
{
}

proof fn lemma_full_mask_bit(w: u32, b: u32)
    by (bit_vector)
    requires
        b < 32,
    ensures
        ((w & u32::MAX) & (1u32 << b) != 0) == (w & (1u32 << b) != 0),
        w & u32::MAX == w,
{
}

proof fn lemma_mask_idempotent(w: u32, fb: u32)
    by (bit_vector)
    requires
        0 < fb < 32,
    ensures
        (w & (u32::MAX >> ((32 - fb) as u32))) & (u32::MAX >> ((32 - fb) as u32)) == w & (u32::MAX
            >> ((32 - fb) as u32)),
{
}

/// Masking keeps every declared bit and produces canonical storage.
pub proof fn lemma_masked(words: Seq<u32>, width: nat)
    requires
        words.len() == word_count_spec(width),
    ensures
        canonical(masked(words, width), width),
        masked(words, width).len() == words.len(),
        forall|i: nat| i < width ==> #[trigger] words_bit(masked(words, width), i) == words_bit(words, i),
        forall|i: int| 0 <= i < words.len() - 1 ==> #[trigger] masked(words, width)[i] == words[i],
{
    let m = masked(words, width);
    if words.len() > 0 {
        let last = words.last();
        if width % 32 == 0 {
            lemma_full_mask_bit(last, 0);
            assert(m.last() & final_word_mask_spec(width) == m.last());
        } else {
            lemma_mask_idempotent(last, (width % 32) as u32);
        }
        assert forall|i: nat| i < width implies #[trigger] words_bit(m, i) == words_bit(words, i) by {
            let wi = (i / 32) as int;
            let b = i % 32;
            if wi < words.len() - 1 {
            } else {
                assert(wi == words.len() - 1);
                if width % 32 == 0 {
                    lemma_full_mask_bit(last, b as u32);
                } else {
                    lemma_mask_bit(last, (width % 32) as u32, b as u32);
                }
            }
        }
    }
}

/// Canonical storage has no set bit at or above the declared width.
pub proof fn lemma_canonical_high_bits_clear(words: Seq<u32>, width: nat, i: nat)
    requires
        canonical(words, width),
        width <= i < words.len() * 32,
    ensures
        !words_bit(words, i),
{
    let wi = (i / 32) as int;
    assert(wi == words.len() - 1);
    assert(width % 32 != 0);
    let last = words.last();
    lemma_mask_bit(last, (width % 32) as u32, (i % 32) as u32);
}

/// Returns the number of 32-bit words needed for a width.
pub fn word_count(width: usize) -> (r: usize)
    ensures
        r == word_count_spec(width as nat),
{
    let complete_words = width / WORD_BITS;
    let partial_bits = width % WORD_BITS;
    if partial_bits == 0 {
        complete_words
    } else {
        complete_words + 1
    }
}

/// Returns the number of hexadecimal digits needed for a width.
pub fn hex_digit_count(width: usize) -> (r: usize)
    ensures
        r == hex_digit_count_spec(width as nat),
{
    let complete_digits = width / 4;
    let partial_bits = width % 4;
    if partial_bits == 0 {
        complete_digits
    } else {
        complete_digits + 1
    }
}

/// Returns the valid-bit mask for the final word.
pub fn final_word_mask(width: usize) -> (r: u32)
    ensures
        r == final_word_mask_spec(width as nat),
{
    let final_bits = width % WORD_BITS;
    if final_bits == 0 {
        u32::MAX
    } else {
        let shift = (WORD_BITS - final_bits) as u32;
        u32::MAX >> shift
    }
}

/// Allocates an all-zero canonical representation.
fn zero_words(width: usize) -> (r: Vec<u32>)
    ensures
        r@.len() == word_count_spec(width as nat),
        forall|i: int| 0 <= i < r@.len() ==> r@[i] == 0,
        canonical(r@, width as nat),
{
    let count = word_count(width);
    let mut words: Vec<u32> = Vec::new();
    let mut i: usize = 0;
    while i < count
        invariant
            i <= count,
            words@.len() == i,
            forall|j: int| 0 <= j < i ==> words@[j] == 0,
        decreases count - i,
    {
        words.push(0);
        i = i + 1;
    }
    proof {
        if words@.len() > 0 {
            let m = final_word_mask_spec(width as nat);
            assert(0u32 & m == 0u32) by (bit_vector);
        }
    }
    words
}

/// Clears unused bits in the final word.
fn mask_final_word(words: &mut Vec<u32>, width: usize)
    ensures
        final(words)@ == masked(old(words)@, width as nat),
{
    let len = words.len();
    if len == 0 {
        return ;
    }
    let last = words[len - 1];
    let mask = final_word_mask(width);
    words.set(len - 1, last & mask);
}

/// Validates, copies, and canonicalizes external words.
fn canonical_words(words: &[u32], width: usize) -> (r: Result<Vec<u32>, InvalidBitVectorWordCount>)
    ensures
        match r {
            Ok(w) => words@.len() == word_count_spec(width as nat) && w@ == masked(
                words@,
                width as nat,
            ),
            Err(e) => words@.len() != word_count_spec(width as nat) && e == InvalidBitVectorWordCount {
                width,
                expected: word_count_spec(width as nat) as usize,
                actual: words@.len() as usize,
            },
        },
{
    let expected = word_count(width);
    let actual = words.len();
    if actual != expected {
        return Err(InvalidBitVectorWordCount { width, expected, actual });
    }
    let mut canonical: Vec<u32> = Vec::new();
    let mut i: usize = 0;
    while i < actual
        invariant
            i <= actual,
            actual == words@.len(),
            canonical@ == words@.subrange(0, i as int),
        decreases actual - i,
    {
        canonical.push(words[i]);
        i = i + 1;
    }
    assert(canonical@ == words@);
    mask_final_word(&mut canonical, width);
    Ok(canonical)
}

/// Constructs canonical words from one 64-bit bit pattern.
///
/// `extension` fills the words above the low 64 bits, so that signed
/// construction sign-extends before the final declared-width mask.
fn words_from_64(width: usize, value: u64, extension: u32) -> (r: Vec<u32>)
    ensures
        r@ == words_from_64_spec(width as nat, value, extension),
{
    let count = word_count(width);
    let mut words: Vec<u32> = Vec::new();
    let mut i: usize = 0;
    while i < count
        invariant
            i <= count,
            count == word_count_spec(width as nat),
            words@ == unmasked_words_from_64(width as nat, value, extension).subrange(0, i as int),
        decreases count - i,
    {
        let word = if i == 0 {
            value as u32
        } else if i == 1 {
            (value >> 32u64) as u32
        } else {
            extension
        };
        words.push(word);
        i = i + 1;
    }
    assert(words@ == unmasked_words_from_64(width as nat, value, extension));
    mask_final_word(&mut words, width);
    words
}

/// Reads one bit from canonical word storage.
fn read_word_bit(words: &[u32], width: usize, index: usize) -> (r: Option<bool>)
    requires
        words@.len() == word_count_spec(width as nat),
    ensures
        r == (if index < width {
            Some(words_bit(words@, index as nat))
        } else {
            None::<bool>
        }),
{
    if index >= width {
        return None;
    }
    let word_index = index / WORD_BITS;
    let bit_index = (index % WORD_BITS) as u32;
    let word = words[word_index];
    Some(word & (1u32 << bit_index) != 0)
}

/// Unsigned packed bit value with exactly `N` significant bits.
///
/// Storage uses least-significant-word-first 32-bit words: `words[0]` holds
/// bits 31:0, `words[1]` bits 63:32, and so on. Unused bits in the final word
/// are always zero.
#[derive(PartialEq, Eq, Hash, Debug)]
pub struct Bits<const N: usize> {
    words: Vec<u32>,
}

/// Signed packed two's-complement value with exactly `N` significant bits.
///
/// Storage uses the same canonical bit representation as [`Bits`]; signedness
/// affects interpretation only, and unused bits in the final word stay zero.
#[derive(PartialEq, Eq, Hash, Debug)]
pub struct SignedBits<const N: usize> {
    words: Vec<u32>,
}

impl<const N: usize> View for Bits<N> {
    type V = Seq<u32>;

    closed spec fn view(&self) -> Seq<u32> {
        self.words@
    }
}

impl<const N: usize> View for SignedBits<N> {
    type V = Seq<u32>;

    closed spec fn view(&self) -> Seq<u32> {
        self.words@
    }
}

impl<const N: usize> Clone for Bits<N> {
    fn clone(&self) -> (r: Self)
        ensures
            r@ == self@,
    {
        proof {
            use_type_invariant(self);
        }
        Bits { words: copy_words(self.words.as_slice()) }
    }
}

impl<const N: usize> Clone for SignedBits<N> {
    fn clone(&self) -> (r: Self)
        ensures
            r@ == self@,
    {
        proof {
            use_type_invariant(self);
        }
        SignedBits { words: copy_words(self.words.as_slice()) }
    }
}

/// Copies a word slice into fresh storage.
fn copy_words(words: &[u32]) -> (r: Vec<u32>)
    ensures
        r@ == words@,
{
    let mut out: Vec<u32> = Vec::new();
    let mut i: usize = 0;
    while i < words.len()
        invariant
            i <= words@.len(),
            out@ == words@.subrange(0, i as int),
        decreases words@.len() - i,
    {
        out.push(words[i]);
        i = i + 1;
    }
    assert(out@ == words@);
    out
}

impl<const N: usize> Bits<N> {
    /// Declared packed width.
    pub fn width() -> (r: usize)
        ensures
            r == N,
    {
        N
    }

    /// Number of 32-bit words required to store the declared width.
    pub fn words() -> (r: usize)
        ensures
            r == word_count_spec(N as nat),
    {
        word_count(N)
    }

    #[verifier::type_invariant]
    closed spec fn inv(self) -> bool {
        canonical(self.words@, N as nat)
    }

    /// Constructs an all-zero value.
    pub fn zero() -> (r: Self)
        ensures
            r@.len() == word_count_spec(N as nat),
            forall|i: int| 0 <= i < r@.len() ==> r@[i] == 0,
    {
        Bits { words: zero_words(N) }
    }

    /// Constructs a value from least-significant-word-first 32-bit words.
    /// Unused bits in the final word are cleared.
    pub fn from_words_le(words: &[u32]) -> (r: Result<Self, InvalidBitVectorWordCount>)
        ensures
            match r {
                Ok(b) => words@.len() == word_count_spec(N as nat) && b@ == masked(
                    words@,
                    N as nat,
                ),
                Err(e) => words@.len() != word_count_spec(N as nat) && e
                    == InvalidBitVectorWordCount {
                    width: N,
                    expected: word_count_spec(N as nat) as usize,
                    actual: words@.len() as usize,
                },
            },
    {
        let canonical = canonical_words(words, N)?;
        proof {
            lemma_masked(words@, N as nat);
        }
        Ok(Bits { words: canonical })
    }

    /// Returns the canonical least-significant-word-first representation.
    pub fn words_le(&self) -> (r: &[u32])
        ensures
            r@ == self@,
            canonical(r@, N as nat),
    {
        proof {
            use_type_invariant(self);
        }
        self.words.as_slice()
    }

    /// Returns one declared bit; bit 0 is the least-significant bit.
    pub fn bit(&self, index: usize) -> (r: Option<bool>)
        ensures
            r == (if index < N {
                Some(words_bit(self@, index as nat))
            } else {
                None::<bool>
            }),
    {
        proof {
            use_type_invariant(self);
        }
        read_word_bit(self.words.as_slice(), N, index)
    }

    /// Returns whether every declared bit is zero.
    pub fn is_zero(&self) -> (r: bool)
        ensures
            r == (forall|i: int| 0 <= i < self@.len() ==> self@[i] == 0),
    {
        let mut i: usize = 0;
        while i < self.words.len()
            invariant
                i <= self.words@.len(),
                forall|j: int| 0 <= j < i ==> self.words@[j] == 0,
            decreases self.words@.len() - i,
        {
            if self.words[i] != 0 {
                assert(self@[i as int] != 0);
                return false;
            }
            i = i + 1;
        }
        true
    }

    /// Constructs a value from the low bits of a 64-bit integer.
    pub fn from_u64(value: u64) -> (r: Self)
        ensures
            r@ == words_from_64_spec(N as nat, value, 0),
    {
        proof {
            lemma_masked(unmasked_words_from_64(N as nat, value, 0), N as nat);
        }
        Bits { words: words_from_64(N, value, 0) }
    }
}

impl<const N: usize> SignedBits<N> {
    /// Declared packed width.
    pub fn width() -> (r: usize)
        ensures
            r == N,
    {
        N
    }

    /// Number of 32-bit words required to store the declared width.
    pub fn words() -> (r: usize)
        ensures
            r == word_count_spec(N as nat),
    {
        word_count(N)
    }

    #[verifier::type_invariant]
    closed spec fn inv(self) -> bool {
        canonical(self.words@, N as nat)
    }

    /// Constructs an all-zero value.
    pub fn zero() -> (r: Self)
        ensures
            r@.len() == word_count_spec(N as nat),
            forall|i: int| 0 <= i < r@.len() ==> r@[i] == 0,
    {
        SignedBits { words: zero_words(N) }
    }

    /// Constructs a signed value from least-significant-word-first words,
    /// read as an `N`-bit two's-complement pattern. Unused bits in the final
    /// word are cleared.
    pub fn from_words_le(words: &[u32]) -> (r: Result<Self, InvalidBitVectorWordCount>)
        ensures
            match r {
                Ok(b) => words@.len() == word_count_spec(N as nat) && b@ == masked(
                    words@,
                    N as nat,
                ),
                Err(e) => words@.len() != word_count_spec(N as nat) && e
                    == InvalidBitVectorWordCount {
                    width: N,
                    expected: word_count_spec(N as nat) as usize,
                    actual: words@.len() as usize,
                },
            },
    {
        let canonical = canonical_words(words, N)?;
        proof {
            lemma_masked(words@, N as nat);
        }
        Ok(SignedBits { words: canonical })
    }

    /// Returns the canonical least-significant-word-first representation.
    pub fn words_le(&self) -> (r: &[u32])
        ensures
            r@ == self@,
            canonical(r@, N as nat),
    {
        proof {
            use_type_invariant(self);
        }
        self.words.as_slice()
    }

    /// Returns one declared bit; bit 0 is the least-significant bit.
    pub fn bit(&self, index: usize) -> (r: Option<bool>)
        ensures
            r == (if index < N {
                Some(words_bit(self@, index as nat))
            } else {
                None::<bool>
            }),
    {
        proof {
            use_type_invariant(self);
        }
        read_word_bit(self.words.as_slice(), N, index)
    }

    /// Returns whether every declared bit is zero.
    pub fn is_zero(&self) -> (r: bool)
        ensures
            r == (forall|i: int| 0 <= i < self@.len() ==> self@[i] == 0),
    {
        let mut i: usize = 0;
        while i < self.words.len()
            invariant
                i <= self.words@.len(),
                forall|j: int| 0 <= j < i ==> self.words@[j] == 0,
            decreases self.words@.len() - i,
        {
            if self.words[i] != 0 {
                assert(self@[i as int] != 0);
                return false;
            }
            i = i + 1;
        }
        true
    }

    /// Returns whether the declared sign bit is set.
    pub fn is_negative(&self) -> (r: bool)
        ensures
            r == (N > 0 && words_bit(self@, (N - 1) as nat)),
    {
        if N == 0 {
            return false;
        }
        match self.bit(N - 1) {
            Some(b) => b,
            None => false,
        }
    }

    /// Constructs a value from a 64-bit two's-complement integer, sign-extended
    /// above bit 63 and truncated to the declared width.
    pub fn from_i64(value: i64) -> (r: Self)
        ensures
            r@ == words_from_64_spec(
                N as nat,
                value as u64,
                if value < 0 {
                    u32::MAX
                } else {
                    0u32
                },
            ),
    {
        let extension: u32 = if value < 0 {
            u32::MAX
        } else {
            0
        };
        proof {
            lemma_masked(unmasked_words_from_64(N as nat, value as u64, extension), N as nat);
        }
        SignedBits { words: words_from_64(N, value as u64, extension) }
    }
}

impl<const N: usize> From<u64> for Bits<N> {
    fn from(value: u64) -> (r: Self)
        ensures
            r@ == words_from_64_spec(N as nat, value, 0),
    {
        Bits::from_u64(value)
    }
}

impl<const N: usize> vstd::std_specs::convert::FromSpecImpl<u64> for Bits<N> {
    open spec fn obeys_from_spec() -> bool {
        false
    }

    open spec fn from_spec(v: u64) -> Self {
        arbitrary()
    }
}

impl<const N: usize> From<i64> for SignedBits<N> {
    fn from(value: i64) -> (r: Self)
        ensures
            r@ == words_from_64_spec(
                N as nat,
                value as u64,
                if value < 0 {
                    u32::MAX
                } else {
                    0u32
                },
            ),
    {
        SignedBits::from_i64(value)
    }
}

impl<const N: usize> vstd::std_specs::convert::FromSpecImpl<i64> for SignedBits<N> {
    open spec fn obeys_from_spec() -> bool {
        false
    }

    open spec fn from_spec(v: i64) -> Self {
        arbitrary()
    }
}

impl<const N: usize> Default for Bits<N> {
    fn default() -> (r: Self)
        ensures
            r@.len() == word_count_spec(N as nat),
            forall|i: int| 0 <= i < r@.len() ==> r@[i] == 0,
    {
        Bits::zero()
    }
}

impl<const N: usize> Default for SignedBits<N> {
    fn default() -> (r: Self)
        ensures
            r@.len() == word_count_spec(N as nat),
            forall|i: int| 0 <= i < r@.len() ==> r@[i] == 0,
    {
        SignedBits::zero()
    }
}

/// Index `i` below the width lies inside the word storage of that width.
pub proof fn lemma_index_in_words(width: nat, i: nat)
    requires
        i < width,
    ensures
        i / 32 < word_count_spec(width),
        width <= 32 * word_count_spec(width),
{
}

proof fn lemma_low_word_bit_bv(v: u64, b: u32)
    by (bit_vector)
    requires
        b < 32,
    ensures
        ((v as u32) & (1u32 << b) != 0) == (v & (1u64 << (b as u64)) != 0),
        (((v >> 32u64) as u32) & (1u32 << b) != 0) == (v & (1u64 << ((b + 32) as u64)) != 0),
{
}

/// A value built from a 64-bit pattern holds the pattern's bits in its low 64
/// declared bits and the extension word's bits above them.
pub proof fn lemma_words_from_64_bits(width: nat, value: u64, extension: u32)
    ensures
        canonical(words_from_64_spec(width, value, extension), width),
        forall|i: nat|
            i < width ==> #[trigger] words_bit(words_from_64_spec(width, value, extension), i) == if i
                < 64 {
                u64_bit(value, i)
            } else {
                word_bit(extension, i % 32)
            },
{
    let raw = unmasked_words_from_64(width, value, extension);
    lemma_masked(raw, width);
    assert forall|i: nat| i < width implies #[trigger] words_bit(
        words_from_64_spec(width, value, extension),
        i,
    ) == if i < 64 {
        u64_bit(value, i)
    } else {
        word_bit(extension, i % 32)
    } by {
        lemma_index_in_words(width, i);
        assert(words_bit(masked(raw, width), i) == words_bit(raw, i));
        lemma_low_word_bit_bv(value, (i % 32) as u32);
    }
}

/// Hexadecimal digits of `words[count - 1]` down to `words[0]`, eight per word.
pub open spec fn hex_words_spec(words: Seq<u32>, count: nat) -> Seq<char>
    decreases count,
{
    if count == 0 || count > words.len() {
        Seq::empty()
    } else {
        hex_spec(words[count - 1] as nat, 8) + hex_words_spec(words, (count - 1) as nat)
    }
}

/// Digits shown for the most-significant word of a `width`-bit value of `len` words.
pub open spec fn leading_digits_spec(width: nat, len: nat) -> nat {
    if hex_digit_count_spec(width) >= (len - 1) * 8 {
        (hex_digit_count_spec(width) - (len - 1) * 8) as nat
    } else {
        0
    }
}

/// Fixed-width hexadecimal rendering `name<width>(0x...)` of packed storage.
pub open spec fn format_words_spec(name: Seq<char>, width: nat, words: Seq<u32>) -> Seq<char> {
    name + "<"@ + decimal_spec(width) + ">(0x"@ + (if words.len() == 0 {
        "0"@
    } else {
        hex_spec(words.last() as nat, leading_digits_spec(width, words.len()))
            + hex_words_spec(words, (words.len() - 1) as nat)
    }) + ")"@
}

/// Formats a canonical packed value as fixed-width hexadecimal.
pub fn format_words(name: &str, width: usize, words: &[u32]) -> (r: String)
    ensures
        r@ == format_words_spec(name@, width as nat, words@),
{
    let mut s = String::new();
    push_str(&mut s, name);
    push_str(&mut s, "<");
    push_decimal(&mut s, width as u64);
    push_str(&mut s, ">(0x");
    let len = words.len();
    if len == 0 {
        push_str(&mut s, "0");
        push_str(&mut s, ")");
        return s;
    }
    let total = hex_digit_count(width);
    let trailing: usize = if len - 1 <= usize::MAX / 8 {
        (len - 1) * 8
    } else {
        usize::MAX
    };
    let leading = if total >= trailing {
        total - trailing
    } else {
        0
    };
    proof {
        assert(leading == leading_digits_spec(width as nat, len as nat)) by (nonlinear_arith)
            requires
                len >= 1,
                total == hex_digit_count_spec(width as nat),
                trailing == (if len - 1 <= usize::MAX / 8 {
                    (len - 1) * 8
                } else {
                    usize::MAX as int
                }),
                leading == (if total >= trailing {
                    total - trailing
                } else {
                    0
                }),
                total <= usize::MAX,
        ;
    }
    let ghost prefix = s@;
    push_hex(&mut s, words[len - 1] as u64, leading);
    let mut i: usize = len - 1;
    while i > 0
        invariant
            i <= len - 1,
            len == words@.len(),
            len >= 1,
            s@ == prefix + hex_spec(words@.last() as nat, leading as nat) + (hex_words_spec(
                words@,
                (len - 1) as nat,
            ).subrange(0, (8 * (len - 1 - i)) as int)),
        decreases i,
    {
        proof {
            lemma_hex_words_prefix(words@, (len - 1) as nat, i as nat);
        }
        push_hex(&mut s, words[i - 1] as u64, 8);
        i = i - 1;
    }
    proof {
        lemma_hex_words_len(words@, (len - 1) as nat);
        assert(hex_words_spec(words@, (len - 1) as nat).subrange(0, (8 * (len - 1)) as int)
            =~= hex_words_spec(words@, (len - 1) as nat));
    }
    push_str(&mut s, ")");
    proof {
        assert(s@ =~= format_words_spec(name@, width as nat, words@));
    }
    s
}

proof fn lemma_hex_len(n: nat, digits: nat)
    ensures
        hex_spec(n, digits).len() == digits,
    decreases digits,
{
    if digits > 0 {
        lemma_hex_len(n / 16, (digits - 1) as nat);
    }
}

proof fn lemma_hex_words_len(words: Seq<u32>, count: nat)
    requires
        count <= words.len(),
    ensures
        hex_words_spec(words, count).len() == 8 * count,
    decreases count,
{
    if count > 0 {
        lemma_hex_len(words[count - 1] as nat, 8);
        lemma_hex_words_len(words, (count - 1) as nat);
    }
}

/// Appending the next word's digits extends the rendered prefix.
proof fn lemma_hex_words_prefix(words: Seq<u32>, count: nat, i: nat)
    requires
        0 < i <= count,
        count <= words.len(),
    ensures
        hex_words_spec(words, count).subrange(0, (8 * (count - i)) as int) + hex_spec(
            words[i - 1] as nat,
            8,
        ) =~= hex_words_spec(words, count).subrange(0, (8 * (count - i + 1)) as int),
    decreases count,
{
    lemma_hex_words_len(words, count);
    lemma_hex_len(words[count - 1] as nat, 8);
    if i == count {
        assert(hex_words_spec(words, count) == hex_spec(words[count - 1] as nat, 8)
            + hex_words_spec(words, (count - 1) as nat));
    } else {
        lemma_hex_words_prefix(words, (count - 1) as nat, i);
        lemma_hex_words_len(words, (count - 1) as nat);
        let head = hex_spec(words[count - 1] as nat, 8);
        let rest = hex_words_spec(words, (count - 1) as nat);
        assert(hex_words_spec(words, count) == head + rest);
        assert((head + rest).subrange(0, (8 * (count - i)) as int) =~= head + rest.subrange(
            0,
            (8 * (count - 1 - i)) as int,
        ));
        assert((head + rest).subrange(0, (8 * (count - i + 1)) as int) =~= head
            + rest.subrange(0, (8 * (count - 1 - i + 1)) as int));
    }
}

impl InvalidBitVectorWordCount {
    /// Human-readable description of the error.
    pub fn message(&self) -> (r: String)
        ensures
            r@ == decimal_spec(self.width as nat) + "-bit value requires "@ + decimal_spec(
                self.expected as nat,
            ) + " 32-bit words, but "@ + decimal_spec(self.actual as nat) + " were supplied"@,
    {
        let mut s = String::new();
        push_decimal(&mut s, self.width as u64);
        push_str(&mut s, "-bit value requires ");
        push_decimal(&mut s, self.expected as u64);
        push_str(&mut s, " 32-bit words, but ");
        push_decimal(&mut s, self.actual as u64);
        push_str(&mut s, " were supplied");
        s
    }
}

impl<const N: usize> Bits<N> {
    /// Fixed-width hexadecimal rendering, such as `Bits<65>(0x10123456789abcdef)`.
    pub fn debug_text(&self) -> (r: String)
        ensures
            r@ == format_words_spec("Bits"@, N as nat, self@),
    {
        format_words("Bits", N, self.words.as_slice())
    }
}

impl<const N: usize> SignedBits<N> {
    /// Fixed-width hexadecimal rendering, such as `SignedBits<5>(0x1f)`.
    pub fn debug_text(&self) -> (r: String)
        ensures
            r@ == format_words_spec("SignedBits"@, N as nat, self@),
    {
        format_words("SignedBits", N, self.words.as_slice())
    }
}

} // verus!

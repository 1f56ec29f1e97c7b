use vstd::prelude::*;
use vstd::slice::*;
use vstd::string::*;

use crate::text::{decimal_spec, push_decimal, push_str};

use crate::bits::{
    canonical, lemma_index_in_words, lemma_masked, masked, u64_bit, word_bit, word_count,
    word_count_spec, words_bit, Bits, InvalidBitVectorWordCount, SignedBits,
};

verus! {

/// Number of bits in one canonical packed storage word.
pub const WORD_BITS: usize = 32;

/// Maximum scalar field width that can be extracted into `u64` or `i64`.
pub const MAX_SCALAR_BITS: usize = 64;

/// Packed value that can be represented by canonical 32-bit little-endian words.
pub trait PackedValue: Sized {
    /// Declared packed width.
    spec fn spec_width() -> nat;

    /// Canonical least-significant-word-first storage of the value.
    spec fn packed_view(&self) -> Seq<u32>;

    /// Declared packed width.
    fn width() -> (r: usize)
        ensures
            r == Self::spec_width(),
    ;

    /// Number of canonical 32-bit words.
    fn words() -> (r: usize)
        ensures
            r == word_count_spec(Self::spec_width()),
    ;

    /// Constructs the value from canonical least-significant-word-first words.
    fn from_words_le(words: &[u32]) -> (r: Result<Self, InvalidBitVectorWordCount>)
        ensures
            match r {
                Ok(v) => words@.len() == word_count_spec(Self::spec_width()) && v.packed_view()
                    == masked(words@, Self::spec_width()),
                Err(e) => words@.len() != word_count_spec(Self::spec_width()) && e.actual
                    == words@.len() as usize,
            },
    ;

    /// Returns canonical least-significant-word-first words.
    fn words_le(&self) -> (r: &[u32])
        ensures
            r@ == self.packed_view(),
            canonical(r@, Self::spec_width()),
    ;
}

impl<const N: usize> PackedValue for Bits<N> {
    open spec fn spec_width() -> nat {
        N as nat
    }

    open spec fn packed_view(&self) -> Seq<u32> {
        self@
    }

    fn width() -> (r: usize) {
        N
    }

    fn words() -> (r: usize) {
        word_count(N)
    }

    fn from_words_le(words: &[u32]) -> (r: Result<Self, InvalidBitVectorWordCount>) {
        Bits::from_words_le(words)
    }

    fn words_le(&self) -> (r: &[u32]) {
        Bits::words_le(self)
    }
}

impl<const N: usize> PackedValue for SignedBits<N> {
    open spec fn spec_width() -> nat {
        N as nat
    }

    open spec fn packed_view(&self) -> Seq<u32> {
        self@
    }

    fn width() -> (r: usize) {
        N
    }

    fn words() -> (r: usize) {
        word_count(N)
    }

    fn from_words_le(words: &[u32]) -> (r: Result<Self, InvalidBitVectorWordCount>) {
        SignedBits::from_words_le(words)
    }

    fn words_le(&self) -> (r: &[u32]) {
        SignedBits::words_le(self)
    }
}

/// One packed field layout inside a packed aggregate.
#[derive(Debug, Clone, Copy, PartialEq, Eq, Hash)]
pub struct PackedFieldLayout {
    /// Field name.
    pub name: &'static str,
    /// Bit offset from the least-significant bit of the containing aggregate.
    pub offset: usize,
    /// Field width in bits.
    pub width: usize,
    /// Whether the field is signed.
    pub signed: bool,
}

impl PackedFieldLayout {
    /// Creates one packed field layout.
    pub fn new(name: &'static str, offset: usize, width: usize, signed: bool) -> (r: Self)
        ensures
            r == (PackedFieldLayout { name, offset, width, signed }),
    {
        PackedFieldLayout { name, offset, width, signed }
    }

    /// Returns the field name.
    pub fn name(self) -> (r: &'static str)
        ensures
            r == self.name,
    {
        self.name
    }

    /// Returns the field offset from the aggregate LSB.
    pub fn offset(self) -> (r: usize)
        ensures
            r == self.offset,
    {
        self.offset
    }

    /// Returns the field width.
    pub fn width(self) -> (r: usize)
        ensures
            r == self.width,
    {
        self.width
    }

    /// Returns whether the field is signed.
    pub fn signed(self) -> (r: bool)
        ensures
            r == self.signed,
    {
        self.signed
    }
}

/// Packed aggregate layout.
#[derive(Debug, Clone, Copy, PartialEq, Eq, Hash)]
pub struct PackedLayout {
    /// Aggregate name.
    pub name: &'static str,
    /// Aggregate width in bits.
    pub width: usize,
    /// Declared fields.
    pub fields: &'static [PackedFieldLayout],
}

impl PackedLayout {
    /// Creates one packed aggregate layout.
    pub fn new(name: &'static str, width: usize, fields: &'static [PackedFieldLayout]) -> (r: Self)
        ensures
            r == (PackedLayout { name, width, fields }),
    {
        PackedLayout { name, width, fields }
    }

    /// Returns the aggregate name.
    pub fn name(self) -> (r: &'static str)
        ensures
            r == self.name,
    {
        self.name
    }

    /// Returns the aggregate width.
    pub fn width(self) -> (r: usize)
        ensures
            r == self.width,
    {
        self.width
    }

    /// Returns the aggregate fields.
    pub fn fields(self) -> (r: &'static [PackedFieldLayout])
        ensures
            r == self.fields,
    {
        self.fields
    }
}

/// Error returned by packed-layout extraction and insertion helpers.
#[derive(Debug, Clone, PartialEq, Eq)]
pub enum PackedLayoutError {
    /// A packed field width was zero.
    ZeroWidth {
        /// Containing packed storage width.
        storage_width: usize,
        /// Requested field offset.
        offset: usize,
    },
    /// A requested packed field is outside the containing storage.
    RangeOutOfBounds {
        /// Containing packed storage width.
        storage_width: usize,
        /// Requested field offset.
        offset: usize,
        /// Requested field width.
        width: usize,
    },
    /// A scalar extraction or insertion requested more than 64 bits.
    ScalarFieldTooWide {
        /// Requested field width.
        width: usize,
        /// Maximum scalar field width.
        maximum: usize,
    },
    /// The supplied word slice length does not match the containing storage width.
    InvalidWordCount {
        /// Containing packed storage width.
        storage_width: usize,
        /// Expected canonical word count.
        expected: usize,
        /// Actual supplied word count.
        actual: usize,
    },
    /// A packed value could not be reconstructed from extracted words.
    InvalidPackedValue {
        /// Underlying bit-vector construction error.
        source: InvalidBitVectorWordCount,
    },
}

/// Validated packed bit range.
#[derive(Debug, Clone, Copy, PartialEq, Eq, Hash)]
pub struct PackedRange {
    storage_width: usize,
    offset: usize,
    width: usize,
}

/// The error, if any, that validates a field range inside storage.
pub open spec fn range_error(storage_width: usize, offset: usize, width: usize) -> Option<
    PackedLayoutError,
> {
    if width == 0 {
        Some(PackedLayoutError::ZeroWidth { storage_width, offset })
    } else if offset + width > storage_width {
        Some(PackedLayoutError::RangeOutOfBounds { storage_width, offset, width })
    } else {
        None
    }
}

/// The error, if any, of a word slice whose length must match the storage width.
pub open spec fn word_count_error(len: nat, storage_width: usize) -> Option<PackedLayoutError> {
    if len != word_count_spec(storage_width as nat) {
        Some(
            PackedLayoutError::InvalidWordCount {
                storage_width,
                expected: word_count_spec(storage_width as nat) as usize,
                actual: len as usize,
            },
        )
    } else {
        None
    }
}

/// The error, if any, of a scalar field width.
pub open spec fn scalar_error(width: usize) -> Option<PackedLayoutError> {
    if width > 64 {
        Some(PackedLayoutError::ScalarFieldTooWide { width, maximum: 64 })
    } else {
        None
    }
}

/// Error of a scalar extraction: word count first, then range, then scalar width.
pub open spec fn extract_error(len: nat, storage_width: usize, offset: usize, width: usize) -> Option<
    PackedLayoutError,
> {
    if word_count_error(len, storage_width) is Some {
        word_count_error(len, storage_width)
    } else if range_error(storage_width, offset, width) is Some {
        range_error(storage_width, offset, width)
    } else {
        scalar_error(width)
    }
}

/// Error of a scalar insertion: range first, then scalar width, then word count.
pub open spec fn insert_error(len: nat, storage_width: usize, offset: usize, width: usize) -> Option<
    PackedLayoutError,
> {
    if range_error(storage_width, offset, width) is Some {
        range_error(storage_width, offset, width)
    } else if scalar_error(width) is Some {
        scalar_error(width)
    } else {
        word_count_error(len, storage_width)
    }
}

/// The unsigned value of the `width` bits starting at bit `offset`.
pub open spec fn field_value(words: Seq<u32>, offset: nat, width: nat) -> u64
    decreases width,
{
    if width == 0 {
        0
    } else {
        let prev = field_value(words, offset, (width - 1) as nat);
        if words_bit(words, (offset + width - 1) as nat) {
            prev | (1u64 << ((width - 1) as u64))
        } else {
            prev
        }
    }
}

/// Bit `j` of storage after writing the low `width` bits of `value` at `offset`.
pub open spec fn inserted_bit(old: Seq<u32>, offset: nat, width: nat, value: u64, j: nat) -> bool {
    if offset <= j < offset + width {
        u64_bit(value, (j - offset) as nat)
    } else {
        words_bit(old, j)
    }
}

/// Bit `j` of storage after writing the `width` bits of `value` (a word sequence) at `offset`.
pub open spec fn inserted_packed_bit(
    old: Seq<u32>,
    offset: nat,
    width: nat,
    value: Seq<u32>,
    j: nat,
) -> bool {
    if offset <= j < offset + width {
        words_bit(value, (j - offset) as nat)
    } else {
        words_bit(old, j)
    }
}

/// Two's-complement bit pattern of a `width`-bit field sign-extended to 64 bits.
pub open spec fn sign_extended(raw: u64, width: nat) -> u64 {
    if 0 < width < 64 && u64_bit(raw, (width - 1) as nat) {
        raw | (u64::MAX << (width as u64))
    } else {
        raw
    }
}

proof fn lemma_u64_set_bit(v: u64, k: u64, j: u64)
    by (bit_vector)
    requires
        k < 64,
        j < 64,
    ensures
        ((v | (1u64 << k)) & (1u64 << j) != 0) == ((v & (1u64 << j) != 0) || j == k),
{
}

proof fn lemma_u64_zero_bit(j: u64)
    by (bit_vector)
    requires
        j < 64,
    ensures
        (0u64 & (1u64 << j)) == 0,
{
}

proof fn lemma_u32_write_bit(w: u32, b: u32, j: u32, v: bool)
    by (bit_vector)
    requires
        b < 32,
        j < 32,
    ensures
        ((w | (1u32 << b)) & (1u32 << j) != 0) == ((w & (1u32 << j) != 0) || j == b),
        ((w & !(1u32 << b)) & (1u32 << j) != 0) == ((w & (1u32 << j) != 0) && j != b),
{
}

proof fn lemma_u32_zero_bit(j: u32)
    by (bit_vector)
    requires
        j < 32,
    ensures
        (0u32 & (1u32 << j)) == 0,
{
}

/// The bits of a field value are exactly the storage bits of the field.
pub proof fn lemma_field_value_bits(words: Seq<u32>, offset: nat, width: nat)
    requires
        width <= 64,
    ensures
        forall|k: nat|
            k < 64 ==> #[trigger] u64_bit(field_value(words, offset, width), k) == (k < width
                && words_bit(words, offset + k)),
    decreases width,
{
    if width == 0 {
        assert forall|k: nat| k < 64 implies !#[trigger] u64_bit(0u64, k) by {
            lemma_u64_zero_bit(k as u64);
        }
    } else {
        let w1 = (width - 1) as nat;
        lemma_field_value_bits(words, offset, w1);
        let prev = field_value(words, offset, w1);
        assert forall|k: nat| k < 64 implies #[trigger] u64_bit(
            field_value(words, offset, width),
            k,
        ) == (k < width && words_bit(words, offset + k)) by {
            assert(u64_bit(prev, k) == (k < w1 && words_bit(words, offset + k)));
            if words_bit(words, offset + w1) {
                lemma_u64_set_bit(prev, w1 as u64, k as u64);
            }
        }
    }
}

/// Validates a field range.
fn validate_range(storage_width: usize, offset: usize, width: usize) -> (r: Result<
    (),
    PackedLayoutError,
>)
    ensures
        match r {
            Ok(()) => range_error(storage_width, offset, width) is None,
            Err(e) => range_error(storage_width, offset, width) == Some(e),
        },
{
    if width == 0 {
        return Err(PackedLayoutError::ZeroWidth { storage_width, offset });
    }
    if offset > usize::MAX - width {
        return Err(PackedLayoutError::RangeOutOfBounds { storage_width, offset, width });
    }
    let end = offset + width;
    if end > storage_width {
        return Err(PackedLayoutError::RangeOutOfBounds { storage_width, offset, width });
    }
    Ok(())
}

/// Validates that a word slice matches the containing storage width.
fn validate_words(len: usize, storage_width: usize) -> (r: Result<(), PackedLayoutError>)
    ensures
        match r {
            Ok(()) => word_count_error(len as nat, storage_width) is None,
            Err(e) => word_count_error(len as nat, storage_width) == Some(e),
        },
{
    let expected = word_count(storage_width);
    if len != expected {
        return Err(PackedLayoutError::InvalidWordCount { storage_width, expected, actual: len });
    }
    Ok(())
}

/// Validates a scalar field width.
fn validate_scalar_width(width: usize) -> (r: Result<(), PackedLayoutError>)
    ensures
        match r {
            Ok(()) => scalar_error(width) is None,
            Err(e) => scalar_error(width) == Some(e),
        },
{
    if width > MAX_SCALAR_BITS {
        return Err(PackedLayoutError::ScalarFieldTooWide { width, maximum: MAX_SCALAR_BITS });
    }
    Ok(())
}

/// Reads one bit of storage whose length is already validated.
fn read_bit(words: &[u32], storage_width: usize, index: usize) -> (r: bool)
    requires
        words@.len() == word_count_spec(storage_width as nat),
        index < storage_width,
    ensures
        r == words_bit(words@, index as nat),
{
    proof {
        lemma_index_in_words(storage_width as nat, index as nat);
    }
    let word = words[index / WORD_BITS];
    let shift = (index % WORD_BITS) as u32;
    word & (1u32 << shift) != 0
}

/// Writes one bit of storage whose length is already validated.
fn write_bit(words: &mut [u32], storage_width: usize, index: usize, value: bool)
    requires
        old(words)@.len() == word_count_spec(storage_width as nat),
        index < storage_width,
    ensures
        final(words)@.len() == old(words)@.len(),
        forall|j: nat|
            j < 32 * old(words)@.len() ==> #[trigger] words_bit(final(words)@, j) == if j
                == index {
                value
            } else {
                words_bit(old(words)@, j)
            },
{
    proof {
        lemma_index_in_words(storage_width as nat, index as nat);
    }
    let word_index = index / WORD_BITS;
    let shift = (index % WORD_BITS) as u32;
    let word = words[word_index];
    let mask = 1u32 << shift;
    let updated = if value {
        word | mask
    } else {
        word & !mask
    };
    words.set(word_index, updated);
    proof {
        assert forall|j: nat| j < 32 * old(words)@.len() implies #[trigger] words_bit(words@, j)
            == if j == index {
            value
        } else {
            words_bit(old(words)@, j)
        } by {
            if j / 32 == word_index {
                lemma_u32_write_bit(word, shift, (j % 32) as u32, value);
            }
        }
    }
}

impl View for PackedRange {
    type V = (usize, usize, usize);

    closed spec fn view(&self) -> (usize, usize, usize) {
        (self.storage_width, self.offset, self.width)
    }
}

impl PackedRange {
    #[verifier::type_invariant]
    closed spec fn inv(self) -> bool {
        range_error(self.storage_width, self.offset, self.width) is None
    }

    /// Creates a validated packed range.
    pub fn new(storage_width: usize, offset: usize, width: usize) -> (r: Result<
        Self,
        PackedLayoutError,
    >)
        ensures
            match r {
                Ok(range) => range_error(storage_width, offset, width) is None && range@ == (
                    storage_width,
                    offset,
                    width,
                ),
                Err(e) => range_error(storage_width, offset, width) == Some(e),
            },
    {
        validate_range(storage_width, offset, width)?;
        Ok(PackedRange { storage_width, offset, width })
    }

    /// Returns the containing storage width.
    pub fn storage_width(self) -> (r: usize)
        ensures
            r == self@.0,
    {
        self.storage_width
    }

    /// Returns the range offset.
    pub fn offset(self) -> (r: usize)
        ensures
            r == self@.1,
    {
        self.offset
    }

    /// Returns the range width.
    pub fn width(self) -> (r: usize)
        ensures
            r == self@.2,
    {
        self.width
    }
}

/// Extracts an unsigned scalar field from canonical packed storage.
///
/// `offset` is measured from the least-significant bit of `words`.
pub fn extract_unsigned(words: &[u32], storage_width: usize, offset: usize, width: usize) -> (r:
    Result<u64, PackedLayoutError>)
    ensures
        match r {
            Ok(v) => extract_error(words@.len(), storage_width, offset, width) is None && v
                == field_value(words@, offset as nat, width as nat),
            Err(e) => extract_error(words@.len(), storage_width, offset, width) == Some(e),
        },
{
    validate_words(words.len(), storage_width)?;
    validate_range(storage_width, offset, width)?;
    validate_scalar_width(width)?;
    let mut value: u64 = 0;
    let mut k: usize = 0;
    while k < width
        invariant
            k <= width <= 64,
            offset + width <= storage_width,
            words@.len() == word_count_spec(storage_width as nat),
            value == field_value(words@, offset as nat, k as nat),
        decreases width - k,
    {
        if read_bit(words, storage_width, offset + k) {
            value = value | (1u64 << (k as u64));
        }
        k = k + 1;
    }
    Ok(value)
}

/// Inserts an unsigned scalar field into canonical packed storage.
///
/// Values wider than the destination field are truncated to the field width.
pub fn insert_unsigned(
    words: &mut [u32],
    storage_width: usize,
    offset: usize,
    width: usize,
    value: u64,
) -> (r: Result<(), PackedLayoutError>)
    ensures
        match r {
            Ok(()) => insert_error(old(words)@.len(), storage_width, offset, width) is None,
            Err(e) => insert_error(old(words)@.len(), storage_width, offset, width) == Some(e),
        },
        r is Err ==> final(words)@ == old(words)@,
        final(words)@.len() == old(words)@.len(),
        r is Ok ==> forall|j: nat|
            j < 32 * old(words)@.len() ==> #[trigger] words_bit(final(words)@, j) == inserted_bit(
                old(words)@,
                offset as nat,
                width as nat,
                value,
                j,
            ),
{
    validate_range(storage_width, offset, width)?;
    validate_scalar_width(width)?;
    validate_words(words.len(), storage_width)?;
    let ghost original = words@;
    let mut k: usize = 0;
    while k < width
        invariant
            k <= width <= 64,
            offset + width <= storage_width,
            words@.len() == original.len(),
            original.len() == word_count_spec(storage_width as nat),
            forall|j: nat|
                j < 32 * original.len() ==> #[trigger] words_bit(words@, j) == inserted_bit(
                    original,
                    offset as nat,
                    k as nat,
                    value,
                    j,
                ),
        decreases width - k,
    {
        let bit = value & (1u64 << (k as u64)) != 0;
        let ghost before = words@;
        write_bit(words, storage_width, offset + k, bit);
        proof {
            assert forall|j: nat| j < 32 * original.len() implies #[trigger] words_bit(words@, j)
                == inserted_bit(original, offset as nat, (k + 1) as nat, value, j) by {
                assert(words_bit(before, j) == inserted_bit(
                    original,
                    offset as nat,
                    k as nat,
                    value,
                    j,
                ));
            }
        }
        k = k + 1;
    }
    Ok(())
}

/// Extracts a signed scalar field with explicit sign extension.
pub fn extract_signed(words: &[u32], storage_width: usize, offset: usize, width: usize) -> (r:
    Result<i64, PackedLayoutError>)
    ensures
        match r {
            Ok(v) => extract_error(words@.len(), storage_width, offset, width) is None && v as u64
                == sign_extended(field_value(words@, offset as nat, width as nat), width as nat),
            Err(e) => extract_error(words@.len(), storage_width, offset, width) == Some(e),
        },
{
    let raw = extract_unsigned(words, storage_width, offset, width)?;
    let sign_bit = 1u64 << ((width - 1) as u64);
    let extended = if raw & sign_bit == 0 || width == MAX_SCALAR_BITS {
        raw
    } else {
        raw | (u64::MAX << (width as u64))
    };
    let result = extended as i64;
    proof {
        assert((extended as i64) as u64 == extended) by (bit_vector);
    }
    Ok(result)
}

/// Inserts a signed scalar field using its two's-complement low bits.
///
/// Values wider than the destination field are truncated to the field width.
pub fn insert_signed(
    words: &mut [u32],
    storage_width: usize,
    offset: usize,
    width: usize,
    value: i64,
) -> (r: Result<(), PackedLayoutError>)
    ensures
        match r {
            Ok(()) => insert_error(old(words)@.len(), storage_width, offset, width) is None,
            Err(e) => insert_error(old(words)@.len(), storage_width, offset, width) == Some(e),
        },
        r is Err ==> final(words)@ == old(words)@,
        final(words)@.len() == old(words)@.len(),
        r is Ok ==> forall|j: nat|
            j < 32 * old(words)@.len() ==> #[trigger] words_bit(final(words)@, j) == inserted_bit(
                old(words)@,
                offset as nat,
                width as nat,
                value as u64,
                j,
            ),
{
    insert_unsigned(words, storage_width, offset, width, value as u64)
}

/// Extracts a packed subfield from canonical packed storage.
pub fn extract_packed<P: PackedValue>(words: &[u32], storage_width: usize, offset: usize) -> (r:
    Result<P, PackedLayoutError>)
    ensures
        match r {
            Ok(p) => {
                &&& word_count_error(words@.len(), storage_width) is None
                &&& range_error(storage_width, offset, P::spec_width() as usize) is None
                &&& canonical(p.packed_view(), P::spec_width())
                &&& forall|i: nat|
                    i < P::spec_width() ==> #[trigger] words_bit(p.packed_view(), i) == words_bit(words@, (offset + i) as nat)
            },
            Err(e) => if word_count_error(words@.len(), storage_width) is Some {
                word_count_error(words@.len(), storage_width) == Some(e)
            } else {
                range_error(storage_width, offset, P::spec_width() as usize) == Some(e)
            },
        },
{
    let width = P::width();
    let count = P::words();
    validate_words(words.len(), storage_width)?;
    validate_range(storage_width, offset, width)?;
    let mut output: Vec<u32> = Vec::new();
    let mut i: usize = 0;
    while i < count
        invariant
            i <= count,
            output@.len() == i,
            forall|j: int| 0 <= j < i ==> output@[j] == 0,
        decreases count - i,
    {
        output.push(0);
        i = i + 1;
    }
    proof {
        assert forall|j: nat| j < 32 * output@.len() implies !#[trigger] words_bit(output@, j) by {
            lemma_u32_zero_bit((j % 32) as u32);
        }
    }
    let mut k: usize = 0;
    while k < width
        invariant
            k <= width,
            width == P::spec_width(),
            count == word_count_spec(width as nat),
            offset + width <= storage_width,
            words@.len() == word_count_spec(storage_width as nat),
            output@.len() == count,
            forall|j: nat|
                j < 32 * output@.len() ==> #[trigger] words_bit(output@, j) == (j < k && words_bit(words@, (offset + j) as nat)),
        decreases width - k,
    {
        let bit = read_bit(words, storage_width, offset + k);
        let ghost before = output@;
        write_bit(output.as_mut_slice(), width, k, bit);
        proof {
            assert forall|j: nat| j < 32 * output@.len() implies #[trigger] words_bit(output@, j)
                == (j < k + 1 && words_bit(words@, (offset + j) as nat)) by {
                assert(words_bit(before, j) == (j < k && words_bit(words@, (offset + j) as nat)));
            }
        }
        k = k + 1;
    }
    let ghost out = output@;
    proof {
        lemma_masked(out, width as nat);
    }
    match P::from_words_le(output.as_slice()) {
        Ok(p) => {
            proof {
                assert forall|i: nat| i < P::spec_width() implies #[trigger] words_bit(
                    p.packed_view(),
                    i,
                ) == words_bit(words@, (offset + i) as nat) by {
                    lemma_index_in_words(width as nat, i);
                    assert(words_bit(masked(out, width as nat), i) == words_bit(out, i));
                }
            }
            Ok(p)
        },
        Err(source) => Err(PackedLayoutError::InvalidPackedValue { source }),
    }
}

/// Inserts a packed subfield into canonical packed storage.
pub fn insert_packed<P: PackedValue>(
    words: &mut [u32],
    storage_width: usize,
    offset: usize,
    value: &P,
) -> (r: Result<(), PackedLayoutError>)
    ensures
        match r {
            Ok(()) => range_error(storage_width, offset, P::spec_width() as usize) is None
                && word_count_error(old(words)@.len(), storage_width) is None,
            Err(e) => if range_error(storage_width, offset, P::spec_width() as usize) is Some {
                range_error(storage_width, offset, P::spec_width() as usize) == Some(e)
            } else {
                word_count_error(old(words)@.len(), storage_width) == Some(e)
            },
        },
        r is Err ==> final(words)@ == old(words)@,
        final(words)@.len() == old(words)@.len(),
        r is Ok ==> forall|j: nat|
            j < 32 * old(words)@.len() ==> #[trigger] words_bit(final(words)@, j)
                == inserted_packed_bit(
                old(words)@,
                offset as nat,
                P::spec_width(),
                value.packed_view(),
                j,
            ),
{
    let width = P::width();
    validate_range(storage_width, offset, width)?;
    validate_words(words.len(), storage_width)?;
    let source = value.words_le();
    let ghost original = words@;
    let mut k: usize = 0;
    while k < width
        invariant
            k <= width,
            width == P::spec_width(),
            offset + width <= storage_width,
            source@ == value.packed_view(),
            source@.len() == word_count_spec(width as nat),
            words@.len() == original.len(),
            original.len() == word_count_spec(storage_width as nat),
            forall|j: nat|
                j < 32 * original.len() ==> #[trigger] words_bit(words@, j) == inserted_packed_bit(
                    original,
                    offset as nat,
                    k as nat,
                    source@,
                    j,
                ),
        decreases width - k,
    {
        let bit = read_bit(source, width, k);
        let ghost before = words@;
        write_bit(words, storage_width, offset + k, bit);
        proof {
            assert forall|j: nat| j < 32 * original.len() implies #[trigger] words_bit(words@, j)
                == inserted_packed_bit(original, offset as nat, (k + 1) as nat, source@, j) by {
                assert(words_bit(before, j) == inserted_packed_bit(
                    original,
                    offset as nat,
                    k as nat,
                    source@,
                    j,
                ));
            }
        }
        k = k + 1;
    }
    Ok(())
}

/// Extracts a signed packed subfield.
pub fn extract_signed_packed<const N: usize>(words: &[u32], storage_width: usize, offset: usize) -> (r:
    Result<SignedBits<N>, PackedLayoutError>)
    ensures
        match r {
            Ok(p) => {
                &&& word_count_error(words@.len(), storage_width) is None
                &&& range_error(storage_width, offset, N) is None
                &&& canonical(p@, N as nat)
                &&& forall|i: nat|
                    i < N ==> #[trigger] words_bit(p@, i) == words_bit(words@, (offset + i) as nat)
            },
            Err(e) => if word_count_error(words@.len(), storage_width) is Some {
                word_count_error(words@.len(), storage_width) == Some(e)
            } else {
                range_error(storage_width, offset, N) == Some(e)
            },
        },
{
    extract_packed::<SignedBits<N>>(words, storage_width, offset)
}

/// Inserts a signed packed subfield.
pub fn insert_signed_packed<const N: usize>(
    words: &mut [u32],
    storage_width: usize,
    offset: usize,
    value: &SignedBits<N>,
) -> (r: Result<(), PackedLayoutError>)
    ensures
        match r {
            Ok(()) => range_error(storage_width, offset, N) is None && word_count_error(
                old(words)@.len(),
                storage_width,
            ) is None,
            Err(e) => if range_error(storage_width, offset, N) is Some {
                range_error(storage_width, offset, N) == Some(e)
            } else {
                word_count_error(old(words)@.len(), storage_width) == Some(e)
            },
        },
        r is Err ==> final(words)@ == old(words)@,
        final(words)@.len() == old(words)@.len(),
        r is Ok ==> forall|j: nat|
            j < 32 * old(words)@.len() ==> #[trigger] words_bit(final(words)@, j)
                == inserted_packed_bit(old(words)@, offset as nat, N as nat, value@, j),
{
    insert_packed::<SignedBits<N>>(words, storage_width, offset, value)
}

proof fn lemma_u32_ext_bv(x: u32, y: u32)
    by (bit_vector)
    requires
        (x & (1u32 << 0u32) != 0) == (y & (1u32 << 0u32) != 0),
        (x & (1u32 << 1u32) != 0) == (y & (1u32 << 1u32) != 0),
        (x & (1u32 << 2u32) != 0) == (y & (1u32 << 2u32) != 0),
        (x & (1u32 << 3u32) != 0) == (y & (1u32 << 3u32) != 0),
        (x & (1u32 << 4u32) != 0) == (y & (1u32 << 4u32) != 0),
        (x & (1u32 << 5u32) != 0) == (y & (1u32 << 5u32) != 0),
        (x & (1u32 << 6u32) != 0) == (y & (1u32 << 6u32) != 0),
        (x & (1u32 << 7u32) != 0) == (y & (1u32 << 7u32) != 0),
        (x & (1u32 << 8u32) != 0) == (y & (1u32 << 8u32) != 0),
        (x & (1u32 << 9u32) != 0) == (y & (1u32 << 9u32) != 0),
        (x & (1u32 << 10u32) != 0) == (y & (1u32 << 10u32) != 0),
        (x & (1u32 << 11u32) != 0) == (y & (1u32 << 11u32) != 0),
        (x & (1u32 << 12u32) != 0) == (y & (1u32 << 12u32) != 0),
        (x & (1u32 << 13u32) != 0) == (y & (1u32 << 13u32) != 0),
        (x & (1u32 << 14u32) != 0) == (y & (1u32 << 14u32) != 0),
        (x & (1u32 << 15u32) != 0) == (y & (1u32 << 15u32) != 0),
        (x & (1u32 << 16u32) != 0) == (y & (1u32 << 16u32) != 0),
        (x & (1u32 << 17u32) != 0) == (y & (1u32 << 17u32) != 0),
        (x & (1u32 << 18u32) != 0) == (y & (1u32 << 18u32) != 0),
        (x & (1u32 << 19u32) != 0) == (y & (1u32 << 19u32) != 0),
        (x & (1u32 << 20u32) != 0) == (y & (1u32 << 20u32) != 0),
        (x & (1u32 << 21u32) != 0) == (y & (1u32 << 21u32) != 0),
        (x & (1u32 << 22u32) != 0) == (y & (1u32 << 22u32) != 0),
        (x & (1u32 << 23u32) != 0) == (y & (1u32 << 23u32) != 0),
        (x & (1u32 << 24u32) != 0) == (y & (1u32 << 24u32) != 0),
        (x & (1u32 << 25u32) != 0) == (y & (1u32 << 25u32) != 0),
        (x & (1u32 << 26u32) != 0) == (y & (1u32 << 26u32) != 0),
        (x & (1u32 << 27u32) != 0) == (y & (1u32 << 27u32) != 0),
        (x & (1u32 << 28u32) != 0) == (y & (1u32 << 28u32) != 0),
        (x & (1u32 << 29u32) != 0) == (y & (1u32 << 29u32) != 0),
        (x & (1u32 << 30u32) != 0) == (y & (1u32 << 30u32) != 0),
        (x & (1u32 << 31u32) != 0) == (y & (1u32 << 31u32) != 0),
    ensures
        x == y,
{
}

proof fn lemma_u64_ext_bv(x: u64, y: u64)
    by (bit_vector)
    requires
        (x & (1u64 << 0u64) != 0) == (y & (1u64 << 0u64) != 0),
        (x & (1u64 << 1u64) != 0) == (y & (1u64 << 1u64) != 0),
        (x & (1u64 << 2u64) != 0) == (y & (1u64 << 2u64) != 0),
        (x & (1u64 << 3u64) != 0) == (y & (1u64 << 3u64) != 0),
        (x & (1u64 << 4u64) != 0) == (y & (1u64 << 4u64) != 0),
        (x & (1u64 << 5u64) != 0) == (y & (1u64 << 5u64) != 0),
        (x & (1u64 << 6u64) != 0) == (y & (1u64 << 6u64) != 0),
        (x & (1u64 << 7u64) != 0) == (y & (1u64 << 7u64) != 0),
        (x & (1u64 << 8u64) != 0) == (y & (1u64 << 8u64) != 0),
        (x & (1u64 << 9u64) != 0) == (y & (1u64 << 9u64) != 0),
        (x & (1u64 << 10u64) != 0) == (y & (1u64 << 10u64) != 0),
        (x & (1u64 << 11u64) != 0) == (y & (1u64 << 11u64) != 0),
        (x & (1u64 << 12u64) != 0) == (y & (1u64 << 12u64) != 0),
        (x & (1u64 << 13u64) != 0) == (y & (1u64 << 13u64) != 0),
        (x & (1u64 << 14u64) != 0) == (y & (1u64 << 14u64) != 0),
        (x & (1u64 << 15u64) != 0) == (y & (1u64 << 15u64) != 0),
        (x & (1u64 << 16u64) != 0) == (y & (1u64 << 16u64) != 0),
        (x & (1u64 << 17u64) != 0) == (y & (1u64 << 17u64) != 0),
        (x & (1u64 << 18u64) != 0) == (y & (1u64 << 18u64) != 0),
        (x & (1u64 << 19u64) != 0) == (y & (1u64 << 19u64) != 0),
        (x & (1u64 << 20u64) != 0) == (y & (1u64 << 20u64) != 0),
        (x & (1u64 << 21u64) != 0) == (y & (1u64 << 21u64) != 0),
        (x & (1u64 << 22u64) != 0) == (y & (1u64 << 22u64) != 0),
        (x & (1u64 << 23u64) != 0) == (y & (1u64 << 23u64) != 0),
        (x & (1u64 << 24u64) != 0) == (y & (1u64 << 24u64) != 0),
        (x & (1u64 << 25u64) != 0) == (y & (1u64 << 25u64) != 0),
        (x & (1u64 << 26u64) != 0) == (y & (1u64 << 26u64) != 0),
        (x & (1u64 << 27u64) != 0) == (y & (1u64 << 27u64) != 0),
        (x & (1u64 << 28u64) != 0) == (y & (1u64 << 28u64) != 0),
        (x & (1u64 << 29u64) != 0) == (y & (1u64 << 29u64) != 0),
        (x & (1u64 << 30u64) != 0) == (y & (1u64 << 30u64) != 0),
        (x & (1u64 << 31u64) != 0) == (y & (1u64 << 31u64) != 0),
        (x & (1u64 << 32u64) != 0) == (y & (1u64 << 32u64) != 0),
        (x & (1u64 << 33u64) != 0) == (y & (1u64 << 33u64) != 0),
        (x & (1u64 << 34u64) != 0) == (y & (1u64 << 34u64) != 0),
        (x & (1u64 << 35u64) != 0) == (y & (1u64 << 35u64) != 0),
        (x & (1u64 << 36u64) != 0) == (y & (1u64 << 36u64) != 0),
        (x & (1u64 << 37u64) != 0) == (y & (1u64 << 37u64) != 0),
        (x & (1u64 << 38u64) != 0) == (y & (1u64 << 38u64) != 0),
        (x & (1u64 << 39u64) != 0) == (y & (1u64 << 39u64) != 0),
        (x & (1u64 << 40u64) != 0) == (y & (1u64 << 40u64) != 0),
        (x & (1u64 << 41u64) != 0) == (y & (1u64 << 41u64) != 0),
        (x & (1u64 << 42u64) != 0) == (y & (1u64 << 42u64) != 0),
        (x & (1u64 << 43u64) != 0) == (y & (1u64 << 43u64) != 0),
        (x & (1u64 << 44u64) != 0) == (y & (1u64 << 44u64) != 0),
        (x & (1u64 << 45u64) != 0) == (y & (1u64 << 45u64) != 0),
        (x & (1u64 << 46u64) != 0) == (y & (1u64 << 46u64) != 0),
        (x & (1u64 << 47u64) != 0) == (y & (1u64 << 47u64) != 0),
        (x & (1u64 << 48u64) != 0) == (y & (1u64 << 48u64) != 0),
        (x & (1u64 << 49u64) != 0) == (y & (1u64 << 49u64) != 0),
        (x & (1u64 << 50u64) != 0) == (y & (1u64 << 50u64) != 0),
        (x & (1u64 << 51u64) != 0) == (y & (1u64 << 51u64) != 0),
        (x & (1u64 << 52u64) != 0) == (y & (1u64 << 52u64) != 0),
        (x & (1u64 << 53u64) != 0) == (y & (1u64 << 53u64) != 0),
        (x & (1u64 << 54u64) != 0) == (y & (1u64 << 54u64) != 0),
        (x & (1u64 << 55u64) != 0) == (y & (1u64 << 55u64) != 0),
        (x & (1u64 << 56u64) != 0) == (y & (1u64 << 56u64) != 0),
        (x & (1u64 << 57u64) != 0) == (y & (1u64 << 57u64) != 0),
        (x & (1u64 << 58u64) != 0) == (y & (1u64 << 58u64) != 0),
        (x & (1u64 << 59u64) != 0) == (y & (1u64 << 59u64) != 0),
        (x & (1u64 << 60u64) != 0) == (y & (1u64 << 60u64) != 0),
        (x & (1u64 << 61u64) != 0) == (y & (1u64 << 61u64) != 0),
        (x & (1u64 << 62u64) != 0) == (y & (1u64 << 62u64) != 0),
        (x & (1u64 << 63u64) != 0) == (y & (1u64 << 63u64) != 0),
    ensures
        x == y,
{
}

/// Two words with the same bits are equal.
pub proof fn lemma_u32_ext(x: u32, y: u32)
    requires
        forall|b: nat| b < 32 ==> #[trigger] word_bit(x, b) == word_bit(y, b),
    ensures
        x == y,
{
    assert(word_bit(x, 0nat) == word_bit(y, 0nat));
    assert(word_bit(x, 1nat) == word_bit(y, 1nat));
    assert(word_bit(x, 2nat) == word_bit(y, 2nat));
    assert(word_bit(x, 3nat) == word_bit(y, 3nat));
    assert(word_bit(x, 4nat) == word_bit(y, 4nat));
    assert(word_bit(x, 5nat) == word_bit(y, 5nat));
    assert(word_bit(x, 6nat) == word_bit(y, 6nat));
    assert(word_bit(x, 7nat) == word_bit(y, 7nat));
    assert(word_bit(x, 8nat) == word_bit(y, 8nat));
    assert(word_bit(x, 9nat) == word_bit(y, 9nat));
    assert(word_bit(x, 10nat) == word_bit(y, 10nat));
    assert(word_bit(x, 11nat) == word_bit(y, 11nat));
    assert(word_bit(x, 12nat) == word_bit(y, 12nat));
    assert(word_bit(x, 13nat) == word_bit(y, 13nat));
    assert(word_bit(x, 14nat) == word_bit(y, 14nat));
    assert(word_bit(x, 15nat) == word_bit(y, 15nat));
    assert(word_bit(x, 16nat) == word_bit(y, 16nat));
    assert(word_bit(x, 17nat) == word_bit(y, 17nat));
    assert(word_bit(x, 18nat) == word_bit(y, 18nat));
    assert(word_bit(x, 19nat) == word_bit(y, 19nat));
    assert(word_bit(x, 20nat) == word_bit(y, 20nat));
    assert(word_bit(x, 21nat) == word_bit(y, 21nat));
    assert(word_bit(x, 22nat) == word_bit(y, 22nat));
    assert(word_bit(x, 23nat) == word_bit(y, 23nat));
    assert(word_bit(x, 24nat) == word_bit(y, 24nat));
    assert(word_bit(x, 25nat) == word_bit(y, 25nat));
    assert(word_bit(x, 26nat) == word_bit(y, 26nat));
    assert(word_bit(x, 27nat) == word_bit(y, 27nat));
    assert(word_bit(x, 28nat) == word_bit(y, 28nat));
    assert(word_bit(x, 29nat) == word_bit(y, 29nat));
    assert(word_bit(x, 30nat) == word_bit(y, 30nat));
    assert(word_bit(x, 31nat) == word_bit(y, 31nat));
    lemma_u32_ext_bv(x, y);
}

/// Two 64-bit patterns with the same bits are equal.
pub proof fn lemma_u64_ext(x: u64, y: u64)
    requires
        forall|b: nat| b < 64 ==> #[trigger] u64_bit(x, b) == u64_bit(y, b),
    ensures
        x == y,
{
    assert(u64_bit(x, 0nat) == u64_bit(y, 0nat));
    assert(u64_bit(x, 1nat) == u64_bit(y, 1nat));
    assert(u64_bit(x, 2nat) == u64_bit(y, 2nat));
    assert(u64_bit(x, 3nat) == u64_bit(y, 3nat));
    assert(u64_bit(x, 4nat) == u64_bit(y, 4nat));
    assert(u64_bit(x, 5nat) == u64_bit(y, 5nat));
    assert(u64_bit(x, 6nat) == u64_bit(y, 6nat));
    assert(u64_bit(x, 7nat) == u64_bit(y, 7nat));
    assert(u64_bit(x, 8nat) == u64_bit(y, 8nat));
    assert(u64_bit(x, 9nat) == u64_bit(y, 9nat));
    assert(u64_bit(x, 10nat) == u64_bit(y, 10nat));
    assert(u64_bit(x, 11nat) == u64_bit(y, 11nat));
    assert(u64_bit(x, 12nat) == u64_bit(y, 12nat));
    assert(u64_bit(x, 13nat) == u64_bit(y, 13nat));
    assert(u64_bit(x, 14nat) == u64_bit(y, 14nat));
    assert(u64_bit(x, 15nat) == u64_bit(y, 15nat));
    assert(u64_bit(x, 16nat) == u64_bit(y, 16nat));
    assert(u64_bit(x, 17nat) == u64_bit(y, 17nat));
    assert(u64_bit(x, 18nat) == u64_bit(y, 18nat));
    assert(u64_bit(x, 19nat) == u64_bit(y, 19nat));
    assert(u64_bit(x, 20nat) == u64_bit(y, 20nat));
    assert(u64_bit(x, 21nat) == u64_bit(y, 21nat));
    assert(u64_bit(x, 22nat) == u64_bit(y, 22nat));
    assert(u64_bit(x, 23nat) == u64_bit(y, 23nat));
    assert(u64_bit(x, 24nat) == u64_bit(y, 24nat));
    assert(u64_bit(x, 25nat) == u64_bit(y, 25nat));
    assert(u64_bit(x, 26nat) == u64_bit(y, 26nat));
    assert(u64_bit(x, 27nat) == u64_bit(y, 27nat));
    assert(u64_bit(x, 28nat) == u64_bit(y, 28nat));
    assert(u64_bit(x, 29nat) == u64_bit(y, 29nat));
    assert(u64_bit(x, 30nat) == u64_bit(y, 30nat));
    assert(u64_bit(x, 31nat) == u64_bit(y, 31nat));
    assert(u64_bit(x, 32nat) == u64_bit(y, 32nat));
    assert(u64_bit(x, 33nat) == u64_bit(y, 33nat));
    assert(u64_bit(x, 34nat) == u64_bit(y, 34nat));
    assert(u64_bit(x, 35nat) == u64_bit(y, 35nat));
    assert(u64_bit(x, 36nat) == u64_bit(y, 36nat));
    assert(u64_bit(x, 37nat) == u64_bit(y, 37nat));
    assert(u64_bit(x, 38nat) == u64_bit(y, 38nat));
    assert(u64_bit(x, 39nat) == u64_bit(y, 39nat));
    assert(u64_bit(x, 40nat) == u64_bit(y, 40nat));
    assert(u64_bit(x, 41nat) == u64_bit(y, 41nat));
    assert(u64_bit(x, 42nat) == u64_bit(y, 42nat));
    assert(u64_bit(x, 43nat) == u64_bit(y, 43nat));
    assert(u64_bit(x, 44nat) == u64_bit(y, 44nat));
    assert(u64_bit(x, 45nat) == u64_bit(y, 45nat));
    assert(u64_bit(x, 46nat) == u64_bit(y, 46nat));
    assert(u64_bit(x, 47nat) == u64_bit(y, 47nat));
    assert(u64_bit(x, 48nat) == u64_bit(y, 48nat));
    assert(u64_bit(x, 49nat) == u64_bit(y, 49nat));
    assert(u64_bit(x, 50nat) == u64_bit(y, 50nat));
    assert(u64_bit(x, 51nat) == u64_bit(y, 51nat));
    assert(u64_bit(x, 52nat) == u64_bit(y, 52nat));
    assert(u64_bit(x, 53nat) == u64_bit(y, 53nat));
    assert(u64_bit(x, 54nat) == u64_bit(y, 54nat));
    assert(u64_bit(x, 55nat) == u64_bit(y, 55nat));
    assert(u64_bit(x, 56nat) == u64_bit(y, 56nat));
    assert(u64_bit(x, 57nat) == u64_bit(y, 57nat));
    assert(u64_bit(x, 58nat) == u64_bit(y, 58nat));
    assert(u64_bit(x, 59nat) == u64_bit(y, 59nat));
    assert(u64_bit(x, 60nat) == u64_bit(y, 60nat));
    assert(u64_bit(x, 61nat) == u64_bit(y, 61nat));
    assert(u64_bit(x, 62nat) == u64_bit(y, 62nat));
    assert(u64_bit(x, 63nat) == u64_bit(y, 63nat));
    lemma_u64_ext_bv(x, y);
}

/// The low `width` bits of a 64-bit pattern; higher bits cleared.
pub open spec fn low_bits(value: u64, width: nat) -> u64 {
    if width >= 64 {
        value
    } else {
        value & (((1u64 << (width as u64)) - 1u64) as u64)
    }
}

proof fn lemma_low_bits_bit_bv(v: u64, w: u64, k: u64)
    by (bit_vector)
    requires
        w < 64,
        k < 64,
    ensures
        ((v & (((1u64 << w) - 1u64) as u64)) & (1u64 << k) != 0) == (k < w && (v & (1u64 << k)
            != 0)),
{
}

/// The bits of `low_bits(value, width)` are the bits of `value` below `width`.
pub proof fn lemma_low_bits_bits(value: u64, width: nat)
    ensures
        forall|k: nat| k < 64 ==> #[trigger] u64_bit(low_bits(value, width), k) == (k < width
            && u64_bit(value, k)),
{
    assert forall|k: nat| k < 64 implies #[trigger] u64_bit(low_bits(value, width), k) == (k
        < width && u64_bit(value, k)) by {
        if width < 64 {
            lemma_low_bits_bit_bv(value, width as u64, k as u64);
        }
    }
}

/// A field value depends only on the storage bits inside the field.
pub proof fn lemma_field_value_depends_on_field_bits(
    a: Seq<u32>,
    b: Seq<u32>,
    offset: nat,
    width: nat,
)
    requires
        width <= 64,
        forall|k: nat| k < width ==> #[trigger] words_bit(a, offset + k) == words_bit(b, offset + k),
    ensures
        field_value(a, offset, width) == field_value(b, offset, width),
{
    lemma_field_value_bits(a, offset, width);
    lemma_field_value_bits(b, offset, width);
    assert forall|k: nat| k < 64 implies #[trigger] u64_bit(field_value(a, offset, width), k)
        == u64_bit(field_value(b, offset, width), k) by {
        if k < width {
            assert(words_bit(a, offset + k) == words_bit(b, offset + k));
        }
    }
    lemma_u64_ext(field_value(a, offset, width), field_value(b, offset, width));
}

/// Reading back a scalar field just written gives the written value truncated
/// to the field width: `extract_unsigned` after `insert_unsigned` of `value`
/// returns `low_bits(value, width)`.
pub proof fn lemma_extract_after_insert(
    old: Seq<u32>,
    new: Seq<u32>,
    offset: nat,
    width: nat,
    value: u64,
)
    requires
        new.len() == old.len(),
        width <= 64,
        offset + width <= 32 * old.len(),
        forall|j: nat|
            j < 32 * old.len() ==> #[trigger] words_bit(new, j) == inserted_bit(
                old,
                offset,
                width,
                value,
                j,
            ),
    ensures
        field_value(new, offset, width) == low_bits(value, width),
{
    lemma_field_value_bits(new, offset, width);
    lemma_low_bits_bits(value, width);
    assert forall|k: nat| k < 64 implies #[trigger] u64_bit(field_value(new, offset, width), k)
        == u64_bit(low_bits(value, width), k) by {
        if k < width {
            assert(words_bit(new, offset + k) == inserted_bit(old, offset, width, value, offset + k));
        }
    }
    lemma_u64_ext(field_value(new, offset, width), low_bits(value, width));
}

/// Writing one scalar field leaves every disjoint field unchanged.
pub proof fn lemma_insert_preserves_disjoint_field(
    old: Seq<u32>,
    new: Seq<u32>,
    offset: nat,
    width: nat,
    value: u64,
    other_offset: nat,
    other_width: nat,
)
    requires
        new.len() == old.len(),
        other_width <= 64,
        other_offset + other_width <= 32 * old.len(),
        other_offset + other_width <= offset || offset + width <= other_offset,
        forall|j: nat|
            j < 32 * old.len() ==> #[trigger] words_bit(new, j) == inserted_bit(
                old,
                offset,
                width,
                value,
                j,
            ),
    ensures
        field_value(new, other_offset, other_width) == field_value(old, other_offset, other_width),
{
    assert forall|k: nat| k < other_width implies #[trigger] words_bit(new, other_offset + k)
        == words_bit(old, other_offset + k) by {
        assert(words_bit(new, other_offset + k) == inserted_bit(
            old,
            offset,
            width,
            value,
            other_offset + k,
        ));
    }
    lemma_field_value_depends_on_field_bits(new, old, other_offset, other_width);
}

proof fn lemma_sign_extend_fits_bv(v: u64, w: u64)
    by (bit_vector)
    requires
        0 < w < 64,
        (v >> ((w - 1) as u64)) == 0u64 || (v >> ((w - 1) as u64)) == (u64::MAX >> ((w
            - 1) as u64)),
    ensures
        (if (v & (((1u64 << w) - 1u64) as u64)) & (1u64 << ((w - 1) as u64)) != 0 {
            (v & (((1u64 << w) - 1u64) as u64)) | (u64::MAX << w)
        } else {
            v & (((1u64 << w) - 1u64) as u64)
        }) == v,
{
}

/// A signed value that fits in `width` bits survives a write and read-back:
/// `extract_signed` after `insert_signed` of `value` returns `value`.
pub proof fn lemma_signed_round_trip(value: i64, width: nat)
    requires
        0 < width <= 64,
        width < 64 ==> ((value as u64) >> ((width - 1) as u64)) == 0u64 || ((value as u64) >> ((
        width - 1) as u64)) == (u64::MAX >> ((width - 1) as u64)),
    ensures
        sign_extended(low_bits(value as u64, width), width) == value as u64,
{
    if width < 64 {
        lemma_sign_extend_fits_bv(value as u64, width as u64);
    }
}

/// Two canonical storages of the same width with the same declared bits are equal.
pub proof fn lemma_canonical_ext(a: Seq<u32>, b: Seq<u32>, width: nat)
    requires
        canonical(a, width),
        canonical(b, width),
        forall|i: nat| i < width ==> #[trigger] words_bit(a, i) == words_bit(b, i),
    ensures
        a == b,
{
    assert forall|wi: int| 0 <= wi < a.len() implies a[wi] == b[wi] by {
        assert forall|bit: nat| bit < 32 implies #[trigger] word_bit(a[wi], bit) == word_bit(
            b[wi],
            bit,
        ) by {
            let i = (32 * wi + bit) as nat;
            assert(i / 32 == wi && i % 32 == bit);
            if i < width {
                assert(words_bit(a, i) == words_bit(b, i));
            } else {
                crate::bits::lemma_canonical_high_bits_clear(a, width, i);
                crate::bits::lemma_canonical_high_bits_clear(b, width, i);
            }
        }
        lemma_u32_ext(a[wi], b[wi]);
    }
    assert(a =~= b);
}

/// Reading back a packed subfield just written gives the written value:
/// `extract_packed` after `insert_packed` of `value` returns a value with the
/// same storage.
pub proof fn lemma_extract_packed_after_insert(
    old: Seq<u32>,
    new: Seq<u32>,
    offset: nat,
    width: nat,
    value: Seq<u32>,
    read: Seq<u32>,
)
    requires
        new.len() == old.len(),
        offset + width <= 32 * old.len(),
        canonical(value, width),
        canonical(read, width),
        forall|j: nat|
            j < 32 * old.len() ==> #[trigger] words_bit(new, j) == inserted_packed_bit(
                old,
                offset,
                width,
                value,
                j,
            ),
        forall|i: nat| i < width ==> #[trigger] words_bit(read, i) == words_bit(new, offset + i),
    ensures
        read == value,
{
    assert forall|i: nat| i < width implies #[trigger] words_bit(read, i) == words_bit(value, i) by {
        assert(words_bit(read, i) == words_bit(new, offset + i));
        assert(words_bit(new, offset + i) == inserted_packed_bit(
            old,
            offset,
            width,
            value,
            offset + i,
        ));
    }
    lemma_canonical_ext(read, value, width);
}

/// Human-readable description of a packed-layout error.
pub open spec fn packed_error_message(e: PackedLayoutError) -> Seq<char> {
    match e {
        PackedLayoutError::ZeroWidth { storage_width, offset } => "packed field at offset "@
            + decimal_spec(offset as nat) + " in "@ + decimal_spec(storage_width as nat)
            + "-bit storage has zero width"@,
        PackedLayoutError::RangeOutOfBounds { storage_width, offset, width } =>
            "packed field offset "@ + decimal_spec(offset as nat) + " width "@ + decimal_spec(
            width as nat,
        ) + " is outside "@ + decimal_spec(storage_width as nat) + "-bit storage"@,
        PackedLayoutError::ScalarFieldTooWide { width, maximum } => "packed scalar field is "@
            + decimal_spec(width as nat) + " bits wide; maximum scalar width is "@ + decimal_spec(
            maximum as nat,
        ),
        PackedLayoutError::InvalidWordCount { storage_width, expected, actual } => decimal_spec(
            storage_width as nat,
        ) + "-bit packed storage requires "@ + decimal_spec(expected as nat)
            + " 32-bit words, but "@ + decimal_spec(actual as nat) + " were supplied"@,
        PackedLayoutError::InvalidPackedValue { source } =>
            "failed to construct extracted packed value: "@ + decimal_spec(source.width as nat)
            + "-bit value requires "@ + decimal_spec(source.expected as nat)
            + " 32-bit words, but "@ + decimal_spec(source.actual as nat) + " were supplied"@,
    }
}

impl PackedLayoutError {
    /// Human-readable description of the error.
    pub fn message(&self) -> (r: String)
        ensures
            r@ == packed_error_message(*self),
    {
        let mut s = String::new();
        match self {
            PackedLayoutError::ZeroWidth { storage_width, offset } => {
                push_str(&mut s, "packed field at offset ");
                push_decimal(&mut s, *offset as u64);
                push_str(&mut s, " in ");
                push_decimal(&mut s, *storage_width as u64);
                push_str(&mut s, "-bit storage has zero width");
            },
            PackedLayoutError::RangeOutOfBounds { storage_width, offset, width } => {
                push_str(&mut s, "packed field offset ");
                push_decimal(&mut s, *offset as u64);
                push_str(&mut s, " width ");
                push_decimal(&mut s, *width as u64);
                push_str(&mut s, " is outside ");
                push_decimal(&mut s, *storage_width as u64);
                push_str(&mut s, "-bit storage");
            },
            PackedLayoutError::ScalarFieldTooWide { width, maximum } => {
                push_str(&mut s, "packed scalar field is ");
                push_decimal(&mut s, *width as u64);
                push_str(&mut s, " bits wide; maximum scalar width is ");
                push_decimal(&mut s, *maximum as u64);
            },
            PackedLayoutError::InvalidWordCount { storage_width, expected, actual } => {
                push_decimal(&mut s, *storage_width as u64);
                push_str(&mut s, "-bit packed storage requires ");
                push_decimal(&mut s, *expected as u64);
                push_str(&mut s, " 32-bit words, but ");
                push_decimal(&mut s, *actual as u64);
                push_str(&mut s, " were supplied");
            },
            PackedLayoutError::InvalidPackedValue { source } => {
                push_str(&mut s, "failed to construct extracted packed value: ");
                let inner = source.message();
                push_str(&mut s, inner.as_str());
            },
        }
        s
    }

    /// The underlying bit-vector error, for a failed reconstruction.
    pub fn source(&self) -> (r: Option<InvalidBitVectorWordCount>)
        ensures
            r == match *self {
                PackedLayoutError::InvalidPackedValue { source } => Some(source),
                _ => None::<InvalidBitVectorWordCount>,
            },
    {
        match self {
            PackedLayoutError::InvalidPackedValue { source } => Some(*source),
            _ => None,
        }
    }
}

} // verus!

use std::collections::hash_map::DefaultHasher;
use std::hash::{Hash, Hasher};

use vvm_core::bits::{Bits, InvalidBitVectorWordCount, SignedBits};

#[test]
fn calculates_word_counts_at_boundaries() {
    assert_eq!(Bits::<1>::words(), 1);
    assert_eq!(Bits::<31>::words(), 1);
    assert_eq!(Bits::<32>::words(), 1);
    assert_eq!(Bits::<33>::words(), 2);
    assert_eq!(Bits::<64>::words(), 2);
    assert_eq!(Bits::<65>::words(), 3);
    assert_eq!(Bits::<96>::words(), 3);
    assert_eq!(Bits::<129>::words(), 5);
    assert_eq!(Bits::<256>::words(), 8);

    assert_eq!(SignedBits::<65>::words(), 3);
    assert_eq!(SignedBits::<129>::words(), 5);
}

#[test]
fn rejects_incorrect_word_count() {
    let error = Bits::<65>::from_words_le(&[0, 0]);

    assert_eq!(
        error,
        Err(InvalidBitVectorWordCount {
            width: 65,
            expected: 3,
            actual: 2,
        }),
    );
}

#[test]
fn reports_word_count_error_details() {
    let error = Bits::<129>::from_words_le(&[0]).expect_err("incorrect word count must fail");

    assert_eq!(error.width(), 129);
    assert_eq!(error.expected(), 5);
    assert_eq!(error.actual(), 1);

    assert_eq!(
        error.message(),
        "129-bit value requires 5 32-bit words, but 1 were supplied",
    );
}

#[test]
fn masks_unused_unsigned_top_bits() {
    let value = Bits::<65>::from_words_le(&[0x0123_4567, 0x89ab_cdef, u32::MAX])
        .expect("correct word count must succeed");

    assert_eq!(value.words_le(), &[0x0123_4567, 0x89ab_cdef, 0x0000_0001,],);
}

#[test]
fn masks_unused_signed_top_bits() {
    let value =
        SignedBits::<129>::from_words_le(&[u32::MAX, u32::MAX, u32::MAX, u32::MAX, u32::MAX])
            .expect("correct word count must succeed");

    assert_eq!(
        value.words_le(),
        &[u32::MAX, u32::MAX, u32::MAX, u32::MAX, 0x0000_0001,],
    );

    assert!(value.is_negative());
}

#[test]
fn constructs_unsigned_values_from_u64() {
    let value = Bits::<65>::from(0x0123_4567_89ab_cdef_u64);

    assert_eq!(value.words_le(), &[0x89ab_cdef, 0x0123_4567, 0,],);
}

#[test]
fn truncates_unsigned_values_to_declared_width() {
    let value = Bits::<33>::from(u64::MAX);

    assert_eq!(value.words_le(), &[u32::MAX, 1],);
}

#[test]
fn sign_extends_negative_i64_values() {
    let value = SignedBits::<129>::from(-1_i64);

    assert_eq!(
        value.words_le(),
        &[u32::MAX, u32::MAX, u32::MAX, u32::MAX, 1,],
    );

    assert!(value.is_negative());
}

#[test]
fn zero_extends_positive_i64_values() {
    let value = SignedBits::<129>::from(1_i64);

    assert_eq!(value.words_le(), &[1, 0, 0, 0, 0],);

    assert!(!value.is_negative());
}

#[test]
fn truncates_negative_values_to_declared_width() {
    let value = SignedBits::<5>::from(-1_i64);

    assert_eq!(value.words_le(), &[0x1f]);
    assert!(value.is_negative());
}

#[test]
fn reads_declared_bits() {
    let value = Bits::<65>::from_words_le(&[1, 0, 1]).expect("correct word count must succeed");

    assert_eq!(value.bit(0), Some(true));
    assert_eq!(value.bit(1), Some(false));
    assert_eq!(value.bit(64), Some(true));
    assert_eq!(value.bit(65), None);
}

#[test]
fn identifies_zero_values() {
    assert!(Bits::<256>::zero().is_zero());
    assert!(SignedBits::<129>::zero().is_zero());

    assert!(!Bits::<65>::from(1_u64).is_zero());
}

#[test]
fn formats_full_declared_width() {
    let unsigned = Bits::<65>::from_words_le(&[0x89ab_cdef, 0x0123_4567, 1])
        .expect("correct word count must succeed");

    let signed = SignedBits::<65>::from(-1_i64);

    assert_eq!(unsigned.debug_text(), "Bits<65>(0x10123456789abcdef)");

    assert_eq!(signed.debug_text(), "SignedBits<65>(0x1ffffffffffffffff)");
}

#[test]
fn canonical_values_have_stable_equality_and_hashing() {
    let left =
        Bits::<65>::from_words_le(&[1, 2, u32::MAX]).expect("correct word count must succeed");

    let right = Bits::<65>::from_words_le(&[1, 2, 1]).expect("correct word count must succeed");

    assert_eq!(left, right);

    let mut left_hasher = DefaultHasher::new();

    let mut right_hasher = DefaultHasher::new();

    left.hash(&mut left_hasher);
    right.hash(&mut right_hasher);

    assert_eq!(left_hasher.finish(), right_hasher.finish(),);
}

#[test]
fn default_values_are_zero() {
    assert!(Bits::<40>::default().is_zero());
    assert!(SignedBits::<40>::default().is_zero());
    assert_eq!(Bits::<40>::width(), 40);
    assert_eq!(SignedBits::<7>::width(), 7);
}

#[test]
fn zero_width_values_have_no_words() {
    let value = Bits::<0>::zero();
    assert_eq!(value.words_le(), &[] as &[u32]);
    assert_eq!(value.debug_text(), "Bits<0>(0x0)");
    assert!(!SignedBits::<0>::zero().is_negative());
    assert_eq!(value.bit(0), None);
}

#[test]
fn clone_keeps_words() {
    let value = Bits::<70>::from(0xdead_beef_u64);
    assert_eq!(value.clone().words_le(), value.words_le());
    let signed = SignedBits::<70>::from(-2_i64);
    assert_eq!(signed.clone().words_le(), &[0xffff_fffe, u32::MAX, 0x3f]);
}

#[test]
fn bits_order_is_numeric() {
    let small = Bits::<64>::from_words_le(&[0xffff_ffff, 0]).expect("two words");
    let large = Bits::<64>::from_words_le(&[0, 1]).expect("two words");
    assert!(small < large);
    assert!(large > small);
    assert_eq!(large.partial_cmp(&large), Some(std::cmp::Ordering::Equal));
}

use vvm_core::bits::{Bits, SignedBits};
use vvm_core::packed::{
    extract_packed, extract_signed, extract_signed_packed, extract_unsigned, insert_packed,
    insert_signed, insert_signed_packed, insert_unsigned, PackedFieldLayout, PackedLayout,
    PackedLayoutError, PackedRange,
};

#[test]
fn rejects_zero_width_range() {
    assert!(matches!(
        PackedRange::new(16, 0, 0),
        Err(PackedLayoutError::ZeroWidth {
            storage_width: 16,
            offset: 0,
        }),
    ));
}

#[test]
fn rejects_out_of_bounds_range() {
    assert!(matches!(
        PackedRange::new(16, 12, 5),
        Err(PackedLayoutError::RangeOutOfBounds {
            storage_width: 16,
            offset: 12,
            width: 5,
        }),
    ));
}

#[test]
fn rejects_invalid_word_count() {
    assert!(matches!(
        extract_unsigned(&[0], 65, 0, 1),
        Err(PackedLayoutError::InvalidWordCount {
            storage_width: 65,
            expected: 3,
            actual: 1,
        }),
    ));
}

#[test]
fn rejects_scalar_field_wider_than_sixty_four_bits() {
    assert!(matches!(
        extract_unsigned(&[0, 0, 0], 65, 0, 65),
        Err(PackedLayoutError::ScalarFieldTooWide {
            width: 65,
            maximum: 64,
        }),
    ));
}

#[test]
fn packed_field_layout_getters_work() {
    let field = PackedFieldLayout::new("opcode", 12, 4, false);

    assert_eq!(field.name(), "opcode");
    assert_eq!(field.offset(), 12);
    assert_eq!(field.width(), 4);
    assert!(!field.signed());
}

#[test]
fn packed_layout_getters_work() {
    const FIELDS: [PackedFieldLayout; 2] = [
        PackedFieldLayout {
            name: "low",
            offset: 0,
            width: 8,
            signed: false,
        },
        PackedFieldLayout {
            name: "high",
            offset: 8,
            width: 8,
            signed: false,
        },
    ];

    let layout = PackedLayout::new("byte_pair", 16, &FIELDS);

    assert_eq!(layout.name(), "byte_pair");
    assert_eq!(layout.width(), 16);
    assert_eq!(layout.fields(), &FIELDS);
}

#[test]
fn packed_range_getters_work() -> Result<(), PackedLayoutError> {
    let range = PackedRange::new(16, 8, 4)?;

    assert_eq!(range.storage_width(), 16);
    assert_eq!(range.offset(), 8);
    assert_eq!(range.width(), 4);

    Ok(())
}

#[test]
fn display_message_is_human_readable() {
    let error = PackedLayoutError::InvalidWordCount {
        storage_width: 65,
        expected: 3,
        actual: 1,
    };

    assert_eq!(
        error.message(),
        "65-bit packed storage requires 3 32-bit words, but 1 were supplied",
    );
}

#[test]
fn invalid_packed_value_exposes_source() {
    let Err(source) = Bits::<65>::from_words_le(&[0_u32, 0_u32]) else {
        panic!("expected incorrect 65-bit word count to fail");
    };

    let error = PackedLayoutError::InvalidPackedValue { source };

    assert!(error.source().is_some());
}

#[test]
fn extracts_unsigned_fields_from_packed_struct_layout() -> Result<(), PackedLayoutError> {
    let words = [0xabcd_u32];

    assert_eq!(extract_unsigned(&words, 16, 0, 8)?, 0xcd);
    assert_eq!(extract_unsigned(&words, 16, 8, 3)?, 0b011);
    assert_eq!(extract_unsigned(&words, 16, 11, 1)?, 1);
    assert_eq!(extract_unsigned(&words, 16, 12, 4)?, 0x0a);

    Ok(())
}

#[test]
fn inserts_unsigned_fields_into_packed_struct_layout() -> Result<(), PackedLayoutError> {
    let mut words = [0_u32];

    insert_unsigned(&mut words, 16, 0, 8, 0xcd)?;
    insert_unsigned(&mut words, 16, 8, 3, 0b011)?;
    insert_unsigned(&mut words, 16, 11, 1, 1)?;
    insert_unsigned(&mut words, 16, 12, 4, 0x0a)?;

    assert_eq!(words, [0xabcd]);

    Ok(())
}

#[test]
fn insert_unsigned_truncates_to_field_width() -> Result<(), PackedLayoutError> {
    let mut words = [0_u32];

    insert_unsigned(&mut words, 8, 0, 4, 0xff)?;

    assert_eq!(words, [0x0f]);

    Ok(())
}

#[test]
fn extracts_signed_fields_with_sign_extension() -> Result<(), PackedLayoutError> {
    let negative_words = [0b1_1011_u32];

    assert_eq!(extract_signed(&negative_words, 5, 0, 5)?, -5);

    let positive_words = [0b0_1011_u32];

    assert_eq!(extract_signed(&positive_words, 5, 0, 5)?, 11);

    Ok(())
}

#[test]
fn insert_signed_truncates_twos_complement_bits() -> Result<(), PackedLayoutError> {
    let mut words = [0_u32];

    insert_signed(&mut words, 5, 0, 5, -1)?;

    assert_eq!(words, [0x1f]);

    Ok(())
}

#[test]
fn extracts_field_across_word_boundary() -> Result<(), PackedLayoutError> {
    let words = [0x8000_0000, 0x0000_0001];

    assert_eq!(extract_unsigned(&words, 64, 31, 2)?, 0b11);

    Ok(())
}

#[test]
fn inserts_field_across_word_boundary() -> Result<(), PackedLayoutError> {
    let mut words = [0_u32, 0_u32];

    insert_unsigned(&mut words, 64, 31, 2, 0b11)?;

    assert_eq!(words, [0x8000_0000, 0x0000_0001]);

    Ok(())
}

#[test]
fn extracts_packed_subfield() -> Result<(), PackedLayoutError> {
    let words = [0x0123_4567, 0x89ab_cdef, 0x0000_0001];

    let value: Bits<65> = extract_packed(&words, 96, 0)?;

    assert_eq!(value.words_le(), &[0x0123_4567, 0x89ab_cdef, 0x0000_0001],);

    Ok(())
}

#[test]
fn inserts_packed_subfield() -> Result<(), PackedLayoutError> {
    let value = Bits::<65>::from_words_le(&[0x0123_4567, 0x89ab_cdef, 0x0000_0001])
        .expect("correct word count");

    let mut words = [0_u32, 0_u32, 0_u32, 0_u32];

    insert_packed(&mut words, 128, 32, &value)?;

    assert_eq!(words, [0x0000_0000, 0x0123_4567, 0x89ab_cdef, 0x0000_0001],);

    Ok(())
}

#[test]
fn extracts_signed_packed_subfield() -> Result<(), PackedLayoutError> {
    let words = [u32::MAX, u32::MAX, 0x0000_0001];

    let value: SignedBits<65> = extract_packed(&words, 96, 0)?;

    assert!(value.is_negative());
    assert_eq!(value.words_le(), &[u32::MAX, u32::MAX, 0x0000_0001]);

    Ok(())
}

#[test]
fn round_trips_unsigned_field_and_keeps_neighbours() -> Result<(), PackedLayoutError> {
    let mut words = [0xffff_ffff_u32, 0x1234_5678];
    insert_unsigned(&mut words, 64, 20, 24, 0xabc_def0)?;
    assert_eq!(extract_unsigned(&words, 64, 20, 24)?, 0xbc_def0);
    assert_eq!(extract_unsigned(&words, 64, 0, 20)?, 0xf_ffff);
    assert_eq!(extract_unsigned(&words, 64, 44, 20)?, 0x12345);
    Ok(())
}

#[test]
fn round_trips_signed_field() -> Result<(), PackedLayoutError> {
    let mut words = [0_u32, 0_u32, 0_u32];
    insert_signed(&mut words, 96, 40, 12, -1000)?;
    assert_eq!(extract_signed(&words, 96, 40, 12)?, -1000);
    insert_signed(&mut words, 96, 0, 64, i64::MIN)?;
    assert_eq!(extract_signed(&words, 96, 0, 64)?, i64::MIN);
    Ok(())
}

#[test]
fn insert_rejects_errors_in_documented_order() {
    let mut words = [7_u32];
    assert_eq!(
        insert_unsigned(&mut words, 70, 0, 65, 1),
        Err(PackedLayoutError::ScalarFieldTooWide {
            width: 65,
            maximum: 64
        })
    );
    assert_eq!(
        insert_unsigned(&mut words, 70, 0, 8, 1),
        Err(PackedLayoutError::InvalidWordCount {
            storage_width: 70,
            expected: 3,
            actual: 1
        })
    );
    assert_eq!(
        insert_unsigned(&mut words, 8, 4, 8, 1),
        Err(PackedLayoutError::RangeOutOfBounds {
            storage_width: 8,
            offset: 4,
            width: 8
        })
    );
    assert_eq!(words, [7]);
}

#[test]
fn signed_packed_round_trip() -> Result<(), PackedLayoutError> {
    let value = SignedBits::<12>::from(-3_i64);
    let mut words = [0_u32, 0_u32];
    insert_signed_packed(&mut words, 40, 25, &value)?;
    let read: SignedBits<12> = extract_signed_packed(&words, 40, 25)?;
    assert_eq!(read, value);
    assert_eq!(
        PackedLayoutError::ZeroWidth {
            storage_width: 8,
            offset: 2
        }
        .message(),
        "packed field at offset 2 in 8-bit storage has zero width"
    );
    Ok(())
}

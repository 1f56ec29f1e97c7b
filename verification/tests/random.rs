use vvm_core::{ParseReplayTokenError, RandomAlgorithm, RandomContext, Randomize, ReplayToken, Seed};

#[test]
fn chacha8_v1_stream_is_stable() {
    let mut random = RandomContext::new(Seed::new(0x0123_4567_89ab_cdef));
    assert_eq!(
        [random.next_u64(), random.next_u64(), random.next_u64(), random.next_u64()],
        [
            16_439_174_753_831_872_311,
            8_357_938_314_514_734_176,
            16_425_382_708_020_085_233,
            5_893_040_097_532_677_258,
        ],
    );
}

#[test]
fn replay_token_display_and_parse() {
    let token = ReplayToken::new(Seed::new(0x0123_4567_89ab_cdef));
    assert_eq!(token.to_text().parse::<ReplayToken>(), Ok(token));
    assert_eq!(token.to_text(), "chacha8-v1:0123456789abcdef");
}

#[test]
fn seed_display_and_parse() {
    let seed = Seed::new(0x0123_4567_89ab_cdef);
    assert_eq!(seed.to_text().parse::<Seed>(), Ok(seed));
    assert_eq!(seed.to_text(), "0x0123456789abcdef");
}

#[test]
fn parsing_rejects_malformed_seed_and_replay_inputs() {
    let seed_error = "not-a-seed".parse::<Seed>().expect_err("invalid decimal seed must fail");
    assert_eq!(seed_error.input(), "not-a-seed");

    assert!(matches!(
        "chacha8-v1".parse::<ReplayToken>(),
        Err(ParseReplayTokenError::MissingSeparator { .. })
    ));
    assert!(matches!(
        "other:01".parse::<ReplayToken>(),
        Err(ParseReplayTokenError::UnsupportedAlgorithm { .. })
    ));
    assert!(matches!(
        "chacha8-v1:invalid".parse::<ReplayToken>(),
        Err(ParseReplayTokenError::InvalidSeed { .. })
    ));
}

#[test]
fn replay_reconstructs_randomize_contract() {
    let replay = ReplayToken::new(Seed::new(42));
    let mut original = RandomContext::from_replay(replay);
    let mut replayed = RandomContext::from_replay(original.replay_token());
    assert_eq!(bool::randomize(&mut original), bool::randomize(&mut replayed));
    assert_eq!(u32::randomize(&mut original), u32::randomize(&mut replayed));
    assert_eq!(i64::randomize(&mut original), i64::randomize(&mut replayed));
}

#[test]
fn seed_parsing_accepts_decimal_hex_and_plus_sign() {
    assert_eq!("42".parse::<Seed>().map(Seed::value), Ok(42));
    assert_eq!("+42".parse::<Seed>().map(Seed::value), Ok(42));
    assert_eq!("0XfF".parse::<Seed>().map(Seed::value), Ok(255));
    assert_eq!("18446744073709551615".parse::<Seed>().map(Seed::value), Ok(u64::MAX));
    assert!("18446744073709551616".parse::<Seed>().is_err());
    assert!("0x".parse::<Seed>().is_err());
    assert!("".parse::<Seed>().is_err());
    assert!("-1".parse::<Seed>().is_err());
    assert_eq!(Seed::from_signed(-1).value(), u64::MAX);
    assert_eq!(Seed::from_wide(u128::from(u64::MAX) + 5).value(), 4);
    assert_eq!(Seed::from(7_u64).value(), 7);
}

#[test]
fn replay_token_parts_and_errors_format() {
    let token = ReplayToken::from_parts(RandomAlgorithm::ChaCha8V1, Seed::new(1));
    assert_eq!(token.algorithm(), RandomAlgorithm::ChaCha8V1);
    assert_eq!(token.seed(), Seed::new(1));
    assert_eq!(
        "x".parse::<ReplayToken>().unwrap_err().message(),
        "`x` is missing `:` separator"
    );
    assert_eq!(
        "a:1".parse::<ReplayToken>().unwrap_err().message(),
        "`a` algorithm is not supported by VVM randomization"
    );
    assert_eq!(
        "chacha8-v1:zz".parse::<ReplayToken>().unwrap_err().message(),
        "`zz` is not a valid seed value"
    );
    assert_eq!(
        "bad".parse::<Seed>().unwrap_err().message(),
        "failed to parse random seed from `bad`"
    );
}

#[test]
fn next_u64_combines_two_words_low_first() {
    let mut words = RandomContext::new(Seed::new(9));
    let lo = u64::from(words.next_u32());
    let hi = u64::from(words.next_u32());
    let mut wide = RandomContext::new(Seed::new(9));
    assert_eq!(wide.next_u64(), (hi << 32) | lo);
    assert_eq!(words.next_u32(), wide.next_u32());
}

#[test]
fn seed_from_wider_or_signed_values_keeps_low_bits() {
    assert_eq!(Seed::from(-1_i64).value(), u64::MAX);
    assert_eq!(Seed::from(5_i64).value(), 5);
    assert_eq!(Seed::from((7_u128 << 64) | 9).value(), 9);
}

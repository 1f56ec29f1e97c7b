use rand_chacha::ChaCha8Rng;
use rand_core::{Rng, SeedableRng};

use vstd::prelude::*;
use vstd::string::*;

use crate::text::{digit_char, hex_spec, push_hex, push_str, str_eq};

verus! {

/// The `position`-th 32-bit word of the ChaCha8 stream that
/// `ChaCha8Rng::seed_from_u64(seed)` produces.
pub uninterp spec fn chacha8_word(seed: u64, position: u128) -> u32;

/// Reads one word of a seeded ChaCha8 stream.
///
/// Seeds `rand_chacha::ChaCha8Rng` with `SeedableRng::seed_from_u64`, moves it
/// to the word offset with `set_word_pos`, and draws with `Rng::next_u32`. The
/// generator is a deterministic stream of words, so the word depends on the
/// seed and the offset alone; the contract names it and claims nothing more.
#[verifier::external_body]
fn chacha8_word_at(seed: u64, position: u128) -> (r: u32)
    ensures
        r == chacha8_word(seed, position),
{
    let mut rng = ChaCha8Rng::seed_from_u64(seed);
    rng.set_word_pos(position);
    rng.next_u32()
}

/// Explicit 64-bit random seed.
#[derive(Debug, Clone, Copy, PartialEq, Eq, PartialOrd, Ord, Hash)]
pub struct Seed(u64);

impl View for Seed {
    type V = u64;

    closed spec fn view(&self) -> u64 {
        self.0
    }
}

impl Seed {
    /// Creates a seed from a raw value.
    pub fn new(value: u64) -> (r: Self)
        ensures
            r@ == value,
    {
        Seed(value)
    }

    /// Returns the raw seed value.
    pub fn value(self) -> (r: u64)
        ensures
            r == self@,
    {
        self.0
    }

    /// Reinterprets the two's-complement bits of a signed value as a seed.
    pub fn from_signed(value: i64) -> (r: Self)
        ensures
            r@ == value as u64,
    {
        Seed(value as u64)
    }

    /// Keeps the low 64 bits of a wide value as a seed.
    pub fn from_wide(value: u128) -> (r: Self)
        ensures
            r@ == value as u64,
    {
        Seed(value as u64)
    }

    /// Formats the seed as `0x` followed by sixteen lowercase hex digits.
    pub fn to_text(self) -> (r: String)
        ensures
            r@ == seed_text(self@),
    {
        let mut s = String::new();
        push_str(&mut s, "0x");
        push_hex(&mut s, self.0, 16);
        s
    }

    /// Parses a decimal seed, or a hexadecimal one after `0x` or `0X`.
    pub fn parse(text: &str) -> (r: Result<Self, ParseSeedError>)
        ensures
            match seed_text_value(text@) {
                Some(v) => r matches Ok(s) && s@ == v,
                None => r matches Err(e) && e.spec_input() == text@,
            },
    {
        let len = text.unicode_len();
        let parsed = if len >= 2 && text.get_char(0) == '0' && (text.get_char(1) == 'x'
            || text.get_char(1) == 'X') {
            let rest = text.substring_char(2, len);
            proof {
                assert(rest@ =~= text@.skip(2));
            }
            parse_unsigned(rest, true)
        } else {
            parse_unsigned(text, false)
        };
        match parsed {
            Some(v) => Ok(Seed(v)),
            None => Err(ParseSeedError { string: String::from_str(text) }),
        }
    }
}

impl From<u64> for Seed {
    fn from(value: u64) -> (r: Self) {
        Seed(value)
    }
}

impl vstd::std_specs::convert::FromSpecImpl<u64> for Seed {
    open spec fn obeys_from_spec() -> bool {
        true
    }

    closed spec fn from_spec(value: u64) -> Self {
        Seed(value)
    }
}

impl From<i64> for Seed {
    /// The seed with the same 64 bits as `value`.
    fn from(value: i64) -> (r: Self) {
        Seed(value as u64)
    }
}

impl vstd::std_specs::convert::FromSpecImpl<i64> for Seed {
    open spec fn obeys_from_spec() -> bool {
        true
    }

    closed spec fn from_spec(value: i64) -> Self {
        Seed(value as u64)
    }
}

impl From<u128> for Seed {
    /// The seed holding the low 64 bits of `value`.
    fn from(value: u128) -> (r: Self) {
        Seed(value as u64)
    }
}

impl vstd::std_specs::convert::FromSpecImpl<u128> for Seed {
    open spec fn obeys_from_spec() -> bool {
        true
    }

    closed spec fn from_spec(value: u128) -> Self {
        Seed(value as u64)
    }
}

impl core::str::FromStr for Seed {
    type Err = ParseSeedError;

    fn from_str(s: &str) -> Result<Self, ParseSeedError> {
        Seed::parse(s)
    }
}

/// Text of a seed: `0x` and sixteen lowercase hex digits.
pub open spec fn seed_text(value: u64) -> Seq<char> {
    "0x"@ + hex_spec(value as nat, 16)
}

/// Value of one digit character, or `-1` when it is not a digit of the radix.
pub open spec fn digit_value(c: char, hex: bool) -> int {
    let u = c as u32;
    if 48 <= u <= 57 {
        u - 48
    } else if hex && 97 <= u <= 102 {
        u - 87
    } else if hex && 65 <= u <= 70 {
        u - 55
    } else {
        -1
    }
}

/// Sixteen for hexadecimal, ten otherwise.
pub open spec fn radix_of(hex: bool) -> nat {
    if hex {
        16
    } else {
        10
    }
}

/// Every character is a digit of the radix.
pub open spec fn digits_ok(s: Seq<char>, hex: bool) -> bool {
    forall|i: int| 0 <= i < s.len() ==> #[trigger] digit_value(s[i], hex) >= 0
}

/// Value of a digit string, most significant digit first.
pub open spec fn digits_value(s: Seq<char>, hex: bool) -> nat
    decreases s.len(),
{
    if s.len() == 0 {
        0
    } else {
        digits_value(s.drop_last(), hex) * radix_of(hex) + digit_value(s.last(), hex) as nat
    }
}

/// The digits of an unsigned number, after an optional leading `+`.
pub open spec fn unsigned_body(s: Seq<char>) -> Seq<char> {
    if s.len() > 0 && s[0] == '+' {
        s.skip(1)
    } else {
        s
    }
}

/// Unsigned 64-bit number written in the radix, as `u64::from_str_radix` reads it.
pub open spec fn parse_unsigned_spec(s: Seq<char>, hex: bool) -> Option<u64> {
    let b = unsigned_body(s);
    if b.len() == 0 || !digits_ok(b, hex) || digits_value(b, hex) > u64::MAX {
        None
    } else {
        Some(digits_value(b, hex) as u64)
    }
}

/// Value of seed text: hexadecimal after `0x` or `0X`, decimal otherwise.
pub open spec fn seed_text_value(s: Seq<char>) -> Option<u64> {
    if s.len() >= 2 && s[0] == '0' && (s[1] == 'x' || s[1] == 'X') {
        parse_unsigned_spec(s.skip(2), true)
    } else {
        parse_unsigned_spec(s, false)
    }
}

/// Value of one digit character of the radix.
fn digit_of(c: char, hex: bool) -> (r: Option<u64>)
    ensures
        match r {
            Some(d) => d == digit_value(c, hex) && d < radix_of(hex),
            None => digit_value(c, hex) < 0,
        },
{
    let u = c as u32;
    if 48 <= u && u <= 57 {
        Some((u - 48) as u64)
    } else if hex && 97 <= u && u <= 102 {
        Some((u - 87) as u64)
    } else if hex && 65 <= u && u <= 70 {
        Some((u - 55) as u64)
    } else {
        None
    }
}

/// A digit string is worth at least any of its prefixes.
proof fn lemma_digits_prefix(s: Seq<char>, hex: bool, k: int)
    requires
        0 <= k <= s.len(),
        digits_ok(s, hex),
    ensures
        digits_value(s.take(k), hex) <= digits_value(s, hex),
    decreases s.len() - k,
{
    if k < s.len() {
        lemma_digits_prefix(s, hex, k + 1);
        let p = s.take(k + 1);
        assert(p.drop_last() =~= s.take(k));
        assert(digit_value(s[k], hex) >= 0);
        let x = digits_value(s.take(k), hex);
        let r = radix_of(hex);
        assert(x * r + digit_value(s[k], hex) as nat >= x) by (nonlinear_arith)
            requires
                r >= 1,
        ;
    } else {
        assert(s.take(k) =~= s);
    }
}

/// Parses an unsigned 64-bit number in radix ten or sixteen.
pub fn parse_unsigned(text: &str, hex: bool) -> (r: Option<u64>)
    ensures
        r == parse_unsigned_spec(text@, hex),
{
    let len = text.unicode_len();
    let start: usize = if len > 0 && text.get_char(0) == '+' {
        1
    } else {
        0
    };
    let ghost body = unsigned_body(text@);
    proof {
        assert(body =~= text@.subrange(start as int, len as int));
    }
    if start >= len {
        return None;
    }
    let radix: u64 = if hex {
        16
    } else {
        10
    };
    let mut acc: u64 = 0;
    let mut over = false;
    let mut i: usize = start;
    while i < len
        invariant
            len == text@.len(),
            start <= i <= len,
            body =~= text@.subrange(start as int, len as int),
            radix == radix_of(hex),
            body == unsigned_body(text@),
            digits_ok(body.take(i - start), hex),
            !over ==> acc == digits_value(body.take(i - start), hex),
            over ==> digits_value(body.take(i - start), hex) > u64::MAX,
        decreases len - i,
    {
        let c = text.get_char(i);
        let k: usize = i - start;
        assert(body[k as int] == c);
        match digit_of(c, hex) {
            None => {
                assert(!digits_ok(body, hex)) by {
                    assert(digit_value(body[k as int], hex) < 0);
                }
                return None;
            },
            Some(d) => {
                let ghost prev = digits_value(body.take(k as int), hex);
                proof {
                    assert(body.take(k + 1).drop_last() =~= body.take(k as int));
                    assert(body.take(k + 1).last() == c);
                    assert(digits_value(body.take(k + 1), hex) == prev * radix + d);
                    assert forall|j: int| 0 <= j < k + 1 implies #[trigger] digit_value(
                        body.take(k + 1)[j],
                        hex,
                    ) >= 0 by {
                        if j < k {
                            assert(body.take(k + 1)[j] == body.take(k as int)[j]);
                        }
                    }
                    assert(prev * radix + d >= prev) by (nonlinear_arith)
                        requires
                            radix >= 1,
                    ;
                }
                if !over {
                    match acc.checked_mul(radix) {
                        Some(m) => match m.checked_add(d) {
                            Some(v) => {
                                acc = v;
                            },
                            None => {
                                over = true;
                            },
                        },
                        None => {
                            over = true;
                            assert(prev * radix + d >= prev * radix) by (nonlinear_arith)
                                requires
                                    d >= 0,
                            ;
                        },
                    }
                }
            },
        }
        i = i + 1;
    }
    proof {
        assert(body.take(len - start) =~= body);
    }
    if over {
        None
    } else {
        Some(acc)
    }
}

/// Failure while parsing a seed from text.
#[derive(Debug, Clone, PartialEq, Eq)]
pub struct ParseSeedError {
    string: String,
}

impl ParseSeedError {
    /// Rejected text.
    pub closed spec fn spec_input(&self) -> Seq<char> {
        self.string@
    }

    /// Returns the rejected input.
    pub fn input(&self) -> (r: &str)
        ensures
            r@ == self.spec_input(),
    {
        self.string.as_str()
    }

    /// Human-readable description of the error.
    pub fn message(&self) -> (r: String)
        ensures
            r@ == "failed to parse random seed from `"@ + self.spec_input() + "`"@,
    {
        let mut s = String::new();
        push_str(&mut s, "failed to parse random seed from `");
        push_str(&mut s, self.string.as_str());
        push_str(&mut s, "`");
        s
    }
}

/// Deterministic random-number algorithm behind a replay token.
#[derive(Debug, Clone, Copy, PartialEq, Eq, Hash, Structural)]
pub enum RandomAlgorithm {
    /// ChaCha with eight rounds, seeded from a 64-bit seed, first stream.
    ChaCha8V1,
}

/// Stable name of an algorithm.
pub open spec fn algorithm_text(a: RandomAlgorithm) -> Seq<char> {
    match a {
        RandomAlgorithm::ChaCha8V1 => "chacha8-v1"@,
    }
}

impl RandomAlgorithm {
    /// Returns the stable algorithm name.
    pub fn text(self) -> (r: &'static str)
        ensures
            r@ == algorithm_text(self),
    {
        match self {
            RandomAlgorithm::ChaCha8V1 => "chacha8-v1",
        }
    }
}

/// Algorithm and seed that reproduce one random stream.
#[derive(Debug, Clone, Copy, PartialEq, Eq, Hash)]
pub struct ReplayToken {
    algorithm: RandomAlgorithm,
    seed: Seed,
}

impl View for ReplayToken {
    type V = (RandomAlgorithm, u64);

    closed spec fn view(&self) -> (RandomAlgorithm, u64) {
        (self.algorithm, self.seed@)
    }
}

/// Text of a replay token: the algorithm name, `:`, and sixteen hex digits.
pub open spec fn replay_text(t: (RandomAlgorithm, u64)) -> Seq<char> {
    algorithm_text(t.0) + ":"@ + hex_spec(t.1 as nat, 16)
}

/// Index of the first `:` at or after `i`, or `-1`.
pub open spec fn find_colon(s: Seq<char>, i: int) -> int
    decreases s.len() - i,
{
    if i < 0 || i >= s.len() {
        -1
    } else if s[i] == ':' {
        i
    } else {
        find_colon(s, i + 1)
    }
}

/// Outcome of parsing replay-token text.
pub open spec fn replay_parse_outcome(s: Seq<char>, r: Result<ReplayToken, ParseReplayTokenError>) -> bool {
    let p = find_colon(s, 0);
    if p < 0 {
        r matches Err(ParseReplayTokenError::MissingSeparator { string }) && string@ == s
    } else if s.take(p) != "chacha8-v1"@ {
        r matches Err(ParseReplayTokenError::UnsupportedAlgorithm { algo }) && algo@ == s.take(p)
    } else {
        match parse_unsigned_spec(s.skip(p + 1), true) {
            None => r matches Err(ParseReplayTokenError::InvalidSeed { seed }) && seed@ == s.skip(
                p + 1,
            ),
            Some(v) => r matches Ok(t) && t@ == (RandomAlgorithm::ChaCha8V1, v),
        }
    }
}

impl ReplayToken {
    /// Creates a ChaCha8 replay token from a seed.
    pub fn new(seed: Seed) -> (r: Self)
        ensures
            r@ == (RandomAlgorithm::ChaCha8V1, seed@),
    {
        ReplayToken { algorithm: RandomAlgorithm::ChaCha8V1, seed }
    }

    /// Creates a replay token from an algorithm and a seed.
    pub fn from_parts(algorithm: RandomAlgorithm, seed: Seed) -> (r: Self)
        ensures
            r@ == (algorithm, seed@),
    {
        ReplayToken { algorithm, seed }
    }

    /// Returns the seed.
    pub fn seed(self) -> (r: Seed)
        ensures
            r@ == self@.1,
    {
        self.seed
    }

    /// Returns the algorithm.
    pub fn algorithm(self) -> (r: RandomAlgorithm)
        ensures
            r == self@.0,
    {
        self.algorithm
    }

    /// Formats the token as `algorithm:seed` with sixteen lowercase hex digits.
    pub fn to_text(self) -> (r: String)
        ensures
            r@ == replay_text(self@),
    {
        let mut s = String::new();
        push_str(&mut s, self.algorithm.text());
        push_str(&mut s, ":");
        push_hex(&mut s, self.seed.0, 16);
        s
    }

    /// Parses `algorithm:hex-seed`.
    pub fn parse(text: &str) -> (r: Result<Self, ParseReplayTokenError>)
        ensures
            replay_parse_outcome(text@, r),
    {
        let len = text.unicode_len();
        let mut i: usize = 0;
        while i < len && text.get_char(i) != ':'
            invariant
                len == text@.len(),
                i <= len,
                find_colon(text@, 0) == find_colon(text@, i as int),
            decreases len - i,
        {
            i = i + 1;
        }
        if i >= len {
            return Err(ParseReplayTokenError::MissingSeparator { string: String::from_str(text) });
        }
        let algo = text.substring_char(0, i);
        let seed = text.substring_char(i + 1, len);
        proof {
            assert(algo@ =~= text@.take(i as int));
            assert(seed@ =~= text@.skip(i + 1));
        }
        if !str_eq(algo, "chacha8-v1") {
            return Err(ParseReplayTokenError::UnsupportedAlgorithm { algo: String::from_str(algo) });
        }
        match parse_unsigned(seed, true) {
            Some(v) => Ok(ReplayToken { algorithm: RandomAlgorithm::ChaCha8V1, seed: Seed(v) }),
            None => Err(ParseReplayTokenError::InvalidSeed { seed: String::from_str(seed) }),
        }
    }
}

impl core::str::FromStr for ReplayToken {
    type Err = ParseReplayTokenError;

    fn from_str(s: &str) -> Result<Self, ParseReplayTokenError> {
        ReplayToken::parse(s)
    }
}

/// Failure while parsing a replay token from text.
#[derive(Debug, Clone, PartialEq, Eq)]
pub enum ParseReplayTokenError {
    /// The text has no `:` separator.
    MissingSeparator {
        /// Rejected text.
        string: String,
    },
    /// The algorithm name is not supported.
    UnsupportedAlgorithm {
        /// Rejected algorithm name.
        algo: String,
    },
    /// The seed is not a hexadecimal 64-bit value.
    InvalidSeed {
        /// Rejected seed text.
        seed: String,
    },
}

/// Human-readable description of a replay-token parse error.
pub open spec fn replay_error_text(e: ParseReplayTokenError) -> Seq<char> {
    match e {
        ParseReplayTokenError::MissingSeparator { string } => "`"@ + string@
            + "` is missing `:` separator"@,
        ParseReplayTokenError::UnsupportedAlgorithm { algo } => "`"@ + algo@
            + "` algorithm is not supported by VVM randomization"@,
        ParseReplayTokenError::InvalidSeed { seed } => "`"@ + seed@
            + "` is not a valid seed value"@,
    }
}

impl ParseReplayTokenError {
    /// Human-readable description of the error.
    pub fn message(&self) -> (r: String)
        ensures
            r@ == replay_error_text(*self),
    {
        let mut s = String::new();
        match self {
            ParseReplayTokenError::MissingSeparator { string } => {
                push_str(&mut s, "`");
                push_str(&mut s, string.as_str());
                push_str(&mut s, "` is missing `:` separator");
            },
            ParseReplayTokenError::UnsupportedAlgorithm { algo } => {
                push_str(&mut s, "`");
                push_str(&mut s, algo.as_str());
                push_str(&mut s, "` algorithm is not supported by VVM randomization");
            },
            ParseReplayTokenError::InvalidSeed { seed } => {
                push_str(&mut s, "`");
                push_str(&mut s, seed.as_str());
                push_str(&mut s, "` is not a valid seed value");
            },
        }
        s
    }
}

/// Deterministic random source reproducible from its replay token.
#[derive(Debug)]
pub struct RandomContext {
    replay: ReplayToken,
    position: u128,
}

impl View for RandomContext {
    /// Replay token and the offset of the next word in the stream.
    type V = ((RandomAlgorithm, u64), u128);

    closed spec fn view(&self) -> ((RandomAlgorithm, u64), u128) {
        (self.replay@, self.position)
    }
}

/// Offset after `n` more words, wrapping like the generator's own counter.
pub open spec fn advance(position: u128, n: int) -> u128 {
    ((position + n) % 0x1_0000_0000_0000_0000_0000_0000_0000_0000int) as u128
}

impl RandomContext {
    /// Creates a ChaCha8 context from a seed.
    pub fn new(seed: Seed) -> (r: Self)
        ensures
            r@ == ((RandomAlgorithm::ChaCha8V1, seed@), 0u128),
    {
        Self::from_replay(ReplayToken::new(seed))
    }

    /// Recreates the context that a replay token describes, at the start of its stream.
    pub fn from_replay(replay: ReplayToken) -> (r: Self)
        ensures
            r@ == (replay@, 0u128),
    {
        RandomContext { replay, position: 0 }
    }

    /// Returns the replay token.
    pub fn replay_token(&self) -> (r: ReplayToken)
        ensures
            r@ == self@.0,
    {
        self.replay
    }

    /// Draws the next 32-bit word.
    pub fn next_u32(&mut self) -> (r: u32)
        ensures
            r == chacha8_word(old(self)@.0.1, old(self)@.1),
            final(self)@ == (old(self)@.0, advance(old(self)@.1, 1)),
    {
        let r = chacha8_word_at(self.replay.seed.0, self.position);
        self.position = self.position.wrapping_add(1);
        r
    }

    /// Draws the next 64-bit value from two words, low word first.
    pub fn next_u64(&mut self) -> (r: u64)
        ensures
            r == chacha8_word(old(self)@.0.1, old(self)@.1) as u64 + chacha8_word(
                old(self)@.0.1,
                advance(old(self)@.1, 1),
            ) as u64 * 0x1_0000_0000,
            final(self)@ == (old(self)@.0, advance(old(self)@.1, 2)),
    {
        let lo = self.next_u32();
        let hi = self.next_u32();
        proof {
            assert(advance(advance(old(self)@.1, 1), 1) == advance(old(self)@.1, 2));
        }
        let r = (hi as u64) * 0x1_0000_0000 + lo as u64;
        r
    }

    /// Draws a boolean from the low bit of the next word.
    pub fn next_bool(&mut self) -> (r: bool)
        ensures
            r == (chacha8_word(old(self)@.0.1, old(self)@.1) % 2 == 1),
            final(self)@ == (old(self)@.0, advance(old(self)@.1, 1)),
    {
        let w = self.next_u32();
        w % 2 == 1
    }
}

/// Type with a canonical random constructor.
pub trait Randomize: Sized {
    /// Draws one value.
    fn randomize(random: &mut RandomContext) -> Self;
}

impl Randomize for bool {
    fn randomize(random: &mut RandomContext) -> (r: bool)
        ensures
            r == (chacha8_word(old(random)@.0.1, old(random)@.1) % 2 == 1),
            final(random)@ == (old(random)@.0, advance(old(random)@.1, 1)),
    {
        random.next_bool()
    }
}

impl Randomize for u32 {
    fn randomize(random: &mut RandomContext) -> (r: u32)
        ensures
            r == chacha8_word(old(random)@.0.1, old(random)@.1),
            final(random)@ == (old(random)@.0, advance(old(random)@.1, 1)),
    {
        random.next_u32()
    }
}

impl Randomize for u64 {
    fn randomize(random: &mut RandomContext) -> (r: u64)
        ensures
            r == (chacha8_word(old(random)@.0.1, old(random)@.1) as u64 + chacha8_word(old(random)@.0.1, advance(old(random)@.1, 1)) as u64 * 0x1_0000_0000),
            final(random)@ == (old(random)@.0, advance(old(random)@.1, 2)),
    {
        random.next_u64()
    }
}

impl Randomize for i32 {
    fn randomize(random: &mut RandomContext) -> (r: i32)
        ensures
            r == chacha8_word(old(random)@.0.1, old(random)@.1) as i32,
            final(random)@ == (old(random)@.0, advance(old(random)@.1, 1)),
    {
        random.next_u32() as i32
    }
}

impl Randomize for i64 {
    fn randomize(random: &mut RandomContext) -> (r: i64)
        ensures
            r == (chacha8_word(old(random)@.0.1, old(random)@.1) as u64 + chacha8_word(old(random)@.0.1, advance(old(random)@.1, 1)) as u64 * 0x1_0000_0000) as u64 as i64,
            final(random)@ == (old(random)@.0, advance(old(random)@.1, 2)),
    {
        random.next_u64() as i64
    }
}

/// Stimulus sequence that can be reproduced from a replay token.
pub trait ReplayableSequence {
    /// Returns the replay token that reproduces the sequence.
    fn replay_token(&self) -> ReplayToken;
}

/// Sixteen to the power `d`.
pub open spec fn pow16(d: nat) -> nat
    decreases d,
{
    if d == 0 {
        1
    } else {
        16 * pow16((d - 1) as nat)
    }
}

/// Fixed-width hex text has one valid digit per position and reads back as
/// the value modulo the width.
proof fn lemma_hex_digits(n: nat, d: nat)
    ensures
        hex_spec(n, d).len() == d,
        digits_ok(hex_spec(n, d), true),
        digits_value(hex_spec(n, d), true) == n % pow16(d),
        pow16(d) > 0,
    decreases d,
{
    if d > 0 {
        lemma_hex_digits(n / 16, (d - 1) as nat);
        let h = hex_spec(n, d);
        let prev = hex_spec(n / 16, (d - 1) as nat);
        let m = n % 16;
        assert(h == prev.push(digit_char(m)));
        assert(h.drop_last() =~= prev);
        if m < 10 {
            assert(digit_char(m) == (48 + m) as char);
            assert(((48 + m) as char) as u32 == 48 + m);
        } else {
            assert(digit_char(m) == (87 + m) as char);
            assert(((87 + m) as char) as u32 == 87 + m);
        }
        assert(digit_value(digit_char(m), true) == m);
        assert forall|i: int| 0 <= i < h.len() implies #[trigger] digit_value(h[i], true) >= 0 by {
            if i < prev.len() {
                assert(h[i] == prev[i]);
            }
        }
        vstd::arithmetic::div_mod::lemma_mod_breakdown(n as int, 16, pow16((d - 1) as nat) as int);
    }
}

/// Sixteen hex digits cover every 64-bit value.
proof fn lemma_pow16_sixteen()
    ensures
        pow16(16) == 0x1_0000_0000_0000_0000,
{
    reveal_with_fuel(pow16, 17);
}

/// Fixed-width hex text of a 64-bit value parses back to it.
proof fn lemma_hex_round_trip(v: u64)
    ensures
        parse_unsigned_spec(hex_spec(v as nat, 16), true) == Some(v),
{
    lemma_hex_digits(v as nat, 16);
    lemma_pow16_sixteen();
    let h = hex_spec(v as nat, 16);
    assert(digit_value(h[0], true) >= 0);
    assert(h[0] != '+');
    assert(unsigned_body(h) == h);
}

/// A seed's text parses back to the same seed.
pub proof fn lemma_seed_text_round_trip(v: u64)
    ensures
        seed_text_value(seed_text(v)) == Some(v),
{
    reveal_strlit("0x");
    lemma_hex_round_trip(v);
    let s = seed_text(v);
    assert(s[0] == '0');
    assert(s[1] == 'x');
    assert(s.skip(2) =~= hex_spec(v as nat, 16));
}

/// No colon between `i` and `j` leaves the first colon unchanged.
proof fn lemma_find_colon_skip(s: Seq<char>, i: int, j: int)
    requires
        0 <= i <= j <= s.len(),
        forall|k: int| i <= k < j ==> s[k] != ':',
    ensures
        find_colon(s, i) == find_colon(s, j),
    decreases j - i,
{
    if i < j {
        lemma_find_colon_skip(s, i + 1, j);
    }
}

/// The parts of a replay token's text: the algorithm name, a colon at
/// position ten, and the sixteen hex digits of the seed.
pub proof fn lemma_replay_text_parts(t: (RandomAlgorithm, u64))
    ensures
        find_colon(replay_text(t), 0) == 10,
        replay_text(t).take(10) == "chacha8-v1"@,
        parse_unsigned_spec(replay_text(t).skip(11), true) == Some(t.1),
{
    reveal_strlit("chacha8-v1");
    reveal_strlit(":");
    lemma_hex_round_trip(t.1);
    let s = replay_text(t);
    let name = algorithm_text(t.0);
    assert(name == "chacha8-v1"@);
    assert(name.len() == 10);
    assert forall|k: int| 0 <= k < 10 implies s[k] != ':' by {
        assert(s[k] == name[k]);
    }
    assert(s[10] == ':');
    lemma_find_colon_skip(s, 0, 10);
    assert(s.take(10) =~= name);
    assert(s.skip(11) =~= hex_spec(t.1 as nat, 16));
}

/// A replay token's text parses back to the same token.
pub proof fn lemma_replay_text_round_trip(t: (RandomAlgorithm, u64), r: Result<
    ReplayToken,
    ParseReplayTokenError,
>)
    requires
        replay_parse_outcome(replay_text(t), r),
    ensures
        r matches Ok(x) && x@ == t,
{
    reveal_strlit("chacha8-v1");
    reveal_strlit(":");
    lemma_hex_round_trip(t.1);
    let s = replay_text(t);
    let name = algorithm_text(t.0);
    assert(name == "chacha8-v1"@);
    assert(name.len() == 10);
    assert forall|k: int| 0 <= k < 10 implies s[k] != ':' by {
        assert(s[k] == name[k]);
    }
    assert(s[10] == ':');
    lemma_find_colon_skip(s, 0, 10);
    assert(find_colon(s, 0) == 10);
    assert(s.take(10) =~= name);
    assert(s.skip(11) =~= hex_spec(t.1 as nat, 16));
}

} // verus!

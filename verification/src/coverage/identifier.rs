use vstd::prelude::*;
use vstd::string::*;

verus! {

/// ASCII letter.
pub open spec fn is_ascii_alpha(c: char) -> bool {
    (65 <= c as u32 <= 90) || (97 <= c as u32 <= 122)
}

/// ASCII decimal digit.
pub open spec fn is_ascii_digit(c: char) -> bool {
    48 <= c as u32 <= 57
}

/// ASCII lowercase letter.
pub open spec fn is_ascii_lower(c: char) -> bool {
    97 <= c as u32 <= 122
}

/// Letter, digit or underscore.
pub open spec fn identifier_char(c: char) -> bool {
    is_ascii_alpha(c) || is_ascii_digit(c) || c == '_'
}

/// A coverage identifier: an ASCII letter or underscore followed by letters,
/// digits and underscores.
pub open spec fn valid_identifier(s: Seq<char>) -> bool {
    &&& s.len() > 0
    &&& is_ascii_alpha(s[0]) || s[0] == '_'
    &&& forall|i: int| 1 <= i < s.len() ==> #[trigger] identifier_char(s[i])
}

/// A coverage instance path: one or more coverage identifiers separated by `.`.
pub open spec fn valid_path(s: Seq<char>) -> bool {
    &&& s.len() > 0
    &&& s.last() != '.'
    &&& forall|i: int| 0 <= i < s.len() ==> identifier_char(#[trigger] s[i]) || s[i] == '.'
    &&& forall|i: int|
        0 <= i < s.len() && #[trigger] segment_start(s, i) ==> is_ascii_alpha(s[i]) || s[i] == '_'
}

/// Position `i` begins a dot-separated segment.
pub open spec fn segment_start(s: Seq<char>, i: int) -> bool {
    i == 0 || s[i - 1] == '.'
}

/// A test name: a lowercase ASCII letter followed by lowercase letters,
/// digits, `-`, `_` and `.`.
pub open spec fn valid_test_name(s: Seq<char>) -> bool {
    &&& s.len() > 0
    &&& is_ascii_lower(s[0])
    &&& forall|i: int|
        1 <= i < s.len() ==> is_ascii_lower(#[trigger] s[i]) || is_ascii_digit(s[i]) || s[i]
            == '-' || s[i] == '_' || s[i] == '.'
}

fn char_is_alpha(c: char) -> (r: bool)
    ensures
        r == is_ascii_alpha(c),
{
    let v = c as u32;
    (65 <= v && v <= 90) || (97 <= v && v <= 122)
}

fn char_is_digit(c: char) -> (r: bool)
    ensures
        r == is_ascii_digit(c),
{
    let v = c as u32;
    48 <= v && v <= 57
}

fn char_is_lower(c: char) -> (r: bool)
    ensures
        r == is_ascii_lower(c),
{
    let v = c as u32;
    97 <= v && v <= 122
}

/// Returns whether one name is a valid coverage identifier.
pub fn is_valid_coverage_identifier(name: &str) -> (r: bool)
    ensures
        r == valid_identifier(name@),
{
    let len = name.unicode_len();
    if len == 0 {
        return false;
    }
    let first = name.get_char(0);
    if !(char_is_alpha(first) || first == '_') {
        return false;
    }
    let mut i: usize = 1;
    while i < len
        invariant
            len == name@.len(),
            1 <= i <= len,
            forall|j: int| 1 <= j < i ==> #[trigger] identifier_char(name@[j]),
        decreases len - i,
    {
        let c = name.get_char(i);
        if !(char_is_alpha(c) || char_is_digit(c) || c == '_') {
            assert(!identifier_char(name@[i as int]));
            return false;
        }
        i = i + 1;
    }
    true
}

/// Returns whether one string is a valid coverage instance path.
pub fn is_valid_coverage_path(path: &str) -> (r: bool)
    ensures
        r == valid_path(path@),
{
    let len = path.unicode_len();
    if len == 0 {
        return false;
    }
    if path.get_char(len - 1) == '.' {
        return false;
    }
    let mut i: usize = 0;
    while i < len
        invariant
            len == path@.len(),
            len > 0,
            path@.last() != '.',
            i <= len,
            forall|j: int| 0 <= j < i ==> identifier_char(#[trigger] path@[j]) || path@[j] == '.',
            forall|j: int|
                0 <= j < i && #[trigger] segment_start(path@, j) ==> is_ascii_alpha(path@[j])
                    || path@[j] == '_',
        decreases len - i,
    {
        let c = path.get_char(i);
        if !(char_is_alpha(c) || char_is_digit(c) || c == '_' || c == '.') {
            assert(!(identifier_char(path@[i as int]) || path@[i as int] == '.'));
            return false;
        }
        let starts = i == 0 || path.get_char(i - 1) == '.';
        assert(starts == segment_start(path@, i as int));
        if starts && !(char_is_alpha(c) || c == '_') {
            return false;
        }
        i = i + 1;
    }
    true
}

/// Returns whether one string is a valid test name.
pub fn is_valid_test_name(name: &str) -> (r: bool)
    ensures
        r == valid_test_name(name@),
{
    let len = name.unicode_len();
    if len == 0 {
        return false;
    }
    if !char_is_lower(name.get_char(0)) {
        return false;
    }
    let mut i: usize = 1;
    while i < len
        invariant
            len == name@.len(),
            1 <= i <= len,
            forall|j: int|
                1 <= j < i ==> is_ascii_lower(#[trigger] name@[j]) || is_ascii_digit(name@[j])
                    || name@[j] == '-' || name@[j] == '_' || name@[j] == '.',
        decreases len - i,
    {
        let c = name.get_char(i);
        if !(char_is_lower(c) || char_is_digit(c) || c == '-' || c == '_' || c == '.') {
            assert(!(is_ascii_lower(name@[i as int]) || is_ascii_digit(name@[i as int])
                || name@[i as int] == '-' || name@[i as int] == '_' || name@[i as int] == '.'));
            return false;
        }
        i = i + 1;
    }
    true
}

} // verus!

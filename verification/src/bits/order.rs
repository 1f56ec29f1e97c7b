use core::cmp::Ordering;

use vstd::prelude::*;
use vstd::std_specs::cmp::PartialOrdSpecImpl;

use super::Bits;

verus! {

/// A word count as an integer.
pub open spec fn count_of(n: usize) -> int {
    n as int
}

/// Length of a word sequence as an integer.
pub open spec fn words_len(s: Seq<u32>) -> int {
    s.len() as int
}

/// Numeric order of two word sequences stored least significant word first,
/// comparing their first `n` words from the most significant one down.
pub open spec fn words_order(a: Seq<u32>, b: Seq<u32>, n: int) -> Ordering
    decreases n,
{
    if n <= 0 {
        Ordering::Equal
    } else if a[n - 1] < b[n - 1] {
        Ordering::Less
    } else if a[n - 1] > b[n - 1] {
        Ordering::Greater
    } else {
        words_order(a, b, n - 1)
    }
}

impl<const N: usize> PartialOrd for Bits<N> {
    /// Numeric order of the two values.
    fn partial_cmp(&self, other: &Self) -> (r: Option<Ordering>) {
        let n = self.words.len();
        if n != other.words.len() {
            return None;
        }
        let mut i: usize = n;
        while i > 0
            invariant
                n == self.words@.len(),
                n == other.words@.len(),
                i <= n,
                words_order(self.words@, other.words@, count_of(n)) == words_order(
                    self.words@,
                    other.words@,
                    count_of(i),
                ),
            decreases i,
        {
            let x = self.words[i - 1];
            let y = other.words[i - 1];
            if x < y {
                return Some(Ordering::Less);
            }
            if x > y {
                return Some(Ordering::Greater);
            }
            i = i - 1;
        }
        Some(Ordering::Equal)
    }
}

impl<const N: usize> PartialOrdSpecImpl for Bits<N> {
    open spec fn obeys_partial_cmp_spec() -> bool {
        true
    }

    closed spec fn partial_cmp_spec(&self, other: &Self) -> Option<Ordering> {
        if self.words@.len() == other.words@.len() {
            Some(words_order(self.words@, other.words@, words_len(self.words@)))
        } else {
            None
        }
    }
}

} // verus!

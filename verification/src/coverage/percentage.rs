use vstd::prelude::*;
use vstd::string::*;

use crate::coverage::ratio::CoverageRatio;
use crate::text::{decimal_spec, digit_char, push_decimal, push_str, digit_str};

verus! {

/// Basis points of a ratio: the covered share of the total scaled to ten
/// thousand, rounded half up, at most 9 999 while any bin is uncovered, and
/// zero for an empty ratio.
pub open spec fn basis_points_spec(covered: nat, uncovered: nat, total: nat) -> nat {
    if total == 0 {
        0
    } else {
        let rounded = (covered * 10000 + total / 2) / total;
        let cap: nat = if uncovered == 0 {
            10000
        } else {
            9999
        };
        if rounded < cap {
            rounded
        } else {
            cap
        }
    }
}

/// Stable reporting representation of one coverage percentage, stored in
/// basis points: ten thousand basis points are exactly 100.00 percent.
#[derive(Debug, Clone, Copy, PartialEq, Eq, PartialOrd, Ord, Hash)]
pub struct CoveragePercentage {
    basis_points: u16,
}

impl View for CoveragePercentage {
    type V = u16;

    closed spec fn view(&self) -> u16 {
        self.basis_points
    }
}

impl Default for CoveragePercentage {
    fn default() -> (r: Self)
        ensures
            r@ == 0,
    {
        CoveragePercentage { basis_points: 0 }
    }
}

impl CoveragePercentage {
    #[verifier::type_invariant]
    closed spec fn inv(self) -> bool {
        self.basis_points <= 10000
    }

    /// Converts one exact coverage ratio into a fixed-point presentation percentage.
    pub fn from_ratio(ratio: CoverageRatio) -> (r: Self)
        ensures
            r@ == basis_points_spec(ratio@.0 as nat, ratio@.1 as nat, ratio@.2 as nat),
    {
        let total = ratio.total();
        if total == 0 {
            return CoveragePercentage { basis_points: 0 };
        }
        let numerator = ratio.covered() as u128;
        let denominator = total as u128;
        assert(numerator * 10000 <= 0xffff_ffff_ffff_ffffu128 * 10000) by (nonlinear_arith)
            requires
                numerator <= 0xffff_ffff_ffff_ffffu128,
        ;
        let scaled = numerator * 10000;
        let half = denominator / 2;
        let rounded = (scaled + half) / denominator;
        let capped: u128 = if ratio.is_complete() {
            if rounded < 10000 {
                rounded
            } else {
                10000
            }
        } else {
            if rounded < 9999 {
                rounded
            } else {
                9999
            }
        };
        CoveragePercentage { basis_points: capped as u16 }
    }

    /// Returns the value in basis points.
    pub fn basis_points(self) -> (r: u16)
        ensures
            r == self@,
            r <= 10000,
    {
        proof {
            use_type_invariant(&self);
        }
        self.basis_points
    }

    /// Returns the whole percentage component.
    pub fn whole_percent(self) -> (r: u8)
        ensures
            r == self@ / 100,
    {
        proof {
            use_type_invariant(&self);
        }
        (self.basis_points / 100) as u8
    }

    /// Returns the hundredths component.
    pub fn fractional_hundredths(self) -> (r: u8)
        ensures
            r == self@ % 100,
    {
        (self.basis_points % 100) as u8
    }

    /// Text form `W.FF%`, with two fractional digits.
    pub fn to_text(self) -> (r: String)
        ensures
            r@ == decimal_spec((self@ / 100) as nat) + "."@ + seq![
                digit_char(((self@ % 100) / 10) as nat),
                digit_char((self@ % 10) as nat),
            ] + "%"@,
    {
        let mut s = String::new();
        push_decimal(&mut s, self.whole_percent() as u64);
        push_str(&mut s, ".");
        let frac = self.fractional_hundredths() as u64;
        push_str(&mut s, digit_str(frac / 10));
        push_str(&mut s, digit_str(frac % 10));
        push_str(&mut s, "%");
        proof {
            assert(s@ =~= decimal_spec((self@ / 100) as nat) + "."@ + seq![
                digit_char(((self@ % 100) / 10) as nat),
                digit_char((self@ % 10) as nat),
            ] + "%"@);
        }
        s
    }
}

} // verus!

use vstd::prelude::*;

use crate::alpha::Alpha;

verus! {

/// The scale of the fixed-point digit probabilities: probabilities are
/// carried in parts per million.
pub const PPM_SCALE: u64 = 1_000_000;

/// The nine digits that can lead the decimal representation of a non-zero
/// number, and that Benford's law speaks of.
#[derive(Clone, Copy, PartialEq, Eq, PartialOrd, Ord, Hash, Debug, Structural)]
pub enum Digit {
    One,
    Two,
    Three,
    Four,
    Five,
    Six,
    Seven,
    Eight,
    Nine,
}

/// The theoretical Benford probability of the leading digit `d`, in parts
/// per million: the rounding of `(log10(d + 1) - log10(d)) * 1_000_000`.
///
/// The nine entries sum to exactly `PPM_SCALE`
/// (see [`lemma_probabilities_sum_to_one`]).
pub open spec fn probability_ppm_of(d: int) -> int {
    if d == 1 {
        301030
    } else if d == 2 {
        176091
    } else if d == 3 {
        124939
    } else if d == 4 {
        96910
    } else if d == 5 {
        79181
    } else if d == 6 {
        66947
    } else if d == 7 {
        57992
    } else if d == 8 {
        51153
    } else {
        45757
    }
}

impl Digit {
    /// The numeric value of this digit, between 1 and 9.
    pub open spec fn spec_value(self) -> int {
        match self {
            Digit::One => 1,
            Digit::Two => 2,
            Digit::Three => 3,
            Digit::Four => 4,
            Digit::Five => 5,
            Digit::Six => 6,
            Digit::Seven => 7,
            Digit::Eight => 8,
            Digit::Nine => 9,
        }
    }

    /// The digit whose numeric value is `v`, for `v` between 1 and 9.
    pub open spec fn spec_from_value(v: int) -> Digit {
        if v == 1 {
            Digit::One
        } else if v == 2 {
            Digit::Two
        } else if v == 3 {
            Digit::Three
        } else if v == 4 {
            Digit::Four
        } else if v == 5 {
            Digit::Five
        } else if v == 6 {
            Digit::Six
        } else if v == 7 {
            Digit::Seven
        } else if v == 8 {
            Digit::Eight
        } else {
            Digit::Nine
        }
    }

    /// Returns the numeric value of this digit.
    pub fn value(self) -> (v: u8)
        ensures
            v == self.spec_value(),
            1 <= v <= 9,
    {
        match self {
            Digit::One => 1,
            Digit::Two => 2,
            Digit::Three => 3,
            Digit::Four => 4,
            Digit::Five => 5,
            Digit::Six => 6,
            Digit::Seven => 7,
            Digit::Eight => 8,
            Digit::Nine => 9,
        }
    }

    /// Returns the digit with the numeric value `v`, or `None` when `v` is
    /// 0 or greater than 9.
    pub fn from_value(v: u8) -> (r: Option<Digit>)
        ensures
            1 <= v <= 9 ==> r == Some(Digit::spec_from_value(v as int)),
            !(1 <= v <= 9) ==> r is None,
    {
        match v {
            1 => Some(Digit::One),
            2 => Some(Digit::Two),
            3 => Some(Digit::Three),
            4 => Some(Digit::Four),
            5 => Some(Digit::Five),
            6 => Some(Digit::Six),
            7 => Some(Digit::Seven),
            8 => Some(Digit::Eight),
            9 => Some(Digit::Nine),
            _ => None,
        }
    }

    /// Returns the probability of an occurrence of this digit as the leading
    /// digit, according to Benford's law, in parts per million.
    pub fn probability_ppm(self) -> (p: u64)
        ensures
            p == probability_ppm_of(self.spec_value()),
    {
        match self {
            Digit::One => 301030,
            Digit::Two => 176091,
            Digit::Three => 124939,
            Digit::Four => 96910,
            Digit::Five => 79181,
            Digit::Six => 66947,
            Digit::Seven => 57992,
            Digit::Eight => 51153,
            Digit::Nine => 45757,
        }
    }

    /// Returns the value from the Chi-squared distribution table for the
    /// given confidence level, assuming 8 degrees of freedom, in
    /// thousandths.
    pub fn chi_squared_milli(p: Alpha) -> (c: u64)
        ensures
            c == p.spec_critical_milli(),
    {
        match p {
            Alpha::Point995 => 1344,
            Alpha::Point99 => 1646,
            Alpha::Point975 => 2180,
            Alpha::Point95 => 2733,
            Alpha::Point9 => 3490,
            Alpha::Point75 => 5071,
            Alpha::Point5 => 7344,
            Alpha::Point25 => 10219,
            Alpha::Point1 => 13362,
            Alpha::Point05 => 15507,
            Alpha::Point025 => 17535,
            Alpha::Point01 => 20090,
            Alpha::Point005 => 21955,
            Alpha::Point002 => 24352,
            Alpha::Point001 => 26124,
        }
    }
}

/// Every digit's value maps back to that digit.
pub proof fn lemma_digit_value_roundtrip(d: Digit)
    ensures
        Digit::spec_from_value(d.spec_value()) == d,
        1 <= d.spec_value() <= 9,
{
}

/// The nine fixed-point Benford probabilities form a probability
/// distribution: they sum to exactly one (that is, to `PPM_SCALE` parts
/// per million).
pub proof fn lemma_probabilities_sum_to_one()
    ensures
        probability_ppm_of(1) + probability_ppm_of(2) + probability_ppm_of(3)
            + probability_ppm_of(4) + probability_ppm_of(5) + probability_ppm_of(6)
            + probability_ppm_of(7) + probability_ppm_of(8) + probability_ppm_of(9)
            == PPM_SCALE,
{
}

} // verus!

use vstd::prelude::*;

verus! {

/// A confidence level for the Chi-squared test.
///
/// Each level selects one tabulated critical value for 8 degrees of
/// freedom (nine digit categories minus one constraint); see
/// [`crate::digit::Digit::chi_squared_milli`].
#[derive(Clone, Copy, PartialEq, Eq, Hash, Debug, Structural)]
pub enum Alpha {
    Point995,
    Point99,
    Point975,
    Point95,
    Point9,
    Point75,
    Point5,
    Point25,
    Point1,
    Point05,
    Point025,
    Point01,
    Point005,
    Point002,
    Point001,
}

impl Alpha {
    /// The critical Chi-squared value for this confidence level and
    /// 8 degrees of freedom, in thousandths.
    pub open spec fn spec_critical_milli(self) -> int {
        match self {
            Alpha::Point995 => 1344,
            Alpha::Point99 => 1646,
            Alpha::Point975 => 2180,
            Alpha::Point95 => 2733,
            Alpha::Point9 => 3490,
            Alpha::Point75 => 5071,
            Alpha::Point5 => 7344,
            Alpha::Point25 => 10219,
            Alpha::Point1 => 13362,
            Alpha::Point05 => 15507,
            Alpha::Point025 => 17535,
            Alpha::Point01 => 20090,
            Alpha::Point005 => 21955,
            Alpha::Point002 => 24352,
            Alpha::Point001 => 26124,
        }
    }
}

} // verus!

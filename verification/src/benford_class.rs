use vstd::prelude::*;

use crate::digit::Digit;
use crate::error::BenfordError;

verus! {

/// The leading decimal digit of a number of magnitude `m`: the value left
/// after dividing by ten until the result is below ten. For `m` between 1
/// and 9 this is `m` itself.
pub open spec fn spec_leading_digit(m: int) -> int
    decreases m,
{
    if m < 10 {
        m
    } else {
        spec_leading_digit(m / 10)
    }
}

/// The magnitude (absolute value) of a signed number.
pub open spec fn spec_magnitude(v: int) -> int {
    if v < 0 {
        -v
    } else {
        v
    }
}

/// What leading-digit extraction returns for a sample of magnitude `m`:
/// zero is rejected as invalid input, every other magnitude yields its
/// leading digit.
pub open spec fn spec_first_digit(m: int) -> Result<Digit, BenfordError> {
    if m == 0 {
        Err(BenfordError::InvalidInput)
    } else {
        Ok(Digit::spec_from_value(spec_leading_digit(m)))
    }
}

/// Maps a number to a [`Digit`].
///
/// A sample class describes one way of reducing a sample to a digit:
/// every implementation discards the sign and yields the leading decimal
/// digit of the sample's magnitude, failing on zero. It is implemented for
/// the primitive integer kinds and for [`crate::FirstDigitBase10`].
pub trait BenfordClass: Sized {
    /// The absolute mathematical value of this sample.
    spec fn spec_sample_magnitude(&self) -> int;

    /// Returns the leading decimal digit of this sample's magnitude, or
    /// `InvalidInput` when the sample is zero.
    fn to_first_digit(&self) -> (r: Result<Digit, BenfordError>)
        ensures
            r == spec_first_digit(self.spec_sample_magnitude()),
    ;
}

/// Leading-digit extraction is sign-invariant: a non-zero number and its
/// negation have the same magnitude, so they extract to the same digit.
pub proof fn lemma_extract_sign_invariant(x: int)
    requires
        x != 0,
    ensures
        spec_first_digit(spec_magnitude(x)) == spec_first_digit(spec_magnitude(-x)),
{
}

/// A non-zero value that already lies in the interval from 1 to 9 (the
/// integer part of the half-open interval from 1 to 10) extracts to
/// itself.
pub proof fn lemma_extract_single_digit(x: int)
    requires
        1 <= x < 10,
    ensures
        spec_leading_digit(x) == x,
        spec_first_digit(x) == Ok::<Digit, BenfordError>(Digit::spec_from_value(x)),
{
}

} // verus!

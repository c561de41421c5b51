use vstd::prelude::*;

use crate::benford_class::BenfordClass;
use crate::benford_class::spec_leading_digit;
use crate::benford_class::spec_magnitude;
use crate::digit::Digit;
use crate::error::BenfordError;

verus! {

/// The first digit of a number, in base 10.
///
/// A value of this type is the witness that a sample had a leading decimal
/// digit: it is built by [`FirstDigitBase10::from_u64`] or
/// [`FirstDigitBase10::from_i64`], which reject zero, and carries the
/// extracted [`Digit`].
#[derive(Clone, Copy, PartialEq, Eq, Debug, Structural)]
pub struct FirstDigitBase10(Digit);

/// Divides `v` by ten until it is below ten, and maps the remaining value
/// to its digit.
fn first_digit_u64(v: u64) -> (d: Digit)
    requires
        v >= 1,
    ensures
        d == Digit::spec_from_value(spec_leading_digit(v as int)),
        d.spec_value() == spec_leading_digit(v as int),
{
    let mut x: u64 = v;
    while x >= 10
        invariant
            1 <= x,
            spec_leading_digit(x as int) == spec_leading_digit(v as int),
        decreases x,
    {
        x = x / 10;
    }
    let r = Digit::from_value(x as u8);
    r.unwrap()
}

/// The magnitude of a signed value, widened so that the smallest
/// representable value does not overflow.
fn magnitude_i64(v: i64) -> (m: u64)
    ensures
        m == spec_magnitude(v as int),
{
    if v >= 0 {
        v as u64
    } else {
        let w: i128 = v as i128;
        (-w) as u64
    }
}

impl FirstDigitBase10 {
    /// The digit this extraction produced.
    pub closed spec fn spec_digit(self) -> Digit {
        self.0
    }

    /// Extracts the leading decimal digit of an unsigned value, rejecting
    /// zero as invalid input.
    pub fn from_u64(value: u64) -> (r: Result<FirstDigitBase10, BenfordError>)
        ensures
            value == 0 ==> r == Err::<FirstDigitBase10, BenfordError>(BenfordError::InvalidInput),
            value != 0 ==> (r matches Ok(f) && f.spec_digit() == Digit::spec_from_value(
                spec_leading_digit(value as int))),
    {
        if value == 0 {
            Err(BenfordError::InvalidInput)
        } else {
            Ok(FirstDigitBase10(first_digit_u64(value)))
        }
    }

    /// Extracts the leading decimal digit of a signed value: the sign is
    /// discarded, and zero is rejected as invalid input.
    pub fn from_i64(value: i64) -> (r: Result<FirstDigitBase10, BenfordError>)
        ensures
            value == 0 ==> r == Err::<FirstDigitBase10, BenfordError>(BenfordError::InvalidInput),
            value != 0 ==> (r matches Ok(f) && f.spec_digit() == Digit::spec_from_value(
                spec_leading_digit(spec_magnitude(value as int)))),
    {
        if value == 0 {
            Err(BenfordError::InvalidInput)
        } else {
            let m = magnitude_i64(value);
            Ok(FirstDigitBase10(first_digit_u64(m)))
        }
    }

    /// Returns the extracted digit.
    pub fn digit(&self) -> (d: Digit)
        ensures
            d == self.spec_digit(),
    {
        self.0
    }
}

impl BenfordClass for FirstDigitBase10 {
    /// An already extracted digit stands for its own value.
    open spec fn spec_sample_magnitude(&self) -> int {
        self.spec_digit().spec_value()
    }

    fn to_first_digit(&self) -> (r: Result<Digit, BenfordError>) {
        Ok(self.digit())
    }
}

impl BenfordClass for u64 {
    open spec fn spec_sample_magnitude(&self) -> int {
        *self as int
    }

    fn to_first_digit(&self) -> (r: Result<Digit, BenfordError>) {
        if *self == 0 {
            Err(BenfordError::InvalidInput)
        } else {
            Ok(first_digit_u64(*self))
        }
    }
}

impl BenfordClass for u32 {
    open spec fn spec_sample_magnitude(&self) -> int {
        *self as int
    }

    fn to_first_digit(&self) -> (r: Result<Digit, BenfordError>) {
        let w: u64 = *self as u64;
        w.to_first_digit()
    }
}

impl BenfordClass for u16 {
    open spec fn spec_sample_magnitude(&self) -> int {
        *self as int
    }

    fn to_first_digit(&self) -> (r: Result<Digit, BenfordError>) {
        let w: u64 = *self as u64;
        w.to_first_digit()
    }
}

impl BenfordClass for u8 {
    open spec fn spec_sample_magnitude(&self) -> int {
        *self as int
    }

    fn to_first_digit(&self) -> (r: Result<Digit, BenfordError>) {
        let w: u64 = *self as u64;
        w.to_first_digit()
    }
}

impl BenfordClass for i64 {
    open spec fn spec_sample_magnitude(&self) -> int {
        spec_magnitude(*self as int)
    }

    fn to_first_digit(&self) -> (r: Result<Digit, BenfordError>) {
        if *self == 0 {
            Err(BenfordError::InvalidInput)
        } else {
            Ok(first_digit_u64(magnitude_i64(*self)))
        }
    }
}

impl BenfordClass for i32 {
    open spec fn spec_sample_magnitude(&self) -> int {
        spec_magnitude(*self as int)
    }

    fn to_first_digit(&self) -> (r: Result<Digit, BenfordError>) {
        let w: i64 = *self as i64;
        w.to_first_digit()
    }
}

impl BenfordClass for i16 {
    open spec fn spec_sample_magnitude(&self) -> int {
        spec_magnitude(*self as int)
    }

    fn to_first_digit(&self) -> (r: Result<Digit, BenfordError>) {
        let w: i64 = *self as i64;
        w.to_first_digit()
    }
}

impl BenfordClass for i8 {
    open spec fn spec_sample_magnitude(&self) -> int {
        spec_magnitude(*self as int)
    }

    fn to_first_digit(&self) -> (r: Result<Digit, BenfordError>) {
        let w: i64 = *self as i64;
        w.to_first_digit()
    }
}

} // verus!

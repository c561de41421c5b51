//! A statistical conformance test for Benford's law.
//!
//! A stream of numeric samples is reduced to leading decimal digits
//! (1 through 9), per-digit occurrence counts are accumulated, and the
//! observed distribution is compared against the theoretical Benford
//! distribution with a Chi-squared goodness-of-fit test at a configurable
//! confidence level.
//!
//! All statistics are carried in exact fixed-point integer arithmetic:
//! digit probabilities in parts per million, critical values in
//! thousandths, and the Chi-squared statistic in millionths.

mod alpha;
mod benford_class;
mod benford_tester;
mod digit;
mod error;
mod first_digit_base10;

pub use alpha::Alpha;
pub use benford_class::BenfordClass;
pub use benford_class::lemma_extract_sign_invariant;
pub use benford_class::lemma_extract_single_digit;
pub use benford_class::spec_first_digit;
pub use benford_class::spec_leading_digit;
pub use benford_class::spec_magnitude;
pub use benford_tester::BenfordTester;
pub use benford_tester::MAX_SAMPLE_TOTAL;
pub use benford_tester::lemma_exact_benford_sample_has_zero_chi_squared;
pub use benford_tester::lemma_merge_with_empty;
pub use digit::Digit;
pub use digit::PPM_SCALE;
pub use digit::lemma_probabilities_sum_to_one;
pub use digit::probability_ppm_of;
pub use error::BenfordError;
pub use first_digit_base10::FirstDigitBase10;

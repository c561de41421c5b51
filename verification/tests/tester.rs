use benford::Alpha;
use benford::BenfordError;
use benford::BenfordTester;
use benford::Digit;
use benford::FirstDigitBase10;

fn all_digits() -> Vec<Digit> {
    (1u8..=9).map(|v| Digit::from_value(v).unwrap()).collect()
}

/// The Fibonacci sequence over a 64-bit width: every non-zero term, in
/// order, up to the last one produced before an addition would overflow.
fn fibonacci_u64() -> Vec<u64> {
    let mut out = Vec::new();
    let mut a: u64 = 0;
    let mut b: u64 = 1;
    loop {
        let res = a;
        a = b;
        b = match b.checked_add(res) {
            Some(sum) => sum,
            None => break,
        };
        if res != 0 {
            out.push(res);
        }
    }
    out
}

/// The same sequence restricted to a 16-bit width.
fn fibonacci_u16() -> Vec<u16> {
    let mut out = Vec::new();
    let mut a: u16 = 0;
    let mut b: u16 = 1;
    loop {
        let res = a;
        a = b;
        b = match b.checked_add(res) {
            Some(sum) => sum,
            None => break,
        };
        if res != 0 {
            out.push(res);
        }
    }
    out
}

#[test]
fn probabilities_match_the_logarithmic_law() {
    // p(d) = log10(d + 1) - log10(d), held in parts per million.
    let mut ppm_sum: u64 = 0;
    let mut float_sum: f64 = 0.0;
    for d in all_digits() {
        let exact = f64::log10(d.value() as f64 + 1.0) - f64::log10(d.value() as f64);
        let ppm = d.probability_ppm();
        assert!((ppm as f64 - exact * 1_000_000.0).abs() <= 0.5000001);
        ppm_sum += ppm;
        float_sum += ppm as f64 / 1_000_000.0;
    }
    assert_eq!(benford::PPM_SCALE, ppm_sum);
    assert!((float_sum - 1.0).abs() < 1e-12);
}

#[test]
fn critical_value_table_is_reproduced_exactly() {
    let expected = [
        (Alpha::Point995, 1344u64),
        (Alpha::Point99, 1646),
        (Alpha::Point975, 2180),
        (Alpha::Point95, 2733),
        (Alpha::Point9, 3490),
        (Alpha::Point75, 5071),
        (Alpha::Point5, 7344),
        (Alpha::Point25, 10219),
        (Alpha::Point1, 13362),
        (Alpha::Point05, 15507),
        (Alpha::Point025, 17535),
        (Alpha::Point01, 20090),
        (Alpha::Point005, 21955),
        (Alpha::Point002, 24352),
        (Alpha::Point001, 26124),
    ];
    for (alpha, milli) in expected {
        assert_eq!(milli, Digit::chi_squared_milli(alpha));
    }
}

#[test]
fn a_fresh_tester_is_empty() {
    let t = BenfordTester::new();
    assert_eq!(&vec![0u64; 10], t.counts());
    assert!(!t.is_benford());
}

#[test]
fn default_matches_new() {
    let d = BenfordTester::default();
    let n = BenfordTester::new();
    assert_eq!(n.counts(), d.counts());
}

#[test]
fn add_digit_counts_at_the_digit_index() {
    let mut t = BenfordTester::new();
    t.add_digit(Digit::Three);
    t.add_digit(Digit::Three);
    t.add_digit(Digit::Nine);
    let c = t.counts();
    assert_eq!(0, c[0]);
    assert_eq!(2, c[3]);
    assert_eq!(1, c[9]);
    assert_eq!(0, c[1]);
}

#[test]
fn add_sample_extracts_and_counts() {
    let mut t = BenfordTester::new();
    assert_eq!(Ok(()), t.add_sample(38974u64));
    assert_eq!(Ok(()), t.add_sample(-738974i64));
    assert_eq!(Ok(()), t.add_sample(FirstDigitBase10::from_u64(321).unwrap()));
    let c = t.counts();
    assert_eq!(2, c[3]);
    assert_eq!(1, c[7]);
}

#[test]
fn a_rejected_sample_leaves_the_counts_untouched() {
    let mut t = BenfordTester::new();
    t.add_sample(5u64).unwrap();
    assert_eq!(Err(BenfordError::InvalidInput), t.add_sample(0u64));
    assert_eq!(Err(BenfordError::InvalidInput), t.add_sample(0i32));
    let c = t.counts();
    assert_eq!(1, c[5]);
    assert_eq!(1u64, c.iter().sum::<u64>());
}

#[test]
fn reset_restores_the_exact_initial_state() {
    let mut t = BenfordTester::new();
    for v in 1u64..=500 {
        t.add_sample(v).unwrap();
    }
    assert_ne!(&vec![0u64; 10], t.counts());
    t.reset();
    assert_eq!(BenfordTester::new().counts(), t.counts());
}

#[test]
fn merging_with_an_empty_tester_changes_nothing() {
    let mut t = BenfordTester::new();
    for v in [5u64, 55, 555, 91, 20] {
        t.add_sample(v).unwrap();
    }
    let before = t.counts().clone();
    let empty = BenfordTester::new();
    t.merge(&empty);
    assert_eq!(&before, t.counts());
}

#[test]
fn merging_sums_the_count_tables() {
    let mut a = BenfordTester::new();
    a.add_digit(Digit::One);
    a.add_digit(Digit::Two);
    let mut b = BenfordTester::new();
    b.add_digit(Digit::Two);
    b.add_digit(Digit::Nine);
    a.merge(&b);
    let c = a.counts();
    assert_eq!(1, c[1]);
    assert_eq!(2, c[2]);
    assert_eq!(1, c[9]);
    assert_eq!(4u64, c.iter().sum::<u64>());
}

#[test]
fn merging_partitioned_accumulators_yields_the_union_dataset() {
    let mut whole = BenfordTester::new();
    let mut left = BenfordTester::new();
    let mut right = BenfordTester::new();
    for v in 1u64..=1000 {
        whole.add_sample(v).unwrap();
        if v % 2 == 0 {
            left.add_sample(v).unwrap();
        } else {
            right.add_sample(v).unwrap();
        }
    }
    left.merge(&right);
    assert_eq!(whole.counts(), left.counts());
    assert_eq!(whole.is_benford(), left.is_benford());
}

#[test]
fn an_exactly_proportional_benford_sample_has_zero_chi_squared() {
    // Count each digit k times its fixed-point probability: the statistic
    // reaches its minimum of exactly zero, however large the dataset.
    for k in [1u64, 3] {
        let mut t = BenfordTester::new();
        for d in all_digits() {
            for _ in 0..k * d.probability_ppm() {
                t.add_digit(d);
            }
        }
        assert_eq!(0, t.chi_squared_micro());
        assert!(t.is_benford());
        assert!(t.is_benford_with_alpha(Alpha::Point001));
    }
}

#[test]
fn uniform_natural_numbers_are_not_benford() {
    let mut t = BenfordTester::new();
    for v in 1..u16::MAX {
        t.add_sample(v).unwrap();
    }
    assert!(!t.is_benford());
}

#[test]
fn fibonacci_numbers_are_benford() {
    let mut t = BenfordTester::new();
    for v in fibonacci_u64() {
        t.add_sample(v).unwrap();
    }
    assert!(t.is_benford());
}

#[test]
fn short_fibonacci_sequence_shows_sample_size_sensitivity() {
    let mut t = BenfordTester::new();
    for v in fibonacci_u16() {
        t.add_sample(v).unwrap();
    }
    assert!(!t.is_benford());
    assert!(t.is_benford_with_alpha(Alpha::Point9));
}

#[test]
fn configured_confidence_level_drives_the_default_verdict() {
    let mut strict = BenfordTester::new();
    let mut lenient = BenfordTester::with_alpha(Alpha::Point9);
    for v in fibonacci_u16() {
        strict.add_sample(v).unwrap();
        lenient.add_sample(v).unwrap();
    }
    assert!(!strict.is_benford());
    assert!(lenient.is_benford());
}

#[test]
fn idealized_benford_counts_yield_a_statistic_near_zero() {
    let counts: [(Digit, u64); 9] = [
        (Digit::One, 100),
        (Digit::Two, 58),
        (Digit::Three, 41),
        (Digit::Four, 31),
        (Digit::Five, 25),
        (Digit::Six, 21),
        (Digit::Seven, 18),
        (Digit::Eight, 16),
        (Digit::Nine, 14),
    ];
    let mut t = BenfordTester::new();
    for (d, c) in counts {
        for _ in 0..c {
            t.add_digit(d);
        }
    }
    assert_eq!(324u64, t.counts().iter().sum::<u64>());
    // The statistic is carried in millionths: below 0.5, near zero.
    let chi = t.chi_squared_micro();
    assert!(chi < 500_000);
    assert!(t.is_benford());
}

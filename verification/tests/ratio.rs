use chatex_merchant::decimal::parse_decimal;
use chatex_merchant::gcd::gcd_u128;
use chatex_merchant::ratio::Ratio;

fn ratio(num: u64, den: u64) -> Ratio {
    Ratio::new(num, den).expect("denominator is not zero")
}

#[test]
fn gcd_of_known_pairs() {
    assert_eq!(gcd_u128(12, 18), 6);
    assert_eq!(gcd_u128(18, 12), 6);
    assert_eq!(gcd_u128(17, 5), 1);
    assert_eq!(gcd_u128(0, 9), 9);
    assert_eq!(gcd_u128(9, 0), 9);
    assert_eq!(gcd_u128(0, 0), 0);
    assert_eq!(gcd_u128(u128::MAX, u128::MAX), u128::MAX);
}

#[test]
fn new_reduces_to_lowest_terms() {
    let half = ratio(20, 40);
    assert_eq!(half.num(), 1);
    assert_eq!(half.den(), 2);
    assert_eq!(half, ratio(1, 2));
    assert_eq!(ratio(0, 7), Ratio::zero());
    assert_eq!(Ratio::zero().den(), 1);
}

#[test]
fn new_refuses_zero_denominator() {
    assert_eq!(Ratio::new(1, 0), None);
    assert_eq!(Ratio::new(0, 0), None);
}

#[test]
fn from_integer_has_denominator_one() {
    let seven = Ratio::from_integer(7);
    assert_eq!(seven.num(), 7);
    assert_eq!(seven.den(), 1);
    assert_eq!(Ratio::from_integer(u64::MAX).num(), u64::MAX);
}

#[test]
fn zero_and_positive() {
    assert!(Ratio::zero().is_zero());
    assert!(!Ratio::zero().is_positive());
    assert!(ratio(1, u64::MAX).is_positive());
    assert!(!ratio(1, u64::MAX).is_zero());
}

#[test]
fn reciprocal_swaps_and_refuses_zero() {
    assert_eq!(ratio(2, 1).reciprocal(), Some(ratio(1, 2)));
    assert_eq!(ratio(3, 7).reciprocal(), Some(ratio(7, 3)));
    assert_eq!(Ratio::zero().reciprocal(), None);
    assert_eq!(ratio(3, 7).inverse(), ratio(7, 3));
}

#[test]
fn reciprocal_of_reciprocal_gives_the_value_back() {
    for (n, d) in [(1u64, 2u64), (2, 1), (7, 3), (u64::MAX, 1), (1, u64::MAX), (12_345, 100_000)] {
        let r = ratio(n, d);
        assert_eq!(r.inverse().inverse(), r);
    }
}

#[test]
fn checked_mul_gives_exact_product() {
    assert_eq!(ratio(1, 2).checked_mul(&ratio(4, 1)), Some(ratio(2, 1)));
    assert_eq!(ratio(2, 3).checked_mul(&ratio(3, 4)), Some(ratio(1, 2)));
    assert_eq!(ratio(5, 7).checked_mul(&Ratio::zero()), Some(Ratio::zero()));
}

#[test]
fn checked_mul_reduces_before_it_gives_up() {
    // The plain products of numerators and of denominators overflow 64
    // bits; the product in lowest terms is 1.
    let big = ratio(u64::MAX, 1);
    let small = ratio(1, u64::MAX);
    assert_eq!(big.checked_mul(&small), Some(ratio(1, 1)));
}

#[test]
fn checked_mul_refuses_what_does_not_fit() {
    let big = ratio(u64::MAX, 1);
    assert_eq!(big.checked_mul(&ratio(2, 1)), None);
    let small = ratio(1, u64::MAX);
    assert_eq!(small.checked_mul(&ratio(1, 2)), None);
}

#[test]
fn checked_sub_gives_exact_difference() {
    assert_eq!(ratio(1, 2).checked_sub(&ratio(1, 3)), Some(ratio(1, 6)));
    assert_eq!(ratio(1, 2).checked_sub(&ratio(1, 2)), Some(Ratio::zero()));
    assert_eq!(ratio(1, 3).checked_sub(&ratio(1, 2)), None);
}

#[test]
fn less_than_orders_by_value() {
    assert!(ratio(1, 3).less_than(&ratio(1, 2)));
    assert!(!ratio(1, 2).less_than(&ratio(1, 3)));
    assert!(!ratio(1, 2).less_than(&ratio(2, 4)));
    assert!(ratio(u64::MAX - 1, u64::MAX).less_than(&ratio(1, 1)));
}

#[test]
fn same_compares_values() {
    assert!(ratio(1, 2).same(&ratio(3, 6)));
    assert!(!ratio(1, 2).same(&ratio(1, 3)));
}

#[test]
fn within_is_a_strict_bound_on_the_distance() {
    let eps = ratio(1, 20_000);
    let p = ratio(1, 2);
    // distance exactly epsilon: not within
    let at = ratio(10_001, 20_000);
    assert!(!p.within(&at, &eps));
    assert!(!at.within(&p, &eps));
    // a little less than epsilon: within
    let near = ratio(100_009, 200_000);
    assert!(p.within(&near, &eps));
    assert!(near.within(&p, &eps));
    // equal prices are within any tolerance above zero
    assert!(p.within(&p, &eps));
    // and within no tolerance of zero
    assert!(!p.within(&p, &Ratio::zero()));
}

#[test]
fn within_handles_the_largest_values() {
    let big = ratio(u64::MAX, 1);
    let next = ratio(u64::MAX - 1, 1);
    assert!(!big.within(&next, &ratio(1, 1)));
    assert!(big.within(&next, &ratio(u64::MAX, u64::MAX - 1)));
    let tiny = ratio(1, u64::MAX);
    let tinier = ratio(1, u64::MAX - 1);
    assert!(tiny.within(&tinier, &ratio(1, u64::MAX)));
    assert!(!tiny.within(&big, &ratio(u64::MAX - 1, 1)));
}

#[test]
fn parse_reads_plain_decimals() {
    assert_eq!(parse_decimal("0.5"), Some(ratio(1, 2)));
    assert_eq!(parse_decimal("4"), Some(ratio(4, 1)));
    assert_eq!(parse_decimal("4.0"), Some(ratio(4, 1)));
    assert_eq!(parse_decimal("2.50"), Some(ratio(5, 2)));
    assert_eq!(parse_decimal("0"), Some(Ratio::zero()));
    assert_eq!(parse_decimal("0.000"), Some(Ratio::zero()));
    assert_eq!(parse_decimal("0012.5"), Some(ratio(25, 2)));
    assert_eq!(parse_decimal("0.00005"), Some(ratio(1, 20_000)));
    assert_eq!(parse_decimal("123.456"), Some(ratio(123_456, 1_000)));
}

#[test]
fn parse_reads_a_point_at_either_end() {
    assert_eq!(parse_decimal(".5"), Some(ratio(1, 2)));
    assert_eq!(parse_decimal("5."), Some(ratio(5, 1)));
}

#[test]
fn parse_refuses_what_is_not_decimal() {
    for text in ["", ".", "abc", "1.2.3", "1..2", "-1", "+1", "1e5", "1,5", " 1", "1 ", "inf", "NaN", "0x10", "１"] {
        assert_eq!(parse_decimal(text), None, "{:?}", text);
    }
}

#[test]
fn parse_limits() {
    // the largest whole number of 64 bits
    assert_eq!(parse_decimal("18446744073709551615"), Some(ratio(u64::MAX, 1)));
    // one more does not fit
    assert_eq!(parse_decimal("18446744073709551616"), None);
    // 19 digits after the point are read
    assert_eq!(parse_decimal("0.0000000000000000001"), Some(ratio(1, 10_000_000_000_000_000_000)));
    // 20 are not
    assert_eq!(parse_decimal("0.00000000000000000001"), None);
    assert_eq!(parse_decimal("0.50000000000000000000"), None);
    // the digits count as one number, point or not
    assert_eq!(parse_decimal("1844674407370955161.6"), None);
    assert_eq!(parse_decimal("1844674407370955161.5"), Some(ratio(3_689_348_814_741_910_323, 2)));
}

use binomial_ci::decimal::SCALE;
use binomial_ci::Decimal;

fn units(d: Decimal) -> Option<i64> {
    match d {
        Decimal::Finite(units) => Some(units),
        Decimal::Nan => None,
    }
}

#[test]
fn one_is_a_billion_units() {
    assert_eq!(SCALE, 1_000_000_000);
    assert_eq!(units(Decimal::one()), Some(1_000_000_000));
    assert_eq!(units(Decimal::zero()), Some(0));
}

#[test]
fn sums_and_differences_are_exact() {
    let a = Decimal::Finite(1_500_000_000);
    let b = Decimal::Finite(-250_000_001);
    assert_eq!(units(a + b), Some(1_249_999_999));
    assert_eq!(units(a - b), Some(1_750_000_001));
}

#[test]
fn sums_beyond_the_range_are_not_numbers() {
    let top = Decimal::Finite(i64::MAX);
    let bottom = Decimal::Finite(i64::MIN);
    assert_eq!(units(top + Decimal::Finite(1)), None);
    assert_eq!(units(bottom - Decimal::Finite(1)), None);
    assert_eq!(units(top + Decimal::Finite(0)), Some(i64::MAX));
    assert_eq!(units(bottom + top), Some(-1));
}

#[test]
fn products_round_toward_zero() {
    let third = Decimal::Finite(333_333_333);
    assert_eq!(units(third * third), Some(111_111_110));
    assert_eq!(units(Decimal::Finite(-333_333_333) * third), Some(-111_111_110));
    assert_eq!(units(Decimal::Finite(1) * Decimal::Finite(999_999_999)), Some(0));
    assert_eq!(units(Decimal::Finite(-1) * Decimal::Finite(999_999_999)), Some(0));
    assert_eq!(units(Decimal::Finite(2_000_000_000) * Decimal::Finite(3_500_000_000)), Some(7_000_000_000));
}

#[test]
fn products_beyond_the_range_are_not_numbers() {
    let large = Decimal::Finite(4_000_000_000_000_000_000);
    assert_eq!(units(large * Decimal::Finite(3_000_000_000)), None);
    assert_eq!(units(large * Decimal::Finite(2_000_000_000)), Some(8_000_000_000_000_000_000));
    assert_eq!(units(Decimal::Finite(i64::MIN) * Decimal::Finite(i64::MIN)), None);
}

#[test]
fn ratios_round_toward_zero() {
    let one = Decimal::one();
    let three = Decimal::Finite(3_000_000_000);
    assert_eq!(units(one / three), Some(333_333_333));
    assert_eq!(units(Decimal::Finite(-1_000_000_000) / three), Some(-333_333_333));
    assert_eq!(units(one / Decimal::Finite(-3_000_000_000)), Some(-333_333_333));
    assert_eq!(units(Decimal::Finite(-2_000_000_000) / Decimal::Finite(-3_000_000_000)), Some(666_666_666));
    assert_eq!(units(Decimal::Finite(8_000_000_000) / Decimal::Finite(20_000_000_000)), Some(400_000_000));
}

#[test]
fn division_by_zero_is_not_a_number() {
    assert_eq!(units(Decimal::one() / Decimal::zero()), None);
    assert_eq!(units(Decimal::zero() / Decimal::zero()), None);
}

#[test]
fn ratios_beyond_the_range_are_not_numbers() {
    assert_eq!(units(Decimal::Finite(10_000_000_000) / Decimal::Finite(1)), None);
    assert_eq!(units(Decimal::Finite(9_000_000_000) / Decimal::Finite(1)), Some(9_000_000_000_000_000_000));
    assert_eq!(units(Decimal::Finite(i64::MIN) / Decimal::Finite(-1_000_000_000)), None);
}

#[test]
fn nan_is_handed_on() {
    let one = Decimal::one();
    assert_eq!(units(Decimal::Nan + one), None);
    assert_eq!(units(one - Decimal::Nan), None);
    assert_eq!(units(Decimal::Nan * one), None);
    assert_eq!(units(one / Decimal::Nan), None);
    assert_eq!(units(Decimal::Nan.sqrt()), None);
}

#[test]
fn square_roots_round_down() {
    assert_eq!(units(Decimal::Finite(4_000_000_000).sqrt()), Some(2_000_000_000));
    assert_eq!(units(Decimal::Finite(2_000_000_000).sqrt()), Some(1_414_213_562));
    assert_eq!(units(Decimal::Finite(250_000_000).sqrt()), Some(500_000_000));
    assert_eq!(units(Decimal::zero().sqrt()), Some(0));
    assert_eq!(units(Decimal::Finite(1).sqrt()), Some(31_622));
    assert_eq!(units(Decimal::Finite(i64::MAX).sqrt()), Some(96_038_388_349_944));
}

#[test]
fn negative_numbers_have_no_square_root() {
    assert_eq!(units(Decimal::Finite(-1).sqrt()), None);
    assert_eq!(units(Decimal::Finite(i64::MIN).sqrt()), None);
}

#[test]
fn max_and_min_pass_over_nan() {
    let low = Decimal::Finite(-5);
    let high = Decimal::Finite(7);
    assert_eq!(units(low.max(high)), Some(7));
    assert_eq!(units(high.max(low)), Some(7));
    assert_eq!(units(low.min(high)), Some(-5));
    assert_eq!(units(high.min(low)), Some(-5));
    assert_eq!(units(Decimal::Nan.max(high)), Some(7));
    assert_eq!(units(high.max(Decimal::Nan)), Some(7));
    assert_eq!(units(Decimal::Nan.min(low)), Some(-5));
    assert_eq!(units(low.min(Decimal::Nan)), Some(-5));
    assert_eq!(units(Decimal::Nan.max(Decimal::Nan)), None);
    assert_eq!(units(Decimal::Nan.min(Decimal::Nan)), None);
}

#[test]
fn numbers_compare_by_their_units() {
    let low = Decimal::Finite(-5);
    let high = Decimal::Finite(7);
    assert!(low < high);
    assert!(low <= high);
    assert!(high > low);
    assert!(high >= low);
    assert!(low <= low);
    assert!(low >= low);
    assert!(low == low);
    assert!(low != high);
    assert_eq!(low.partial_cmp(&high), Some(std::cmp::Ordering::Less));
    assert_eq!(high.partial_cmp(&low), Some(std::cmp::Ordering::Greater));
    assert_eq!(high.partial_cmp(&high), Some(std::cmp::Ordering::Equal));
}

#[test]
fn nan_compares_with_nothing() {
    let one = Decimal::one();
    assert!(!(Decimal::Nan < one));
    assert!(!(Decimal::Nan > one));
    assert!(!(Decimal::Nan <= one));
    assert!(!(Decimal::Nan >= one));
    assert!(!(one < Decimal::Nan));
    assert!(!(one >= Decimal::Nan));
    assert!(Decimal::Nan != Decimal::Nan);
    assert!(Decimal::Nan != one);
    assert_eq!(Decimal::Nan.partial_cmp(&one), None);
    assert_eq!(one.partial_cmp(&Decimal::Nan), None);
    assert_eq!(Decimal::Nan.partial_cmp(&Decimal::Nan), None);
}

#[test]
fn finiteness_is_reported() {
    assert!(Decimal::one().is_finite());
    assert!(!Decimal::one().is_nan());
    assert!(Decimal::Nan.is_nan());
    assert!(!Decimal::Nan.is_finite());
}

use std::cmp::Ordering;

use binomial_ci::{BoundedInterval, CenteredInterval, Decimal, Interval};

fn units(d: Decimal) -> Option<i64> {
    match d {
        Decimal::Finite(units) => Some(units),
        Decimal::Nan => None,
    }
}

fn centered(mean: i64, margin: i64) -> CenteredInterval {
    CenteredInterval { mean: Decimal::Finite(mean), margin: Decimal::Finite(margin) }
}

fn bounded(lower: i64, upper: i64) -> BoundedInterval {
    BoundedInterval { lower: Decimal::Finite(lower), upper: Decimal::Finite(upper) }
}

#[test]
fn centered_interval_reports_its_parts() {
    let interval = centered(500_000_000, 200_000_000);
    assert_eq!(units(interval.mean()), Some(500_000_000));
    assert_eq!(units(interval.margin()), Some(200_000_000));
    assert_eq!(units(interval.lower()), Some(300_000_000));
    assert_eq!(units(interval.upper()), Some(700_000_000));
    let (lower, upper) = interval.bounds();
    assert_eq!((units(lower), units(upper)), (Some(300_000_000), Some(700_000_000)));
}

#[test]
fn bounded_interval_reports_its_parts() {
    let interval = bounded(300_000_000, 700_000_000);
    assert_eq!(units(interval.mean()), Some(500_000_000));
    assert_eq!(units(interval.margin()), Some(200_000_000));
    assert_eq!(units(interval.lower()), Some(300_000_000));
    assert_eq!(units(interval.upper()), Some(700_000_000));
    let (lower, upper) = interval.bounds();
    assert_eq!((units(lower), units(upper)), (Some(300_000_000), Some(700_000_000)));
}

#[test]
fn bounded_interval_rounds_its_mean_toward_zero() {
    let interval = bounded(1, 4);
    assert_eq!(units(interval.mean()), Some(2));
    assert_eq!(units(interval.margin()), Some(1));
    let interval = bounded(-4, -1);
    assert_eq!(units(interval.mean()), Some(-2));
    assert_eq!(units(interval.margin()), Some(1));
}

#[test]
fn contains_includes_both_ends() {
    let interval = bounded(300_000_000, 700_000_000);
    assert!(interval.contains(Decimal::Finite(300_000_000)));
    assert!(interval.contains(Decimal::Finite(700_000_000)));
    assert!(interval.contains(Decimal::Finite(500_000_000)));
    assert!(!interval.contains(Decimal::Finite(299_999_999)));
    assert!(!interval.contains(Decimal::Finite(700_000_001)));
    assert!(!interval.contains(Decimal::Nan));
    let interval = centered(500_000_000, 200_000_000);
    assert!(interval.contains(Decimal::Finite(300_000_000)));
    assert!(interval.contains(Decimal::Finite(700_000_000)));
    assert!(!interval.contains(Decimal::Finite(299_999_999)));
    assert!(!interval.contains(Decimal::Finite(700_000_001)));
    assert!(!interval.contains(Decimal::Nan));
}

#[test]
fn conversion_to_bounds_and_back_is_lossless() {
    for (mean, margin) in [(500_000_000, 200_000_000), (1, 1), (-7, 3), (0, 0), (123_456_789, 987_654_321)] {
        let bounds = BoundedInterval::from(centered(mean, margin));
        assert_eq!(units(bounds.lower), Some(mean - margin));
        assert_eq!(units(bounds.upper), Some(mean + margin));
        let back = CenteredInterval::from(bounds);
        assert_eq!(units(back.mean), Some(mean));
        assert_eq!(units(back.margin), Some(margin));
    }
}

#[test]
fn conversion_from_bounds_halves_sum_and_difference() {
    let interval = CenteredInterval::from(bounded(218_803_968, 613_422_056));
    assert_eq!(units(interval.mean), Some(416_113_012));
    assert_eq!(units(interval.margin), Some(197_309_044));
}

#[test]
fn adding_a_number_shifts_the_interval() {
    let shifted = centered(500_000_000, 200_000_000) + Decimal::Finite(100_000_000);
    assert_eq!(units(shifted.mean), Some(600_000_000));
    assert_eq!(units(shifted.margin), Some(200_000_000));
    let shifted = bounded(300_000_000, 700_000_000) + Decimal::Finite(-100_000_000);
    assert_eq!(units(shifted.lower), Some(200_000_000));
    assert_eq!(units(shifted.upper), Some(600_000_000));
}

#[test]
fn multiplying_by_a_number_scales_the_interval() {
    let scaled = centered(500_000_000, 200_000_000) * Decimal::Finite(2_000_000_000);
    assert_eq!(units(scaled.mean), Some(1_000_000_000));
    assert_eq!(units(scaled.margin), Some(400_000_000));
    let scaled = bounded(300_000_000, 700_000_000) * Decimal::Finite(2_000_000_000);
    assert_eq!(units(scaled.lower), Some(600_000_000));
    assert_eq!(units(scaled.upper), Some(1_400_000_000));
}

#[test]
fn multiplying_by_a_negative_number_swaps_the_bounds() {
    let scaled = bounded(300_000_000, 700_000_000) * Decimal::Finite(-1_000_000_000);
    assert_eq!(units(scaled.lower), Some(-300_000_000));
    assert_eq!(units(scaled.upper), Some(-700_000_000));
    assert!(scaled.lower > scaled.upper);
}

#[test]
fn intervals_are_never_equal() {
    let a = centered(500_000_000, 200_000_000);
    let b = centered(500_000_000, 200_000_000);
    assert!(!(a == b));
    assert!(a != b);
    assert!(!(a == a));
    let c = bounded(300_000_000, 700_000_000);
    let d = bounded(300_000_000, 700_000_000);
    assert!(!(c == d));
    assert!(c != d);
    assert!(!(c == c));
}

#[test]
fn an_interval_never_equals_a_point() {
    let point = bounded(500_000_000, 500_000_000);
    assert!(!(point == Decimal::Finite(500_000_000)));
    assert!(point != Decimal::Finite(500_000_000));
    let point = centered(500_000_000, 0);
    assert!(!(point == Decimal::Finite(500_000_000)));
    assert!(point != Decimal::Finite(500_000_000));
}

#[test]
fn disjoint_intervals_are_ordered() {
    let low = bounded(100_000_000, 200_000_000);
    let high = bounded(200_000_001, 300_000_000);
    assert_eq!(low.partial_cmp(&high), Some(Ordering::Less));
    assert_eq!(high.partial_cmp(&low), Some(Ordering::Greater));
    assert!(low < high);
    assert!(high > low);
    let low = centered(150_000_000, 50_000_000);
    let high = centered(250_000_001, 50_000_000);
    assert_eq!(low.partial_cmp(&high), Some(Ordering::Less));
    assert_eq!(high.partial_cmp(&low), Some(Ordering::Greater));
    assert!(low < high);
    assert!(high > low);
}

#[test]
fn overlapping_intervals_are_not_ordered() {
    let a = bounded(100_000_000, 200_000_000);
    let touching = bounded(200_000_000, 300_000_000);
    let inside = bounded(120_000_000, 180_000_000);
    assert_eq!(a.partial_cmp(&touching), None);
    assert_eq!(touching.partial_cmp(&a), None);
    assert_eq!(a.partial_cmp(&inside), None);
    assert_eq!(inside.partial_cmp(&a), None);
    assert_eq!(a.partial_cmp(&a), None);
    assert!(!(a < touching) && !(a > touching) && !(a <= touching) && !(a >= touching));
    let a = centered(150_000_000, 50_000_000);
    let touching = centered(250_000_000, 50_000_000);
    assert_eq!(a.partial_cmp(&touching), None);
    assert_eq!(touching.partial_cmp(&a), None);
    assert_eq!(a.partial_cmp(&a), None);
}

#[test]
fn intervals_with_nan_are_not_ordered() {
    let a = bounded(100_000_000, 200_000_000);
    let broken = BoundedInterval { lower: Decimal::Nan, upper: Decimal::Nan };
    assert_eq!(a.partial_cmp(&broken), None);
    assert_eq!(broken.partial_cmp(&a), None);
}

#[test]
fn an_interval_is_ordered_against_a_point_outside_it() {
    let interval = bounded(100_000_000, 200_000_000);
    assert_eq!(interval.partial_cmp(&Decimal::Finite(200_000_001)), Some(Ordering::Less));
    assert_eq!(interval.partial_cmp(&Decimal::Finite(99_999_999)), Some(Ordering::Greater));
    assert_eq!(interval.partial_cmp(&Decimal::Finite(100_000_000)), None);
    assert_eq!(interval.partial_cmp(&Decimal::Finite(200_000_000)), None);
    assert_eq!(interval.partial_cmp(&Decimal::Finite(150_000_000)), None);
    assert_eq!(interval.partial_cmp(&Decimal::Nan), None);
    assert!(interval < Decimal::Finite(200_000_001));
    assert!(interval > Decimal::Finite(99_999_999));
    let interval = centered(150_000_000, 50_000_000);
    assert_eq!(interval.partial_cmp(&Decimal::Finite(200_000_001)), Some(Ordering::Less));
    assert_eq!(interval.partial_cmp(&Decimal::Finite(99_999_999)), Some(Ordering::Greater));
    assert_eq!(interval.partial_cmp(&Decimal::Finite(100_000_000)), None);
    assert_eq!(interval.partial_cmp(&Decimal::Finite(200_000_000)), None);
    assert_eq!(interval.partial_cmp(&Decimal::Nan), None);
}

#[test]
fn both_names_of_each_form_are_one_type() {
    let by_mean = binomial_ci::MeanMarginInterval {
        mean: Decimal::Finite(500_000_000),
        margin: Decimal::Finite(200_000_000),
    };
    let by_bounds: binomial_ci::LowerUpperInterval = BoundedInterval::from(by_mean);
    assert_eq!(units(by_bounds.lower), Some(300_000_000));
    assert_eq!(units(by_bounds.upper), Some(700_000_000));
}

#[test]
fn mean_and_margin_of_the_widest_interval_can_be_held() {
    let interval = bounded(i64::MIN, i64::MAX);
    assert_eq!(units(interval.mean()), Some(0));
    assert_eq!(units(interval.margin()), Some(i64::MAX));
    let interval = bounded(i64::MAX, i64::MAX);
    assert_eq!(units(interval.mean()), Some(i64::MAX));
    assert_eq!(units(interval.margin()), Some(0));
    let back = CenteredInterval::from(BoundedInterval::from(centered(i64::MAX - 5, 5)));
    assert_eq!(units(back.mean), Some(i64::MAX - 5));
    assert_eq!(units(back.margin), Some(5));
}

#[test]
fn bounds_beyond_the_range_are_not_numbers() {
    let bounds = BoundedInterval::from(centered(i64::MAX, 1));
    assert_eq!(units(bounds.lower), Some(i64::MAX - 1));
    assert_eq!(units(bounds.upper), None);
    assert_eq!(units(bounds.mean()), None);
}

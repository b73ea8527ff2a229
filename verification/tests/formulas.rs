use approx::AbsDiffEq;
use binomial_ci::{
    AgrestiCoull, Decimal, Interval, NSuccessesSample, PHatSample, ProportionSample, Sample, Wald,
    WilsonScore,
};

fn units(d: Decimal) -> Option<i64> {
    match d {
        Decimal::Finite(units) => Some(units),
        Decimal::Nan => None,
    }
}

fn value(d: Decimal) -> f64 {
    match d {
        Decimal::Finite(units) => units as f64 / 1e9,
        Decimal::Nan => f64::NAN,
    }
}

const Z_95: Decimal = Decimal::Finite(1_960_000_000);

#[test]
fn wald_is_centred_on_the_estimate() {
    let sample = NSuccessesSample::new(20, 8).unwrap();
    let interval = sample.wald(Z_95);
    assert_eq!(units(interval.mean), Some(400_000_000));
    assert_eq!(units(interval.margin), Some(214_707_242));
    assert_eq!(units(interval.lower()), Some(185_292_758));
    assert_eq!(units(interval.upper()), Some(614_707_242));
    // 1.96 * sqrt(0.4 * 0.6 / 20)
    assert!(value(interval.margin).abs_diff_eq(&0.2147072425420251, 1e-9));
}

#[test]
fn wald_rounds_each_step_toward_zero() {
    let sample = NSuccessesSample::new(30, 10).unwrap();
    let interval = sample.wald(Decimal::Finite(2_576_000_000));
    assert_eq!(units(interval.mean), Some(333_333_333));
    assert_eq!(units(interval.margin), Some(221_706_779));
}

#[test]
fn wald_at_a_z_score_of_zero_is_the_estimate() {
    for successes in 0..=20 {
        let sample = NSuccessesSample::new(20, successes).unwrap();
        let interval = sample.wald(Decimal::zero());
        assert_eq!(units(interval.margin), Some(0));
        assert_eq!(units(interval.mean), units(sample.p_hat()));
    }
    let sample = PHatSample::new(7_u32, Decimal::Finite(123_456_789)).unwrap();
    let interval = sample.wald(Decimal::zero());
    assert_eq!(units(interval.margin), Some(0));
    assert_eq!(units(interval.mean), Some(123_456_789));
}

#[test]
fn wald_of_no_trials_is_not_a_number() {
    let sample = PHatSample::new(0, Decimal::Finite(400_000_000)).unwrap();
    let interval = sample.wald(Z_95);
    assert_eq!(units(interval.mean), Some(400_000_000));
    assert!(interval.margin.is_nan());
    let interval = sample.wald(Decimal::zero());
    assert!(interval.margin.is_nan());
    let sample = PHatSample::new(20, Decimal::Finite(400_000_000)).unwrap();
    assert!(sample.wald(Decimal::Nan).margin.is_nan());
    assert!(sample.wald(Decimal::Finite(100_000_000_000_001)).margin.is_nan());
    assert!(sample.wald(Decimal::Finite(-100_000_000_000_000)).margin.is_finite());
}

#[test]
fn wald_at_a_negative_z_score_has_a_negative_margin() {
    let sample = NSuccessesSample::new(20, 8).unwrap();
    let interval = sample.wald(Decimal::Finite(-1_960_000_000));
    assert_eq!(units(interval.margin), Some(-214_707_242));
    assert!(interval.lower() > interval.upper());
}

#[test]
fn agresti_coull_is_wald_on_the_corrected_sample() {
    let sample = PHatSample::new(20, Decimal::Finite(400_000_000)).unwrap();
    let interval = sample.agresti_coull(Z_95);
    assert_eq!(units(interval.mean), Some(416_113_012));
    assert_eq!(units(interval.margin), Some(197_860_188));
    let corrected = ProportionSample::new(
        Decimal::Finite(23_841_600_000),
        sample.wilson_score(Z_95).mean,
    )
    .unwrap();
    let by_hand = corrected.wald(Z_95);
    assert_eq!(units(by_hand.mean), Some(416_113_012));
    assert_eq!(units(by_hand.margin), Some(197_860_188));
    // (8 + 1.96^2 / 2) / (20 + 1.96^2) and 1.96 * sqrt(p (1 - p) / (20 + 1.96^2))
    assert!(value(interval.mean).abs_diff_eq(&0.41611301254949334, 1e-9));
    assert!(value(interval.margin).abs_diff_eq(&0.19786018898284943, 1e-9));
}

#[test]
fn agresti_coull_is_the_same_for_every_kind_of_sample() {
    let by_count = NSuccessesSample::new(20, 10).unwrap().agresti_coull(Z_95);
    let by_proportion = PHatSample::new(20, Decimal::Finite(500_000_000)).unwrap().agresti_coull(Z_95);
    assert_eq!(units(by_count.mean), Some(500_000_000));
    assert_eq!(units(by_count.margin), Some(200_705_085));
    assert_eq!(units(by_proportion.mean), units(by_count.mean));
    assert_eq!(units(by_proportion.margin), units(by_count.margin));
}

#[test]
fn agresti_coull_takes_its_centre_from_the_counts() {
    let sample = NSuccessesSample::new(12_u32, 2_u32).unwrap();
    let interval = sample.agresti_coull(Decimal::Finite(2_000_000_000));
    assert_eq!(units(interval.mean), Some(250_000_000));
    assert_eq!(units(interval.margin), Some(216_506_350));
    assert!(value(interval.margin).abs_diff_eq(&0.21650635094610965, 1e-9));
    let sample = PHatSample::new(12, Decimal::Finite(250_000_000)).unwrap();
    let interval = sample.agresti_coull(Decimal::Finite(2_000_000_000));
    assert_eq!(units(interval.mean), Some(312_500_000));
    assert_eq!(units(interval.margin), Some(231_756_202));
}

#[test]
fn the_margins_keep_their_precision_for_large_samples() {
    let z = Decimal::Finite(1_960_000_000);
    let sample = PHatSample::new(1_000_000_000, Decimal::Finite(500_000_000)).unwrap();
    assert_eq!(units(sample.wald(z).margin), Some(30_990));
    assert_eq!(units(sample.agresti_coull(z).margin), Some(30_990));
    let sample = NSuccessesSample::new(1_000_000_000, 500_000_000).unwrap();
    assert_eq!(units(sample.wald(z).margin), Some(30_990));
    assert_eq!(units(sample.agresti_coull(z).mean), Some(500_000_000));
    assert_eq!(units(sample.agresti_coull(z).margin), Some(30_990));
    let sample = NSuccessesSample::new(4_000_000_000_u32, 2_000_000_000_u32).unwrap();
    assert_eq!(units(sample.wald(z).margin), Some(15_495));
}

#[test]
fn agresti_coull_of_no_trials_is_not_a_number() {
    let sample = NSuccessesSample::new(0_u32, 0_u32).unwrap();
    let interval = sample.agresti_coull(Z_95);
    assert!(interval.mean.is_nan());
    assert!(interval.margin.is_nan());
}

#[test]
fn every_estimate_has_its_mean_between_its_bounds() {
    for size in [1, 2, 5, 20, 1000, 1_000_000] {
        for successes in [0, 1, size / 3, size / 2, size - 1, size] {
            if successes < 0 || successes > size {
                continue;
            }
            let sample = NSuccessesSample::new(size, successes).unwrap();
            for z in [0, 1, 1_000_000_000, 1_960_000_000, 3_290_000_000] {
                let z = Decimal::Finite(z);
                let wald = sample.wald(z);
                assert!(wald.lower() <= wald.mean() && wald.mean() <= wald.upper());
                let wilson = sample.wilson_score(z);
                assert!(wilson.lower() <= wilson.mean() && wilson.mean() <= wilson.upper());
                let corrected = sample.wilson_score_with_cc(z);
                assert!(corrected.lower() <= corrected.mean());
                assert!(corrected.mean() <= corrected.upper());
                let agresti = sample.agresti_coull(z);
                assert!(agresti.lower() <= agresti.mean() && agresti.mean() <= agresti.upper());
            }
        }
    }
}

#[test]
fn a_real_sample_size_is_used_as_it_is() {
    let sample =
        ProportionSample::new(Decimal::Finite(20_000_000_000), Decimal::Finite(400_000_000)).unwrap();
    assert_eq!(units(sample.size()), Some(20_000_000_000));
    let interval = sample.wald(Z_95);
    assert_eq!(units(interval.margin), Some(214_707_242));
}

use binomial_ci::{
    Count, Decimal, Error, NSuccessesSample, PHatSample, Proportion, ProportionSample, Sample,
};

fn units(d: Decimal) -> Option<i64> {
    match d {
        Decimal::Finite(units) => Some(units),
        Decimal::Nan => None,
    }
}

fn message<T>(made: Result<T, Error>) -> String {
    match made {
        Ok(_) => panic!("the sample was accepted"),
        Err(Error::OutOfRange(message)) => message,
    }
}

#[test]
fn successes_within_the_size_are_accepted() {
    for successes in 0..=20 {
        let sample = NSuccessesSample::new(20, successes).unwrap();
        assert_eq!(sample.size(), 20);
        assert_eq!(units(sample.p_hat()), Some(successes as i64 * 50_000_000));
    }
    assert!(NSuccessesSample::new(0, 0).is_ok());
    assert!(NSuccessesSample::new(0_u32, 0_u32).is_ok());
    assert!(NSuccessesSample::new(u32::MAX, u32::MAX).is_ok());
    assert!(NSuccessesSample::new(i32::MAX, 0).is_ok());
}

#[test]
fn small_integers_count_trials_too() {
    assert_eq!(units(NSuccessesSample::new(20_u8, 8_u8).unwrap().p_hat()), Some(400_000_000));
    assert_eq!(units(NSuccessesSample::new(20_u16, 8_u16).unwrap().p_hat()), Some(400_000_000));
    assert_eq!(units(NSuccessesSample::new(20_i8, 8_i8).unwrap().p_hat()), Some(400_000_000));
    assert_eq!(units(NSuccessesSample::new(20_i16, 8_i16).unwrap().p_hat()), Some(400_000_000));
    assert_eq!(message(NSuccessesSample::new(-1_i8, 0_i8)), "size `-1` must be non-negative");
    assert_eq!(
        message(NSuccessesSample::new(5_i16, -2_i16)),
        "number of successes `-2` is out of range 0..=`5`"
    );
}

#[test]
fn a_negative_size_is_refused() {
    assert_eq!(message(NSuccessesSample::new(-1, 0)), "size `-1` must be non-negative");
    assert_eq!(message(NSuccessesSample::new(-20, -30)), "size `-20` must be non-negative");
    assert_eq!(
        message(NSuccessesSample::new(i32::MIN, 0)),
        "size `-2147483648` must be non-negative"
    );
    assert_eq!(
        message(PHatSample::new(-3, Decimal::Finite(500_000_000))),
        "size `-3` must be non-negative"
    );
    assert_eq!(
        message(ProportionSample::new(Decimal::Finite(-1), Decimal::Finite(2_000_000_000))),
        "size `-0.000000001` must be non-negative"
    );
}

#[test]
fn successes_outside_the_size_are_refused() {
    assert_eq!(
        message(NSuccessesSample::new(20, 21)),
        "number of successes `21` is out of range 0..=`20`"
    );
    assert_eq!(
        message(NSuccessesSample::new(20, -1)),
        "number of successes `-1` is out of range 0..=`20`"
    );
    assert_eq!(
        message(NSuccessesSample::new(0_u32, 1_u32)),
        "number of successes `1` is out of range 0..=`0`"
    );
    assert_eq!(
        message(NSuccessesSample::new(Decimal::Finite(1_500_000_000), Decimal::Finite(1_500_000_001))),
        "number of successes `1.500000001` is out of range 0..=`1.500000000`"
    );
}

#[test]
fn a_proportion_within_the_unit_range_is_accepted() {
    for proportion in [0, 1, 400_000_000, 999_999_999, 1_000_000_000] {
        let sample = PHatSample::new(20, Decimal::Finite(proportion)).unwrap();
        assert_eq!(sample.size(), 20);
        assert_eq!(units(sample.p_hat()), Some(proportion));
    }
    assert!(ProportionSample::new(0_u32, Decimal::zero()).is_ok());
}

#[test]
fn a_proportion_outside_the_unit_range_is_refused() {
    assert_eq!(
        message(PHatSample::new(20, Decimal::Finite(1_000_000_001))),
        "`1.000000001` is out of range 0..=1"
    );
    assert_eq!(
        message(PHatSample::new(20, Decimal::Finite(-1))),
        "`-0.000000001` is out of range 0..=1"
    );
    assert_eq!(
        message(ProportionSample::new(20_u32, Decimal::Finite(-12_345_000_000))),
        "`-12.345000000` is out of range 0..=1"
    );
}

#[test]
fn what_is_not_a_number_is_refused() {
    assert_eq!(message(PHatSample::new(20, Decimal::Nan)), "`NaN` is out of range 0..=1");
    assert_eq!(
        message(ProportionSample::new(Decimal::Nan, Decimal::Finite(500_000_000))),
        "size `NaN` must be non-negative"
    );
    assert_eq!(
        message(NSuccessesSample::new(Decimal::Nan, Decimal::Finite(1))),
        "size `NaN` must be non-negative"
    );
    assert_eq!(
        message(NSuccessesSample::new(Decimal::Finite(1), Decimal::Nan)),
        "number of successes `NaN` is out of range 0..=`0.000000001`"
    );
}

#[test]
fn the_estimate_of_no_trials_is_not_a_number() {
    let sample = NSuccessesSample::new(0, 0).unwrap();
    assert!(sample.p_hat().is_nan());
}

#[test]
fn the_estimate_is_successes_over_size() {
    let sample = NSuccessesSample::new(3, 1).unwrap();
    assert_eq!(units(sample.p_hat()), Some(333_333_333));
    let sample = NSuccessesSample::new(3_u32, 2_u32).unwrap();
    assert_eq!(units(sample.p_hat()), Some(666_666_666));
    let sample =
        NSuccessesSample::new(Decimal::Finite(2_500_000_000), Decimal::Finite(500_000_000)).unwrap();
    assert_eq!(units(sample.p_hat()), Some(200_000_000));
}

#[test]
fn a_sample_of_successes_converts_to_one_of_a_proportion() {
    let sample = ProportionSample::from(NSuccessesSample::new(20, 8).unwrap());
    assert_eq!(sample.size(), 20);
    assert_eq!(units(sample.p_hat()), Some(400_000_000));
}

#[test]
fn a_bare_proportion_within_the_unit_range_is_accepted() {
    for p_hat in [0, 400_000_000, 1_000_000_000] {
        match Proportion::<u32>::new_with_p_hat(Decimal::Finite(p_hat)) {
            Ok(Proportion::PHat { 0: held, .. }) => assert_eq!(units(held), Some(p_hat)),
            _ => panic!("the proportion was refused"),
        }
    }
}

#[test]
fn a_bare_proportion_outside_the_unit_range_is_refused() {
    assert_eq!(
        message(Proportion::<u32>::new_with_p_hat(Decimal::Finite(1_500_000_000))),
        "`1.500000000` is out of range `0..=1`"
    );
    assert_eq!(
        message(Proportion::<u32>::new_with_p_hat(Decimal::Finite(-1))),
        "`-0.000000001` is out of range `0..=1`"
    );
    assert_eq!(
        message(Proportion::<u32>::new_with_p_hat(Decimal::Nan)),
        "`NaN` is out of range `0..=1`"
    );
}

#[test]
fn a_proportion_resolves_to_a_point_estimate() {
    let by_count: Proportion<i32> = Proportion::NSuccesses(8);
    assert_eq!(units(by_count.p_hat(20)), Some(400_000_000));
    assert_eq!(units(by_count.p_hat(0)), None);
    let direct = Proportion::<i32>::new_with_p_hat(Decimal::Finite(250_000_000)).unwrap();
    assert_eq!(units(direct.p_hat(20)), Some(250_000_000));
}

#[test]
fn the_error_reports_its_message() {
    match NSuccessesSample::new(5, 6) {
        Ok(_) => panic!("the sample was accepted"),
        Err(error) => {
            assert_eq!(error.message(), "number of successes `6` is out of range 0..=`5`");
            assert_eq!(format!("{:?}", error), "OutOfRange(\"number of successes `6` is out of range 0..=`5`\")");
        }
    }
}

#[test]
fn counts_convert_to_real_numbers() {
    assert_eq!(units(20_i32.to_real()), Some(20_000_000_000));
    assert_eq!(units((-20_i32).to_real()), Some(-20_000_000_000));
    assert_eq!(units(i32::MIN.to_real()), Some(-2_147_483_648_000_000_000));
    assert_eq!(units(u32::MAX.to_real()), Some(4_294_967_295_000_000_000));
    assert_eq!(units(Decimal::Finite(7).to_real()), Some(7));
    assert_eq!(units(200_u8.to_real()), Some(200_000_000_000));
    assert_eq!(units((-100_i8).to_real()), Some(-100_000_000_000));
    assert_eq!(units(u16::MAX.to_real()), Some(65_535_000_000_000));
    assert_eq!(units(i16::MIN.to_real()), Some(-32_768_000_000_000));
    assert_eq!(<i8 as Count>::zero(), 0);
    assert_eq!(<i16 as Count>::zero(), 0);
    assert_eq!(<u8 as Count>::zero(), 0);
    assert_eq!(<u16 as Count>::zero(), 0);
    assert_eq!(<i32 as Count>::zero(), 0);
    assert_eq!(<u32 as Count>::zero(), 0);
    assert_eq!(units(<Decimal as Count>::zero()), Some(0));
}

#[test]
fn counts_are_quoted_in_decimal_notation() {
    assert_eq!(20_i32.render(), "20");
    assert_eq!((-7_i32).render(), "-7");
    assert_eq!(0_u32.render(), "0");
    assert_eq!(u32::MAX.render(), "4294967295");
    assert_eq!(Decimal::Finite(1_960_000_000).render(), "1.960000000");
}

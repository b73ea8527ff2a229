use binomial_ci::wide::Wide;

#[test]
fn small_products_have_no_high_half() {
    let w = Wide::product(6, 7);
    assert_eq!((w.high, w.low), (0, 42));
    let w = Wide::product(0, u128::MAX);
    assert_eq!((w.high, w.low), (0, 0));
    let w = Wide::product(u64::MAX as u128, u64::MAX as u128);
    assert_eq!((w.high, w.low), (0, 0xffff_ffff_ffff_fffe_0000_0000_0000_0001));
}

#[test]
fn large_products_are_held_in_full() {
    let w = Wide::product(u128::MAX, u128::MAX);
    assert_eq!((w.high, w.low), (u128::MAX - 1, 1));
    let w = Wide::product(1 << 64, 1 << 64);
    assert_eq!((w.high, w.low), (1, 0));
    let w = Wide::product(u128::MAX, 2);
    assert_eq!((w.high, w.low), (1, u128::MAX - 1));
    // 10^20 * 10^20 = 10^40 = 29 * 2^128 + 131811359292784559562136384478721867776
    let ten_20: u128 = 100_000_000_000_000_000_000;
    let w = Wide::product(ten_20, ten_20);
    assert_eq!((w.high, w.low), (29, 131_811_359_292_784_559_562_136_384_478_721_867_776));
}

#[test]
fn wide_numbers_compare_by_their_value() {
    let small = Wide::product(3, 5);
    let large = Wide::product(1 << 100, 1 << 100);
    assert!(small.at_most(&large));
    assert!(!large.at_most(&small));
    assert!(small.at_most(&small));
    let just_above = Wide { high: large.high, low: large.low + 1 };
    assert!(large.at_most(&just_above));
    assert!(!just_above.at_most(&large));
    let low_half_larger = Wide { high: 1, low: 0 };
    let high_half_larger = Wide { high: 0, low: u128::MAX };
    assert!(high_half_larger.at_most(&low_half_larger));
    assert!(!low_half_larger.at_most(&high_half_larger));
}

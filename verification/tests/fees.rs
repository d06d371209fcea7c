use nebula_exchange::fees::{
    percent_amount, platform_fee, royalty_amount, BASIS_POINT_SCALE, DECIMAL_FRACTIONAL,
    FLAT_DEDUCTION, PLATFORM_FEE_PERCENT,
};

#[test]
fn cw_math_platform_fee() {
    let payment: u128 = 1000000000000000000;
    let fee_amount = platform_fee(payment);

    assert_eq!(fee_amount, 30000000000000000);
}

#[test]
fn cw_math_royalties() {
    let payment: u128 = 1069000000000000000;
    let price: u128 = 1000000000000000000;
    let royalty = payment - price;
    let fee = platform_fee(price);
    assert_eq!(royalty, royalty_amount(price, 690));
    assert_eq!(royalty, 69000000000000000);
    assert_eq!(fee, 30000000000000000);
}

#[test]
fn royalty_is_rounded_down() {
    assert_eq!(royalty_amount(1_000_000, 100), 10_000);
    assert_eq!(royalty_amount(9_999, 1), 0);
    assert_eq!(royalty_amount(10_000, 1), 1);
    assert_eq!(royalty_amount(19_999, 1), 1);
    assert_eq!(royalty_amount(333, 3_333), 110);
}

#[test]
fn royalty_at_the_ends_of_the_range() {
    assert_eq!(royalty_amount(0, 690), 0);
    assert_eq!(royalty_amount(1_000_000, 0), 0);
    assert_eq!(royalty_amount(1_000_000, 10_000), 1_000_000);
    assert_eq!(royalty_amount(u128::MAX, 10_000), u128::MAX);
    assert_eq!(
        royalty_amount(u128::MAX, 5_000),
        170_141_183_460_469_231_731_687_303_715_884_105_727
    );
}

#[test]
fn platform_fee_is_three_percent_rounded_down() {
    assert_eq!(platform_fee(0), 0);
    assert_eq!(platform_fee(33), 0);
    assert_eq!(platform_fee(34), 1);
    assert_eq!(platform_fee(100), 3);
    assert_eq!(platform_fee(1_010_000), 30_300);
    assert_eq!(platform_fee(u128::MAX), 10_208_471_007_628_153_903_901_238_222_953_046_343);
}

#[test]
fn percent_amount_is_rounded_down() {
    assert_eq!(percent_amount(10_000, 100), 10_000);
    assert_eq!(percent_amount(10_000, 0), 0);
    assert_eq!(percent_amount(10_001, 50), 5_000);
    assert_eq!(percent_amount(199, 1), 1);
    assert_eq!(percent_amount(u128::MAX, 100), u128::MAX);
}

#[test]
fn the_constants_of_the_fee_schedule() {
    assert_eq!(PLATFORM_FEE_PERCENT, 3);
    assert_eq!(BASIS_POINT_SCALE, 10_000);
    assert_eq!(FLAT_DEDUCTION, 1_000_000);
    assert_eq!(DECIMAL_FRACTIONAL, 1_000_000_000_000_000_000);
}

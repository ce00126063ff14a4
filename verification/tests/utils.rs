use casper_delta_bot::Path;
use casper_delta_bot::PriceCalculator;
use casper_delta_bot::PriceData;
use casper_delta_bot::MIN_GAIN;

fn make_price_data(long_fair: u64, short_fair: u64) -> PriceData {
    // The USD price only feeds the per-USD counts, which gain estimation
    // never reads; venue prices equal fair prices here.
    PriceData::new(long_fair, short_fair, 50_000, long_fair, short_fair)
}

// Prices in millionths; a price of 500_000 is 0.5 native units per token.
// Gains in millionths of a native unit; 37_500_000 is 37.5 units.

#[test]
fn test_calculate_price_equal_reserves() {
    // Equal reserves: price = 1.0
    let price = PriceCalculator::calculate_price(1_000_000, 1_000_000);
    assert_eq!(price, 1_000_000);
}

#[test]
fn test_calculate_price_two_to_one() {
    // amount0 = 2 x amount1: price = 2.0
    let price = PriceCalculator::calculate_price(2_000_000, 1_000_000);
    assert_eq!(price, 2_000_000);
}

#[test]
fn test_calculate_price_half() {
    // amount0 = 0.5 x amount1: price = 0.5
    let price = PriceCalculator::calculate_price(500_000, 1_000_000);
    assert_eq!(price, 500_000);
}

#[test]
fn test_calculate_price_large_reserves() {
    // 2 x 10^18 / 10^18 = 2.0
    let price = PriceCalculator::calculate_price(2_000_000_000_000_000_000, 1_000_000_000_000_000_000);
    assert_eq!(price, 2_000_000);
}

#[test]
fn test_calculate_price_six_decimal_precision() {
    // 1_000_001 / 1_000_000 = 1.000001
    let price = PriceCalculator::calculate_price(1_000_001, 1_000_000);
    assert_eq!(price, 1_000_001);
}

#[test]
fn test_calc_gains_empty_path_returns_zero() {
    let data = make_price_data(500_000, 500_000);
    let gain = PriceCalculator::calc_gains_in_cspr(
        100_000_000_000,
        200_000_000_000,
        &data,
        Path::Empty,
    );
    assert_eq!(gain, 0);
}

#[test]
fn test_calc_gains_long_wcspr_short_profitable() {
    // in = 100 x 10^9 long-motes at 0.5: 50 x 10^9 native motes
    // out = 200 x 10^9 short-motes at 0.5: 100 x 10^9 native motes
    // gain = (100 - 50) - 12.5 = 37.5
    let data = make_price_data(500_000, 500_000);
    let gain = PriceCalculator::calc_gains_in_cspr(
        100_000_000_000,
        200_000_000_000,
        &data,
        Path::LongWcsprShort,
    );
    assert_eq!(gain, 37_500_000);
}

#[test]
fn test_calc_gains_short_wcspr_long_profitable() {
    // Symmetric to the long-first route with in = shorts, out = longs
    let data = make_price_data(500_000, 500_000);
    let gain = PriceCalculator::calc_gains_in_cspr(
        100_000_000_000,
        200_000_000_000,
        &data,
        Path::ShortWcsprLong,
    );
    assert_eq!(gain, 37_500_000);
}

#[test]
fn test_calc_gains_long_wcspr_uses_7_cspr_cost() {
    // in = 100 x 10^9 long-motes at 0.5: 50 x 10^9; out = 60 x 10^9 raw
    // wrapped motes; gain = (60 - 50) - 7 = 3.0
    let data = make_price_data(500_000, 500_000);
    let gain = PriceCalculator::calc_gains_in_cspr(
        100_000_000_000,
        60_000_000_000,
        &data,
        Path::LongWcspr,
    );
    assert_eq!(gain, 3_000_000);
}

#[test]
fn test_calc_gains_short_wcspr_uses_7_cspr_cost() {
    let data = make_price_data(500_000, 500_000);
    let gain = PriceCalculator::calc_gains_in_cspr(
        100_000_000_000,
        60_000_000_000,
        &data,
        Path::ShortWcspr,
    );
    assert_eq!(gain, 3_000_000);
}

#[test]
fn test_calc_gains_wcspr_long_profitable() {
    // in = 40 x 10^9 raw wrapped motes; out = 100 x 10^9 long-motes at
    // 0.5: 50 x 10^9; gain = (50 - 40) - 7 = 3.0
    let data = make_price_data(500_000, 500_000);
    let gain = PriceCalculator::calc_gains_in_cspr(
        40_000_000_000,
        100_000_000_000,
        &data,
        Path::WcsprLong,
    );
    assert_eq!(gain, 3_000_000);
}

#[test]
fn test_calc_gains_wcspr_short_profitable() {
    let data = make_price_data(500_000, 500_000);
    let gain = PriceCalculator::calc_gains_in_cspr(
        40_000_000_000,
        100_000_000_000,
        &data,
        Path::WcsprShort,
    );
    assert_eq!(gain, 3_000_000);
}

#[test]
fn test_calc_gains_multi_hop_costs_more_than_single_hop() {
    // With a short fair price of 1.0 the output leg converts one for one,
    // so the two routes move identical value and only the flat costs
    // differ: 12.5 against 7.0, a gap of exactly 5.5 native units.
    let data = make_price_data(500_000, 1_000_000);
    let multi_gain = PriceCalculator::calc_gains_in_cspr(
        100_000_000_000,
        200_000_000_000,
        &data,
        Path::LongWcsprShort,
    );
    let single_gain = PriceCalculator::calc_gains_in_cspr(
        100_000_000_000,
        200_000_000_000,
        &data,
        Path::LongWcspr,
    );
    assert_eq!(single_gain - multi_gain, 5_500_000);
}

#[test]
fn test_calc_gains_unprofitable_swap_is_negative() {
    // in = 100 x 10^9 at 0.5: 50 x 10^9; out = 50 x 10^9 raw wrapped
    // motes; gain = 0 - 7 = -7.0
    let data = make_price_data(500_000, 500_000);
    let gain = PriceCalculator::calc_gains_in_cspr(
        100_000_000_000,
        50_000_000_000,
        &data,
        Path::LongWcspr,
    );
    assert!(gain < 0);
}

#[test]
fn test_calc_gains_exactly_at_1_cspr_boundary() {
    // (58 - 50) - 7 = 1.0 exactly: actionable, since the profit gate only
    // skips gains strictly below 1.0
    let data = make_price_data(500_000, 500_000);
    let gain = PriceCalculator::calc_gains_in_cspr(
        100_000_000_000,
        58_000_000_000,
        &data,
        Path::LongWcspr,
    );
    assert_eq!(gain, 1_000_000);
    assert!(!(gain < MIN_GAIN as i128));
}

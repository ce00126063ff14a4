use casper_delta_bot::Path;
use casper_delta_bot::PriceData;

fn make_data(
    long_price: u64,
    short_price: u64,
    wcspr_price: u64,
    long_fair: u64,
    short_fair: u64,
) -> PriceData {
    PriceData::new(long_price, short_price, wcspr_price, long_fair, short_fair)
}

// Prices are in millionths of a native unit; diffs in thousandths of a
// percent; amounts in motes (10^9 per unit).

#[test]
fn test_long_overvalued_diff_is_positive() {
    // (110 / 100) * 100 - 100 = 10.0%
    let data = make_data(110_000_000, 50_000_000, 1_000_000, 100_000_000, 50_000_000);
    assert_eq!(data.long_diff, 10_000);
}

#[test]
fn test_long_undervalued_diff_is_negative() {
    // (90 / 100) * 100 - 100 = -10.0%
    let data = make_data(90_000_000, 50_000_000, 1_000_000, 100_000_000, 50_000_000);
    assert_eq!(data.long_diff, -10_000);
}

#[test]
fn test_long_at_parity_diff_is_zero() {
    let data = make_data(100_000_000, 50_000_000, 1_000_000, 100_000_000, 50_000_000);
    assert_eq!(data.long_diff, 0);
}

#[test]
fn test_short_overvalued_diff_is_positive() {
    // (55 / 50) * 100 - 100 = 10.0%
    let data = make_data(100_000_000, 55_000_000, 1_000_000, 100_000_000, 50_000_000);
    assert_eq!(data.short_diff, 10_000);
}

#[test]
fn test_short_undervalued_diff_is_negative() {
    // (45 / 50) * 100 - 100 = -10.0%
    let data = make_data(100_000_000, 45_000_000, 1_000_000, 100_000_000, 50_000_000);
    assert_eq!(data.short_diff, -10_000);
}

#[test]
fn test_longs_for_one_usd() {
    // wcspr = 0.05 USD per native unit, long fair = 0.1 native per token:
    // longs per USD = 1 / 0.05 / 0.1 = 200
    let data = make_data(100_000, 50_000, 50_000, 100_000, 50_000);
    assert_eq!(data.longs_for_one_usd, 200);
}

#[test]
fn test_shorts_for_one_usd() {
    // shorts per USD = 1 / 0.05 / 0.05 = 400
    let data = make_data(100_000, 50_000, 50_000, 100_000, 50_000);
    assert_eq!(data.shorts_for_one_usd, 400);
}

#[test]
fn test_wcspr_for_one_usd() {
    // 1 / 0.05 = 20 native units per USD
    let data = make_data(100_000, 50_000, 50_000, 100_000, 50_000);
    assert_eq!(data.wcspr_for_one_usd, 20);
}

#[test]
fn test_amount_per_one_usd_long_wcspr_short_uses_longs() {
    let data = make_data(100_000, 50_000, 50_000, 100_000, 50_000);
    let expected = data.longs_for_one_usd * 10u64.pow(9);
    assert_eq!(data.amount_per_one_usd(Path::LongWcsprShort), expected);
}

#[test]
fn test_amount_per_one_usd_short_wcspr_long_uses_shorts() {
    let data = make_data(100_000, 50_000, 50_000, 100_000, 50_000);
    let expected = data.shorts_for_one_usd * 10u64.pow(9);
    assert_eq!(data.amount_per_one_usd(Path::ShortWcsprLong), expected);
}

#[test]
fn test_amount_per_one_usd_long_wcspr_uses_longs() {
    let data = make_data(100_000, 50_000, 50_000, 100_000, 50_000);
    let expected = data.longs_for_one_usd * 10u64.pow(9);
    assert_eq!(data.amount_per_one_usd(Path::LongWcspr), expected);
}

#[test]
fn test_amount_per_one_usd_short_wcspr_uses_shorts() {
    let data = make_data(100_000, 50_000, 50_000, 100_000, 50_000);
    let expected = data.shorts_for_one_usd * 10u64.pow(9);
    assert_eq!(data.amount_per_one_usd(Path::ShortWcspr), expected);
}

#[test]
fn test_amount_per_one_usd_wcspr_long_uses_wcspr() {
    let data = make_data(100_000, 50_000, 50_000, 100_000, 50_000);
    let expected = data.wcspr_for_one_usd * 10u64.pow(9);
    assert_eq!(data.amount_per_one_usd(Path::WcsprLong), expected);
}

#[test]
fn test_amount_per_one_usd_wcspr_short_uses_wcspr() {
    let data = make_data(100_000, 50_000, 50_000, 100_000, 50_000);
    let expected = data.wcspr_for_one_usd * 10u64.pow(9);
    assert_eq!(data.amount_per_one_usd(Path::WcsprShort), expected);
}

#[test]
fn test_amount_per_one_usd_empty_is_zero() {
    let data = make_data(100_000_000, 50_000_000, 1_000_000, 100_000_000, 50_000_000);
    assert_eq!(data.amount_per_one_usd(Path::Empty), 0);
}

#[test]
fn test_amount_has_nine_decimal_places() {
    // wcspr = 1.0, long fair = 1.0: one long per USD, 10^9 motes
    let data = make_data(1_000_000, 1_000_000, 1_000_000, 1_000_000, 1_000_000);
    assert_eq!(data.amount_per_one_usd(Path::LongWcspr), 1_000_000_000);
}

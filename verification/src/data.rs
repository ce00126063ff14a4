use vstd::prelude::*;
use vstd::arithmetic::div_mod::lemma_div_nonincreasing;
use vstd::arithmetic::mul::lemma_mul_upper_bound;
use vstd::arithmetic::mul::lemma_mul_strictly_positive;
use crate::path::Path;

verus! {

/// Motes per whole unit of any asset: every amount in this crate is a mote
/// count, and 10^9 motes make one unit.
pub const MOTES_PER_UNIT: u64 = 1_000_000_000;

/// Prices are fixed-point values with six decimal places: a price of
/// `1_000_000` means one native-currency unit per token.
pub const PRICE_SCALE: u64 = 1_000_000;

/// Upper bound accepted for any price: 10^9 native-currency units per token,
/// in millionths. Keeps every product of an amount and a price inside i128.
pub const MAX_PRICE: u64 = 1_000_000_000_000_000;

/// Signed relative deviation of a market price from its fair price, in
/// thousandths of a percent, truncated toward zero. A market price 10% above
/// fair yields 10_000.
pub open spec fn price_diff_milli(price: u64, fair_price: u64) -> int
    recommends
        fair_price > 0,
{
    if price >= fair_price {
        (100_000 * (price - fair_price)) / (fair_price as int)
    } else {
        -((100_000 * (fair_price - price)) / (fair_price as int))
    }
}

/// Whole tokens one USD buys: 1 / usd-per-native / native-per-token, with
/// both prices in millionths, truncated to an integer token count.
pub open spec fn tokens_per_usd(wcspr_price: u64, fair_price: u64) -> int
    recommends
        wcspr_price > 0,
        fair_price > 0,
{
    1_000_000_000_000int / (wcspr_price * fair_price)
}

/// Whole native-currency units one USD buys, truncated to an integer.
pub open spec fn native_units_per_usd(wcspr_price: u64) -> int
    recommends
        wcspr_price > 0,
{
    (PRICE_SCALE as int) / (wcspr_price as int)
}

/// One cycle's normalized view of the market: venue prices, fair prices,
/// their deviations, and how many motes of each asset one USD buys.
#[derive(Debug)]
pub struct PriceData {
    /// Venue price of the long token, native units per token, in millionths.
    pub long_price: u64,
    /// Venue price of the short token, native units per token, in millionths.
    pub short_price: u64,
    /// USD price of the native currency, in millionths.
    pub wcspr_price: u64,
    /// Model-implied fair price of the long token, in millionths.
    pub long_fair_price: u64,
    /// Model-implied fair price of the short token, in millionths.
    pub short_fair_price: u64,
    /// Deviation of the long venue price from fair, thousandths of a percent.
    pub long_diff: i128,
    /// Deviation of the short venue price from fair, thousandths of a percent.
    pub short_diff: i128,
    /// Whole long tokens one USD buys.
    pub longs_for_one_usd: u64,
    /// Whole short tokens one USD buys.
    pub shorts_for_one_usd: u64,
    /// Whole native-currency units one USD buys.
    pub wcspr_for_one_usd: u64,
}

impl PriceData {
    /// Prices are in range, fair prices are strictly positive, and every
    /// derived field agrees with the raw prices.
    pub open spec fn wf(&self) -> bool {
        &&& 0 < self.long_fair_price <= MAX_PRICE
        &&& 0 < self.short_fair_price <= MAX_PRICE
        &&& 0 < self.wcspr_price <= MAX_PRICE
        &&& self.long_price <= MAX_PRICE
        &&& self.short_price <= MAX_PRICE
        &&& self.long_diff == price_diff_milli(self.long_price, self.long_fair_price)
        &&& self.short_diff == price_diff_milli(self.short_price, self.short_fair_price)
        &&& self.longs_for_one_usd == tokens_per_usd(self.wcspr_price, self.long_fair_price)
        &&& self.shorts_for_one_usd == tokens_per_usd(self.wcspr_price, self.short_fair_price)
        &&& self.wcspr_for_one_usd == native_units_per_usd(self.wcspr_price)
    }

    pub fn new(
        long_price: u64,
        short_price: u64,
        wcspr_price: u64,
        long_fair_price: u64,
        short_fair_price: u64,
    ) -> (r: PriceData)
        requires
            0 < long_fair_price <= MAX_PRICE,
            0 < short_fair_price <= MAX_PRICE,
            0 < wcspr_price <= MAX_PRICE,
            long_price <= MAX_PRICE,
            short_price <= MAX_PRICE,
        ensures
            r.long_price == long_price,
            r.short_price == short_price,
            r.wcspr_price == wcspr_price,
            r.long_fair_price == long_fair_price,
            r.short_fair_price == short_fair_price,
            r.wf(),
    {
        let long_diff: i128 = diff_milli(long_price, long_fair_price);
        let short_diff: i128 = diff_milli(short_price, short_fair_price);
        let longs_for_one_usd: u64 = whole_tokens_per_usd(wcspr_price, long_fair_price);
        let shorts_for_one_usd: u64 = whole_tokens_per_usd(wcspr_price, short_fair_price);
        let wcspr_for_one_usd: u64 = whole_native_units_per_usd(wcspr_price);

        PriceData {
            long_price,
            short_price,
            wcspr_price,
            long_fair_price,
            short_fair_price,
            long_diff,
            short_diff,
            longs_for_one_usd,
            shorts_for_one_usd,
            wcspr_for_one_usd,
        }
    }
}

/// Whole units of a route's input asset that one USD buys: routes that start
/// from the long or short token use that token's count, routes that start
/// from the wrapped native currency use the native count, and `Empty` buys
/// nothing.
pub open spec fn units_for_route(d: PriceData, path: Path) -> int {
    match path {
        Path::LongWcsprShort => d.longs_for_one_usd as int,
        Path::ShortWcsprLong => d.shorts_for_one_usd as int,
        Path::LongWcspr => d.longs_for_one_usd as int,
        Path::ShortWcspr => d.shorts_for_one_usd as int,
        Path::WcsprLong => d.wcspr_for_one_usd as int,
        Path::WcsprShort => d.wcspr_for_one_usd as int,
        Path::Empty => 0,
    }
}

impl PriceData {
    /// Motes of the route's input asset worth one USD: the whole-unit count
    /// scaled by `MOTES_PER_UNIT`; zero for `Empty`.
    pub fn amount_per_one_usd(&self, path: Path) -> (r: u64)
        requires
            units_for_route(*self, path) * MOTES_PER_UNIT <= u64::MAX,
        ensures
            r == units_for_route(*self, path) * MOTES_PER_UNIT,
            path == Path::Empty ==> r == 0,
    {
        match path {
            Path::LongWcsprShort => self.longs_amount_per_usd(),
            Path::ShortWcsprLong => self.shorts_amount_per_usd(),
            Path::LongWcspr => self.longs_amount_per_usd(),
            Path::ShortWcspr => self.shorts_amount_per_usd(),
            Path::WcsprLong => self.wcspr_amount_per_usd(),
            Path::WcsprShort => self.wcspr_amount_per_usd(),
            Path::Empty => 0,
        }
    }

    fn longs_amount_per_usd(&self) -> (r: u64)
        requires
            self.longs_for_one_usd * MOTES_PER_UNIT <= u64::MAX,
        ensures
            r == self.longs_for_one_usd * MOTES_PER_UNIT,
    {
        self.longs_for_one_usd * MOTES_PER_UNIT
    }

    fn shorts_amount_per_usd(&self) -> (r: u64)
        requires
            self.shorts_for_one_usd * MOTES_PER_UNIT <= u64::MAX,
        ensures
            r == self.shorts_for_one_usd * MOTES_PER_UNIT,
    {
        self.shorts_for_one_usd * MOTES_PER_UNIT
    }

    fn wcspr_amount_per_usd(&self) -> (r: u64)
        requires
            self.wcspr_for_one_usd * MOTES_PER_UNIT <= u64::MAX,
        ensures
            r == self.wcspr_for_one_usd * MOTES_PER_UNIT,
    {
        self.wcspr_for_one_usd * MOTES_PER_UNIT
    }
}

/// Computes `price_diff_milli` on mote-range prices.
fn diff_milli(price: u64, fair_price: u64) -> (r: i128)
    requires
        fair_price > 0,
    ensures
        r == price_diff_milli(price, fair_price),
{
    if price >= fair_price {
        let num: u128 = 100_000u128 * ((price - fair_price) as u128);
        let q: u128 = num / (fair_price as u128);
        proof {
            lemma_div_nonincreasing(num as int, fair_price as int);
        }
        q as i128
    } else {
        let num: u128 = 100_000u128 * ((fair_price - price) as u128);
        let q: u128 = num / (fair_price as u128);
        proof {
            lemma_div_nonincreasing(num as int, fair_price as int);
        }
        -(q as i128)
    }
}

/// Computes `tokens_per_usd` on positive prices.
fn whole_tokens_per_usd(wcspr_price: u64, fair_price: u64) -> (r: u64)
    requires
        wcspr_price > 0,
        fair_price > 0,
    ensures
        r == tokens_per_usd(wcspr_price, fair_price),
{
    proof {
        lemma_mul_upper_bound(
            wcspr_price as int,
            u64::MAX as int,
            fair_price as int,
            u64::MAX as int,
        );
        lemma_mul_strictly_positive(wcspr_price as int, fair_price as int);
    }
    let denom: u128 = (wcspr_price as u128) * (fair_price as u128);
    let q: u128 = 1_000_000_000_000u128 / denom;
    proof {
        lemma_div_nonincreasing(1_000_000_000_000, denom as int);
    }
    q as u64
}

/// Computes `native_units_per_usd` on a positive price.
fn whole_native_units_per_usd(wcspr_price: u64) -> (r: u64)
    requires
        wcspr_price > 0,
    ensures
        r == native_units_per_usd(wcspr_price),
{
    PRICE_SCALE / wcspr_price
}

} // verus!

use vstd::prelude::*;
use vstd::arithmetic::mul::lemma_mul_upper_bound;
use crate::data::PriceData;
use crate::data::MAX_PRICE;
use crate::data::MOTES_PER_UNIT;
use crate::data::PRICE_SCALE;
use crate::path::Asset;
use crate::path::Path;
use crate::path::route_assets;

verus! {

/// Estimated cost of a three-leg swap, in millionths of a native unit: 12.5.
pub const MULTI_HOP_COST: u64 = 12_500_000;

/// Estimated cost of a two-leg swap, in millionths of a native unit: 7.0.
pub const SINGLE_HOP_COST: u64 = 7_000_000;

/// The flat transaction cost charged against a route's estimated gain.
pub open spec fn transaction_cost(path: Path) -> int {
    if path == Path::LongWcsprShort || path == Path::ShortWcsprLong {
        MULTI_HOP_COST as int
    } else {
        SINGLE_HOP_COST as int
    }
}

/// Value of an amount of one asset in native-currency terms, scaled so one
/// mote of the native currency counts `PRICE_SCALE`: position tokens convert
/// at their fair price, native motes pass through unconverted.
pub open spec fn leg_value(amount: u64, d: PriceData, asset: Asset) -> int {
    match asset {
        Asset::Long => amount * d.long_fair_price,
        Asset::Short => amount * d.short_fair_price,
        Asset::Wcspr => amount * PRICE_SCALE,
    }
}

/// The asset a route spends.
pub open spec fn input_asset(path: Path) -> Asset
    recommends
        path != Path::Empty,
{
    route_assets(path)[0]
}

/// The asset a route receives.
pub open spec fn output_asset(path: Path) -> Asset
    recommends
        path != Path::Empty,
{
    route_assets(path).last()
}

/// Net profit of swapping `amount_in` for `amount_out` along `path`, in
/// millionths of a native unit: both legs valued at fair prices, the
/// difference taken per whole native unit (rounded down), and the flat
/// transaction cost subtracted. `Empty` always estimates zero.
pub open spec fn gain_micro(amount_in: u64, amount_out: u64, d: PriceData, path: Path) -> int {
    if path == Path::Empty {
        0
    } else {
        let net = leg_value(amount_out, d, output_asset(path)) - leg_value(
            amount_in,
            d,
            input_asset(path),
        );
        net / (MOTES_PER_UNIT as int) - transaction_cost(path)
    }
}

/// Price computations that need no venue connection: turning a pair's
/// reserves into a quote and estimating what a swap would net.
pub struct PriceCalculator;

impl PriceCalculator {
    /// Price of the asset backing `amount1` in terms of the asset backing
    /// `amount0`, in millionths, truncated to six decimal places.
    pub fn calculate_price(amount0: u128, amount1: u128) -> (p: u64)
        requires
            amount1 > 0,
            amount0 * 1_000_000 <= u128::MAX,
            amount0 * 1_000_000 / (amount1 as int) <= u64::MAX,
        ensures
            p == amount0 * 1_000_000 / (amount1 as int),
    {
        let scaled: u128 = amount0 * 1_000_000;
        (scaled / amount1) as u64
    }

    /// Computes `gain_micro` exactly. A reading of 37_500_000 means an
    /// estimated profit of 37.5 native units.
    pub fn calc_gains_in_cspr(
        amount_in: u64,
        amount_out: u64,
        price_data: &PriceData,
        path: Path,
    ) -> (g: i128)
        requires
            price_data.wf(),
        ensures
            g == gain_micro(amount_in, amount_out, *price_data, path),
            path == Path::Empty ==> g == 0,
    {
        let cost: i128 = if path.is_multi_hop() {
            MULTI_HOP_COST as i128
        } else {
            SINGLE_HOP_COST as i128
        };
        let in_price: u64;
        let out_price: u64;
        match path {
            Path::LongWcsprShort => {
                in_price = price_data.long_fair_price;
                out_price = price_data.short_fair_price;
            },
            Path::ShortWcsprLong => {
                in_price = price_data.short_fair_price;
                out_price = price_data.long_fair_price;
            },
            Path::LongWcspr => {
                in_price = price_data.long_fair_price;
                out_price = PRICE_SCALE;
            },
            Path::ShortWcspr => {
                in_price = price_data.short_fair_price;
                out_price = PRICE_SCALE;
            },
            Path::WcsprLong => {
                in_price = PRICE_SCALE;
                out_price = price_data.long_fair_price;
            },
            Path::WcsprShort => {
                in_price = PRICE_SCALE;
                out_price = price_data.short_fair_price;
            },
            Path::Empty => {
                return 0;
            },
        }
        proof {
            lemma_mul_upper_bound(
                amount_in as int,
                u64::MAX as int,
                in_price as int,
                MAX_PRICE as int,
            );
            lemma_mul_upper_bound(
                amount_out as int,
                u64::MAX as int,
                out_price as int,
                MAX_PRICE as int,
            );
        }
        let in_value: u128 = (amount_in as u128) * (in_price as u128);
        let out_value: u128 = (amount_out as u128) * (out_price as u128);
        let whole_units: i128 = if out_value >= in_value {
            ((out_value - in_value) / (MOTES_PER_UNIT as u128)) as i128
        } else {
            let deficit: u128 = in_value - out_value;
            let rounded_up: u128 = (deficit + ((MOTES_PER_UNIT - 1) as u128)) / (
            MOTES_PER_UNIT as u128);
            proof {
                lemma_ceil_negates_floor(deficit as int, MOTES_PER_UNIT as int);
            }
            -(rounded_up as i128)
        };
        whole_units - cost
    }
}

/// For a positive numerator and divisor, dividing the negated numerator
/// rounds toward minus infinity exactly as negating the rounded-up quotient.
proof fn lemma_ceil_negates_floor(x: int, c: int)
    requires
        x > 0,
        c > 0,
    ensures
        (-x) / c == -((x + c - 1) / c),
{
    let q = x / c;
    let r = x % c;
    vstd::arithmetic::div_mod::lemma_fundamental_div_mod(x, c);
    if r == 0 {
        assert(x + c - 1 == q * c + (c - 1)) by (nonlinear_arith)
            requires
                x == c * q + r,
                r == 0,
        ;
        vstd::arithmetic::div_mod::lemma_fundamental_div_mod_converse_div(x + c - 1, c, q, c - 1);
        assert(-x == (-q) * c + 0) by (nonlinear_arith)
            requires
                x == c * q + r,
                r == 0,
        ;
        vstd::arithmetic::div_mod::lemma_fundamental_div_mod_converse_div(-x, c, -q, 0);
    } else {
        assert(x + c - 1 == (q + 1) * c + (r - 1)) by (nonlinear_arith)
            requires
                x == c * q + r,
        ;
        vstd::arithmetic::div_mod::lemma_fundamental_div_mod_converse_div(x + c - 1, c, q + 1, r - 1);
        assert(-x == (-(q + 1)) * c + (c - r)) by (nonlinear_arith)
            requires
                x == c * q + r,
        ;
        vstd::arithmetic::div_mod::lemma_fundamental_div_mod_converse_div(-x, c, -(q + 1), c - r);
    }
}

/// An `Empty` route estimates a gain of exactly zero, whatever the amounts
/// and prices say.
pub proof fn lemma_empty_route_gains_nothing(amount_in: u64, amount_out: u64, d: PriceData)
    ensures
        gain_micro(amount_in, amount_out, d, Path::Empty) == 0,
{
}

/// A three-leg route always charges 12.5 native units against the estimate
/// and a two-leg route 7.0, so when the two routes move the same value in
/// and out, the three-leg estimate is exactly 5.5 native units lower.
pub proof fn lemma_multi_hop_costs_more(
    amount_in: u64,
    amount_out: u64,
    d: PriceData,
    multi: Path,
    single: Path,
)
    requires
        multi == Path::LongWcsprShort || multi == Path::ShortWcsprLong,
        single == Path::LongWcspr || single == Path::ShortWcspr || single == Path::WcsprLong
            || single == Path::WcsprShort,
        leg_value(amount_in, d, input_asset(multi)) == leg_value(amount_in, d, input_asset(single)),
        leg_value(amount_out, d, output_asset(multi)) == leg_value(
            amount_out,
            d,
            output_asset(single),
        ),
    ensures
        gain_micro(amount_in, amount_out, d, multi) == gain_micro(amount_in, amount_out, d, single)
            - 5_500_000,
{
}

} // verus!

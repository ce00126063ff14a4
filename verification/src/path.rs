use vstd::prelude::*;
use vstd::arithmetic::mul::lemma_mul_upper_bound;
use crate::data::PriceData;

verus! {

/// Deviation a price must exceed before a route fires, in thousandths of a
/// percent: 2.5%.
pub const DIFF_THRESHOLD: u64 = 2_500;

/// The assets a swap route passes through, in venue terms: the long position
/// token, the short position token, and the wrapped native currency.
#[derive(Debug, PartialEq, Eq, Structural, Clone, Copy)]
pub enum Asset {
    Long,
    Wcspr,
    Short,
}

/// A swap route: three-leg routes trade one position token for the other
/// through the wrapped native currency, two-leg routes trade a position
/// token against it directly, and `Empty` means no opportunity.
#[derive(Debug, PartialEq, Eq, Structural, Clone, Copy)]
pub enum Path {
    LongWcsprShort,
    ShortWcsprLong,
    LongWcspr,
    ShortWcspr,
    WcsprLong,
    WcsprShort,
    Empty,
}

/// Whether a venue price deviates from its fair price by strictly more than
/// `DIFF_THRESHOLD`: |price/fair - 1| > 2.5%, compared exactly.
pub open spec fn diff_exceeds_threshold(price: u64, fair_price: u64) -> bool {
    if price >= fair_price {
        100_000 * (price - fair_price) > DIFF_THRESHOLD * fair_price
    } else {
        100_000 * (fair_price - price) > DIFF_THRESHOLD * fair_price
    }
}

/// The route selection decision table. Checked in order, first match wins:
/// the paired three-leg routes come first, then the single-hop routes for an
/// overvalued long, an overvalued short, an undervalued long and an
/// undervalued short. When both tokens deviate with the same sign, the
/// paired rules cannot fire and the long token's single-hop rule is reached
/// first, so the long side shadows the short side.
pub open spec fn select_route(d: PriceData) -> Path {
    let long_over = d.long_price > d.long_fair_price;
    let long_under = d.long_price < d.long_fair_price;
    let short_over = d.short_price > d.short_fair_price;
    let short_under = d.short_price < d.short_fair_price;
    let long_sig = diff_exceeds_threshold(d.long_price, d.long_fair_price);
    let short_sig = diff_exceeds_threshold(d.short_price, d.short_fair_price);
    if long_over && short_under && long_sig && short_sig {
        Path::LongWcsprShort
    } else if short_over && long_under && long_sig && short_sig {
        Path::ShortWcsprLong
    } else if long_over && long_sig {
        Path::LongWcspr
    } else if short_over && short_sig {
        Path::ShortWcspr
    } else if long_under && long_sig {
        Path::WcsprLong
    } else if short_under && short_sig {
        Path::WcsprShort
    } else {
        Path::Empty
    }
}

/// The ordered assets a route passes through; `Empty` has none.
pub open spec fn route_assets(p: Path) -> Seq<Asset> {
    match p {
        Path::LongWcsprShort => seq![Asset::Long, Asset::Wcspr, Asset::Short],
        Path::ShortWcsprLong => seq![Asset::Short, Asset::Wcspr, Asset::Long],
        Path::LongWcspr => seq![Asset::Long, Asset::Wcspr],
        Path::ShortWcspr => seq![Asset::Short, Asset::Wcspr],
        Path::WcsprLong => seq![Asset::Wcspr, Asset::Long],
        Path::WcsprShort => seq![Asset::Wcspr, Asset::Short],
        Path::Empty => seq![],
    }
}

impl From<&PriceData> for Path {
    fn from(data: &PriceData) -> (r: Path) {
        Path::calc(data)
    }
}

impl vstd::std_specs::convert::FromSpecImpl<&PriceData> for Path {
    open spec fn obeys_from_spec() -> bool {
        true
    }

    open spec fn from_spec(data: &PriceData) -> Path {
        select_route(*data)
    }
}

impl Path {
    /// Picks the route for a snapshot, exactly as `select_route` states.
    pub fn calc(data: &PriceData) -> (r: Path)
        ensures
            r == select_route(*data),
    {
        let long_sig = exceeds_threshold(data.long_price, data.long_fair_price);
        let short_sig = exceeds_threshold(data.short_price, data.short_fair_price);
        let long_over = data.long_price > data.long_fair_price;
        let long_under = data.long_price < data.long_fair_price;
        let short_over = data.short_price > data.short_fair_price;
        let short_under = data.short_price < data.short_fair_price;
        if long_over && short_under && long_sig && short_sig {
            Path::LongWcsprShort
        } else if short_over && long_under && long_sig && short_sig {
            Path::ShortWcsprLong
        } else if long_over && long_sig {
            Path::LongWcspr
        } else if short_over && short_sig {
            Path::ShortWcspr
        } else if long_under && long_sig {
            Path::WcsprLong
        } else if short_under && short_sig {
            Path::WcsprShort
        } else {
            Path::Empty
        }
    }

    /// The ordered asset legs of this route, for handing to the venue.
    pub fn build(&self) -> (r: Vec<Asset>)
        ensures
            r@ == route_assets(*self),
    {
        let r: Vec<Asset> = match self {
            Path::LongWcsprShort => vec![Asset::Long, Asset::Wcspr, Asset::Short],
            Path::ShortWcsprLong => vec![Asset::Short, Asset::Wcspr, Asset::Long],
            Path::LongWcspr => vec![Asset::Long, Asset::Wcspr],
            Path::ShortWcspr => vec![Asset::Short, Asset::Wcspr],
            Path::WcsprLong => vec![Asset::Wcspr, Asset::Long],
            Path::WcsprShort => vec![Asset::Wcspr, Asset::Short],
            Path::Empty => Vec::new(),
        };
        proof {
            assert(r@ =~= route_assets(*self));
        }
        r
    }

    /// Whether this route has three legs.
    pub fn is_multi_hop(&self) -> (r: bool)
        ensures
            r == (*self == Path::LongWcsprShort || *self == Path::ShortWcsprLong),
            r == (route_assets(*self).len() == 3),
    {
        matches!(self, Path::LongWcsprShort | Path::ShortWcsprLong)
    }
}

/// Computes `diff_exceeds_threshold` exactly.
fn exceeds_threshold(price: u64, fair_price: u64) -> (r: bool)
    ensures
        r == diff_exceeds_threshold(price, fair_price),
{
    proof {
        lemma_mul_upper_bound(
            DIFF_THRESHOLD as int,
            DIFF_THRESHOLD as int,
            fair_price as int,
            u64::MAX as int,
        );
    }
    let bound: u128 = (DIFF_THRESHOLD as u128) * (fair_price as u128);
    if price >= fair_price {
        100_000u128 * ((price - fair_price) as u128) > bound
    } else {
        100_000u128 * ((fair_price - price) as u128) > bound
    }
}

/// Route selection is total: whatever the snapshot says, it yields one of
/// the seven routes, `Empty` included.
pub proof fn lemma_select_route_total(d: PriceData)
    ensures
        select_route(d) is LongWcsprShort || select_route(d) is ShortWcsprLong || select_route(d)
            is LongWcspr || select_route(d) is ShortWcspr || select_route(d) is WcsprLong
            || select_route(d) is WcsprShort || select_route(d) is Empty,
{
}

/// Route selection is pure: it reads only the venue and fair prices, so two
/// snapshots that agree on them select the same route.
pub proof fn lemma_select_route_pure(d1: PriceData, d2: PriceData)
    requires
        d1.long_price == d2.long_price,
        d1.short_price == d2.short_price,
        d1.long_fair_price == d2.long_fair_price,
        d1.short_fair_price == d2.short_fair_price,
    ensures
        select_route(d1) == select_route(d2),
{
}

/// Every route moves value the right way: a route that sells a position
/// token is only chosen when that token is overvalued, and a route that
/// buys one only when that token is undervalued.
pub proof fn lemma_select_route_matches_deviation(d: PriceData)
    ensures
        select_route(d) == Path::LongWcsprShort ==> d.long_price > d.long_fair_price
            && d.short_price < d.short_fair_price,
        select_route(d) == Path::ShortWcsprLong ==> d.short_price > d.short_fair_price
            && d.long_price < d.long_fair_price,
        select_route(d) == Path::LongWcspr ==> d.long_price > d.long_fair_price,
        select_route(d) == Path::ShortWcspr ==> d.short_price > d.short_fair_price,
        select_route(d) == Path::WcsprLong ==> d.long_price < d.long_fair_price,
        select_route(d) == Path::WcsprShort ==> d.short_price < d.short_fair_price,
{
}

} // verus!

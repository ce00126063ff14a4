use vstd::prelude::*;
use vstd::arithmetic::div_mod::lemma_div_nonincreasing;
use vstd::arithmetic::mul::lemma_mul_upper_bound;
use crate::data::PriceData;
use crate::data::MAX_PRICE;
use crate::path::Path;

verus! {

/// Motes converted in one top-up: 2_000 native units.
pub const TOP_UP_AMOUNT: u64 = 2_000_000_000_000;

/// Below this native balance, in motes, the bot unwraps: 100 native units.
pub const MIN_CSPR_BALANCE: u64 = 100_000_000_000;

/// Below this wrapped balance, in motes, the bot sells a position token:
/// 1_500 native units.
pub const MIN_WCSPR_BALANCE: u64 = 1_500_000_000_000;

/// Motes unwrapped or bought back in one rebalancing step: 1_500 native
/// units.
pub const UNWRAP_AMOUNT: u64 = 1_500_000_000_000;

/// Slippage buffer applied to a sale's input bound, in millionths: 1.05.
pub const SLIPPAGE_FACTOR: u64 = 1_050_000;

/// What can go wrong while provisioning or executing a trade.
#[derive(Debug, PartialEq, Eq, Structural, Clone, Copy)]
pub enum BotError {
    /// The native balance is too low to wrap a top-up quantum.
    InsufficientFunds,
    /// The venue answered a swap or quote with a malformed amount list.
    InvalidSwapResult,
    /// A collaborator call failed for reasons of its own.
    Capability,
}

impl BotError {
    /// A short description of the error.
    pub fn message(&self) -> (s: &'static str)
        ensures
            *self == BotError::InsufficientFunds ==> s@ == "Not enough cspr to wrap"@,
            *self == BotError::InvalidSwapResult ==> s@ == "Invalid swap result"@,
            *self == BotError::Capability ==> s@ == "Capability call failed"@,
    {
        match self {
            BotError::InsufficientFunds => "Not enough cspr to wrap",
            BotError::InvalidSwapResult => "Invalid swap result",
            BotError::Capability => "Capability call failed",
        }
    }
}

/// Read access to the wallet's four balances, all in motes. Each call is a
/// fresh query against the venue, so nothing is promised about the values
/// two calls return.
pub trait Balances {
    fn my_cspr_balance(&self) -> Result<u64, BotError>;

    fn my_wcspr_balance(&self) -> Result<u64, BotError>;

    fn my_long_balance(&self) -> Result<u64, BotError>;

    fn my_short_balance(&self) -> Result<u64, BotError>;
}

/// Write access to the venue: approvals, wrapping, position purchases and
/// swaps. Implementations submit the calls; nothing is promised about their
/// outcome beyond the `Result`.
pub trait TokenManager {
    fn approve_markets(&self) -> Result<(), BotError>;

    fn wrap_cspr(&self) -> Result<(), BotError>;

    fn unwrap_wcspr(&self, amount: u64) -> Result<(), BotError>;

    fn buy_longs(&self) -> Result<(), BotError>;

    fn buy_shorts(&self) -> Result<(), BotError>;

    fn swap(&self, path: Path, amount_in: u64, amount_out: u64) -> Result<Vec<u64>, BotError>;
}

/// A `TokenManager` that acknowledges every request without touching the
/// venue; a swap reports its own bounds back as the executed amounts.
pub struct DryRunTokenManager;

impl TokenManager for DryRunTokenManager {
    fn approve_markets(&self) -> Result<(), BotError> {
        Ok(())
    }

    fn wrap_cspr(&self) -> Result<(), BotError> {
        Ok(())
    }

    fn unwrap_wcspr(&self, _amount: u64) -> Result<(), BotError> {
        Ok(())
    }

    fn buy_longs(&self) -> Result<(), BotError> {
        Ok(())
    }

    fn buy_shorts(&self) -> Result<(), BotError> {
        Ok(())
    }

    fn swap(&self, _path: Path, amount_in: u64, amount_out: u64) -> Result<Vec<u64>, BotError> {
        Ok(vec![amount_in, amount_out])
    }
}

/// The defensive rebalancing step a cycle takes before trading.
#[derive(Debug, PartialEq, Eq, Structural, Clone, Copy)]
pub enum RebalanceAction {
    /// Unwrap `amount` motes of wrapped native currency back to native.
    UnwrapWcspr { amount: u64 },
    /// Sell long tokens for `amount_out_min` motes of wrapped native
    /// currency, spending at most `amount_in_max` motes of longs.
    SellLongs { amount_in_max: u64, amount_out_min: u64 },
    /// Sell short tokens the same way.
    SellShorts { amount_in_max: u64, amount_out_min: u64 },
    /// Both balances are healthy; touch nothing.
    NoAction,
}

/// Long tokens to offer when selling for `UNWRAP_AMOUNT` motes of wrapped
/// native currency: the fair-price conversion plus a 5% slippage buffer,
/// truncated to a mote count.
pub open spec fn sell_amount_in(fair_price: u64) -> int
    recommends
        fair_price > 0,
{
    (UNWRAP_AMOUNT as int) * (SLIPPAGE_FACTOR as int) / (fair_price as int)
}

/// The rebalancing decision table. A native shortage is handled first and
/// ends the step; otherwise a wrapped-native shortage sells whichever
/// position holds more value at fair prices, longs winning ties; otherwise
/// nothing happens.
pub open spec fn rebalance_action(
    cspr_balance: u64,
    wcspr_balance: u64,
    long_balance: u64,
    short_balance: u64,
    d: PriceData,
) -> RebalanceAction {
    if cspr_balance < MIN_CSPR_BALANCE {
        RebalanceAction::UnwrapWcspr { amount: UNWRAP_AMOUNT }
    } else if wcspr_balance < MIN_WCSPR_BALANCE {
        if long_balance * d.long_fair_price >= short_balance * d.short_fair_price {
            RebalanceAction::SellLongs {
                amount_in_max: sell_amount_in(d.long_fair_price) as u64,
                amount_out_min: UNWRAP_AMOUNT,
            }
        } else {
            RebalanceAction::SellShorts {
                amount_in_max: sell_amount_in(d.short_fair_price) as u64,
                amount_out_min: UNWRAP_AMOUNT,
            }
        }
    } else {
        RebalanceAction::NoAction
    }
}

/// Computes `rebalance_action` from freshly read balances.
pub fn plan_rebalance(
    cspr_balance: u64,
    wcspr_balance: u64,
    long_balance: u64,
    short_balance: u64,
    price_data: &PriceData,
) -> (a: RebalanceAction)
    requires
        price_data.wf(),
    ensures
        a == rebalance_action(cspr_balance, wcspr_balance, long_balance, short_balance, *price_data),
{
    if cspr_balance < MIN_CSPR_BALANCE {
        RebalanceAction::UnwrapWcspr { amount: UNWRAP_AMOUNT }
    } else if wcspr_balance < MIN_WCSPR_BALANCE {
        proof {
            lemma_mul_upper_bound(
                long_balance as int,
                u64::MAX as int,
                price_data.long_fair_price as int,
                MAX_PRICE as int,
            );
            lemma_mul_upper_bound(
                short_balance as int,
                u64::MAX as int,
                price_data.short_fair_price as int,
                MAX_PRICE as int,
            );
        }
        let long_value: u128 = (long_balance as u128) * (price_data.long_fair_price as u128);
        let short_value: u128 = (short_balance as u128) * (price_data.short_fair_price as u128);
        if long_value >= short_value {
            RebalanceAction::SellLongs {
                amount_in_max: sale_input_bound(price_data.long_fair_price),
                amount_out_min: UNWRAP_AMOUNT,
            }
        } else {
            RebalanceAction::SellShorts {
                amount_in_max: sale_input_bound(price_data.short_fair_price),
                amount_out_min: UNWRAP_AMOUNT,
            }
        }
    } else {
        RebalanceAction::NoAction
    }
}

/// Computes `sell_amount_in` on a positive price.
fn sale_input_bound(fair_price: u64) -> (r: u64)
    requires
        fair_price > 0,
    ensures
        r == sell_amount_in(fair_price),
{
    let q: u128 = ((UNWRAP_AMOUNT as u128) * (SLIPPAGE_FACTOR as u128)) / (fair_price as u128);
    proof {
        lemma_div_nonincreasing((UNWRAP_AMOUNT as int) * (SLIPPAGE_FACTOR as int), fair_price as int);
    }
    q as u64
}

/// The single-level top-up cascade a provisioning call performs.
#[derive(Debug, PartialEq, Eq, Structural, Clone, Copy)]
pub enum TopUpAction {
    /// The balance already covers the requirement.
    NoTopUp,
    /// Buy one quantum of the position token, wrapping native currency
    /// first when the wrapped balance cannot pay for the purchase.
    Buy { wrap_first: bool },
    /// Wrap one quantum of native currency.
    Wrap,
}

/// The provisioning decision for a route that spends a position token:
/// nothing when the balance covers the requirement; otherwise one
/// quantum-sized purchase, preceded by a wrap when the wrapped balance
/// cannot pay for it; `InsufficientFunds` exactly when token, wrapped and
/// native balances are all short.
pub open spec fn token_top_up_plan(
    token_balance: u64,
    required_balance: u64,
    wcspr_balance: u64,
    cspr_balance: u64,
) -> Result<TopUpAction, BotError> {
    if token_balance >= required_balance {
        Ok(TopUpAction::NoTopUp)
    } else if wcspr_balance >= TOP_UP_AMOUNT {
        Ok(TopUpAction::Buy { wrap_first: false })
    } else if cspr_balance >= TOP_UP_AMOUNT {
        Ok(TopUpAction::Buy { wrap_first: true })
    } else {
        Err(BotError::InsufficientFunds)
    }
}

/// The provisioning decision for a route that spends wrapped native
/// currency: nothing when covered, one wrap when the native balance can pay
/// for it, `InsufficientFunds` otherwise.
pub open spec fn wcspr_top_up_plan(
    wcspr_balance: u64,
    required_balance: u64,
    cspr_balance: u64,
) -> Result<TopUpAction, BotError> {
    if wcspr_balance >= required_balance {
        Ok(TopUpAction::NoTopUp)
    } else if cspr_balance >= TOP_UP_AMOUNT {
        Ok(TopUpAction::Wrap)
    } else {
        Err(BotError::InsufficientFunds)
    }
}

/// Computes `token_top_up_plan` from freshly read balances.
pub fn plan_token_top_up(
    token_balance: u64,
    required_balance: u64,
    wcspr_balance: u64,
    cspr_balance: u64,
) -> (r: Result<TopUpAction, BotError>)
    ensures
        r == token_top_up_plan(token_balance, required_balance, wcspr_balance, cspr_balance),
{
    if token_balance >= required_balance {
        Ok(TopUpAction::NoTopUp)
    } else if wcspr_balance >= TOP_UP_AMOUNT {
        Ok(TopUpAction::Buy { wrap_first: false })
    } else if cspr_balance >= TOP_UP_AMOUNT {
        Ok(TopUpAction::Buy { wrap_first: true })
    } else {
        Err(BotError::InsufficientFunds)
    }
}

/// Computes `wcspr_top_up_plan` from freshly read balances.
pub fn plan_wcspr_top_up(
    wcspr_balance: u64,
    required_balance: u64,
    cspr_balance: u64,
) -> (r: Result<TopUpAction, BotError>)
    ensures
        r == wcspr_top_up_plan(wcspr_balance, required_balance, cspr_balance),
{
    if wcspr_balance >= required_balance {
        Ok(TopUpAction::NoTopUp)
    } else if cspr_balance >= TOP_UP_AMOUNT {
        Ok(TopUpAction::Wrap)
    } else {
        Err(BotError::InsufficientFunds)
    }
}

/// How much wrapped native currency to unwrap on request: nothing when the
/// balance is empty, the requested amount when one is given, the whole
/// balance otherwise.
pub open spec fn unwrap_request_amount(wcspr_balance: u64, requested: Option<u64>) -> Option<u64> {
    if wcspr_balance == 0 {
        None
    } else {
        match requested {
            Some(amount) => Some(amount),
            None => Some(wcspr_balance),
        }
    }
}

/// Computes `unwrap_request_amount`.
pub fn unwrap_request(wcspr_balance: u64, requested: Option<u64>) -> (r: Option<u64>)
    ensures
        r == unwrap_request_amount(wcspr_balance, requested),
{
    if wcspr_balance == 0 {
        None
    } else {
        match requested {
            Some(amount) => Some(amount),
            None => Some(wcspr_balance),
        }
    }
}

/// Keeps the wallet's balances fit for trading: tops up the input asset
/// before a swap and rebalances native and wrapped holdings once per cycle.
pub struct AssetManager<'a, B: Balances, T: TokenManager> {
    balances: &'a B,
    token_manager: &'a T,
}

impl<'a, B: Balances, T: TokenManager> AssetManager<'a, B, T> {
    pub fn new(balances: &'a B, token_manager: &'a T) -> (r: AssetManager<'a, B, T>) {
        AssetManager { balances, token_manager }
    }

    /// Provisions the route's input asset, then submits the swap with
    /// `amount_out` as the least acceptable output. `Empty` carries no
    /// assets and must not reach execution.
    pub fn swap(&self, path: Path, amount_in: u64, amount_out: u64) -> (r: Result<
        Vec<u64>,
        BotError,
    >)
        requires
            path != Path::Empty,
    {
        match self.ensure_funds(path, amount_in) {
            Ok(()) => {},
            Err(e) => {
                return Err(e);
            },
        }
        self.token_manager.swap(path, amount_in, amount_out)
    }

    /// One defensive rebalancing pass, as `rebalance_action` decides: a
    /// native shortage unwraps `UNWRAP_AMOUNT` and stops; otherwise a
    /// wrapped shortage sells the more valuable position for exactly
    /// `UNWRAP_AMOUNT`; healthy balances touch nothing.
    pub fn manage_asset_levels(&self, price_data: &PriceData) -> (r: Result<(), BotError>)
        requires
            price_data.wf(),
    {
        let cspr_balance: u64 = match self.balances.my_cspr_balance() {
            Ok(v) => v,
            Err(e) => {
                return Err(e);
            },
        };
        if cspr_balance < MIN_CSPR_BALANCE {
            return self.token_manager.unwrap_wcspr(UNWRAP_AMOUNT);
        }
        let wcspr_balance: u64 = match self.balances.my_wcspr_balance() {
            Ok(v) => v,
            Err(e) => {
                return Err(e);
            },
        };
        if wcspr_balance < MIN_WCSPR_BALANCE {
            let long_balance: u64 = match self.balances.my_long_balance() {
                Ok(v) => v,
                Err(e) => {
                    return Err(e);
                },
            };
            let short_balance: u64 = match self.balances.my_short_balance() {
                Ok(v) => v,
                Err(e) => {
                    return Err(e);
                },
            };
            let action = plan_rebalance(
                cspr_balance,
                wcspr_balance,
                long_balance,
                short_balance,
                price_data,
            );
            match action {
                RebalanceAction::SellLongs { amount_in_max, amount_out_min } => {
                    match self.token_manager.swap(Path::LongWcspr, amount_in_max, amount_out_min) {
                        Ok(_) => Ok(()),
                        Err(e) => Err(e),
                    }
                },
                RebalanceAction::SellShorts { amount_in_max, amount_out_min } => {
                    match self.token_manager.swap(Path::ShortWcspr, amount_in_max, amount_out_min) {
                        Ok(_) => Ok(()),
                        Err(e) => Err(e),
                    }
                },
                RebalanceAction::UnwrapWcspr { .. } | RebalanceAction::NoAction => {
                    proof {
                        assert(false);
                    }
                    Ok(())
                },
            }
        } else {
            Ok(())
        }
    }

    /// Makes sure the wallet can pay `amount_in` of the route's input asset,
    /// topping up once when it cannot. The cascade follows
    /// `token_top_up_plan` for routes that spend a position token and
    /// `wcspr_top_up_plan` for routes that spend the wrapped currency,
    /// reading each balance only when the decision needs it.
    fn ensure_funds(&self, path: Path, amount_in: u64) -> (r: Result<(), BotError>)
        requires
            path != Path::Empty,
    {
        match path {
            Path::LongWcsprShort | Path::LongWcspr => self.top_up_longs_if_required(amount_in),
            Path::ShortWcsprLong | Path::ShortWcspr => self.top_up_shorts_if_required(amount_in),
            Path::WcsprLong | Path::WcsprShort => self.top_up_wcspr_if_required(amount_in),
            Path::Empty => {
                proof {
                    assert(false);
                }
                Ok(())
            },
        }
    }

    fn top_up_longs_if_required(&self, required_balance: u64) -> (r: Result<(), BotError>) {
        let long_balance: u64 = match self.balances.my_long_balance() {
            Ok(v) => v,
            Err(e) => {
                return Err(e);
            },
        };
        if long_balance < required_balance {
            let wcspr_balance: u64 = match self.balances.my_wcspr_balance() {
                Ok(v) => v,
                Err(e) => {
                    return Err(e);
                },
            };
            if wcspr_balance < TOP_UP_AMOUNT {
                match self.wrap_cspr() {
                    Ok(()) => {},
                    Err(e) => {
                        return Err(e);
                    },
                }
            }
            match self.token_manager.buy_longs() {
                Ok(()) => {},
                Err(e) => {
                    return Err(e);
                },
            }
        }
        Ok(())
    }

    fn top_up_shorts_if_required(&self, required_balance: u64) -> (r: Result<(), BotError>) {
        let short_balance: u64 = match self.balances.my_short_balance() {
            Ok(v) => v,
            Err(e) => {
                return Err(e);
            },
        };
        if short_balance < required_balance {
            let wcspr_balance: u64 = match self.balances.my_wcspr_balance() {
                Ok(v) => v,
                Err(e) => {
                    return Err(e);
                },
            };
            if wcspr_balance < TOP_UP_AMOUNT {
                match self.wrap_cspr() {
                    Ok(()) => {},
                    Err(e) => {
                        return Err(e);
                    },
                }
            }
            match self.token_manager.buy_shorts() {
                Ok(()) => {},
                Err(e) => {
                    return Err(e);
                },
            }
        }
        Ok(())
    }

    fn top_up_wcspr_if_required(&self, required_balance: u64) -> (r: Result<(), BotError>) {
        let wcspr_balance: u64 = match self.balances.my_wcspr_balance() {
            Ok(v) => v,
            Err(e) => {
                return Err(e);
            },
        };
        if wcspr_balance < required_balance {
            match self.wrap_cspr() {
                Ok(()) => {},
                Err(e) => {
                    return Err(e);
                },
            }
        }
        Ok(())
    }

    /// Wraps one top-up quantum; `InsufficientFunds` when the native
    /// balance cannot pay for it.
    fn wrap_cspr(&self) -> (r: Result<(), BotError>) {
        let cspr_balance: u64 = match self.balances.my_cspr_balance() {
            Ok(v) => v,
            Err(e) => {
                return Err(e);
            },
        };
        if cspr_balance < TOP_UP_AMOUNT {
            return Err(BotError::InsufficientFunds);
        }
        self.token_manager.wrap_cspr()
    }
}

/// When the native balance holds at least `MIN_CSPR_BALANCE` motes and the
/// wrapped balance at least `MIN_WCSPR_BALANCE`, rebalancing decides to do
/// nothing, so no unwrap, sale or other venue call is made.
pub proof fn lemma_healthy_levels_need_no_rebalance(
    cspr_balance: u64,
    wcspr_balance: u64,
    long_balance: u64,
    short_balance: u64,
    d: PriceData,
)
    requires
        cspr_balance >= MIN_CSPR_BALANCE,
        wcspr_balance >= MIN_WCSPR_BALANCE,
    ensures
        rebalance_action(cspr_balance, wcspr_balance, long_balance, short_balance, d)
            == RebalanceAction::NoAction,
{
}

} // verus!

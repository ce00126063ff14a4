//! Decision core of an arbitrage bot that watches two position tokens (a
//! "long" and a "short" token) quoted against a wrapped native currency,
//! detects divergence between the venue price and a model-implied fair
//! price, and decides when and along which route to swap.
//!
//! All prices are fixed-point values in millionths of a native-currency
//! unit; all token amounts are in motes, 10^9 of which make one whole unit.
//! Everything the venue itself does (balance reads, wrapping, swapping) sits
//! behind the `Balances` and `TokenManager` traits, which callers implement.

mod asset_manager;
mod data;
mod engine;
mod events;
mod path;
mod utils;

pub use asset_manager::AssetManager;
pub use asset_manager::Balances;
pub use asset_manager::BotError;
pub use asset_manager::DryRunTokenManager;
pub use asset_manager::RebalanceAction;
pub use asset_manager::TokenManager;
pub use asset_manager::TopUpAction;
pub use asset_manager::MIN_CSPR_BALANCE;
pub use asset_manager::MIN_WCSPR_BALANCE;
pub use asset_manager::SLIPPAGE_FACTOR;
pub use asset_manager::TOP_UP_AMOUNT;
pub use asset_manager::UNWRAP_AMOUNT;
pub use asset_manager::lemma_healthy_levels_need_no_rebalance;
pub use asset_manager::plan_rebalance;
pub use asset_manager::plan_token_top_up;
pub use asset_manager::plan_wcspr_top_up;
pub use asset_manager::rebalance_action;
pub use asset_manager::sell_amount_in;
pub use asset_manager::token_top_up_plan;
pub use asset_manager::unwrap_request;
pub use asset_manager::unwrap_request_amount;
pub use asset_manager::wcspr_top_up_plan;

pub use data::PriceData;
pub use data::MAX_PRICE;
pub use data::MOTES_PER_UNIT;
pub use data::PRICE_SCALE;
pub use data::native_units_per_usd;
pub use data::price_diff_milli;
pub use data::tokens_per_usd;
pub use data::units_for_route;

pub use engine::TradeDecision;
pub use engine::MIN_GAIN;
pub use engine::decide_trade;
pub use engine::event_triggers_cycle;
pub use engine::extract_swap_amounts;
pub use engine::trade_decision;

pub use events::BotEvent;
pub use events::EventSource;
pub use events::TimerEventSource;

pub use path::Asset;
pub use path::Path;
pub use path::DIFF_THRESHOLD;
pub use path::diff_exceeds_threshold;
pub use path::lemma_select_route_matches_deviation;
pub use path::lemma_select_route_pure;
pub use path::lemma_select_route_total;
pub use path::route_assets;
pub use path::select_route;

pub use utils::PriceCalculator;
pub use utils::MULTI_HOP_COST;
pub use utils::SINGLE_HOP_COST;
pub use utils::gain_micro;
pub use utils::input_asset;
pub use utils::leg_value;
pub use utils::lemma_empty_route_gains_nothing;
pub use utils::lemma_multi_hop_costs_more;
pub use utils::output_asset;
pub use utils::transaction_cost;

use vstd::prelude::*;
use crate::data::PriceData;
use crate::events::BotEvent;
use crate::path::Path;
use crate::utils::gain_micro;
use crate::utils::PriceCalculator;

verus! {

/// Least estimated profit worth executing, in millionths of a native unit:
/// 1.0 native unit.
pub const MIN_GAIN: u64 = 1_000_000;

/// What one cycle decides to do with a quoted route.
#[derive(Debug, PartialEq, Eq, Structural, Clone, Copy)]
pub enum TradeDecision {
    /// The venue's quote was not a well-formed amount list; no trade.
    InvalidAmounts,
    /// The estimated gain does not clear `MIN_GAIN`; no trade.
    BelowMinGain { gain: i128 },
    /// Worth trading, but the caller asked for a dry run; no trade.
    DryRunSkip { gain: i128 },
    /// Execute the swap with these bounds.
    Execute { amount_in: u64, amount_out: u64, gain: i128 },
}

/// The profitability gate of one cycle. A quote shorter than two amounts is
/// malformed and trades nothing; otherwise the first amount goes in, the
/// last comes out, and the estimated gain must reach `MIN_GAIN` before a
/// swap is worth executing; dry-run mode stops short of execution.
pub open spec fn trade_decision(
    d: PriceData,
    path: Path,
    amounts: Seq<u64>,
    dry_run: bool,
) -> TradeDecision {
    if amounts.len() < 2 {
        TradeDecision::InvalidAmounts
    } else {
        let amount_in = amounts[0];
        let amount_out = amounts[amounts.len() - 1];
        let gain = gain_micro(amount_in, amount_out, d, path);
        if gain < MIN_GAIN {
            TradeDecision::BelowMinGain { gain: gain as i128 }
        } else if dry_run {
            TradeDecision::DryRunSkip { gain: gain as i128 }
        } else {
            TradeDecision::Execute { amount_in, amount_out, gain: gain as i128 }
        }
    }
}

/// Computes `trade_decision` for the amounts the venue quoted along `path`.
pub fn decide_trade(
    price_data: &PriceData,
    path: Path,
    amounts: &Vec<u64>,
    dry_run: bool,
) -> (r: TradeDecision)
    requires
        price_data.wf(),
        path != Path::Empty,
    ensures
        r == trade_decision(*price_data, path, amounts@, dry_run),
{
    if amounts.len() < 2 {
        return TradeDecision::InvalidAmounts;
    }
    let amount_in: u64 = amounts[0];
    let amount_out: u64 = amounts[amounts.len() - 1];
    let gain: i128 = PriceCalculator::calc_gains_in_cspr(amount_in, amount_out, price_data, path);
    if gain < MIN_GAIN as i128 {
        TradeDecision::BelowMinGain { gain }
    } else if dry_run {
        TradeDecision::DryRunSkip { gain }
    } else {
        TradeDecision::Execute { amount_in, amount_out, gain }
    }
}

/// First and last entries of a swap's amount list, or `None` when the list
/// is too short to name both.
pub fn extract_swap_amounts(amounts: &Vec<u64>) -> (r: Option<(u64, u64)>)
    ensures
        match r {
            Some(pair) => amounts@.len() >= 2 && pair.0 == amounts@[0] && pair.1 == amounts@[amounts@.len() - 1],
            None => amounts@.len() < 2,
        },
{
    if amounts.len() < 2 {
        None
    } else {
        Some((amounts[0], amounts[amounts.len() - 1]))
    }
}

/// Whether an event starts a trading cycle: every event does except
/// `Shutdown`, which stops the loop.
pub fn event_triggers_cycle(event: &BotEvent) -> (r: bool)
    ensures
        r == !(*event is Shutdown),
{
    match event {
        BotEvent::Shutdown => false,
        _ => true,
    }
}

} // verus!

use vstd::prelude::*;

verus! {

/// Events that can trigger the bot's price-check-and-trade cycle.
#[derive(Debug, Clone)]
pub enum BotEvent {
    /// Periodic timer fired: check prices and trade if profitable.
    TimerTick,
    /// A trade was executed on the venue for the named pair.
    TradeExecuted { pair: String },
    /// Significant price movement was seen for the named token.
    PriceChanged { token: String },
    /// Graceful shutdown requested.
    Shutdown,
}

/// A source of events for the bot. Returning `None` means it should stop.
pub trait EventSource {
    fn next_event(&mut self) -> Option<BotEvent>;
}

/// Emits `TimerTick` events a fixed number of seconds apart, the first one
/// due immediately. The caller owns the waiting: `next_tick` says how long
/// to pause before acting on the event it hands out.
pub struct TimerEventSource {
    interval_secs: u64,
    first: bool,
}

impl TimerEventSource {
    /// Seconds between ticks.
    pub closed spec fn spec_interval_secs(&self) -> u64 {
        self.interval_secs
    }

    /// Whether the next tick is the first one.
    pub closed spec fn spec_first(&self) -> bool {
        self.first
    }

    pub fn new(interval_secs: u64) -> (r: TimerEventSource)
        ensures
            r.spec_interval_secs() == interval_secs,
            r.spec_first(),
    {
        TimerEventSource { interval_secs, first: true }
    }

    /// The next event and the seconds to wait before delivering it: zero
    /// for the first tick, a full interval for every later one.
    pub fn next_tick(&mut self) -> (r: (BotEvent, u64))
        ensures
            r.0 is TimerTick,
            r.1 == if old(self).spec_first() {
                0u64
            } else {
                old(self).spec_interval_secs()
            },
            !final(self).spec_first(),
            final(self).spec_interval_secs() == old(self).spec_interval_secs(),
    {
        let delay: u64 = if self.first {
            0
        } else {
            self.interval_secs
        };
        self.first = false;
        (BotEvent::TimerTick, delay)
    }
}

} // verus!

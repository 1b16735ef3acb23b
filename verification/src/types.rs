//! Ticks, the cycle, trade intents and trade results.

use vstd::prelude::*;

use crate::num::{num, Num, ZERO};

verus! {

/// A Binance spot price.
#[derive(Clone, Copy, Debug)]
pub struct BinanceTick {
    pub ts: Num,
    pub price: Num,
}

/// Prices of the UP and DOWN tokens; `up_bid` and `up_ask` are zero when the feed
/// carries no book.
#[derive(Clone, Copy, Debug)]
pub struct PolyTick {
    pub ts: Num,
    pub up: Num,
    pub dn: Num,
    pub up_bid: Num,
    pub up_ask: Num,
}

#[derive(Clone, Copy, Debug)]
pub struct CycleContext {
    pub start_ts: Num,
    pub end_ts: Num,
    pub open_binance: Num,
}

#[derive(Clone, Copy, Debug, PartialEq, Eq, Structural)]
pub enum Side {
    Up,
    Down,
}

impl Side {
    pub open spec fn text(self) -> Seq<char> {
        match self {
            Side::Up => "UP"@,
            Side::Down => "DOWN"@,
        }
    }

    pub fn as_str(self) -> (r: &'static str)
        ensures
            r@ == self.text(),
    {
        match self {
            Side::Up => "UP",
            Side::Down => "DOWN",
        }
    }
}

#[derive(Clone, Copy, Debug, PartialEq, Eq, Structural)]
pub enum EntryType {
    Reversal,
    HighProb,
    VShape,
}

impl EntryType {
    pub open spec fn text(self) -> Seq<char> {
        match self {
            EntryType::Reversal => "reversal"@,
            EntryType::HighProb => "high_prob"@,
            EntryType::VShape => "v_shape"@,
        }
    }

    pub fn as_str(self) -> (r: &'static str)
        ensures
            r@ == self.text(),
    {
        match self {
            EntryType::Reversal => "reversal",
            EntryType::HighProb => "high_prob",
            EntryType::VShape => "v_shape",
        }
    }
}

/// A wish to buy one side's token.
#[derive(Clone, Copy, Debug)]
pub struct TradeIntent {
    pub side: Side,
    pub entry_type: EntryType,
    pub up: Num,
    pub dn: Num,
    pub binance_price: Num,
}

impl TradeIntent {
    pub open spec fn spec_token_price(self) -> Num {
        match self.side {
            Side::Up => self.up,
            Side::Down => self.dn,
        }
    }

    /// The price of the token that the intent buys.
    #[verifier::when_used_as_spec(spec_token_price)]
    pub fn token_price(self) -> (r: Num)
        ensures
            r == self.spec_token_price(),
    {
        match self.side {
            Side::Up => self.up,
            Side::Down => self.dn,
        }
    }
}

#[derive(Clone, Copy, Debug, PartialEq, Eq, Structural)]
pub enum Outcome {
    Win,
    Loss,
    StopLoss,
    Unwind,
    /// The cap on holding time closed the position at the market, at a gain or a loss.
    Timeout,
}

impl Outcome {
    pub open spec fn text(self) -> Seq<char> {
        match self {
            Outcome::Win => "WIN"@,
            Outcome::Loss => "LOSS"@,
            Outcome::StopLoss => "STOPLOSS"@,
            Outcome::Unwind => "UNWIND"@,
            Outcome::Timeout => "TIMEOUT"@,
        }
    }

    pub fn as_str(self) -> (r: &'static str)
        ensures
            r@ == self.text(),
    {
        match self {
            Outcome::Win => "WIN",
            Outcome::Loss => "LOSS",
            Outcome::StopLoss => "STOPLOSS",
            Outcome::Unwind => "UNWIND",
            Outcome::Timeout => "TIMEOUT",
        }
    }

    /// A losing resolution or stop always counts, a timeout when it lost money, a win or a
    /// taken profit never.
    pub open spec fn counts_as_loss(self, pnl: Num) -> bool {
        self == Outcome::Loss || self == Outcome::StopLoss || (self == Outcome::Timeout && pnl.lt(
            num(ZERO),
        ))
    }

    /// Whether a trade with this outcome and gain is a loss, for a caller that keeps a loss
    /// streak of its own. `HaltTracker` does not go by this rule: there a timeout never
    /// counts, see `ends_in_loss`.
    #[verifier::when_used_as_spec(counts_as_loss)]
    pub fn is_loss_for_halt(self, pnl: Num) -> (r: bool)
        ensures
            r == self.counts_as_loss(pnl),
    {
        match self {
            Outcome::Loss | Outcome::StopLoss => true,
            Outcome::Timeout => pnl.lt(num(ZERO)),
            Outcome::Unwind | Outcome::Win => false,
        }
    }
}

/// One closed trade.
#[derive(Clone, Debug, PartialEq)]
pub struct TradeRecord {
    pub slug: String,
    pub cycle_start: Num,
    pub strategy: &'static str,
    pub side: Side,
    /// Timestamp of the tick that triggered the entry.
    pub entry_ts: Num,
    /// Timestamp of the token price that the entry was decided on. It can be older than
    /// `entry_ts`: a Binance tick can trigger an entry on a cached token price.
    pub entry_price_ts: Num,
    pub token_price: Num,
    pub exit_price: Num,
    pub outcome: Outcome,
    pub pnl: Num,
    /// Failed exit orders before this outcome.
    pub exit_attempts: u32,
    pub exit_last_error: Option<String>,
    /// Milliseconds from the triggering tick to the driver seeing it.
    pub entry_signal_latency_ms: Num,
    /// Milliseconds from the triggering tick to the fill confirmation.
    pub entry_process_latency_ms: Num,
    /// As for the entry; zero when no early exit order was sent.
    pub exit_signal_latency_ms: Num,
    pub exit_process_latency_ms: Num,
}

} // verus!

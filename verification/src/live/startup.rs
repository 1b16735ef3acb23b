//! How a slot begins, and why the driver refuses to start.

use vstd::prelude::*;
use vstd::string::StringExecFns;

use crate::calendar::CivilDate;
use crate::config::AssetParams;
use crate::execution::TokenId;
use crate::halt::HaltTracker;
use crate::live::notices::{halt_limit, halt_limit_of};
use crate::live::slot::{AssetSlot, EntryGate, Stats, WorkerState};
use crate::live::status::{reset_hour, reset_hour_of};
use crate::live::MarketDuration;
use crate::num::{num, Num, ZERO};
use crate::text::same_text;

verus! {

/// Why the driver refuses to start.
#[derive(Clone, Debug)]
pub enum StartupError {
    UnknownDuration { label: String, asset: String },
    /// The hourly markets go by a coin's name, and none is known for the asset.
    NoHourlyName { asset: String },
    NoStrategies { asset: String },
    UnknownStrategy { strategy: String, asset: String },
}

impl StartupError {
    pub open spec fn text(self) -> Seq<char> {
        match self {
            StartupError::UnknownDuration { label, asset } => "unknown market duration `"@ + label@
                + "` for asset "@ + asset@
                + " in [market_durations] (valid: 5m, 15m, 1h-et, 4h — note the slot-based `1h` market does not exist on Polymarket; the 60-minute family is `1h-et`)"@,
            StartupError::NoHourlyName { asset } => "asset "@ + asset@
                + " has no known hourly-ET coin name (see marketdata::hourly_et_coin_name) — cannot trade 1h-et"@,
            StartupError::NoStrategies { asset } => "no strategies configured for asset "@ + asset@
                + " (missing both a `"@ + asset@
                + "` and `default` entry in the config's [strategies] table)"@,
            StartupError::UnknownStrategy { strategy, asset } => "unknown strategy `"@ + strategy@
                + "` for asset "@ + asset@ + " (from config)"@,
        }
    }

    pub fn message(&self) -> (r: String)
        ensures
            r@ == self.text(),
    {
        match self {
            StartupError::UnknownDuration { label, asset } => {
                let mut r = "unknown market duration `".to_owned();
                r.append(label.as_str());
                r.append("` for asset ");
                r.append(asset.as_str());
                r.append(
                    " in [market_durations] (valid: 5m, 15m, 1h-et, 4h — note the slot-based `1h` market does not exist on Polymarket; the 60-minute family is `1h-et`)",
                );
                r
            },
            StartupError::NoHourlyName { asset } => {
                let mut r = "asset ".to_owned();
                r.append(asset.as_str());
                r.append(
                    " has no known hourly-ET coin name (see marketdata::hourly_et_coin_name) — cannot trade 1h-et",
                );
                r
            },
            StartupError::NoStrategies { asset } => {
                let mut r = "no strategies configured for asset ".to_owned();
                r.append(asset.as_str());
                r.append(" (missing both a `");
                r.append(asset.as_str());
                r.append("` and `default` entry in the config's [strategies] table)");
                r
            },
            StartupError::UnknownStrategy { strategy, asset } => {
                let mut r = "unknown strategy `".to_owned();
                r.append(strategy.as_str());
                r.append("` for asset ");
                r.append(asset.as_str());
                r.append(" (from config)");
                r
            },
        }
    }
}

/// The family of markets that a label asks for. `hourly_name` tells whether the asset has
/// the name that hourly markets go by.
pub fn duration_for(asset: &str, label: &str, hourly_name: bool) -> (r: Result<
    MarketDuration,
    StartupError,
>)
    ensures
        match MarketDuration::of_text(label@) {
            None => r matches Err(StartupError::UnknownDuration { label: l, asset: a }) && l@
                == label@ && a@ == asset@,
            Some(d) => if d == MarketDuration::HourlyEt && !hourly_name {
                r matches Err(StartupError::NoHourlyName { asset: a }) && a@ == asset@
            } else {
                r == Ok::<MarketDuration, StartupError>(d)
            },
        },
{
    match MarketDuration::parse(label) {
        None => Err(
            StartupError::UnknownDuration { label: label.to_owned(), asset: asset.to_owned() },
        ),
        Some(d) => {
            if d == MarketDuration::HourlyEt && !hourly_name {
                return Err(StartupError::NoHourlyName { asset: asset.to_owned() });
            }
            Ok(d)
        },
    }
}

/// A strategy that a worker can run.
pub open spec fn has_worker(strategy: Seq<char>) -> bool {
    strategy == "reversal"@ || strategy == "high_prob"@ || strategy == "v_shape"@
}

fn is_runnable(strategy: &str) -> (r: bool)
    ensures
        r == has_worker(strategy@),
{
    same_text(strategy, "reversal") || same_text(strategy, "high_prob") || same_text(
        strategy,
        "v_shape",
    )
}

/// The strategies of an asset can be run: there is one, and each has a worker. The first that
/// has none is named.
pub fn check_strategies(asset: &str, strategies: &Vec<String>) -> (r: Result<(), StartupError>)
    ensures
        match r {
            Ok(_) => strategies@.len() > 0 && forall|k: int|
                0 <= k < strategies@.len() ==> has_worker(#[trigger] strategies@[k]@),
            Err(StartupError::NoStrategies { asset: a }) => a@ == asset@ && strategies@.len() == 0,
            Err(StartupError::UnknownStrategy { strategy, asset: a }) => a@ == asset@ && exists|k: int|
                0 <= k < strategies@.len() && (#[trigger] strategies@[k])@ == strategy@
                    && !has_worker(strategy@) && forall|j: int|
                    0 <= j < k ==> has_worker(#[trigger] strategies@[j]@),
            _ => false,
        },
{
    if strategies.len() == 0 {
        return Err(StartupError::NoStrategies { asset: asset.to_owned() });
    }
    let mut i: usize = 0;
    while i < strategies.len()
        invariant
            i <= strategies@.len(),
            forall|k: int| 0 <= k < i ==> has_worker(#[trigger] strategies@[k]@),
        decreases strategies@.len() - i,
    {
        if !is_runnable(strategies[i].as_str()) {
            let strategy = strategies[i].clone();
            assert(strategies@[i as int]@ == strategy@);
            return Err(StartupError::UnknownStrategy { strategy, asset: asset.to_owned() });
        }
        i = i + 1;
    }
    Ok(())
}

/// What an earlier run left behind. Its position is not taken up.
#[derive(Clone, Debug)]
pub struct Saved {
    pub suppressed: bool,
    pub losses: i64,
    pub last_session: Option<CivilDate>,
    pub stats: Stats,
}

/// A slot as it begins: no cycle, no prices, and the halts and counts of the run before. The
/// limits of the halt come from this run's parameters.
pub open spec fn begins(
    slot: AssetSlot,
    asset: Seq<char>,
    strategy: Seq<char>,
    params: AssetParams,
    size: Num,
    duration: MarketDuration,
    saved: Option<Saved>,
) -> bool {
    &&& slot.worker.asset@ == asset
    &&& slot.worker.strategy_name@ == strategy
    &&& slot.worker.gate == (EntryGate {
        suppressed: match saved {
            Some(s) => s.suppressed,
            None => false,
        },
        streak: HaltTracker {
            max: halt_limit(slot),
            reset_hour: reset_hour_of(slot),
            losses: match saved {
                Some(s) => s.losses,
                None => 0,
            },
            last_session: match saved {
                Some(s) => s.last_session,
                None => None,
            },
        },
    })
    &&& slot.worker.confirming == false
    &&& slot.worker.delta_pct == num(ZERO)
    &&& slot.worker.cycle_end_ts == num(ZERO)
    &&& slot.worker.cycle_open_binance == num(ZERO)
    &&& slot.params == (AssetParams { trade_size_usdc: size, ..params })
    &&& slot.duration == duration
    &&& slot.slot_val == 0
    &&& slot.up_id == (TokenId { high: 0, low: 0 })
    &&& slot.dn_id == (TokenId { high: 0, low: 0 })
    &&& slot.current_token_id is None
    &&& slot.max_buy_price == params.max_buy_price
    &&& slot.cycle_trades == 0
    &&& !slot.sl_notified
    &&& !slot.timeout_notified
    &&& match saved {
        Some(s) => slot.stats == s.stats,
        None => {
            &&& slot.stats.counts.wins == 0
            &&& slot.stats.counts.losses == 0
            &&& slot.stats.counts.stoplosses == 0
            &&& slot.stats.counts.unwinds == 0
            &&& slot.stats.counts.timeouts == 0
            &&& slot.stats.counts.total_pnl == num(ZERO)
            &&& slot.stats.last_trade is None
        },
    }
    &&& slot.current_slug is None
    &&& slot.last_binance == num(ZERO)
    &&& slot.last_poly_up == num(ZERO)
    &&& slot.last_poly_dn == num(ZERO)
    &&& slot.last_binance_server_ts is None
    &&& slot.last_poly_server_ts is None
    &&& slot.last_binance_ts is None
    &&& slot.last_poly_ts is None
}

/// Begins a slot.
pub fn new_slot(
    asset: &str,
    strategy: &str,
    params: AssetParams,
    size: Num,
    duration: MarketDuration,
    saved: Option<Saved>,
) -> (r: AssetSlot)
    ensures
        begins(r, asset@, strategy@, params, size, duration, saved),
{
    let mut params = params;
    let max_buy_price = params.max_buy_price;
    params.trade_size_usdc = size;
    let mut slot = AssetSlot {
        worker: WorkerState {
            asset: asset.to_owned(),
            strategy_name: strategy.to_owned(),
            gate: EntryGate { suppressed: false, streak: HaltTracker::new(0, 0) },
            confirming: false,
            delta_pct: num(ZERO),
            cycle_end_ts: num(ZERO),
            cycle_open_binance: num(ZERO),
        },
        params,
        duration,
        slot_val: 0,
        up_id: TokenId { high: 0, low: 0 },
        dn_id: TokenId { high: 0, low: 0 },
        current_token_id: None,
        max_buy_price,
        cycle_trades: 0,
        sl_notified: false,
        timeout_notified: false,
        stats: Stats::default(),
        current_slug: None,
        last_binance: num(ZERO),
        last_poly_up: num(ZERO),
        last_poly_dn: num(ZERO),
        last_binance_server_ts: None,
        last_poly_server_ts: None,
        last_binance_ts: None,
        last_poly_ts: None,
    };
    slot.worker.gate.streak = HaltTracker::new(halt_limit_of(&slot), reset_hour(&slot));
    match saved {
        Some(s) => {
            slot.worker.gate.restore(s.suppressed, s.losses, s.last_session);
            slot.stats = s.stats;
        },
        None => {},
    }
    slot
}

} // verus!

//! When cycles begin and end, when ticks reach a worker, and how long a resolution is
//! waited for.

use vstd::prelude::*;

use crate::live::orders::Event;
use crate::live::slot::AssetSlot;
use crate::live::{should_suppress_startup_cycle, MarketDuration, STARTUP_MID_CYCLE_GUARD_SECS};
use crate::num::{larger, num, num_max, num_min, smaller, Arith, Calc, Num, Op, ZERO};
use crate::text::{holds_text, views};
use crate::types::{BinanceTick, CycleContext, PolyTick, Side};

verus! {

/// What the clock brings to a slot.
#[derive(Clone, Copy, Debug, PartialEq, Eq, Structural)]
pub enum Boundary {
    /// The cycle goes on.
    Same,
    /// The process started in the middle of a cycle, which is sat out.
    SitOut,
    /// The last cycle, if one was open, ends; there is no Binance price to open the next.
    NoPrice { close: bool },
    /// The last cycle, if one was open, ends, and the next begins.
    Next { close: bool },
}

/// What the clock brings at a slot number.
pub open spec fn boundary_at(slot: AssetSlot, slot_now: u64, now: Num, calc: Calc) -> Boundary {
    let elapsed = calc.minus(now, calc.from_unsigned(slot_now));
    if slot_now == slot.slot_val {
        Boundary::Same
    } else if slot.slot_val == 0 && elapsed.gt(num(STARTUP_MID_CYCLE_GUARD_SECS)) {
        Boundary::SitOut
    } else if slot.last_binance.le(num(ZERO)) {
        Boundary::NoPrice { close: slot.current_slug is Some }
    } else {
        Boundary::Next { close: slot.current_slug is Some }
    }
}

/// Looks at the clock. The slot number is taken down; whatever the answer is, it is given
/// once for each cycle.
pub fn on_clock<F: Fn(Op, Num, Num) -> Num>(
    slot: &mut AssetSlot,
    slot_now: u64,
    now: Num,
    arith: &Arith<F>,
) -> (r: Boundary)
    ensures
        r == boundary_at(*old(slot), slot_now, now, arith@),
        *final(slot) == (AssetSlot { slot_val: slot_now, ..*old(slot) }),
{
    if slot_now == slot.slot_val {
        return Boundary::Same;
    }
    let is_first_tick = slot.slot_val == 0;
    slot.slot_val = slot_now;
    let elapsed = arith.minus(now, arith.from_unsigned(slot_now));
    if should_suppress_startup_cycle(is_first_tick, elapsed) {
        return Boundary::SitOut;
    }
    let close = match slot.current_slug {
        Some(_) => true,
        None => false,
    };
    if slot.last_binance.le(num(ZERO)) {
        return Boundary::NoPrice { close };
    }
    Boundary::Next { close }
}

/// The slot before the next cycle opens: without a price it has no cycle, else it starts
/// with a fresh allowance of trades and announcements.
pub open spec fn after_boundary(slot: AssetSlot, b: Boundary) -> AssetSlot {
    match b {
        Boundary::NoPrice { .. } => AssetSlot { current_slug: None, ..slot },
        Boundary::Next { .. } => AssetSlot {
            cycle_trades: 0,
            sl_notified: false,
            timeout_notified: false,
            ..slot
        },
        _ => slot,
    }
}

pub fn settle_boundary(slot: &mut AssetSlot, b: Boundary)
    ensures
        *final(slot) == after_boundary(*old(slot), b),
{
    match b {
        Boundary::NoPrice { .. } => {
            slot.current_slug = None;
        },
        Boundary::Next { .. } => {
            slot.cycle_trades = 0;
            slot.sl_notified = false;
            slot.timeout_notified = false;
        },
        _ => {},
    }
}

/// A slot that was looked at brings nothing more until the clock passes its cycle.
pub proof fn boundary_comes_once(slot: AssetSlot, slot_now: u64, now: Num, later: Num, calc: Calc)
    ensures
        boundary_at(
            AssetSlot { slot_val: slot_now, ..slot },
            slot_now,
            later,
            calc,
        ) == Boundary::Same,
{
}

/// The cycle that begins at a slot number.
pub fn cycle_context<F: Fn(Op, Num, Num) -> Num>(slot: &AssetSlot, slot_now: u64, arith: &Arith<F>) -> (r:
    CycleContext)
    requires
        slot_now + slot.duration.seconds() <= u64::MAX,
    ensures
        r == (CycleContext {
            start_ts: arith@.from_unsigned(slot_now),
            end_ts: arith@.from_unsigned((slot_now + slot.duration.seconds()) as u64),
            open_binance: slot.last_binance,
        }),
{
    CycleContext {
        start_ts: arith.from_unsigned(slot_now),
        end_ts: arith.from_unsigned(slot_now + slot.duration.period_secs()),
        open_binance: slot.last_binance,
    }
}

/// Takes down a Binance tick. Says whether it reaches the worker: only in a cycle that has
/// trades left.
pub fn on_binance_tick(
    slot: &mut AssetSlot,
    tick: BinanceTick,
    server_ts: Option<Num>,
    max_trades: u32,
) -> (r: bool)
    ensures
        *final(slot) == (AssetSlot {
            last_binance: tick.price,
            last_binance_server_ts: server_ts,
            last_binance_ts: Some(tick.ts),
            ..*old(slot)
        }),
        r == (old(slot).current_slug is Some && old(slot).cycle_trades < max_trades),
{
    slot.last_binance = tick.price;
    slot.last_binance_server_ts = server_ts;
    slot.last_binance_ts = Some(tick.ts);
    let open = match slot.current_slug {
        Some(_) => true,
        None => false,
    };
    open && slot.cycle_trades < max_trades
}

/// Takes down a token tick. Says whether it reaches the worker: in every cycle, so that an
/// open position is looked after.
pub fn on_poly_tick(slot: &mut AssetSlot, tick: PolyTick, server_ts: Option<Num>) -> (r: bool)
    ensures
        *final(slot) == (AssetSlot {
            last_poly_up: tick.up,
            last_poly_dn: tick.dn,
            last_poly_server_ts: server_ts,
            last_poly_ts: Some(tick.ts),
            ..*old(slot)
        }),
        r == (old(slot).current_slug is Some),
{
    slot.last_poly_up = tick.up;
    slot.last_poly_dn = tick.dn;
    slot.last_poly_server_ts = server_ts;
    slot.last_poly_ts = Some(tick.ts);
    match slot.current_slug {
        Some(_) => true,
        None => false,
    }
}

/// Where the token prices of a slot come from in its next cycle.
#[derive(Clone, Copy, Debug, PartialEq, Eq, Structural)]
pub enum PriceSource {
    /// From the publisher, which runs on from cycle to cycle.
    Publisher,
    /// From a stream of the slot's own.
    OwnStream,
    /// From a new stream that all slots of the market share.
    NewShared,
    /// From the stream that another slot of the market opened for this cycle.
    OldShared,
}

/// The publisher only carries the five-minute markets. The others share one stream for each
/// market, opened by the first slot that comes to it.
pub fn price_source(slot: &AssetSlot, has_publisher: bool, shared: &Vec<String>) -> (r: PriceSource)
    ensures
        r == if slot.duration == MarketDuration::M5 {
            if has_publisher {
                PriceSource::Publisher
            } else {
                PriceSource::OwnStream
            }
        } else if views(shared@).contains(slot.key()) {
            PriceSource::OldShared
        } else {
            PriceSource::NewShared
        },
{
    if slot.duration.is_5m() {
        if has_publisher {
            PriceSource::Publisher
        } else {
            PriceSource::OwnStream
        }
    } else if holds_text(shared, slot.market_key().as_str()) {
        PriceSource::OldShared
    } else {
        PriceSource::NewShared
    }
}

/// How a resolution is waited for, in seconds.
#[derive(Clone, Copy, Debug)]
pub struct GammaPollCadence {
    /// Give up so long after the position closed.
    pub deadline_secs: Num,
    /// Wait so long before the first look.
    pub poll_delay_secs: Num,
    /// Wait so long between two looks.
    pub poll_interval_secs: Num,
}

/// The bits of 0.1: the shortest wait between two looks.
pub const MIN_POLL_SECS: u64 = 0x3FB9_9999_9999_999A;

impl GammaPollCadence {
    /// The wait before the first look: no longer than the deadline, not below zero.
    pub fn first_wait(&self) -> (r: Num)
        ensures
            r == larger(smaller(self.poll_delay_secs, self.deadline_secs), num(ZERO)),
    {
        num_max(num_min(self.poll_delay_secs, self.deadline_secs), num(ZERO))
    }

    /// The wait between two looks.
    pub fn next_wait(&self) -> (r: Num)
        ensures
            r == larger(self.poll_interval_secs, num(MIN_POLL_SECS)),
    {
        num_max(self.poll_interval_secs, num(MIN_POLL_SECS))
    }
}

/// What a look at the market's resolution leads to.
#[derive(Clone, Copy, Debug, PartialEq, Eq, Structural)]
pub enum WatchStep {
    /// It is resolved, for or against the position.
    Resolved { won: bool },
    GiveUp,
    LookAgain,
}

/// What to do after a look. A resolution that came counts even after the deadline.
pub fn watch_step(went_up: Option<bool>, side: Side, deadline_passed: bool) -> (r: WatchStep)
    ensures
        r == match went_up {
            Some(up) => WatchStep::Resolved { won: up == (side == Side::Up) },
            None => if deadline_passed {
                WatchStep::GiveUp
            } else {
                WatchStep::LookAgain
            },
        },
{
    match went_up {
        Some(up) => {
            let won = match side {
                Side::Up => up,
                Side::Down => !up,
            };
            WatchStep::Resolved { won }
        },
        None => {
            if deadline_passed {
                WatchStep::GiveUp
            } else {
                WatchStep::LookAgain
            }
        },
    }
}

/// The event that a watch ends in. Without a resolution the balance decides, and where the
/// balance is not known either, it counts as not risen.
pub fn watch_event(won: Option<bool>, balance_increased: Option<bool>) -> (r: Event)
    ensures
        r == match won {
            Some(won) => Event::ApiResult { won },
            None => Event::ApiResultTimeout {
                balance_increased: balance_increased == Some(true),
            },
        },
{
    match won {
        Some(won) => Event::ApiResult { won },
        None => {
            let rose = match balance_increased {
                Some(b) => b,
                None => false,
            };
            Event::ApiResultTimeout { balance_increased: rose }
        },
    }
}

} // verus!

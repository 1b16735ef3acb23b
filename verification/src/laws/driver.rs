//! What the live driver asks of the engine, tells the workers, and keeps of its slots.

use vstd::prelude::*;

use crate::balance::{BalanceGuard, GammaBalanceTracker};
use crate::execution::{CloseResult, LimitSellResult, SellStatus, TokenId, TradeResult};
use crate::laws::exact::{exact, fits};
use crate::laws::replay::limit_reached;
use crate::live::control::{
    control_entry, find_slot, guard_after, meant, meant_indices, on_balance, ordered, slots_after,
    BalanceReport, ControlEntry, OrderView,
};
use crate::live::cycle::{
    cycle_context, on_binance_tick, on_clock, on_poly_tick, price_source, settle_boundary,
    watch_event, watch_step, Boundary, GammaPollCadence, PriceSource, WatchStep,
};
use crate::live::latency::{exchange_latency_ms, latency_ms};
use crate::live::notices::{control_name, either_sign, halt_limit_of, icon_text, plus_sign};
use crate::live::orders::{
    buy_event, close_alert, close_event, close_followup, fill_owner, limit_buy_followup,
    limit_sell_followup, plan_order, price_dry_run, resting_fill_event, seconds_left, Action,
    CloseReason, EngineCall, Event, Followup, OrderTimes,
};
use crate::live::slot::{AssetSlot, ControlEvent, Counts, EntryGate};
use crate::live::status::{light, reset_hour, terms, total, total_gain, Terms};
use crate::live::{
    resolve_run_mode, should_suppress_startup_cycle, with_prefix, MarketDuration, RunMode,
};
use crate::num::{num, Arith, Calc, Layout, Num, Op, Writer, ZERO};
use crate::telegram::commands::CommandView;
use crate::text::{joined, same_letters, signed_decimal, views};
use crate::types::{BinanceTick, CycleContext, Outcome, PolyTick, Side, TradeRecord};

verus! {

// ── Orders ──────────────────────────────────────────────────────────────────

/// The token of a side.
pub open spec fn side_token(slot: AssetSlot, side: Side) -> TokenId {
    match side {
        Side::Up => slot.up_id,
        Side::Down => slot.dn_id,
    }
}

/// A buy asks for the token of its side, at its price and size and never above the slot's cap,
/// and has that token in hand from then on.
pub proof fn buys_ask_for_their_side(side: Side, price: Num, size_usdc: Num, shares: Num, signal_ts: Num)
    ensures
        forall|slot: &mut AssetSlot, r: Option<EngineCall>| #[trigger]
            call_ensures(
                plan_order,
                (slot, &(Action::PlaceBuy { side, price, size_usdc, signal_ts })),
                r,
            ) ==> r == Some(
                EngineCall::Buy {
                    token: side_token(*slot, side),
                    price,
                    size_usdc,
                    max_buy_price: slot.max_buy_price,
                },
            ) && final(slot).current_token_id == Some(side_token(*slot, side)),
        forall|slot: &mut AssetSlot, r: Option<EngineCall>| #[trigger]
            call_ensures(
                plan_order,
                (slot, &(Action::PlaceLimitBuy { side, price, shares, signal_ts })),
                r,
            ) ==> r == Some(
                EngineCall::LimitBuy { token: side_token(*slot, side), shares, price },
            ) && final(slot).current_token_id == Some(side_token(*slot, side)),
{
}

/// A sale asks for the token in hand, for the shares and, where one is set, the least price that
/// it names; without a token in hand nothing is asked. It does not change what is in hand.
pub proof fn sales_ask_for_the_token_in_hand(
    shares: Num,
    price: Num,
    reason: CloseReason,
    signal_ts: Num,
)
    ensures
        forall|slot: &mut AssetSlot, r: Option<EngineCall>| #[trigger]
            call_ensures(plan_order, (slot, &(Action::PlaceLimitSell { shares, price })), r) ==> {
                &&& r is Some <==> slot.current_token_id is Some
                &&& r is Some ==> r->0 == (EngineCall::LimitSell {
                    token: slot.current_token_id->0,
                    shares,
                    price,
                })
                &&& *final(slot) == *slot
            },
        forall|slot: &mut AssetSlot, r: Option<EngineCall>| #[trigger]
            call_ensures(
                plan_order,
                (
                    slot,
                    &(Action::ClosePosition { shares, reason, limit_price: Some(price), signal_ts }),
                ),
                r,
            ) ==> {
                &&& r is Some <==> slot.current_token_id is Some
                &&& r is Some ==> r->0 == (EngineCall::CloseAtPrice {
                    token: slot.current_token_id->0,
                    shares,
                    min_price: price,
                })
                &&& *final(slot) == *slot
            },
        forall|slot: &mut AssetSlot, r: Option<EngineCall>| #[trigger]
            call_ensures(
                plan_order,
                (
                    slot,
                    &(Action::ClosePosition { shares, reason, limit_price: None, signal_ts }),
                ),
                r,
            ) ==> {
                &&& r is Some <==> slot.current_token_id is Some
                &&& r is Some ==> r->0 == (EngineCall::Close {
                    token: slot.current_token_id->0,
                    shares,
                })
                &&& *final(slot) == *slot
            },
{
}

/// Only orders ask something of the engine, and a cancellation names its own order.
pub proof fn reports_ask_nothing(order_id: String, side: Side, quote_price: Num, reason: String)
    ensures
        forall|slot: &mut AssetSlot, r: Option<EngineCall>| #[trigger]
            call_ensures(plan_order, (slot, &(Action::CancelLimitSell { order_id })), r) ==> r
                == Some(EngineCall::Cancel { order_id }) && *final(slot) == *slot,
        forall|slot: &mut AssetSlot, r: Option<EngineCall>| #[trigger]
            call_ensures(
                plan_order,
                (
                    slot,
                    &(Action::CancelEntryQuote {
                        order_id: Some(order_id),
                        side,
                        quote_price,
                        reason,
                    }),
                ),
                r,
            ) ==> r == Some(EngineCall::Cancel { order_id }) && *final(slot) == *slot,
        forall|slot: &mut AssetSlot, r: Option<EngineCall>| #[trigger]
            call_ensures(plan_order, (slot, &Action::Persist), r) ==> r is None && *final(slot)
                == *slot,
        forall|slot: &mut AssetSlot, r: Option<EngineCall>| #[trigger]
            call_ensures(plan_order, (slot, &Action::HaltEngaged), r) ==> r is None && *final(slot)
                == *slot,
{
}

/// A worker is told of a fill exactly when something was bought, and then what and for how much;
/// else that the order was rejected.
pub proof fn buy_is_told_as_it_was_filled(times: OrderTimes, result: TradeResult, calc: Calc)
    ensures
        buy_event(times, result, calc) is OrderFilled <==> result.placed && num(ZERO).lt(
            result.filled_shares,
        ),
        buy_event(times, result, calc) is OrderFilled || buy_event(
            times,
            result,
            calc,
        ) is OrderRejected,
        buy_event(times, result, calc) is OrderFilled ==> {
            let e = buy_event(times, result, calc);
            &&& e->OrderFilled_filled_shares == result.filled_shares
            &&& e->OrderFilled_cost == result.cost
            &&& e->OrderFilled_signal_latency_ms == took(times.signal_ts, times.received_ts, calc)
            &&& e->OrderFilled_process_latency_ms == took(
                times.signal_ts,
                times.confirmed_ts,
                calc,
            )
        },
{
}

/// Milliseconds from one time to a later one.
pub open spec fn took(from: Num, to: Num, calc: Calc) -> Num {
    calc.times(calc.minus(to, from), num(0x408F_4000_0000_0000))
}

/// What a sale brought for a share, nothing when none was sold.
pub open spec fn per_share(result: CloseResult, calc: Calc) -> Num {
    if num(ZERO).lt(result.shares_sold) {
        calc.over(result.filled_usdc, result.shares_sold)
    } else {
        num(ZERO)
    }
}

/// A worker is told of a sale by the reason for it: a take-profit as an unwind, a stop as a stop
/// and a time limit as a timeout; how many shares went, and what each of them brought. A sale that
/// did not go through is told as failed, with the reason that was given.
pub proof fn sale_is_told_by_its_reason(times: OrderTimes, result: CloseResult, calc: Calc)
    ensures
        ({
            let done = result.status == SellStatus::Matched;
            let up = close_event(CloseReason::TakeProfit, times, result, calc);
            let stop = close_event(CloseReason::StopLoss, times, result, calc);
            let late = close_event(CloseReason::Timeout, times, result, calc);
            &&& done ==> up == (Event::UnwindFilled {
                sold_shares: result.shares_sold,
                exit_price: per_share(result, calc),
                signal_latency_ms: took(times.signal_ts, times.received_ts, calc),
                process_latency_ms: took(times.signal_ts, times.confirmed_ts, calc),
            })
            &&& done ==> stop == (Event::StopSellFilled {
                sold_shares: result.shares_sold,
                exit_price: per_share(result, calc),
                signal_latency_ms: took(times.signal_ts, times.received_ts, calc),
                process_latency_ms: took(times.signal_ts, times.confirmed_ts, calc),
            })
            &&& done ==> late == (Event::TimeoutSellFilled {
                sold_shares: result.shares_sold,
                exit_price: per_share(result, calc),
                signal_latency_ms: took(times.signal_ts, times.received_ts, calc),
                process_latency_ms: took(times.signal_ts, times.confirmed_ts, calc),
            })
            &&& !done ==> up == (Event::UnwindFailed { error: result.error })
            &&& !done ==> stop == (Event::StopSellFailed { error: result.error })
            &&& !done ==> late == (Event::TimeoutSellFailed { error: result.error })
        }),
{
}

/// The token is out of hand exactly when a sale went through and sold all of it.
pub proof fn token_leaves_the_hand_when_sold<
    F: Fn(Op, Num, Num) -> Num,
    W: Fn(Num, Layout) -> String,
>(
    shares: Num,
    reason: CloseReason,
    times: OrderTimes,
    time: &str,
    result: CloseResult,
    arith: Arith<F>,
    writer: Writer<W>,
)
    ensures
        forall|slot: &mut AssetSlot, r: Followup| #[trigger]
            call_ensures(
                close_followup::<F, W>,
                (slot, shares, reason, times, time, result, &arith, &writer),
                r,
            ) ==> {
                let all = result.status == SellStatus::Matched && shares.le(result.shares_sold);
                &&& all ==> final(slot).current_token_id is None
                &&& !all ==> final(slot).current_token_id == slot.current_token_id
                &&& r.notice is Some <==> result.status == SellStatus::Matched
                &&& r.event == close_event(reason, times, result, arith@)
            },
{
}

/// In the real numbers: a simulated sale that names no proceeds brings the last price of its side
/// for each share; any other sale keeps what it brought.
pub proof fn dry_sale_is_priced_at_the_last_price<F: Fn(Op, Num, Num) -> Num>(
    mode: RunMode,
    slot: AssetSlot,
    token: TokenId,
    arith: Arith<F>,
)
    ensures
        forall|result: &mut CloseResult| #[trigger]
            call_ensures(price_dry_run::<F>, (mode, &slot, token, result, &arith), ()) ==> {
                let unpriced = mode == RunMode::DryRun && result.status == SellStatus::Matched
                    && result.filled_usdc.le(num(ZERO)) && num(ZERO).le(result.filled_usdc) && num(
                    ZERO,
                ).lt(result.shares_sold);
                let last = if token == slot.up_id {
                    slot.last_poly_up
                } else {
                    slot.last_poly_dn
                };
                &&& unpriced ==> final(result).filled_usdc == arith@.times(result.shares_sold, last)
                &&& !unpriced ==> final(result).filled_usdc == result.filled_usdc
                &&& final(result).shares_sold == result.shares_sold
                &&& final(result).status == result.status
                &&& final(result).error == result.error
                &&& final(result).attempts == result.attempts
            },
{
}

/// A resting order is told as it was placed.
pub proof fn resting_orders_are_told<F: Fn(Op, Num, Num) -> Num, W: Fn(Num, Layout) -> String>(
    slot: AssetSlot,
    side: Side,
    price: Num,
    shares: Num,
    times: OrderTimes,
    time: &str,
    result: LimitSellResult,
    arith: Arith<F>,
    writer: Writer<W>,
    sale: bool,
)
    ensures
        forall|r: Followup| #[trigger]
            call_ensures(
                limit_buy_followup::<F, W>,
                (&slot, side, price, shares, times, time, result, &arith, &writer),
                r,
            ) ==> {
                &&& r.event is LimitBuyPlaced
                &&& r.event->LimitBuyPlaced_order_id == result.order_id
                &&& r.event->LimitBuyPlaced_status == result.status
                &&& r.event->LimitBuyPlaced_error == result.error
                &&& r.event->LimitBuyPlaced_signal_latency_ms == took(
                    times.signal_ts,
                    times.received_ts,
                    arith@,
                )
                &&& r.event->LimitBuyPlaced_process_latency_ms == took(
                    times.signal_ts,
                    times.confirmed_ts,
                    arith@,
                )
                &&& r.notice is Some <==> result.status == SellStatus::Live
            },
        forall|r: Followup| #[trigger]
            call_ensures(
                limit_sell_followup::<F>,
                (times.received_ts, times.confirmed_ts, result, &arith),
                r,
            ) ==> {
                &&& r.event is LimitSellPlaced
                &&& r.event->LimitSellPlaced_order_id == result.order_id
                &&& r.event->LimitSellPlaced_status == result.status
                &&& r.event->LimitSellPlaced_error == result.error
                &&& r.event->LimitSellPlaced_process_latency_ms == took(
                    times.received_ts,
                    times.confirmed_ts,
                    arith@,
                )
            },
        forall|r: Event| #[trigger]
            call_ensures(resting_fill_event, (sale, shares, price), r) ==> {
                &&& sale ==> r is UnwindFilled && r->UnwindFilled_sold_shares == shares
                    && r->UnwindFilled_exit_price == price
                &&& !sale ==> r is EntryQuoteFilled && r->EntryQuoteFilled_filled_shares == shares
                    && r->EntryQuoteFilled_cost == price
            },
{
}

/// A fill belongs to the first slot whose resting order it is: of those that close for a sale,
/// of those that open for a purchase.
pub proof fn fill_belongs_to_its_order(
    sale: bool,
    order_id: &str,
    closing: Vec<Option<String>>,
    opening: Vec<Option<String>>,
)
    ensures
        forall|r: Option<usize>| #[trigger]
            call_ensures(fill_owner, (sale, order_id, &closing, &opening), r) && r is Some ==> {
                let orders = if sale {
                    closing@
                } else {
                    opening@
                };
                &&& r->0 < orders.len()
                &&& orders[r->0 as int] is Some
                &&& orders[r->0 as int]->0@ == order_id@
                &&& forall|j: int|
                    0 <= j < r->0 && (#[trigger] orders[j]) is Some ==> orders[j]->0@ != order_id@
            },
{
}

// ── Times ───────────────────────────────────────────────────────────────────

/// In the real numbers: a delay is a thousand times the seconds from the one time to the other,
/// and that of the exchange runs from its own time to the receipt.
pub proof fn delays_are_milliseconds<F: Fn(Op, Num, Num) -> Num>(
    from: Num,
    to: Num,
    arith: Arith<F>,
    val: spec_fn(Num) -> real,
)
    requires
        exact(arith@, val),
        val(num(0x408F_4000_0000_0000)) == 1000real,
        from.is_finite(),
        to.is_finite(),
        fits(val, val(to) - val(from)),
        fits(val, (val(to) - val(from)) * 1000real),
    ensures
        forall|r: Num| #[trigger]
            call_ensures(latency_ms::<F>, (from, to, &arith), r) ==> val(r) == 1000real * (val(to)
                - val(from)),
        forall|r: Option<Num>| #[trigger]
            call_ensures(exchange_latency_ms::<F>, (Some(to), Some(from), &arith), r) ==> r is Some
                && val(r->0) == 1000real * (val(to) - val(from)),
        forall|r: Option<Num>| #[trigger]
            call_ensures(exchange_latency_ms::<F>, (Some(to), None::<Num>, &arith), r)
                ==> r is None,
        forall|r: Option<Num>| #[trigger]
            call_ensures(exchange_latency_ms::<F>, (None::<Num>, Some(from), &arith), r)
                ==> r is None,
{
}

/// The seconds that are left are those to the end of the cycle, and none once it has passed.
pub proof fn seconds_left_end_at_nothing<F: Fn(Op, Num, Num) -> Num>(
    slot: AssetSlot,
    now: Num,
    arith: Arith<F>,
)
    ensures
        forall|r: i64| #[trigger]
            call_ensures(seconds_left::<F>, (&slot, now, &arith), r) ==> {
                let left = arith@.minus(slot.worker.cycle_end_ts, now);
                &&& num(ZERO).lt(left) ==> r == arith@.to_signed(left)
                &&& left.lt(num(ZERO)) ==> r == arith@.to_signed(num(ZERO))
            },
{
}

// ── Cycles ──────────────────────────────────────────────────────────────────

/// The clock brings something exactly when the slot number changes: at the first look more than
/// five seconds into a cycle, that it is sat out; without a Binance price, that none can begin;
/// else the next cycle. An open cycle ends with it. The number is taken down.
pub proof fn clock_turns_once_a_cycle<F: Fn(Op, Num, Num) -> Num>(
    slot_now: u64,
    now: Num,
    arith: Arith<F>,
)
    ensures
        forall|slot: &mut AssetSlot, r: Boundary| #[trigger]
            call_ensures(on_clock::<F>, (slot, slot_now, now, &arith), r) ==> {
                let late = slot.slot_val == 0 && num(0x4014_0000_0000_0000).lt(
                    arith@.minus(now, arith@.from_unsigned(slot_now)),
                );
                let turned = slot_now != slot.slot_val;
                let priced = !slot.last_binance.le(num(ZERO));
                &&& r is Same <==> !turned
                &&& r is SitOut <==> turned && late
                &&& r is NoPrice <==> turned && !late && !priced
                &&& r is Next <==> turned && !late && priced
                &&& r is NoPrice ==> (r->NoPrice_close <==> slot.current_slug is Some)
                &&& r is Next ==> (r->Next_close <==> slot.current_slug is Some)
                &&& final(slot).slot_val == slot_now
                &&& final(slot).current_slug == slot.current_slug
                &&& final(slot).cycle_trades == slot.cycle_trades
            },
        forall|first: bool, elapsed: Num, r: bool| #[trigger]
            call_ensures(should_suppress_startup_cycle, (first, elapsed), r) ==> (r <==> first
                && num(0x4014_0000_0000_0000).lt(elapsed)),
{
}

/// The next cycle begins with no trades and nothing announced; without a price there is none.
pub proof fn next_cycle_begins_fresh(close: bool)
    ensures
        forall|slot: &mut AssetSlot| #[trigger]
            call_ensures(settle_boundary, (slot, Boundary::Next { close }), ()) ==> {
                &&& final(slot).cycle_trades == 0
                &&& !final(slot).sl_notified
                &&& !final(slot).timeout_notified
                &&& final(slot).current_slug == slot.current_slug
                &&& final(slot).current_token_id == slot.current_token_id
                &&& final(slot).stats == slot.stats
                &&& final(slot).worker == slot.worker
            },
        forall|slot: &mut AssetSlot| #[trigger]
            call_ensures(settle_boundary, (slot, Boundary::NoPrice { close }), ())
                ==> final(slot).current_slug is None && final(slot).cycle_trades
                == slot.cycle_trades && final(slot).worker == slot.worker,
        forall|slot: &mut AssetSlot| #[trigger]
            call_ensures(settle_boundary, (slot, Boundary::Same), ()) ==> *final(slot) == *slot,
        forall|slot: &mut AssetSlot| #[trigger]
            call_ensures(settle_boundary, (slot, Boundary::SitOut), ()) ==> *final(slot) == *slot,
{
}

/// A cycle lasts as long as its market's, from its slot on, and opens at the last Binance price.
pub proof fn cycle_lasts_its_length<F: Fn(Op, Num, Num) -> Num>(
    slot: AssetSlot,
    slot_now: u64,
    arith: Arith<F>,
)
    requires
        slot_now + 14400 <= u64::MAX,
    ensures
        forall|r: CycleContext| #[trigger]
            call_ensures(cycle_context::<F>, (&slot, slot_now, &arith), r) ==> {
                let length: int = match slot.duration {
                    MarketDuration::M5 => 300,
                    MarketDuration::M15 => 900,
                    MarketDuration::HourlyEt => 3600,
                    MarketDuration::H4 => 14400,
                };
                &&& r.start_ts == arith@.from_unsigned(slot_now)
                &&& r.end_ts == arith@.from_unsigned((slot_now + length) as u64)
                &&& r.open_binance == slot.last_binance
            },
{
}

/// A tick is taken down with its times. A Binance tick reaches the worker only in a cycle that
/// has trades left, a token tick in every cycle.
pub proof fn ticks_reach_the_worker(
    b: BinanceTick,
    p: PolyTick,
    server_ts: Option<Num>,
    max_trades: u32,
)
    ensures
        forall|slot: &mut AssetSlot, r: bool| #[trigger]
            call_ensures(on_binance_tick, (slot, b, server_ts, max_trades), r) ==> {
                &&& r <==> slot.current_slug is Some && slot.cycle_trades < max_trades
                &&& final(slot).last_binance == b.price
                &&& final(slot).last_binance_ts == Some(b.ts)
                &&& final(slot).last_binance_server_ts == server_ts
                &&& final(slot).last_poly_up == slot.last_poly_up
                &&& final(slot).last_poly_dn == slot.last_poly_dn
                &&& final(slot).worker == slot.worker
            },
        forall|slot: &mut AssetSlot, r: bool| #[trigger]
            call_ensures(on_poly_tick, (slot, p, server_ts), r) ==> {
                &&& r <==> slot.current_slug is Some
                &&& final(slot).last_poly_up == p.up
                &&& final(slot).last_poly_dn == p.dn
                &&& final(slot).last_poly_ts == Some(p.ts)
                &&& final(slot).last_poly_server_ts == server_ts
                &&& final(slot).last_binance == slot.last_binance
                &&& final(slot).worker == slot.worker
            },
{
}

/// Only five-minute markets come from the publisher, where there is one; of the others all slots
/// of one market share one stream.
pub proof fn prices_come_from_one_stream(slot: AssetSlot, has_publisher: bool, shared: Vec<String>)
    ensures
        forall|r: PriceSource| #[trigger]
            call_ensures(price_source, (&slot, has_publisher, &shared), r) ==> {
                let short = slot.duration == MarketDuration::M5;
                &&& r == PriceSource::Publisher <==> short && has_publisher
                &&& r == PriceSource::OwnStream <==> short && !has_publisher
                &&& r == PriceSource::OldShared <==> !short && views(shared@).contains(slot.key())
            },
{
}

/// A resolution counts whenever it came: UP wins for UP and loses for DOWN. Without one the watch
/// goes on to its deadline, and then the balance has the say, when it is known to have risen.
pub proof fn resolution_decides_for_the_side(up: bool, side: Side, late: bool, balance: Option<bool>)
    ensures
        forall|r: WatchStep| #[trigger]
            call_ensures(watch_step, (Some(up), side, late), r) ==> r is Resolved && (r->won <==> (
            up <==> side == Side::Up)),
        forall|r: WatchStep| #[trigger]
            call_ensures(watch_step, (None::<bool>, side, late), r) ==> (r is GiveUp <==> late) && (
            r is LookAgain <==> !late),
        forall|r: Event| #[trigger]
            call_ensures(watch_event, (Some(up), balance), r) ==> r is ApiResult
                && r->ApiResult_won == up,
        forall|r: Event| #[trigger]
            call_ensures(watch_event, (None::<bool>, balance), r) ==> r is ApiResultTimeout && (
            r->balance_increased <==> balance == Some(true)),
{
}

/// The first look waits its delay, but not past the deadline, and two looks are a tenth of a
/// second apart at least.
pub proof fn looks_keep_their_distance(c: GammaPollCadence)
    requires
        !c.poll_delay_secs.is_nan(),
        !c.deadline_secs.is_nan(),
        !c.poll_interval_secs.is_nan(),
    ensures
        forall|r: Num| #[trigger]
            call_ensures(GammaPollCadence::first_wait, (&c,), r) ==> {
                &&& num(ZERO).le(r)
                &&& num(ZERO).le(c.deadline_secs) ==> r.le(c.deadline_secs)
                &&& num(ZERO).le(c.poll_delay_secs) && c.poll_delay_secs.le(c.deadline_secs) ==> r
                    == c.poll_delay_secs
            },
        forall|r: Num| #[trigger]
            call_ensures(GammaPollCadence::next_wait, (&c,), r) ==> {
                &&& num(0x3FB9_9999_9999_999A).le(r)
                &&& num(0x3FB9_9999_9999_999A).le(c.poll_interval_secs) ==> r
                    == c.poll_interval_secs
            },
{
}

// ── Gates and counts ────────────────────────────────────────────────────────

/// A gate is closed exactly when it was told to be or the losses have reached their limit. A halt
/// and a resume touch only the first, and forgetting the losses only the second.
pub proof fn gate_has_two_reasons(g: EntryGate)
    ensures
        forall|r: bool| #[trigger]
            call_ensures(EntryGate::is_halted, (&g,), r) ==> (r <==> g.suppressed || limit_reached(
                g.streak,
            )),
        forall|r: bool| #[trigger]
            call_ensures(EntryGate::loss_streak_halted, (&g,), r) ==> (r <==> limit_reached(
                g.streak,
            )),
        forall|h: &mut EntryGate| #[trigger]
            call_ensures(EntryGate::control, (h, ControlEvent::Halt), ()) ==> final(h).suppressed
                && final(h).streak == h.streak,
        forall|h: &mut EntryGate| #[trigger]
            call_ensures(EntryGate::control, (h, ControlEvent::Resume), ())
                ==> !final(h).suppressed && final(h).streak == h.streak,
        forall|h: &mut EntryGate| #[trigger]
            call_ensures(EntryGate::control, (h, ControlEvent::ResetLosses), ())
                ==> final(h).suppressed == h.suppressed && final(h).streak.losses == 0
                && final(h).streak.max == h.streak.max && final(h).streak.last_session
                == h.streak.last_session,
        forall|h: &mut EntryGate| #[trigger]
            call_ensures(EntryGate::drawdown_halt, (h,), ()) ==> final(h).suppressed
                && final(h).streak == h.streak,
{
}

/// All trades that were counted.
pub open spec fn all_counted(c: Counts) -> int {
    c.wins + c.losses + c.stoplosses + c.unwinds + c.timeouts
}

/// The count under an outcome.
pub open spec fn counted(c: Counts, o: Outcome) -> int {
    match o {
        Outcome::Win => c.wins as int,
        Outcome::Loss => c.losses as int,
        Outcome::StopLoss => c.stoplosses as int,
        Outcome::Unwind => c.unwinds as int,
        Outcome::Timeout => c.timeouts as int,
    }
}

/// A trade is counted once, under its own outcome, and its gain is added.
pub proof fn trade_counts_once<F: Fn(Op, Num, Num) -> Num>(outcome: Outcome, pnl: Num, arith: Arith<F>)
    ensures
        forall|c: &mut Counts| #[trigger]
            call_ensures(Counts::book::<F>, (c, outcome, pnl, &arith), ()) && counted(*c, outcome)
                < u32::MAX ==> {
                &&& counted(*final(c), outcome) == counted(*c, outcome) + 1
                &&& all_counted(*final(c)) == all_counted(*c) + 1
                &&& final(c).total_pnl == arith@.plus(c.total_pnl, pnl)
            },
{
}

/// A correction moves one trade from the one resolution to the other and leaves their number, and
/// puts the true gain in the place of the one that was added.
pub proof fn correction_moves_one_trade<F: Fn(Op, Num, Num) -> Num>(
    before: Outcome,
    before_pnl: Num,
    outcome: Outcome,
    pnl: Num,
    arith: Arith<F>,
)
    requires
        before == Outcome::Win || before == Outcome::Loss,
        outcome == Outcome::Win || outcome == Outcome::Loss,
    ensures
        forall|c: &mut Counts| #[trigger]
            call_ensures(Counts::correct::<F>, (c, before, before_pnl, outcome, pnl, &arith), ())
                && counted(*c, before) > 0 && counted(*c, outcome) < u32::MAX ==> {
                &&& all_counted(*final(c)) == all_counted(*c)
                &&& before != outcome ==> counted(*final(c), outcome) == counted(*c, outcome) + 1
                    && counted(*final(c), before) == counted(*c, before) - 1
                &&& before == outcome ==> counted(*final(c), outcome) == counted(*c, outcome)
                &&& final(c).total_pnl == arith@.plus(
                    c.total_pnl,
                    arith@.minus(pnl, before_pnl),
                )
            },
{
}

/// In the real numbers: a correction changes the total by the difference of the gains.
pub proof fn correction_replaces_the_gain<F: Fn(Op, Num, Num) -> Num>(
    before: Outcome,
    before_pnl: Num,
    outcome: Outcome,
    pnl: Num,
    total: Num,
    arith: Arith<F>,
    val: spec_fn(Num) -> real,
)
    requires
        exact(arith@, val),
        before_pnl.is_finite(),
        pnl.is_finite(),
        total.is_finite(),
        fits(val, val(pnl) - val(before_pnl)),
        fits(val, val(total) + (val(pnl) - val(before_pnl))),
    ensures
        forall|c: &mut Counts| #[trigger]
            call_ensures(Counts::correct::<F>, (c, before, before_pnl, outcome, pnl, &arith), ())
                && c.total_pnl == total ==> val(final(c).total_pnl) - val(total) == val(pnl) - val(
                before_pnl,
            ),
{
}

/// The limit and the reset hour of a slot are those of its strategy.
pub proof fn limits_go_by_the_strategy(slot: AssetSlot)
    ensures
        forall|r: i64| #[trigger]
            call_ensures(halt_limit_of, (&slot,), r) ==> {
                &&& slot.worker.strategy_name@ == "high_prob"@ ==> r == slot.params.halt_prob
                &&& slot.worker.strategy_name@ == "v_shape"@ ==> r == slot.params.halt_v
                &&& slot.worker.strategy_name@ == "reversal"@ ==> r == slot.params.halt_rev
            },
        forall|r: i64| #[trigger]
            call_ensures(reset_hour, (&slot,), r) ==> {
                &&& slot.worker.strategy_name@ == "high_prob"@ ==> r
                    == slot.params.halt_reset_hour_hp
                &&& slot.worker.strategy_name@ == "v_shape"@ ==> r == slot.params.halt_reset_hour_v
                &&& slot.worker.strategy_name@ == "reversal"@ ==> r
                    == slot.params.halt_reset_hour_rev
            },
{
    reveal_strlit("reversal");
    reveal_strlit("high_prob");
    reveal_strlit("v_shape");
    assert("reversal"@.len() == 8 && "high_prob"@.len() == 9 && "v_shape"@.len() == 7);
}

// ── Control ─────────────────────────────────────────────────────────────────

/// An order reaches a slot exactly when it is for all, or names the slot's asset or market in
/// whatever case, and the slot's strategy where it names one. It then does to the slot's gate what
/// it says and to nothing else; other slots stay as they are.
pub proof fn orders_reach_whom_they_name(slot: AssetSlot, order: OrderView)
    ensures
        ({
            let named = order.asset.len() == 0 || ((same_letters(slot.worker.asset@, order.asset)
                || same_letters(slot.key(), order.asset)) && (order.strategy is Some
                ==> same_letters(slot.worker.strategy_name@, order.strategy->0)));
            let after = ordered(slot, order);
            &&& !named ==> after == slot
            &&& named && order.event == ControlEvent::Halt ==> after.worker.gate.suppressed
                && after.worker.gate.streak == slot.worker.gate.streak
            &&& named && order.event == ControlEvent::Resume ==> !after.worker.gate.suppressed
                && after.worker.gate.streak == slot.worker.gate.streak
            &&& named && order.event == ControlEvent::ResetLosses
                ==> after.worker.gate.streak.losses == 0 && after.worker.gate.suppressed
                == slot.worker.gate.suppressed
            &&& after == (AssetSlot { worker: after.worker, ..slot })
            &&& after.worker.asset == slot.worker.asset
            &&& after.worker.strategy_name == slot.worker.strategy_name
            &&& after.worker.confirming == slot.worker.confirming
        }),
{
}

/// A halt, a resume and a reset give the orders of their names; a strategy counts only together
/// with an asset. No other command changes a slot.
pub proof fn commands_give_their_orders(
    asset: Seq<char>,
    strategy: Option<Seq<char>>,
    slots: Seq<AssetSlot>,
    i: int,
)
    requires
        0 <= i < slots.len(),
    ensures
        ({
            let narrow = if asset.len() == 0 {
                None
            } else {
                strategy
            };
            &&& slots_after(CommandView::Halt { asset, strategy }, slots)[i] == ordered(
                slots[i],
                OrderView { event: ControlEvent::Halt, asset, strategy: narrow },
            )
            &&& slots_after(CommandView::Resume { asset, strategy }, slots)[i] == ordered(
                slots[i],
                OrderView { event: ControlEvent::Resume, asset, strategy: narrow },
            )
            &&& slots_after(CommandView::ResetLosses { asset }, slots)[i] == ordered(
                slots[i],
                OrderView { event: ControlEvent::ResetLosses, asset, strategy: None },
            )
            &&& slots_after(CommandView::Status, slots)[i] == slots[i]
            &&& slots_after(CommandView::Help, slots)[i] == slots[i]
        }),
{
}

/// A balance that fell closes the gates of the slots whose trade waits for its resolution; one
/// that fell a quarter below the first closes all; any other closes none, and none opens one.
pub proof fn fallen_balance_closes_gates<F: Fn(Op, Num, Num) -> Num>(
    balance: Num,
    trading: Vec<String>,
    arith: Arith<F>,
)
    ensures
        forall|
            slots: &mut Vec<AssetSlot>,
            tracker: &mut GammaBalanceTracker,
            guard: &mut BalanceGuard,
            r: BalanceReport,
        | #[trigger]
            call_ensures(
                on_balance::<F>,
                (slots, tracker, guard, Some(balance), &trading, &arith),
                r,
            ) ==> {
                let fell = tracker.last_sample is Some && !tracker.last_sample->0.lt(balance);
                let far = guard.initial_balance is Some && !guard.halt_fired
                    && !guard.initial_balance->0.le(num(ZERO)) && num(0x3FD0_0000_0000_0000).lt(
                    arith@.over(
                        arith@.minus(guard.initial_balance->0, balance),
                        guard.initial_balance->0,
                    ),
                );
                &&& r.all_halted <==> far
                &&& r.notice is Some <==> far
                &&& final(slots)@.len() == slots@.len()
                &&& forall|i: int|
                    0 <= i < slots@.len() ==> {
                        let s = slots@[i];
                        let a = #[trigger] final(slots)@[i];
                        &&& far || (fell && s.worker.confirming) ==> a.worker.gate.suppressed
                        &&& !far && !(fell && s.worker.confirming) ==> a == s
                        &&& a.worker.gate.streak == s.worker.gate.streak
                    }
            },
{
}

/// The slot that is found is of that market and strategy.
pub proof fn found_slot_is_the_one(slots: Vec<AssetSlot>, market: &str, strategy: &str)
    ensures
        forall|r: Option<usize>| #[trigger]
            call_ensures(find_slot, (&slots, market, strategy), r) && r is Some ==> {
                &&& r->0 < slots@.len()
                &&& slots@[r->0 as int].key() == market@
                &&& slots@[r->0 as int].worker.strategy_name@ == strategy@
            },
{
}

/// Orders go to the exchange only when neither a paper nor a dry run was asked for, and paper
/// comes before dry. What is simulated says so.
pub proof fn simulated_runs_say_so(paper: bool, toml_paper: bool, dry: bool, text: &str)
    ensures
        forall|r: RunMode| #[trigger]
            call_ensures(resolve_run_mode, (paper, toml_paper, dry), r) ==> {
                &&& r == RunMode::Real <==> !paper && !toml_paper && !dry
                &&& r == RunMode::Paper <==> paper || toml_paper
            },
        forall|r: String| #[trigger]
            call_ensures(with_prefix, (RunMode::Paper, text), r) ==> r@ == "[PAPER] "@ + text@,
        forall|r: String| #[trigger]
            call_ensures(with_prefix, (RunMode::DryRun, text), r) ==> r@ == "[DRY] "@ + text@,
        forall|r: String| #[trigger]
            call_ensures(with_prefix, (RunMode::Real, text), r) ==> r@ == ""@ + text@,
{
}

/// A close is announced when it is the first for its reason since the cycle began, and a
/// take-profit never; only the mark of that reason is set by it.
pub proof fn close_is_announced_for_its_reason<
    F: Fn(Op, Num, Num) -> Num,
    W: Fn(Num, Layout) -> String,
>(token: TokenId, now: Num, time: &str, arith: Arith<F>, writer: Writer<W>)
    ensures
        forall|slot: &mut AssetSlot, r: Option<String>| #[trigger]
            call_ensures(
                close_alert::<F, W>,
                (slot, token, CloseReason::StopLoss, now, time, &arith, &writer),
                r,
            ) ==> (r is Some <==> !slot.sl_notified) && final(slot).sl_notified
                && final(slot).timeout_notified == slot.timeout_notified,
        forall|slot: &mut AssetSlot, r: Option<String>| #[trigger]
            call_ensures(
                close_alert::<F, W>,
                (slot, token, CloseReason::Timeout, now, time, &arith, &writer),
                r,
            ) ==> (r is Some <==> !slot.timeout_notified) && final(slot).timeout_notified
                && final(slot).sl_notified == slot.sl_notified,
        forall|slot: &mut AssetSlot, r: Option<String>| #[trigger]
            call_ensures(
                close_alert::<F, W>,
                (slot, token, CloseReason::TakeProfit, now, time, &arith, &writer),
                r,
            ) ==> r is None && *final(slot) == *slot,
{
}

/// A resume that reaches somebody lets the next balance be the first again; nothing else touches
/// what the guard holds balances against.
pub proof fn resume_forgets_the_first_balance(
    asset: Seq<char>,
    strategy: Option<Seq<char>>,
    slots: Seq<AssetSlot>,
    guard: BalanceGuard,
)
    ensures
        ({
            let narrow = if asset.len() == 0 {
                None
            } else {
                strategy
            };
            let order = OrderView { event: ControlEvent::Resume, asset, strategy: narrow };
            let reached = asset.len() == 0 || exists|i: int|
                0 <= i < slots.len() && meant(#[trigger] slots[i], order);
            let a = guard_after(CommandView::Resume { asset, strategy }, slots, guard);
            &&& reached ==> a.initial_balance is None && !a.halt_fired
            &&& !reached ==> a == guard
            &&& guard_after(CommandView::Halt { asset, strategy }, slots, guard) == guard
            &&& guard_after(CommandView::ResetLosses { asset }, slots, guard) == guard
            &&& guard_after(CommandView::Status, slots, guard) == guard
        }),
{
    let narrow = if asset.len() == 0 {
        None
    } else {
        strategy
    };
    touched_are_meant(slots, OrderView { event: ControlEvent::Resume, asset, strategy: narrow });
}

/// The touched slots are those that the order is meant for, each once.
pub proof fn touched_are_meant(slots: Seq<AssetSlot>, order: OrderView)
    ensures
        meant_indices(slots, order).len() > 0 <==> exists|i: int|
            0 <= i < slots.len() && meant(#[trigger] slots[i], order),
        slots.len() <= usize::MAX ==> forall|k: int|
            0 <= k < meant_indices(slots, order).len() ==> {
                let i = #[trigger] meant_indices(slots, order)[k] as int;
                i < slots.len() && meant(slots[i], order)
            },
    decreases slots.len(),
{
    if slots.len() > 0 {
        let rest = slots.drop_last();
        touched_are_meant(rest, order);
        let n = slots.len() - 1;
        assert(slots[n] == slots.last());
        if exists|i: int| 0 <= i < rest.len() && meant(#[trigger] rest[i], order) {
            let i = choose|i: int| 0 <= i < rest.len() && meant(#[trigger] rest[i], order);
            assert(slots[i] == rest[i]);
        }
        if exists|i: int| 0 <= i < slots.len() && meant(#[trigger] slots[i], order) {
            let i = choose|i: int| 0 <= i < slots.len() && meant(#[trigger] slots[i], order);
            if i < n {
                assert(rest[i] == slots[i]);
            }
        }
        if slots.len() <= usize::MAX {
            let before = meant_indices(rest, order);
            let all = meant_indices(slots, order);
            assert forall|k: int| 0 <= k < all.len() implies {
                let i = #[trigger] all[k] as int;
                i < slots.len() && meant(slots[i], order)
            } by {
                if k < before.len() {
                    assert(all[k] == before[k]);
                    assert(rest[before[k] as int] == slots[before[k] as int]);
                }
            }
        }
    }
}

/// The log of halts tells the state of the slot's gate.
pub proof fn halt_log_tells_the_gate<F: Fn(Op, Num, Num) -> Num>(
    slot: AssetSlot,
    event: &str,
    secs: i64,
    millis: u64,
    arith: Arith<F>,
)
    ensures
        forall|r: ControlEntry| #[trigger]
            call_ensures(control_entry::<F>, (&slot, event, secs, millis, &arith), r) ==> {
                &&& r.event@ == event@
                &&& r.strategy@ == slot.worker.strategy_name@
                &&& r.entry_suppressed == slot.worker.gate.suppressed
                &&& r.halt_losses == slot.worker.gate.streak.losses
                &&& r.is_halted <==> slot.worker.gate.suppressed || limit_reached(
                    slot.worker.gate.streak,
                )
            },
{
}

/// The status shows the levels of the slot's own strategy.
pub proof fn status_shows_its_own_terms(slot: AssetSlot)
    ensures
        forall|t: Terms| #[trigger]
            call_ensures(terms, (&slot,), t) ==> {
                let p = slot.params;
                let name = slot.worker.strategy_name@;
                &&& name == "high_prob"@ ==> t.sl == p.sl_high_prob && t.delta_gate
                    == p.delta_pct_hp && t.low == p.price_low && t.high == p.price_high && t.halt_n
                    == p.halt_prob && t.unwind_pnl == p.unwind_pnl_hp && t.sl_pnl == p.sl_pnl_hp
                    && t.unwind_time == p.unwind_time_hp && t.start is None
                &&& name == "v_shape"@ ==> t.sl == p.sl_v_shape && t.delta_gate == p.delta_pct_v
                    && t.low == p.v_low && t.high == p.v_high2 && t.halt_n == p.halt_v
                    && t.unwind_pnl == p.unwind_pnl_v && t.sl_pnl == p.sl_pnl_v && t.unwind_time
                    == p.unwind_time_v && t.start is None
                &&& name == "reversal"@ ==> t.sl == p.sl_reversal && t.delta_gate
                    == p.delta_pct_rev && t.low == p.reversal_low_threshold && t.high == p.reversal
                    && t.halt_n == p.halt_rev && t.unwind_pnl == p.unwind_pnl_rev && t.sl_pnl
                    == p.sl_pnl_rev && t.unwind_time == p.unwind_time_rev && t.start == Some(
                    p.reversal_start_time,
                )
            },
{
    reveal_strlit("reversal");
    reveal_strlit("high_prob");
    reveal_strlit("v_shape");
    assert("reversal"@.len() == 8 && "high_prob"@.len() == 9 && "v_shape"@.len() == 7);
}

/// A gate shows green exactly when nothing closes it, and else tells each of its reasons.
pub proof fn light_is_green_when_open(g: EntryGate)
    ensures
        forall|r: String| #[trigger]
            call_ensures(light, (&g,), r) ==> {
                let lost = limit_reached(g.streak);
                &&& !g.suppressed && !lost ==> r@ == "🟢 active"@
                &&& g.suppressed && !lost ==> r@ == "🟡 halted ("@ + "suppressed"@ + ")"@
                &&& !g.suppressed && lost ==> r@ == "🟡 halted ("@ + ("loss-streak "@
                    + signed_decimal(g.streak.losses as int) + "/"@ + signed_decimal(
                    g.streak.max as int,
                )) + ")"@
                &&& g.suppressed && lost ==> r@ == "🟡 halted ("@ + ("suppressed"@ + " + "@ + (
                "loss-streak "@ + signed_decimal(g.streak.losses as int) + "/"@ + signed_decimal(
                    g.streak.max as int,
                ))) + ")"@
            },
{
    let lost = "loss-streak "@ + signed_decimal(g.streak.losses as int) + "/"@ + signed_decimal(
        g.streak.max as int,
    );
    reveal_with_fuel(joined, 3);
    assert(Seq::<Seq<char>>::empty().push(lost) =~= seq![lost]);
    let both = seq!["suppressed"@].push(lost);
    assert(both.drop_last() =~= seq!["suppressed"@]);
}

/// Halts go into their log by name, and no other report does.
pub proof fn halts_are_logged(rec: TradeRecord)
    ensures
        control_name(Action::HaltEngaged) == Some("halt_engaged"@),
        control_name(Action::HaltReset) == Some("halt_reset"@),
        control_name(Action::HaltClearedByCorrection) == Some("halt_cleared_by_correction"@),
        control_name(Action::GammaHaltEngaged { record: rec }) == Some("gamma_halt_engaged"@),
        control_name(Action::LogTrade(rec)) is None,
        control_name(Action::Persist) is None,
{
}

/// The picture of a trade says whether it won: by its outcome, and for one that ran out of time by
/// its gain.
pub proof fn picture_says_whether_it_won(pnl: Num)
    ensures
        icon_text(Outcome::Win, pnl) == "✅"@,
        icon_text(Outcome::Unwind, pnl) == "✅"@,
        icon_text(Outcome::Loss, pnl) == "❌"@,
        icon_text(Outcome::StopLoss, pnl) == "❌"@,
        num(ZERO).le(pnl) ==> icon_text(Outcome::Timeout, pnl) == "⏱️✅"@,
        !num(ZERO).le(pnl) ==> icon_text(Outcome::Timeout, pnl) == "⏱️❌"@,
        num(ZERO).le(pnl) ==> either_sign(pnl) == "+"@ && plus_sign(pnl) == "+"@,
        !num(ZERO).le(pnl) ==> either_sign(pnl) == "-"@ && plus_sign(pnl) == ""@,
{
}

/// The totals of all slots are those of the slots, added up under each outcome.
pub proof fn totals_add_up_the_slots(slots: Seq<AssetSlot>, s: AssetSlot, o: Outcome, calc: Calc)
    ensures
        total(Seq::empty(), o) == 0,
        total(slots.push(s), o) == total(slots, o) + counted(s.stats.counts, o),
        total_gain(slots.push(s), calc) == calc.plus(
            total_gain(slots, calc),
            s.stats.counts.total_pnl,
        ),
        total_gain(Seq::empty(), calc) == num(ZERO),
{
    assert(slots.push(s).drop_last() =~= slots);
}

} // verus!

//! Orders of a slot: what to ask of the engine, and what to make of its answer.

use vstd::prelude::*;
use vstd::string::StringExecFns;

use crate::execution::{CloseResult, LimitSellResult, SellStatus, TokenId, TradeResult};
use crate::live::latency::{
    ago_text, exchange_latency_ms, exchange_ms, fmt_ago, fmt_latency, latency_ms, latency_text,
    ms_between,
};
use crate::live::messages::{
    close_executed, close_executed_text, latency_note, latency_note_text, order_placed,
    order_placed_text, order_rejected, order_rejected_text, quote_resting, quote_resting_text,
    stop_triggered, stop_triggered_text, timeout_triggered, timeout_triggered_text,
};
use crate::live::slot::{AssetSlot, ControlEvent};
use crate::live::{arrow_side, arrow_text, RunMode};
use crate::execution::HUNDRED;
use crate::num::{larger, num, num_max, Arith, Calc, Layout, Num, Op, Writer, ZERO};
use crate::telegram::commands::opt_view;
use crate::text::same_text;
use crate::types::{BinanceTick, CycleContext, Outcome, PolyTick, Side, TradeRecord};

verus! {

/// Why a position is closed early.
#[derive(Clone, Copy, Debug, PartialEq, Eq, Structural)]
pub enum CloseReason {
    StopLoss,
    TakeProfit,
    Timeout,
}

impl CloseReason {
    pub open spec fn label_text(self) -> Seq<char> {
        match self {
            CloseReason::StopLoss => "STOP LOSS"@,
            CloseReason::TakeProfit => "TAKE PROFIT"@,
            CloseReason::Timeout => "TIME LIMIT"@,
        }
    }

    pub fn label(self) -> (r: &'static str)
        ensures
            r@ == self.label_text(),
    {
        match self {
            CloseReason::StopLoss => "STOP LOSS",
            CloseReason::TakeProfit => "TAKE PROFIT",
            CloseReason::Timeout => "TIME LIMIT",
        }
    }
}

/// The feed whose tick brought an action about.
#[derive(Clone, Copy, Debug, PartialEq, Eq, Structural)]
pub enum Feed {
    Clob,
    Binance,
}

/// What the check of the odds found.
#[derive(Clone, Copy, Debug, PartialEq, Eq, Structural)]
pub enum PupGateOutcome {
    Veto,
    SkippedNoData,
}

/// What a worker asks of the driver.
#[derive(Clone, Debug)]
pub enum Action {
    PlaceBuy { side: Side, price: Num, size_usdc: Num, signal_ts: Num },
    PlaceLimitSell { shares: Num, price: Num },
    PlaceLimitBuy { side: Side, price: Num, shares: Num, signal_ts: Num },
    ClosePosition { shares: Num, reason: CloseReason, limit_price: Option<Num>, signal_ts: Num },
    CancelLimitSell { order_id: String },
    CancelEntryQuote { order_id: Option<String>, side: Side, quote_price: Num, reason: String },
    PupGateNote { side: Side, p_side: Option<Num>, price: Num, outcome: PupGateOutcome },
    Persist,
    LogTrade(TradeRecord),
    LogTradeCorrection { previous_outcome: Outcome, previous_pnl: Num, record: TradeRecord },
    StopLossVerdict { record: TradeRecord, would_have_won: bool },
    HaltEngaged,
    HaltReset,
    HaltClearedByCorrection,
    GammaHaltEngaged { record: TradeRecord },
    GammaUnresolvedContinued { record: TradeRecord, entry_suppressed: bool },
    ApiResultNote(String),
}

/// What the driver tells a worker.
#[derive(Clone, Debug)]
pub enum Event {
    BinanceTick(BinanceTick),
    PolyTick(PolyTick),
    CycleOpen { ctx: CycleContext, slug: String },
    CycleClose,
    OrderFilled { filled_shares: Num, cost: Num, signal_latency_ms: Num, process_latency_ms: Num },
    OrderRejected,
    LimitSellPlaced {
        order_id: Option<String>,
        status: SellStatus,
        error: Option<String>,
        signal_latency_ms: Num,
        process_latency_ms: Num,
    },
    LimitBuyPlaced {
        order_id: Option<String>,
        status: SellStatus,
        error: Option<String>,
        signal_latency_ms: Num,
        process_latency_ms: Num,
    },
    EntryQuoteFilled {
        filled_shares: Num,
        cost: Num,
        signal_latency_ms: Num,
        process_latency_ms: Num,
    },
    UnwindFilled { sold_shares: Num, exit_price: Num, signal_latency_ms: Num, process_latency_ms: Num },
    StopSellFilled { sold_shares: Num, exit_price: Num, signal_latency_ms: Num, process_latency_ms: Num },
    TimeoutSellFilled {
        sold_shares: Num,
        exit_price: Num,
        signal_latency_ms: Num,
        process_latency_ms: Num,
    },
    UnwindFailed { error: Option<String> },
    StopSellFailed { error: Option<String> },
    TimeoutSellFailed { error: Option<String> },
    Control(ControlEvent),
    DrawdownHalt,
    ApiResult { won: bool },
    ApiResultTimeout { balance_increased: bool },
    IndicatorUpdate { p_up: Num, ts: Num },
}

/// What to ask of the engine.
#[derive(Clone, Debug)]
pub enum EngineCall {
    Buy { token: TokenId, price: Num, size_usdc: Num, max_buy_price: Num },
    LimitSell { token: TokenId, shares: Num, price: Num },
    LimitBuy { token: TokenId, shares: Num, price: Num },
    Close { token: TokenId, shares: Num },
    CloseAtPrice { token: TokenId, shares: Num, min_price: Num },
    Cancel { order_id: String },
}

/// What an action asks of the engine. Without a token at hand nothing can be sold.
pub open spec fn call_for(slot: AssetSlot, action: Action) -> Option<EngineCall> {
    match action {
        Action::PlaceBuy { side, price, size_usdc, .. } => Some(
            EngineCall::Buy {
                token: slot.token_of(side),
                price,
                size_usdc,
                max_buy_price: slot.max_buy_price,
            },
        ),
        Action::PlaceLimitSell { shares, price } => match slot.current_token_id {
            Some(token) => Some(EngineCall::LimitSell { token, shares, price }),
            None => None,
        },
        Action::PlaceLimitBuy { side, price, shares, .. } => Some(
            EngineCall::LimitBuy { token: slot.token_of(side), shares, price },
        ),
        Action::ClosePosition { shares, limit_price, .. } => match slot.current_token_id {
            Some(token) => match limit_price {
                Some(min_price) => Some(EngineCall::CloseAtPrice { token, shares, min_price }),
                None => Some(EngineCall::Close { token, shares }),
            },
            None => None,
        },
        Action::CancelLimitSell { order_id } => Some(EngineCall::Cancel { order_id }),
        Action::CancelEntryQuote { order_id, .. } => match order_id {
            Some(id) => Some(EngineCall::Cancel { order_id: id }),
            None => None,
        },
        _ => None,
    }
}

/// The token that the slot has in hand once the order is under way.
pub open spec fn token_after(slot: AssetSlot, action: Action) -> Option<TokenId> {
    match action {
        Action::PlaceBuy { side, .. } => Some(slot.token_of(side)),
        Action::PlaceLimitBuy { side, .. } => Some(slot.token_of(side)),
        _ => slot.current_token_id,
    }
}

/// What to ask of the engine for an action.
pub fn plan_order(slot: &mut AssetSlot, action: &Action) -> (r: Option<EngineCall>)
    ensures
        r == call_for(*old(slot), *action),
        *final(slot) == (AssetSlot {
            current_token_id: token_after(*old(slot), *action),
            ..*old(slot)
        }),
{
    match action {
        Action::PlaceBuy { side, price, size_usdc, .. } => {
            let token = slot.token(*side);
            slot.current_token_id = Some(token);
            Some(
                EngineCall::Buy {
                    token,
                    price: *price,
                    size_usdc: *size_usdc,
                    max_buy_price: slot.max_buy_price,
                },
            )
        },
        Action::PlaceLimitSell { shares, price } => match slot.current_token_id {
            Some(token) => Some(
                EngineCall::LimitSell { token, shares: *shares, price: *price },
            ),
            None => None,
        },
        Action::PlaceLimitBuy { side, price, shares, .. } => {
            let token = slot.token(*side);
            slot.current_token_id = Some(token);
            Some(EngineCall::LimitBuy { token, shares: *shares, price: *price })
        },
        Action::ClosePosition { shares, limit_price, .. } => match slot.current_token_id {
            Some(token) => match limit_price {
                Some(min_price) => Some(
                    EngineCall::CloseAtPrice { token, shares: *shares, min_price: *min_price },
                ),
                None => Some(EngineCall::Close { token, shares: *shares }),
            },
            None => None,
        },
        Action::CancelLimitSell { order_id } => Some(
            EngineCall::Cancel { order_id: order_id.clone() },
        ),
        Action::CancelEntryQuote { order_id, .. } => match order_id {
            Some(id) => Some(EngineCall::Cancel { order_id: id.clone() }),
            None => None,
        },
        _ => None,
    }
}

/// A stop or a take-profit sells only what is held: with no token in hand nothing is asked
/// of the engine, and a take-profit is never sold below its price.
pub proof fn close_respects_token_and_floor(slot: AssetSlot, action: Action)
    requires
        action is ClosePosition,
    ensures
        slot.current_token_id is None ==> call_for(slot, action) is None,
        action->ClosePosition_limit_price is Some && slot.current_token_id is Some ==> call_for(
            slot,
            action,
        ) == Some(
            EngineCall::CloseAtPrice {
                token: slot.current_token_id->0,
                shares: action->ClosePosition_shares,
                min_price: action->ClosePosition_limit_price->0,
            },
        ),
{
}

/// The moments of an order: its cause, its start and its end.
#[derive(Clone, Copy, Debug)]
pub struct OrderTimes {
    pub signal_ts: Num,
    pub received_ts: Num,
    pub confirmed_ts: Num,
    /// When the answer is worked on.
    pub now: Num,
}

/// Whole seconds until the cycle ends, not below zero.
pub open spec fn secs_left(slot: AssetSlot, now: Num, calc: Calc) -> i64 {
    calc.to_signed(larger(calc.minus(slot.worker.cycle_end_ts, now), num(ZERO)))
}

pub fn seconds_left<F: Fn(Op, Num, Num) -> Num>(slot: &AssetSlot, now: Num, arith: &Arith<F>) -> (r: i64)
    ensures
        r == secs_left(*slot, now, arith@),
{
    arith.to_signed(num_max(arith.minus(slot.worker.cycle_end_ts, now), num(ZERO)))
}

/// The Binance move in percent.
pub open spec fn percent(slot: AssetSlot, calc: Calc) -> Num {
    calc.times(slot.worker.delta_pct, num(HUNDRED))
}

fn delta_percent<F: Fn(Op, Num, Num) -> Num>(slot: &AssetSlot, arith: &Arith<F>) -> (r: Num)
    ensures
        r == percent(*slot, arith@),
{
    arith.times(slot.worker.delta_pct, num(HUNDRED))
}

/// What comes of an order: what to tell the worker, and what to say.
#[derive(Clone, Debug)]
pub struct Followup {
    pub event: Event,
    pub notice: Option<String>,
}

/// The buy was filled.
pub open spec fn bought(result: TradeResult) -> bool {
    result.placed && result.filled_shares.gt(num(ZERO))
}

pub open spec fn buy_event(times: OrderTimes, result: TradeResult, calc: Calc) -> Event {
    if bought(result) {
        Event::OrderFilled {
            filled_shares: result.filled_shares,
            cost: result.cost,
            signal_latency_ms: ms_between(times.signal_ts, times.received_ts, calc),
            process_latency_ms: ms_between(times.signal_ts, times.confirmed_ts, calc),
        }
    } else {
        Event::OrderRejected
    }
}

/// How late the token feed was, and whether its tick counted.
pub open spec fn clob_note(
    slot: AssetSlot,
    feed: Feed,
    received_ts: Num,
    calc: Calc,
    write: spec_fn(Num, Layout) -> Seq<char>,
) -> Seq<char> {
    latency_note_text(
        "clob"@,
        latency_text(exchange_ms(slot.last_poly_ts, slot.last_poly_server_ts, calc), write),
        match feed {
            Feed::Clob => "trigger"@,
            Feed::Binance => ago_text(slot.last_poly_ts, received_ts, calc, write),
        },
    )
}

/// How late the Binance feed was, and whether its tick counted.
pub open spec fn binance_note(
    slot: AssetSlot,
    feed: Feed,
    received_ts: Num,
    calc: Calc,
    write: spec_fn(Num, Layout) -> Seq<char>,
) -> Seq<char> {
    latency_note_text(
        "binance"@,
        latency_text(exchange_ms(slot.last_binance_ts, slot.last_binance_server_ts, calc), write),
        match feed {
            Feed::Binance => "trigger"@,
            Feed::Clob => ago_text(slot.last_binance_ts, received_ts, calc, write),
        },
    )
}

pub open spec fn buy_notice(
    slot: AssetSlot,
    side: Side,
    price: Num,
    feed: Feed,
    times: OrderTimes,
    time: Seq<char>,
    result: TradeResult,
    calc: Calc,
    write: spec_fn(Num, Layout) -> Seq<char>,
) -> Seq<char> {
    if bought(result) {
        order_placed_text(
            slot.key(),
            time,
            secs_left(slot, times.now, calc),
            arrow_text(side),
            slot.worker.strategy_name@,
            result.cost,
            percent(slot, calc),
            clob_note(slot, feed, times.received_ts, calc, write),
            binance_note(slot, feed, times.received_ts, calc, write),
            ms_between(times.signal_ts, times.confirmed_ts, calc),
            result.attempts,
            write,
        )
    } else {
        order_rejected_text(
            slot.key(),
            time,
            secs_left(slot, times.now, calc),
            arrow_text(side),
            slot.worker.strategy_name@,
            price,
            percent(slot, calc),
            result.attempts,
            match result.error {
                Some(e) => e@,
                None => "unknown"@,
            },
            write,
        )
    }
}

/// What comes of a buy.
pub fn buy_followup<F: Fn(Op, Num, Num) -> Num, W: Fn(Num, Layout) -> String>(
    slot: &AssetSlot,
    side: Side,
    price: Num,
    feed: Feed,
    times: OrderTimes,
    time: &str,
    result: &TradeResult,
    arith: &Arith<F>,
    writer: &Writer<W>,
) -> (r: Followup)
    ensures
        r.event == buy_event(times, *result, arith@),
        opt_view(r.notice) == Some(
            buy_notice(*slot, side, price, feed, times, time@, *result, arith@, writer@),
        ),
{
    let signal_latency_ms = latency_ms(times.signal_ts, times.received_ts, arith);
    let process_latency_ms = latency_ms(times.signal_ts, times.confirmed_ts, arith);
    let market = slot.market_key();
    let left = seconds_left(slot, times.now, arith);
    let delta = delta_percent(slot, arith);
    if result.placed && result.filled_shares.gt(num(ZERO)) {
        let clob_ms = exchange_latency_ms(slot.last_poly_ts, slot.last_poly_server_ts, arith);
        let binance_ms = exchange_latency_ms(
            slot.last_binance_ts,
            slot.last_binance_server_ts,
            arith,
        );
        let clob_tag = match feed {
            Feed::Clob => "trigger".to_owned(),
            Feed::Binance => fmt_ago(slot.last_poly_ts, times.received_ts, arith, writer),
        };
        let binance_tag = match feed {
            Feed::Binance => "trigger".to_owned(),
            Feed::Clob => fmt_ago(slot.last_binance_ts, times.received_ts, arith, writer),
        };
        let clob = latency_note("clob", fmt_latency(clob_ms, writer).as_str(), clob_tag.as_str());
        let binance = latency_note(
            "binance",
            fmt_latency(binance_ms, writer).as_str(),
            binance_tag.as_str(),
        );
        let notice = order_placed(
            market.as_str(),
            time,
            left,
            arrow_side(side),
            slot.worker.strategy_name.as_str(),
            result.cost,
            delta,
            clob.as_str(),
            binance.as_str(),
            process_latency_ms,
            result.attempts,
            writer,
        );
        Followup {
            event: Event::OrderFilled {
                filled_shares: result.filled_shares,
                cost: result.cost,
                signal_latency_ms,
                process_latency_ms,
            },
            notice: Some(notice),
        }
    } else {
        let error = match &result.error {
            Some(e) => e.as_str(),
            None => "unknown",
        };
        let notice = order_rejected(
            market.as_str(),
            time,
            left,
            arrow_side(side),
            slot.worker.strategy_name.as_str(),
            price,
            delta,
            result.attempts,
            error,
            writer,
        );
        Followup { event: Event::OrderRejected, notice: Some(notice) }
    }
}

/// What comes of a resting sale. Its cause is no tick, so only its own time counts.
pub fn limit_sell_followup<F: Fn(Op, Num, Num) -> Num>(
    received_ts: Num,
    confirmed_ts: Num,
    result: LimitSellResult,
    arith: &Arith<F>,
) -> (r: Followup)
    ensures
        r.event == (Event::LimitSellPlaced {
            order_id: result.order_id,
            status: result.status,
            error: result.error,
            signal_latency_ms: num(ZERO),
            process_latency_ms: ms_between(received_ts, confirmed_ts, arith@),
        }),
        r.notice is None,
{
    Followup {
        event: Event::LimitSellPlaced {
            order_id: result.order_id,
            status: result.status,
            error: result.error,
            signal_latency_ms: num(ZERO),
            process_latency_ms: latency_ms(received_ts, confirmed_ts, arith),
        },
        notice: None,
    }
}

/// What comes of a resting buy.
pub fn limit_buy_followup<F: Fn(Op, Num, Num) -> Num, W: Fn(Num, Layout) -> String>(
    slot: &AssetSlot,
    side: Side,
    price: Num,
    shares: Num,
    times: OrderTimes,
    time: &str,
    result: LimitSellResult,
    arith: &Arith<F>,
    writer: &Writer<W>,
) -> (r: Followup)
    ensures
        r.event == (Event::LimitBuyPlaced {
            order_id: result.order_id,
            status: result.status,
            error: result.error,
            signal_latency_ms: ms_between(times.signal_ts, times.received_ts, arith@),
            process_latency_ms: ms_between(times.signal_ts, times.confirmed_ts, arith@),
        }),
        opt_view(r.notice) == if result.status == SellStatus::Live {
            Some(
                quote_resting_text(
                    slot.key(),
                    time@,
                    secs_left(*slot, times.now, arith@),
                    arrow_text(side),
                    slot.worker.strategy_name@,
                    shares,
                    price,
                    writer@,
                ),
            )
        } else {
            None
        },
{
    let notice = if result.status == SellStatus::Live {
        Some(
            quote_resting(
                slot.market_key().as_str(),
                time,
                seconds_left(slot, times.now, arith),
                arrow_side(side),
                slot.worker.strategy_name.as_str(),
                shares,
                price,
                writer,
            ),
        )
    } else {
        None
    };
    Followup {
        event: Event::LimitBuyPlaced {
            order_id: result.order_id,
            status: result.status,
            error: result.error,
            signal_latency_ms: latency_ms(times.signal_ts, times.received_ts, arith),
            process_latency_ms: latency_ms(times.signal_ts, times.confirmed_ts, arith),
        },
        notice,
    }
}

/// A close for this reason was not announced yet.
pub open spec fn to_announce(slot: AssetSlot, reason: CloseReason) -> bool {
    match reason {
        CloseReason::StopLoss => !slot.sl_notified,
        CloseReason::Timeout => !slot.timeout_notified,
        CloseReason::TakeProfit => false,
    }
}

/// The slot once a close for this reason was announced.
pub open spec fn announced(slot: AssetSlot, reason: CloseReason) -> AssetSlot {
    match reason {
        CloseReason::StopLoss => AssetSlot { sl_notified: true, ..slot },
        CloseReason::Timeout => AssetSlot { timeout_notified: true, ..slot },
        CloseReason::TakeProfit => slot,
    }
}

pub open spec fn close_alert_text(
    slot: AssetSlot,
    token: TokenId,
    reason: CloseReason,
    now: Num,
    time: Seq<char>,
    calc: Calc,
    write: spec_fn(Num, Layout) -> Seq<char>,
) -> Seq<char> {
    let side = slot.side_of(token);
    match reason {
        CloseReason::Timeout => timeout_triggered_text(
            slot.key(),
            time,
            secs_left(slot, now, calc),
            arrow_text(side),
            slot.worker.strategy_name@,
            slot.last_price_of(side),
            write,
        ),
        _ => stop_triggered_text(
            slot.key(),
            time,
            secs_left(slot, now, calc),
            arrow_text(side),
            slot.worker.strategy_name@,
            slot.last_price_of(side),
            percent(slot, calc),
            write,
        ),
    }
}

/// What to say before a position is closed. A worker asks again on every tick until the
/// position is gone, but it is said only once; a take-profit is not announced.
pub fn close_alert<F: Fn(Op, Num, Num) -> Num, W: Fn(Num, Layout) -> String>(
    slot: &mut AssetSlot,
    token: TokenId,
    reason: CloseReason,
    now: Num,
    time: &str,
    arith: &Arith<F>,
    writer: &Writer<W>,
) -> (r: Option<String>)
    ensures
        *final(slot) == announced(*old(slot), reason),
        opt_view(r) == if to_announce(*old(slot), reason) {
            Some(close_alert_text(*old(slot), token, reason, now, time@, arith@, writer@))
        } else {
            None
        },
{
    let first = match reason {
        CloseReason::StopLoss => !slot.sl_notified,
        CloseReason::Timeout => !slot.timeout_notified,
        CloseReason::TakeProfit => false,
    };
    if !first {
        assert(announced(*slot, reason) == *slot);
        return None;
    }
    let side = slot.side(token);
    let price = slot.last_price(side);
    let left = seconds_left(slot, now, arith);
    let market = slot.market_key();
    match reason {
        CloseReason::Timeout => {
            let text = timeout_triggered(
                market.as_str(),
                time,
                left,
                arrow_side(side),
                slot.worker.strategy_name.as_str(),
                price,
                writer,
            );
            slot.timeout_notified = true;
            Some(text)
        },
        _ => {
            let text = stop_triggered(
                market.as_str(),
                time,
                left,
                arrow_side(side),
                slot.worker.strategy_name.as_str(),
                price,
                delta_percent(slot, arith),
                writer,
            );
            slot.sl_notified = true;
            Some(text)
        },
    }
}

/// A close is announced at most once for each reason: after it was, it is not again.
pub proof fn close_is_announced_once(slot: AssetSlot, reason: CloseReason)
    ensures
        !to_announce(announced(slot, reason), reason),
{
}

/// A simulated close that names no proceeds is priced at the last price of its side.
pub open spec fn proceeds(
    mode: RunMode,
    slot: AssetSlot,
    token: TokenId,
    result: CloseResult,
    calc: Calc,
) -> Num {
    if mode == RunMode::DryRun && result.status == SellStatus::Matched && result.filled_usdc.rank()
        == 0 && !result.filled_usdc.is_nan() && result.shares_sold.gt(num(ZERO)) {
        calc.times(result.shares_sold, slot.last_price_of(slot.side_of(token)))
    } else {
        result.filled_usdc
    }
}

pub fn price_dry_run<F: Fn(Op, Num, Num) -> Num>(
    mode: RunMode,
    slot: &AssetSlot,
    token: TokenId,
    result: &mut CloseResult,
    arith: &Arith<F>,
)
    ensures
        *final(result) == (CloseResult {
            filled_usdc: proceeds(mode, *slot, token, *old(result), arith@),
            ..*old(result)
        }),
{
    let zero = result.filled_usdc.le(num(ZERO)) && result.filled_usdc.ge(num(ZERO));
    if mode == RunMode::DryRun && result.status == SellStatus::Matched && zero
        && result.shares_sold.gt(num(ZERO)) {
        let price = slot.last_price(slot.side(token));
        result.filled_usdc = arith.times(result.shares_sold, price);
    }
}

/// The price at which a position was sold.
pub open spec fn sold_at(result: CloseResult, calc: Calc) -> Num {
    if result.shares_sold.gt(num(ZERO)) {
        calc.over(result.filled_usdc, result.shares_sold)
    } else {
        num(ZERO)
    }
}

pub open spec fn close_event(
    reason: CloseReason,
    times: OrderTimes,
    result: CloseResult,
    calc: Calc,
) -> Event {
    let sold_shares = result.shares_sold;
    let exit_price = sold_at(result, calc);
    let signal_latency_ms = ms_between(times.signal_ts, times.received_ts, calc);
    let process_latency_ms = ms_between(times.signal_ts, times.confirmed_ts, calc);
    if result.status == SellStatus::Matched {
        match reason {
            CloseReason::TakeProfit => Event::UnwindFilled {
                sold_shares,
                exit_price,
                signal_latency_ms,
                process_latency_ms,
            },
            CloseReason::StopLoss => Event::StopSellFilled {
                sold_shares,
                exit_price,
                signal_latency_ms,
                process_latency_ms,
            },
            CloseReason::Timeout => Event::TimeoutSellFilled {
                sold_shares,
                exit_price,
                signal_latency_ms,
                process_latency_ms,
            },
        }
    } else {
        match reason {
            CloseReason::TakeProfit => Event::UnwindFailed { error: result.error },
            CloseReason::StopLoss => Event::StopSellFailed { error: result.error },
            CloseReason::Timeout => Event::TimeoutSellFailed { error: result.error },
        }
    }
}

pub open spec fn close_notice(
    slot: AssetSlot,
    reason: CloseReason,
    times: OrderTimes,
    time: Seq<char>,
    result: CloseResult,
    calc: Calc,
    write: spec_fn(Num, Layout) -> Seq<char>,
) -> Option<Seq<char>> {
    if result.status == SellStatus::Matched {
        Some(
            close_executed_text(
                slot.key(),
                reason.label_text(),
                time,
                slot.worker.strategy_name@,
                result.shares_sold,
                sold_at(result, calc),
                result.filled_usdc,
                "clob_latency="@ + latency_text(
                    exchange_ms(slot.last_poly_ts, slot.last_poly_server_ts, calc),
                    write,
                ),
                ms_between(times.signal_ts, times.confirmed_ts, calc),
                result.attempts,
                write,
            ),
        )
    } else {
        None
    }
}

/// What comes of closing a position. The token is out of hand once all of it is sold.
pub fn close_followup<F: Fn(Op, Num, Num) -> Num, W: Fn(Num, Layout) -> String>(
    slot: &mut AssetSlot,
    shares: Num,
    reason: CloseReason,
    times: OrderTimes,
    time: &str,
    result: CloseResult,
    arith: &Arith<F>,
    writer: &Writer<W>,
) -> (r: Followup)
    ensures
        r.event == close_event(reason, times, result, arith@),
        opt_view(r.notice) == close_notice(
            *old(slot),
            reason,
            times,
            time@,
            result,
            arith@,
            writer@,
        ),
        *final(slot) == if result.status == SellStatus::Matched && result.shares_sold.ge(shares) {
            AssetSlot { current_token_id: None, ..*old(slot) }
        } else {
            *old(slot)
        },
{
    let signal_latency_ms = latency_ms(times.signal_ts, times.received_ts, arith);
    let process_latency_ms = latency_ms(times.signal_ts, times.confirmed_ts, arith);
    let sold = result.shares_sold;
    let exit_price = if sold.gt(num(ZERO)) {
        arith.over(result.filled_usdc, sold)
    } else {
        num(ZERO)
    };
    if result.status == SellStatus::Matched {
        let clob_ms = exchange_latency_ms(slot.last_poly_ts, slot.last_poly_server_ts, arith);
        let mut clob = "clob_latency=".to_owned();
        clob.append(fmt_latency(clob_ms, writer).as_str());
        let notice = close_executed(
            slot.market_key().as_str(),
            reason.label(),
            time,
            slot.worker.strategy_name.as_str(),
            sold,
            exit_price,
            result.filled_usdc,
            clob.as_str(),
            process_latency_ms,
            result.attempts,
            writer,
        );
        let event = match reason {
            CloseReason::TakeProfit => Event::UnwindFilled {
                sold_shares: sold,
                exit_price,
                signal_latency_ms,
                process_latency_ms,
            },
            CloseReason::StopLoss => Event::StopSellFilled {
                sold_shares: sold,
                exit_price,
                signal_latency_ms,
                process_latency_ms,
            },
            CloseReason::Timeout => Event::TimeoutSellFilled {
                sold_shares: sold,
                exit_price,
                signal_latency_ms,
                process_latency_ms,
            },
        };
        if sold.ge(shares) {
            slot.current_token_id = None;
        }
        Followup { event, notice: Some(notice) }
    } else {
        let event = match reason {
            CloseReason::TakeProfit => Event::UnwindFailed { error: result.error },
            CloseReason::StopLoss => Event::StopSellFailed { error: result.error },
            CloseReason::Timeout => Event::TimeoutSellFailed { error: result.error },
        };
        Followup { event, notice: None }
    }
}

/// The slot at `i` is the first whose resting order has the id.
pub open spec fn owns_first(orders: Seq<Option<String>>, i: int, id: Seq<char>) -> bool {
    &&& 0 <= i < orders.len()
    &&& opt_view(orders[i]) == Some(id)
    &&& forall|j: int| 0 <= j < i ==> opt_view(#[trigger] orders[j]) != Some(id)
}

/// The slot whose resting order was filled: a sale closes a position, a purchase opens one.
/// None when no slot has the order any more.
pub fn fill_owner(
    sale: bool,
    order_id: &str,
    closing: &Vec<Option<String>>,
    opening: &Vec<Option<String>>,
) -> (r: Option<usize>)
    ensures
        ({
            let orders = if sale {
                closing@
            } else {
                opening@
            };
            match r {
                Some(i) => owns_first(orders, i as int, order_id@),
                None => forall|j: int|
                    0 <= j < orders.len() ==> opt_view(#[trigger] orders[j]) != Some(order_id@),
            }
        }),
{
    let orders = if sale {
        closing
    } else {
        opening
    };
    let mut i: usize = 0;
    while i < orders.len()
        invariant
            i <= orders@.len(),
            orders@ == if sale {
                closing@
            } else {
                opening@
            },
            forall|j: int| 0 <= j < i ==> opt_view(#[trigger] orders@[j]) != Some(order_id@),
        decreases orders@.len() - i,
    {
        if let Some(id) = &orders[i] {
            if same_text(id.as_str(), order_id) {
                return Some(i);
            }
        }
        i = i + 1;
    }
    None
}

/// What to tell a worker when an order that rested was filled as prices passed it.
pub fn resting_fill_event(sale: bool, shares: Num, price: Num) -> (r: Event)
    ensures
        r == if sale {
            Event::UnwindFilled {
                sold_shares: shares,
                exit_price: price,
                signal_latency_ms: num(ZERO),
                process_latency_ms: num(ZERO),
            }
        } else {
            Event::EntryQuoteFilled {
                filled_shares: shares,
                cost: price,
                signal_latency_ms: num(ZERO),
                process_latency_ms: num(ZERO),
            }
        },
{
    if sale {
        Event::UnwindFilled {
            sold_shares: shares,
            exit_price: price,
            signal_latency_ms: num(ZERO),
            process_latency_ms: num(ZERO),
        }
    } else {
        Event::EntryQuoteFilled {
            filled_shares: shares,
            cost: price,
            signal_latency_ms: num(ZERO),
            process_latency_ms: num(ZERO),
        }
    }
}

} // verus!

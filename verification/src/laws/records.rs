//! Recorded prices, and how trades are counted and written down.

use vstd::prelude::*;

use crate::backtest::{
    begins_on, can_order, date_of, date_part, filter_by_date, has_prices, merge_ticks, merged,
    parse_date, row_times, tick_of, time_before, time_order, BinanceRow, MergedTick, PolyRow,
};
use crate::calendar::CivilDate;
use crate::config::AssetParams;
use crate::laws::driver::{all_counted, counted};
use crate::laws::exact::{exact, fits};
use crate::live::csv::{row, trade_fields, trade_row};
use crate::live::notices::counts_after;
use crate::live::orders::Action;
use crate::live::slot::AssetSlot;
use crate::live::startup::{check_strategies, new_slot, Saved, StartupError};
use crate::live::MarketDuration;
use crate::num::{num, Arith, Calc, Layout, Num, Op, Reader, Writer, ZERO};
use crate::order::{sorted_order_covers, sorted_order_sorts, strict_order};
use crate::machine::rounded4;
use crate::report::{
    csv_text, ended, gains, replay_refusal, table_line, table_text, totals_line, watch_turn,
    without_halt, WatchTurn,
};
use crate::text::{after_last, decimal, padded, padded_left, signed_of, split};
use crate::types::{Outcome, Side, TradeRecord};

verus! {

// ── Recorded prices ─────────────────────────────────────────────────────────

/// The tick is that of a Binance row: its time and price.
pub open spec fn is_tick_of_binance(t: MergedTick, r: BinanceRow) -> bool {
    t is Binance && t->Binance_0.ts == r.ts && t->Binance_0.price == r.price
}

/// The tick is that of a token row: its time and both prices, and no quote.
pub open spec fn is_tick_of_poly(t: MergedTick, r: PolyRow) -> bool {
    &&& t is Poly
    &&& t->Poly_0.ts == r.ts
    &&& t->Poly_0.up == r.up
    &&& t->Poly_0.dn == r.dn
    &&& t->Poly_0.up_bid == num(ZERO)
    &&& t->Poly_0.up_ask == num(ZERO)
}

/// The tick is that of one of the rows.
pub open spec fn comes_from_rows(t: MergedTick, b: Seq<BinanceRow>, p: Seq<PolyRow>) -> bool {
    ||| exists|i: int| 0 <= i < b.len() && is_tick_of_binance(t, #[trigger] b[i])
    ||| exists|i: int| 0 <= i < p.len() && is_tick_of_poly(t, #[trigger] p[i])
}

pub open spec fn binance_row_has_tick(ticks: Seq<MergedTick>, r: BinanceRow) -> bool {
    exists|k: int| 0 <= k < ticks.len() && is_tick_of_binance(#[trigger] ticks[k], r)
}

pub open spec fn poly_row_has_tick(ticks: Seq<MergedTick>, r: PolyRow) -> bool {
    exists|k: int| 0 <= k < ticks.len() && is_tick_of_poly(#[trigger] ticks[k], r)
}

/// Every tick is one of a row, and every row has a tick.
pub open spec fn ticks_of_rows(ticks: Seq<MergedTick>, b: Seq<BinanceRow>, p: Seq<PolyRow>) -> bool {
    &&& forall|k: int| 0 <= k < ticks.len() ==> comes_from_rows(#[trigger] ticks[k], b, p)
    &&& forall|i: int| 0 <= i < b.len() ==> binance_row_has_tick(ticks, #[trigger] b[i])
    &&& forall|i: int| 0 <= i < p.len() ==> poly_row_has_tick(ticks, #[trigger] p[i])
}

/// Merging loses no row and makes up none: there are as many ticks as rows, every tick is one of a
/// row, and every row has a tick.
pub proof fn merging_keeps_every_row(b: Vec<BinanceRow>, p: Vec<PolyRow>)
    requires
        b@.len() + p@.len() <= usize::MAX,
        can_order(row_times(b@, p@)),
    ensures
        forall|r: Vec<MergedTick>| #[trigger]
            call_ensures(merge_ticks, (&b, &p), r) ==> r@.len() == b@.len() + p@.len()
                && ticks_of_rows(r@, b@, p@),
{
    let times = row_times(b@, p@);
    let n = times.len() as int;
    let before = time_before(times);
    assert(strict_order(before, n));
    sorted_order_sorts(before, n);
    let order = time_order(times);
    let all = merged(b@, p@);
    assert(all.len() == n);
    assert forall|k: int| 0 <= k < n implies #[trigger] all[k] == tick_of(
        b@,
        p@,
        order[k] as int,
    ) by {}
    assert forall|k: int| 0 <= k < n implies comes_from_rows(#[trigger] all[k], b@, p@) by {
        let at = order[k] as int;
        assert(0 <= at < n);
        if at < b@.len() {
            assert(is_tick_of_binance(all[k], b@[at]));
        } else {
            assert(is_tick_of_poly(all[k], p@[at - b@.len()]));
        }
    }
    assert forall|i: int| 0 <= i < b@.len() implies binance_row_has_tick(
        all,
        #[trigger] b@[i],
    ) by {
        sorted_order_covers(order, before, n, i);
        let k = choose|k: int| 0 <= k < n && #[trigger] order[k] == i;
        assert(is_tick_of_binance(all[k], b@[i]));
    }
    assert forall|i: int| 0 <= i < p@.len() implies poly_row_has_tick(all, #[trigger] p@[i]) by {
        sorted_order_covers(order, before, n, b@.len() + i);
        let k = choose|k: int| 0 <= k < n && #[trigger] order[k] == b@.len() + i;
        assert(is_tick_of_poly(all[k], p@[i]));
    }
    assert(ticks_of_rows(all, b@, p@));
}

/// The cycle of a name begins on a day in Hong Kong: from its midnight on, for a day less a
/// second.
pub open spec fn on_the_day(
    name: Seq<char>,
    date: CivilDate,
    calc: Calc,
    read: spec_fn(Seq<char>) -> Option<Num>,
) -> bool {
    let midnight = (date.number() - 719163) * 86400 - 8 * 3600;
    let time = read(after_last(name, '-'));
    &&& time is Some
    &&& calc.from_signed(midnight as i64).le(time->0)
    &&& time->0.le(calc.from_signed((midnight + 86399) as i64))
}

/// The rows of a day are those of the cycles that begin on it, of Binance only where the cycle has
/// token prices too.
pub proof fn rows_of_a_day<F: Fn(Op, Num, Num) -> Num, P: Fn(String) -> Option<Num>>(
    b: Vec<BinanceRow>,
    p: Vec<PolyRow>,
    text: &str,
    date: CivilDate,
    arith: Arith<F>,
    reader: Reader<P>,
)
    requires
        date_of(text@) == Some(date),
    ensures
        forall|r: (Vec<BinanceRow>, Vec<PolyRow>), x: PolyRow| #[trigger]
            call_ensures(filter_by_date::<F, P>, (b, p, text, &arith, &reader), r) ==> (
            #[trigger] r.1@.contains(x) <==> p@.contains(x) && on_the_day(
                x.slug@,
                date,
                arith@,
                reader@,
            )),
        forall|r: (Vec<BinanceRow>, Vec<PolyRow>), x: BinanceRow| #[trigger]
            call_ensures(filter_by_date::<F, P>, (b, p, text, &arith, &reader), r) ==> (
            #[trigger] r.0@.contains(x) <==> b@.contains(x) && on_the_day(
                x.slug@,
                date,
                arith@,
                reader@,
            ) && exists|i: int| 0 <= i < p@.len() && (#[trigger] p@[i]).slug@ == x.slug@),
{
    let keep_p = |row: PolyRow| begins_on(row.slug@, date, arith@, reader@);
    let keep_b = |row: BinanceRow|
        begins_on(row.slug@, date, arith@, reader@) && has_prices(p@, row.slug@);
    assert forall|name: Seq<char>| #[trigger]
        begins_on(name, date, arith@, reader@) == on_the_day(name, date, arith@, reader@) by {}
    assert forall|x: PolyRow| p@.filter(keep_p).contains(x) <==> p@.contains(x) && keep_p(x) by {
        filter_holds(p@, keep_p, x);
    }
    assert forall|x: BinanceRow| b@.filter(keep_b).contains(x) <==> b@.contains(x) && keep_b(x) by {
        filter_holds(b@, keep_b, x);
    }
}

proof fn filter_holds<T>(s: Seq<T>, keep: spec_fn(T) -> bool, x: T)
    ensures
        s.filter(keep).contains(x) <==> s.contains(x) && keep(x),
    decreases s.len(),
{
    reveal(Seq::filter);
    if s.len() > 0 {
        let rest = s.drop_last();
        filter_holds(rest, keep, x);
        let f = rest.filter(keep);
        let g = s.filter(keep);
        if f.contains(x) {
            let k = choose|k: int| 0 <= k < f.len() && f[k] == x;
            assert(g[k] == x);
        }
        if keep(s.last()) {
            assert(g == f.push(s.last()));
            assert(g.last() == s.last());
        }
        if g.contains(x) {
            let k = choose|k: int| 0 <= k < g.len() && g[k] == x;
            if k < f.len() {
                assert(f[k] == x);
            } else {
                assert(x == s[s.len() - 1]);
            }
        }
        if rest.contains(x) {
            let k = choose|k: int| 0 <= k < rest.len() && rest[k] == x;
            assert(s[k] == x);
        }
        if s.contains(x) {
            let k = choose|k: int| 0 <= k < s.len() && s[k] == x;
            if k < rest.len() {
                assert(rest[k] == x);
            }
        }
    }
}

// ── Totals ──────────────────────────────────────────────────────────────────

/// Of a list of trades and one more, exactly the count under the outcome of that one is larger,
/// by one.
pub proof fn each_trade_counts_under_its_outcome(trades: Seq<TradeRecord>, t: TradeRecord, o: Outcome)
    ensures
        ended(Seq::empty(), o) == 0,
        t.outcome == o ==> ended(trades.push(t), o) == ended(trades, o) + 1,
        t.outcome != o ==> ended(trades.push(t), o) == ended(trades, o),
{
    assert(trades.push(t).drop_last() =~= trades);
}

/// The gains in the real numbers.
pub open spec fn sum_of_gains(trades: Seq<TradeRecord>, val: spec_fn(Num) -> real) -> real
    decreases trades.len(),
{
    if trades.len() == 0 {
        0real
    } else {
        sum_of_gains(trades.drop_last(), val) + val(trades.last().pnl)
    }
}

/// In the real numbers: the total is the sum of the gains.
pub proof fn total_is_the_sum_of_gains(trades: Seq<TradeRecord>, calc: Calc, val: spec_fn(Num) -> real)
    requires
        exact(calc, val),
        forall|i: int| 0 <= i < trades.len() ==> (#[trigger] trades[i]).pnl.is_finite(),
        forall|n: int|
            0 <= n <= trades.len() ==> fits(val, sum_of_gains(#[trigger] trades.take(n), val)),
    ensures
        gains(trades, calc).is_finite(),
        val(gains(trades, calc)) == sum_of_gains(trades, val),
    decreases trades.len(),
{
    if trades.len() > 0 {
        let rest = trades.drop_last();
        assert forall|n: int| 0 <= n <= rest.len() implies fits(
            val,
            sum_of_gains(#[trigger] rest.take(n), val),
        ) by {
            assert(rest.take(n) =~= trades.take(n));
        }
        assert forall|i: int| 0 <= i < rest.len() implies (#[trigger] rest[i]).pnl.is_finite() by {
            assert(rest[i] == trades[i]);
        }
        total_is_the_sum_of_gains(rest, calc, val);
        assert(trades.take(trades.len() as int) =~= trades);
        assert(trades[trades.len() - 1] == trades.last());
    }
}

/// A report of a trade counts it once, under its own outcome, with its gain; any report but a
/// trade and a correction counts nothing.
pub proof fn report_counts_the_trade(slot: AssetSlot, rec: TradeRecord, calc: Calc)
    requires
        counted(slot.stats.counts, rec.outcome) < u32::MAX,
    ensures
        ({
            let c = slot.stats.counts;
            let a = counts_after(slot, Action::LogTrade(rec), calc);
            &&& counted(a, rec.outcome) == counted(c, rec.outcome) + 1
            &&& all_counted(a) == all_counted(c) + 1
            &&& a.total_pnl == calc.plus(c.total_pnl, rec.pnl)
            &&& counts_after(slot, Action::HaltEngaged, calc) == c
            &&& counts_after(slot, Action::HaltReset, calc) == c
            &&& counts_after(slot, Action::StopLossVerdict { record: rec, would_have_won: true }, calc)
                == c
        }),
{
}

// ── Rows ────────────────────────────────────────────────────────────────────

/// A trade adds one line: the market, the strategy, the side, both prices to six decimals, the
/// outcome, the gain to six decimals, and the time of the entry.
pub proof fn trade_adds_a_line(
    trades: Seq<TradeRecord>,
    t: TradeRecord,
    write: spec_fn(Num, Layout) -> Seq<char>,
)
    ensures
        csv_text(Seq::empty(), write)
            == "slug,strategy,side,token_price,exit_price,outcome,pnl,entry_ts\n"@,
        csv_text(trades.push(t), write) == csv_text(trades, write) + (t.slug@ + ","@ + t.strategy@
            + ","@ + side_name(t.side) + ","@ + write(t.token_price, Layout::Fixed(6)) + ","@
            + write(t.exit_price, Layout::Fixed(6)) + ","@ + outcome_name(t.outcome) + ","@ + write(
            t.pnl,
            Layout::Fixed(6),
        ) + ","@ + write(t.entry_ts, Layout::Fixed(3)) + "\n"@),
{
    assert(trades.push(t).drop_last() =~= trades);
}

pub open spec fn side_name(side: Side) -> Seq<char> {
    match side {
        Side::Up => "UP"@,
        Side::Down => "DOWN"@,
    }
}

pub open spec fn outcome_name(outcome: Outcome) -> Seq<char> {
    match outcome {
        Outcome::Win => "WIN"@,
        Outcome::Loss => "LOSS"@,
        Outcome::StopLoss => "STOPLOSS"@,
        Outcome::Unwind => "UNWIND"@,
        Outcome::Timeout => "TIMEOUT"@,
    }
}

/// The row of a trade: when it was logged, then what it was, in the order of the header.
pub proof fn trade_row_tells_the_trade<W: Fn(Num, Layout) -> String>(
    logged_at: Num,
    rec: TradeRecord,
    writer: Writer<W>,
)
    requires
        rec.exit_last_error is None,
    ensures
        forall|r: String| #[trigger]
            call_ensures(trade_row::<W>, (logged_at, &rec, &writer), r) ==> r@ == row(
                seq![
                    (writer@)(logged_at, Layout::Plain),
                    rec.slug@,
                    rec.strategy@,
                    side_name(rec.side),
                    (writer@)(rec.entry_ts, Layout::Plain),
                    (writer@)(rec.token_price, Layout::Plain),
                    (writer@)(rec.exit_price, Layout::Plain),
                    outcome_name(rec.outcome),
                    (writer@)(rec.pnl, Layout::Plain),
                    decimal(rec.exit_attempts as nat),
                    Seq::empty(),
                    (writer@)(rec.entry_signal_latency_ms, Layout::Plain),
                    (writer@)(rec.entry_process_latency_ms, Layout::Plain),
                    (writer@)(rec.exit_signal_latency_ms, Layout::Plain),
                    (writer@)(rec.exit_process_latency_ms, Layout::Plain),
                ],
            ),
{
    assert(trade_fields(logged_at, rec, writer@) =~= seq![
        (writer@)(logged_at, Layout::Plain),
        rec.slug@,
        rec.strategy@,
        side_name(rec.side),
        (writer@)(rec.entry_ts, Layout::Plain),
        (writer@)(rec.token_price, Layout::Plain),
        (writer@)(rec.exit_price, Layout::Plain),
        outcome_name(rec.outcome),
        (writer@)(rec.pnl, Layout::Plain),
        decimal(rec.exit_attempts as nat),
        Seq::empty(),
        (writer@)(rec.entry_signal_latency_ms, Layout::Plain),
        (writer@)(rec.entry_process_latency_ms, Layout::Plain),
        (writer@)(rec.exit_signal_latency_ms, Layout::Plain),
        (writer@)(rec.exit_process_latency_ms, Layout::Plain),
    ]);
}

/// Sides and outcomes go by their names.
pub proof fn names_of_sides_and_outcomes(side: Side, outcome: Outcome)
    ensures
        forall|r: &'static str| #[trigger]
            call_ensures(Side::as_str, (side,), r) ==> r@ == side_name(side),
        forall|r: &'static str| #[trigger]
            call_ensures(Outcome::as_str, (outcome,), r) ==> r@ == outcome_name(outcome),
{
}

/// A loss, for one who keeps a streak of closed trades: a losing resolution and a stop always, a
/// timeout when it lost, a win and a taken profit never.
pub proof fn losses_for_a_streak(outcome: Outcome, pnl: Num)
    ensures
        forall|r: bool| #[trigger]
            call_ensures(Outcome::is_loss_for_halt, (outcome, pnl), r) ==> {
                &&& outcome == Outcome::Loss || outcome == Outcome::StopLoss ==> r
                &&& outcome == Outcome::Win || outcome == Outcome::Unwind ==> !r
                &&& outcome == Outcome::Timeout ==> (r <==> pnl.lt(num(ZERO)))
            },
{
}

// ── Beginnings ──────────────────────────────────────────────────────────────

/// A slot begins with the limit and reset hour of its strategy, the stake that it was given, and
/// the halt and losses that the run before left; it holds nothing and has seen nothing.
pub proof fn slot_begins_where_the_last_run_ended(
    asset: &str,
    strategy: &str,
    params: AssetParams,
    size: Num,
    duration: MarketDuration,
    saved: Option<Saved>,
)
    ensures
        forall|r: AssetSlot| #[trigger]
            call_ensures(new_slot, (asset, strategy, params, size, duration, saved), r) ==> {
                let streak = r.worker.gate.streak;
                &&& r.worker.asset@ == asset@
                &&& r.worker.strategy_name@ == strategy@
                &&& r.duration == duration
                &&& r.params.trade_size_usdc == size
                &&& r.max_buy_price == params.max_buy_price
                &&& strategy@ == "high_prob"@ ==> streak.max == params.halt_prob
                    && streak.reset_hour == params.halt_reset_hour_hp
                &&& strategy@ == "v_shape"@ ==> streak.max == params.halt_v && streak.reset_hour
                    == params.halt_reset_hour_v
                &&& strategy@ == "reversal"@ ==> streak.max == params.halt_rev
                    && streak.reset_hour == params.halt_reset_hour_rev
                &&& saved is Some ==> r.worker.gate.suppressed == saved->0.suppressed
                    && streak.losses == saved->0.losses && streak.last_session
                    == saved->0.last_session && r.stats == saved->0.stats
                &&& saved is None ==> !r.worker.gate.suppressed && streak.losses == 0
                    && streak.last_session is None && all_counted(r.stats.counts) == 0
                &&& r.current_token_id is None
                &&& r.current_slug is None
                &&& r.cycle_trades == 0
                &&& r.slot_val == 0
            },
{
    reveal_strlit("reversal");
    reveal_strlit("high_prob");
    reveal_strlit("v_shape");
    assert("reversal"@.len() == 8 && "high_prob"@.len() == 9 && "v_shape"@.len() == 7);
}

/// A run without halts is the same run with no limit on losses, of any strategy.
pub proof fn run_without_halts(params: AssetParams, duration: &str)
    ensures
        forall|r: AssetParams| #[trigger]
            call_ensures(without_halt, (params,), r) ==> r.halt_rev == 0 && r.halt_prob == 0
                && r.halt_v == 0 && r == (AssetParams {
                halt_rev: r.halt_rev,
                halt_prob: r.halt_prob,
                halt_v: r.halt_v,
                ..params
            }),
        forall|r: Option<String>| #[trigger]
            call_ensures(replay_refusal, (duration,), r) ==> (r is None <==> duration@ == "5m"@
                || duration@ == "15m"@ || duration@ == "4h"@),
{
}

/// A run that only watches turns exactly when the slot number changes, ends an open cycle with
/// that, and opens the next only with a Binance price.
pub proof fn watching_turns_with_the_slot(slot: u64, current: u64, open: bool, last: Num)
    ensures
        forall|r: WatchTurn| #[trigger]
            call_ensures(watch_turn, (slot, current, open, last), r) ==> {
                &&& r is Same <==> slot == current
                &&& r is Next <==> slot != current && !last.le(num(ZERO))
                &&& r is NoPrice <==> slot != current && last.le(num(ZERO))
                &&& r is Next ==> r->Next_close == open
                &&& r is NoPrice ==> r->NoPrice_close == open
            },
{
}

/// The strategies of an asset can be run exactly when there is one and each is known.
pub proof fn only_known_strategies_run(asset: &str, strategies: Vec<String>)
    ensures
        forall|r: Result<(), StartupError>| #[trigger]
            call_ensures(check_strategies, (asset, &strategies), r) ==> {
                &&& r is Ok ==> strategies@.len() > 0 && forall|k: int|
                    0 <= k < strategies@.len() ==> is_known(#[trigger] strategies@[k]@)
                &&& strategies@.len() == 0 ==> r is Err && r->Err_0 is NoStrategies
                &&& r is Err ==> r->Err_0 is NoStrategies || r->Err_0 is UnknownStrategy
                &&& r is Err && r->Err_0 is UnknownStrategy ==> !is_known(
                    r->Err_0->UnknownStrategy_strategy@,
                )
            },
{
}

pub open spec fn is_known(strategy: Seq<char>) -> bool {
    strategy == "reversal"@ || strategy == "high_prob"@ || strategy == "v_shape"@
}

/// The last line tells how many trades there were, how many of each outcome, and the total.
pub proof fn totals_tell_each_outcome(
    trades: Seq<TradeRecord>,
    calc: Calc,
    write: spec_fn(Num, Layout) -> Seq<char>,
)
    ensures
        totals_line(trades, calc, write) == "\nTotal: trades="@ + decimal(trades.len())
            + " wins="@ + decimal(ended(trades, Outcome::Win)) + " losses="@ + decimal(
            ended(trades, Outcome::Loss),
        ) + " stoplosses="@ + decimal(ended(trades, Outcome::StopLoss)) + " unwinds="@ + decimal(
            ended(trades, Outcome::Unwind),
        ) + " timeouts="@ + decimal(ended(trades, Outcome::Timeout)) + " pnl="@ + write(
            rounded4(gains(trades, calc), calc),
            Layout::Plain,
        ) + "\n"@,
        table_text(Seq::empty(), calc, write) == "No trades.\n"@,
{
}

/// A line of the table tells a trade, its prices to three decimals and its gain to four.
pub proof fn table_tells_the_trade(t: TradeRecord, write: spec_fn(Num, Layout) -> Seq<char>)
    ensures
        table_line(t, write) == padded(t.slug@, 35) + " "@ + padded(t.strategy@, 10) + " "@
            + padded(side_name(t.side), 5) + " "@ + padded_left(
            write(t.token_price, Layout::Fixed(3)),
            10,
        ) + " "@ + padded_left(write(t.exit_price, Layout::Fixed(3)), 14) + " "@ + padded(
            outcome_name(t.outcome),
            10,
        ) + " "@ + padded_left(write(t.pnl, Layout::Fixed(4)), 8) + "\n"@,
{
}

/// A date is read year first, then month, then day, each as the number that its piece writes.
pub proof fn date_is_read_year_first(text: &str)
    ensures
        forall|r: Option<CivilDate>| #[trigger]
            call_ensures(parse_date, (text,), r) && r is Some ==> {
                let parts = split(text@, '-');
                &&& parts.len() >= 3
                &&& signed_of(parts[0]) == Some(r->0.year as int)
                &&& signed_of(parts[1]) == Some(r->0.month as int)
                &&& signed_of(parts[2]) == Some(r->0.day as int)
            },
{
    assert forall|r: Option<CivilDate>| #[trigger]
        call_ensures(parse_date, (text,), r) && r is Some implies {
        let parts = split(text@, '-');
        &&& parts.len() >= 3
        &&& signed_of(parts[0]) == Some(r->0.year as int)
        &&& signed_of(parts[1]) == Some(r->0.month as int)
        &&& signed_of(parts[2]) == Some(r->0.day as int)
    } by {
        let parts = split(text@, '-');
        assert(date_part(parts[0]) is Some);
        assert(date_part(parts[1]) is Some);
        assert(date_part(parts[2]) is Some);
    }
}

} // verus!

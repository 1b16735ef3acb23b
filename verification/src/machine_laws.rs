//! What holds of a machine over a whole cycle.

use vstd::prelude::*;

use crate::backtest::{after_tick, run_ticks, tick_record, MergedTick};
use crate::machine::{HoldingData, Machine, TradeState, FORCE_UNWIND_BEFORE_CYCLE_END_SECS};
use crate::num::{num, Calc, Num, ZERO};
use crate::signal::{DeltaPctSignal, SawLowSignal, Signal, VShapeSignal};
use crate::types::{CycleContext, Outcome, PolyTick, Side, TradeRecord};

verus! {

/// The machine after a series of ticks.
pub open spec fn after_ticks(m: Machine, ticks: Seq<MergedTick>, calc: Calc) -> Machine
    decreases ticks.len(),
{
    if ticks.len() == 0 {
        m
    } else {
        after_tick(after_ticks(m, ticks.drop_last(), calc), ticks.last(), calc)
    }
}

/// What can come to a machine within a cycle: a tick, or the call that settles the cycle.
pub enum CycleStep {
    Tick(MergedTick),
    Close,
}

/// The machine after a step.
pub open spec fn after_step(m: Machine, step: CycleStep, calc: Calc) -> Machine {
    match step {
        CycleStep::Tick(t) => after_tick(m, t, calc),
        CycleStep::Close => m.closed_by(m.resolution(calc)),
    }
}

/// The record that a step gives.
pub open spec fn step_record(m: Machine, step: CycleStep, calc: Calc) -> Option<TradeRecord> {
    match step {
        CycleStep::Tick(t) => tick_record(m, t, calc),
        CycleStep::Close => m.record_of(m.resolution(calc)),
    }
}

/// The machine after a series of steps.
pub open spec fn after_steps(m: Machine, steps: Seq<CycleStep>, calc: Calc) -> Machine
    decreases steps.len(),
{
    if steps.len() == 0 {
        m
    } else {
        after_step(after_steps(m, steps.drop_last(), calc), steps.last(), calc)
    }
}

/// The records that a series of steps gives.
pub open spec fn records_of(m: Machine, steps: Seq<CycleStep>, calc: Calc) -> Seq<TradeRecord>
    decreases steps.len(),
{
    if steps.len() == 0 {
        Seq::empty()
    } else {
        let before = records_of(m, steps.drop_last(), calc);
        match step_record(after_steps(m, steps.drop_last(), calc), steps.last(), calc) {
            Some(r) => before.push(r),
            None => before,
        }
    }
}

/// How many of the steps opened a position.
pub open spec fn entries_of(m: Machine, steps: Seq<CycleStep>, calc: Calc) -> nat
    decreases steps.len(),
{
    if steps.len() == 0 {
        0
    } else {
        let before = after_steps(m, steps.drop_last(), calc);
        let after = after_step(before, steps.last(), calc);
        entries_of(m, steps.drop_last(), calc) + if !(before.state is Holding)
            && after.state is Holding {
            1nat
        } else {
            0
        }
    }
}

/// A machine that has been opened and has not entered since, holds its one position of the
/// cycle, or has closed it.
pub open spec fn one_trade(m: Machine, entries: int, records: int) -> bool {
    ||| entries == 0 && records == 0 && !m.kind.fired() && !(m.state is Holding)
    ||| entries == 1 && records == 0 && m.kind.fired() && m.state is Holding
    ||| entries == 1 && records == 1 && m.kind.fired() && !(m.state is Holding)
}

/// In a cycle a machine trades at most once: of all the ticks and settlements that follow its
/// opening, in whatever order, at most one opens a position and at most one gives a record,
/// also where they go on after the position was closed or the cycle settled.
pub proof fn one_trade_per_cycle(
    m: Machine,
    ctx: CycleContext,
    slug: String,
    entry_suppressed: bool,
    steps: Seq<CycleStep>,
    calc: Calc,
)
    ensures
        ({
            let opened = m.after_open(ctx, slug, entry_suppressed);
            &&& entries_of(opened, steps, calc) <= 1
            &&& records_of(opened, steps, calc).len() <= entries_of(opened, steps, calc)
            &&& one_trade(
                after_steps(opened, steps, calc),
                entries_of(opened, steps, calc) as int,
                records_of(opened, steps, calc).len() as int,
            )
        }),
    decreases steps.len(),
{
    if steps.len() > 0 {
        one_trade_per_cycle(m, ctx, slug, entry_suppressed, steps.drop_last(), calc);
    }
}

/// A machine that opened a cycle suppressed stays so and never trades in it, whatever ticks
/// and settlements follow.
pub proof fn suppressed_cycle_has_no_trade(
    m: Machine,
    ctx: CycleContext,
    slug: String,
    steps: Seq<CycleStep>,
    calc: Calc,
)
    ensures
        ({
            let opened = m.after_open(ctx, slug, true);
            &&& after_steps(opened, steps, calc).state is Halted
            &&& entries_of(opened, steps, calc) == 0
            &&& records_of(opened, steps, calc).len() == 0
        }),
    decreases steps.len(),
{
    if steps.len() > 0 {
        suppressed_cycle_has_no_trade(m, ctx, slug, steps.drop_last(), calc);
    }
}

/// Whatever closes a position, its record carries the cycle's name and start, the
/// strategy, and the side, time and price of the entry.
pub proof fn record_tells_the_entry(m: Machine, t: MergedTick, calc: Calc)
    requires
        tick_record(m, t, calc) is Some,
    ensures
        ({
            let r = tick_record(m, t, calc)->0;
            let h = m.state->Holding_0;
            &&& m.state is Holding
            &&& after_tick(m, t, calc).state is Watching
            &&& r.slug == m.cycle_slug
            &&& r.cycle_start == m.cycle_start_ts
            &&& r.strategy == m.strategy_name
            &&& r.side == h.side
            &&& r.entry_ts == h.entry_ts
            &&& r.entry_price_ts == h.entry_price_ts
            &&& r.token_price == h.token_price
        }),
{
}

/// A stop on the loss comes before everything else that the same tick would bring, and it
/// closes at the stop's price, not at the tick's.
pub proof fn loss_stop_comes_first(m: Machine, h: HoldingData, tick: PolyTick, calc: Calc)
    requires
        m.sl_pnl.gt(num(ZERO)),
        (match h.side {
            Side::Up => tick.up,
            Side::Down => tick.dn,
        }).le(calc.minus(h.token_price, m.sl_pnl)),
    ensures
        m.exit(h, tick, calc) is Some,
        m.exit(h, tick, calc)->0.outcome == Outcome::StopLoss,
        m.exit(h, tick, calc)->0.price == calc.minus(h.token_price, m.sl_pnl),
{
}

/// A stop, on the loss or on the price, comes before the profit target and the clock.
pub proof fn stop_comes_before_target_and_clock(
    m: Machine,
    h: HoldingData,
    tick: PolyTick,
    calc: Calc,
)
    requires
        ({
            let price = match h.side {
                Side::Up => tick.up,
                Side::Down => tick.dn,
            };
            ||| m.sl_pnl.gt(num(ZERO)) && price.le(calc.minus(h.token_price, m.sl_pnl))
            ||| m.sl.gt(num(ZERO)) && price.lt(m.sl)
        }),
    ensures
        m.exit(h, tick, calc) is Some,
        m.exit(h, tick, calc)->0.outcome == Outcome::StopLoss,
{
}

/// Near the end of the cycle every position is closed, on either feed, and as an unwind
/// unless a stop came first: a timeout never has the say there.
pub proof fn no_position_rides_into_the_end(m: Machine, h: HoldingData, t: MergedTick, calc: Calc)
    requires
        m.state == TradeState::Holding(h),
        !m.cycle_end_ts.le(num(ZERO)),
        ({
            let now = match t {
                MergedTick::Binance(b) => b.ts,
                MergedTick::Poly(p) => p.ts,
            };
            !calc.minus(m.cycle_end_ts, now).gt(num(FORCE_UNWIND_BEFORE_CYCLE_END_SECS))
        }),
    ensures
        tick_record(m, t, calc) is Some,
        tick_record(m, t, calc)->0.outcome == Outcome::Unwind || tick_record(
            m,
            t,
            calc,
        )->0.outcome == Outcome::StopLoss,
        !(after_tick(m, t, calc).state is Holding),
{
}

/// A position is not timed out before its time, nor at all when the cap is off.
pub proof fn timeout_waits(m: Machine, h: HoldingData, t: MergedTick, calc: Calc)
    requires
        m.state == TradeState::Holding(h),
        ({
            let now = match t {
                MergedTick::Binance(b) => b.ts,
                MergedTick::Poly(p) => p.ts,
            };
            m.unwind_time.le(num(ZERO)) || calc.minus(now, h.entry_ts).lt(m.unwind_time)
        }),
    ensures
        tick_record(m, t, calc) is Some ==> tick_record(m, t, calc)->0.outcome != Outcome::Timeout,
{
}

/// A v_shape entry does not ask which way Binance went: its intent is the same for every
/// move.
pub proof fn v_shape_ignores_binance_direction(
    m: Machine,
    other: DeltaPctSignal,
    now: Num,
    calc: Calc,
)
    requires
        m.kind is VShape,
    ensures
        m.intent(now, calc) == (Machine { delta_pct: other, ..m }).intent(now, calc),
{
}

/// A reversal or high_prob entry needs a Binance tick of this cycle: right after the cycle
/// opened no token tick can bring one.
pub proof fn no_entry_before_binance(
    m: Machine,
    ctx: CycleContext,
    slug: String,
    entry_suppressed: bool,
    ticks: Seq<MergedTick>,
    calc: Calc,
)
    requires
        !(m.kind is VShape),
        forall|i: int| 0 <= i < ticks.len() ==> #[trigger] ticks[i] is Poly,
    ensures
        ({
            let last = after_ticks(m.after_open(ctx, slug, entry_suppressed), ticks, calc);
            &&& !(last.state is Holding)
            &&& last.delta_pct == (DeltaPctSignal { price: num(ZERO), open: ctx.open_binance })
            &&& !(last.kind is VShape)
        }),
    decreases ticks.len(),
{
    if ticks.len() > 0 {
        assert(ticks.last() is Poly);
        assert forall|i: int| 0 <= i < ticks.drop_last().len() implies #[trigger] ticks.drop_last()[i] is Poly by {
            assert(ticks[i] is Poly);
        }
        no_entry_before_binance(m, ctx, slug, entry_suppressed, ticks.drop_last(), calc);
    }
}

/// Each machine of a replay runs as if it were alone.
pub proof fn machines_run_apart(machines: Seq<Machine>, ticks: Seq<MergedTick>, calc: Calc, i: int)
    requires
        0 <= i < machines.len(),
    ensures
        run_ticks(machines, ticks, calc).0.len() == machines.len(),
        run_ticks(machines, ticks, calc).0[i] == after_ticks(machines[i], ticks, calc),
    decreases ticks.len(),
{
    if ticks.len() > 0 {
        machines_run_apart(machines, ticks.drop_last(), calc, i);
    }
}

/// A dip, once seen, stays seen until the next cycle.
pub proof fn seen_dip_stays(s: SawLowSignal, t: PolyTick, calc: Calc)
    ensures
        s.fired ==> s.after_poly(t, calc).fired,
{
}

/// A dip counts only after the high, and once both were seen they stay seen.
pub proof fn dip_counts_after_high(s: VShapeSignal, t: PolyTick, calc: Calc)
    ensures
        s.seen_low_after_high ==> s.after_poly(t, calc).seen_low_after_high,
        s.seen_high ==> s.after_poly(t, calc).seen_high,
        !s.seen_low_after_high && s.after_poly(t, calc).seen_low_after_high ==> s.after_poly(
            t,
            calc,
        ).seen_high,
{
}

} // verus!

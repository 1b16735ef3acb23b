//! What opens and closes a position, and at which price.

use vstd::prelude::*;

use crate::backtest::{after_tick, tick_record, tick_time, MergedTick};
use crate::config::AssetParams;
use crate::gates::{check_gates, GateBlock};
use crate::laws::entries::side_price;
use crate::laws::gains::known_price;
use crate::machine::{HoldingData, Machine, StrategyKind};
use crate::num::{num, Arith, Calc, Num, Op, ONE, ZERO};
use crate::signal::Signal;
use crate::strategies::{HighProbStrategy, ReversalStrategy, VShapeStrategy};
use crate::types::{BinanceTick, CycleContext, Outcome, PolyTick, Side, TradeIntent, TradeRecord};

verus! {

/// A settled position pays a dollar a share when Binance went its way over the cycle, UP above
/// the opening and DOWN not above it, and nothing else. It gains what the shares bring, less the
/// whole stake.
pub proof fn settlement_pays_a_dollar_or_nothing<F: Fn(Op, Num, Num) -> Num>(arith: Arith<F>)
    ensures
        forall|m: &mut Machine, r: Option<TradeRecord>| #[trigger]
            call_ensures(Machine::cycle_close::<F>, (m, &arith), r) ==> {
                let rose = m.cycle_open_binance.lt(m.last_binance);
                let won = match m.state->Holding_0.side {
                    Side::Up => rose,
                    Side::Down => !rose,
                };
                &&& r is Some <==> m.state is Holding
                &&& r is Some && won ==> r->0.outcome == Outcome::Win && r->0.exit_price == num(ONE)
                &&& r is Some && !won ==> r->0.outcome == Outcome::Loss && r->0.exit_price == num(
                    ZERO,
                )
                &&& r is Some ==> final(m).state is Watching && tells_the_entry(
                    *m,
                    m.state->Holding_0,
                    r->0,
                )
                &&& r is None ==> *final(m) == *m
            },
{
}

/// The record tells the cycle, the strategy and the entry of the position, and nothing of tries
/// or delays that did not happen.
pub open spec fn tells_the_entry(m: Machine, h: HoldingData, r: TradeRecord) -> bool {
    &&& r.slug == m.cycle_slug
    &&& r.cycle_start == m.cycle_start_ts
    &&& r.strategy == m.strategy_name
    &&& r.side == h.side
    &&& r.entry_ts == h.entry_ts
    &&& r.entry_price_ts == h.entry_price_ts
    &&& r.token_price == h.token_price
    &&& r.exit_attempts == 0
    &&& r.exit_last_error is None
    &&& r.entry_signal_latency_ms == num(ZERO)
    &&& r.entry_process_latency_ms == num(ZERO)
    &&& r.exit_signal_latency_ms == num(ZERO)
    &&& r.exit_process_latency_ms == num(ZERO)
}

/// The cycle is so near its end, ten seconds, that nothing may stay open.
pub open spec fn ending(m: Machine, now: Num, calc: Calc) -> bool {
    !m.cycle_end_ts.le(num(ZERO)) && !num(0x4024_0000_0000_0000).lt(calc.minus(m.cycle_end_ts, now))
}

/// The position was open for as long as it may.
pub open spec fn timed_out(m: Machine, now: Num, calc: Calc) -> bool {
    !m.unwind_time.le(num(ZERO)) && !calc.minus(now, m.state->Holding_0.entry_ts).lt(m.unwind_time)
}

/// What closes a position on a token tick, and at which price: the loss per token first, at the
/// level; then the price stop, at the price; then the gain per token, at the level; then the end
/// of the cycle and the time, at the price. Without any of these the position stays as it is.
pub proof fn token_tick_closes_in_order<F: Fn(Op, Num, Num) -> Num>(tick: PolyTick, arith: Arith<F>)
    ensures
        forall|m: &mut Machine, r: Option<TradeRecord>| #[trigger]
            call_ensures(Machine::on_poly::<F>, (m, tick, &arith), r) && m.state is Holding ==> {
                let h = m.state->Holding_0;
                let price = side_price(tick, h.side);
                let floor = arith@.minus(h.token_price, m.sl_pnl);
                let goal = arith@.plus(h.token_price, m.unwind_pnl);
                let lost = num(ZERO).lt(m.sl_pnl) && price.le(floor);
                let fallen = num(ZERO).lt(m.sl) && price.lt(m.sl);
                let gained = num(ZERO).lt(m.unwind_pnl) && goal.le(price);
                let end = ending(*m, tick.ts, arith@);
                let over = timed_out(*m, tick.ts, arith@);
                &&& r is Some <==> lost || fallen || gained || end || over
                &&& r is Some ==> {
                    &&& r->0.outcome == Outcome::StopLoss <==> lost || fallen
                    &&& r->0.outcome == Outcome::Unwind <==> !lost && !fallen && (gained || end)
                    &&& r->0.outcome == Outcome::Timeout <==> !lost && !fallen && !gained && !end
                    &&& lost ==> r->0.exit_price == floor
                    &&& !lost && !fallen && gained ==> r->0.exit_price == goal
                    &&& !lost && (fallen || !gained) ==> r->0.exit_price == price
                    &&& tells_the_entry(*m, h, r->0)
                    &&& final(m).state is Watching
                }
                &&& r is None ==> final(m).state == m.state
            },
        forall|m: &mut Machine, r: Option<TradeRecord>| #[trigger]
            call_ensures(Machine::on_poly::<F>, (m, tick, &arith), r) && !(m.state is Holding)
                ==> r is None,
{
}

/// A Binance tick closes a position only by the clock, at the latest known price of its token.
pub proof fn binance_tick_closes_by_the_clock<F: Fn(Op, Num, Num) -> Num>(
    tick: BinanceTick,
    arith: Arith<F>,
)
    ensures
        forall|m: &mut Machine, r: Option<TradeRecord>| #[trigger]
            call_ensures(Machine::on_binance::<F>, (m, tick, &arith), r) && m.state is Holding ==> {
                let h = m.state->Holding_0;
                let end = ending(*m, tick.ts, arith@);
                let over = timed_out(*m, tick.ts, arith@);
                &&& r is Some <==> end || over
                &&& r is Some ==> {
                    &&& r->0.outcome == if end {
                        Outcome::Unwind
                    } else {
                        Outcome::Timeout
                    }
                    &&& r->0.exit_price == known_price(m.latest_poly, h.side)
                    &&& tells_the_entry(*m, h, r->0)
                    &&& final(m).state is Watching
                }
                &&& r is None ==> final(m).state == m.state
            },
        forall|m: &mut Machine, r: Option<TradeRecord>| #[trigger]
            call_ensures(Machine::on_binance::<F>, (m, tick, &arith), r) && !(m.state is Holding)
                ==> r is None,
{
}

/// The levels of a machine and the cycle that it is in.
pub open spec fn same_settings(a: Machine, b: Machine) -> bool {
    &&& a.strategy_name == b.strategy_name
    &&& a.cycle_open_binance == b.cycle_open_binance
    &&& a.cycle_start_ts == b.cycle_start_ts
    &&& a.cycle_end_ts == b.cycle_end_ts
    &&& a.cycle_slug == b.cycle_slug
    &&& a.sl == b.sl
    &&& a.sl_pnl == b.sl_pnl
    &&& a.unwind_pnl == b.unwind_pnl
    &&& a.unwind_time == b.unwind_time
    &&& a.trade_size == b.trade_size
    &&& a.gate_params == b.gate_params
}

/// A token tick reaches the signals of the tokens and no other, a Binance tick those of Binance
/// and no other; neither changes the levels of the machine or the cycle that it is in.
pub proof fn ticks_reach_their_signals<F: Fn(Op, Num, Num) -> Num>(
    t: PolyTick,
    b: BinanceTick,
    arith: Arith<F>,
)
    ensures
        forall|m: &mut Machine, r: Option<TradeRecord>| #[trigger]
            call_ensures(Machine::on_poly::<F>, (m, t, &arith), r) ==> {
                let a = *final(m);
                &&& a.latest_poly == m.latest_poly.after_poly(t, arith@)
                &&& a.spread == m.spread.after_poly(t, arith@)
                &&& a.saw_low_up == m.saw_low_up.after_poly(t, arith@)
                &&& a.saw_low_dn == m.saw_low_dn.after_poly(t, arith@)
                &&& a.v_up == m.v_up.after_poly(t, arith@)
                &&& a.v_dn == m.v_dn.after_poly(t, arith@)
                &&& a.delta_pct == m.delta_pct
                &&& a.latest_binance == m.latest_binance
                &&& a.last_binance == m.last_binance
                &&& same_settings(a, *m)
            },
        forall|m: &mut Machine, r: Option<TradeRecord>| #[trigger]
            call_ensures(Machine::on_binance::<F>, (m, b, &arith), r) ==> {
                let a = *final(m);
                &&& a.delta_pct == m.delta_pct.after_binance(b)
                &&& a.latest_binance == m.latest_binance.after_binance(b)
                &&& a.last_binance == b.price
                &&& a.latest_poly == m.latest_poly
                &&& a.spread == m.spread
                &&& a.saw_low_up == m.saw_low_up
                &&& a.saw_low_dn == m.saw_low_dn
                &&& a.v_up == m.v_up
                &&& a.v_dn == m.v_dn
                &&& same_settings(a, *m)
            },
{
}

/// A cycle opens with its name and times, with nothing moved since the opening, and watching
/// unless entries are suppressed in it.
pub proof fn cycle_opens_fresh(ctx: CycleContext, slug: &str, entry_suppressed: bool)
    ensures
        forall|m: &mut Machine| #[trigger]
            call_ensures(Machine::cycle_open, (m, &ctx, slug, entry_suppressed), ()) ==> {
                let a = *final(m);
                &&& a.cycle_slug@ == slug@
                &&& a.cycle_start_ts == ctx.start_ts
                &&& a.cycle_end_ts == ctx.end_ts
                &&& a.cycle_open_binance == ctx.open_binance
                &&& a.last_binance == ctx.open_binance
                &&& a.state is Watching <==> !entry_suppressed
                &&& a.state is Halted <==> entry_suppressed
                &&& a.strategy_name == m.strategy_name
                &&& a.sl == m.sl
                &&& a.sl_pnl == m.sl_pnl
                &&& a.unwind_pnl == m.unwind_pnl
                &&& a.unwind_time == m.unwind_time
                &&& a.trade_size == m.trade_size
                &&& a.gate_params == m.gate_params
                &&& a.latest_poly == m.latest_poly
                &&& a.latest_binance == m.latest_binance
                &&& a.spread == m.spread
                &&& a.delta_pct == m.delta_pct.after_reset(ctx)
                &&& a.saw_low_up == m.saw_low_up.after_reset(ctx)
                &&& a.saw_low_dn == m.saw_low_dn.after_reset(ctx)
                &&& a.v_up == m.v_up.after_reset(ctx)
                &&& a.v_dn == m.v_dn.after_reset(ctx)
                &&& !a.kind.fired()
            },
{
}

/// The position that an intent opens at a time: the intent's side, at the price of that side's
/// token.
pub open spec fn opened_by(h: HoldingData, i: TradeIntent, m: Machine, now: Num) -> bool {
    &&& h.side == i.side
    &&& h.entry_type == i.entry_type
    &&& h.token_price == match i.side {
        Side::Up => i.up,
        Side::Down => i.dn,
    }
    &&& h.entry_ts == now
    &&& h.entry_price_ts == m.latest_poly.ts
    &&& h.binance_at_entry == i.binance_price
}

/// What a machine that was watching has done about an intent, when the gates have answered: it
/// entered exactly when there was one and no gate stood in its way.
pub open spec fn acted_on(
    a: Machine,
    wanted: Option<TradeIntent>,
    block: Option<GateBlock>,
    now: Num,
) -> bool {
    &&& a.state is Holding <==> wanted is Some && block is None
    &&& a.state is Holding ==> opened_by(a.state->Holding_0, wanted->0, a, now) && a.kind.fired()
    &&& !(a.state is Holding) ==> a.state is Watching
}

/// A watching machine enters on a tick of either feed exactly when its strategy wants to on the
/// signals as they are with the tick, and the gates let it.
pub proof fn entry_is_wanted_and_let_through<F: Fn(Op, Num, Num) -> Num>(
    m: Machine,
    a: Machine,
    t: MergedTick,
    arith: Arith<F>,
    w: Option<TradeIntent>,
    g: Option<GateBlock>,
)
    requires
        m.state is Watching,
        a == after_tick(m, t, arith@),
        wants(m, a, tick_time(t), arith, w),
        gates_say(a, w, tick_time(t), arith, g),
    ensures
        acted_on(a, w, g, tick_time(t)),
{
}

/// A machine that is suppressed in a cycle does not enter on a tick, and one that holds a
/// position does not enter again.
pub proof fn no_entry_unless_watching(m: Machine, t: MergedTick, calc: Calc)
    ensures
        m.state is Halted ==> after_tick(m, t, calc).state is Halted,
        m.state is Holding ==> after_tick(m, t, calc).state == m.state || after_tick(
            m,
            t,
            calc,
        ).state is Watching,
        m.state is Holding ==> after_tick(m, t, calc).kind == m.kind,
{
}

/// A machine that takes a tick is the machine after that tick.
pub proof fn taking_a_tick<F: Fn(Op, Num, Num) -> Num>(t: PolyTick, b: BinanceTick, arith: Arith<F>)
    ensures
        forall|m: &mut Machine, r: Option<TradeRecord>| #[trigger]
            call_ensures(Machine::on_poly::<F>, (m, t, &arith), r) ==> *final(m) == after_tick(
                *m,
                MergedTick::Poly(t),
                arith@,
            ) && r == tick_record(*m, MergedTick::Poly(t), arith@),
        forall|m: &mut Machine, r: Option<TradeRecord>| #[trigger]
            call_ensures(Machine::on_binance::<F>, (m, b, &arith), r) ==> *final(m) == after_tick(
                *m,
                MergedTick::Binance(b),
                arith@,
            ) && r == tick_record(*m, MergedTick::Binance(b), arith@),
{
}

/// The strategy that the machine had, asked about the signals that it has.
pub open spec fn wants<F: Fn(Op, Num, Num) -> Num>(
    before: Machine,
    a: Machine,
    now: Num,
    arith: Arith<F>,
    w: Option<TradeIntent>,
) -> bool {
    match before.kind {
        StrategyKind::Reversal(s) => call_ensures(
            ReversalStrategy::evaluate::<F>,
            (
                &s,
                now,
                &a.saw_low_up,
                &a.saw_low_dn,
                &a.latest_poly,
                &a.delta_pct,
                &a.latest_binance,
                &arith,
            ),
            w,
        ),
        StrategyKind::HighProb(s) => call_ensures(
            HighProbStrategy::evaluate::<F>,
            (&s, now, &a.latest_poly, &a.delta_pct, &a.latest_binance, &arith),
            w,
        ),
        StrategyKind::VShape(s) => call_ensures(
            VShapeStrategy::evaluate::<F>,
            (&s, now, &a.v_up, &a.v_dn, &a.latest_poly, &a.latest_binance, &arith),
            w,
        ),
    }
}

/// What the gates say to an intent, where there is one.
pub open spec fn gates_say<F: Fn(Op, Num, Num) -> Num>(
    a: Machine,
    w: Option<TradeIntent>,
    now: Num,
    arith: Arith<F>,
    g: Option<GateBlock>,
) -> bool {
    w is Some ==> call_ensures(
        check_gates::<F>,
        (&w->0, &a.spread, &a.latest_poly, &a.delta_pct, &a.gate_params, now, &arith),
        g,
    )
}

/// A new machine has its strategy's own stops, target and time, and the stake and caps of the
/// asset.
pub proof fn machines_take_their_own_levels(p: AssetParams)
    ensures
        forall|m: Machine| #[trigger]
            call_ensures(Machine::new_reversal, (&p,), m) ==> {
                &&& m.strategy_name@ == "reversal"@
                &&& m.kind is Reversal
                &&& m.kind->Reversal_0.reversal == p.reversal
                &&& m.kind->Reversal_0.no_enter_when_time_left == p.no_enter_when_time_left
                &&& m.sl == p.sl_reversal
                &&& m.sl_pnl == p.sl_pnl_rev
                &&& m.unwind_pnl == p.unwind_pnl_rev
                &&& m.unwind_time == p.unwind_time_rev
                &&& takes_the_asset(m, p)
            },
        forall|m: Machine| #[trigger]
            call_ensures(Machine::new_high_prob, (&p,), m) ==> {
                &&& m.strategy_name@ == "high_prob"@
                &&& m.kind is HighProb
                &&& m.kind->HighProb_0.price_low == p.price_low
                &&& m.kind->HighProb_0.price_high == p.price_high
                &&& m.kind->HighProb_0.enter_when_time_left == p.enter_when_time_left
                &&& m.kind->HighProb_0.no_enter_when_time_left == p.no_enter_when_time_left
                &&& m.sl == p.sl_high_prob
                &&& m.sl_pnl == p.sl_pnl_hp
                &&& m.unwind_pnl == p.unwind_pnl_hp
                &&& m.unwind_time == p.unwind_time_hp
                &&& takes_the_asset(m, p)
            },
        forall|m: Machine| #[trigger]
            call_ensures(Machine::new_v_shape, (&p,), m) ==> {
                &&& m.strategy_name@ == "v_shape"@
                &&& m.kind is VShape
                &&& m.kind->VShape_0.v_high2 == p.v_high2
                &&& m.kind->VShape_0.no_enter_when_time_left == p.no_enter_when_time_left
                &&& m.sl == p.sl_v_shape
                &&& m.sl_pnl == p.sl_pnl_v
                &&& m.unwind_pnl == p.unwind_pnl_v
                &&& m.unwind_time == p.unwind_time_v
                &&& takes_the_asset(m, p)
            },
{
}

/// The stake, the caps and the levels of the signals come from the asset, and nothing was seen
/// yet.
pub open spec fn takes_the_asset(m: Machine, p: AssetParams) -> bool {
    &&& m.trade_size == p.trade_size_usdc
    &&& m.gate_params.spread_premium_limit == p.spread_premium_limit
    &&& m.gate_params.spread_discount_limit == p.spread_discount_limit
    &&& m.gate_params.max_price_age_secs == p.max_price_age_secs
    &&& m.gate_params.delta_pct_rev == p.delta_pct_rev
    &&& m.gate_params.delta_pct_hp == p.delta_pct_hp
    &&& m.gate_params.delta_pct_v == p.delta_pct_v
    &&& m.gate_params.max_buy_price == p.max_buy_price
    &&& m.gate_params.price_high_rev == p.price_high_rev
    &&& m.saw_low_up.side == Side::Up && m.saw_low_dn.side == Side::Down
    &&& m.saw_low_up.low_threshold == p.reversal_low_threshold
    &&& m.saw_low_up.start_time_left == p.reversal_start_time
    &&& m.saw_low_up.end_time_left == p.no_enter_when_time_left
    &&& m.saw_low_dn.low_threshold == p.reversal_low_threshold
    &&& m.saw_low_dn.start_time_left == p.reversal_start_time
    &&& m.saw_low_dn.end_time_left == p.no_enter_when_time_left
    &&& m.v_up.side == Side::Up && m.v_dn.side == Side::Down
    &&& m.v_up.high1 == p.v_high1 && m.v_dn.high1 == p.v_high1
    &&& m.v_up.low == p.v_low && m.v_dn.low == p.v_low
    &&& m.state is Watching
    &&& !m.kind.fired()
}

} // verus!

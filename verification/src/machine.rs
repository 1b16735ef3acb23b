//! The trading state of one strategy on one asset, with instant fills.
//!
//! Token ticks can close a position or open one; Binance ticks can open one, and close
//! one that has run out of time.

use vstd::prelude::*;

use crate::config::AssetParams;
use crate::gates::{check_gates, GateParams};
use crate::num::{num, Arith, Calc, Num, Op, ONE, ZERO};
use crate::signal::{
    DeltaPctSignal, LatestBinanceSignal, LatestPolySignal, SawLowSignal, Signal, SpreadSignal,
    VShapeSignal,
};
use crate::strategies::{HighProbStrategy, ReversalStrategy, VShapeStrategy};
use crate::types::{
    BinanceTick, CycleContext, EntryType, Outcome, PolyTick, Side, TradeIntent, TradeRecord,
};

verus! {

/// The bits of 10.0: seconds before the end of a cycle at which an open position is
/// closed at the market, so that none rides into the resolution.
pub const FORCE_UNWIND_BEFORE_CYCLE_END_SECS: u64 = 0x4024_0000_0000_0000;

/// The bits of 10000.0.
pub const TEN_THOUSAND: u64 = 0x40C3_8800_0000_0000;

/// An open position.
#[derive(Clone, Copy, Debug)]
pub struct HoldingData {
    pub side: Side,
    pub entry_type: EntryType,
    pub token_price: Num,
    pub entry_ts: Num,
    /// Timestamp of the token price that the entry was decided on.
    pub entry_price_ts: Num,
    pub binance_at_entry: Num,
}

#[derive(Clone, Copy, Debug)]
pub enum TradeState {
    Watching,
    Holding(HoldingData),
    /// No entry in this cycle.
    Halted,
}

#[derive(Clone, Copy, Debug)]
pub enum StrategyKind {
    Reversal(ReversalStrategy),
    HighProb(HighProbStrategy),
    VShape(VShapeStrategy),
}

impl StrategyKind {
    /// An entry was made in this cycle.
    pub open spec fn fired(self) -> bool {
        match self {
            StrategyKind::Reversal(r) => r.fired,
            StrategyKind::HighProb(hp) => hp.fired,
            StrategyKind::VShape(v) => v.fired,
        }
    }

    pub open spec fn after_reset(self, ctx: CycleContext) -> Self {
        match self {
            StrategyKind::Reversal(r) => StrategyKind::Reversal(
                ReversalStrategy { fired: false, cycle_end_ts: ctx.end_ts, ..r },
            ),
            StrategyKind::HighProb(hp) => StrategyKind::HighProb(
                HighProbStrategy { fired: false, cycle_end_ts: ctx.end_ts, ..hp },
            ),
            StrategyKind::VShape(v) => StrategyKind::VShape(
                VShapeStrategy { fired: false, cycle_end_ts: ctx.end_ts, ..v },
            ),
        }
    }

    pub open spec fn after_fire(self) -> Self {
        match self {
            StrategyKind::Reversal(r) => StrategyKind::Reversal(
                ReversalStrategy { fired: true, ..r },
            ),
            StrategyKind::HighProb(hp) => StrategyKind::HighProb(
                HighProbStrategy { fired: true, ..hp },
            ),
            StrategyKind::VShape(v) => StrategyKind::VShape(VShapeStrategy { fired: true, ..v }),
        }
    }
}

/// How a position is closed.
pub struct Exit {
    pub outcome: Outcome,
    pub price: Num,
    pub pnl: Num,
}

pub open spec fn rounded4(x: Num, calc: Calc) -> Num {
    calc.over(calc.round(calc.times(x, num(TEN_THOUSAND))), num(TEN_THOUSAND))
}

/// `x` to four decimals.
pub fn round4<F: Fn(Op, Num, Num) -> Num>(x: Num, arith: &Arith<F>) -> (r: Num)
    ensures
        r == rounded4(x, arith@),
{
    arith.over(arith.round(arith.times(x, num(TEN_THOUSAND))), num(TEN_THOUSAND))
}

/// The gain of a stake that bought at `entry` and sells at `exit`, to four decimals.
pub open spec fn gain(stake: Num, entry: Num, exit: Num, calc: Calc) -> Num {
    rounded4(calc.minus(calc.times(calc.over(stake, entry), exit), stake), calc)
}

fn gain_of<F: Fn(Op, Num, Num) -> Num>(stake: Num, entry: Num, exit: Num, arith: &Arith<F>) -> (r:
    Num)
    ensures
        r == gain(stake, entry, exit, arith@),
{
    let shares = arith.over(stake, entry);
    round4(arith.minus(arith.times(shares, exit), stake), arith)
}

#[derive(Clone, Debug)]
pub struct Machine {
    pub strategy_name: &'static str,
    pub kind: StrategyKind,
    pub saw_low_up: SawLowSignal,
    pub saw_low_dn: SawLowSignal,
    pub v_up: VShapeSignal,
    pub v_dn: VShapeSignal,
    pub latest_poly: LatestPolySignal,
    pub spread: SpreadSignal,
    pub delta_pct: DeltaPctSignal,
    pub latest_binance: LatestBinanceSignal,
    pub state: TradeState,
    pub cycle_open_binance: Num,
    pub last_binance: Num,
    pub cycle_start_ts: Num,
    pub cycle_end_ts: Num,
    pub cycle_slug: String,
    /// Stop at this token price; zero switches it off.
    pub sl: Num,
    /// Stop at this loss per token; zero switches it off.
    pub sl_pnl: Num,
    /// Take profit at this gain per token; zero switches it off.
    pub unwind_pnl: Num,
    /// Seconds a position may stay open; zero switches the cap off.
    pub unwind_time: Num,
    pub trade_size: Num,
    pub gate_params: GateParams,
}

pub open spec fn gates_of(p: AssetParams) -> GateParams {
    GateParams {
        spread_premium_limit: p.spread_premium_limit,
        spread_discount_limit: p.spread_discount_limit,
        max_price_age_secs: p.max_price_age_secs,
        delta_pct_rev: p.delta_pct_rev,
        delta_pct_hp: p.delta_pct_hp,
        delta_pct_v: p.delta_pct_v,
        max_buy_price: p.max_buy_price,
        price_high_rev: p.price_high_rev,
    }
}

/// A machine that has seen no tick.
pub open spec fn is_fresh(m: Machine, p: AssetParams) -> bool {
    &&& m.saw_low_up == SawLowSignal::fresh(
        Side::Up,
        p.reversal_low_threshold,
        p.reversal_start_time,
        p.no_enter_when_time_left,
    )
    &&& m.saw_low_dn == SawLowSignal::fresh(
        Side::Down,
        p.reversal_low_threshold,
        p.reversal_start_time,
        p.no_enter_when_time_left,
    )
    &&& m.v_up == VShapeSignal::fresh(Side::Up, p.v_high1, p.v_low)
    &&& m.v_dn == VShapeSignal::fresh(Side::Down, p.v_high1, p.v_low)
    &&& m.latest_poly == LatestPolySignal::blank()
    &&& m.spread == (SpreadSignal { up: num(ZERO), dn: num(ZERO) })
    &&& m.delta_pct == (DeltaPctSignal { price: num(ZERO), open: num(ZERO) })
    &&& m.latest_binance == (LatestBinanceSignal { price: num(ZERO), ts: num(ZERO) })
    &&& m.state is Watching
    &&& m.cycle_open_binance == num(ZERO)
    &&& m.last_binance == num(ZERO)
    &&& m.cycle_start_ts == num(ZERO)
    &&& m.cycle_end_ts == num(ZERO)
    &&& m.cycle_slug@ == Seq::<char>::empty()
    &&& m.trade_size == p.trade_size_usdc
    &&& m.gate_params == gates_of(p)
}

fn fresh_machine(p: &AssetParams, strategy_name: &'static str, kind: StrategyKind, limits: (
    Num,
    Num,
    Num,
    Num,
)) -> (r: Machine)
    ensures
        is_fresh(r, *p),
        r.strategy_name@ == strategy_name@,
        r.kind == kind,
        r.sl == limits.0,
        r.sl_pnl == limits.1,
        r.unwind_pnl == limits.2,
        r.unwind_time == limits.3,
{
    Machine {
        strategy_name,
        kind,
        saw_low_up: SawLowSignal::new_up(
            p.reversal_low_threshold,
            p.reversal_start_time,
            p.no_enter_when_time_left,
        ),
        saw_low_dn: SawLowSignal::new_dn(
            p.reversal_low_threshold,
            p.reversal_start_time,
            p.no_enter_when_time_left,
        ),
        v_up: VShapeSignal::new_up(p.v_high1, p.v_low),
        v_dn: VShapeSignal::new_dn(p.v_high1, p.v_low),
        latest_poly: LatestPolySignal::new(),
        spread: SpreadSignal::new(),
        delta_pct: DeltaPctSignal::new(),
        latest_binance: LatestBinanceSignal::new(),
        state: TradeState::Watching,
        cycle_open_binance: num(ZERO),
        last_binance: num(ZERO),
        cycle_start_ts: num(ZERO),
        cycle_end_ts: num(ZERO),
        cycle_slug: String::new(),
        sl: limits.0,
        sl_pnl: limits.1,
        unwind_pnl: limits.2,
        unwind_time: limits.3,
        trade_size: p.trade_size_usdc,
        gate_params: GateParams {
            spread_premium_limit: p.spread_premium_limit,
            spread_discount_limit: p.spread_discount_limit,
            max_price_age_secs: p.max_price_age_secs,
            delta_pct_rev: p.delta_pct_rev,
            delta_pct_hp: p.delta_pct_hp,
            delta_pct_v: p.delta_pct_v,
            max_buy_price: p.max_buy_price,
            price_high_rev: p.price_high_rev,
        },
    }
}

impl Machine {
    pub fn new_reversal(p: &AssetParams) -> (r: Self)
        ensures
            is_fresh(r, *p),
            r.strategy_name@ == "reversal"@,
            r.kind == StrategyKind::Reversal(
                ReversalStrategy {
                    reversal: p.reversal,
                    no_enter_when_time_left: p.no_enter_when_time_left,
                    fired: false,
                    cycle_end_ts: num(ZERO),
                },
            ),
            r.sl == p.sl_reversal,
            r.sl_pnl == p.sl_pnl_rev,
            r.unwind_pnl == p.unwind_pnl_rev,
            r.unwind_time == p.unwind_time_rev,
    {
        let kind = StrategyKind::Reversal(
            ReversalStrategy::new(p.reversal, p.no_enter_when_time_left),
        );
        fresh_machine(
            p,
            "reversal",
            kind,
            (p.sl_reversal, p.sl_pnl_rev, p.unwind_pnl_rev, p.unwind_time_rev),
        )
    }

    pub fn new_high_prob(p: &AssetParams) -> (r: Self)
        ensures
            is_fresh(r, *p),
            r.strategy_name@ == "high_prob"@,
            r.kind == StrategyKind::HighProb(
                HighProbStrategy {
                    price_low: p.price_low,
                    price_high: p.price_high,
                    enter_when_time_left: p.enter_when_time_left,
                    no_enter_when_time_left: p.no_enter_when_time_left,
                    fired: false,
                    cycle_end_ts: num(ZERO),
                },
            ),
            r.sl == p.sl_high_prob,
            r.sl_pnl == p.sl_pnl_hp,
            r.unwind_pnl == p.unwind_pnl_hp,
            r.unwind_time == p.unwind_time_hp,
    {
        let kind = StrategyKind::HighProb(
            HighProbStrategy::new(
                p.price_low,
                p.price_high,
                p.enter_when_time_left,
                p.no_enter_when_time_left,
            ),
        );
        fresh_machine(
            p,
            "high_prob",
            kind,
            (p.sl_high_prob, p.sl_pnl_hp, p.unwind_pnl_hp, p.unwind_time_hp),
        )
    }

    pub fn new_v_shape(p: &AssetParams) -> (r: Self)
        ensures
            is_fresh(r, *p),
            r.strategy_name@ == "v_shape"@,
            r.kind == StrategyKind::VShape(
                VShapeStrategy {
                    v_high2: p.v_high2,
                    no_enter_when_time_left: p.no_enter_when_time_left,
                    fired: false,
                    cycle_end_ts: num(ZERO),
                },
            ),
            r.sl == p.sl_v_shape,
            r.sl_pnl == p.sl_pnl_v,
            r.unwind_pnl == p.unwind_pnl_v,
            r.unwind_time == p.unwind_time_v,
    {
        let kind = StrategyKind::VShape(VShapeStrategy::new(p.v_high2, p.no_enter_when_time_left));
        fresh_machine(
            p,
            "v_shape",
            kind,
            (p.sl_v_shape, p.sl_pnl_v, p.unwind_pnl_v, p.unwind_time_v),
        )
    }

    /// The machine at the start of a cycle whose name is `slug`.
    pub open spec fn after_open(self, ctx: CycleContext, slug: String, entry_suppressed: bool) -> Self {
        Machine {
            saw_low_up: self.saw_low_up.after_reset(ctx),
            saw_low_dn: self.saw_low_dn.after_reset(ctx),
            v_up: self.v_up.after_reset(ctx),
            v_dn: self.v_dn.after_reset(ctx),
            delta_pct: self.delta_pct.after_reset(ctx),
            kind: self.kind.after_reset(ctx),
            cycle_open_binance: ctx.open_binance,
            last_binance: ctx.open_binance,
            cycle_start_ts: ctx.start_ts,
            cycle_end_ts: ctx.end_ts,
            cycle_slug: slug,
            state: if entry_suppressed {
                TradeState::Halted
            } else {
                TradeState::Watching
            },
            ..self
        }
    }

    /// Starts a cycle. With `entry_suppressed` there will be no entry in it.
    pub fn cycle_open(&mut self, ctx: &CycleContext, slug: &str, entry_suppressed: bool)
        ensures
            final(self).cycle_slug@ == slug@,
            *final(self) == old(self).after_open(*ctx, final(self).cycle_slug, entry_suppressed),
    {
        self.open_named(ctx, slug.to_owned(), entry_suppressed);
    }

    /// `cycle_open` with a name that the machine keeps.
    pub fn open_named(&mut self, ctx: &CycleContext, slug: String, entry_suppressed: bool)
        ensures
            *final(self) == old(self).after_open(*ctx, slug, entry_suppressed),
    {
        self.saw_low_up.reset(ctx);
        self.saw_low_dn.reset(ctx);
        self.v_up.reset(ctx);
        self.v_dn.reset(ctx);
        self.delta_pct.reset(ctx);
        match &mut self.kind {
            StrategyKind::Reversal(r) => r.reset(ctx),
            StrategyKind::HighProb(hp) => hp.reset(ctx),
            StrategyKind::VShape(v) => v.reset(ctx),
        }
        self.cycle_open_binance = ctx.open_binance;
        self.last_binance = ctx.open_binance;
        self.cycle_start_ts = ctx.start_ts;
        self.cycle_end_ts = ctx.end_ts;
        self.cycle_slug = slug;
        self.state =
        if entry_suppressed {
            TradeState::Halted
        } else {
            TradeState::Watching
        };
    }

    /// The token tick has reached the signals.
    pub open spec fn fed_poly(self, tick: PolyTick, calc: Calc) -> Self {
        Machine {
            latest_poly: self.latest_poly.after_poly(tick, calc),
            spread: self.spread.after_poly(tick, calc),
            saw_low_up: self.saw_low_up.after_poly(tick, calc),
            saw_low_dn: self.saw_low_dn.after_poly(tick, calc),
            v_up: self.v_up.after_poly(tick, calc),
            v_dn: self.v_dn.after_poly(tick, calc),
            ..self
        }
    }

    /// The Binance tick has reached the signals.
    pub open spec fn fed_binance(self, tick: BinanceTick) -> Self {
        Machine {
            delta_pct: self.delta_pct.after_binance(tick),
            latest_binance: self.latest_binance.after_binance(tick),
            last_binance: tick.price,
            ..self
        }
    }

    /// What the strategy wants at time `now`.
    pub open spec fn intent(self, now: Num, calc: Calc) -> Option<TradeIntent> {
        match self.kind {
            StrategyKind::Reversal(r) => r.intent(
                now,
                self.saw_low_up,
                self.saw_low_dn,
                self.latest_poly,
                self.delta_pct,
                self.latest_binance,
                calc,
            ),
            StrategyKind::HighProb(hp) => hp.intent(
                now,
                self.latest_poly,
                self.delta_pct,
                self.latest_binance,
                calc,
            ),
            StrategyKind::VShape(v) => v.intent(
                now,
                self.v_up,
                self.v_dn,
                self.latest_poly,
                self.latest_binance,
                calc,
            ),
        }
    }

    /// The intent that is acted on at time `now`: the machine is watching, the strategy
    /// has one, and it passes the gates.
    pub open spec fn entry(self, now: Num, calc: Calc) -> Option<TradeIntent> {
        match self.intent(now, calc) {
            Some(i) => if self.state is Watching && self.gate_params.first_block(
                i,
                self.spread,
                self.latest_poly,
                self.delta_pct,
                now,
                calc,
            ) is None {
                Some(i)
            } else {
                None
            },
            None => None,
        }
    }

    /// The machine after it had its chance to enter at time `now`.
    pub open spec fn entered(self, now: Num, calc: Calc) -> Self {
        match self.entry(now, calc) {
            Some(i) => Machine {
                kind: self.kind.after_fire(),
                state: TradeState::Holding(
                    HoldingData {
                        side: i.side,
                        entry_type: i.entry_type,
                        token_price: i.token_price(),
                        entry_ts: now,
                        entry_price_ts: self.latest_poly.ts,
                        binance_at_entry: i.binance_price,
                    },
                ),
                ..self
            },
            None => self,
        }
    }

    /// The end of the cycle is near enough to close a position at `price`.
    pub open spec fn cycle_end_exit(
        self,
        h: HoldingData,
        now: Num,
        price: Num,
        calc: Calc,
    ) -> Option<Exit> {
        if self.cycle_end_ts.le(num(ZERO)) || calc.minus(self.cycle_end_ts, now).gt(
            num(FORCE_UNWIND_BEFORE_CYCLE_END_SECS),
        ) {
            None
        } else {
            Some(
                Exit {
                    outcome: Outcome::Unwind,
                    price,
                    pnl: gain(self.trade_size, h.token_price, price, calc),
                },
            )
        }
    }

    /// The position has been open for the allowed time.
    pub open spec fn timeout_exit(
        self,
        h: HoldingData,
        now: Num,
        price: Num,
        calc: Calc,
    ) -> Option<Exit> {
        if self.unwind_time.le(num(ZERO)) || calc.minus(now, h.entry_ts).lt(self.unwind_time) {
            None
        } else {
            Some(
                Exit {
                    outcome: Outcome::Timeout,
                    price,
                    pnl: gain(self.trade_size, h.token_price, price, calc),
                },
            )
        }
    }

    /// The exit that the clock alone asks for.
    pub open spec fn clock_exit(
        self,
        h: HoldingData,
        now: Num,
        price: Num,
        calc: Calc,
    ) -> Option<Exit> {
        match self.cycle_end_exit(h, now, price, calc) {
            Some(e) => Some(e),
            None => self.timeout_exit(h, now, price, calc),
        }
    }

    /// The exit on a token tick: the stop on the loss, the stop on the price, the profit
    /// target, then the clock.
    pub open spec fn exit(self, h: HoldingData, tick: PolyTick, calc: Calc) -> Option<Exit> {
        let price = match h.side {
            Side::Up => tick.up,
            Side::Down => tick.dn,
        };
        let stop = calc.minus(h.token_price, self.sl_pnl);
        let target = calc.plus(h.token_price, self.unwind_pnl);
        if self.sl_pnl.gt(num(ZERO)) && price.le(stop) {
            Some(
                Exit {
                    outcome: Outcome::StopLoss,
                    price: stop,
                    pnl: rounded4(
                        calc.over(
                            calc.times(self.trade_size.negate(), self.sl_pnl),
                            h.token_price,
                        ),
                        calc,
                    ),
                },
            )
        } else if self.sl.gt(num(ZERO)) && price.lt(self.sl) {
            Some(
                Exit {
                    outcome: Outcome::StopLoss,
                    price,
                    pnl: gain(self.trade_size, h.token_price, price, calc),
                },
            )
        } else if self.unwind_pnl.gt(num(ZERO)) && price.ge(target) {
            Some(
                Exit {
                    outcome: Outcome::Unwind,
                    price: target,
                    pnl: rounded4(
                        calc.over(calc.times(self.trade_size, self.unwind_pnl), h.token_price),
                        calc,
                    ),
                },
            )
        } else {
            self.clock_exit(h, tick.ts, price, calc)
        }
    }

    /// The record of a position closed in this cycle.
    pub open spec fn record(self, h: HoldingData, e: Exit) -> TradeRecord {
        TradeRecord {
            slug: self.cycle_slug,
            cycle_start: self.cycle_start_ts,
            strategy: self.strategy_name,
            side: h.side,
            entry_ts: h.entry_ts,
            entry_price_ts: h.entry_price_ts,
            token_price: h.token_price,
            exit_price: e.price,
            outcome: e.outcome,
            pnl: e.pnl,
            exit_attempts: 0,
            exit_last_error: None,
            entry_signal_latency_ms: num(ZERO),
            entry_process_latency_ms: num(ZERO),
            exit_signal_latency_ms: num(ZERO),
            exit_process_latency_ms: num(ZERO),
        }
    }

    /// The exit that a token tick brings, once it has reached the signals.
    pub open spec fn poly_exit(self, tick: PolyTick, calc: Calc) -> Option<Exit> {
        match self.state {
            TradeState::Holding(h) => self.exit(h, tick, calc),
            _ => None,
        }
    }

    /// The exit that a Binance tick brings: only the clock can close, at the latest known
    /// token price.
    pub open spec fn binance_exit(self, tick: BinanceTick, calc: Calc) -> Option<Exit> {
        match self.state {
            TradeState::Holding(h) => self.clock_exit(
                h,
                tick.ts,
                self.latest_poly.price_of(h.side),
                calc,
            ),
            _ => None,
        }
    }

    /// The machine after it closed its position, if an exit came.
    pub open spec fn closed_by(self, e: Option<Exit>) -> Self {
        if e is Some {
            Machine { state: TradeState::Watching, ..self }
        } else {
            self
        }
    }

    pub open spec fn record_of(self, e: Option<Exit>) -> Option<TradeRecord> {
        match e {
            Some(x) => Some(self.record(self.state->Holding_0, x)),
            None => None,
        }
    }

    /// The machine after a token tick.
    pub open spec fn after_poly(self, tick: PolyTick, calc: Calc) -> Self {
        let m = self.fed_poly(tick, calc);
        if m.state is Holding {
            m.closed_by(m.poly_exit(tick, calc))
        } else {
            m.entered(tick.ts, calc)
        }
    }

    /// The record that a token tick gives.
    pub open spec fn poly_record(self, tick: PolyTick, calc: Calc) -> Option<TradeRecord> {
        let m = self.fed_poly(tick, calc);
        m.record_of(m.poly_exit(tick, calc))
    }

    /// The machine after a Binance tick.
    pub open spec fn after_binance(self, tick: BinanceTick, calc: Calc) -> Self {
        let m = self.fed_binance(tick);
        if m.state is Holding {
            m.closed_by(m.binance_exit(tick, calc))
        } else {
            m.entered(tick.ts, calc)
        }
    }

    /// The record that a Binance tick gives.
    pub open spec fn binance_record(self, tick: BinanceTick, calc: Calc) -> Option<TradeRecord> {
        let m = self.fed_binance(tick);
        m.record_of(m.binance_exit(tick, calc))
    }

    /// Takes a token tick. Gives a record when it closes the position.
    pub fn on_poly<F: Fn(Op, Num, Num) -> Num>(&mut self, tick: PolyTick, arith: &Arith<F>) -> (r:
        Option<TradeRecord>)
        ensures
            *final(self) == old(self).after_poly(tick, arith@),
            r == old(self).poly_record(tick, arith@),
    {
        self.latest_poly.on_poly(tick, arith);
        self.spread.on_poly(tick, arith);
        self.saw_low_up.on_poly(tick, arith);
        self.saw_low_dn.on_poly(tick, arith);
        self.v_up.on_poly(tick, arith);
        self.v_dn.on_poly(tick, arith);
        assert(*self == old(self).fed_poly(tick, arith@));
        let h = match self.state {
            TradeState::Holding(h) => h,
            _ => {
                self.try_enter(tick.ts, arith);
                return None;
            },
        };
        let exit_price = match h.side {
            Side::Up => tick.up,
            Side::Down => tick.dn,
        };
        let stop = arith.minus(h.token_price, self.sl_pnl);
        if self.sl_pnl.gt(num(ZERO)) && exit_price.le(stop) {
            let loss = arith.over(
                arith.times(self.trade_size.negate(), self.sl_pnl),
                h.token_price,
            );
            let pnl = round4(loss, arith);
            return self.emit(h, Outcome::StopLoss, stop, pnl);
        }
        if self.sl.gt(num(ZERO)) && exit_price.lt(self.sl) {
            let pnl = gain_of(self.trade_size, h.token_price, exit_price, arith);
            return self.emit(h, Outcome::StopLoss, exit_price, pnl);
        }
        let target = arith.plus(h.token_price, self.unwind_pnl);
        if self.unwind_pnl.gt(num(ZERO)) && exit_price.ge(target) {
            let profit = arith.over(arith.times(self.trade_size, self.unwind_pnl), h.token_price);
            let pnl = round4(profit, arith);
            return self.emit(h, Outcome::Unwind, target, pnl);
        }
        let by_cycle_end = self.check_cycle_end_unwind(&h, tick.ts, exit_price, arith);
        if by_cycle_end.is_some() {
            return by_cycle_end;
        }
        self.check_timeout(&h, tick.ts, exit_price, arith)
    }

    /// Takes a Binance tick. Gives a record when the clock closes the position.
    pub fn on_binance<F: Fn(Op, Num, Num) -> Num>(
        &mut self,
        tick: BinanceTick,
        arith: &Arith<F>,
    ) -> (r: Option<TradeRecord>)
        ensures
            *final(self) == old(self).after_binance(tick, arith@),
            r == old(self).binance_record(tick, arith@),
    {
        self.delta_pct.on_binance(tick);
        self.latest_binance.on_binance(tick);
        self.last_binance = tick.price;
        assert(*self == old(self).fed_binance(tick));
        if let TradeState::Holding(h) = self.state {
            let exit_price = match h.side {
                Side::Up => self.latest_poly.up(),
                Side::Down => self.latest_poly.dn(),
            };
            let by_cycle_end = self.check_cycle_end_unwind(&h, tick.ts, exit_price, arith);
            if by_cycle_end.is_some() {
                return by_cycle_end;
            }
            return self.check_timeout(&h, tick.ts, exit_price, arith);
        }
        self.try_enter(tick.ts, arith);
        None
    }

    /// Closes the position at the market when the cycle is about to end, as an unwind
    /// even where the profit target was not reached.
    fn check_cycle_end_unwind<F: Fn(Op, Num, Num) -> Num>(
        &mut self,
        h: &HoldingData,
        now: Num,
        exit_price: Num,
        arith: &Arith<F>,
    ) -> (r: Option<TradeRecord>)
        ensures
            ({
                let e = old(self).cycle_end_exit(*h, now, exit_price, arith@);
                &&& *final(self) == old(self).closed_by(e)
                &&& r == (if e is Some {
                    Some(old(self).record(*h, e->0))
                } else {
                    None
                })
            }),
    {
        if self.cycle_end_ts.le(num(ZERO)) || arith.minus(self.cycle_end_ts, now).gt(
            num(FORCE_UNWIND_BEFORE_CYCLE_END_SECS),
        ) {
            return None;
        }
        let pnl = gain_of(self.trade_size, h.token_price, exit_price, arith);
        self.emit(*h, Outcome::Unwind, exit_price, pnl)
    }

    /// Closes the position at the market when it has been open for the allowed time.
    fn check_timeout<F: Fn(Op, Num, Num) -> Num>(
        &mut self,
        h: &HoldingData,
        now: Num,
        exit_price: Num,
        arith: &Arith<F>,
    ) -> (r: Option<TradeRecord>)
        ensures
            ({
                let e = old(self).timeout_exit(*h, now, exit_price, arith@);
                &&& *final(self) == old(self).closed_by(e)
                &&& r == (if e is Some {
                    Some(old(self).record(*h, e->0))
                } else {
                    None
                })
            }),
    {
        if self.unwind_time.le(num(ZERO)) || arith.minus(now, h.entry_ts).lt(self.unwind_time) {
            return None;
        }
        let pnl = gain_of(self.trade_size, h.token_price, exit_price, arith);
        self.emit(*h, Outcome::Timeout, exit_price, pnl)
    }

    /// Enters when the strategy wants to and the gates let it. Both feeds come here: a
    /// token price crossing can complete the condition on a cached Binance move.
    fn try_enter<F: Fn(Op, Num, Num) -> Num>(&mut self, now: Num, arith: &Arith<F>)
        ensures
            *final(self) == old(self).entered(now, arith@),
    {
        match self.state {
            TradeState::Watching => {},
            _ => {
                return ;
            },
        }
        let wanted = match &self.kind {
            StrategyKind::Reversal(r) => r.evaluate(
                now,
                &self.saw_low_up,
                &self.saw_low_dn,
                &self.latest_poly,
                &self.delta_pct,
                &self.latest_binance,
                arith,
            ),
            StrategyKind::HighProb(hp) => hp.evaluate(
                now,
                &self.latest_poly,
                &self.delta_pct,
                &self.latest_binance,
                arith,
            ),
            StrategyKind::VShape(v) => v.evaluate(
                now,
                &self.v_up,
                &self.v_dn,
                &self.latest_poly,
                &self.latest_binance,
                arith,
            ),
        };
        let intent = match wanted {
            Some(i) => i,
            None => {
                return ;
            },
        };
        let block = check_gates(
            &intent,
            &self.spread,
            &self.latest_poly,
            &self.delta_pct,
            &self.gate_params,
            now,
            arith,
        );
        if block.is_some() {
            return ;
        }
        let token_price = intent.token_price();
        match &mut self.kind {
            StrategyKind::Reversal(r) => r.mark_fired(),
            StrategyKind::HighProb(hp) => hp.mark_fired(),
            StrategyKind::VShape(v) => v.mark_fired(),
        }
        self.state =
        TradeState::Holding(
            HoldingData {
                side: intent.side,
                entry_type: intent.entry_type,
                token_price,
                entry_ts: now,
                entry_price_ts: self.latest_poly.ts,
                binance_at_entry: intent.binance_price,
            },
        );
    }

    /// The token of the held side pays one: UP when Binance rose over the cycle, DOWN
    /// when it did not.
    pub open spec fn won(self, side: Side) -> bool {
        self.last_binance.gt(self.cycle_open_binance) == (side == Side::Up)
    }

    /// How the resolution at the end of the cycle settles a position.
    pub open spec fn resolution(self, calc: Calc) -> Option<Exit> {
        match self.state {
            TradeState::Holding(h) => {
                let price = if self.won(h.side) {
                    num(ONE)
                } else {
                    num(ZERO)
                };
                Some(
                    Exit {
                        outcome: if self.won(h.side) {
                            Outcome::Win
                        } else {
                            Outcome::Loss
                        },
                        price,
                        pnl: gain(self.trade_size, h.token_price, price, calc),
                    },
                )
            },
            _ => None,
        }
    }

    /// Settles an open position by the direction of Binance over the cycle.
    pub fn cycle_close<F: Fn(Op, Num, Num) -> Num>(&mut self, arith: &Arith<F>) -> (r: Option<
        TradeRecord,
    >)
        ensures
            *final(self) == old(self).closed_by(old(self).resolution(arith@)),
            r == old(self).record_of(old(self).resolution(arith@)),
    {
        let h = match self.state {
            TradeState::Holding(h) => h,
            _ => {
                return None;
            },
        };
        let price_moved_up = self.last_binance.gt(self.cycle_open_binance);
        let won = match h.side {
            Side::Up => price_moved_up,
            Side::Down => !price_moved_up,
        };
        let exit_price = if won {
            num(ONE)
        } else {
            num(ZERO)
        };
        let pnl = gain_of(self.trade_size, h.token_price, exit_price, arith);
        let outcome = if won {
            Outcome::Win
        } else {
            Outcome::Loss
        };
        self.emit(h, outcome, exit_price, pnl)
    }

    pub fn is_holding(&self) -> (r: bool)
        ensures
            r == (self.state is Holding),
    {
        matches!(self.state, TradeState::Holding(_))
    }

    fn emit(&mut self, h: HoldingData, outcome: Outcome, exit_price: Num, pnl: Num) -> (r: Option<
        TradeRecord,
    >)
        ensures
            *final(self) == (Machine { state: TradeState::Watching, ..*old(self) }),
            r == Some(old(self).record(h, (Exit { outcome, price: exit_price, pnl }))),
    {
        let rec = TradeRecord {
            slug: self.cycle_slug.clone(),
            cycle_start: self.cycle_start_ts,
            strategy: self.strategy_name,
            side: h.side,
            entry_ts: h.entry_ts,
            entry_price_ts: h.entry_price_ts,
            token_price: h.token_price,
            exit_price,
            outcome,
            pnl,
            exit_attempts: 0,
            exit_last_error: None,
            entry_signal_latency_ms: num(ZERO),
            entry_process_latency_ms: num(ZERO),
            exit_signal_latency_ms: num(ZERO),
            exit_process_latency_ms: num(ZERO),
        };
        self.state = TradeState::Watching;
        Some(rec)
    }
}

} // verus!

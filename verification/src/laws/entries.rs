//! When a position is opened: what the signals keep, what the strategies want of them, and
//! what stands in the way.

use vstd::prelude::*;

use crate::gates::{check_gates, GateBlock, GateParams};
use crate::laws::exact::{exact, fits, keeps_signs};
use crate::num::{num, Arith, Calc, Num, Op, INFINITY_BITS, ZERO};
use crate::signal::{
    DeltaPctSignal, LatestBinanceSignal, LatestPolySignal, SawLowSignal, Signal, SpreadSignal, VShapeSignal,
};
use crate::strategies::{HighProbStrategy, ReversalStrategy, VShapeStrategy};
use crate::types::{BinanceTick, CycleContext, EntryType, PolyTick, Side, TradeIntent};

verus! {

/// The move of Binance since the cycle opened, as a part of the opening price; nothing until both
/// prices are known.
pub open spec fn moved(d: DeltaPctSignal, calc: Calc) -> Num {
    if !d.price.le(num(ZERO)) && !d.open.le(num(ZERO)) {
        calc.over(calc.minus(d.price, d.open), d.open)
    } else {
        num(ZERO)
    }
}

/// The intent is to buy this side.
pub open spec fn buys(r: Option<TradeIntent>, side: Side) -> bool {
    r is Some && r->0.side == side
}

/// The intent tells the prices that it was made on.
pub open spec fn tells_prices(
    r: Option<TradeIntent>,
    entry_type: EntryType,
    poly: LatestPolySignal,
    binance: LatestBinanceSignal,
) -> bool {
    r is Some ==> {
        &&& r->0.entry_type == entry_type
        &&& r->0.up == poly.up
        &&& r->0.dn == poly.dn
        &&& r->0.binance_price == binance.price
    }
}

/// Prices that are turned round: what was UP is DOWN.
pub open spec fn mirrored(poly: LatestPolySignal) -> LatestPolySignal {
    LatestPolySignal { up: poly.dn, dn: poly.up, ..poly }
}

pub open spec fn other(side: Side) -> Side {
    match side {
        Side::Up => Side::Down,
        Side::Down => Side::Up,
    }
}

// ── Strategies ──────────────────────────────────────────────────────────────

/// A reversal buys a side exactly when that side dipped, stands above the level, and Binance has
/// moved its way: up for UP and down for DOWN. There must be time left, prices for both sides,
/// and no entry in this cycle before.
pub proof fn reversal_buys_a_recovered_side<F: Fn(Op, Num, Num) -> Num>(
    s: ReversalStrategy,
    now: Num,
    low_up: SawLowSignal,
    low_dn: SawLowSignal,
    poly: LatestPolySignal,
    d: DeltaPctSignal,
    binance: LatestBinanceSignal,
    arith: Arith<F>,
)
    ensures
        forall|r: Option<TradeIntent>| #[trigger]
            call_ensures(
                ReversalStrategy::evaluate::<F>,
                (&s, now, &low_up, &low_dn, &poly, &d, &binance, &arith),
                r,
            ) ==> {
                let open = !s.fired && !poly.up.le(num(ZERO)) && !poly.dn.le(num(ZERO))
                    && !arith@.minus(s.cycle_end_ts, now).lt(s.no_enter_when_time_left);
                &&& buys(r, Side::Up) <==> open && low_up.fired && s.reversal.lt(poly.up) && num(
                    ZERO,
                ).lt(moved(d, arith@))
                &&& buys(r, Side::Down) <==> open && low_dn.fired && s.reversal.lt(poly.dn)
                    && moved(d, arith@).lt(num(ZERO))
                &&& tells_prices(r, EntryType::Reversal, poly, binance)
            },
{
}

/// High_prob buys a side exactly when that side's token stands strictly inside the band and
/// Binance has moved its way: up for UP and down for DOWN. It must be inside the entry window,
/// with prices for both sides, and no entry in this cycle before.
pub proof fn high_prob_buys_inside_the_band<F: Fn(Op, Num, Num) -> Num>(
    s: HighProbStrategy,
    now: Num,
    poly: LatestPolySignal,
    d: DeltaPctSignal,
    binance: LatestBinanceSignal,
    arith: Arith<F>,
)
    ensures
        forall|r: Option<TradeIntent>| #[trigger]
            call_ensures(
                HighProbStrategy::evaluate::<F>,
                (&s, now, &poly, &d, &binance, &arith),
                r,
            ) ==> {
                let left = arith@.minus(s.cycle_end_ts, now);
                let open = !s.fired && !poly.up.le(num(ZERO)) && !poly.dn.le(num(ZERO))
                    && !s.enter_when_time_left.lt(left) && !left.lt(s.no_enter_when_time_left);
                &&& buys(r, Side::Up) <==> open && s.price_low.lt(poly.up) && poly.up.lt(
                    s.price_high,
                ) && num(ZERO).lt(moved(d, arith@))
                &&& buys(r, Side::Down) <==> open && s.price_low.lt(poly.dn) && poly.dn.lt(
                    s.price_high,
                ) && moved(d, arith@).lt(num(ZERO))
                &&& tells_prices(r, EntryType::HighProb, poly, binance)
            },
{
}

/// A reversal or high_prob intent goes with the move of Binance: UP is bought only above the
/// price at which the cycle opened, and DOWN only below it.
pub proof fn intent_goes_with_the_move<F: Fn(Op, Num, Num) -> Num>(
    rev: ReversalStrategy,
    hp: HighProbStrategy,
    now: Num,
    low_up: SawLowSignal,
    low_dn: SawLowSignal,
    poly: LatestPolySignal,
    d: DeltaPctSignal,
    binance: LatestBinanceSignal,
    arith: Arith<F>,
)
    requires
        keeps_signs(arith@),
        d.price.is_finite(),
        d.open.is_finite(),
    ensures
        forall|r: Option<TradeIntent>| #[trigger]
            call_ensures(
                ReversalStrategy::evaluate::<F>,
                (&rev, now, &low_up, &low_dn, &poly, &d, &binance, &arith),
                r,
            ) ==> {
                &&& buys(r, Side::Up) ==> d.open.lt(d.price)
                &&& buys(r, Side::Down) ==> d.price.lt(d.open)
            },
        forall|r: Option<TradeIntent>| #[trigger]
            call_ensures(
                HighProbStrategy::evaluate::<F>,
                (&hp, now, &poly, &d, &binance, &arith),
                r,
            ) ==> {
                &&& buys(r, Side::Up) ==> d.open.lt(d.price)
                &&& buys(r, Side::Down) ==> d.price.lt(d.open)
            },
{
    reversal_buys_a_recovered_side(rev, now, low_up, low_dn, poly, d, binance, arith);
    high_prob_buys_inside_the_band(hp, now, poly, d, binance, arith);
}

/// The two sides are alike: with UP and DOWN turned round and the move of Binance negated, a
/// reversal or high_prob strategy wants the other side, or again nothing.
pub proof fn sides_are_alike<F: Fn(Op, Num, Num) -> Num>(
    rev: ReversalStrategy,
    hp: HighProbStrategy,
    now: Num,
    low_up: SawLowSignal,
    low_dn: SawLowSignal,
    poly: LatestPolySignal,
    d: DeltaPctSignal,
    back: DeltaPctSignal,
    binance: LatestBinanceSignal,
    arith: Arith<F>,
)
    requires
        moved(back, arith@) == moved(d, arith@).negate(),
    ensures
        forall|r: Option<TradeIntent>, m: Option<TradeIntent>|
            #[trigger] call_ensures(
                ReversalStrategy::evaluate::<F>,
                (&rev, now, &low_up, &low_dn, &poly, &d, &binance, &arith),
                r,
            ) && #[trigger] call_ensures(
                ReversalStrategy::evaluate::<F>,
                (&rev, now, &low_dn, &low_up, &mirrored(poly), &back, &binance, &arith),
                m,
            ) ==> (r is Some <==> m is Some) && (r is Some ==> m->0.side == other(r->0.side)),
        forall|r: Option<TradeIntent>, m: Option<TradeIntent>|
            #[trigger] call_ensures(
                HighProbStrategy::evaluate::<F>,
                (&hp, now, &poly, &d, &binance, &arith),
                r,
            ) && #[trigger] call_ensures(
                HighProbStrategy::evaluate::<F>,
                (&hp, now, &mirrored(poly), &back, &binance, &arith),
                m,
            ) ==> (r is Some <==> m is Some) && (r is Some ==> m->0.side == other(r->0.side)),
{
}

/// A v_shape buys a side exactly when that side fell after a high and has recovered to the second
/// level, UP before DOWN, with time left, prices for both sides, and no entry in this cycle
/// before.
pub proof fn v_shape_buys_a_second_high<F: Fn(Op, Num, Num) -> Num>(
    s: VShapeStrategy,
    now: Num,
    v_up: VShapeSignal,
    v_dn: VShapeSignal,
    poly: LatestPolySignal,
    binance: LatestBinanceSignal,
    arith: Arith<F>,
)
    ensures
        forall|r: Option<TradeIntent>| #[trigger]
            call_ensures(
                VShapeStrategy::evaluate::<F>,
                (&s, now, &v_up, &v_dn, &poly, &binance, &arith),
                r,
            ) ==> {
                let open = !s.fired && !poly.up.le(num(ZERO)) && !poly.dn.le(num(ZERO))
                    && !arith@.minus(s.cycle_end_ts, now).lt(s.no_enter_when_time_left);
                let up = open && v_up.seen_low_after_high && s.v_high2.le(poly.up);
                let down = open && v_dn.seen_low_after_high && s.v_high2.le(poly.dn);
                &&& buys(r, Side::Up) <==> up
                &&& buys(r, Side::Down) <==> down && !up
                &&& tells_prices(r, EntryType::VShape, poly, binance)
            },
{
}

/// A strategy that has fired wants nothing, and a new cycle lets it want again, up to that
/// cycle's end. Its levels stay.
pub proof fn new_cycle_lets_fire_again(ctx: CycleContext)
    ensures
        forall|s: &mut ReversalStrategy| #[trigger]
            call_ensures(ReversalStrategy::reset, (s, &ctx), ()) ==> {
                &&& !final(s).fired
                &&& final(s).cycle_end_ts == ctx.end_ts
                &&& final(s).reversal == s.reversal
                &&& final(s).no_enter_when_time_left == s.no_enter_when_time_left
            },
        forall|s: &mut HighProbStrategy| #[trigger]
            call_ensures(HighProbStrategy::reset, (s, &ctx), ()) ==> {
                &&& !final(s).fired
                &&& final(s).cycle_end_ts == ctx.end_ts
                &&& final(s).price_low == s.price_low
                &&& final(s).price_high == s.price_high
                &&& final(s).enter_when_time_left == s.enter_when_time_left
                &&& final(s).no_enter_when_time_left == s.no_enter_when_time_left
            },
        forall|s: &mut VShapeStrategy| #[trigger]
            call_ensures(VShapeStrategy::reset, (s, &ctx), ()) ==> {
                &&& !final(s).fired
                &&& final(s).cycle_end_ts == ctx.end_ts
                &&& final(s).v_high2 == s.v_high2
                &&& final(s).no_enter_when_time_left == s.no_enter_when_time_left
            },
        forall|s: &mut ReversalStrategy| #[trigger]
            call_ensures(ReversalStrategy::mark_fired, (s,), ()) ==> final(s).fired && final(s).cycle_end_ts == s.cycle_end_ts && final(s).reversal == s.reversal,
        forall|s: &mut HighProbStrategy| #[trigger]
            call_ensures(HighProbStrategy::mark_fired, (s,), ()) ==> final(s).fired && final(s).cycle_end_ts == s.cycle_end_ts && final(s).price_low == s.price_low && final(s).price_high == s.price_high,
        forall|s: &mut VShapeStrategy| #[trigger]
            call_ensures(VShapeStrategy::mark_fired, (s,), ()) ==> final(s).fired && final(s).cycle_end_ts == s.cycle_end_ts && final(s).v_high2 == s.v_high2,
{
}

// ── Gates ───────────────────────────────────────────────────────────────────

/// An intent passes exactly when the two tokens together cost neither too much nor too little,
/// their prices are fresh, Binance has moved far enough either way, and the token that is bought
/// is not above the cap, nor, for a reversal, above the cap of reversals where there is one.
pub proof fn intent_passes_fair_fresh_and_cheap<F: Fn(Op, Num, Num) -> Num>(
    intent: TradeIntent,
    spread: SpreadSignal,
    poly: LatestPolySignal,
    d: DeltaPctSignal,
    params: GateParams,
    now: Num,
    arith: Arith<F>,
)
    ensures
        forall|r: Option<GateBlock>| #[trigger]
            call_ensures(
                check_gates::<F>,
                (&intent, &spread, &poly, &d, &params, now, &arith),
                r,
            ) ==> {
                let both = arith@.plus(spread.up, spread.dn);
                let age = if num(ZERO).lt(poly.ts) {
                    arith@.minus(now, poly.ts)
                } else {
                    num(INFINITY_BITS)
                };
                let least = match intent.entry_type {
                    EntryType::Reversal => params.delta_pct_rev,
                    EntryType::HighProb => params.delta_pct_hp,
                    EntryType::VShape => params.delta_pct_v,
                };
                let m = moved(d, arith@);
                let price = match intent.side {
                    Side::Up => intent.up,
                    Side::Down => intent.dn,
                };
                let dear = params.spread_premium_limit.lt(both);
                let cheap = both.lt(params.spread_discount_limit);
                let stale = params.max_price_age_secs.lt(age);
                let still = m.lt(least) && least.negate().lt(m);
                let capped = params.max_buy_price.lt(price);
                let late = intent.entry_type == EntryType::Reversal && num(ZERO).lt(
                    params.price_high_rev,
                ) && params.price_high_rev.lt(price);
                &&& r is None <==> !dear && !cheap && !stale && !still && !capped && !late
                &&& r == Some(GateBlock::SpreadPremium) <==> dear
                &&& r == Some(GateBlock::SpreadDiscount) <==> !dear && cheap
                &&& r == Some(GateBlock::PolyStale) <==> !dear && !cheap && stale
                &&& r == Some(GateBlock::MinDeltaPct) <==> !dear && !cheap && !stale && still
                &&& r == Some(GateBlock::MaxBuyPrice) <==> !dear && !cheap && !stale && !still
                    && capped
                &&& r == Some(GateBlock::PriceHighRev) ==> late
            },
{
}

/// Each refusal has a name of its own.
pub proof fn refusals_are_named(g: GateBlock)
    ensures
        forall|r: &'static str| #[trigger]
            call_ensures(GateBlock::as_str, (&g,), r) ==> r@ == match g {
                GateBlock::SpreadPremium => "spread_premium"@,
                GateBlock::SpreadDiscount => "spread_discount"@,
                GateBlock::PolyStale => "poly_stale"@,
                GateBlock::MinDeltaPct => "min_delta_pct"@,
                GateBlock::MaxBuyPrice => "max_buy_price"@,
                GateBlock::PriceHighRev => "price_high_rev"@,
            },
{
}

// ── Signals ─────────────────────────────────────────────────────────────────

/// The move of Binance: the latest price above nothing against the price at which the cycle
/// opened. A new cycle forgets the price.
pub proof fn move_is_since_the_opening<F: Fn(Op, Num, Num) -> Num>(
    d: DeltaPctSignal,
    ctx: CycleContext,
    tick: BinanceTick,
    token: PolyTick,
    arith: Arith<F>,
)
    ensures
        d.after_reset(ctx).open == ctx.open_binance,
        d.after_reset(ctx).price == num(ZERO),
        num(ZERO).lt(tick.price) ==> d.after_binance(tick).price == tick.price,
        !num(ZERO).lt(tick.price) ==> d.after_binance(tick) == d,
        d.after_binance(tick).open == d.open,
        d.after_poly(token, arith@) == d,
        forall|r: Num| #[trigger]
            call_ensures(DeltaPctSignal::value::<F>, (&d, &arith), r) ==> r == moved(d, arith@),
{
}

/// In the real numbers: the opening price and the move of it make the latest price.
pub proof fn move_leads_from_open_to_latest<F: Fn(Op, Num, Num) -> Num>(
    d: DeltaPctSignal,
    arith: Arith<F>,
    val: spec_fn(Num) -> real,
)
    requires
        exact(arith@, val),
        d.price.is_finite(),
        d.open.is_finite(),
        val(d.price) > 0real,
        val(d.open) > 0real,
        fits(val, val(d.price) - val(d.open)),
        fits(val, (val(d.price) - val(d.open)) / val(d.open)),
    ensures
        forall|r: Num| #[trigger]
            call_ensures(DeltaPctSignal::value::<F>, (&d, &arith), r) ==> val(d.open) + val(r)
                * val(d.open) == val(d.price),
{
    assert(num(ZERO).lt(d.price) <==> 0real < val(d.price));
    assert(num(ZERO).lt(d.open) <==> 0real < val(d.open));
    let x = val(d.price) - val(d.open);
    let y = val(d.open);
    assert(x / y * y == x) by (nonlinear_arith)
        requires
            y > 0real,
    ;
}

/// The new price when it is above nothing, else the known one.
pub open spec fn keeps_known(after: Num, new: Num, before: Num) -> bool {
    &&& num(ZERO).lt(new) ==> after == new
    &&& !num(ZERO).lt(new) ==> after == before
}

/// The latest prices: each is replaced by one above nothing and by no other, and the time never
/// falls. Neither a new cycle nor a Binance tick touches them.
pub proof fn latest_prices_are_kept(
    poly: LatestPolySignal,
    spread: SpreadSignal,
    binance: LatestBinanceSignal,
    ctx: CycleContext,
    t: PolyTick,
    b: BinanceTick,
    calc: Calc,
)
    ensures
        keeps_known(poly.after_poly(t, calc).up, t.up, poly.up),
        keeps_known(poly.after_poly(t, calc).dn, t.dn, poly.dn),
        keeps_known(poly.after_poly(t, calc).up_bid, t.up_bid, poly.up_bid),
        keeps_known(poly.after_poly(t, calc).up_ask, t.up_ask, poly.up_ask),
        poly.ts.lt(t.ts) ==> poly.after_poly(t, calc).ts == t.ts,
        !poly.ts.lt(t.ts) ==> poly.after_poly(t, calc).ts == poly.ts,
        poly.after_reset(ctx) == poly,
        poly.after_binance(b) == poly,
        keeps_known(spread.after_poly(t, calc).up, t.up, spread.up),
        keeps_known(spread.after_poly(t, calc).dn, t.dn, spread.dn),
        spread.after_reset(ctx) == spread,
        spread.after_binance(b) == spread,
        num(ZERO).lt(b.price) ==> binance.after_binance(b) == (LatestBinanceSignal {
            price: b.price,
            ts: b.ts,
        }),
        !num(ZERO).lt(b.price) ==> binance.after_binance(b) == binance,
        binance.after_reset(ctx) == binance,
        binance.after_poly(t, calc) == binance,
{
}

/// A DOWN token and an UP token make one dollar: the bid of one side and the ask of the other
/// add up to it. A side that was never quoted has neither.
pub proof fn bid_and_other_ask_make_a_dollar<F: Fn(Op, Num, Num) -> Num>(
    poly: LatestPolySignal,
    arith: Arith<F>,
    val: spec_fn(Num) -> real,
)
    requires
        exact(arith@, val),
        poly.up_bid.is_finite(),
        poly.up_ask.is_finite(),
        fits(val, 1real - val(poly.up_bid)),
        fits(val, 1real - val(poly.up_ask)),
    ensures
        forall|r: Option<Num>| #[trigger]
            call_ensures(LatestPolySignal::best_bid::<F>, (&poly, Side::Up, &arith), r) ==> r
                == if num(ZERO).lt(poly.up_bid) {
                Some(poly.up_bid)
            } else {
                None
            },
        forall|r: Option<Num>| #[trigger]
            call_ensures(LatestPolySignal::best_ask::<F>, (&poly, Side::Up, &arith), r) ==> r
                == if num(ZERO).lt(poly.up_ask) {
                Some(poly.up_ask)
            } else {
                None
            },
        forall|r: Option<Num>| #[trigger]
            call_ensures(LatestPolySignal::best_bid::<F>, (&poly, Side::Down, &arith), r) ==> {
                &&& r is Some <==> num(ZERO).lt(poly.up_ask)
                &&& r is Some ==> val(r->0) + val(poly.up_ask) == 1real
            },
        forall|r: Option<Num>| #[trigger]
            call_ensures(LatestPolySignal::best_ask::<F>, (&poly, Side::Down, &arith), r) ==> {
                &&& r is Some <==> num(ZERO).lt(poly.up_bid)
                &&& r is Some ==> val(r->0) + val(poly.up_bid) == 1real
            },
{
}

/// The age of the prices is the time since the last tick, and without end when there was none.
/// The spread is what one token of each side costs.
pub proof fn age_and_spread<F: Fn(Op, Num, Num) -> Num>(
    poly: LatestPolySignal,
    spread: SpreadSignal,
    now: Num,
    arith: Arith<F>,
    val: spec_fn(Num) -> real,
)
    requires
        exact(arith@, val),
        now.is_finite(),
        poly.ts.is_finite(),
        spread.up.is_finite(),
        spread.dn.is_finite(),
        fits(val, val(now) - val(poly.ts)),
        fits(val, val(spread.up) + val(spread.dn)),
    ensures
        forall|r: Num| #[trigger]
            call_ensures(LatestPolySignal::age::<F>, (&poly, now, &arith), r) ==> {
                &&& num(ZERO).lt(poly.ts) ==> val(poly.ts) + val(r) == val(now)
                &&& !num(ZERO).lt(poly.ts) ==> r == num(INFINITY_BITS)
            },
        forall|r: Num| #[trigger]
            call_ensures(SpreadSignal::value::<F>, (&spread, &arith), r) ==> val(r) == val(
                spread.up,
            ) + val(spread.dn),
{
}

/// The price of a side in a tick.
pub open spec fn side_price(t: PolyTick, side: Side) -> Num {
    match side {
        Side::Up => t.up,
        Side::Down => t.dn,
    }
}

/// A dip latches exactly when the side's price lies between nothing and the level while the time
/// that is left lies in the window, both ends included. Once latched it stays so for the cycle.
pub proof fn dip_latches_inside_the_window(
    s: SawLowSignal,
    ctx: CycleContext,
    t: PolyTick,
    b: BinanceTick,
    calc: Calc,
)
    ensures
        ({
            let price = side_price(t, s.side);
            let left = calc.minus(s.cycle_end_ts, t.ts);
            let a = s.after_poly(t, calc);
            &&& a.fired <==> s.fired || (num(ZERO).lt(price) && price.lt(s.low_threshold)
                && s.end_time_left.le(left) && left.le(s.start_time_left))
            &&& a.side == s.side
            &&& a.low_threshold == s.low_threshold
            &&& a.start_time_left == s.start_time_left
            &&& a.end_time_left == s.end_time_left
            &&& a.cycle_end_ts == s.cycle_end_ts
        }),
        !s.after_reset(ctx).fired,
        s.after_reset(ctx).cycle_end_ts == ctx.end_ts,
        s.after_reset(ctx).side == s.side,
        s.after_reset(ctx).low_threshold == s.low_threshold,
        s.after_reset(ctx).start_time_left == s.start_time_left,
        s.after_reset(ctx).end_time_left == s.end_time_left,
        s.after_binance(b) == s,
{
}

/// A high latches exactly when the side's price reaches the first level, and a dip exactly when
/// it falls to the second after a high, or on the same tick. Both stay so for the cycle.
pub proof fn v_latches_high_then_dip(
    s: VShapeSignal,
    ctx: CycleContext,
    t: PolyTick,
    b: BinanceTick,
    calc: Calc,
)
    ensures
        ({
            let price = side_price(t, s.side);
            let a = s.after_poly(t, calc);
            &&& a.seen_high <==> s.seen_high || (!price.le(num(ZERO)) && s.high1.le(price))
            &&& a.seen_low_after_high <==> s.seen_low_after_high || (a.seen_high && !price.le(
                num(ZERO),
            ) && price.le(s.low))
            &&& a.side == s.side
            &&& a.high1 == s.high1
            &&& a.low == s.low
        }),
        !s.after_reset(ctx).seen_high,
        !s.after_reset(ctx).seen_low_after_high,
        s.after_reset(ctx).side == s.side,
        s.after_reset(ctx).high1 == s.high1,
        s.after_reset(ctx).low == s.low,
        s.after_binance(b) == s,
{
}

/// What a tick does to a signal of one side, the tick turned round does to the same signal of
/// the other side.
pub proof fn latches_are_alike(
    low: SawLowSignal,
    v: VShapeSignal,
    t: PolyTick,
    calc: Calc,
)
    ensures
        ({
            let turned = PolyTick { up: t.dn, dn: t.up, ..t };
            let low2 = SawLowSignal { side: other(low.side), ..low };
            let v2 = VShapeSignal { side: other(v.side), ..v };
            &&& low.after_poly(t, calc).fired == low2.after_poly(turned, calc).fired
            &&& v.after_poly(t, calc).seen_high == v2.after_poly(turned, calc).seen_high
            &&& v.after_poly(t, calc).seen_low_after_high == v2.after_poly(
                turned,
                calc,
            ).seen_low_after_high
        }),
{
}

/// A new signal has seen nothing and holds the levels that it was made with.
pub proof fn new_signals_are_blank(a: Num, b: Num, c: Num)
    ensures
        forall|r: SawLowSignal| #[trigger]
            call_ensures(SawLowSignal::new_up, (a, b, c), r) ==> r.side == Side::Up
                && r.low_threshold == a && r.start_time_left == b && r.end_time_left == c
                && !r.fired,
        forall|r: SawLowSignal| #[trigger]
            call_ensures(SawLowSignal::new_dn, (a, b, c), r) ==> r.side == Side::Down
                && r.low_threshold == a && r.start_time_left == b && r.end_time_left == c
                && !r.fired,
        forall|r: VShapeSignal| #[trigger]
            call_ensures(VShapeSignal::new_up, (a, b), r) ==> r.side == Side::Up && r.high1 == a
                && r.low == b && !r.seen_high && !r.seen_low_after_high,
        forall|r: VShapeSignal| #[trigger]
            call_ensures(VShapeSignal::new_dn, (a, b), r) ==> r.side == Side::Down && r.high1 == a
                && r.low == b && !r.seen_high && !r.seen_low_after_high,
{
}

} // verus!

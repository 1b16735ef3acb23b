use trader::gates::{check_gates, GateBlock, GateParams};
use trader::num::{num, Arith, Num, Op};
use trader::signal::{
    DeltaPctSignal, LatestBinanceSignal, LatestPolySignal, SawLowSignal, Signal, SpreadSignal,
    VShapeSignal,
};
use trader::strategies::{HighProbStrategy, ReversalStrategy, VShapeStrategy};
use trader::types::{BinanceTick, CycleContext, EntryType, PolyTick, Side, TradeIntent};

fn n(x: f64) -> Num {
    num(x.to_bits())
}

fn f(x: Num) -> f64 {
    f64::from_bits(x.bits)
}

fn unit(op: Op, a: Num, b: Num) -> Num {
    match op {
        Op::Plus => n(f(a) + f(b)),
        Op::Minus => n(f(a) - f(b)),
        Op::Times => n(f(a) * f(b)),
        Op::Over => n(f(a) / f(b)),
        Op::Round => n(f(a).round()),
        Op::Floor => n(f(a).floor()),
        Op::FromSigned => n((a.bits as i64) as f64),
        Op::FromUnsigned => n(a.bits as f64),
        Op::ToSigned => num((f(a) as i64) as u64),
        Op::ToUnsigned => num(f(a) as u64),
    }
}

fn arith() -> Arith<impl Fn(Op, Num, Num) -> Num> {
    Arith::new(unit)
}

fn spot(ts: f64, price: f64) -> BinanceTick {
    BinanceTick { ts: n(ts), price: n(price) }
}

fn quote(ts: f64, up: f64, dn: f64) -> PolyTick {
    PolyTick { ts: n(ts), up: n(up), dn: n(dn), up_bid: n(0.0), up_ask: n(0.0) }
}

fn make_ctx(end_ts: f64) -> CycleContext {
    CycleContext { start_ts: n(end_ts - 300.0), end_ts: n(end_ts), open_binance: n(50000.0) }
}

#[test]
fn reversal_fires_down() {
    let end_ts = 1300.0;
    let open = 50000.0;
    let ctx = make_ctx(end_ts);
    let mut sl_up = SawLowSignal::new_up(n(0.30), n(120.0), n(10.0));
    let mut sl_dn = SawLowSignal::new_dn(n(0.30), n(120.0), n(10.0));
    let mut lp = LatestPolySignal::new();
    let mut dp = DeltaPctSignal::new();
    let mut lb = LatestBinanceSignal::new();
    sl_up.reset(&ctx);
    sl_dn.reset(&ctx);
    dp.reset(&ctx);

    sl_dn.on_poly(quote(1180.0, 0.80, 0.20), &arith());
    lp.on_poly(quote(1250.0, 0.30, 0.70), &arith());
    dp.on_binance(spot(1250.0, open - 10.0));
    lb.on_binance(spot(1250.0, open - 10.0));

    let mut strat = ReversalStrategy::new(n(0.60), n(10.0));
    strat.reset(&ctx);
    let intent = strat.evaluate(n(1260.0), &sl_up, &sl_dn, &lp, &dp, &lb, &arith());
    assert!(intent.is_some());
    let i = intent.unwrap();
    assert_eq!(i.side, Side::Down);
    assert_eq!(i.entry_type, EntryType::Reversal);
}

#[test]
fn reversal_no_fire_without_saw_low() {
    let end_ts = 1300.0;
    let ctx = make_ctx(end_ts);
    let sl_up = SawLowSignal::new_up(n(0.30), n(120.0), n(10.0));
    let sl_dn = SawLowSignal::new_dn(n(0.30), n(120.0), n(10.0));
    let mut lp = LatestPolySignal::new();
    let mut dp = DeltaPctSignal::new();
    let mut lb = LatestBinanceSignal::new();
    dp.reset(&ctx);
    lp.on_poly(quote(1250.0, 0.30, 0.70), &arith());
    dp.on_binance(spot(1250.0, 49_990.0));
    lb.on_binance(spot(1250.0, 49_990.0));

    let mut strat = ReversalStrategy::new(n(0.60), n(10.0));
    strat.reset(&ctx);
    assert!(strat.evaluate(n(1260.0), &sl_up, &sl_dn, &lp, &dp, &lb, &arith()).is_none());
}

#[test]
fn high_prob_fires_in_band() {
    let end_ts = 1300.0;
    let ctx = make_ctx(end_ts);
    let mut lp = LatestPolySignal::new();
    let mut dp = DeltaPctSignal::new();
    let mut lb = LatestBinanceSignal::new();
    dp.reset(&ctx);

    lp.on_poly(quote(1270.0, 0.86, 0.14), &arith());
    dp.on_binance(spot(1270.0, 50_010.0));
    lb.on_binance(spot(1270.0, 50_010.0));

    let mut strat = HighProbStrategy::new(n(0.80), n(0.93), n(20.0), n(10.0));
    strat.reset(&ctx);
    let intent = strat.evaluate(n(1282.0), &lp, &dp, &lb, &arith());
    assert!(intent.is_some());
    assert_eq!(intent.unwrap().side, Side::Up);
}

#[test]
fn high_prob_no_fire_outside_window() {
    let end_ts = 1300.0;
    let ctx = make_ctx(end_ts);
    let mut lp = LatestPolySignal::new();
    let mut dp = DeltaPctSignal::new();
    let mut lb = LatestBinanceSignal::new();
    dp.reset(&ctx);

    lp.on_poly(quote(1200.0, 0.86, 0.14), &arith());
    dp.on_binance(spot(1200.0, 50_010.0));
    lb.on_binance(spot(1200.0, 50_010.0));

    let mut strat = HighProbStrategy::new(n(0.80), n(0.93), n(20.0), n(10.0));
    strat.reset(&ctx);
    assert!(strat.evaluate(n(1250.0), &lp, &dp, &lb, &arith()).is_none());
}

fn v_setup(current_up: f64) -> (VShapeSignal, VShapeSignal, LatestPolySignal, CycleContext) {
    let ctx = make_ctx(1300.0);
    let mut v_up = VShapeSignal::new_up(n(0.7), n(0.3));
    let mut v_dn = VShapeSignal::new_dn(n(0.7), n(0.3));
    v_up.reset(&ctx);
    v_dn.reset(&ctx);
    let mut lp = LatestPolySignal::new();
    for (ts, up) in [(1010.0, 0.75), (1050.0, 0.25), (1100.0, current_up)] {
        let t = quote(ts, up, 1.0 - up);
        v_up.on_poly(t, &arith());
        v_dn.on_poly(t, &arith());
        lp.on_poly(t, &arith());
    }
    (v_up, v_dn, lp, ctx)
}

#[test]
fn v_shape_fires_up_after_full_v_without_any_binance_tick() {
    let (v_up, v_dn, lp, ctx) = v_setup(0.72);
    let lb = LatestBinanceSignal::new();
    let mut strat = VShapeStrategy::new(n(0.7), n(10.0));
    strat.reset(&ctx);
    let intent = strat.evaluate(n(1110.0), &v_up, &v_dn, &lp, &lb, &arith());
    let i = intent.expect("full V + recovery >= high2 must fire");
    assert_eq!(i.side, Side::Up);
    assert_eq!(i.entry_type, EntryType::VShape);
    assert!((f(i.token_price()) - 0.72).abs() < 1e-9);
}

#[test]
fn v_shape_no_fire_below_high2_or_after_fired_or_in_no_enter_window() {
    let (v_up, v_dn, lp, ctx) = v_setup(0.65);
    let lb = LatestBinanceSignal::new();
    let mut strat = VShapeStrategy::new(n(0.7), n(10.0));
    strat.reset(&ctx);
    assert!(strat.evaluate(n(1110.0), &v_up, &v_dn, &lp, &lb, &arith()).is_none());

    let (v_up, v_dn, lp, ctx) = v_setup(0.72);
    let mut strat = VShapeStrategy::new(n(0.7), n(10.0));
    strat.reset(&ctx);
    strat.mark_fired();
    assert!(
        strat.evaluate(n(1110.0), &v_up, &v_dn, &lp, &lb, &arith()).is_none(),
        "fired latch must suppress re-entry within the cycle"
    );

    let mut strat = VShapeStrategy::new(n(0.7), n(10.0));
    strat.reset(&ctx);
    assert!(
        strat.evaluate(n(1295.0), &v_up, &v_dn, &lp, &lb, &arith()).is_none(),
        "time_left=5 < no_enter_when_time_left=10 must block entry"
    );
}

#[test]
fn v_shape_no_fire_without_prefix() {
    let ctx = make_ctx(1300.0);
    let mut v_up = VShapeSignal::new_up(n(0.7), n(0.3));
    let mut v_dn = VShapeSignal::new_dn(n(0.7), n(0.3));
    v_up.reset(&ctx);
    v_dn.reset(&ctx);
    let mut lp = LatestPolySignal::new();
    let t = quote(1100.0, 0.75, 0.25);
    v_up.on_poly(t, &arith());
    v_dn.on_poly(t, &arith());
    lp.on_poly(t, &arith());
    let lb = LatestBinanceSignal::new();
    let mut strat = VShapeStrategy::new(n(0.7), n(10.0));
    strat.reset(&ctx);
    assert!(strat.evaluate(n(1110.0), &v_up, &v_dn, &lp, &lb, &arith()).is_none());
}

fn default_params() -> GateParams {
    GateParams {
        spread_premium_limit: n(1.05),
        spread_discount_limit: n(0.95),
        max_price_age_secs: n(2.0),
        delta_pct_rev: n(0.0008),
        delta_pct_hp: n(0.0004),
        delta_pct_v: n(0.0),
        max_buy_price: n(0.95),
        price_high_rev: n(0.90),
    }
}

fn intent(side: Side, token: f64) -> TradeIntent {
    TradeIntent {
        side,
        entry_type: EntryType::Reversal,
        up: n(if side == Side::Up { token } else { 1.0 - token }),
        dn: n(if side == Side::Down { token } else { 1.0 - token }),
        binance_price: n(50000.0),
    }
}

fn baseline_signals(
    open: f64,
    now_price: f64,
    poly_ts: f64,
) -> (SpreadSignal, LatestPolySignal, DeltaPctSignal) {
    let ctx = CycleContext { start_ts: n(0.0), end_ts: n(300.0), open_binance: n(open) };
    let mut spread = SpreadSignal::new();
    let mut lp = LatestPolySignal::new();
    let mut dp = DeltaPctSignal::new();
    dp.reset(&ctx);
    let tick = quote(poly_ts, 0.70, 0.30);
    spread.on_poly(tick, &arith());
    lp.on_poly(tick, &arith());
    dp.on_binance(spot(poly_ts, now_price));
    (spread, lp, dp)
}

fn gate(price: f64, now_price: f64, now: f64) -> Option<GateBlock> {
    let (spread, lp, dp) = baseline_signals(50000.0, now_price, 100.0);
    check_gates(&intent(Side::Up, price), &spread, &lp, &dp, &default_params(), n(now), &arith())
}

#[test]
fn passes_clean_intent() {
    assert!(gate(0.75, 50100.0, 100.5).is_none());
}

#[test]
fn blocks_stale_poly() {
    assert_eq!(gate(0.75, 50100.0, 103.0), Some(GateBlock::PolyStale));
}

#[test]
fn blocks_max_buy_price() {
    assert_eq!(gate(0.96, 50100.0, 100.5), Some(GateBlock::MaxBuyPrice));
}

#[test]
fn blocks_price_high_rev() {
    assert_eq!(gate(0.91, 50100.0, 100.5), Some(GateBlock::PriceHighRev));
}

#[test]
fn blocks_low_delta_pct() {
    assert_eq!(gate(0.75, 50005.0, 100.5), Some(GateBlock::MinDeltaPct));
}

#[test]
fn blocks_odd_spreads() {
    let (_, lp, dp) = baseline_signals(50000.0, 50100.0, 100.0);
    let mut wide = SpreadSignal::new();
    wide.on_poly(quote(100.0, 0.80, 0.30), &arith());
    let i = intent(Side::Up, 0.75);
    assert_eq!(
        check_gates(&i, &wide, &lp, &dp, &default_params(), n(100.5), &arith()),
        Some(GateBlock::SpreadPremium)
    );
    let mut narrow = SpreadSignal::new();
    narrow.on_poly(quote(100.0, 0.60, 0.30), &arith());
    assert_eq!(
        check_gates(&i, &narrow, &lp, &dp, &default_params(), n(100.5), &arith()),
        Some(GateBlock::SpreadDiscount)
    );
    assert_eq!(GateBlock::SpreadDiscount.as_str(), "spread_discount");
}

use trader::num::{num, Arith, Num, Op};
use trader::signal::{
    DeltaPctSignal, LatestBinanceSignal, LatestPolySignal, SawLowSignal, Signal, SpreadSignal,
    TickBus, VShapeSignal,
};
use trader::types::{BinanceTick, CycleContext, PolyTick, Side};

fn n(x: f64) -> Num {
    num(x.to_bits())
}

fn f(x: Num) -> f64 {
    f64::from_bits(x.bits)
}

fn unit(op: Op, a: Num, b: Num) -> Num {
    match op {
        Op::Plus => n(f(a) + f(b)),
        Op::Minus => n(f(a) - f(b)),
        Op::Times => n(f(a) * f(b)),
        Op::Over => n(f(a) / f(b)),
        Op::Round => n(f(a).round()),
        Op::Floor => n(f(a).floor()),
        Op::FromSigned => n((a.bits as i64) as f64),
        Op::FromUnsigned => n(a.bits as f64),
        Op::ToSigned => num((f(a) as i64) as u64),
        Op::ToUnsigned => num(f(a) as u64),
    }
}

fn arith() -> Arith<impl Fn(Op, Num, Num) -> Num> {
    Arith::new(unit)
}

fn cycle(start_ts: f64, open: f64) -> CycleContext {
    CycleContext { start_ts: n(start_ts), end_ts: n(start_ts + 300.0), open_binance: n(open) }
}

fn spot(ts: f64, price: f64) -> BinanceTick {
    BinanceTick { ts: n(ts), price: n(price) }
}

fn quote(ts: f64, up: f64, dn: f64, up_bid: f64, up_ask: f64) -> PolyTick {
    PolyTick { ts: n(ts), up: n(up), dn: n(dn), up_bid: n(up_bid), up_ask: n(up_ask) }
}

fn poly(s: &mut impl Signal, ts: f64, up: f64, dn: f64) {
    s.on_poly(quote(ts, up, dn, 0.0, 0.0), &arith());
}

#[test]
fn computes_delta_pct() {
    let mut s = DeltaPctSignal::new();
    s.reset(&cycle(0.0, 50_000.0));
    s.on_binance(spot(1.0, 50_100.0));
    let expected = 100.0 / 50_000.0;
    assert!((f(s.value(&arith())) - expected).abs() < 1e-12);
}

#[test]
fn zero_before_ready() {
    let s = DeltaPctSignal::new();
    assert_eq!(f(s.value(&arith())), 0.0);
}

#[test]
fn reset_clears_stale_price_from_previous_cycle() {
    let mut s = DeltaPctSignal::new();
    s.reset(&cycle(0.0, 50_000.0));
    s.on_binance(spot(1.0, 49_000.0));
    assert!(f(s.value(&arith())) < 0.0, "sanity: price is set before reset");

    s.reset(&cycle(0.0, 60_000.0));
    assert_eq!(f(s.value(&arith())), 0.0, "price must be cleared on reset, not carried over");
}

#[test]
fn tracks_latest_price() {
    let mut s = LatestBinanceSignal::new();
    s.on_binance(spot(100.0, 50_000.0));
    s.on_binance(spot(101.0, 50_100.0));
    assert!((f(s.value()) - 50_100.0).abs() < 1e-6);
}

#[test]
fn ignores_zero_price() {
    let mut s = LatestBinanceSignal::new();
    s.on_binance(spot(100.0, 50_000.0));
    s.on_binance(spot(101.0, 0.0));
    assert!((f(s.value()) - 50_000.0).abs() < 1e-6);
}

#[test]
fn latest_poly_tracks_price() {
    let mut s = LatestPolySignal::new();
    poly(&mut s, 100.0, 0.85, 0.15);
    assert!((f(s.up()) - 0.85).abs() < 1e-9);
    assert!((f(s.dn()) - 0.15).abs() < 1e-9);
    assert!((f(s.age(n(102.0), &arith())) - 2.0).abs() < 1e-6);
}

#[test]
fn best_bid_none_before_any_tick() {
    let s = LatestPolySignal::new();
    assert_eq!(s.best_bid(Side::Up, &arith()), None);
    assert_eq!(s.best_bid(Side::Down, &arith()), None);
}

fn quoted() -> LatestPolySignal {
    let mut s = LatestPolySignal::new();
    s.on_poly(quote(100.0, 0.70, 0.30, 0.68, 0.72), &arith());
    s
}

#[test]
fn best_bid_up_reads_up_bid_directly() {
    assert!((f(quoted().best_bid(Side::Up, &arith()).unwrap()) - 0.68).abs() < 1e-9);
}

#[test]
fn best_bid_down_derives_from_up_ask() {
    assert!((f(quoted().best_bid(Side::Down, &arith()).unwrap()) - 0.28).abs() < 1e-9);
}

#[test]
fn best_bid_none_when_bid_ask_never_observed() {
    let mut s = LatestPolySignal::new();
    poly(&mut s, 100.0, 0.70, 0.30);
    assert_eq!(s.best_bid(Side::Up, &arith()), None);
    assert_eq!(s.best_bid(Side::Down, &arith()), None);
}

#[test]
fn best_bid_sticky_across_a_tick_that_only_updates_mid() {
    let mut s = quoted();
    poly(&mut s, 101.0, 0.71, 0.29);
    assert!((f(s.best_bid(Side::Up, &arith()).unwrap()) - 0.68).abs() < 1e-9);
    assert!((f(s.best_bid(Side::Down, &arith()).unwrap()) - 0.28).abs() < 1e-9);
}

#[test]
fn best_ask_none_before_any_tick() {
    let s = LatestPolySignal::new();
    assert_eq!(s.best_ask(Side::Up, &arith()), None);
    assert_eq!(s.best_ask(Side::Down, &arith()), None);
}

#[test]
fn best_ask_up_reads_up_ask_directly() {
    assert!((f(quoted().best_ask(Side::Up, &arith()).unwrap()) - 0.72).abs() < 1e-9);
}

#[test]
fn best_ask_down_derives_from_up_bid() {
    assert!((f(quoted().best_ask(Side::Down, &arith()).unwrap()) - 0.32).abs() < 1e-9);
}

#[test]
fn best_ask_none_when_bid_ask_never_observed() {
    let mut s = LatestPolySignal::new();
    poly(&mut s, 100.0, 0.70, 0.30);
    assert_eq!(s.best_ask(Side::Up, &arith()), None);
    assert_eq!(s.best_ask(Side::Down, &arith()), None);
}

#[test]
fn spread_signal() {
    let mut s = SpreadSignal::new();
    poly(&mut s, 100.0, 0.85, 0.16);
    assert!((f(s.value(&arith())) - 1.01).abs() < 1e-9);
}

#[test]
fn a_price_never_seen_is_infinitely_old() {
    let s = LatestPolySignal::new();
    assert_eq!(f(s.age(n(102.0), &arith())), f64::INFINITY);
}

fn window() -> SawLowSignal {
    let mut s = SawLowSignal::new_up(n(0.30), n(120.0), n(10.0));
    s.reset(&cycle(1000.0, 50000.0));
    s
}

#[test]
fn latches_on_dip_inside_window() {
    let mut s = window();
    poly(&mut s, 1190.0, 0.25, 0.75);
    assert!(s.saw_low());
}

#[test]
fn no_latch_before_window_opens() {
    let mut s = window();
    poly(&mut s, 1050.0, 0.25, 0.75);
    assert!(!s.saw_low());
}

#[test]
fn no_latch_after_window_closes() {
    let mut s = window();
    poly(&mut s, 1295.0, 0.25, 0.75);
    assert!(!s.saw_low());
}

#[test]
fn no_latch_above_threshold() {
    let mut s = window();
    poly(&mut s, 1190.0, 0.35, 0.65);
    assert!(!s.saw_low());
}

#[test]
fn reset_clears_latch() {
    let mut s = window();
    poly(&mut s, 1190.0, 0.25, 0.75);
    assert!(s.saw_low());
    s.reset(&cycle(1300.0, 50000.0));
    assert!(!s.saw_low());
}

fn v_tick(s: &mut VShapeSignal, ts: f64, up: f64) {
    poly(s, ts, up, 1.0 - up);
}

fn v_up() -> VShapeSignal {
    let mut s = VShapeSignal::new_up(n(0.7), n(0.3));
    s.reset(&cycle(1000.0, 50_000.0));
    s
}

#[test]
fn low_before_high_does_not_count() {
    let mut s = v_up();
    v_tick(&mut s, 1010.0, 0.25);
    assert!(!s.dipped_after_high());
    v_tick(&mut s, 1020.0, 0.75);
    assert!(
        !s.dipped_after_high(),
        "recovery without a post-high dip must not complete the prefix"
    );
    v_tick(&mut s, 1030.0, 0.25);
    assert!(s.dipped_after_high());
}

#[test]
fn full_sequence_latches_and_persists() {
    let mut s = v_up();
    v_tick(&mut s, 1010.0, 0.72);
    v_tick(&mut s, 1020.0, 0.28);
    assert!(s.dipped_after_high());
    v_tick(&mut s, 1030.0, 0.55);
    assert!(s.dipped_after_high());
}

#[test]
fn reset_clears_both_stages() {
    let mut s = v_up();
    v_tick(&mut s, 1010.0, 0.72);
    v_tick(&mut s, 1020.0, 0.28);
    assert!(s.dipped_after_high());
    s.reset(&cycle(1000.0, 50_000.0));
    assert!(!s.dipped_after_high());
    v_tick(&mut s, 1310.0, 0.25);
    assert!(!s.dipped_after_high());
}

#[test]
fn dn_side_reads_dn_price() {
    let mut s = VShapeSignal::new_dn(n(0.7), n(0.3));
    s.reset(&cycle(1000.0, 50_000.0));
    v_tick(&mut s, 1010.0, 0.25);
    v_tick(&mut s, 1020.0, 0.75);
    assert!(s.dipped_after_high());
}

#[test]
fn nonpositive_price_ignored() {
    let mut s = v_up();
    v_tick(&mut s, 1010.0, 0.72);
    poly(&mut s, 1020.0, 0.0, 1.0);
    assert!(!s.dipped_after_high());
}

#[test]
fn names_tell_the_sides_apart() {
    assert_eq!(VShapeSignal::new_up(n(0.7), n(0.3)).name(), "v_shape_up");
    assert_eq!(VShapeSignal::new_dn(n(0.7), n(0.3)).name(), "v_shape_dn");
    assert_eq!(DeltaPctSignal::new().name(), "delta_pct");
    assert_eq!(SpreadSignal::new().name(), "spread");
}

#[test]
fn a_bus_hands_ticks_to_the_subscribers_of_their_feed() {
    let mut bus = TickBus::new();
    bus.subscribe_binance(LatestBinanceSignal::new());
    bus.subscribe_binance(LatestBinanceSignal::new());
    bus.publish_binance(spot(1.0, 50_000.0));
    assert!(bus.binance.iter().all(|s| f(s.value()) == 50_000.0));

    let mut bus = TickBus::default();
    bus.subscribe_poly(SpreadSignal::new());
    bus.publish_poly(quote(1.0, 0.6, 0.5, 0.0, 0.0), &arith());
    assert_eq!(f(bus.poly[0].value(&arith())), 0.6 + 0.5);
}

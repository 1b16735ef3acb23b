use std::sync::atomic::{AtomicUsize, Ordering};
use std::sync::Arc;

use trader::asset_map::AssetMap;
use trader::indicator_store::{IndicatorSnapshot, IndicatorStore};
use trader::num::{num, Arith, Layout, Num, Op, Writer};
use trader::redemption::{classify, RedeemablePosition, RedemptionTracker};
use trader::unwind::{TradeNotice, TradeStatus, UnwindWatcher};

fn n(x: f64) -> Num {
    num(x.to_bits())
}

fn f(x: Num) -> f64 {
    f64::from_bits(x.bits)
}

fn unit(op: Op, a: Num, b: Num) -> Num {
    match op {
        Op::Plus => n(f(a) + f(b)),
        Op::Minus => n(f(a) - f(b)),
        Op::Times => n(f(a) * f(b)),
        Op::Over => n(f(a) / f(b)),
        Op::Round => n(f(a).round()),
        Op::Floor => n(f(a).floor()),
        Op::FromSigned => n((a.bits as i64) as f64),
        Op::FromUnsigned => n(a.bits as f64),
        Op::ToSigned => num((f(a) as i64) as u64),
        Op::ToUnsigned => num(f(a) as u64),
    }
}

fn arith() -> Arith<impl Fn(Op, Num, Num) -> Num> {
    Arith::new(unit)
}

fn written(x: Num, layout: Layout) -> String {
    match layout {
        Layout::Plain => format!("{}", f(x)),
        Layout::Fixed(d) => format!("{:.*}", d as usize, f(x)),
        Layout::Signed(d) => format!("{:+.*}", d as usize, f(x)),
    }
}

fn writer() -> Writer<impl Fn(Num, Layout) -> String> {
    Writer::new(written)
}

fn snapshot() -> IndicatorSnapshot {
    let mut vals = AssetMap::new();
    vals.insert("vol_har".to_string(), n(0.000812));
    vals.insert("p_up".to_string(), n(0.6113));
    vals.insert("snr".to_string(), n(0.4479));
    IndicatorSnapshot {
        ts: n(1784812345.201),
        asset: "BTC".to_string(),
        market: "5m".to_string(),
        slot: 1784812200,
        vals,
    }
}

#[test]
fn store_returns_fresh_and_hides_stale() {
    let mut store = IndicatorStore::default();
    store.update(snapshot());
    let now_fresh = 1_784_812_345.201 + 2.0;
    assert!(store.fresh("BTC", n(now_fresh), n(5.0), &arith()).is_some());
    assert!(store.fresh("BTC", n(now_fresh + 10.0), n(5.0), &arith()).is_none(), "stale");
    assert!(store.fresh("ETH", n(now_fresh), n(5.0), &arith()).is_none(), "unknown asset");
}

#[test]
fn newer_snapshot_replaces_older() {
    let mut store = IndicatorStore::default();
    store.update(snapshot());
    let mut a = snapshot();
    a.ts = n(f(a.ts) + 1.0);
    a.vals.insert("p_up".into(), n(0.7));
    store.update(a);
    let got = store.fresh("BTC", n(1_784_812_347.0), n(5.0), &arith()).expect("fresh");
    assert!((f(*got.vals.get("p_up").unwrap()) - 0.7).abs() < 1e-12);
    assert!(store.raw("BTC").is_some());
    assert!(store.raw("ETH").is_none());
}

#[test]
fn render_is_sorted_and_stable() {
    assert_eq!(snapshot().render(&writer()), "p_up=0.6113 snr=0.4479 vol_har=0.0008");
}

#[test]
fn nothing_to_show_is_shown_as_warming() {
    let mut snap = snapshot();
    snap.vals = AssetMap::new();
    assert_eq!(snap.render(&writer()), "warming");
}

fn pos(condition_id: &str, current_value: f64, size: f64) -> RedeemablePosition {
    RedeemablePosition {
        proxy_wallet: "0xabc".to_string(),
        asset: "1234".to_string(),
        condition_id: condition_id.to_string(),
        size: n(size),
        current_value: n(current_value),
        redeemable: true,
        title: "test market".to_string(),
        outcome: "Yes".to_string(),
        outcome_index: 0,
    }
}

/// One pass, with a redemption that answers `succeed`; counts the calls.
fn check_and_redeem(
    tracker: &mut RedemptionTracker,
    positions: &Vec<RedeemablePosition>,
    calls: &mut usize,
    succeed: bool,
) -> usize {
    let outcomes: Vec<bool> = positions.iter().map(|_| succeed).collect();
    *calls += positions.iter().filter(|p| tracker.wants(p)).count();
    tracker.check_and_redeem(positions, &outcomes)
}

#[test]
fn classify_splits_winning_and_losing() {
    let positions = vec![pos("a", 5.0, 1.0), pos("b", 0.0, 1.0), pos("c", 0.005, 1.0)];
    let (winning, losing) = classify(&positions);
    assert_eq!(winning.len(), 1);
    assert_eq!(losing.len(), 2);
    assert_eq!(winning[0].condition_id, "a");
}

#[test]
fn losing_positions_marked_attempted_without_redeem_call() {
    let mut tracker = RedemptionTracker::new();
    let mut calls = 0;
    let positions = vec![pos("dust1", 0.0, 1.0)];
    let redeemed = check_and_redeem(&mut tracker, &positions, &mut calls, true);

    assert_eq!(redeemed, 0);
    assert_eq!(calls, 0);
    assert_eq!(tracker.attempted_count(), 1);
}

#[test]
fn winning_position_redeemed_once() {
    let mut tracker = RedemptionTracker::new();
    let mut calls = 0;
    let positions = vec![pos("win1", 5.0, 1.0)];
    let redeemed = check_and_redeem(&mut tracker, &positions, &mut calls, true);
    assert_eq!(redeemed, 1);
    assert_eq!(calls, 1);

    let redeemed2 = check_and_redeem(&mut tracker, &positions, &mut calls, true);
    assert_eq!(redeemed2, 0);
    assert_eq!(calls, 1);
}

#[test]
fn failed_redeem_is_not_marked_attempted() {
    let mut tracker = RedemptionTracker::new();
    let mut calls = 0;
    let positions = vec![pos("win1", 5.0, 1.0)];
    let redeemed = check_and_redeem(&mut tracker, &positions, &mut calls, false);
    assert_eq!(redeemed, 0);
    assert_eq!(tracker.attempted_count(), 0);

    check_and_redeem(&mut tracker, &positions, &mut calls, false);
    assert_eq!(calls, 2);
}

#[test]
fn steps_of_a_pass_do_what_the_pass_does() {
    let positions = vec![pos("win1", 5.0, 1.0), pos("dust", 0.0, 1.0), pos("win1", 2.0, 1.0)];
    let mut tracker = RedemptionTracker::new();
    tracker.write_off(&positions);
    let mut calls = 0;
    for p in &positions {
        if tracker.wants(p) {
            calls += 1;
            tracker.settle(p, true);
        }
    }
    assert_eq!(calls, 1);
    assert_eq!(tracker.attempted_count(), 2);
    assert!(positions[0].is_held());
    assert!(!pos("x", 1.0, 0.0).is_held());
}

fn make_msg(order_id: Option<&str>, status: TradeStatus) -> TradeNotice {
    TradeNotice { status, taker_order_id: order_id.map(|s| s.to_string()) }
}

type Callback = Box<dyn Fn(&TradeNotice)>;

fn counting() -> (UnwindWatcher<Callback>, Arc<AtomicUsize>) {
    let mut w: UnwindWatcher<Callback> = UnwindWatcher::new();
    let count = Arc::new(AtomicUsize::new(0));
    let count2 = Arc::clone(&count);
    w.watch(
        "order-1".to_string(),
        Box::new(move |_msg| {
            count2.fetch_add(1, Ordering::SeqCst);
        }),
    );
    (w, count)
}

fn dispatch(w: &UnwindWatcher<Callback>, msg: &TradeNotice) {
    if let Some(callback) = w.dispatch(msg) {
        callback(msg);
    }
}

#[test]
fn fires_callback_on_matched_fill() {
    let (w, count) = counting();
    dispatch(&w, &make_msg(Some("order-1"), TradeStatus::Matched));
    assert_eq!(count.load(Ordering::SeqCst), 1);
}

#[test]
fn fires_callback_on_confirmed_fill() {
    let (w, count) = counting();
    dispatch(&w, &make_msg(Some("order-1"), TradeStatus::Confirmed));
    assert_eq!(count.load(Ordering::SeqCst), 1);
}

#[test]
fn ignores_non_fill_statuses() {
    let (w, count) = counting();
    dispatch(&w, &make_msg(Some("order-1"), TradeStatus::Retrying));
    dispatch(&w, &make_msg(Some("order-1"), TradeStatus::Failed));
    dispatch(&w, &make_msg(Some("order-1"), TradeStatus::Mined));
    assert_eq!(count.load(Ordering::SeqCst), 0);
}

#[test]
fn ignores_fills_for_unwatched_orders() {
    let (w, count) = counting();
    dispatch(&w, &make_msg(Some("order-2"), TradeStatus::Matched));
    assert_eq!(count.load(Ordering::SeqCst), 0);
}

#[test]
fn ignores_messages_without_taker_order_id() {
    let (w, count) = counting();
    dispatch(&w, &make_msg(None, TradeStatus::Matched));
    assert_eq!(count.load(Ordering::SeqCst), 0);
}

#[test]
fn unwatch_stops_future_dispatch() {
    let (mut w, count) = counting();
    assert_eq!(w.watched_count(), 1);

    w.unwatch("order-1");
    assert_eq!(w.watched_count(), 0);
    dispatch(&w, &make_msg(Some("order-1"), TradeStatus::Matched));
    assert_eq!(count.load(Ordering::SeqCst), 0);
}

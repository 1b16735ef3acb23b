use chrono::{FixedOffset, TimeZone};
use trader::backtest::{
    filter_by_date, merge_ticks, parse_date, run_backtest, try_backtest, BinanceRow, MergedTick,
    PolyRow,
};
use trader::calendar::CivilDate;
use trader::config::AssetParams;
use trader::halt::{hkt_session, session_is_known, HaltTracker};
use trader::num::{num, Arith, Num, Op, Reader};
use trader::types::{Outcome, Side, TradeRecord};

fn n(x: f64) -> Num {
    num(x.to_bits())
}

fn f(x: Num) -> f64 {
    f64::from_bits(x.bits)
}

fn unit(op: Op, a: Num, b: Num) -> Num {
    match op {
        Op::Plus => n(f(a) + f(b)),
        Op::Minus => n(f(a) - f(b)),
        Op::Times => n(f(a) * f(b)),
        Op::Over => n(f(a) / f(b)),
        Op::Round => n(f(a).round()),
        Op::Floor => n(f(a).floor()),
        Op::FromSigned => n((a.bits as i64) as f64),
        Op::FromUnsigned => n(a.bits as f64),
        Op::ToSigned => num((f(a) as i64) as u64),
        Op::ToUnsigned => num(f(a) as u64),
    }
}

fn arith() -> Arith<impl Fn(Op, Num, Num) -> Num> {
    Arith::new(unit)
}

fn reader() -> Reader<impl Fn(String) -> Option<Num>> {
    Reader::new(|t: String| t.parse::<f64>().ok().map(n))
}

#[test]
fn hkt_session_boundary() {
    let hkt_offset = FixedOffset::east_opt(8 * 3600).unwrap();
    let ts = hkt_offset.with_ymd_and_hms(2026, 6, 20, 1, 0, 0).unwrap().timestamp() as f64;
    let s = hkt_session(n(ts), 2, &arith());
    assert_eq!(s, CivilDate { year: 2026, month: 6, day: 19 });

    let ts2 = hkt_offset.with_ymd_and_hms(2026, 6, 20, 3, 0, 0).unwrap().timestamp() as f64;
    let s2 = hkt_session(n(ts2), 2, &arith());
    assert_eq!(s2, CivilDate { year: 2026, month: 6, day: 20 });
}

fn halt_test_record(strategy: &'static str, outcome: Outcome) -> TradeRecord {
    TradeRecord {
        slug: "test-slug".to_string(),
        cycle_start: n(0.0),
        strategy,
        side: Side::Down,
        entry_ts: n(0.0),
        entry_price_ts: n(0.0),
        token_price: n(0.5),
        exit_price: n(0.5),
        outcome,
        pnl: n(0.0),
        exit_attempts: 0,
        exit_last_error: None,
        entry_signal_latency_ms: n(0.0),
        entry_process_latency_ms: n(0.0),
        exit_signal_latency_ms: n(0.0),
        exit_process_latency_ms: n(0.0),
    }
}

#[test]
fn halt_tracker_record_trade_signals_only_on_the_crossing_loss() {
    let mut h = HaltTracker::new(2, 2);
    let loss = halt_test_record("reversal", Outcome::Loss);

    assert!(!h.record_trade(&loss, "reversal"), "1st loss must not cross halt_max=2 yet");
    assert!(!h.is_halted());

    assert!(h.record_trade(&loss, "reversal"), "2nd loss must cross halt_max=2");
    assert!(h.is_halted());

    assert!(!h.record_trade(&loss, "reversal"), "3rd loss while already halted must not re-signal");
    assert!(h.is_halted());
}

#[test]
fn halt_tracker_record_trade_ignores_non_loss_and_other_strategy() {
    let mut h = HaltTracker::new(1, 2);

    assert!(!h.record_trade(&halt_test_record("reversal", Outcome::Win), "reversal"));
    assert!(!h.record_trade(&halt_test_record("reversal", Outcome::Unwind), "reversal"));
    assert!(!h.is_halted(), "wins/unwinds must never halt");

    let mut losing_timeout = halt_test_record("reversal", Outcome::Timeout);
    losing_timeout.pnl = n(-0.5);
    assert!(!h.record_trade(&losing_timeout, "reversal"));
    let mut winning_timeout = halt_test_record("reversal", Outcome::Timeout);
    winning_timeout.pnl = n(0.5);
    assert!(!h.record_trade(&winning_timeout, "reversal"));
    assert!(!h.is_halted(), "timeout exits must never halt, win or lose");

    assert!(
        !h.record_trade(&halt_test_record("high_prob", Outcome::Loss), "reversal"),
        "a loss from a different strategy must be ignored by this tracker"
    );
    assert!(!h.is_halted());

    assert!(h.record_trade(&halt_test_record("reversal", Outcome::Loss), "reversal"));
    assert!(h.is_halted());
}

#[test]
fn halt_tracker_reset_signals_only_when_clearing_an_active_halt() {
    let mut h = HaltTracker::new(1, 2);

    assert!(!h.reset_if_new_session(n(1_000.0), &arith()));
    assert!(!h.is_halted());

    let loss = halt_test_record("reversal", Outcome::Loss);
    assert!(h.record_trade(&loss, "reversal"));
    assert!(h.is_halted());

    assert!(!h.reset_if_new_session(n(1_100.0), &arith()));
    assert!(h.is_halted());

    assert!(h.reset_if_new_session(n(1_000.0 + 100_000.0), &arith()));
    assert!(!h.is_halted());

    assert!(!h.reset_if_new_session(n(1_000.0 + 200_000.0), &arith()));
}

#[test]
fn merge_ticks_binance_first_at_equal_ts() {
    let b = vec![BinanceRow { ts: n(1000.0), price: n(50000.0), slug: "s".into() }];
    let p = vec![PolyRow { ts: n(1000.0), up: n(0.6), dn: n(0.4), slug: "s".into() }];
    let merged = merge_ticks(&b, &p);
    assert_eq!(merged.len(), 2);
    assert!(matches!(merged[0], MergedTick::Binance(_)), "binance must be first at equal ts");
    assert!(matches!(merged[1], MergedTick::Poly(_)));
}

#[test]
fn a_lone_row_needs_no_time() {
    let b = vec![BinanceRow { ts: n(f64::NAN), price: n(50000.0), slug: "s".into() }];
    let merged = merge_ticks(&b, &vec![]);
    assert_eq!(merged.len(), 1);
    assert!(matches!(&merged[0], MergedTick::Binance(t) if t.price == n(50000.0)));
}

#[test]
fn merged_ticks_ascend() {
    let b = vec![
        BinanceRow { ts: n(3.0), price: n(30.0), slug: "s".into() },
        BinanceRow { ts: n(1.0), price: n(10.0), slug: "s".into() },
    ];
    let p = vec![
        PolyRow { ts: n(2.0), up: n(0.2), dn: n(0.8), slug: "s".into() },
        PolyRow { ts: n(0.5), up: n(0.1), dn: n(0.9), slug: "s".into() },
    ];
    let times: Vec<f64> = merge_ticks(&b, &p)
        .iter()
        .map(|t| match t {
            MergedTick::Binance(t) => f(t.ts),
            MergedTick::Poly(t) => f(t.ts),
        })
        .collect();
    assert_eq!(times, vec![0.5, 1.0, 2.0, 3.0]);
}

fn params(strategies: &[&str]) -> AssetParams {
    AssetParams {
        asset: "BTC".to_string(),
        strategies: strategies.iter().map(|s| s.to_string()).collect(),
        enter_when_time_left: n(180.0),
        no_enter_when_time_left: n(10.0),
        reversal: n(0.60),
        reversal_low_threshold: n(0.25),
        reversal_start_time: n(120.0),
        gamma_poll_delay_secs: n(60.0),
        gamma_poll_interval_secs: n(20.0),
        gamma_poll_deadline_secs: n(600.0),
        price_high_rev: n(0.95),
        delta_pct_rev: n(0.0001),
        sl_reversal: n(0.3),
        unwind_pnl_rev: n(0.03),
        sl_pnl_rev: n(0.0),
        unwind_time_rev: n(0.0),
        price_low: n(0.8),
        price_high: n(0.95),
        delta_pct_hp: n(0.0),
        sl_high_prob: n(0.3),
        unwind_pnl_hp: n(0.0),
        sl_pnl_hp: n(0.0),
        unwind_time_hp: n(0.0),
        halt_rev: 1,
        halt_prob: 0,
        halt_reset_hour_rev: 2,
        halt_reset_hour_hp: 2,
        v_high1: n(0.7),
        v_low: n(0.3),
        v_high2: n(0.7),
        delta_pct_v: n(0.0),
        sl_v_shape: n(0.0),
        sl_pnl_v: n(0.3),
        unwind_pnl_v: n(0.15),
        unwind_time_v: n(25.0),
        halt_v: 1,
        halt_reset_hour_v: 2,
        max_buy_price: n(0.95),
        spread_premium_limit: n(1.05),
        spread_discount_limit: n(0.95),
        max_price_age_secs: n(5.0),
        trade_size_usdc: n(1.0),
    }
}

/// A cycle in which the UP token dips, recovers to the entry price and then goes to `last`.
fn cycle(start: f64, last: f64, b: &mut Vec<BinanceRow>, p: &mut Vec<PolyRow>) {
    let slug = format!("btc-updown-5m-{start}");
    let mut spot = |at: f64, price: f64| {
        b.push(BinanceRow { ts: n(start + at), price: n(price), slug: slug.clone() })
    };
    spot(0.0, 50_000.0);
    spot(200.0, 50_100.0);
    let mut token = |at: f64, up: f64| {
        p.push(PolyRow { ts: n(start + at), up: n(up), dn: n(1.0 - up), slug: slug.clone() })
    };
    token(190.0, 0.2);
    token(201.0, 0.65);
    token(210.0, last);
}

#[test]
fn a_dip_and_recovery_is_bought_and_sold_at_the_target() {
    let (mut b, mut p) = (Vec::new(), Vec::new());
    cycle(1_781_886_600.0, 0.7, &mut b, &mut p);
    let trades = run_backtest(&params(&["reversal"]), b, p, &arith(), &reader());
    assert_eq!(trades.len(), 1);
    let t = &trades[0];
    assert_eq!(t.slug, "btc-updown-5m-1781886600");
    assert_eq!(t.strategy, "reversal");
    assert_eq!(t.side, Side::Up);
    assert_eq!(f(t.token_price), 0.65);
    assert!((f(t.exit_price) - 0.68).abs() < 1e-9);
    assert_eq!(t.outcome, Outcome::Unwind);
    assert!((f(t.pnl) - 0.0462).abs() < 1e-9);
}

#[test]
fn a_loss_halts_until_the_next_session() {
    let (mut b, mut p) = (Vec::new(), Vec::new());
    let first = 1_781_886_600.0;
    cycle(first, 0.1, &mut b, &mut p);
    cycle(first + 300.0, 0.1, &mut b, &mut p);
    cycle(first + 86_400.0, 0.1, &mut b, &mut p);
    let trades = run_backtest(&params(&["reversal"]), b, p, &arith(), &reader());
    assert_eq!(trades.len(), 2);
    assert!(trades.iter().all(|t| t.outcome == Outcome::StopLoss));
    assert_eq!(f(trades[0].cycle_start), first);
    assert_eq!(f(trades[1].cycle_start), first + 86_400.0);
}

#[test]
fn cycles_without_binance_prices_give_no_trade() {
    let (mut b, mut p) = (Vec::new(), Vec::new());
    cycle(1_781_886_600.0, 0.7, &mut b, &mut p);
    assert!(run_backtest(&params(&["reversal"]), Vec::new(), p, &arith(), &reader()).is_empty());
}

#[test]
fn dates_are_read_by_their_parts() {
    assert_eq!(parse_date("2026-06-20"), Some(CivilDate { year: 2026, month: 6, day: 20 }));
    assert_eq!(parse_date("2026-06"), None);
    assert_eq!(parse_date("2026-June-20"), None);
}

#[test]
fn rows_of_the_day_are_kept() {
    let (mut b, mut p) = (Vec::new(), Vec::new());
    // 2026-06-20 00:30 in Hong Kong, and a day later.
    cycle(1_781_886_600.0, 0.7, &mut b, &mut p);
    cycle(1_781_886_600.0 + 86_400.0, 0.7, &mut b, &mut p);
    b.push(BinanceRow { ts: n(0.0), price: n(1.0), slug: "btc-updown-5m-1781890000".into() });
    let (kept_b, kept_p) = filter_by_date(b, p, "2026-06-20", &arith(), &reader());
    assert_eq!(kept_b.len(), 2);
    assert_eq!(kept_p.len(), 3);
    assert!(kept_b.iter().all(|r| r.slug == "btc-updown-5m-1781886600"));
    assert!(kept_p.iter().all(|r| r.slug == "btc-updown-5m-1781886600"));
}

fn renamed(b: &mut Vec<BinanceRow>, p: &mut Vec<PolyRow>, name: &str) {
    b.iter_mut().for_each(|r| r.slug = name.to_string());
    p.iter_mut().for_each(|r| r.slug = name.to_string());
}

#[test]
fn a_replay_stops_where_a_cycle_tells_no_time() {
    let run = |names: &[&str], b: &Vec<BinanceRow>, p: &Vec<PolyRow>| {
        try_backtest(&params(names), b, p, &arith(), &reader()).map(|t| t.len())
    };
    let (mut b, mut p) = (Vec::new(), Vec::new());
    cycle(1_781_886_600.0, 0.7, &mut b, &mut p);
    assert_eq!(run(&["reversal"], &b, &p), Some(1));

    let mut late = b.clone();
    late[1].ts = n(f64::NAN);
    assert_eq!(run(&["reversal"], &late, &p), None);

    renamed(&mut b, &mut p, "btc-updown-5m-soon");
    assert_eq!(run(&["reversal"], &b, &p), None);
    assert_eq!(run(&["reversal"], &Vec::new(), &p), Some(0), "no Binance rows, no replay");
    assert_eq!(run(&[], &b, &p), Some(0), "no strategy, no replay");

    renamed(&mut b, &mut p, "btc-updown-5m-1e300");
    assert_eq!(run(&["reversal"], &b, &p), None);
}

#[test]
fn sessions_end_with_the_calendar() {
    assert!(session_is_known(n(1_781_886_600.0), 2, &arith()));
    assert!(session_is_known(n(-1_000.0), -5, &arith()));
    assert!(!session_is_known(n(1e300), 2, &arith()));
    assert!(!session_is_known(n(0.0), i64::MAX, &arith()));
    assert!(!session_is_known(n(0.0), i64::MIN, &arith()));
}

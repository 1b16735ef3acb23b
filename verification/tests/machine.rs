use trader::config::AssetParams;
use trader::machine::Machine;
use trader::num::{num, Arith, Num, Op};
use trader::types::{BinanceTick, CycleContext, Outcome, PolyTick, TradeRecord};

fn n(x: f64) -> Num {
    num(x.to_bits())
}

fn f(x: Num) -> f64 {
    f64::from_bits(x.bits)
}

fn unit(op: Op, a: Num, b: Num) -> Num {
    match op {
        Op::Plus => n(f(a) + f(b)),
        Op::Minus => n(f(a) - f(b)),
        Op::Times => n(f(a) * f(b)),
        Op::Over => n(f(a) / f(b)),
        Op::Round => n(f(a).round()),
        Op::Floor => n(f(a).floor()),
        Op::FromSigned => n((a.bits as i64) as f64),
        Op::FromUnsigned => n(a.bits as f64),
        Op::ToSigned => num((f(a) as i64) as u64),
        Op::ToUnsigned => num(f(a) as u64),
    }
}

fn arith() -> Arith<impl Fn(Op, Num, Num) -> Num> {
    Arith::new(unit)
}

fn poly(m: &mut Machine, ts: f64, up: f64, dn: f64) -> Option<TradeRecord> {
    let tick = PolyTick { ts: n(ts), up: n(up), dn: n(dn), up_bid: n(0.0), up_ask: n(0.0) };
    m.on_poly(tick, &arith())
}

fn spot(m: &mut Machine, ts: f64, price: f64) -> Option<TradeRecord> {
    m.on_binance(BinanceTick { ts: n(ts), price: n(price) }, &arith())
}

fn btc_params() -> AssetParams {
    AssetParams {
        asset: "BTC".to_string(),
        strategies: vec!["reversal".to_string()],
        enter_when_time_left: n(20.0),
        no_enter_when_time_left: n(10.0),
        reversal: n(0.60),
        reversal_low_threshold: n(0.20),
        reversal_start_time: n(120.0),
        gamma_poll_delay_secs: n(60.0),
        gamma_poll_interval_secs: n(20.0),
        gamma_poll_deadline_secs: n(600.0),
        price_high_rev: n(0.90),
        delta_pct_rev: n(0.0008),
        sl_reversal: n(0.0),
        unwind_pnl_rev: n(0.03),
        sl_pnl_rev: n(0.20),
        unwind_time_rev: n(0.0),
        price_low: n(0.80),
        price_high: n(0.93),
        delta_pct_hp: n(0.0004),
        sl_high_prob: n(0.49),
        unwind_pnl_hp: n(0.05),
        sl_pnl_hp: n(0.25),
        unwind_time_hp: n(0.0),
        v_high1: n(0.70),
        v_low: n(0.30),
        v_high2: n(0.70),
        delta_pct_v: n(0.0),
        sl_v_shape: n(0.0),
        sl_pnl_v: n(0.30),
        unwind_pnl_v: n(0.05),
        unwind_time_v: n(25.0),
        halt_rev: 2,
        halt_prob: 2,
        halt_v: 1,
        halt_reset_hour_rev: 2,
        halt_reset_hour_hp: 8,
        halt_reset_hour_v: 2,
        max_buy_price: n(0.95),
        spread_premium_limit: n(1.05),
        spread_discount_limit: n(0.95),
        max_price_age_secs: n(300.0),
        trade_size_usdc: n(1.0),
    }
}

fn ctx(start: f64) -> CycleContext {
    CycleContext {
        start_ts: n(start),
        end_ts: n(start + 300.0),
        open_binance: n(60_000.0),
    }
}
fn enter_down_position(p: &AssetParams) -> Machine {
    let mut m = Machine::new_reversal(p);
    m.cycle_open(&ctx(1_000.0), "btc-updown-5m-1000", false);

    poly(&mut m, 1180.0, 0.85, 0.15);
    spot(&mut m, 1200.0, 59_900.0);
    poly(&mut m, 1240.0, 0.30, 0.70);
    spot(&mut m, 1250.0, 59_900.0);
    assert!(m.is_holding(), "setup: expected Holding after entry");
    m
}

#[test]
fn timeout_force_closes_after_unwind_time_elapsed_on_poly_tick() {
    let mut p = btc_params();
    p.unwind_time_rev = n(30.0);
    let mut m = enter_down_position(&p);
    let rec = poly(&mut m, 1270.0, 0.35, 0.65);
    assert!(rec.is_some(), "expected a TIMEOUT record");
    let rec = rec.unwrap();
    assert_eq!(rec.outcome, Outcome::Timeout);
    assert!((f(rec.exit_price) - 0.65).abs() < 1e-9);
    assert!(
        (f(rec.pnl) - (0.65 / 0.70 - 1.0)).abs() < 0.0001,
        "pnl={}",
        f(rec.pnl)
    );
    assert!(
        !m.is_holding(),
        "state must return to Watching after timeout"
    );
}

#[test]
fn timeout_force_closes_on_binance_only_tick() {
    let mut p = btc_params();
    p.unwind_time_rev = n(30.0);
    let mut m = enter_down_position(&p);
    let rec = spot(&mut m, 1270.0, 59_850.0);
    assert!(
        rec.is_some(),
        "expected a TIMEOUT record from the binance path"
    );
    let rec = rec.unwrap();
    assert_eq!(rec.outcome, Outcome::Timeout);
    assert!(
        (f(rec.exit_price) - 0.70).abs() < 1e-9,
        "exit_price={}",
        f(rec.exit_price)
    );
    assert!(f(rec.pnl).abs() < 1e-9, "pnl={}", f(rec.pnl));
}

#[test]
fn timeout_does_not_fire_before_threshold_elapsed() {
    let mut p = btc_params();
    p.unwind_time_rev = n(30.0);
    let mut m = enter_down_position(&p);

    let rec = poly(&mut m, 1269.0, 0.35, 0.65);
    assert!(rec.is_none(), "must not fire before the threshold elapses");
    assert!(m.is_holding(), "position must still be open");
}

#[test]
fn timeout_disabled_when_unwind_time_zero() {
    let p = btc_params();
    let mut m = enter_down_position(&p);
    let rec = poly(&mut m, 1280.0, 0.35, 0.65);
    assert!(
        rec.is_none(),
        "unwind_time=0.0 must disable the elapsed-holding-time timeout check"
    );
    assert!(m.is_holding());
}
#[test]
fn force_unwinds_within_10s_of_cycle_end_even_with_timeout_disabled() {
    let p = btc_params();
    let mut m = enter_down_position(&p);
    let rec = poly(&mut m, 1291.0, 0.35, 0.65)
        .expect("must force-unwind within 10s of cycle end");
    assert_eq!(rec.outcome, Outcome::Unwind);
    assert!((f(rec.exit_price) - 0.65).abs() < 1e-9);
    assert!(!m.is_holding());
}
#[test]
fn force_unwinds_within_10s_of_cycle_end_on_binance_only_tick() {
    let p = btc_params();
    let mut m = enter_down_position(&p);

    let rec = spot(&mut m, 1291.0, 59_900.0)
        .expect("must force-unwind within 10s of cycle end on a binance-only tick");
    assert_eq!(rec.outcome, Outcome::Unwind);
    assert!(!m.is_holding());
}
#[test]
fn force_unwind_takes_priority_over_timeout_near_cycle_end() {
    let mut p = btc_params();
    p.unwind_time_rev = n(30.0);
    let mut m = enter_down_position(&p);
    let rec = poly(&mut m, 1291.0, 0.35, 0.65)
        .expect("expected an exit");
    assert_eq!(rec.outcome, Outcome::Unwind);
}

#[test]
fn stoploss_takes_priority_over_timeout_on_same_tick() {
    let mut p = btc_params();
    p.unwind_time_rev = n(30.0);
    let mut m = enter_down_position(&p);
    let rec = poly(&mut m, 1270.0, 0.55, 0.45);
    assert!(rec.is_some());
    assert_eq!(
        rec.unwrap().outcome,
        Outcome::StopLoss,
        "stop-loss must be checked before timeout, matching the fixed exit-chain order"
    );
}

#[test]
fn timeout_pnl_can_be_positive_or_negative() {
    let mut p = btc_params();
    p.unwind_time_rev = n(30.0);
    let mut m_up = enter_down_position(&p);
    let rec_up = poly(&mut m_up, 1270.0, 0.28, 0.72)
        .unwrap();
    assert_eq!(rec_up.outcome, Outcome::Timeout);
    assert!(f(rec_up.pnl) > 0.0, "pnl={}", f(rec_up.pnl));
    let mut m_dn = enter_down_position(&p);
    let rec_dn = poly(&mut m_dn, 1270.0, 0.35, 0.65)
        .unwrap();
    assert_eq!(rec_dn.outcome, Outcome::Timeout);
    assert!(f(rec_dn.pnl) < 0.0, "pnl={}", f(rec_dn.pnl));
}

#[test]
fn unwind_fires_on_poly_tick() {
    let p = btc_params();
    let mut m = Machine::new_reversal(&p);
    let c = ctx(1_000.0);
    m.cycle_open(&c, "btc-updown-5m-1000", false);
    poly(&mut m, 1180.0, 0.85, 0.15);
    spot(&mut m, 1200.0, 59_900.0);
    poly(&mut m, 1240.0, 0.30, 0.70);
    spot(&mut m, 1250.0, 59_900.0);

    assert!(m.is_holding(), "expected Holding after entry");
    let rec = poly(&mut m, 1260.0, 0.27, 0.73);
    assert!(rec.is_some(), "expected UNWIND record");
    let rec = rec.unwrap();
    assert_eq!(rec.outcome, Outcome::Unwind);
    assert!(
        (f(rec.pnl) - 0.0429).abs() < 0.0001,
        "pnl ≈ 1.0*0.03/0.70 = 0.0429, got {}",
        f(rec.pnl)
    );
}

#[test]
fn sl_pnl_fires_before_absolute_sl() {
    let p = btc_params();
    let mut m = Machine::new_reversal(&p);
    let c = ctx(1_000.0);
    m.cycle_open(&c, "btc-updown-5m-1000", false);
    poly(&mut m, 1180.0, 0.80, 0.15);
    spot(&mut m, 1200.0, 59_900.0);
    poly(&mut m, 1200.0, 0.25, 0.75);
    spot(&mut m, 1240.0, 59_900.0);

    assert!(m.is_holding());
    let rec = poly(&mut m, 1260.0, 0.45, 0.55);
    assert!(rec.is_some());
    let rec = rec.unwrap();
    assert_eq!(rec.outcome, Outcome::StopLoss);
    assert!(
        (f(rec.pnl) - (-0.20 / 0.75)).abs() < 0.0001,
        "pnl={}, expected {}",
        f(rec.pnl),
        -0.20 / 0.75
    );
}
#[test]
fn entry_fires_on_poly_tick_using_cached_delta() {
    let p = btc_params();
    let mut m = Machine::new_reversal(&p);
    let c = ctx(1_000.0);
    m.cycle_open(&c, "btc-updown-5m-1000", false);

    poly(&mut m, 1180.0, 0.85, 0.15);
    spot(&mut m, 1200.0, 59_900.0);
    poly(&mut m, 1240.0, 0.30, 0.70);
    assert!(
        m.is_holding(),
        "expected Holding after poly-triggered entry"
    );
}
#[test]
fn poly_tick_does_not_fire_using_stale_cross_cycle_delta() {
    let p = btc_params();
    let mut m = Machine::new_reversal(&p);
    m.cycle_open(&ctx(1_000.0), "btc-updown-5m-1000", false);
    spot(&mut m, 1100.0, 59_900.0);
    m.cycle_open(&ctx(1_500.0), "btc-updown-5m-1500", false);
    poly(&mut m, 1680.0, 0.85, 0.15);
    poly(&mut m, 1740.0, 0.30, 0.70);
    assert!(
        !m.is_holding(),
        "must not fire on a delta_pct left over from the previous cycle"
    );
}
#[test]
fn entry_price_ts_reflects_stale_cached_poly_tick_not_triggering_binance_tick() {
    let p = btc_params();
    let mut m = Machine::new_reversal(&p);
    m.cycle_open(&ctx(1_000.0), "btc-updown-5m-1000", false);

    poly(&mut m, 1180.0, 0.85, 0.15);
    poly(&mut m, 1210.0, 0.30, 0.70);
    assert!(
        !m.is_holding(),
        "setup: must not fire without delta_pct cached"
    );
    let none = spot(&mut m, 1250.0, 59_900.0);
    assert!(none.is_none());
    assert!(
        m.is_holding(),
        "expected entry on the binance-triggered check"
    );
    let rec = poly(&mut m, 1211.0, 0.55, 0.45)
        .expect("stop-loss should fire");

    assert_eq!(
        f(rec.entry_ts), 1250.0,
        "entry_ts is the triggering binance tick"
    );
    assert_eq!(
        f(rec.entry_price_ts), 1210.0,
        "entry_price_ts must be the actual poly observation's own timestamp"
    );
    assert_ne!(
        f(rec.entry_ts), f(rec.entry_price_ts),
        "the whole point of the field: these differ when a binance tick fires \
         entry off a stale cached poly reading"
    );
    assert_eq!(
        f(rec.token_price), 0.70,
        "fill uses the cached poly price, not binance"
    );
}

#[test]
fn halted_machine_skips_entry() {
    let p = btc_params();
    let mut m = Machine::new_reversal(&p);
    let c = ctx(1_000.0);
    m.cycle_open(&c, "btc-updown-5m-1000", true);

    poly(&mut m, 1180.0, 0.80, 0.15);
    spot(&mut m, 1200.0, 59_900.0);
    poly(&mut m, 1200.0, 0.25, 0.75);
    spot(&mut m, 1240.0, 59_900.0);

    assert!(!m.is_holding(), "halted machine must not enter");
    assert!(m.cycle_close(&arith()).is_none());
}

#[test]
fn win_at_cycle_close() {
    let p = btc_params();
    let mut m = Machine::new_reversal(&p);
    let c = CycleContext {
        start_ts: n(1_000.0),
        end_ts: n(1_300.0),
        open_binance: n(60_000.0),
    };
    m.cycle_open(&c, "btc-updown-5m-1000", false);
    poly(&mut m, 1180.0, 0.80, 0.15);
    spot(&mut m, 1200.0, 59_900.0);
    poly(&mut m, 1200.0, 0.25, 0.75);
    spot(&mut m, 1240.0, 59_900.0);

    assert!(m.is_holding());
    let rec = m.cycle_close(&arith());
    assert!(rec.is_some());
    let rec = rec.unwrap();
    assert_eq!(rec.outcome, Outcome::Win);
    assert!(
        (f(rec.pnl) - (1.0 / 0.75 - 1.0)).abs() < 0.0001,
        "pnl={}",
        f(rec.pnl)
    );
}
fn enter_v_shape_up(p: &AssetParams) -> Machine {
    let mut m = Machine::new_v_shape(p);
    m.cycle_open(&ctx(1_000.0), "btc-updown-5m-1000", false);
    poly(&mut m, 1100.0, 0.75, 0.25);
    poly(&mut m, 1180.0, 0.25, 0.75);
    poly(&mut m, 1240.0, 0.70, 0.30);
    assert!(m.is_holding(), "setup: expected Holding after full V");
    m
}

#[test]
fn v_shape_enters_without_any_binance_tick_and_takes_profit() {
    let p = btc_params();
    let mut m = enter_v_shape_up(&p);
    let rec = poly(&mut m, 1250.0, 0.75, 0.25)
        .expect("take-profit must fire");
    assert_eq!(rec.strategy, "v_shape");
    assert_eq!(rec.outcome, Outcome::Unwind);
    assert!((f(rec.exit_price) - 0.75).abs() < 1e-9);
    assert!((f(rec.pnl) - (1.0 * 0.05 / 0.70)).abs() < 1e-4);
    assert!(!m.is_holding());
}

#[test]
fn v_shape_no_entry_without_high1_first() {
    let p = btc_params();
    let mut m = Machine::new_v_shape(&p);
    m.cycle_open(&ctx(1_000.0), "btc-updown-5m-1000", false);
    poly(&mut m, 1100.0, 0.25, 0.75);
    poly(&mut m, 1180.0, 0.72, 0.28);
    assert!(!m.is_holding(), "V prefix incomplete on both sides");
}

#[test]
fn v_shape_stop_loss_fires() {
    let p = btc_params();
    let mut m = enter_v_shape_up(&p);
    let rec = poly(&mut m, 1250.0, 0.35, 0.65)
        .expect("stop-loss must fire");
    assert_eq!(rec.outcome, Outcome::StopLoss);
    assert!((f(rec.exit_price) - 0.40).abs() < 1e-9);
    assert!(f(rec.pnl) < 0.0);
}

#[test]
fn v_shape_times_out_after_unwind_time_v() {
    let p = btc_params();
    let mut m = enter_v_shape_up(&p);
    let rec = poly(&mut m, 1265.0, 0.72, 0.28)
        .expect("timeout must fire at 25s");
    assert_eq!(rec.outcome, Outcome::Timeout);
    assert!((f(rec.exit_price) - 0.72).abs() < 1e-9);
}

#[test]
fn v_shape_force_unwinds_within_10s_of_cycle_end() {
    let mut p = btc_params();
    p.unwind_time_v = n(0.0);
    let mut m = enter_v_shape_up(&p);
    let rec = poly(&mut m, 1291.0, 0.71, 0.29)
        .expect("must force-unwind near cycle end");
    assert_eq!(rec.outcome, Outcome::Unwind);
    assert!((f(rec.exit_price) - 0.71).abs() < 1e-9);
}

#[test]
fn v_shape_latches_reset_across_cycles() {
    let p = btc_params();
    let mut m = Machine::new_v_shape(&p);
    m.cycle_open(&ctx(1_000.0), "btc-updown-5m-1000", false);
    poly(&mut m, 1100.0, 0.75, 0.25);
    poly(&mut m, 1180.0, 0.25, 0.75);
    m.cycle_open(&ctx(1_300.0), "btc-updown-5m-1300", false);
    poly(&mut m, 1400.0, 0.72, 0.28);
    assert!(
        !m.is_holding(),
        "V prefix from a previous cycle must not carry over"
    );
}

#[test]
fn v_shape_resolves_at_cycle_close_via_binance_direction() {
    let p = btc_params();
    let mut m = enter_v_shape_up(&p);
    spot(&mut m, 1250.0, 60_100.0);
    let rec = m.cycle_close(&arith()).expect("open position resolves at close");
    assert_eq!(rec.outcome, Outcome::Win);
    assert!((f(rec.pnl) - (1.0 / 0.70 - 1.0)).abs() < 1e-4);
}

#[test]
fn v_shape_halted_machine_skips_entry() {
    let p = btc_params();
    let mut m = Machine::new_v_shape(&p);
    m.cycle_open(&ctx(1_000.0), "btc-updown-5m-1000", true);
    poly(&mut m, 1100.0, 0.75, 0.25);
    poly(&mut m, 1180.0, 0.25, 0.75);
    poly(&mut m, 1240.0, 0.70, 0.30);
    assert!(!m.is_holding(), "halted v_shape machine must not enter");
}

#[test]
fn one_trade_per_cycle_even_after_a_second_v() {
    let p = btc_params();
    let mut m = enter_v_shape_up(&p);
    assert!(poly(&mut m, 1250.0, 0.75, 0.25).is_some());
    for (ts, up) in [(1252.0, 0.25), (1254.0, 0.75), (1256.0, 0.25), (1258.0, 0.72)] {
        assert!(poly(&mut m, ts, up, 1.0 - up).is_none());
    }
    assert!(!m.is_holding());
    assert!(m.cycle_close(&arith()).is_none());
}

#[test]
fn a_loss_at_the_end_costs_the_stake() {
    let p = btc_params();
    let mut m = enter_v_shape_up(&p);
    spot(&mut m, 1250.0, 59_900.0);
    let rec = m.cycle_close(&arith()).expect("open position resolves at close");
    assert_eq!(rec.outcome, Outcome::Loss);
    assert!((f(rec.pnl) + 1.0).abs() < 1e-9);
    assert_eq!(f(rec.cycle_start), 1_000.0);
    assert_eq!(rec.slug, "btc-updown-5m-1000");
}

#[test]
fn one_trade_per_cycle_even_after_the_close() {
    let p = btc_params();
    let mut m = enter_v_shape_up(&p);
    assert!(m.cycle_close(&arith()).is_some());
    for (ts, up) in [(1252.0, 0.75), (1254.0, 0.25), (1256.0, 0.72)] {
        assert!(poly(&mut m, ts, up, 1.0 - up).is_none());
        assert!(!m.is_holding());
    }
    assert!(m.cycle_close(&arith()).is_none());
}

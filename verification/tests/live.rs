use trader::balance::{BalanceGuard, GammaBalanceTracker};
use trader::config::AssetParams;
use trader::execution::{CloseResult, LimitSellResult, SellStatus, TokenId, TradeResult};
use trader::live::control::{
    control_entry, find_slot, on_balance, on_command, Answer, CommandResult, ControlEntry,
};
use trader::live::csv::{
    canceled_quote_row, csv_sanitize, heal_csv, new_csv, pup_veto_row, trade_row, weather_row,
    CANCELED_QUOTE_CSV_HEADER, CSV_HEADER, PUP_VETO_CSV_HEADER, WEATHER_CSV_HEADER,
};
use trader::live::cycle::{
    cycle_context, on_binance_tick, on_clock, on_poly_tick, price_source, settle_boundary,
    watch_event, watch_step, Boundary, GammaPollCadence, PriceSource, WatchStep,
};
use trader::live::files::{control_log, slot_file, weather_log, SlotFile};
use trader::live::latency::{exchange_latency_ms, fmt_ago, fmt_latency, latency_ms};
use trader::live::notices::{heartbeat, report, start_notice, stop_notice, weather_notice};
use trader::live::orders::{
    buy_followup, close_alert, close_followup, fill_owner, limit_buy_followup,
    limit_sell_followup, plan_order, price_dry_run, resting_fill_event, seconds_left, Action, CloseReason, EngineCall,
    Event, Feed, OrderTimes,
};
use trader::live::slot::{
    confirming_asset_labels, loss_streak_still_halted_note, AssetSlot, ControlEvent, Stats,
};
use trader::live::startup::{check_strategies, duration_for, new_slot, Saved};
use trader::live::status::{render_auto_reset_line, render_status, AccountBalance};
use trader::live::{
    arrow_side, resolve_run_mode, should_suppress_startup_cycle, with_prefix, MarketDuration,
    RunMode, STARTUP_MID_CYCLE_GUARD_SECS,
};
use trader::num::{num, Arith, Layout, Num, Op, Writer};
use trader::telegram::commands::parse_command;
use trader::types::{BinanceTick, Outcome, PolyTick, Side, TradeRecord};
use trader::weather::WeatherTrade;

fn n(x: f64) -> Num {
    num(x.to_bits())
}

fn f(x: Num) -> f64 {
    f64::from_bits(x.bits)
}

fn unit(op: Op, a: Num, b: Num) -> Num {
    match op {
        Op::Plus => n(f(a) + f(b)),
        Op::Minus => n(f(a) - f(b)),
        Op::Times => n(f(a) * f(b)),
        Op::Over => n(f(a) / f(b)),
        Op::Round => n(f(a).round()),
        Op::Floor => n(f(a).floor()),
        Op::FromSigned => n((a.bits as i64) as f64),
        Op::FromUnsigned => n(a.bits as f64),
        Op::ToSigned => num((f(a) as i64) as u64),
        Op::ToUnsigned => num(f(a) as u64),
    }
}

fn arith() -> Arith<impl Fn(Op, Num, Num) -> Num> {
    Arith::new(unit)
}

fn written(x: Num, layout: Layout) -> String {
    match layout {
        Layout::Plain => format!("{}", f(x)),
        Layout::Fixed(d) => format!("{:.*}", d as usize, f(x)),
        Layout::Signed(d) => format!("{:+.*}", d as usize, f(x)),
    }
}

fn writer() -> Writer<impl Fn(Num, Layout) -> String> {
    Writer::new(written)
}

#[test]
fn paper_from_either_source_beats_everything() {
    assert_eq!(resolve_run_mode(true, false, false), RunMode::Paper);
    assert_eq!(resolve_run_mode(false, true, false), RunMode::Paper);
    assert_eq!(resolve_run_mode(true, true, false), RunMode::Paper);
    assert_eq!(resolve_run_mode(true, false, true), RunMode::Paper);
    assert_eq!(resolve_run_mode(false, true, true), RunMode::Paper);
}

#[test]
fn dry_run_without_paper_is_dry_run() {
    assert_eq!(resolve_run_mode(false, false, true), RunMode::DryRun);
}

#[test]
fn default_is_real_money() {
    assert_eq!(resolve_run_mode(false, false, false), RunMode::Real);
}

#[test]
fn prefixes_distinguish_every_run_mode() {
    assert_eq!(RunMode::Real.prefix(), "");
    assert_eq!(RunMode::DryRun.prefix(), "[DRY] ");
    assert_eq!(RunMode::Paper.prefix(), "[PAPER] ");
}

#[test]
fn messages_carry_the_prefix() {
    assert_eq!(with_prefix(RunMode::Paper, "hello"), "[PAPER] hello");
    assert_eq!(arrow_side(Side::Up), "UP ↑");
    assert_eq!(arrow_side(Side::Down), "DOWN ↓");
}

#[test]
fn clean_start_at_boundary_not_suppressed() {
    assert!(!should_suppress_startup_cycle(true, n(0.3)));
}

#[test]
fn restart_100s_into_cycle_is_suppressed() {
    assert!(should_suppress_startup_cycle(true, n(100.0)));
}

#[test]
fn exactly_at_threshold_not_suppressed() {
    let guard = num(STARTUP_MID_CYCLE_GUARD_SECS);
    assert!(!should_suppress_startup_cycle(true, guard));
    assert!(should_suppress_startup_cycle(true, n(f(guard) + 0.001)));
}

#[test]
fn late_steady_state_tick_not_suppressed() {
    assert!(!should_suppress_startup_cycle(false, n(100.0)));
}

#[test]
fn writes_header_for_new_file() {
    assert_eq!(new_csv(CSV_HEADER), format!("{CSV_HEADER}\n"));
}

#[test]
fn leaves_current_header_untouched() {
    let row = "1.0,slug,strategy,UP,1.0,0.5,1.0,WIN,0.1,0,,0,0,0,0".to_string();
    assert!(heal_csv(CSV_HEADER, &vec![row]).is_none());
}

#[test]
fn heals_stale_header_and_pads_legacy_rows() {
    let stale = "logged_at,slug,strategy,side,entry_ts,token_price,exit_price,outcome,pnl";
    let rows = vec![
        "1.0,old-slug,high_prob,UP,1.0,0.93,1.0,WIN,0.0753".to_string(),
        "2.0,new-slug,reversal,UP,2.0,0.66,1.0,WIN,0.5152,284,no market price".to_string(),
    ];
    let healed = heal_csv(stale, &rows).unwrap();
    let lines: Vec<&str> = healed.lines().collect();
    assert_eq!(lines[0], CSV_HEADER);
    assert_eq!(
        lines[1], "1.0,old-slug,high_prob,UP,1.0,0.93,1.0,WIN,0.0753,,,,,,",
        "9-field legacy row padded to 15 fields"
    );
    assert_eq!(
        lines[2], "2.0,new-slug,reversal,UP,2.0,0.66,1.0,WIN,0.5152,284,no market price,,,,",
        "11-field legacy row padded to 15 fields"
    );
    for line in &lines {
        assert_eq!(line.matches(',').count(), 14, "every row must have 15 fields: {line}");
    }
}

#[test]
fn a_foreign_file_is_left_alone() {
    assert!(heal_csv("time,price", &vec!["1,2".to_string()]).is_none());
}

#[test]
fn fmt_latency_formats_some_and_none() {
    assert_eq!(fmt_latency(Some(n(12.4)), &writer()), "12ms");
    assert_eq!(fmt_latency(Some(n(-3.0)), &writer()), "-3ms");
    assert_eq!(fmt_latency(None, &writer()), "n/a");
}

#[test]
fn exchange_latency_ms_is_local_receipt_minus_server_ts() {
    let got = f(exchange_latency_ms(Some(n(100.117)), Some(n(100.000)), &arith()).unwrap());
    assert!((got - 117.0).abs() < 1e-6, "got {got}");
    assert_eq!(exchange_latency_ms(None, Some(n(100.000)), &arith()), None);
    assert_eq!(exchange_latency_ms(Some(n(100.117)), None, &arith()), None);
}

#[test]
fn fmt_ago_reports_gap_to_now() {
    assert_eq!(fmt_ago(Some(n(100.000)), n(100.200), &arith(), &writer()), "200ms ago");
}

#[test]
fn fmt_ago_zero_when_both_feeds_tick_simultaneously() {
    assert_eq!(fmt_ago(Some(n(100.200)), n(100.200), &arith(), &writer()), "0ms ago");
}

#[test]
fn fmt_ago_none_when_feed_never_ticked() {
    assert_eq!(fmt_ago(None, n(100.200), &arith(), &writer()), "n/a");
}

fn latency(from: f64, to: f64) -> f64 {
    f(latency_ms(n(from), n(to), &arith()))
}

#[test]
fn latency_ms_is_to_minus_from() {
    assert!((latency(1000.0, 1001.75) - 1750.0).abs() < 1e-9);
}

#[test]
fn process_latency_spans_signal_ts_to_confirmed_ts_not_received_ts() {
    let signal_ts = 100.000;
    let received_ts = 100.001;
    let confirmed_ts = 101.751;
    let signal_latency_ms = latency(signal_ts, received_ts);
    let process_latency_ms = latency(signal_ts, confirmed_ts);
    assert!((signal_latency_ms - 1.0).abs() < 1e-9, "got {signal_latency_ms}");
    assert!((process_latency_ms - 1751.0).abs() < 1e-9, "got {process_latency_ms}");
    assert!(process_latency_ms > latency(received_ts, confirmed_ts));
}

fn test_params(asset: &str) -> AssetParams {
    AssetParams {
        asset: asset.to_string(),
        strategies: vec!["reversal".to_string()],
        enter_when_time_left: n(20.0),
        no_enter_when_time_left: n(10.0),
        reversal: n(0.60),
        reversal_low_threshold: n(0.20),
        reversal_start_time: n(120.0),
        gamma_poll_delay_secs: n(60.0),
        gamma_poll_interval_secs: n(20.0),
        gamma_poll_deadline_secs: n(600.0),
        price_high_rev: n(0.90),
        delta_pct_rev: n(0.0008),
        sl_reversal: n(0.0),
        unwind_pnl_rev: n(0.03),
        sl_pnl_rev: n(0.20),
        unwind_time_rev: n(0.0),
        price_low: n(0.80),
        price_high: n(0.93),
        delta_pct_hp: n(0.0004),
        sl_high_prob: n(0.49),
        unwind_pnl_hp: n(0.05),
        sl_pnl_hp: n(0.25),
        unwind_time_hp: n(0.0),
        v_high1: n(0.70),
        v_low: n(0.30),
        v_high2: n(0.70),
        delta_pct_v: n(0.0),
        sl_v_shape: n(0.0),
        sl_pnl_v: n(0.30),
        unwind_pnl_v: n(0.15),
        unwind_time_v: n(25.0),
        halt_rev: 2,
        halt_prob: 2,
        halt_v: 1,
        halt_reset_hour_rev: 2,
        halt_reset_hour_hp: 8,
        halt_reset_hour_v: 2,
        max_buy_price: n(0.95),
        spread_premium_limit: n(1.05),
        spread_discount_limit: n(0.95),
        max_price_age_secs: n(300.0),
        trade_size_usdc: n(1.0),
    }
}

fn slot_for(asset: &str, strategy: &str) -> AssetSlot {
    new_slot(asset, strategy, test_params(asset), n(1.0), MarketDuration::M5, None)
}

fn test_slot(asset: &str) -> AssetSlot {
    slot_for(asset, "reversal")
}

fn confirming(asset: &str) -> AssetSlot {
    let mut slot = test_slot(asset);
    slot.worker.confirming = true;
    slot
}

fn labels(slots: &[AssetSlot]) -> Vec<String> {
    let assets = slots.iter().map(|s| s.worker.asset.clone()).collect();
    let workers = slots.iter().map(|s| s.worker.clone()).collect();
    confirming_asset_labels(&assets, &workers)
}

#[test]
fn labels_only_confirming_workers() {
    let halted = labels(&[confirming("ETH"), test_slot("BTC")]);
    assert_eq!(halted, vec!["ETH/reversal".to_string()]);
}

#[test]
fn empty_when_nothing_pending() {
    assert!(labels(&[test_slot("BTC")]).is_empty());
}

#[test]
fn labels_every_concurrently_pending_worker() {
    let mut halted = labels(&[confirming("ETH"), confirming("DOGE")]);
    halted.sort();
    assert_eq!(halted, vec!["DOGE/reversal".to_string(), "ETH/reversal".to_string()]);
}

#[test]
fn market_key_is_bare_asset_for_5m_and_tagged_otherwise() {
    let slot = test_slot("BTC");
    assert_eq!(slot.market_key(), "BTC");

    let mut slot15 = test_slot("BTC");
    slot15.duration = MarketDuration::M15;
    assert_eq!(slot15.market_key(), "BTC@15m");

    let mut slot1h = test_slot("BTC");
    slot1h.duration = MarketDuration::HourlyEt;
    assert_eq!(slot1h.market_key(), "BTC@1h-et");
}

#[test]
fn poly_routing_key_never_crosses_durations() {
    let slot5 = test_slot("BTC");
    let mut slot15 = test_slot("BTC");
    slot15.duration = MarketDuration::M15;
    let slots = [&slot5, &slot15];

    let matches = |key: &str| -> Vec<String> {
        slots.iter().filter(|s| s.market_key() == key).map(|s| s.market_key()).collect()
    };
    assert_eq!(matches("BTC"), vec!["BTC"]);
    assert_eq!(matches("BTC@15m"), vec!["BTC@15m"]);
    assert!(matches("ETH").is_empty());
}

fn trading() -> Vec<String> {
    vec!["BTC".to_string(), "ETH".to_string()]
}

fn command(text: &str, slots: &mut Vec<AssetSlot>) -> CommandResult {
    let mut guard = BalanceGuard::new();
    on_command(&parse_command(text).unwrap(), slots, &mut guard, &trading())
}

fn text_of(r: &CommandResult) -> &str {
    match &r.answer {
        Answer::Text(t) => t,
        Answer::Status => panic!("status"),
    }
}

#[test]
fn apply_control_halt_persists_immediately() {
    let mut slots = vec![test_slot("BTC")];
    let r = command("/halt", &mut slots);
    assert!(slots[0].worker.gate.is_halted());
    assert_eq!(r.touched, vec![0], "the slot is to be saved at once");
    assert!(slots[0].worker.gate.suppressed);
}

#[test]
fn apply_control_resume_persists_immediately() {
    let mut slots = vec![test_slot("BTC")];
    command("/halt", &mut slots);
    assert!(slots[0].worker.gate.suppressed);
    let r = command("/resume btc", &mut slots);
    assert!(!slots[0].worker.gate.is_halted());
    assert_eq!(r.touched, vec![0]);
    assert!(!slots[0].worker.gate.suppressed);
}

fn fall(slots: &mut Vec<AssetSlot>, first: f64, second: f64) -> Vec<Option<String>> {
    let mut tracker = GammaBalanceTracker::new();
    let mut guard = BalanceGuard::new();
    let a = on_balance(slots, &mut tracker, &mut guard, Some(n(first)), &trading(), &arith());
    assert!(a.scoped.is_empty() && !a.all_halted);
    let b = on_balance(slots, &mut tracker, &mut guard, Some(n(second)), &trading(), &arith());
    assert_eq!(b.all_halted, b.notice.is_some());
    vec![b.scoped_notice, b.notice]
}

#[test]
fn apply_balance_halt_persists_immediately() {
    let mut slots = vec![test_slot("ETH")];
    fall(&mut slots, 100.0, 50.0);
    assert!(slots[0].worker.gate.is_halted());
    assert!(slots[0].worker.gate.suppressed);
}

#[test]
fn apply_control_reset_losses_persists_immediately() {
    let mut slots = vec![test_slot("BTC")];
    slots[0].worker.gate.restore(false, 2, None);
    assert!(slots[0].worker.gate.is_halted(), "sanity: loss-streak halt engaged");
    let r = command("/reset_losses", &mut slots);
    assert!(!slots[0].worker.gate.is_halted());
    assert_eq!(r.touched, vec![0]);
    assert_eq!(slots[0].worker.gate.streak.losses(), 0);
}

fn apply_control(slot: &mut AssetSlot, event: ControlEvent) -> ControlEntry {
    slot.worker.gate.control(event);
    control_entry(slot, event.name(), 1_784_000_000, 250, &arith())
}

#[test]
fn resume_reply_note_flags_a_still_active_loss_streak_halt() {
    let mut slot = test_slot("BTC");
    slot.worker.gate.restore(true, 2, None);

    for _ in 0..3 {
        apply_control(&mut slot, ControlEvent::Resume);
        assert!(
            slot.worker.gate.is_halted(),
            "loss-streak halt must survive repeated /resume, matching the incident report"
        );
    }

    let note = loss_streak_still_halted_note(&vec![&slot.worker])
        .expect("note must flag the still-active loss-streak halt");
    assert!(note.contains("BTC/reversal"));
    assert!(note.contains("/reset_losses"));

    apply_control(&mut slot, ControlEvent::ResetLosses);
    assert!(!slot.worker.gate.is_halted());
    assert!(
        loss_streak_still_halted_note(&vec![&slot.worker]).is_none(),
        "note must go away once the loss-streak halt actually clears"
    );
}

#[test]
fn log_control_event_appends_one_json_line_per_call() {
    let mut slot = test_slot("BTC");
    let first = control_entry(&slot, "halt", 1_784_000_000, 250, &arith());
    slot.worker.gate.restore(false, 2, None);
    let second = control_entry(&slot, "halt_engaged", 1_784_000_000, 250, &arith());

    assert_eq!(first.asset, "BTC");
    assert_eq!(first.strategy, "reversal");
    assert_eq!(first.event, "halt");
    assert_eq!(first.is_halted, false);
    assert_eq!(f(first.ts), 1_784_000_000.25);

    assert_eq!(second.event, "halt_engaged");
    assert_eq!(second.halt_losses, 2);
    assert_eq!(second.is_halted, true);
}

#[test]
fn apply_control_logs_the_correct_event_name_per_variant() {
    let mut slot = test_slot("ETH");
    let events: Vec<String> =
        [ControlEvent::Halt, ControlEvent::Resume, ControlEvent::ResetLosses]
            .into_iter()
            .map(|e| apply_control(&mut slot, e).event)
            .collect();
    assert_eq!(events, vec!["halt", "resume", "reset_losses"]);
}

#[test]
fn apply_balance_halt_logs_drawdown_halt_event() {
    let mut slots = vec![test_slot("BTC")];
    let mut tracker = GammaBalanceTracker::new();
    let mut guard = BalanceGuard::new();
    on_balance(&mut slots, &mut tracker, &mut guard, Some(n(100.0)), &trading(), &arith());
    let halt =
        on_balance(&mut slots, &mut tracker, &mut guard, Some(n(50.0)), &trading(), &arith());
    assert!(halt.all_halted);
    let entry = control_entry(&slots[0], halt.event, 1, 0, &arith());
    assert_eq!(entry.event, "drawdown_halt");
    assert_eq!(entry.is_halted, true);
}

#[test]
fn auto_reset_line_empty_when_no_assets() {
    assert_eq!(render_auto_reset_line(&vec![]), "Auto-reset (loss-streak halt): n/a");
}

#[test]
fn auto_reset_line_shows_reversal_and_high_prob_hours() {
    let hp = slot_for("ETH", "high_prob");
    let rev = test_slot("BTC");

    let line = render_auto_reset_line(&vec![rev, hp]);

    assert!(line.contains("reversal 02:00 HKT (BTC)"), "line was: {line}");
    assert!(line.contains("high_prob 08:00 HKT (ETH)"), "line was: {line}");
}

#[test]
fn auto_reset_line_groups_multiple_assets_on_the_same_strategy_and_hour() {
    let line = render_auto_reset_line(&vec![test_slot("BTC"), test_slot("ETH")]);
    assert!(
        line.contains("reversal 02:00 HKT (BTC,ETH)"),
        "same-strategy same-hour assets must be grouped into one entry: {line}"
    );
}

#[test]
fn reset_hours_are_listed_by_strategy_and_hour() {
    let mut late = test_slot("SOL");
    late.params.halt_reset_hour_rev = 12;
    let slots = vec![late, test_slot("BTC"), slot_for("XRP", "v_shape"), slot_for("ETH", "high_prob")];
    assert_eq!(
        render_auto_reset_line(&slots),
        "Auto-reset (loss-streak halt, daily): high_prob 08:00 HKT (ETH) · reversal 02:00 HKT (BTC) · reversal 12:00 HKT (SOL) · v_shape 02:00 HKT (XRP)"
    );
}

#[test]
fn status_shows_every_slot_in_order() {
    let mut rev = test_slot("ETH");
    rev.stats.counts.wins = 2;
    rev.stats.counts.total_pnl = n(0.5);
    rev.stats.last_trade = Some("14:00:00 UP WIN +0.5000".to_string());
    rev.current_slug = Some("eth-updown-5m-1".to_string());
    rev.last_binance = n(2500.0);
    rev.last_poly_up = n(0.6);
    rev.last_poly_dn = n(0.4);
    let mut hp = slot_for("ETH", "high_prob");
    hp.worker.gate.restore(true, 2, None);
    let btc = test_slot("BTC");
    let text = render_status(
        &vec![rev, hp, btc],
        "12:00:00 HKT",
        AccountBalance::Known(n(12.5)),
        &arith(),
        &writer(),
    );
    let expected = "\
📊 <b>STATUS</b>  (12:00:00 HKT)
Balance: $12.5000
Auto-reset (loss-streak halt, daily): high_prob 08:00 HKT (ETH) · reversal 02:00 HKT (ETH,BTC)

<b>TRADE ASSETS</b>
  🟢 active  BTC  strategy=reversal
    sl=0.0000  delta_gate=0.00080  low=0.2000  high=0.6000  halt_after=2L  unwind_pnl=0.0300  sl_pnl=0.2000  unwind_time=0.0s  start=120s  size=$1.00
  🟡 halted (suppressed + loss-streak 2/2)  ETH  strategy=high_prob
    sl=0.4900  delta_gate=0.00040  low=0.8000  high=0.9300  halt_after=2L  unwind_pnl=0.0500  sl_pnl=0.2500  unwind_time=0.0s  size=$1.00
  🟢 active  ETH  strategy=reversal
    sl=0.0000  delta_gate=0.00080  low=0.2000  high=0.6000  halt_after=2L  unwind_pnl=0.0300  sl_pnl=0.2000  unwind_time=0.0s  start=120s  size=$1.00

<b>MARKETS</b>  (12:00:00 HKT)
  BTC  no active cycle yet
  ETH  no active cycle yet

<b>PNL</b>
  Session: 2W/0L/0SL/0UW/0TO  +$0.5000
  BTC: 0W/0L/0SL/0UW/0TO  +$0.0000
    reversal   +$0.0000
  ETH: 0W/0L/0SL/0UW/0TO  +$0.0000
    high_prob  +$0.0000
  ETH: 2W/0L/0SL/0UW/0TO  +$0.5000
    reversal   +$0.5000
    last: 14:00:00 UP WIN +0.5000";
    assert_eq!(text, expected);
}

#[test]
fn a_simulated_run_has_no_balance() {
    let text = render_status(
        &vec![],
        "12:00:00 HKT",
        AccountBalance::NoAccount,
        &arith(),
        &writer(),
    );
    assert!(text.contains("Balance: n/a (dry-run)\n"));
    assert_eq!(AccountBalance::FetchFailed.render(&writer()), "n/a (fetch failed)");
}

#[test]
fn commands_reach_the_slots_they_mean() {
    let mut tagged = test_slot("BTC");
    tagged.duration = MarketDuration::M15;
    let mut slots = vec![test_slot("BTC"), tagged, slot_for("ETH", "high_prob"), test_slot("ETH")];
    let r = command("/halt btc@15m", &mut slots);
    assert_eq!(r.touched, vec![1]);
    assert_eq!(
        text_of(&r),
        "🛑 Halted BTC@15M — new entries suppressed, open positions still managed."
    );
    let r = command("/halt eth HIGH_PROB", &mut slots);
    assert_eq!(r.touched, vec![2]);
    assert!(!slots[3].worker.gate.is_halted());
    let r = command("/resume btc", &mut slots);
    assert_eq!(r.touched, vec![0, 1]);
    assert_eq!(text_of(&r), "▶️ Resumed BTC.");
    let r = command("/halt doge reversal", &mut slots);
    assert!(r.touched.is_empty());
    assert_eq!(text_of(&r), "this driver doesn't manage DOGE/reversal — trading BTC, ETH");
    let r = command("/params", &mut slots);
    assert_eq!(text_of(&r), "not supported by this Rust live driver yet.");
    assert!(matches!(command("/status", &mut slots).answer, Answer::Status));
    let r = command("/halt", &mut slots);
    assert_eq!(r.touched, vec![0, 1, 2, 3]);
    assert_eq!(
        text_of(&r),
        "🛑 Halted all assets (BTC, ETH) — new entries suppressed, open positions still managed."
    );
    assert!(text_of(&command("/help", &mut slots)).contains("/halt"));
    assert_eq!(text_of(&command("/nope", &mut slots)), "Unknown command: /nope");
}

#[test]
fn a_resume_tells_who_stays_halted() {
    let mut slots = vec![test_slot("BTC")];
    slots[0].worker.gate.restore(true, 2, None);
    let r = command("/resume", &mut slots);
    assert_eq!(
        text_of(&r),
        "▶️ Resumed all assets (BTC, ETH).\n⚠️ still halted (loss-streak): BTC/reversal (2/2) — /reset_losses to clear now, or wait for the daily reset."
    );
    let mut guard = BalanceGuard { initial_balance: Some(n(1.0)), halt_fired: true };
    on_command(&parse_command("/resume doge").unwrap(), &mut slots, &mut guard, &trading());
    assert!(guard.is_halted(), "nobody was meant");
    on_command(&parse_command("/resume btc").unwrap(), &mut slots, &mut guard, &trading());
    assert!(!guard.is_halted());
}

#[test]
fn a_fall_of_the_balance_halts_what_waits() {
    let mut slots = vec![confirming("ETH"), test_slot("BTC")];
    let notices = fall(&mut slots, 100.0, 90.0);
    assert!(slots[0].worker.gate.is_halted());
    assert!(!slots[1].worker.gate.is_halted());
    assert!(notices[0].as_ref().unwrap().contains("while ETH/reversal still had a trade pending"));
    assert!(notices[1].is_none());

    let mut slots = vec![test_slot("BTC")];
    assert_eq!(fall(&mut slots, 100.0, 90.0), vec![None, None]);
    assert_eq!(fall(&mut slots, 100.0, 100.5), vec![None, None]);
    assert!(!slots[0].worker.gate.is_halted());
    let notices = fall(&mut slots, 100.0, 60.0);
    assert!(notices[1].as_ref().unwrap().contains("halted new entries on all assets (BTC, ETH)"));
}

#[test]
fn slots_are_found_by_market_and_strategy() {
    let slots = vec![test_slot("BTC"), slot_for("ETH", "high_prob"), test_slot("ETH")];
    assert_eq!(find_slot(&slots, "ETH", "reversal"), Some(2));
    assert_eq!(find_slot(&slots, "ETH@15m", "reversal"), None);
}

#[test]
fn files_are_named_after_run_asset_strategy_and_duration() {
    assert_eq!(
        slot_file("logs", RunMode::Real, SlotFile::Trades, "BTC", "reversal", MarketDuration::M5),
        "logs/live_trades_btc_reversal.csv"
    );
    assert_eq!(
        slot_file("logs", RunMode::Paper, SlotFile::State, "BTC", "high_prob", MarketDuration::H4),
        "logs/paper_state_btc_high_prob_4h.json"
    );
    assert_eq!(
        slot_file("logs", RunMode::DryRun, SlotFile::Quotes, "BTC", "v_shape", MarketDuration::M15),
        "logs/live_quotes_btc_v_shape_15m.csv"
    );
    assert_eq!(
        slot_file("l", RunMode::Real, SlotFile::PupVetoes, "X", "r", MarketDuration::HourlyEt),
        "l/live_pup_vetoes_x_r_1h-et.csv"
    );
    assert_eq!(control_log("logs", RunMode::Real), "logs/control_log.jsonl");
    assert_eq!(control_log("logs", RunMode::Paper), "logs/paper_control_log.jsonl");
    assert_eq!(weather_log("logs"), "logs/live_trades_weather.csv");
}

#[test]
fn a_run_with_a_fault_in_its_configuration_does_not_start() {
    assert_eq!(duration_for("BTC", "15m", false).unwrap(), MarketDuration::M15);
    assert_eq!(duration_for("BTC", "1h-et", true).unwrap(), MarketDuration::HourlyEt);
    assert_eq!(
        duration_for("BTC", "1h-et", false).unwrap_err().message(),
        "asset BTC has no known hourly-ET coin name (see marketdata::hourly_et_coin_name) — cannot trade 1h-et"
    );
    assert!(duration_for("BTC", "1h", true)
        .unwrap_err()
        .message()
        .starts_with("unknown market duration `1h` for asset BTC in [market_durations] (valid: "));
    assert_eq!(
        check_strategies("BTC", &vec![]).unwrap_err().message(),
        "no strategies configured for asset BTC (missing both a `BTC` and `default` entry in the config's [strategies] table)"
    );
    let names = vec!["reversal".to_string(), "martingale".to_string()];
    assert_eq!(
        check_strategies("BTC", &names).unwrap_err().message(),
        "unknown strategy `martingale` for asset BTC (from config)"
    );
    let names = vec!["reversal".to_string(), "high_prob".to_string(), "v_shape".to_string()];
    assert!(check_strategies("BTC", &names).is_ok());
}

#[test]
fn a_restart_takes_up_halts_and_counts() {
    let mut stats = Stats::default();
    stats.counts.wins = 7;
    stats.last_trade = Some("x".to_string());
    let saved = Saved { suppressed: true, losses: 1, last_session: None, stats };
    let slot = new_slot(
        "BTC",
        "high_prob",
        test_params("BTC"),
        n(5.0),
        MarketDuration::M5,
        Some(saved),
    );
    assert!(slot.worker.gate.suppressed);
    assert!(!slot.worker.gate.loss_streak_halted());
    assert_eq!(slot.worker.gate.streak.losses(), 1);
    assert_eq!(slot.worker.gate.streak.max(), 2);
    assert_eq!(slot.worker.gate.streak.reset_hour(), 8);
    assert_eq!(slot.stats.counts.wins, 7);
    assert_eq!(f(slot.params.trade_size_usdc), 5.0);
}

#[test]
fn names_of_durations_read_back() {
    for d in [MarketDuration::M5, MarketDuration::M15, MarketDuration::HourlyEt, MarketDuration::H4] {
        assert_eq!(MarketDuration::parse(d.suffix()), Some(d));
    }
    assert_eq!(MarketDuration::parse("1h"), None);
    assert_eq!(MarketDuration::H4.period_secs(), 14_400);
}

#[test]
fn the_clock_brings_each_boundary_once() {
    let mut slot = test_slot("BTC");
    assert_eq!(on_clock(&mut slot, 600, n(700.0), &arith()), Boundary::SitOut);
    assert_eq!(on_clock(&mut slot, 600, n(701.0), &arith()), Boundary::Same);
    assert_eq!(on_clock(&mut slot, 900, n(960.0), &arith()), Boundary::NoPrice { close: false });
    slot.last_binance = n(50_000.0);
    slot.cycle_trades = 1;
    slot.sl_notified = true;
    let b = on_clock(&mut slot, 1200, n(1200.5), &arith());
    assert_eq!(b, Boundary::Next { close: false });
    settle_boundary(&mut slot, b);
    assert_eq!((slot.cycle_trades, slot.sl_notified), (0, false));
    let ctx = cycle_context(&slot, 1200, &arith());
    assert_eq!((f(ctx.start_ts), f(ctx.end_ts), f(ctx.open_binance)), (1200.0, 1500.0, 50_000.0));
    slot.current_slug = Some("btc-updown-5m-1200".to_string());
    slot.last_binance = n(0.0);
    let b = on_clock(&mut slot, 1500, n(1500.0), &arith());
    assert_eq!(b, Boundary::NoPrice { close: true });
    settle_boundary(&mut slot, b);
    assert_eq!(slot.current_slug, None);
}

#[test]
fn ticks_reach_a_worker_in_its_cycle_only() {
    let mut slot = test_slot("BTC");
    let spot = BinanceTick { ts: n(1.0), price: n(2.0) };
    let quote =
        PolyTick { ts: n(3.0), up: n(0.6), dn: n(0.4), up_bid: n(0.0), up_ask: n(0.0) };
    assert!(!on_binance_tick(&mut slot, spot, Some(n(0.5)), 1));
    assert!(!on_poly_tick(&mut slot, quote, None));
    slot.current_slug = Some("s".to_string());
    assert!(on_binance_tick(&mut slot, spot, None, 1));
    slot.cycle_trades = 1;
    assert!(!on_binance_tick(&mut slot, spot, None, 1));
    assert!(on_poly_tick(&mut slot, quote, Some(n(2.5))));
    assert_eq!(f(slot.last_binance), 2.0);
    assert_eq!(slot.last_binance_ts, Some(n(1.0)));
    assert_eq!(f(slot.last_poly_dn), 0.4);
    assert_eq!(slot.last_poly_server_ts, Some(n(2.5)));
}

#[test]
fn a_resolution_is_waited_for_within_bounds() {
    let cadence = GammaPollCadence {
        deadline_secs: n(30.0),
        poll_delay_secs: n(60.0),
        poll_interval_secs: n(0.0),
    };
    assert_eq!(f(cadence.first_wait()), 30.0);
    assert_eq!(f(cadence.next_wait()), 0.1);
    assert_eq!(watch_step(Some(true), Side::Down, true), WatchStep::Resolved { won: false });
    assert_eq!(watch_step(Some(false), Side::Down, false), WatchStep::Resolved { won: true });
    assert_eq!(watch_step(None, Side::Up, true), WatchStep::GiveUp);
    assert_eq!(watch_step(None, Side::Up, false), WatchStep::LookAgain);
    assert!(matches!(watch_event(Some(true), None), Event::ApiResult { won: true }));
    assert!(matches!(
        watch_event(None, None),
        Event::ApiResultTimeout { balance_increased: false }
    ));
    assert!(matches!(
        watch_event(None, Some(true)),
        Event::ApiResultTimeout { balance_increased: true }
    ));
}

fn record(outcome: Outcome, pnl: f64) -> TradeRecord {
    TradeRecord {
        slug: "btc-updown-5m-1000".to_string(),
        cycle_start: n(1000.0),
        strategy: "reversal",
        side: Side::Down,
        entry_ts: n(1240.0),
        entry_price_ts: n(1240.0),
        token_price: n(0.7),
        exit_price: n(0.73),
        outcome,
        pnl: n(pnl),
        exit_attempts: 1,
        exit_last_error: Some("a,b\nc".to_string()),
        entry_signal_latency_ms: n(1.0),
        entry_process_latency_ms: n(2.0),
        exit_signal_latency_ms: n(3.0),
        exit_process_latency_ms: n(4.5),
    }
}

fn told(slot: &mut AssetSlot, action: Action) -> (Option<String>, Option<&'static str>) {
    let a = report(slot, &action, "12:00:00", &arith(), &writer());
    (a.notice, a.control_event)
}

#[test]
fn trades_are_counted_told_and_corrected() {
    let mut slot = test_slot("BTC");
    let (notice, event) = told(&mut slot, Action::LogTrade(record(Outcome::Loss, -0.25)));
    assert!(notice.unwrap().starts_with("❌"));
    assert_eq!(event, None);
    assert_eq!(slot.cycle_trades, 1);
    assert_eq!((slot.stats.counts.wins, slot.stats.counts.losses), (0, 1));
    assert_eq!(f(slot.stats.counts.total_pnl), -0.25);
    assert!(slot.stats.last_trade.is_some());

    let correction = Action::LogTradeCorrection {
        previous_outcome: Outcome::Loss,
        previous_pnl: n(-0.25),
        record: record(Outcome::Win, 0.5),
    };
    let (notice, event) = told(&mut slot, correction);
    assert!(notice.is_some());
    assert_eq!(event, None);
    assert_eq!((slot.stats.counts.wins, slot.stats.counts.losses), (1, 0));
    assert_eq!(f(slot.stats.counts.total_pnl), 0.5);
    assert_eq!(slot.cycle_trades, 1);
}

#[test]
fn a_timeout_shows_whether_it_gained() {
    let mut slot = test_slot("BTC");
    let (notice, _) = told(&mut slot, Action::LogTrade(record(Outcome::Timeout, 0.1)));
    assert!(notice.unwrap().starts_with("⏱️✅"));
    let (notice, _) = told(&mut slot, Action::LogTrade(record(Outcome::Timeout, -0.1)));
    assert!(notice.unwrap().starts_with("⏱️❌"));
    assert_eq!(slot.stats.counts.timeouts, 2);
}

#[test]
fn halts_are_told_and_logged() {
    let mut slot = test_slot("BTC");
    for (action, name) in [
        (Action::HaltEngaged, "halt_engaged"),
        (Action::HaltReset, "halt_reset"),
        (Action::HaltClearedByCorrection, "halt_cleared_by_correction"),
        (Action::GammaHaltEngaged { record: record(Outcome::Loss, -0.1) }, "gamma_halt_engaged"),
    ] {
        let (notice, event) = told(&mut slot, action);
        assert!(notice.unwrap().contains("BTC"));
        assert_eq!(event, Some(name));
    }
    let costly =
        Action::StopLossVerdict { record: record(Outcome::StopLoss, -0.1), would_have_won: true };
    assert!(told(&mut slot, costly).0.unwrap().contains("COSTLY"));
    let good =
        Action::StopLossVerdict { record: record(Outcome::StopLoss, -0.1), would_have_won: false };
    assert!(told(&mut slot, good).0.unwrap().contains("GOOD"));
    let on = Action::GammaUnresolvedContinued {
        record: record(Outcome::Loss, -0.1),
        entry_suppressed: false,
    };
    assert!(told(&mut slot, on).0.unwrap().contains(" New entries continue normally."));
    assert_eq!(told(&mut slot, Action::Persist), (None, None));
}

#[test]
fn rows_have_the_columns_of_their_headers() {
    let row = trade_row(n(1.5), &record(Outcome::Win, 0.5), &writer());
    assert_eq!(
        row,
        "1.5,btc-updown-5m-1000,reversal,DOWN,1240,0.7,0.73,WIN,0.5,1,a;b c,1,2,3,4.5"
    );
    assert_eq!(row.split(',').count(), CSV_HEADER.split(',').count());
    let row = canceled_quote_row(n(1.0), "s", "reversal", Side::Up, n(0.5), "stale", &writer());
    assert_eq!(row.split(',').count(), CANCELED_QUOTE_CSV_HEADER.split(',').count());
    let row = pup_veto_row(n(1.0), "s", "reversal", Side::Up, n(0.5), n(0.6), &writer());
    assert_eq!(row.split(',').count(), PUP_VETO_CSV_HEADER.split(',').count());
    let row = weather_row(n(1.0), &weather_trade(0.2), &writer());
    assert_eq!(row.split(',').count(), WEATHER_CSV_HEADER.split(',').count());
    assert_eq!(csv_sanitize("a,b\nc"), "a;b c");
}

fn weather_trade(pnl: f64) -> WeatherTrade {
    WeatherTrade {
        city: "nyc".to_string(),
        bucket: "84-85°F".to_string(),
        entry_ts: n(1.0),
        exit_ts: n(2.0),
        entry_price: n(0.6),
        exit_price: n(0.75),
        shares: n(1.6),
        outcome: "UNWIND",
        pnl: n(pnl),
    }
}

#[test]
fn weather_trades_are_told() {
    assert_eq!(
        weather_notice(&weather_trade(0.24), "12:00:00", &writer()),
        "✅ <b>WEATHER nyc UNWIND</b> | 12:00:00 | 84-85°F\nentry=0.6000 → exit=0.7500 | 1.6000 shares | pnl=+$0.2400"
    );
    assert!(weather_notice(&weather_trade(-0.24), "12:00:00", &writer()).ends_with("pnl=-$0.2400"));
}

#[test]
fn the_driver_says_when_it_comes_and_goes() {
    let slots = vec![test_slot("BTC"), slot_for("ETH", "high_prob")];
    assert_eq!(
        start_notice(&slots, n(1.0), 1, &writer()),
        "🟢 live driver started: <b>BTC:reversal, ETH:high_prob</b> (size=$1.00, max_trades=1)"
    );
    assert_eq!(stop_notice(false, &trading()), "🔴 live driver shutting down: BTC, ETH");
    assert_eq!(stop_notice(true, &trading()), "🔴 live driver shutting down (SIGTERM): BTC, ETH");
}

#[test]
fn a_slot_in_a_cycle_shows_life() {
    let mut slot = test_slot("BTC");
    assert_eq!(heartbeat(&slot, n(1200.0), None, &arith(), &writer()), None);
    slot.current_slug = Some("s".to_string());
    slot.worker.cycle_end_ts = n(1300.0);
    slot.last_binance = n(5.0);
    assert_eq!(
        heartbeat(&slot, n(1200.0), Some("p_up=0.6".to_string()), &arith(), &writer()).unwrap(),
        "[live] heartbeat BTC (reversal) slug=s T-100s binance=5.0000 up=0.0000 dn=0.0000 ind[p_up=0.6]"
    );
}

fn held() -> AssetSlot {
    let mut slot = test_slot("BTC");
    slot.up_id = TokenId { high: 0, low: 1 };
    slot.dn_id = TokenId { high: 0, low: 2 };
    slot.last_poly_up = n(0.4);
    slot.last_poly_dn = n(0.6);
    slot.worker.cycle_end_ts = n(1300.0);
    slot
}

fn times() -> OrderTimes {
    OrderTimes {
        signal_ts: n(100.0),
        received_ts: n(100.001),
        confirmed_ts: n(100.5),
        now: n(1200.0),
    }
}

#[test]
fn a_buy_is_planned_for_the_token_of_its_side() {
    let mut slot = held();
    let buy = Action::PlaceBuy {
        side: Side::Down,
        price: n(0.6),
        size_usdc: n(1.0),
        signal_ts: n(100.0),
    };
    match plan_order(&mut slot, &buy) {
        Some(EngineCall::Buy { token, price, max_buy_price, .. }) => {
            assert_eq!(token, TokenId { high: 0, low: 2 });
            assert_eq!((f(price), f(max_buy_price)), (0.6, 0.95));
        }
        call => panic!("{call:?}"),
    }
    assert_eq!(slot.current_token_id, Some(TokenId { high: 0, low: 2 }));
    assert!(plan_order(&mut slot, &Action::Persist).is_none());
    let sale = Action::PlaceLimitSell { shares: n(5.0), price: n(0.8) };
    assert!(plan_order(&mut slot, &sale).is_some());
    slot.current_token_id = None;
    assert!(plan_order(&mut slot, &sale).is_none());
    assert_eq!(seconds_left(&slot, n(1200.5), &arith()), 99);
    assert_eq!(seconds_left(&slot, n(1400.0), &arith()), 0);
}

#[test]
fn the_worker_hears_what_came_of_a_buy() {
    let slot = held();
    let filled = TradeResult {
        placed: true,
        filled_shares: n(1.6),
        cost: n(0.61),
        error: None,
        attempts: 1,
    };
    let r = buy_followup(
        &slot, Side::Down, n(0.6), Feed::Clob, times(), "12:00:00", &filled, &arith(), &writer(),
    );
    match r.event {
        Event::OrderFilled { filled_shares, cost, process_latency_ms, .. } => {
            assert_eq!((f(filled_shares), f(cost)), (1.6, 0.61));
            assert!((f(process_latency_ms) - 500.0).abs() < 1e-6);
        }
        event => panic!("{event:?}"),
    }
    assert!(r.notice.unwrap().contains("BTC"));
    let failed = TradeResult {
        placed: false,
        filled_shares: n(0.0),
        cost: n(0.0),
        error: Some("no".to_string()),
        attempts: 3,
    };
    let r = buy_followup(
        &slot, Side::Down, n(0.6), Feed::Binance, times(), "12:00:00", &failed, &arith(), &writer(),
    );
    assert!(matches!(r.event, Event::OrderRejected));
    assert!(r.notice.is_some());
}

#[test]
fn resting_orders_are_reported() {
    let slot = held();
    let resting = LimitSellResult {
        order_id: Some("0x1".to_string()),
        status: SellStatus::Live,
        error: None,
    };
    let r = limit_sell_followup(n(100.0), n(100.25), resting.clone(), &arith());
    assert!(matches!(r.event, Event::LimitSellPlaced { status: SellStatus::Live, .. }));
    assert!(r.notice.is_none());
    let r = limit_buy_followup(
        &slot, Side::Up, n(0.4), n(5.0), times(), "12:00:00", resting, &arith(), &writer(),
    );
    assert!(matches!(r.event, Event::LimitBuyPlaced { status: SellStatus::Live, .. }));
    assert!(r.notice.is_some());
    assert!(matches!(resting_fill_event(true, n(1.0), n(0.5)), Event::UnwindFilled { .. }));
    assert!(matches!(resting_fill_event(false, n(1.0), n(0.5)), Event::EntryQuoteFilled { .. }));
}

#[test]
fn a_close_is_announced_once_and_followed_up() {
    let mut slot = held();
    let token = TokenId { high: 0, low: 2 };
    slot.current_token_id = Some(token);
    let alert = |slot: &mut AssetSlot, reason| {
        close_alert(slot, token, reason, n(1200.0), "12:00:00", &arith(), &writer())
    };
    assert!(alert(&mut slot, CloseReason::StopLoss).is_some());
    assert!(alert(&mut slot, CloseReason::StopLoss).is_none());
    assert!(alert(&mut slot, CloseReason::Timeout).is_some());
    assert!(alert(&mut slot, CloseReason::TakeProfit).is_none());

    let mut result = CloseResult {
        filled_usdc: n(0.0),
        status: SellStatus::Matched,
        shares_sold: n(2.0),
        error: None,
        attempts: 1,
    };
    price_dry_run(RunMode::Real, &slot, token, &mut result, &arith());
    assert_eq!(f(result.filled_usdc), 0.0);
    price_dry_run(RunMode::DryRun, &slot, token, &mut result, &arith());
    assert_eq!(f(result.filled_usdc), 2.0 * 0.6);
    let r = close_followup(
        &mut slot, n(2.0), CloseReason::StopLoss, times(), "12:00:00", result, &arith(), &writer(),
    );
    assert!(matches!(r.event, Event::StopSellFilled { .. }));
    assert!(r.notice.is_some());
    assert_eq!(slot.current_token_id, None);
}

#[test]
fn only_five_minute_prices_come_from_the_publisher() {
    let mut slot = test_slot("BTC");
    let shared = vec!["BTC@15m".to_string()];
    assert_eq!(price_source(&slot, true, &shared), PriceSource::Publisher);
    assert_eq!(price_source(&slot, false, &shared), PriceSource::OwnStream);
    slot.duration = MarketDuration::M15;
    assert_eq!(price_source(&slot, true, &vec![]), PriceSource::NewShared);
    assert_eq!(price_source(&slot, false, &shared), PriceSource::OldShared);
}

#[test]
fn a_losing_timeout_counts_for_the_halt() {
    assert!(Outcome::Loss.is_loss_for_halt(n(0.1)));
    assert!(Outcome::StopLoss.is_loss_for_halt(n(0.1)));
    assert!(Outcome::Timeout.is_loss_for_halt(n(-0.1)));
    assert!(!Outcome::Timeout.is_loss_for_halt(n(0.0)));
    assert!(!Outcome::Unwind.is_loss_for_halt(n(-0.1)));
    assert!(!Outcome::Win.is_loss_for_halt(n(-0.1)));
}

#[test]
fn a_fill_goes_to_the_slot_with_the_order() {
    let id = |text: &str| Some(text.to_string());
    let closing = vec![None, id("a"), id("b")];
    let opening = vec![id("b"), None, id("c")];
    assert_eq!(fill_owner(true, "b", &closing, &opening), Some(2));
    assert_eq!(fill_owner(false, "b", &closing, &opening), Some(0));
    assert_eq!(fill_owner(false, "a", &closing, &opening), None);
    assert_eq!(fill_owner(true, "c", &closing, &opening), None);
}

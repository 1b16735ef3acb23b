use trader::num::{num, Arith, Layout, Num, Op, Writer};
use trader::report::{
    format_csv, format_table, replay_refusal, watch_row, watch_turn, WatchTurn, WATCH_CSV_HEADER,
};
use trader::types::{Outcome, Side, TradeRecord};

fn n(x: f64) -> Num {
    num(x.to_bits())
}

fn f(x: Num) -> f64 {
    f64::from_bits(x.bits)
}

fn unit(op: Op, a: Num, b: Num) -> Num {
    match op {
        Op::Plus => n(f(a) + f(b)),
        Op::Minus => n(f(a) - f(b)),
        Op::Times => n(f(a) * f(b)),
        Op::Over => n(f(a) / f(b)),
        Op::Round => n(f(a).round()),
        Op::Floor => n(f(a).floor()),
        Op::FromSigned => n((a.bits as i64) as f64),
        Op::FromUnsigned => n(a.bits as f64),
        Op::ToSigned => num((f(a) as i64) as u64),
        Op::ToUnsigned => num(f(a) as u64),
    }
}

fn arith() -> Arith<impl Fn(Op, Num, Num) -> Num> {
    Arith::new(unit)
}

fn written(x: Num, layout: Layout) -> String {
    match layout {
        Layout::Plain => format!("{}", f(x)),
        Layout::Fixed(d) => format!("{:.*}", d as usize, f(x)),
        Layout::Signed(d) => format!("{:+.*}", d as usize, f(x)),
    }
}

fn writer() -> Writer<impl Fn(Num, Layout) -> String> {
    Writer::new(written)
}

fn sample_trade() -> TradeRecord {
    TradeRecord {
        slug: "eth-updown-5m-1783046100".to_string(),
        cycle_start: n(1783046100.0),
        strategy: "high_prob",
        side: Side::Up,
        entry_ts: n(1783046105.0),
        entry_price_ts: n(1783046105.0),
        token_price: n(0.93),
        exit_price: n(1.0),
        outcome: Outcome::Win,
        pnl: n(0.0753),
        exit_attempts: 0,
        exit_last_error: None,
        entry_signal_latency_ms: n(0.0),
        entry_process_latency_ms: n(0.0),
        exit_signal_latency_ms: n(0.0),
        exit_process_latency_ms: n(0.0),
    }
}

#[test]
fn csv_header_always_present_even_with_no_trades() {
    assert_eq!(
        format_csv(&[], &writer()),
        "slug,strategy,side,token_price,exit_price,outcome,pnl,entry_ts\n"
    );
}

#[test]
fn csv_row_matches_trade_fields() {
    let out = format_csv(&[sample_trade()], &writer());
    let mut lines = out.lines();
    assert_eq!(
        lines.next().unwrap(),
        "slug,strategy,side,token_price,exit_price,outcome,pnl,entry_ts"
    );
    assert_eq!(
        lines.next().unwrap(),
        "eth-updown-5m-1783046100,high_prob,UP,0.930000,1.000000,WIN,0.075300,1783046105.000"
    );
    assert!(lines.next().is_none(), "csv format prints no summary line");
}

#[test]
fn csv_rows_have_no_trailing_summary_or_separator_lines() {
    let out = format_csv(&[sample_trade(), sample_trade()], &writer());
    assert_eq!(out.lines().count(), 3);
    assert!(!out.contains("Total:"));
    assert!(!out.contains("---"));
}

#[test]
fn table_format_prints_no_trades_message_when_empty() {
    assert_eq!(format_table(&[], &arith(), &writer()), "No trades.\n");
}

#[test]
fn table_format_includes_totals_line() {
    let out = format_table(&[sample_trade()], &arith(), &writer());
    assert!(out.contains("eth-updown-5m-1783046100"));
    assert!(out.contains("Total: trades=1 wins=1 losses=0 stoplosses=0 unwinds=0 timeouts=0"));
}

#[test]
fn table_is_aligned() {
    let mut lost = sample_trade();
    lost.outcome = Outcome::Timeout;
    lost.side = Side::Down;
    lost.pnl = n(-0.5);
    let out = format_table(&[sample_trade(), lost], &arith(), &writer());
    let expected = format!(
        "{:<35} {:<10} {:<5} {:>10} {:>14} {:<10} {:>8}\n{}\n{:<35} {:<10} {:<5} {:>10.3} {:>14.3} {:<10} {:>8.4}\n{:<35} {:<10} {:<5} {:>10.3} {:>14.3} {:<10} {:>8.4}\n\nTotal: trades=2 wins=1 losses=0 stoplosses=0 unwinds=0 timeouts=1 pnl=-0.4247\n",
        "slug", "strategy", "side", "token_px", "exit_token_px", "outcome", "pnl",
        "-".repeat(100),
        "eth-updown-5m-1783046100", "high_prob", "UP", 0.93, 1.0, "WIN", 0.0753,
        "eth-updown-5m-1783046100", "high_prob", "DOWN", 0.93, 1.0, "TIMEOUT", -0.5,
    );
    assert_eq!(out, expected);
}

#[test]
fn only_recorded_lengths_can_be_replayed() {
    assert!(replay_refusal("5m").is_none());
    assert!(replay_refusal("15m").is_none());
    assert!(replay_refusal("4h").is_none());
    assert_eq!(
        replay_refusal("1h-et").unwrap(),
        "--duration must be one of 5m/15m/4h (got `1h-et`) — hourly-ET and weather markets have no recorded tick history to replay"
    );
}

#[test]
fn watched_trades_have_nine_columns() {
    let row = watch_row(n(1783046400.5), &sample_trade(), &writer());
    assert_eq!(
        row,
        "1783046400.5,eth-updown-5m-1783046100,high_prob,UP,1783046105,0.93,1,WIN,0.0753"
    );
    assert_eq!(row.split(',').count(), WATCH_CSV_HEADER.split(',').count());
}

#[test]
fn a_watched_cycle_opens_only_with_a_price() {
    assert_eq!(watch_turn(600, 600, true, n(1.0)), WatchTurn::Same);
    assert_eq!(watch_turn(900, 600, true, n(0.0)), WatchTurn::NoPrice { close: true });
    assert_eq!(watch_turn(900, 600, false, n(1.0)), WatchTurn::Next { close: false });
}

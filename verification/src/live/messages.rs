//! What the driver says.

use vstd::prelude::*;
use vstd::string::StringExecFns;

use crate::num::{Layout, Num, Writer};
use crate::text::{decimal, decimal_text, signed_decimal, signed_text};

verus! {

pub open spec fn order_placed_text(
    market: Seq<char>,
    time: Seq<char>,
    left: i64,
    side: Seq<char>,
    strategy: Seq<char>,
    cost: Num,
    delta: Num,
    clob: Seq<char>,
    binance: Seq<char>,
    process_ms: Num,
    attempts: u32,
    write: spec_fn(Num, Layout) -> Seq<char>,
) -> Seq<char> {
    "📋 <b>"@
        + market
        + "</b> Order placed | "@
        + time
        + " | T-"@
        + signed_decimal(left as int)
        + "s | "@
        + side
        + " | "@
        + strategy
        + "\nprice="@
        + write(cost, Layout::Fixed(4))
        + " | delta="@
        + write(delta, Layout::Signed(3))
        + "% | "@
        + clob
        + " | "@
        + binance
        + " | process_latency="@
        + write(process_ms, Layout::Fixed(0))
        + "ms | n_attempts="@
        + decimal(attempts as nat)
}

/// A buy was filled.
pub fn order_placed<W: Fn(Num, Layout) -> String>(
    market: &str,
    time: &str,
    left: i64,
    side: &str,
    strategy: &str,
    cost: Num,
    delta: Num,
    clob: &str,
    binance: &str,
    process_ms: Num,
    attempts: u32,
    writer: &Writer<W>,
) -> (r: String)
    ensures
        r@ == order_placed_text(market@, time@, left, side@, strategy@, cost, delta, clob@, binance@, process_ms, attempts, writer@),
{
    let mut r = "📋 <b>".to_owned();
    r.append(market);
    r.append("</b> Order placed | ");
    r.append(time);
    r.append(" | T-");
    r.append(signed_text(left).as_str());
    r.append("s | ");
    r.append(side);
    r.append(" | ");
    r.append(strategy);
    r.append("\nprice=");
    r.append(writer.write(cost, Layout::Fixed(4)).as_str());
    r.append(" | delta=");
    r.append(writer.write(delta, Layout::Signed(3)).as_str());
    r.append("% | ");
    r.append(clob);
    r.append(" | ");
    r.append(binance);
    r.append(" | process_latency=");
    r.append(writer.write(process_ms, Layout::Fixed(0)).as_str());
    r.append("ms | n_attempts=");
    r.append(decimal_text(attempts as u64).as_str());
    assert(r@ =~= order_placed_text(market@, time@, left, side@, strategy@, cost, delta, clob@, binance@, process_ms, attempts, writer@));
    r
}

pub open spec fn order_rejected_text(
    market: Seq<char>,
    time: Seq<char>,
    left: i64,
    side: Seq<char>,
    strategy: Seq<char>,
    price: Num,
    delta: Num,
    attempts: u32,
    error: Seq<char>,
    write: spec_fn(Num, Layout) -> Seq<char>,
) -> Seq<char> {
    "❗ <b>"@
        + market
        + "</b> Order REJECTED | "@
        + time
        + " | T-"@
        + signed_decimal(left as int)
        + "s | "@
        + side
        + " | "@
        + strategy
        + "\nsignal price="@
        + write(price, Layout::Fixed(4))
        + " | delta="@
        + write(delta, Layout::Signed(3))
        + "% | n_attempts="@
        + decimal(attempts as nat)
        + " | error="@
        + error
}

/// A buy was not filled.
pub fn order_rejected<W: Fn(Num, Layout) -> String>(
    market: &str,
    time: &str,
    left: i64,
    side: &str,
    strategy: &str,
    price: Num,
    delta: Num,
    attempts: u32,
    error: &str,
    writer: &Writer<W>,
) -> (r: String)
    ensures
        r@ == order_rejected_text(market@, time@, left, side@, strategy@, price, delta, attempts, error@, writer@),
{
    let mut r = "❗ <b>".to_owned();
    r.append(market);
    r.append("</b> Order REJECTED | ");
    r.append(time);
    r.append(" | T-");
    r.append(signed_text(left).as_str());
    r.append("s | ");
    r.append(side);
    r.append(" | ");
    r.append(strategy);
    r.append("\nsignal price=");
    r.append(writer.write(price, Layout::Fixed(4)).as_str());
    r.append(" | delta=");
    r.append(writer.write(delta, Layout::Signed(3)).as_str());
    r.append("% | n_attempts=");
    r.append(decimal_text(attempts as u64).as_str());
    r.append(" | error=");
    r.append(error);
    assert(r@ =~= order_rejected_text(market@, time@, left, side@, strategy@, price, delta, attempts, error@, writer@));
    r
}

pub open spec fn quote_resting_text(
    market: Seq<char>,
    time: Seq<char>,
    left: i64,
    side: Seq<char>,
    strategy: Seq<char>,
    shares: Num,
    price: Num,
    write: spec_fn(Num, Layout) -> Seq<char>,
) -> Seq<char> {
    "📝 <b>"@
        + market
        + "</b> Maker quote resting | "@
        + time
        + " | T-"@
        + signed_decimal(left as int)
        + "s | "@
        + side
        + " | "@
        + strategy
        + "\nBUY "@
        + write(shares, Layout::Fixed(2))
        + "sh @ "@
        + write(price, Layout::Fixed(4))
}

/// A quote rests in the book.
pub fn quote_resting<W: Fn(Num, Layout) -> String>(
    market: &str,
    time: &str,
    left: i64,
    side: &str,
    strategy: &str,
    shares: Num,
    price: Num,
    writer: &Writer<W>,
) -> (r: String)
    ensures
        r@ == quote_resting_text(market@, time@, left, side@, strategy@, shares, price, writer@),
{
    let mut r = "📝 <b>".to_owned();
    r.append(market);
    r.append("</b> Maker quote resting | ");
    r.append(time);
    r.append(" | T-");
    r.append(signed_text(left).as_str());
    r.append("s | ");
    r.append(side);
    r.append(" | ");
    r.append(strategy);
    r.append("\nBUY ");
    r.append(writer.write(shares, Layout::Fixed(2)).as_str());
    r.append("sh @ ");
    r.append(writer.write(price, Layout::Fixed(4)).as_str());
    assert(r@ =~= quote_resting_text(market@, time@, left, side@, strategy@, shares, price, writer@));
    r
}

pub open spec fn stop_triggered_text(
    market: Seq<char>,
    time: Seq<char>,
    left: i64,
    side: Seq<char>,
    strategy: Seq<char>,
    price: Num,
    delta: Num,
    write: spec_fn(Num, Layout) -> Seq<char>,
) -> Seq<char> {
    "🛑 <b>"@
        + market
        + "</b> STOP LOSS triggered | "@
        + time
        + " | T-"@
        + signed_decimal(left as int)
        + "s | "@
        + side
        + " | "@
        + strategy
        + "\nprice="@
        + write(price, Layout::Fixed(4))
        + " | delta="@
        + write(delta, Layout::Signed(3))
        + "%"@
}

/// A stop asks to close.
pub fn stop_triggered<W: Fn(Num, Layout) -> String>(
    market: &str,
    time: &str,
    left: i64,
    side: &str,
    strategy: &str,
    price: Num,
    delta: Num,
    writer: &Writer<W>,
) -> (r: String)
    ensures
        r@ == stop_triggered_text(market@, time@, left, side@, strategy@, price, delta, writer@),
{
    let mut r = "🛑 <b>".to_owned();
    r.append(market);
    r.append("</b> STOP LOSS triggered | ");
    r.append(time);
    r.append(" | T-");
    r.append(signed_text(left).as_str());
    r.append("s | ");
    r.append(side);
    r.append(" | ");
    r.append(strategy);
    r.append("\nprice=");
    r.append(writer.write(price, Layout::Fixed(4)).as_str());
    r.append(" | delta=");
    r.append(writer.write(delta, Layout::Signed(3)).as_str());
    r.append("%");
    assert(r@ =~= stop_triggered_text(market@, time@, left, side@, strategy@, price, delta, writer@));
    r
}

pub open spec fn timeout_triggered_text(
    market: Seq<char>,
    time: Seq<char>,
    left: i64,
    side: Seq<char>,
    strategy: Seq<char>,
    price: Num,
    write: spec_fn(Num, Layout) -> Seq<char>,
) -> Seq<char> {
    "⏱️ <b>"@
        + market
        + "</b> TIME LIMIT triggered | "@
        + time
        + " | T-"@
        + signed_decimal(left as int)
        + "s | "@
        + side
        + " | "@
        + strategy
        + "\nprice="@
        + write(price, Layout::Fixed(4))
        + " | max holding time elapsed — closing at market"@
}

/// The allowed time is over.
pub fn timeout_triggered<W: Fn(Num, Layout) -> String>(
    market: &str,
    time: &str,
    left: i64,
    side: &str,
    strategy: &str,
    price: Num,
    writer: &Writer<W>,
) -> (r: String)
    ensures
        r@ == timeout_triggered_text(market@, time@, left, side@, strategy@, price, writer@),
{
    let mut r = "⏱️ <b>".to_owned();
    r.append(market);
    r.append("</b> TIME LIMIT triggered | ");
    r.append(time);
    r.append(" | T-");
    r.append(signed_text(left).as_str());
    r.append("s | ");
    r.append(side);
    r.append(" | ");
    r.append(strategy);
    r.append("\nprice=");
    r.append(writer.write(price, Layout::Fixed(4)).as_str());
    r.append(" | max holding time elapsed — closing at market");
    assert(r@ =~= timeout_triggered_text(market@, time@, left, side@, strategy@, price, writer@));
    r
}

pub open spec fn close_executed_text(
    market: Seq<char>,
    label: Seq<char>,
    time: Seq<char>,
    strategy: Seq<char>,
    sold: Num,
    exit_price: Num,
    usdc: Num,
    clob: Seq<char>,
    process_ms: Num,
    attempts: u32,
    write: spec_fn(Num, Layout) -> Seq<char>,
) -> Seq<char> {
    "📤 <b>"@
        + market
        + "</b> "@
        + label
        + " order executed | "@
        + time
        + " | "@
        + strategy
        + "\nsold="@
        + write(sold, Layout::Fixed(4))
        + " @ "@
        + write(exit_price, Layout::Fixed(4))
        + " = $"@
        + write(usdc, Layout::Fixed(4))
        + " | "@
        + clob
        + " | process_latency="@
        + write(process_ms, Layout::Fixed(0))
        + "ms | n_attempts="@
        + decimal(attempts as nat)
}

/// A position was sold.
pub fn close_executed<W: Fn(Num, Layout) -> String>(
    market: &str,
    label: &str,
    time: &str,
    strategy: &str,
    sold: Num,
    exit_price: Num,
    usdc: Num,
    clob: &str,
    process_ms: Num,
    attempts: u32,
    writer: &Writer<W>,
) -> (r: String)
    ensures
        r@ == close_executed_text(market@, label@, time@, strategy@, sold, exit_price, usdc, clob@, process_ms, attempts, writer@),
{
    let mut r = "📤 <b>".to_owned();
    r.append(market);
    r.append("</b> ");
    r.append(label);
    r.append(" order executed | ");
    r.append(time);
    r.append(" | ");
    r.append(strategy);
    r.append("\nsold=");
    r.append(writer.write(sold, Layout::Fixed(4)).as_str());
    r.append(" @ ");
    r.append(writer.write(exit_price, Layout::Fixed(4)).as_str());
    r.append(" = $");
    r.append(writer.write(usdc, Layout::Fixed(4)).as_str());
    r.append(" | ");
    r.append(clob);
    r.append(" | process_latency=");
    r.append(writer.write(process_ms, Layout::Fixed(0)).as_str());
    r.append("ms | n_attempts=");
    r.append(decimal_text(attempts as u64).as_str());
    assert(r@ =~= close_executed_text(market@, label@, time@, strategy@, sold, exit_price, usdc, clob@, process_ms, attempts, writer@));
    r
}

pub open spec fn latency_note_text(
    feed: Seq<char>,
    latency: Seq<char>,
    tag: Seq<char>,
) -> Seq<char> {
    feed
        + "_latency="@
        + latency
        + " ("@
        + tag
        + ")"@
}

/// How late a feed was, and which tick counted.
pub fn latency_note(
    feed: &str,
    latency: &str,
    tag: &str,
) -> (r: String)
    ensures
        r@ == latency_note_text(feed@, latency@, tag@),
{
    let mut r = feed.to_owned();
    r.append("_latency=");
    r.append(latency);
    r.append(" (");
    r.append(tag);
    r.append(")");
    assert(r@ =~= latency_note_text(feed@, latency@, tag@));
    r
}

pub open spec fn trade_summary_text(
    time: Seq<char>,
    side: Seq<char>,
    outcome: Seq<char>,
    pnl: Num,
    write: spec_fn(Num, Layout) -> Seq<char>,
) -> Seq<char> {
    time
        + " "@
        + side
        + " "@
        + outcome
        + " pnl="@
        + write(pnl, Layout::Fixed(4))
}

/// A trade on one line.
pub fn trade_summary<W: Fn(Num, Layout) -> String>(
    time: &str,
    side: &str,
    outcome: &str,
    pnl: Num,
    writer: &Writer<W>,
) -> (r: String)
    ensures
        r@ == trade_summary_text(time@, side@, outcome@, pnl, writer@),
{
    let mut r = time.to_owned();
    r.append(" ");
    r.append(side);
    r.append(" ");
    r.append(outcome);
    r.append(" pnl=");
    r.append(writer.write(pnl, Layout::Fixed(4)).as_str());
    assert(r@ =~= trade_summary_text(time@, side@, outcome@, pnl, writer@));
    r
}

pub open spec fn trade_closed_text(
    icon: Seq<char>,
    market: Seq<char>,
    outcome: Seq<char>,
    time: Seq<char>,
    side: Seq<char>,
    strategy: Seq<char>,
    entry: Num,
    exit: Num,
    open: Num,
    last: Num,
    delta: Num,
    sign: Seq<char>,
    pnl: Num,
    wins: u32,
    losses: u32,
    write: spec_fn(Num, Layout) -> Seq<char>,
) -> Seq<char> {
    icon
        + " <b>"@
        + market
        + " TRADE "@
        + outcome
        + "</b> | "@
        + time
        + " | "@
        + side
        + " | "@
        + strategy
        + "\nentry="@
        + write(entry, Layout::Fixed(4))
        + " → exit="@
        + write(exit, Layout::Fixed(4))
        + " | cycle: $"@
        + write(open, Layout::Fixed(2))
        + "→$"@
        + write(last, Layout::Fixed(2))
        + " | delta="@
        + write(delta, Layout::Signed(3))
        + "% | pnl="@
        + sign
        + "$"@
        + write(pnl, Layout::Fixed(4))
        + " | "@
        + decimal(wins as nat)
        + "W/"@
        + decimal(losses as nat)
        + "L"@
}

/// A trade is over.
pub fn trade_closed<W: Fn(Num, Layout) -> String>(
    icon: &str,
    market: &str,
    outcome: &str,
    time: &str,
    side: &str,
    strategy: &str,
    entry: Num,
    exit: Num,
    open: Num,
    last: Num,
    delta: Num,
    sign: &str,
    pnl: Num,
    wins: u32,
    losses: u32,
    writer: &Writer<W>,
) -> (r: String)
    ensures
        r@ == trade_closed_text(icon@, market@, outcome@, time@, side@, strategy@, entry, exit, open, last, delta, sign@, pnl, wins, losses, writer@),
{
    let mut r = icon.to_owned();
    r.append(" <b>");
    r.append(market);
    r.append(" TRADE ");
    r.append(outcome);
    r.append("</b> | ");
    r.append(time);
    r.append(" | ");
    r.append(side);
    r.append(" | ");
    r.append(strategy);
    r.append("\nentry=");
    r.append(writer.write(entry, Layout::Fixed(4)).as_str());
    r.append(" → exit=");
    r.append(writer.write(exit, Layout::Fixed(4)).as_str());
    r.append(" | cycle: $");
    r.append(writer.write(open, Layout::Fixed(2)).as_str());
    r.append("→$");
    r.append(writer.write(last, Layout::Fixed(2)).as_str());
    r.append(" | delta=");
    r.append(writer.write(delta, Layout::Signed(3)).as_str());
    r.append("% | pnl=");
    r.append(sign);
    r.append("$");
    r.append(writer.write(pnl, Layout::Fixed(4)).as_str());
    r.append(" | ");
    r.append(decimal_text(wins as u64).as_str());
    r.append("W/");
    r.append(decimal_text(losses as u64).as_str());
    r.append("L");
    assert(r@ =~= trade_closed_text(icon@, market@, outcome@, time@, side@, strategy@, entry, exit, open, last, delta, sign@, pnl, wins, losses, writer@));
    r
}

pub open spec fn result_corrected_text(
    market: Seq<char>,
    time: Seq<char>,
    strategy: Seq<char>,
    previous: Seq<char>,
    outcome: Seq<char>,
    previous_sign: Seq<char>,
    previous_pnl: Num,
    sign: Seq<char>,
    pnl: Num,
    write: spec_fn(Num, Layout) -> Seq<char>,
) -> Seq<char> {
    "⚠️ <b>"@
        + market
        + " RESULT CORRECTED</b> | "@
        + time
        + " | "@
        + strategy
        + "\nestimated="@
        + previous
        + " → API="@
        + outcome
        + " | pnl "@
        + previous_sign
        + write(previous_pnl, Layout::Fixed(4))
        + " → "@
        + sign
        + write(pnl, Layout::Fixed(4))
}

/// The market resolved otherwise than was thought.
pub fn result_corrected<W: Fn(Num, Layout) -> String>(
    market: &str,
    time: &str,
    strategy: &str,
    previous: &str,
    outcome: &str,
    previous_sign: &str,
    previous_pnl: Num,
    sign: &str,
    pnl: Num,
    writer: &Writer<W>,
) -> (r: String)
    ensures
        r@ == result_corrected_text(market@, time@, strategy@, previous@, outcome@, previous_sign@, previous_pnl, sign@, pnl, writer@),
{
    let mut r = "⚠️ <b>".to_owned();
    r.append(market);
    r.append(" RESULT CORRECTED</b> | ");
    r.append(time);
    r.append(" | ");
    r.append(strategy);
    r.append("\nestimated=");
    r.append(previous);
    r.append(" → API=");
    r.append(outcome);
    r.append(" | pnl ");
    r.append(previous_sign);
    r.append(writer.write(previous_pnl, Layout::Fixed(4)).as_str());
    r.append(" → ");
    r.append(sign);
    r.append(writer.write(pnl, Layout::Fixed(4)).as_str());
    assert(r@ =~= result_corrected_text(market@, time@, strategy@, previous@, outcome@, previous_sign@, previous_pnl, sign@, pnl, writer@));
    r
}

pub open spec fn stop_verdict_text(
    icon: Seq<char>,
    market: Seq<char>,
    verdict: Seq<char>,
    time: Seq<char>,
    strategy: Seq<char>,
    note: Seq<char>,
) -> Seq<char> {
    icon
        + " <b>"@
        + market
        + " STOP "@
        + verdict
        + "</b> | "@
        + time
        + " | "@
        + strategy
        + "\n"@
        + note
}

/// Whether a stop was worth it.
pub fn stop_verdict(
    icon: &str,
    market: &str,
    verdict: &str,
    time: &str,
    strategy: &str,
    note: &str,
) -> (r: String)
    ensures
        r@ == stop_verdict_text(icon@, market@, verdict@, time@, strategy@, note@),
{
    let mut r = icon.to_owned();
    r.append(" <b>");
    r.append(market);
    r.append(" STOP ");
    r.append(verdict);
    r.append("</b> | ");
    r.append(time);
    r.append(" | ");
    r.append(strategy);
    r.append("\n");
    r.append(note);
    assert(r@ =~= stop_verdict_text(icon@, market@, verdict@, time@, strategy@, note@));
    r
}

pub open spec fn halt_engaged_text(
    market: Seq<char>,
    time: Seq<char>,
    strategy: Seq<char>,
    losses: i64,
) -> Seq<char> {
    "🟡 <b>"@
        + market
        + " HALTED</b> | "@
        + time
        + " | "@
        + strategy
        + "\n"@
        + signed_decimal(losses as int)
        + " consecutive losses — new entries suppressed until the next daily reset (or /resume)."@
}

/// Losses halted a worker.
pub fn halt_engaged(
    market: &str,
    time: &str,
    strategy: &str,
    losses: i64,
) -> (r: String)
    ensures
        r@ == halt_engaged_text(market@, time@, strategy@, losses),
{
    let mut r = "🟡 <b>".to_owned();
    r.append(market);
    r.append(" HALTED</b> | ");
    r.append(time);
    r.append(" | ");
    r.append(strategy);
    r.append("\n");
    r.append(signed_text(losses).as_str());
    r.append(" consecutive losses — new entries suppressed until the next daily reset (or /resume).");
    assert(r@ =~= halt_engaged_text(market@, time@, strategy@, losses));
    r
}

pub open spec fn halt_reset_text(
    market: Seq<char>,
    time: Seq<char>,
    strategy: Seq<char>,
) -> Seq<char> {
    "🟢 <b>"@
        + market
        + " HALT RESET</b> | "@
        + time
        + " | "@
        + strategy
        + "\nDaily loss-streak reset — new entries re-armed."@
}

/// A new session ended a halt.
pub fn halt_reset(
    market: &str,
    time: &str,
    strategy: &str,
) -> (r: String)
    ensures
        r@ == halt_reset_text(market@, time@, strategy@),
{
    let mut r = "🟢 <b>".to_owned();
    r.append(market);
    r.append(" HALT RESET</b> | ");
    r.append(time);
    r.append(" | ");
    r.append(strategy);
    r.append("\nDaily loss-streak reset — new entries re-armed.");
    assert(r@ =~= halt_reset_text(market@, time@, strategy@));
    r
}

pub open spec fn halt_cleared_text(
    market: Seq<char>,
    time: Seq<char>,
    strategy: Seq<char>,
) -> Seq<char> {
    "🟢 <b>"@
        + market
        + " HALT CLEARED</b> | "@
        + time
        + " | "@
        + strategy
        + "\nA Gamma correction reversed one of the counted losses — new entries re-armed."@
}

/// A correction ended a halt.
pub fn halt_cleared(
    market: &str,
    time: &str,
    strategy: &str,
) -> (r: String)
    ensures
        r@ == halt_cleared_text(market@, time@, strategy@),
{
    let mut r = "🟢 <b>".to_owned();
    r.append(market);
    r.append(" HALT CLEARED</b> | ");
    r.append(time);
    r.append(" | ");
    r.append(strategy);
    r.append("\nA Gamma correction reversed one of the counted losses — new entries re-armed.");
    assert(r@ =~= halt_cleared_text(market@, time@, strategy@));
    r
}

pub open spec fn gamma_halted_text(
    market: Seq<char>,
    time: Seq<char>,
    strategy: Seq<char>,
    slug: Seq<char>,
    deadline: Num,
    outcome: Seq<char>,
    sign: Seq<char>,
    pnl: Num,
    write: spec_fn(Num, Layout) -> Seq<char>,
) -> Seq<char> {
    "🔴 <b>"@
        + market
        + " GAMMA UNRESOLVED — HALTED</b> | "@
        + time
        + " | "@
        + strategy
        + "\nNo Polymarket resolution for "@
        + slug
        + " within "@
        + write(deadline, Layout::Fixed(0))
        + "s of cycle close — kept provisional "@
        + outcome
        + " (pnl "@
        + sign
        + write(pnl, Layout::Fixed(4))
        + ", unverified). New entries suppressed until /resume; please verify manually."@
}

/// A market did not resolve, and the worker is halted.
pub fn gamma_halted<W: Fn(Num, Layout) -> String>(
    market: &str,
    time: &str,
    strategy: &str,
    slug: &str,
    deadline: Num,
    outcome: &str,
    sign: &str,
    pnl: Num,
    writer: &Writer<W>,
) -> (r: String)
    ensures
        r@ == gamma_halted_text(market@, time@, strategy@, slug@, deadline, outcome@, sign@, pnl, writer@),
{
    let mut r = "🔴 <b>".to_owned();
    r.append(market);
    r.append(" GAMMA UNRESOLVED — HALTED</b> | ");
    r.append(time);
    r.append(" | ");
    r.append(strategy);
    r.append("\nNo Polymarket resolution for ");
    r.append(slug);
    r.append(" within ");
    r.append(writer.write(deadline, Layout::Fixed(0)).as_str());
    r.append("s of cycle close — kept provisional ");
    r.append(outcome);
    r.append(" (pnl ");
    r.append(sign);
    r.append(writer.write(pnl, Layout::Fixed(4)).as_str());
    r.append(", unverified). New entries suppressed until /resume; please verify manually.");
    assert(r@ =~= gamma_halted_text(market@, time@, strategy@, slug@, deadline, outcome@, sign@, pnl, writer@));
    r
}

pub open spec fn gamma_continued_text(
    market: Seq<char>,
    time: Seq<char>,
    strategy: Seq<char>,
    slug: Seq<char>,
    deadline: Num,
    outcome: Seq<char>,
    sign: Seq<char>,
    pnl: Num,
    suffix: Seq<char>,
    write: spec_fn(Num, Layout) -> Seq<char>,
) -> Seq<char> {
    "🟠 <b>"@
        + market
        + " GAMMA UNRESOLVED — CONTINUING</b> | "@
        + time
        + " | "@
        + strategy
        + "\nNo Polymarket resolution for "@
        + slug
        + " within "@
        + write(deadline, Layout::Fixed(0))
        + "s of cycle close — kept provisional "@
        + outcome
        + " (pnl "@
        + sign
        + write(pnl, Layout::Fixed(4))
        + ", unverified). Balance is up since last cycle's checkpoint, so not halting."@
        + suffix
        + " Please verify manually."@
}

/// A market did not resolve, but the balance rose.
pub fn gamma_continued<W: Fn(Num, Layout) -> String>(
    market: &str,
    time: &str,
    strategy: &str,
    slug: &str,
    deadline: Num,
    outcome: &str,
    sign: &str,
    pnl: Num,
    suffix: &str,
    writer: &Writer<W>,
) -> (r: String)
    ensures
        r@ == gamma_continued_text(market@, time@, strategy@, slug@, deadline, outcome@, sign@, pnl, suffix@, writer@),
{
    let mut r = "🟠 <b>".to_owned();
    r.append(market);
    r.append(" GAMMA UNRESOLVED — CONTINUING</b> | ");
    r.append(time);
    r.append(" | ");
    r.append(strategy);
    r.append("\nNo Polymarket resolution for ");
    r.append(slug);
    r.append(" within ");
    r.append(writer.write(deadline, Layout::Fixed(0)).as_str());
    r.append("s of cycle close — kept provisional ");
    r.append(outcome);
    r.append(" (pnl ");
    r.append(sign);
    r.append(writer.write(pnl, Layout::Fixed(4)).as_str());
    r.append(", unverified). Balance is up since last cycle's checkpoint, so not halting.");
    r.append(suffix);
    r.append(" Please verify manually.");
    assert(r@ =~= gamma_continued_text(market@, time@, strategy@, slug@, deadline, outcome@, sign@, pnl, suffix@, writer@));
    r
}

pub open spec fn weather_closed_text(
    icon: Seq<char>,
    city: Seq<char>,
    outcome: Seq<char>,
    time: Seq<char>,
    bucket: Seq<char>,
    entry: Num,
    exit: Num,
    shares: Num,
    sign: Seq<char>,
    pnl: Num,
    write: spec_fn(Num, Layout) -> Seq<char>,
) -> Seq<char> {
    icon
        + " <b>WEATHER "@
        + city
        + " "@
        + outcome
        + "</b> | "@
        + time
        + " | "@
        + bucket
        + "\nentry="@
        + write(entry, Layout::Fixed(4))
        + " → exit="@
        + write(exit, Layout::Fixed(4))
        + " | "@
        + write(shares, Layout::Fixed(4))
        + " shares | pnl="@
        + sign
        + "$"@
        + write(pnl, Layout::Fixed(4))
}

/// A weather trade is over.
pub fn weather_closed<W: Fn(Num, Layout) -> String>(
    icon: &str,
    city: &str,
    outcome: &str,
    time: &str,
    bucket: &str,
    entry: Num,
    exit: Num,
    shares: Num,
    sign: &str,
    pnl: Num,
    writer: &Writer<W>,
) -> (r: String)
    ensures
        r@ == weather_closed_text(icon@, city@, outcome@, time@, bucket@, entry, exit, shares, sign@, pnl, writer@),
{
    let mut r = icon.to_owned();
    r.append(" <b>WEATHER ");
    r.append(city);
    r.append(" ");
    r.append(outcome);
    r.append("</b> | ");
    r.append(time);
    r.append(" | ");
    r.append(bucket);
    r.append("\nentry=");
    r.append(writer.write(entry, Layout::Fixed(4)).as_str());
    r.append(" → exit=");
    r.append(writer.write(exit, Layout::Fixed(4)).as_str());
    r.append(" | ");
    r.append(writer.write(shares, Layout::Fixed(4)).as_str());
    r.append(" shares | pnl=");
    r.append(sign);
    r.append("$");
    r.append(writer.write(pnl, Layout::Fixed(4)).as_str());
    assert(r@ =~= weather_closed_text(icon@, city@, outcome@, time@, bucket@, entry, exit, shares, sign@, pnl, writer@));
    r
}

pub open spec fn driver_started_text(
    workers: Seq<char>,
    size: Num,
    max_trades: u32,
    write: spec_fn(Num, Layout) -> Seq<char>,
) -> Seq<char> {
    "🟢 live driver started: <b>"@
        + workers
        + "</b> (size=$"@
        + write(size, Layout::Fixed(2))
        + ", max_trades="@
        + decimal(max_trades as nat)
        + ")"@
}

/// The driver is up.
pub fn driver_started<W: Fn(Num, Layout) -> String>(
    workers: &str,
    size: Num,
    max_trades: u32,
    writer: &Writer<W>,
) -> (r: String)
    ensures
        r@ == driver_started_text(workers@, size, max_trades, writer@),
{
    let mut r = "🟢 live driver started: <b>".to_owned();
    r.append(workers);
    r.append("</b> (size=$");
    r.append(writer.write(size, Layout::Fixed(2)).as_str());
    r.append(", max_trades=");
    r.append(decimal_text(max_trades as u64).as_str());
    r.append(")");
    assert(r@ =~= driver_started_text(workers@, size, max_trades, writer@));
    r
}

pub open spec fn scoped_halt_text(
    labels: Seq<char>,
) -> Seq<char> {
    "🟡 <b>BALANCE DECREASED — SCOPED HALT</b>\nBalance dropped vs last cycle's checkpoint while "@
        + labels
        + " still had a trade pending Gamma confirmation — halted new entries there only; other assets/strategies continue. Send /resume to re-arm."@
}

/// The balance fell while trades were pending.
pub fn scoped_halt(
    labels: &str,
) -> (r: String)
    ensures
        r@ == scoped_halt_text(labels@),
{
    let mut r = "🟡 <b>BALANCE DECREASED — SCOPED HALT</b>\nBalance dropped vs last cycle's checkpoint while ".to_owned();
    r.append(labels);
    r.append(" still had a trade pending Gamma confirmation — halted new entries there only; other assets/strategies continue. Send /resume to re-arm.");
    assert(r@ =~= scoped_halt_text(labels@));
    r
}

pub open spec fn drawdown_halt_text(
    assets: Seq<char>,
) -> Seq<char> {
    "🛑 balance drawdown >25% from session baseline — halted new entries on all assets ("@
        + assets
        + "). Send /resume to re-arm."@
}

/// The balance fell too far.
pub fn drawdown_halt(
    assets: &str,
) -> (r: String)
    ensures
        r@ == drawdown_halt_text(assets@),
{
    let mut r = "🛑 balance drawdown >25% from session baseline — halted new entries on all assets (".to_owned();
    r.append(assets);
    r.append("). Send /resume to re-arm.");
    assert(r@ =~= drawdown_halt_text(assets@));
    r
}

pub open spec fn halted_all_text(
    assets: Seq<char>,
) -> Seq<char> {
    "🛑 Halted all assets ("@
        + assets
        + ") — new entries suppressed, open positions still managed."@
}

/// The answer to a halt of everything.
pub fn halted_all(
    assets: &str,
) -> (r: String)
    ensures
        r@ == halted_all_text(assets@),
{
    let mut r = "🛑 Halted all assets (".to_owned();
    r.append(assets);
    r.append(") — new entries suppressed, open positions still managed.");
    assert(r@ =~= halted_all_text(assets@));
    r
}

pub open spec fn resumed_all_text(
    assets: Seq<char>,
) -> Seq<char> {
    "▶️ Resumed all assets ("@
        + assets
        + ")."@
}

/// The answer to a resume of everything.
pub fn resumed_all(
    assets: &str,
) -> (r: String)
    ensures
        r@ == resumed_all_text(assets@),
{
    let mut r = "▶️ Resumed all assets (".to_owned();
    r.append(assets);
    r.append(").");
    assert(r@ =~= resumed_all_text(assets@));
    r
}

pub open spec fn reset_all_text(
    assets: Seq<char>,
) -> Seq<char> {
    "🔄 Reset loss-streak halt counter for all assets ("@
        + assets
        + ")."@
}

/// The answer to a reset of everything.
pub fn reset_all(
    assets: &str,
) -> (r: String)
    ensures
        r@ == reset_all_text(assets@),
{
    let mut r = "🔄 Reset loss-streak halt counter for all assets (".to_owned();
    r.append(assets);
    r.append(").");
    assert(r@ =~= reset_all_text(assets@));
    r
}

pub open spec fn halted_one_text(
    label: Seq<char>,
) -> Seq<char> {
    "🛑 Halted "@
        + label
        + " — new entries suppressed, open positions still managed."@
}

/// The answer to a halt.
pub fn halted_one(
    label: &str,
) -> (r: String)
    ensures
        r@ == halted_one_text(label@),
{
    let mut r = "🛑 Halted ".to_owned();
    r.append(label);
    r.append(" — new entries suppressed, open positions still managed.");
    assert(r@ =~= halted_one_text(label@));
    r
}

pub open spec fn resumed_one_text(
    label: Seq<char>,
) -> Seq<char> {
    "▶️ Resumed "@
        + label
        + "."@
}

/// The answer to a resume.
pub fn resumed_one(
    label: &str,
) -> (r: String)
    ensures
        r@ == resumed_one_text(label@),
{
    let mut r = "▶️ Resumed ".to_owned();
    r.append(label);
    r.append(".");
    assert(r@ =~= resumed_one_text(label@));
    r
}

pub open spec fn reset_one_text(
    asset: Seq<char>,
) -> Seq<char> {
    "🔄 Reset loss-streak halt counter for "@
        + asset
        + "."@
}

/// The answer to a reset.
pub fn reset_one(
    asset: &str,
) -> (r: String)
    ensures
        r@ == reset_one_text(asset@),
{
    let mut r = "🔄 Reset loss-streak halt counter for ".to_owned();
    r.append(asset);
    r.append(".");
    assert(r@ =~= reset_one_text(asset@));
    r
}

pub open spec fn not_managed_text(
    label: Seq<char>,
    assets: Seq<char>,
) -> Seq<char> {
    "this driver doesn't manage "@
        + label
        + " — trading "@
        + assets
}

/// The answer when nobody was meant.
pub fn not_managed(
    label: &str,
    assets: &str,
) -> (r: String)
    ensures
        r@ == not_managed_text(label@, assets@),
{
    let mut r = "this driver doesn't manage ".to_owned();
    r.append(label);
    r.append(" — trading ");
    r.append(assets);
    assert(r@ =~= not_managed_text(label@, assets@));
    r
}

pub open spec fn asset_line_text(
    light: Seq<char>,
    name: Seq<char>,
    strategy: Seq<char>,
    sl: Num,
    delta_gate: Num,
    low: Num,
    high: Num,
    halt_n: i64,
    unwind_pnl: Num,
    sl_pnl: Num,
    unwind_time: Num,
    start: Seq<char>,
    size: Num,
    write: spec_fn(Num, Layout) -> Seq<char>,
) -> Seq<char> {
    "  "@
        + light
        + "  "@
        + name
        + "  strategy="@
        + strategy
        + "\n    sl="@
        + write(sl, Layout::Fixed(4))
        + "  delta_gate="@
        + write(delta_gate, Layout::Fixed(5))
        + "  low="@
        + write(low, Layout::Fixed(4))
        + "  high="@
        + write(high, Layout::Fixed(4))
        + "  halt_after="@
        + signed_decimal(halt_n as int)
        + "L  unwind_pnl="@
        + write(unwind_pnl, Layout::Fixed(4))
        + "  sl_pnl="@
        + write(sl_pnl, Layout::Fixed(4))
        + "  unwind_time="@
        + write(unwind_time, Layout::Fixed(1))
        + "s"@
        + start
        + "  size=$"@
        + write(size, Layout::Fixed(2))
}

/// One worker in the list of traded assets.
pub fn asset_line<W: Fn(Num, Layout) -> String>(
    light: &str,
    name: &str,
    strategy: &str,
    sl: Num,
    delta_gate: Num,
    low: Num,
    high: Num,
    halt_n: i64,
    unwind_pnl: Num,
    sl_pnl: Num,
    unwind_time: Num,
    start: &str,
    size: Num,
    writer: &Writer<W>,
) -> (r: String)
    ensures
        r@ == asset_line_text(light@, name@, strategy@, sl, delta_gate, low, high, halt_n, unwind_pnl, sl_pnl, unwind_time, start@, size, writer@),
{
    let mut r = "  ".to_owned();
    r.append(light);
    r.append("  ");
    r.append(name);
    r.append("  strategy=");
    r.append(strategy);
    r.append("\n    sl=");
    r.append(writer.write(sl, Layout::Fixed(4)).as_str());
    r.append("  delta_gate=");
    r.append(writer.write(delta_gate, Layout::Fixed(5)).as_str());
    r.append("  low=");
    r.append(writer.write(low, Layout::Fixed(4)).as_str());
    r.append("  high=");
    r.append(writer.write(high, Layout::Fixed(4)).as_str());
    r.append("  halt_after=");
    r.append(signed_text(halt_n).as_str());
    r.append("L  unwind_pnl=");
    r.append(writer.write(unwind_pnl, Layout::Fixed(4)).as_str());
    r.append("  sl_pnl=");
    r.append(writer.write(sl_pnl, Layout::Fixed(4)).as_str());
    r.append("  unwind_time=");
    r.append(writer.write(unwind_time, Layout::Fixed(1)).as_str());
    r.append("s");
    r.append(start);
    r.append("  size=$");
    r.append(writer.write(size, Layout::Fixed(2)).as_str());
    assert(r@ =~= asset_line_text(light@, name@, strategy@, sl, delta_gate, low, high, halt_n, unwind_pnl, sl_pnl, unwind_time, start@, size, writer@));
    r
}

pub open spec fn market_line_text(
    name: Seq<char>,
    binance: Num,
    up: Num,
    dn: Num,
    delta: Num,
    write: spec_fn(Num, Layout) -> Seq<char>,
) -> Seq<char> {
    "  "@
        + name
        + "  binance=$"@
        + write(binance, Layout::Fixed(5))
        + "  UP="@
        + write(up, Layout::Fixed(4))
        + "  DN="@
        + write(dn, Layout::Fixed(4))
        + "  Δ="@
        + write(delta, Layout::Fixed(5))
}

/// The prices of a market.
pub fn market_line<W: Fn(Num, Layout) -> String>(
    name: &str,
    binance: Num,
    up: Num,
    dn: Num,
    delta: Num,
    writer: &Writer<W>,
) -> (r: String)
    ensures
        r@ == market_line_text(name@, binance, up, dn, delta, writer@),
{
    let mut r = "  ".to_owned();
    r.append(name);
    r.append("  binance=$");
    r.append(writer.write(binance, Layout::Fixed(5)).as_str());
    r.append("  UP=");
    r.append(writer.write(up, Layout::Fixed(4)).as_str());
    r.append("  DN=");
    r.append(writer.write(dn, Layout::Fixed(4)).as_str());
    r.append("  Δ=");
    r.append(writer.write(delta, Layout::Fixed(5)).as_str());
    assert(r@ =~= market_line_text(name@, binance, up, dn, delta, writer@));
    r
}

pub open spec fn pnl_line_text(
    name: Seq<char>,
    wins: u32,
    losses: u32,
    stoplosses: u32,
    unwinds: u32,
    timeouts: u32,
    sign: Seq<char>,
    pnl: Num,
    write: spec_fn(Num, Layout) -> Seq<char>,
) -> Seq<char> {
    "  "@
        + name
        + ": "@
        + decimal(wins as nat)
        + "W/"@
        + decimal(losses as nat)
        + "L/"@
        + decimal(stoplosses as nat)
        + "SL/"@
        + decimal(unwinds as nat)
        + "UW/"@
        + decimal(timeouts as nat)
        + "TO  "@
        + sign
        + "$"@
        + write(pnl, Layout::Fixed(4))
}

/// The counts of a worker.
pub fn pnl_line<W: Fn(Num, Layout) -> String>(
    name: &str,
    wins: u32,
    losses: u32,
    stoplosses: u32,
    unwinds: u32,
    timeouts: u32,
    sign: &str,
    pnl: Num,
    writer: &Writer<W>,
) -> (r: String)
    ensures
        r@ == pnl_line_text(name@, wins, losses, stoplosses, unwinds, timeouts, sign@, pnl, writer@),
{
    let mut r = "  ".to_owned();
    r.append(name);
    r.append(": ");
    r.append(decimal_text(wins as u64).as_str());
    r.append("W/");
    r.append(decimal_text(losses as u64).as_str());
    r.append("L/");
    r.append(decimal_text(stoplosses as u64).as_str());
    r.append("SL/");
    r.append(decimal_text(unwinds as u64).as_str());
    r.append("UW/");
    r.append(decimal_text(timeouts as u64).as_str());
    r.append("TO  ");
    r.append(sign);
    r.append("$");
    r.append(writer.write(pnl, Layout::Fixed(4)).as_str());
    assert(r@ =~= pnl_line_text(name@, wins, losses, stoplosses, unwinds, timeouts, sign@, pnl, writer@));
    r
}

pub open spec fn session_line_text(
    wins: u32,
    losses: u32,
    stoplosses: u32,
    unwinds: u32,
    timeouts: u32,
    sign: Seq<char>,
    pnl: Num,
    write: spec_fn(Num, Layout) -> Seq<char>,
) -> Seq<char> {
    "  Session: "@
        + decimal(wins as nat)
        + "W/"@
        + decimal(losses as nat)
        + "L/"@
        + decimal(stoplosses as nat)
        + "SL/"@
        + decimal(unwinds as nat)
        + "UW/"@
        + decimal(timeouts as nat)
        + "TO  "@
        + sign
        + "$"@
        + write(pnl, Layout::Fixed(4))
}

/// The counts of all workers.
pub fn session_line<W: Fn(Num, Layout) -> String>(
    wins: u32,
    losses: u32,
    stoplosses: u32,
    unwinds: u32,
    timeouts: u32,
    sign: &str,
    pnl: Num,
    writer: &Writer<W>,
) -> (r: String)
    ensures
        r@ == session_line_text(wins, losses, stoplosses, unwinds, timeouts, sign@, pnl, writer@),
{
    let mut r = "  Session: ".to_owned();
    r.append(decimal_text(wins as u64).as_str());
    r.append("W/");
    r.append(decimal_text(losses as u64).as_str());
    r.append("L/");
    r.append(decimal_text(stoplosses as u64).as_str());
    r.append("SL/");
    r.append(decimal_text(unwinds as u64).as_str());
    r.append("UW/");
    r.append(decimal_text(timeouts as u64).as_str());
    r.append("TO  ");
    r.append(sign);
    r.append("$");
    r.append(writer.write(pnl, Layout::Fixed(4)).as_str());
    assert(r@ =~= session_line_text(wins, losses, stoplosses, unwinds, timeouts, sign@, pnl, writer@));
    r
}

} // verus!

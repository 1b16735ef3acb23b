//! How replayed trades are shown, and the rows of a run that only watches.

use vstd::prelude::*;
use vstd::string::StringExecFns;

use crate::config::AssetParams;
use crate::live::csv::row;
use crate::machine::{round4, rounded4};
use crate::num::{num, Arith, Calc, Layout, Num, Op, Writer, ZERO};
use crate::telegram::commands::opt_view;
use crate::text::{
    decimal, decimal_text, join, pad_left, pad_right, padded, padded_left, same_text, views,
};
use crate::types::{Outcome, TradeRecord};

verus! {

/// The market lengths with recorded ticks.
pub open spec fn can_replay(duration: Seq<char>) -> bool {
    duration == "5m"@ || duration == "15m"@ || duration == "4h"@
}

/// What to answer a market length that cannot be replayed.
pub fn replay_refusal(duration: &str) -> (r: Option<String>)
    ensures
        opt_view(r) == if can_replay(duration@) {
            None
        } else {
            Some(
                "--duration must be one of 5m/15m/4h (got `"@ + duration@
                    + "`) — hourly-ET and weather markets have no recorded tick history to replay"@,
            )
        },
{
    if same_text(duration, "5m") || same_text(duration, "15m") || same_text(duration, "4h") {
        return None;
    }
    let mut r = "--duration must be one of 5m/15m/4h (got `".to_owned();
    r.append(duration);
    r.append("`) — hourly-ET and weather markets have no recorded tick history to replay");
    Some(r)
}

/// The parameters with no limit on losses.
pub fn without_halt(params: AssetParams) -> (r: AssetParams)
    ensures
        r == (AssetParams { halt_rev: 0, halt_prob: 0, halt_v: 0, ..params }),
{
    let mut params = params;
    params.halt_rev = 0;
    params.halt_prob = 0;
    params.halt_v = 0;
    params
}

/// A trade as a line of comma-separated values.
pub open spec fn csv_line(t: TradeRecord, write: spec_fn(Num, Layout) -> Seq<char>) -> Seq<char> {
    t.slug@ + ","@ + t.strategy@ + ","@ + t.side.text() + ","@ + write(
        t.token_price,
        Layout::Fixed(6),
    ) + ","@ + write(t.exit_price, Layout::Fixed(6)) + ","@ + t.outcome.text() + ","@ + write(
        t.pnl,
        Layout::Fixed(6),
    ) + ","@ + write(t.entry_ts, Layout::Fixed(3)) + "\n"@
}

/// The header, then a line for each trade.
pub open spec fn csv_text(
    trades: Seq<TradeRecord>,
    write: spec_fn(Num, Layout) -> Seq<char>,
) -> Seq<char>
    decreases trades.len(),
{
    if trades.len() == 0 {
        "slug,strategy,side,token_price,exit_price,outcome,pnl,entry_ts\n"@
    } else {
        csv_text(trades.drop_last(), write) + csv_line(trades.last(), write)
    }
}

/// The trades as comma-separated values. The header stands there even without a trade.
pub fn format_csv<W: Fn(Num, Layout) -> String>(trades: &[TradeRecord], writer: &Writer<W>) -> (r:
    String)
    ensures
        r@ == csv_text(trades@, writer@),
{
    let mut out = "slug,strategy,side,token_price,exit_price,outcome,pnl,entry_ts\n".to_owned();
    let mut i: usize = 0;
    while i < trades.len()
        invariant
            i <= trades@.len(),
            out@ == csv_text(trades@.take(i as int), writer@),
        decreases trades@.len() - i,
    {
        let t = &trades[i];
        let ghost before = out@;
        assert(trades@.take(i + 1).drop_last() =~= trades@.take(i as int));
        out.append(t.slug.as_str());
        out.append(",");
        out.append(t.strategy);
        out.append(",");
        out.append(t.side.as_str());
        out.append(",");
        out.append(writer.write(t.token_price, Layout::Fixed(6)).as_str());
        out.append(",");
        out.append(writer.write(t.exit_price, Layout::Fixed(6)).as_str());
        out.append(",");
        out.append(t.outcome.as_str());
        out.append(",");
        out.append(writer.write(t.pnl, Layout::Fixed(6)).as_str());
        out.append(",");
        out.append(writer.write(t.entry_ts, Layout::Fixed(3)).as_str());
        out.append("\n");
        assert(out@ =~= before + csv_line(*t, writer@));
        i = i + 1;
    }
    assert(trades@.take(i as int) =~= trades@);
    out
}

/// Seven columns of a table, each padded to its width.
pub open spec fn columns(
    slug: Seq<char>,
    strategy: Seq<char>,
    side: Seq<char>,
    token_price: Seq<char>,
    exit_price: Seq<char>,
    outcome: Seq<char>,
    pnl: Seq<char>,
) -> Seq<char> {
    padded(slug, 35) + " "@ + padded(strategy, 10) + " "@ + padded(side, 5) + " "@ + padded_left(
        token_price,
        10,
    ) + " "@ + padded_left(exit_price, 14) + " "@ + padded(outcome, 10) + " "@ + padded_left(pnl, 8)
        + "\n"@
}

fn column_text(
    slug: &str,
    strategy: &str,
    side: &str,
    token_price: &str,
    exit_price: &str,
    outcome: &str,
    pnl: &str,
) -> (r: String)
    ensures
        r@ == columns(slug@, strategy@, side@, token_price@, exit_price@, outcome@, pnl@),
{
    let mut r = pad_right(slug, 35);
    r.append(" ");
    r.append(pad_right(strategy, 10).as_str());
    r.append(" ");
    r.append(pad_right(side, 5).as_str());
    r.append(" ");
    r.append(pad_left(token_price, 10).as_str());
    r.append(" ");
    r.append(pad_left(exit_price, 14).as_str());
    r.append(" ");
    r.append(pad_right(outcome, 10).as_str());
    r.append(" ");
    r.append(pad_left(pnl, 8).as_str());
    r.append("\n");
    r
}

/// A trade as a line of the table.
pub open spec fn table_line(t: TradeRecord, write: spec_fn(Num, Layout) -> Seq<char>) -> Seq<char> {
    columns(
        t.slug@,
        t.strategy@,
        t.side.text(),
        write(t.token_price, Layout::Fixed(3)),
        write(t.exit_price, Layout::Fixed(3)),
        t.outcome.text(),
        write(t.pnl, Layout::Fixed(4)),
    )
}

/// The head of the table and a line for each trade.
pub open spec fn table_lines(
    trades: Seq<TradeRecord>,
    write: spec_fn(Num, Layout) -> Seq<char>,
) -> Seq<char>
    decreases trades.len(),
{
    if trades.len() == 0 {
        columns(
            "slug"@,
            "strategy"@,
            "side"@,
            "token_px"@,
            "exit_token_px"@,
            "outcome"@,
            "pnl"@,
        )
            + "----------------------------------------------------------------------------------------------------"@
            + "\n"@
    } else {
        table_lines(trades.drop_last(), write) + table_line(trades.last(), write)
    }
}

/// How many trades ended so.
pub open spec fn ended(trades: Seq<TradeRecord>, outcome: Outcome) -> nat
    decreases trades.len(),
{
    if trades.len() == 0 {
        0
    } else {
        ended(trades.drop_last(), outcome) + if trades.last().outcome == outcome {
            1nat
        } else {
            0
        }
    }
}

/// The gains, added up in order.
pub open spec fn gains(trades: Seq<TradeRecord>, calc: Calc) -> Num
    decreases trades.len(),
{
    if trades.len() == 0 {
        num(ZERO)
    } else {
        calc.plus(gains(trades.drop_last(), calc), trades.last().pnl)
    }
}

/// The last line of the table.
pub open spec fn totals_line(
    trades: Seq<TradeRecord>,
    calc: Calc,
    write: spec_fn(Num, Layout) -> Seq<char>,
) -> Seq<char> {
    "\nTotal: trades="@ + decimal(trades.len()) + " wins="@ + decimal(ended(trades, Outcome::Win))
        + " losses="@ + decimal(ended(trades, Outcome::Loss)) + " stoplosses="@ + decimal(
        ended(trades, Outcome::StopLoss),
    ) + " unwinds="@ + decimal(ended(trades, Outcome::Unwind)) + " timeouts="@ + decimal(
        ended(trades, Outcome::Timeout),
    ) + " pnl="@ + write(rounded4(gains(trades, calc), calc), Layout::Plain) + "\n"@
}

pub open spec fn table_text(
    trades: Seq<TradeRecord>,
    calc: Calc,
    write: spec_fn(Num, Layout) -> Seq<char>,
) -> Seq<char> {
    if trades.len() == 0 {
        "No trades.\n"@
    } else {
        table_lines(trades, write) + totals_line(trades, calc, write)
    }
}

fn count_ended(trades: &[TradeRecord], outcome: Outcome) -> (r: u64)
    ensures
        r == ended(trades@, outcome),
{
    let mut n: u64 = 0;
    let mut i: usize = 0;
    while i < trades.len()
        invariant
            i <= trades@.len(),
            n <= i,
            n == ended(trades@.take(i as int), outcome),
        decreases trades@.len() - i,
    {
        assert(trades@.take(i + 1).drop_last() =~= trades@.take(i as int));
        if trades[i].outcome == outcome {
            n = n + 1;
        }
        i = i + 1;
    }
    assert(trades@.take(i as int) =~= trades@);
    n
}

/// The trades as a table with a line of totals.
pub fn format_table<F: Fn(Op, Num, Num) -> Num, W: Fn(Num, Layout) -> String>(
    trades: &[TradeRecord],
    arith: &Arith<F>,
    writer: &Writer<W>,
) -> (r: String)
    ensures
        r@ == table_text(trades@, arith@, writer@),
{
    if trades.len() == 0 {
        return "No trades.\n".to_owned();
    }
    let mut out = column_text(
        "slug",
        "strategy",
        "side",
        "token_px",
        "exit_token_px",
        "outcome",
        "pnl",
    );
    out.append(
        "----------------------------------------------------------------------------------------------------",
    );
    out.append("\n");
    let mut total = num(ZERO);
    let mut i: usize = 0;
    while i < trades.len()
        invariant
            i <= trades@.len(),
            out@ == table_lines(trades@.take(i as int), writer@),
            total == gains(trades@.take(i as int), arith@),
        decreases trades@.len() - i,
    {
        let t = &trades[i];
        assert(trades@.take(i + 1).drop_last() =~= trades@.take(i as int));
        let line = column_text(
            t.slug.as_str(),
            t.strategy,
            t.side.as_str(),
            writer.write(t.token_price, Layout::Fixed(3)).as_str(),
            writer.write(t.exit_price, Layout::Fixed(3)).as_str(),
            t.outcome.as_str(),
            writer.write(t.pnl, Layout::Fixed(4)).as_str(),
        );
        out.append(line.as_str());
        total = arith.plus(total, t.pnl);
        i = i + 1;
    }
    assert(trades@.take(i as int) =~= trades@);
    let mut last = "\nTotal: trades=".to_owned();
    last.append(decimal_text(trades.len() as u64).as_str());
    last.append(" wins=");
    last.append(decimal_text(count_ended(trades, Outcome::Win)).as_str());
    last.append(" losses=");
    last.append(decimal_text(count_ended(trades, Outcome::Loss)).as_str());
    last.append(" stoplosses=");
    last.append(decimal_text(count_ended(trades, Outcome::StopLoss)).as_str());
    last.append(" unwinds=");
    last.append(decimal_text(count_ended(trades, Outcome::Unwind)).as_str());
    last.append(" timeouts=");
    last.append(decimal_text(count_ended(trades, Outcome::Timeout)).as_str());
    last.append(" pnl=");
    last.append(writer.write(round4(total, arith), Layout::Plain).as_str());
    last.append("\n");
    assert(last@ =~= totals_line(trades@, arith@, writer@));
    out.append(last.as_str());
    out
}

/// Every trade is counted under one outcome.
pub proof fn outcomes_add_up(trades: Seq<TradeRecord>)
    ensures
        ended(trades, Outcome::Win) + ended(trades, Outcome::Loss) + ended(
            trades,
            Outcome::StopLoss,
        ) + ended(trades, Outcome::Unwind) + ended(trades, Outcome::Timeout) == trades.len(),
    decreases trades.len(),
{
    if trades.len() > 0 {
        outcomes_add_up(trades.drop_last());
    }
}

pub const WATCH_CSV_HEADER: &'static str =
    "logged_at,slug,strategy,side,entry_ts,token_price,exit_price,outcome,pnl";

/// The row of a trade that was only watched.
pub fn watch_row<W: Fn(Num, Layout) -> String>(
    logged_at: Num,
    rec: &TradeRecord,
    writer: &Writer<W>,
) -> (r: String)
    ensures
        r@ == row(
            seq![
                (writer@)(logged_at, Layout::Plain),
                rec.slug@,
                rec.strategy@,
                rec.side.text(),
                (writer@)(rec.entry_ts, Layout::Plain),
                (writer@)(rec.token_price, Layout::Plain),
                (writer@)(rec.exit_price, Layout::Plain),
                rec.outcome.text(),
                (writer@)(rec.pnl, Layout::Plain),
            ],
        ),
{
    let fields: Vec<String> = vec![
        writer.write(logged_at, Layout::Plain),
        rec.slug.clone(),
        rec.strategy.to_owned(),
        rec.side.as_str().to_owned(),
        writer.write(rec.entry_ts, Layout::Plain),
        writer.write(rec.token_price, Layout::Plain),
        writer.write(rec.exit_price, Layout::Plain),
        rec.outcome.as_str().to_owned(),
        writer.write(rec.pnl, Layout::Plain),
    ];
    assert(views(fields@) =~= seq![
        (writer@)(logged_at, Layout::Plain),
        rec.slug@,
        rec.strategy@,
        rec.side.text(),
        (writer@)(rec.entry_ts, Layout::Plain),
        (writer@)(rec.token_price, Layout::Plain),
        (writer@)(rec.exit_price, Layout::Plain),
        rec.outcome.text(),
        (writer@)(rec.pnl, Layout::Plain),
    ]);
    join(&fields, ",")
}

/// What the clock brings to a run that only watches.
#[derive(Clone, Copy, Debug, PartialEq, Eq, Structural)]
pub enum WatchTurn {
    /// The cycle goes on.
    Same,
    /// The last cycle, if one was open, ends; there is no Binance price to open the next.
    NoPrice { close: bool },
    /// The last cycle, if one was open, ends, and the next is to be opened.
    Next { close: bool },
}

/// What the clock brings at a slot number. Until a next cycle is opened, the same is asked
/// again at every look.
pub fn watch_turn(slot: u64, current: u64, cycle_open: bool, last_binance: Num) -> (r: WatchTurn)
    ensures
        r == if slot == current {
            WatchTurn::Same
        } else if last_binance.le(num(ZERO)) {
            WatchTurn::NoPrice { close: cycle_open }
        } else {
            WatchTurn::Next { close: cycle_open }
        },
{
    if slot == current {
        WatchTurn::Same
    } else if last_binance.le(num(ZERO)) {
        WatchTurn::NoPrice { close: cycle_open }
    } else {
        WatchTurn::Next { close: cycle_open }
    }
}

} // verus!

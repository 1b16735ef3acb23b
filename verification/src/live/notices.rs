//! What the driver does about a worker's reports: it counts, logs and tells.

use vstd::prelude::*;
use vstd::string::StringExecFns;

use crate::execution::HUNDRED;
use crate::live::messages::{
    driver_started, driver_started_text, gamma_continued, gamma_continued_text, gamma_halted, gamma_halted_text, halt_cleared,
    halt_cleared_text, halt_engaged, halt_engaged_text, halt_reset, halt_reset_text,
    result_corrected, result_corrected_text, stop_verdict, stop_verdict_text, trade_closed,
    trade_closed_text, trade_summary, trade_summary_text, weather_closed, weather_closed_text,
};
use crate::live::orders::{percent, Action};
use crate::live::slot::{AssetSlot, Counts, Stats};
use crate::live::{arrow_side, arrow_text};
use crate::num::{num, Arith, Calc, Layout, Num, Op, Writer, ZERO};
use crate::telegram::commands::opt_view;
use crate::telegram::control::str_view;
use crate::text::{join, joined, same_text, views};
use crate::types::{Outcome, TradeRecord};
use crate::weather::WeatherTrade;

verus! {

/// A plus for what is no loss, else nothing.
pub open spec fn plus_sign(x: Num) -> Seq<char> {
    if x.ge(num(ZERO)) {
        "+"@
    } else {
        ""@
    }
}

pub fn plus_or_nothing(x: Num) -> (r: &'static str)
    ensures
        r@ == plus_sign(x),
{
    if x.ge(num(ZERO)) {
        "+"
    } else {
        ""
    }
}

/// A plus for what is no loss, else a minus.
pub open spec fn either_sign(x: Num) -> Seq<char> {
    if x.ge(num(ZERO)) {
        "+"@
    } else {
        "-"@
    }
}

fn plus_or_minus(x: Num) -> (r: &'static str)
    ensures
        r@ == either_sign(x),
{
    if x.ge(num(ZERO)) {
        "+"
    } else {
        "-"
    }
}

/// The picture before a trade's message. A timeout can go either way.
pub open spec fn icon_text(outcome: Outcome, pnl: Num) -> Seq<char> {
    match outcome {
        Outcome::Win | Outcome::Unwind => "✅"@,
        Outcome::Loss | Outcome::StopLoss => "❌"@,
        Outcome::Timeout => if pnl.ge(num(ZERO)) {
            "⏱️✅"@
        } else {
            "⏱️❌"@
        },
    }
}

fn icon(outcome: Outcome, pnl: Num) -> (r: &'static str)
    ensures
        r@ == icon_text(outcome, pnl),
{
    match outcome {
        Outcome::Win | Outcome::Unwind => "✅",
        Outcome::Loss | Outcome::StopLoss => "❌",
        Outcome::Timeout => {
            if pnl.ge(num(ZERO)) {
                "⏱️✅"
            } else {
                "⏱️❌"
            }
        },
    }
}

/// The counts once a trade is booked.
pub open spec fn booked(c: Counts, rec: TradeRecord, calc: Calc) -> Counts {
    Counts {
        total_pnl: calc.plus(c.total_pnl, rec.pnl),
        ..c.with(rec.outcome, (c.of(rec.outcome) + 1) as u32)
    }
}

/// The counts once the true resolution has taken the place of the one that was booked.
pub open spec fn corrected(
    c: Counts,
    previous: Outcome,
    previous_pnl: Num,
    rec: TradeRecord,
    calc: Calc,
) -> Counts {
    Counts {
        total_pnl: calc.plus(c.total_pnl, calc.minus(rec.pnl, previous_pnl)),
        ..c.without(previous).and_one(rec.outcome)
    }
}

/// The losses after which a strategy halts.
pub open spec fn halt_limit(slot: AssetSlot) -> i64 {
    if slot.worker.strategy_name@ == "high_prob"@ {
        slot.params.halt_prob
    } else if slot.worker.strategy_name@ == "v_shape"@ {
        slot.params.halt_v
    } else {
        slot.params.halt_rev
    }
}

pub fn halt_limit_of(slot: &AssetSlot) -> (r: i64)
    ensures
        r == halt_limit(*slot),
{
    if same_text(slot.worker.strategy_name.as_str(), "high_prob") {
        slot.params.halt_prob
    } else if same_text(slot.worker.strategy_name.as_str(), "v_shape") {
        slot.params.halt_v
    } else {
        slot.params.halt_rev
    }
}

pub open spec fn verdict_text(
    slot: AssetSlot,
    would_have_won: bool,
    time: Seq<char>,
) -> Seq<char> {
    if would_have_won {
        stop_verdict_text(
            "🔴"@,
            slot.key(),
            "COSTLY"@,
            time,
            slot.worker.strategy_name@,
            "market would have favored the position — stop cost money"@,
        )
    } else {
        stop_verdict_text(
            "🟢"@,
            slot.key(),
            "GOOD"@,
            time,
            slot.worker.strategy_name@,
            "market moved against the position — stop saved money"@,
        )
    }
}

/// What is said of a report. `slot` is the slot once the report is counted.
pub open spec fn notice_for(
    slot: AssetSlot,
    action: Action,
    time: Seq<char>,
    calc: Calc,
    write: spec_fn(Num, Layout) -> Seq<char>,
) -> Option<Seq<char>> {
    let market = slot.key();
    let strategy = slot.worker.strategy_name@;
    match action {
        Action::LogTrade(rec) => Some(
            trade_closed_text(
                icon_text(rec.outcome, rec.pnl),
                market,
                rec.outcome.text(),
                time,
                arrow_text(rec.side),
                strategy,
                rec.token_price,
                rec.exit_price,
                slot.worker.cycle_open_binance,
                slot.last_binance,
                percent(slot, calc),
                either_sign(rec.pnl),
                rec.pnl.abs(),
                slot.stats.counts.wins,
                slot.stats.counts.losses,
                write,
            ),
        ),
        Action::LogTradeCorrection { previous_outcome, previous_pnl, record } => Some(
            result_corrected_text(
                market,
                time,
                strategy,
                previous_outcome.text(),
                record.outcome.text(),
                plus_sign(previous_pnl),
                previous_pnl,
                plus_sign(record.pnl),
                record.pnl,
                write,
            ),
        ),
        Action::StopLossVerdict { would_have_won, .. } => Some(
            verdict_text(slot, would_have_won, time),
        ),
        Action::HaltEngaged => Some(
            halt_engaged_text(market, time, strategy, halt_limit(slot)),
        ),
        Action::HaltReset => Some(halt_reset_text(market, time, strategy)),
        Action::HaltClearedByCorrection => Some(halt_cleared_text(market, time, strategy)),
        Action::GammaHaltEngaged { record } => Some(
            gamma_halted_text(
                market,
                time,
                strategy,
                record.slug@,
                slot.params.gamma_poll_deadline_secs,
                record.outcome.text(),
                plus_sign(record.pnl),
                record.pnl,
                write,
            ),
        ),
        Action::GammaUnresolvedContinued { record, entry_suppressed } => Some(
            gamma_continued_text(
                market,
                time,
                strategy,
                record.slug@,
                slot.params.gamma_poll_deadline_secs,
                record.outcome.text(),
                plus_sign(record.pnl),
                record.pnl,
                if entry_suppressed {
                    " (new entries remain suppressed by a separate halt already in effect.)"@
                } else {
                    " New entries continue normally."@
                },
                write,
            ),
        ),
        _ => None,
    }
}

/// The name under which a report enters the log of halts.
pub open spec fn control_name(action: Action) -> Option<Seq<char>> {
    match action {
        Action::HaltEngaged => Some("halt_engaged"@),
        Action::HaltReset => Some("halt_reset"@),
        Action::HaltClearedByCorrection => Some("halt_cleared_by_correction"@),
        Action::GammaHaltEngaged { .. } => Some("gamma_halt_engaged"@),
        _ => None,
    }
}

/// The counts after a report.
pub open spec fn counts_after(slot: AssetSlot, action: Action, calc: Calc) -> Counts {
    match action {
        Action::LogTrade(rec) => booked(slot.stats.counts, rec, calc),
        Action::LogTradeCorrection { previous_outcome, previous_pnl, record } => corrected(
            slot.stats.counts,
            previous_outcome,
            previous_pnl,
            record,
            calc,
        ),
        _ => slot.stats.counts,
    }
}

/// The counts can take the report.
pub open spec fn can_count(slot: AssetSlot, action: Action) -> bool {
    match action {
        Action::LogTrade(rec) => slot.stats.counts.of(rec.outcome) < u32::MAX && slot.cycle_trades
            < u32::MAX,
        Action::LogTradeCorrection { previous_outcome, record, .. } => {
            let c = slot.stats.counts.without(previous_outcome);
            (record.outcome == Outcome::Win ==> c.wins < u32::MAX) && (record.outcome
                == Outcome::Loss ==> c.losses < u32::MAX)
        },
        _ => true,
    }
}

/// What the slot holds after a report: a trade counts for the cycle and is remembered as the
/// last one; a correction changes only the counts.
pub open spec fn after_report(
    before: AssetSlot,
    after: AssetSlot,
    action: Action,
    time: Seq<char>,
    calc: Calc,
    write: spec_fn(Num, Layout) -> Seq<char>,
) -> bool {
    &&& after == (AssetSlot {
        cycle_trades: if action is LogTrade {
            (before.cycle_trades + 1) as u32
        } else {
            before.cycle_trades
        },
        stats: Stats {
            counts: counts_after(before, action, calc),
            last_trade: after.stats.last_trade,
        },
        ..before
    })
    &&& match action {
        Action::LogTrade(rec) => opt_view(after.stats.last_trade) == Some(
            trade_summary_text(time, rec.side.text(), rec.outcome.text(), rec.pnl, write),
        ),
        _ => after.stats.last_trade == before.stats.last_trade,
    }
}

/// What the driver has to do about a report: say something, enter it in the log of halts,
/// or both.
#[derive(Clone, Debug)]
pub struct Announcement {
    pub notice: Option<String>,
    pub control_event: Option<&'static str>,
}

fn said(notice: String) -> (r: Announcement)
    ensures
        opt_view(r.notice) == Some(notice@),
        r.control_event is None,
{
    Announcement { notice: Some(notice), control_event: None }
}

fn said_and_logged(notice: String, event: &'static str) -> (r: Announcement)
    ensures
        opt_view(r.notice) == Some(notice@),
        str_view(r.control_event) == Some(event@),
{
    Announcement { notice: Some(notice), control_event: Some(event) }
}

/// Counts a report and says what to do about it.
pub fn report<F: Fn(Op, Num, Num) -> Num, W: Fn(Num, Layout) -> String>(
    slot: &mut AssetSlot,
    action: &Action,
    time: &str,
    arith: &Arith<F>,
    writer: &Writer<W>,
) -> (r: Announcement)
    requires
        can_count(*old(slot), *action),
    ensures
        after_report(*old(slot), *final(slot), *action, time@, arith@, writer@),
        opt_view(r.notice) == notice_for(*final(slot), *action, time@, arith@, writer@),
        str_view(r.control_event) == control_name(*action),
{
    match action {
        Action::LogTrade(rec) => {
            slot.cycle_trades = slot.cycle_trades + 1;
            slot.stats.counts.book(rec.outcome, rec.pnl, arith);
            let summary = trade_summary(
                time,
                rec.side.as_str(),
                rec.outcome.as_str(),
                rec.pnl,
                writer,
            );
            slot.stats.last_trade = Some(summary);
            let delta = arith.times(slot.worker.delta_pct, num(HUNDRED));
            said(
                trade_closed(
                    icon(rec.outcome, rec.pnl),
                    slot.market_key().as_str(),
                    rec.outcome.as_str(),
                    time,
                    arrow_side(rec.side),
                    slot.worker.strategy_name.as_str(),
                    rec.token_price,
                    rec.exit_price,
                    slot.worker.cycle_open_binance,
                    slot.last_binance,
                    delta,
                    plus_or_minus(rec.pnl),
                    rec.pnl.abs(),
                    slot.stats.counts.wins,
                    slot.stats.counts.losses,
                    writer,
                ),
            )
        },
        Action::LogTradeCorrection { previous_outcome, previous_pnl, record } => {
            slot.stats.counts.correct(
                *previous_outcome,
                *previous_pnl,
                record.outcome,
                record.pnl,
                arith,
            );
            said(
                result_corrected(
                    slot.market_key().as_str(),
                    time,
                    slot.worker.strategy_name.as_str(),
                    previous_outcome.as_str(),
                    record.outcome.as_str(),
                    plus_or_nothing(*previous_pnl),
                    *previous_pnl,
                    plus_or_nothing(record.pnl),
                    record.pnl,
                    writer,
                ),
            )
        },
        Action::StopLossVerdict { would_have_won, .. } => {
            let market = slot.market_key();
            let strategy = slot.worker.strategy_name.as_str();
            if *would_have_won {
                said(
                    stop_verdict(
                        "🔴",
                        market.as_str(),
                        "COSTLY",
                        time,
                        strategy,
                        "market would have favored the position — stop cost money",
                    ),
                )
            } else {
                said(
                    stop_verdict(
                        "🟢",
                        market.as_str(),
                        "GOOD",
                        time,
                        strategy,
                        "market moved against the position — stop saved money",
                    ),
                )
            }
        },
        Action::HaltEngaged => said_and_logged(
            halt_engaged(
                slot.market_key().as_str(),
                time,
                slot.worker.strategy_name.as_str(),
                halt_limit_of(slot),
            ),
            "halt_engaged",
        ),
        Action::HaltReset => said_and_logged(
            halt_reset(slot.market_key().as_str(), time, slot.worker.strategy_name.as_str()),
            "halt_reset",
        ),
        Action::HaltClearedByCorrection => said_and_logged(
            halt_cleared(slot.market_key().as_str(), time, slot.worker.strategy_name.as_str()),
            "halt_cleared_by_correction",
        ),
        Action::GammaHaltEngaged { record } => said_and_logged(
            gamma_halted(
                slot.market_key().as_str(),
                time,
                slot.worker.strategy_name.as_str(),
                record.slug.as_str(),
                slot.params.gamma_poll_deadline_secs,
                record.outcome.as_str(),
                plus_or_nothing(record.pnl),
                record.pnl,
                writer,
            ),
            "gamma_halt_engaged",
        ),
        Action::GammaUnresolvedContinued { record, entry_suppressed } => {
            let suffix = if *entry_suppressed {
                " (new entries remain suppressed by a separate halt already in effect.)"
            } else {
                " New entries continue normally."
            };
            said(
                gamma_continued(
                    slot.market_key().as_str(),
                    time,
                    slot.worker.strategy_name.as_str(),
                    record.slug.as_str(),
                    slot.params.gamma_poll_deadline_secs,
                    record.outcome.as_str(),
                    plus_or_nothing(record.pnl),
                    record.pnl,
                    suffix,
                    writer,
                ),
            )
        },
        _ => Announcement { notice: None, control_event: None },
    }
}

/// What is said of a weather trade.
pub fn weather_notice<W: Fn(Num, Layout) -> String>(
    t: &WeatherTrade,
    time: &str,
    writer: &Writer<W>,
) -> (r: String)
    ensures
        r@ == weather_closed_text(
            if t.pnl.ge(num(ZERO)) {
                "✅"@
            } else {
                "❌"@
            },
            t.city@,
            t.outcome@,
            time@,
            t.bucket@,
            t.entry_price,
            t.exit_price,
            t.shares,
            either_sign(t.pnl),
            t.pnl.abs(),
            writer@,
        ),
{
    let icon = if t.pnl.ge(num(ZERO)) {
        "✅"
    } else {
        "❌"
    };
    weather_closed(
        icon,
        t.city.as_str(),
        t.outcome,
        time,
        t.bucket.as_str(),
        t.entry_price,
        t.exit_price,
        t.shares,
        plus_or_minus(t.pnl),
        t.pnl.abs(),
        writer,
    )
}

/// `asset:strategy` of each slot.
pub open spec fn pair_texts(slots: Seq<AssetSlot>) -> Seq<Seq<char>> {
    slots.map_values(|s: AssetSlot| s.worker.asset@ + ":"@ + s.worker.strategy_name@)
}

/// What is said when the driver is up.
pub fn start_notice<W: Fn(Num, Layout) -> String>(
    slots: &Vec<AssetSlot>,
    size: Num,
    max_trades: u32,
    writer: &Writer<W>,
) -> (r: String)
    ensures
        r@ == driver_started_text(joined(pair_texts(slots@), ", "@), size, max_trades, writer@),
{
    let mut pairs: Vec<String> = Vec::new();
    let mut i: usize = 0;
    while i < slots.len()
        invariant
            i <= slots@.len(),
            pairs@.len() == i,
            forall|k: int| 0 <= k < i ==> #[trigger] pairs@[k]@ == pair_texts(slots@)[k],
        decreases slots@.len() - i,
    {
        let mut pair = slots[i].worker.asset.clone();
        pair.append(":");
        pair.append(slots[i].worker.strategy_name.as_str());
        pairs.push(pair);
        i = i + 1;
    }
    assert(views(pairs@) =~= pair_texts(slots@));
    driver_started(join(&pairs, ", ").as_str(), size, max_trades, writer)
}

/// What is said when the driver goes down.
pub fn stop_notice(terminated: bool, trading: &Vec<String>) -> (r: String)
    ensures
        r@ == "🔴 live driver shutting down"@ + (if terminated {
            " (SIGTERM): "@
        } else {
            ": "@
        }) + joined(views(trading@), ", "@),
{
    let mut r = "🔴 live driver shutting down".to_owned();
    if terminated {
        r.append(" (SIGTERM): ");
    } else {
        r.append(": ");
    }
    r.append(join(trading, ", ").as_str());
    r
}

/// The sign of life of a slot in a cycle.
pub open spec fn heartbeat_text(
    slot: AssetSlot,
    slug: Seq<char>,
    now: Num,
    indicators: Option<Seq<char>>,
    calc: Calc,
    write: spec_fn(Num, Layout) -> Seq<char>,
) -> Seq<char> {
    "[live] heartbeat "@ + slot.key() + " ("@ + slot.worker.strategy_name@ + ") slug="@ + slug
        + " T-"@ + write(calc.minus(slot.worker.cycle_end_ts, now), Layout::Fixed(0))
        + "s binance="@ + write(slot.last_binance, Layout::Fixed(4)) + " up="@ + write(
        slot.last_poly_up,
        Layout::Fixed(4),
    ) + " dn="@ + write(slot.last_poly_dn, Layout::Fixed(4)) + match indicators {
        Some(text) => " ind["@ + text + "]"@,
        None => Seq::empty(),
    }
}

/// The sign of life of a slot; none outside a cycle. `indicators` are the fresh ones.
pub fn heartbeat<F: Fn(Op, Num, Num) -> Num, W: Fn(Num, Layout) -> String>(
    slot: &AssetSlot,
    now: Num,
    indicators: Option<String>,
    arith: &Arith<F>,
    writer: &Writer<W>,
) -> (r: Option<String>)
    ensures
        opt_view(r) == match slot.current_slug {
            Some(slug) => Some(
                heartbeat_text(*slot, slug@, now, opt_view(indicators), arith@, writer@),
            ),
            None => None,
        },
{
    match &slot.current_slug {
        None => None,
        Some(slug) => {
            let mut r = "[live] heartbeat ".to_owned();
            r.append(slot.market_key().as_str());
            r.append(" (");
            r.append(slot.worker.strategy_name.as_str());
            r.append(") slug=");
            r.append(slug.as_str());
            r.append(" T-");
            let left = arith.minus(slot.worker.cycle_end_ts, now);
            r.append(writer.write(left, Layout::Fixed(0)).as_str());
            r.append("s binance=");
            r.append(writer.write(slot.last_binance, Layout::Fixed(4)).as_str());
            r.append(" up=");
            r.append(writer.write(slot.last_poly_up, Layout::Fixed(4)).as_str());
            r.append(" dn=");
            r.append(writer.write(slot.last_poly_dn, Layout::Fixed(4)).as_str());
            match &indicators {
                Some(text) => {
                    r.append(" ind[");
                    r.append(text.as_str());
                    r.append("]");
                },
                None => {},
            }
            assert(r@ =~= heartbeat_text(
                *slot,
                slug@,
                now,
                opt_view(indicators),
                arith@,
                writer@,
            ));
            Some(r)
        },
    }
}

} // verus!

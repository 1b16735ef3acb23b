//! What the messages of the live driver tell.

use vstd::prelude::*;

use crate::execution::{CloseResult, SellStatus, TradeResult, HUNDRED};
use crate::laws::driver::per_share;
use crate::laws::records::outcome_name;
use crate::laws::replay::limit_reached;
use crate::live::latency::{exchange_ms, latency_text, ms_between};
use crate::live::messages::{stop_verdict_text, trade_closed_text};
use crate::live::notices::{
    either_sign, icon_text, notice_for, plus_sign, report, verdict_text, Announcement,
};
use crate::live::orders::{
    binance_note, buy_notice, clob_note, close_notice, percent, secs_left, Action, CloseReason,
    Feed, OrderTimes,
};
use crate::live::slot::{confirming_labels, still_halted, AssetSlot, WorkerState};
use crate::live::arrow_text;
use crate::num::{num, Arith, Calc, Layout, Num, Op, Writer, ZERO};
use crate::telegram::commands::CommandView;
use crate::telegram::reply_of;
use crate::text::{contains, decimal, signed_decimal, stands_at};
use crate::types::{Outcome, Side, TradeRecord};

verus! {

proof fn part_is_contained(a: Seq<char>, part: Seq<char>, b: Seq<char>)
    ensures
        contains(a + part + b, part),
{
    let all = a + part + b;
    assert(all.subrange(a.len() as int, (a.len() + part.len()) as int) =~= part);
    assert(stands_at(all, part, a.len() as int));
}

/// A filled buy is told at what a share cost, with the move of Binance in percent, and with the
/// number of tries.
pub proof fn filled_buy_is_told_at_its_cost(
    slot: AssetSlot,
    side: Side,
    price: Num,
    feed: Feed,
    times: OrderTimes,
    time: Seq<char>,
    result: TradeResult,
    calc: Calc,
    write: spec_fn(Num, Layout) -> Seq<char>,
)
    requires
        result.placed,
        num(ZERO).lt(result.filled_shares),
    ensures
        ({
            let text = buy_notice(slot, side, price, feed, times, time, result, calc, write);
            &&& contains(
                text,
                "\nprice="@ + write(result.cost, Layout::Fixed(4)) + " | delta="@ + write(
                    calc.times(slot.worker.delta_pct, num(HUNDRED)),
                    Layout::Signed(3),
                ) + "% | "@,
            )
            &&& contains(text, "ms | n_attempts="@ + decimal(result.attempts as nat))
        }),
{
    let text = buy_notice(slot, side, price, feed, times, time, result, calc, write);
    let part = "\nprice="@ + write(result.cost, Layout::Fixed(4)) + " | delta="@ + write(
        calc.times(slot.worker.delta_pct, num(HUNDRED)),
        Layout::Signed(3),
    ) + "% | "@;
    let head = "📋 <b>"@ + slot.key() + "</b> Order placed | "@ + time + " | T-"@ + signed_decimal(
        secs_left(slot, times.now, calc) as int,
    ) + "s | "@ + arrow_text(side) + " | "@ + slot.worker.strategy_name@;
    let ms = ms_between(times.signal_ts, times.confirmed_ts, calc);
    let tail = clob_note(slot, feed, times.received_ts, calc, write) + " | "@ + binance_note(
        slot,
        feed,
        times.received_ts,
        calc,
        write,
    ) + " | process_latency="@ + write(ms, Layout::Fixed(0)) + "ms | n_attempts="@ + decimal(
        result.attempts as nat,
    );
    assert(text =~= head + part + tail);
    part_is_contained(head, part, tail);
    let end = "ms | n_attempts="@ + decimal(result.attempts as nat);
    let front = head + part + (clob_note(slot, feed, times.received_ts, calc, write) + " | "@
        + binance_note(slot, feed, times.received_ts, calc, write) + " | process_latency="@ + write(
        ms,
        Layout::Fixed(0),
    ));
    assert(text =~= front + end + Seq::empty());
    part_is_contained(front, end, Seq::empty());
}

/// A sale is told with the shares that went, what each of them brought, and what came in; a sale
/// that did not go through is not told.
pub proof fn sale_is_told_with_its_takings(
    slot: AssetSlot,
    reason: CloseReason,
    times: OrderTimes,
    time: Seq<char>,
    result: CloseResult,
    calc: Calc,
    write: spec_fn(Num, Layout) -> Seq<char>,
)
    ensures
        close_notice(slot, reason, times, time, result, calc, write) is Some <==> result.status
            == SellStatus::Matched,
        result.status == SellStatus::Matched ==> contains(
            close_notice(slot, reason, times, time, result, calc, write)->0,
            "\nsold="@ + write(result.shares_sold, Layout::Fixed(4)) + " @ "@ + write(
                per_share(result, calc),
                Layout::Fixed(4),
            ) + " = $"@ + write(result.filled_usdc, Layout::Fixed(4)) + " | "@,
        ),
{
    if result.status == SellStatus::Matched {
        let text = close_notice(slot, reason, times, time, result, calc, write)->0;
        let part = "\nsold="@ + write(result.shares_sold, Layout::Fixed(4)) + " @ "@ + write(
            per_share(result, calc),
            Layout::Fixed(4),
        ) + " = $"@ + write(result.filled_usdc, Layout::Fixed(4)) + " | "@;
        let head = "📤 <b>"@ + slot.key() + "</b> "@ + reason.label_text() + " order executed | "@
            + time + " | "@ + slot.worker.strategy_name@;
        let ms = ms_between(times.signal_ts, times.confirmed_ts, calc);
        let tail = "clob_latency="@ + latency_text(
            exchange_ms(slot.last_poly_ts, slot.last_poly_server_ts, calc),
            write,
        ) + " | process_latency="@ + write(ms, Layout::Fixed(0)) + "ms | n_attempts="@ + decimal(
            result.attempts as nat,
        );
        assert(text =~= head + part + tail);
        part_is_contained(head, part, tail);
    }
}

/// A closed trade is told with its outcome, the prices that it entered and left at, and its gain
/// with its sign.
pub proof fn closed_trade_is_told_with_its_gain(
    slot: AssetSlot,
    rec: TradeRecord,
    time: Seq<char>,
    calc: Calc,
    write: spec_fn(Num, Layout) -> Seq<char>,
)
    ensures
        ({
            let text = notice_for(slot, Action::LogTrade(rec), time, calc, write);
            &&& text is Some
            &&& contains(text->0, " TRADE "@ + outcome_name(rec.outcome) + "</b> | "@)
            &&& contains(
                text->0,
                "\nentry="@ + write(rec.token_price, Layout::Fixed(4)) + " → exit="@ + write(
                    rec.exit_price,
                    Layout::Fixed(4),
                ) + " | cycle: $"@,
            )
            &&& contains(
                text->0,
                "% | pnl="@ + (if num(ZERO).le(rec.pnl) {
                    "+"@
                } else {
                    "-"@
                }) + "$"@ + write(rec.pnl.abs(), Layout::Fixed(4)) + " | "@,
            )
        }),
{
    let counts = slot.stats.counts;
    let a = icon_text(rec.outcome, rec.pnl) + " <b>"@ + slot.key();
    let p1 = " TRADE "@ + outcome_name(rec.outcome) + "</b> | "@;
    let m1 = time + " | "@ + arrow_text(rec.side) + " | "@ + slot.worker.strategy_name@;
    let p2 = "\nentry="@ + write(rec.token_price, Layout::Fixed(4)) + " → exit="@ + write(
        rec.exit_price,
        Layout::Fixed(4),
    ) + " | cycle: $"@;
    let m2 = write(slot.worker.cycle_open_binance, Layout::Fixed(2)) + "→$"@ + write(
        slot.last_binance,
        Layout::Fixed(2),
    ) + " | delta="@ + write(percent(slot, calc), Layout::Signed(3));
    let p3 = "% | pnl="@ + either_sign(rec.pnl) + "$"@ + write(rec.pnl.abs(), Layout::Fixed(4))
        + " | "@;
    let z = decimal(counts.wins as nat) + "W/"@ + decimal(counts.losses as nat) + "L"@;
    closed_trade_parts(
        icon_text(rec.outcome, rec.pnl),
        slot.key(),
        rec.outcome.text(),
        time,
        arrow_text(rec.side),
        slot.worker.strategy_name@,
        rec.token_price,
        rec.exit_price,
        slot.worker.cycle_open_binance,
        slot.last_binance,
        percent(slot, calc),
        either_sign(rec.pnl),
        rec.pnl.abs(),
        counts.wins,
        counts.losses,
        write,
    );
    three_parts(a, p1, m1, p2, m2, p3, z);
}

proof fn three_parts(
    a: Seq<char>,
    p1: Seq<char>,
    m1: Seq<char>,
    p2: Seq<char>,
    m2: Seq<char>,
    p3: Seq<char>,
    z: Seq<char>,
)
    ensures
        contains(a + p1 + m1 + p2 + m2 + p3 + z, p1),
        contains(a + p1 + m1 + p2 + m2 + p3 + z, p2),
        contains(a + p1 + m1 + p2 + m2 + p3 + z, p3),
{
    let text = a + p1 + m1 + p2 + m2 + p3 + z;
    part_is_contained(a, p1, m1 + p2 + m2 + p3 + z);
    assert(text =~= a + p1 + (m1 + p2 + m2 + p3 + z));
    part_is_contained(a + p1 + m1, p2, m2 + p3 + z);
    assert(text =~= (a + p1 + m1) + p2 + (m2 + p3 + z));
    part_is_contained(a + p1 + m1 + p2 + m2, p3, z);
    assert(text =~= (a + p1 + m1 + p2 + m2) + p3 + z);
}

#[verifier::rlimit(60)]
proof fn closed_trade_parts(
    icon: Seq<char>,
    market: Seq<char>,
    outcome: Seq<char>,
    time: Seq<char>,
    side: Seq<char>,
    strategy: Seq<char>,
    entry: Num,
    exit: Num,
    open: Num,
    last: Num,
    delta: Num,
    sign: Seq<char>,
    pnl: Num,
    wins: u32,
    losses: u32,
    write: spec_fn(Num, Layout) -> Seq<char>,
)
    ensures
        trade_closed_text(
            icon,
            market,
            outcome,
            time,
            side,
            strategy,
            entry,
            exit,
            open,
            last,
            delta,
            sign,
            pnl,
            wins,
            losses,
            write,
        ) == (icon + " <b>"@ + market) + (" TRADE "@ + outcome + "</b> | "@) + (time + " | "@ + side
            + " | "@ + strategy) + ("\nentry="@ + write(entry, Layout::Fixed(4)) + " → exit="@
            + write(exit, Layout::Fixed(4)) + " | cycle: $"@) + (write(open, Layout::Fixed(2))
            + "→$"@ + write(last, Layout::Fixed(2)) + " | delta="@ + write(
            delta,
            Layout::Signed(3),
        )) + ("% | pnl="@ + sign + "$"@ + write(pnl, Layout::Fixed(4)) + " | "@) + (decimal(
            wins as nat,
        ) + "W/"@ + decimal(losses as nat) + "L"@),
{
    let a = icon + " <b>"@ + market;
    let p1 = " TRADE "@ + outcome + "</b> | "@;
    let m1 = time + " | "@ + side + " | "@ + strategy;
    let e = write(entry, Layout::Fixed(4));
    let x = write(exit, Layout::Fixed(4));
    let o = write(open, Layout::Fixed(2));
    let l = write(last, Layout::Fixed(2));
    let d = write(delta, Layout::Signed(3));
    let g = write(pnl, Layout::Fixed(4));
    let w = decimal(wins as nat);
    let n = decimal(losses as nat);
    let t1 = a + " TRADE "@ + outcome + "</b> | "@;
    assert(t1 =~= a + p1);
    let t2 = t1 + time + " | "@ + side + " | "@ + strategy;
    assert(t2 =~= t1 + m1);
    let t3 = t2 + "\nentry="@ + e + " → exit="@ + x + " | cycle: $"@;
    assert(t3 =~= t2 + ("\nentry="@ + e + " → exit="@ + x + " | cycle: $"@));
    let t4 = t3 + o + "→$"@ + l + " | delta="@ + d;
    assert(t4 =~= t3 + (o + "→$"@ + l + " | delta="@ + d));
    let t5 = t4 + "% | pnl="@ + sign + "$"@ + g + " | "@;
    assert(t5 =~= t4 + ("% | pnl="@ + sign + "$"@ + g + " | "@));
    let t6 = t5 + w + "W/"@ + n + "L"@;
    assert(t6 =~= t5 + (w + "W/"@ + n + "L"@));
}

/// The labels of the workers that wait are those whose trade waits for its resolution, each with
/// its strategy.
pub proof fn waiting_workers_are_labelled(
    labels: Seq<Seq<char>>,
    workers: Seq<WorkerState>,
    label: Seq<char>,
)
    requires
        labels.len() >= workers.len(),
    ensures
        confirming_labels(labels, workers).contains(label) <==> exists|i: int|
            {
                &&& 0 <= i < workers.len()
                &&& (#[trigger] workers[i]).confirming
                &&& label == labels[i] + "/"@ + workers[i].strategy_name@
            },
    decreases workers.len(),
{
    if workers.len() > 0 {
        let rest = workers.drop_last();
        let n = workers.len() - 1;
        waiting_workers_are_labelled(labels, rest, label);
        let before = confirming_labels(labels, rest);
        let all = confirming_labels(labels, workers);
        assert(workers[n] == workers.last());
        if before.contains(label) {
            let k = choose|k: int| 0 <= k < before.len() && before[k] == label;
            assert(all[k] == label);
            let i = choose|i: int|
                {
                    &&& 0 <= i < rest.len()
                    &&& (#[trigger] rest[i]).confirming
                    &&& label == labels[i] + "/"@ + rest[i].strategy_name@
                };
            assert(workers[i] == rest[i]);
        }
        if all.contains(label) {
            let k = choose|k: int| 0 <= k < all.len() && all[k] == label;
            if k < before.len() {
                assert(before[k] == label);
            }
        }
        if exists|i: int|
            {
                &&& 0 <= i < workers.len()
                &&& (#[trigger] workers[i]).confirming
                &&& label == labels[i] + "/"@ + workers[i].strategy_name@
            } {
            let i = choose|i: int|
                {
                    &&& 0 <= i < workers.len()
                    &&& (#[trigger] workers[i]).confirming
                    &&& label == labels[i] + "/"@ + workers[i].strategy_name@
                };
            if i < n {
                assert(rest[i] == workers[i]);
            } else {
                assert(all.last() == label);
            }
        }
    }
}

/// A resume names as many workers that stay halted as have reached their limit of losses.
pub proof fn resume_names_who_stays_halted(workers: Seq<WorkerState>)
    ensures
        still_halted(workers).len() > 0 <==> exists|i: int|
            0 <= i < workers.len() && limit_reached((#[trigger] workers[i]).gate.streak),
    decreases workers.len(),
{
    if workers.len() > 0 {
        let rest = workers.drop_last();
        let n = workers.len() - 1;
        resume_names_who_stays_halted(rest);
        assert(workers[n] == workers.last());
        if exists|i: int|
            0 <= i < rest.len() && limit_reached((#[trigger] rest[i]).gate.streak) {
            let i = choose|i: int|
                0 <= i < rest.len() && limit_reached((#[trigger] rest[i]).gate.streak);
            assert(workers[i] == rest[i]);
        }
        if exists|i: int|
            0 <= i < workers.len() && limit_reached((#[trigger] workers[i]).gate.streak) {
            let i = choose|i: int|
                0 <= i < workers.len() && limit_reached((#[trigger] workers[i]).gate.streak);
            if i < n {
                assert(rest[i] == workers[i]);
            }
        }
    }
}

/// A trade counts for its cycle, once; no other report does. What a report says and logs is what
/// it is about.
pub proof fn trades_count_for_their_cycle<
    F: Fn(Op, Num, Num) -> Num,
    W: Fn(Num, Layout) -> String,
>(rec: TradeRecord, time: &str, arith: Arith<F>, writer: Writer<W>)
    ensures
        forall|slot: &mut AssetSlot, r: Announcement| #[trigger]
            call_ensures(
                report::<F, W>,
                (slot, &Action::LogTrade(rec), time, &arith, &writer),
                r,
            ) && slot.cycle_trades < u32::MAX ==> {
                &&& final(slot).cycle_trades == slot.cycle_trades + 1
                &&& final(slot).worker == slot.worker
                &&& final(slot).current_token_id == slot.current_token_id
                &&& final(slot).stats.last_trade is Some
                &&& r.notice is Some
                &&& r.control_event is None
            },
        forall|slot: &mut AssetSlot, r: Announcement| #[trigger]
            call_ensures(
                report::<F, W>,
                (slot, &Action::HaltEngaged, time, &arith, &writer),
                r,
            ) ==> {
                &&& final(slot).cycle_trades == slot.cycle_trades
                &&& final(slot).stats.counts == slot.stats.counts
                &&& r.notice is Some
                &&& r.control_event is Some
                &&& r.control_event->0@ == "halt_engaged"@
            },
{
}

/// A buy that was not filled is told at the price that was seen, with the number of tries and the
/// reason that was given.
pub proof fn rejected_buy_is_told_with_its_reason(
    slot: AssetSlot,
    side: Side,
    price: Num,
    feed: Feed,
    times: OrderTimes,
    time: Seq<char>,
    result: TradeResult,
    calc: Calc,
    write: spec_fn(Num, Layout) -> Seq<char>,
)
    requires
        !result.placed || !num(ZERO).lt(result.filled_shares),
        result.error is Some,
    ensures
        ({
            let text = buy_notice(slot, side, price, feed, times, time, result, calc, write);
            &&& contains(text, "\nsignal price="@ + write(price, Layout::Fixed(4)) + " | delta="@)
            &&& contains(
                text,
                "% | n_attempts="@ + decimal(result.attempts as nat) + " | error="@
                    + result.error->0@,
            )
        }),
{
    let text = buy_notice(slot, side, price, feed, times, time, result, calc, write);
    let head = "❗ <b>"@ + slot.key() + "</b> Order REJECTED | "@ + time + " | T-"@
        + signed_decimal(secs_left(slot, times.now, calc) as int) + "s | "@ + arrow_text(side)
        + " | "@ + slot.worker.strategy_name@;
    let part = "\nsignal price="@ + write(price, Layout::Fixed(4)) + " | delta="@;
    let middle = write(percent(slot, calc), Layout::Signed(3));
    let end = "% | n_attempts="@ + decimal(result.attempts as nat) + " | error="@
        + result.error->0@;
    assert(text =~= head + part + (middle + end));
    part_is_contained(head, part, middle + end);
    assert(text =~= (head + part + middle) + end + Seq::empty());
    part_is_contained(head + part + middle, end, Seq::empty());
}

/// A correction is told from the outcome that was counted to the true one.
pub proof fn correction_is_told_from_old_to_new(
    slot: AssetSlot,
    previous_outcome: Outcome,
    previous_pnl: Num,
    record: TradeRecord,
    time: Seq<char>,
    calc: Calc,
    write: spec_fn(Num, Layout) -> Seq<char>,
)
    ensures
        ({
            let text = notice_for(
                slot,
                Action::LogTradeCorrection { previous_outcome, previous_pnl, record },
                time,
                calc,
                write,
            );
            &&& text is Some
            &&& contains(
                text->0,
                "\nestimated="@ + outcome_name(previous_outcome) + " → API="@ + outcome_name(
                    record.outcome,
                ) + " | pnl "@,
            )
            &&& contains(
                text->0,
                write(previous_pnl, Layout::Fixed(4)) + " → "@ + plus_sign(record.pnl) + write(
                    record.pnl,
                    Layout::Fixed(4),
                ),
            )
        }),
{
    let text = notice_for(
        slot,
        Action::LogTradeCorrection { previous_outcome, previous_pnl, record },
        time,
        calc,
        write,
    )->0;
    let head = "⚠️ <b>"@ + slot.key() + " RESULT CORRECTED</b> | "@ + time + " | "@
        + slot.worker.strategy_name@;
    let part = "\nestimated="@ + outcome_name(previous_outcome) + " → API="@ + outcome_name(
        record.outcome,
    ) + " | pnl "@;
    let sign = plus_sign(previous_pnl);
    let end = write(previous_pnl, Layout::Fixed(4)) + " → "@ + plus_sign(record.pnl) + write(
        record.pnl,
        Layout::Fixed(4),
    );
    assert(text =~= head + part + (sign + end));
    part_is_contained(head, part, sign + end);
    assert(text =~= (head + part + sign) + end + Seq::empty());
    part_is_contained(head + part + sign, end, Seq::empty());
}

/// A verdict on a stop says that it cost money exactly when the position would have won.
pub proof fn verdict_goes_by_the_resolution(slot: AssetSlot, time: Seq<char>)
    ensures
        verdict_text(slot, true, time) == stop_verdict_text(
            "🔴"@,
            slot.key(),
            "COSTLY"@,
            time,
            slot.worker.strategy_name@,
            "market would have favored the position — stop cost money"@,
        ),
        verdict_text(slot, false, time) == stop_verdict_text(
            "🟢"@,
            slot.key(),
            "GOOD"@,
            time,
            slot.worker.strategy_name@,
            "market moved against the position — stop saved money"@,
        ),
{
}

/// The answer to a change names what it was sent for: the asset, or all of them.
pub proof fn answer_names_the_asset(asset: Seq<char>, strategy: Option<Seq<char>>)
    ensures
        ({
            let whom = if asset.len() == 0 {
                "all assets"@
            } else {
                asset
            };
            &&& reply_of(CommandView::Halt { asset, strategy }) == Some(
                "🛑 Sent halt for "@ + whom,
            )
            &&& reply_of(CommandView::Resume { asset, strategy }) == Some(
                "▶️ Sent resume for "@ + whom,
            )
            &&& reply_of(CommandView::ResetLosses { asset }) == Some(
                "🔄 reset_losses sent for "@ + whom,
            )
        }),
{
}

/// The answer to a setting names the parameter, for whom it is set, and the value.
pub proof fn answer_names_the_value(param: Seq<char>, key: Seq<char>, value: Seq<char>)
    ensures
        reply_of(CommandView::SetParam { param, key, value }) == Some(
            "✅ Sent: set "@ + param + "["@ + key + "] = "@ + value,
        ),
        reply_of(CommandView::Invalid(value)) == Some(value),
        reply_of(CommandView::Status) is None,
{
}

} // verus!

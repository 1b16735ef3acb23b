//! When a loss streak halts a strategy, and what a halt does to a replay.

use vstd::prelude::*;

use crate::backtest::{
    binance_rows_of, poly_rows_of, replay, replay_cycle, replayable, stamp, suppressed, BinanceRow,
    PolyRow, Progress, Recording,
};
use crate::calendar::{number_identifies_date, CivilDate};
use crate::halt::{after_trades, has_session, hkt_session, HaltTracker};
use crate::laws::replay::{barred, barred_strategy_trades_nothing, limit_reached};
use crate::machine::Machine;
use crate::num::{num, Arith, Calc, Num, Op, Reader, ZERO};
use crate::types::{Outcome, TradeRecord};

verus! {

/// A trade of the strategy that settled against it or was stopped. One that ran out of time, or
/// took a profit, is none.
pub open spec fn is_own_loss(r: TradeRecord, strategy: Seq<char>) -> bool {
    r.strategy@ == strategy && (r.outcome == Outcome::Loss || r.outcome == Outcome::StopLoss)
}

/// How many of the trades are losses of the strategy.
pub open spec fn losses_in(trades: Seq<TradeRecord>, strategy: Seq<char>) -> nat
    decreases trades.len(),
{
    if trades.len() == 0 {
        0
    } else {
        losses_in(trades.drop_last(), strategy) + if is_own_loss(trades.last(), strategy) {
            1nat
        } else {
            0
        }
    }
}

/// The day in Hong Kong, counted from the first of 1970, of the instant `reset_hour` hours before.
pub open spec fn session_number(ts: Num, reset_hour: i64, calc: Calc) -> int {
    (calc.to_signed(ts) + 8 * 3600 - reset_hour * 3600) / 86400
}

/// Only losses of its own strategy move the count, each by one. A trade is said to begin a halt
/// exactly when the count reached the maximum with it.
pub proof fn own_losses_count(rec: TradeRecord, strategy: &str)
    ensures
        forall|h: &mut HaltTracker, r: bool| #[trigger]
            call_ensures(HaltTracker::record_trade, (h, &rec, strategy), r) ==> {
                &&& final(h).max == h.max
                &&& final(h).reset_hour == h.reset_hour
                &&& final(h).last_session == h.last_session
                &&& is_own_loss(rec, strategy@) && h.losses < i64::MAX ==> final(h).losses
                    == h.losses + 1
                &&& !is_own_loss(rec, strategy@) ==> final(h).losses == h.losses
                &&& h.losses == i64::MAX ==> final(h).losses == i64::MAX
                &&& r <==> !limit_reached(*h) && limit_reached(*final(h))
            },
{
}

/// A tracker is halted exactly when its count has reached a maximum above nothing. A new one has
/// counted nothing, and a restored one counts on.
pub proof fn tracker_halts_at_the_maximum(
    h: HaltTracker,
    max: i64,
    reset_hour: i64,
    losses: i64,
    last_session: Option<CivilDate>,
)
    ensures
        forall|r: bool| #[trigger]
            call_ensures(HaltTracker::is_halted, (&h,), r) ==> (r <==> h.max > 0 && h.losses
                >= h.max),
        forall|r: HaltTracker| #[trigger]
            call_ensures(HaltTracker::new, (max, reset_hour), r) ==> r.max == max && r.reset_hour
                == reset_hour && r.losses == 0 && r.last_session is None,
        forall|r: HaltTracker| #[trigger]
            call_ensures(HaltTracker::restore, (max, reset_hour, losses, last_session), r) ==> r.max
                == max && r.reset_hour == reset_hour && r.losses == losses && r.last_session
                == last_session,
{
}

/// Trades move the count by the number of losses among them, as long as it can be counted.
pub proof fn count_grows_by_the_losses(h: HaltTracker, trades: Seq<TradeRecord>, strategy: Seq<char>)
    requires
        h.losses + losses_in(trades, strategy) <= i64::MAX,
    ensures
        after_trades(h, trades, strategy).losses == h.losses + losses_in(trades, strategy),
        after_trades(h, trades, strategy).max == h.max,
        after_trades(h, trades, strategy).reset_hour == h.reset_hour,
        after_trades(h, trades, strategy).last_session == h.last_session,
    decreases trades.len(),
{
    if trades.len() > 0 {
        count_grows_by_the_losses(h, trades.drop_last(), strategy);
    }
}

/// Two instants belong to one session exactly when they fall on one day in Hong Kong, counted
/// from the reset hour on.
pub proof fn session_is_a_day_in_hong_kong<F: Fn(Op, Num, Num) -> Num>(
    a: Num,
    b: Num,
    reset_hour: i64,
    arith: Arith<F>,
)
    requires
        has_session(a, reset_hour, arith@),
        has_session(b, reset_hour, arith@),
    ensures
        forall|x: CivilDate, y: CivilDate|
            #[trigger] call_ensures(hkt_session::<F>, (a, reset_hour, &arith), x)
                && #[trigger] call_ensures(hkt_session::<F>, (b, reset_hour, &arith), y) ==> (x == y
                <==> session_number(a, reset_hour, arith@) == session_number(
                b,
                reset_hour,
                arith@,
            )),
{
    assert forall|x: CivilDate, y: CivilDate|
        #[trigger] call_ensures(hkt_session::<F>, (a, reset_hour, &arith), x)
            && #[trigger] call_ensures(hkt_session::<F>, (b, reset_hour, &arith), y) && session_number(
            a,
            reset_hour,
            arith@,
        ) == session_number(b, reset_hour, arith@) implies x == y by {
        number_identifies_date(x, y);
    }
}

/// In the session that was last seen the count stays and no halt ends; another one begins with
/// nothing counted and is remembered, and that ends a halt exactly where there was one.
pub proof fn new_session_forgets<F: Fn(Op, Num, Num) -> Num>(ts: Num, arith: Arith<F>)
    ensures
        forall|h: &mut HaltTracker, r: bool| #[trigger]
            call_ensures(HaltTracker::reset_if_new_session::<F>, (h, ts, &arith), r) ==> {
                let seen = h.last_session is Some && h.last_session->0.is_valid()
                    && h.last_session->0.number() == session_number(ts, h.reset_hour, arith@)
                    + 719163;
                &&& final(h).max == h.max
                &&& final(h).reset_hour == h.reset_hour
                &&& seen ==> final(h).losses == h.losses && final(h).last_session == h.last_session
                    && !r
                &&& !seen ==> final(h).losses == 0 && final(h).last_session is Some && (r
                    <==> limit_reached(*h))
                &&& !seen ==> final(h).last_session->0.number() == session_number(
                    ts,
                    h.reset_hour,
                    arith@,
                ) + 719163
            },
{
}

/// The trackers as a cycle begins: each with its count kept within a session and cleared with a
/// new one.
pub open spec fn began(h: HaltTracker, a: HaltTracker, ts: Num, calc: Calc) -> bool {
    let seen = h.last_session is Some && h.last_session->0.is_valid()
        && h.last_session->0.number() == session_number(ts, h.reset_hour, calc) + 719163;
    &&& a.max == h.max
    &&& a.reset_hour == h.reset_hour
    &&& a.losses == if seen {
        h.losses
    } else {
        0
    }
}

/// The time that ends a cycle's name.
pub open spec fn time_in(rec: Recording, name: Seq<char>) -> Num {
    match stamp(name, rec.read) {
        Some(x) => x,
        None => num(ZERO),
    }
}

/// The new trades of a cycle.
pub open spec fn new_trades(before: Progress, after: Progress) -> Seq<TradeRecord> {
    after.trades.skip(before.trades.len() as int)
}

/// In a replay a strategy whose own tracker has reached its maximum in the session in which a
/// cycle begins trades nothing in that cycle, whatever the other tracker says. What was traded
/// before stays.
pub proof fn reached_limit_stops_the_strategy(
    rec: Recording,
    at: Progress,
    name: String,
    rev: HaltTracker,
    hp: HaltTracker,
)
    requires
        rec.b.len() <= usize::MAX,
        rec.can_run(at, name@),
        rev == at.halt_rev.in_session(time_in(rec, name@), rec.calc),
        hp == at.halt_hp.in_session(time_in(rec, name@), rec.calc),
    ensures
        began(at.halt_rev, rev, time_in(rec, name@), rec.calc),
        began(at.halt_hp, hp, time_in(rec, name@), rec.calc),
        ({
            let after = rec.after_cycle(at, name);
            &&& after.trades.len() >= at.trades.len()
            &&& after.trades.take(at.trades.len() as int) == at.trades
            &&& forall|k: int|
                0 <= k < new_trades(at, after).len() ==> {
                    let r = #[trigger] new_trades(at, after)[k];
                    &&& limit_reached(rev) ==> r.strategy@ != "reversal"@
                    &&& limit_reached(hp) ==> r.strategy@ != "high_prob"@
                }
        }),
{
    let after = rec.after_cycle(at, name);
    let now = rec.begun(at, name@);
    let rows_b = binance_rows_of(rec.b, name@);
    let rows_p = poly_rows_of(rec.p, name@);
    if rec.any_active(now) {
        rec.b.lemma_filter_len(|r: BinanceRow| r.slug@ == name@);
        let (machines, trades) = replay(
            name,
            rows_b,
            rows_p,
            now.machines,
            now.halt_rev.halted(),
            now.halt_hp.halted(),
            rec.calc,
            rec.read,
        );
        barred_strategy_trades_nothing(
            name,
            rows_b,
            rows_p,
            now.machines,
            limit_reached(rev),
            limit_reached(hp),
            rec.calc,
            rec.read,
        );
        assert(new_trades(at, after) =~= trades);
    } else {
        assert(new_trades(at, after) =~= Seq::empty());
    }
    assert(after.trades.take(at.trades.len() as int) =~= at.trades);
}

/// A cycle is replayed exactly when some strategy of the asset may still trade in it; then both
/// trackers take in the losses of its trades, each those of its own strategy. Else nothing is
/// traded in it.
pub proof fn cycle_runs_while_a_strategy_may(
    rec: Recording,
    at: Progress,
    name: String,
    rev: HaltTracker,
    hp: HaltTracker,
)
    requires
        rev == at.halt_rev.in_session(time_in(rec, name@), rec.calc),
        hp == at.halt_hp.in_session(time_in(rec, name@), rec.calc),
    ensures
        ({
            let after = rec.after_cycle(at, name);
            let free = exists|i: int|
                0 <= i < rec.strategies.len() && !barred(
                    #[trigger] rec.strategies[i],
                    limit_reached(rev),
                    limit_reached(hp),
                );
            let ran = replay(
                name,
                binance_rows_of(rec.b, name@),
                poly_rows_of(rec.p, name@),
                at.machines,
                limit_reached(rev),
                limit_reached(hp),
                rec.calc,
                rec.read,
            );
            &&& free ==> after.trades == at.trades + ran.1 && after.machines == ran.0
            &&& !free ==> after.trades == at.trades && after.machines == at.machines
                && after.halt_rev == rev && after.halt_hp == hp
            &&& free && rev.losses + losses_in(ran.1, "reversal"@) <= i64::MAX
                ==> after.halt_rev.losses == rev.losses + losses_in(ran.1, "reversal"@)
            &&& free && hp.losses + losses_in(ran.1, "high_prob"@) <= i64::MAX
                ==> after.halt_hp.losses == hp.losses + losses_in(ran.1, "high_prob"@)
            &&& after.halt_rev.max == at.halt_rev.max
            &&& after.halt_hp.max == at.halt_hp.max
        }),
{
    let now = rec.begun(at, name@);
    assert(now.halt_rev == rev && now.halt_hp == hp);
    assert forall|i: int| 0 <= i < rec.strategies.len() implies suppressed(
        #[trigger] rec.strategies[i],
        rev.halted(),
        hp.halted(),
    ) == barred(rec.strategies[i], limit_reached(rev), limit_reached(hp)) by {
        reveal_strlit("reversal");
        reveal_strlit("high_prob");
        assert("reversal"@.len() == 8);
        assert("high_prob"@.len() == 9);
    }
    let ran = replay(
        name,
        binance_rows_of(rec.b, name@),
        poly_rows_of(rec.p, name@),
        at.machines,
        limit_reached(rev),
        limit_reached(hp),
        rec.calc,
        rec.read,
    );
    if rev.losses + losses_in(ran.1, "reversal"@) <= i64::MAX {
        count_grows_by_the_losses(rev, ran.1, "reversal"@);
    }
    if hp.losses + losses_in(ran.1, "high_prob"@) <= i64::MAX {
        count_grows_by_the_losses(hp, ran.1, "high_prob"@);
    }
    maximum_stays(rev, ran.1, "reversal"@);
    maximum_stays(hp, ran.1, "high_prob"@);
}

proof fn maximum_stays(h: HaltTracker, trades: Seq<TradeRecord>, strategy: Seq<char>)
    ensures
        after_trades(h, trades, strategy).max == h.max,
    decreases trades.len(),
{
    if trades.len() > 0 {
        maximum_stays(h, trades.drop_last(), strategy);
    }
}

/// A call that replays a cycle gives no trade of a strategy that is halted by its own halt.
pub proof fn replayed_cycle_keeps_the_halts<
    F: Fn(Op, Num, Num) -> Num,
    P: Fn(String) -> Option<Num>,
>(
    slug: String,
    b: Vec<BinanceRow>,
    p: Vec<PolyRow>,
    halted_rev: bool,
    halted_hp: bool,
    arith: Arith<F>,
    reader: Reader<P>,
)
    requires
        b@.len() <= usize::MAX,
        replayable(slug@, b@, p@, reader@),
    ensures
        forall|ms: &mut Vec<Machine>, r: Vec<TradeRecord>| #[trigger]
            call_ensures(
                replay_cycle::<F, P>,
                (&slug, &b, &p, ms, halted_rev, halted_hp, &arith, &reader),
                r,
            ) ==> forall|k: int|
                0 <= k < r@.len() ==> {
                    &&& halted_rev ==> (#[trigger] r@[k]).strategy@ != "reversal"@
                    &&& halted_hp ==> r@[k].strategy@ != "high_prob"@
                },
{
    assert forall|ms: &mut Vec<Machine>, r: Vec<TradeRecord>| #[trigger]
        call_ensures(
            replay_cycle::<F, P>,
            (&slug, &b, &p, ms, halted_rev, halted_hp, &arith, &reader),
            r,
        ) implies forall|k: int|
        0 <= k < r@.len() ==> {
            &&& halted_rev ==> (#[trigger] r@[k]).strategy@ != "reversal"@
            &&& halted_hp ==> r@[k].strategy@ != "high_prob"@
        } by {
        barred_strategy_trades_nothing(
            slug,
            b@,
            p@,
            ms@,
            halted_rev,
            halted_hp,
            arith@,
            reader@,
        );
    }
}

} // verus!

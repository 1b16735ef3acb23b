//! What a replay trades, and what its halts keep it from trading.

use vstd::prelude::*;

use crate::backtest::{
    all_timed, given, merged, opening_price, replay, replayable, row_times, run_ticks, stamp,
    suppressed, tick_record, time_before, time_order, BinanceRow, MergedTick, PolyRow,
};
use crate::halt::HaltTracker;
use crate::machine::Machine;
use crate::machine_laws::{
    after_steps, after_ticks, machines_run_apart, records_of, step_record,
    suppressed_cycle_has_no_trade, CycleStep,
};
use crate::num::{num, Calc, Num};
use crate::order::{sorted_order_covers, sorted_order_sorts, strict_order};
use crate::text::after_last;
use crate::types::{CycleContext, TradeRecord};

verus! {

/// A halt of its own keeps the strategy from entering: the halt of reversals a reversal, and the
/// halt of high_prob a high_prob.
pub open spec fn barred(strategy: Seq<char>, halted_rev: bool, halted_hp: bool) -> bool {
    ||| strategy == "reversal"@ && halted_rev
    ||| strategy == "high_prob"@ && halted_hp
}

/// The count has reached the maximum, where there is one.
pub open spec fn limit_reached(h: HaltTracker) -> bool {
    h.max > 0 && h.losses >= h.max
}

/// The ticks, and then the settlement, as what comes to a machine in a cycle.
pub open spec fn whole_cycle(ticks: Seq<MergedTick>) -> Seq<CycleStep> {
    tick_steps(ticks).push(CycleStep::Close)
}

pub open spec fn tick_steps(ticks: Seq<MergedTick>) -> Seq<CycleStep> {
    ticks.map_values(|t: MergedTick| CycleStep::Tick(t))
}

/// The context of a cycle: it begins at the time that ends its name, lasts five minutes, and
/// opens at the price of the earliest Binance row, the first of several.
pub open spec fn is_context(
    ctx: CycleContext,
    name: Seq<char>,
    b: Seq<BinanceRow>,
    calc: Calc,
    read: spec_fn(Seq<char>) -> Option<Num>,
) -> bool {
    &&& Some(ctx.start_ts) == read(after_last(name, '-'))
    &&& ctx.end_ts == calc.plus(ctx.start_ts, num(0x4072_C000_0000_0000))
    &&& exists|j: int|
        {
            &&& 0 <= j < b.len()
            &&& ctx.open_binance == (#[trigger] b[j]).price
            &&& forall|k: int|
                0 <= k < b.len() && k != j ==> b[j].ts.lt(#[trigger] b[k].ts) || (b[j].ts.le(
                    b[k].ts,
                ) && j < k)
        }
}

proof fn given_holds(records: Seq<Option<TradeRecord>>, r: TradeRecord)
    ensures
        given(records).contains(r) <==> exists|k: int|
            0 <= k < records.len() && #[trigger] records[k] == Some(r),
    decreases records.len(),
{
    if records.len() > 0 {
        let rest = records.drop_last();
        given_holds(rest, r);
        if given(rest).contains(r) {
            let k = choose|k: int| 0 <= k < rest.len() && #[trigger] rest[k] == Some(r);
            assert(records[k] == Some(r));
        }
        if records.last() == Some(r) {
            assert(records[records.len() - 1] == Some(r));
            assert(given(records).last() == r);
        }
        if exists|k: int| 0 <= k < records.len() && #[trigger] records[k] == Some(r) {
            let k = choose|k: int| 0 <= k < records.len() && #[trigger] records[k] == Some(r);
            if k < rest.len() {
                assert(rest[k] == Some(r));
                let at = choose|at: int| 0 <= at < given(rest).len() && given(rest)[at] == r;
                assert(given(records)[at] == r);
            }
        }
        if given(records).contains(r) && records.last() is Some {
            let at = choose|at: int| 0 <= at < given(records).len() && given(records)[at] == r;
            if at < given(rest).len() {
                assert(given(rest)[at] == r);
            }
        }
    }
}

proof fn steps_are_ticks(m: Machine, ticks: Seq<MergedTick>, calc: Calc)
    ensures
        after_steps(m, tick_steps(ticks), calc) == after_ticks(m, ticks, calc),
    decreases ticks.len(),
{
    if ticks.len() > 0 {
        steps_are_ticks(m, ticks.drop_last(), calc);
        assert(tick_steps(ticks).drop_last() =~= tick_steps(ticks.drop_last()));
    }
}

/// One of the machines, run alone, gives the record.
pub open spec fn some_gives(ms: Seq<Machine>, steps: Seq<CycleStep>, calc: Calc, r: TradeRecord) -> bool {
    exists|i: int| 0 <= i < ms.len() && #[trigger] records_of(ms[i], steps, calc).contains(r)
}

proof fn last_step_gives(m: Machine, steps: Seq<CycleStep>, calc: Calc, r: TradeRecord)
    requires
        steps.len() > 0,
    ensures
        records_of(m, steps, calc).contains(r) <==> records_of(m, steps.drop_last(), calc).contains(
            r,
        ) || step_record(after_steps(m, steps.drop_last(), calc), steps.last(), calc) == Some(r),
{
    let before = records_of(m, steps.drop_last(), calc);
    let all = records_of(m, steps, calc);
    let last = step_record(after_steps(m, steps.drop_last(), calc), steps.last(), calc);
    if before.contains(r) {
        let k = choose|k: int| 0 <= k < before.len() && before[k] == r;
        assert(all[k] == r);
    }
    if last == Some(r) {
        assert(all.last() == r);
    }
    if all.contains(r) {
        let k = choose|k: int| 0 <= k < all.len() && all[k] == r;
        if k < before.len() {
            assert(before[k] == r);
        }
    }
}

proof fn next_step_gives(
    ms: Seq<Machine>,
    steps: Seq<CycleStep>,
    before: Seq<TradeRecord>,
    now: Seq<Option<TradeRecord>>,
    calc: Calc,
    r: TradeRecord,
)
    requires
        steps.len() > 0,
        now.len() == ms.len(),
        forall|i: int|
            0 <= i < ms.len() ==> #[trigger] now[i] == step_record(
                after_steps(ms[i], steps.drop_last(), calc),
                steps.last(),
                calc,
            ),
        before.contains(r) <==> some_gives(ms, steps.drop_last(), calc, r),
    ensures
        (before + given(now)).contains(r) <==> some_gives(ms, steps, calc, r),
{
    let first = steps.drop_last();
    given_holds(now, r);
    one_or_other(before, given(now), r);
    if some_gives(ms, steps, calc, r) {
        let i = choose|i: int|
            0 <= i < ms.len() && #[trigger] records_of(ms[i], steps, calc).contains(r);
        last_step_gives(ms[i], steps, calc, r);
        if !records_of(ms[i], first, calc).contains(r) {
            assert(now[i] == Some(r));
        }
    }
    if some_gives(ms, first, calc, r) {
        let i = choose|i: int|
            0 <= i < ms.len() && #[trigger] records_of(ms[i], first, calc).contains(r);
        last_step_gives(ms[i], steps, calc, r);
        assert(records_of(ms[i], steps, calc).contains(r));
    }
    if given(now).contains(r) {
        let i = choose|i: int| 0 <= i < now.len() && #[trigger] now[i] == Some(r);
        last_step_gives(ms[i], steps, calc, r);
        assert(records_of(ms[i], steps, calc).contains(r));
    }
}

proof fn tick_records_are_steps(ms: Seq<Machine>, first: Seq<MergedTick>, calc: Calc)
    ensures
        ({
            let ran = run_ticks(ms, first, calc).0;
            &&& ran.len() == ms.len()
            &&& forall|i: int|
                0 <= i < ms.len() ==> #[trigger] ran[i] == after_steps(
                    ms[i],
                    tick_steps(first),
                    calc,
                )
        }),
{
    if ms.len() > 0 {
        machines_run_apart(ms, first, calc, 0);
    } else {
        assert(ms =~= Seq::empty());
        no_machines(first, calc);
    }
    assert forall|i: int| 0 <= i < ms.len() implies #[trigger] run_ticks(ms, first, calc).0[i]
        == after_steps(ms[i], tick_steps(first), calc) by {
        machines_run_apart(ms, first, calc, i);
        steps_are_ticks(ms[i], first, calc);
    }
}

proof fn ticks_give_what_machines_give(
    ms: Seq<Machine>,
    ticks: Seq<MergedTick>,
    calc: Calc,
    r: TradeRecord,
)
    ensures
        run_ticks(ms, ticks, calc).1.contains(r) <==> some_gives(ms, tick_steps(ticks), calc, r),
    decreases ticks.len(),
{
    if ticks.len() > 0 {
        let first = ticks.drop_last();
        let t = ticks.last();
        ticks_give_what_machines_give(ms, first, calc, r);
        let (ran, before) = run_ticks(ms, first, calc);
        let now = ran.map_values(|m: Machine| tick_record(m, t, calc));
        let steps = tick_steps(ticks);
        assert(steps.drop_last() =~= tick_steps(first));
        assert(steps.last() == CycleStep::Tick(t));
        tick_records_are_steps(ms, first, calc);
        assert forall|i: int| 0 <= i < ms.len() implies #[trigger] now[i] == step_record(
            after_steps(ms[i], steps.drop_last(), calc),
            steps.last(),
            calc,
        ) by {
            assert(ran[i] == after_steps(ms[i], tick_steps(first), calc));
        }
        next_step_gives(ms, steps, before, now, calc, r);
    } else {
        assert forall|i: int| 0 <= i < ms.len() implies !#[trigger] records_of(
            ms[i],
            tick_steps(ticks),
            calc,
        ).contains(r) by {
            assert(tick_steps(ticks).len() == 0);
        }
    }
}

proof fn no_machines(ticks: Seq<MergedTick>, calc: Calc)
    ensures
        run_ticks(Seq::empty(), ticks, calc).0.len() == 0,
    decreases ticks.len(),
{
    if ticks.len() > 0 {
        no_machines(ticks.drop_last(), calc);
    }
}

proof fn one_or_other(a: Seq<TradeRecord>, b: Seq<TradeRecord>, r: TradeRecord)
    ensures
        (a + b).contains(r) <==> a.contains(r) || b.contains(r),
{
    let c = a + b;
    if a.contains(r) {
        let k = choose|k: int| 0 <= k < a.len() && a[k] == r;
        assert(c[k] == r);
    }
    if b.contains(r) {
        let k = choose|k: int| 0 <= k < b.len() && b[k] == r;
        assert(c[a.len() + k] == r);
    }
    if c.contains(r) {
        let k = choose|k: int| 0 <= k < c.len() && c[k] == r;
        if k < a.len() {
            assert(a[k] == r);
        } else {
            assert(b[k - a.len()] == r);
        }
    }
}

proof fn cycle_gives_what_machines_give(
    ms: Seq<Machine>,
    ticks: Seq<MergedTick>,
    calc: Calc,
    r: TradeRecord,
)
    ensures
        ({
            let (ran, records) = run_ticks(ms, ticks, calc);
            (records + given(ran.map_values(|m: Machine| m.record_of(m.resolution(calc))))).contains(
                r,
            )
        }) <==> some_gives(ms, whole_cycle(ticks), calc, r),
{
    let (ran, records) = run_ticks(ms, ticks, calc);
    let last = ran.map_values(|m: Machine| m.record_of(m.resolution(calc)));
    let steps = whole_cycle(ticks);
    ticks_give_what_machines_give(ms, ticks, calc, r);
    assert(steps.drop_last() =~= tick_steps(ticks));
    tick_records_are_steps(ms, ticks, calc);
    assert forall|i: int| 0 <= i < ms.len() implies #[trigger] last[i] == step_record(
        after_steps(ms[i], steps.drop_last(), calc),
        steps.last(),
        calc,
    ) by {
        assert(ran[i] == after_steps(ms[i], tick_steps(ticks), calc));
    }
    next_step_gives(ms, steps, records, last, calc, r);
}

proof fn records_name_the_strategy(m: Machine, steps: Seq<CycleStep>, calc: Calc)
    ensures
        after_steps(m, steps, calc).strategy_name == m.strategy_name,
        forall|k: int|
            0 <= k < records_of(m, steps, calc).len() ==> (#[trigger] records_of(
                m,
                steps,
                calc,
            )[k]).strategy == m.strategy_name,
    decreases steps.len(),
{
    if steps.len() > 0 {
        records_name_the_strategy(m, steps.drop_last(), calc);
    }
}

proof fn barring_is_suppressing(strategy: Seq<char>, halted_rev: bool, halted_hp: bool)
    ensures
        suppressed(strategy, halted_rev, halted_hp) == barred(strategy, halted_rev, halted_hp),
{
    reveal_strlit("reversal");
    reveal_strlit("high_prob");
    assert("reversal"@.len() == 8);
    assert("high_prob"@.len() == 9);
}

proof fn opening_is_earliest(b: Seq<BinanceRow>)
    requires
        b.len() > 0,
        b.len() <= usize::MAX,
        all_timed(row_times(b, Seq::empty())),
    ensures
        exists|j: int|
            {
                &&& 0 <= j < b.len()
                &&& opening_price(b) == (#[trigger] b[j]).price
                &&& forall|k: int|
                    0 <= k < b.len() && k != j ==> b[j].ts.lt(#[trigger] b[k].ts) || (b[j].ts.le(
                        b[k].ts,
                    ) && j < k)
            },
{
    let times = row_times(b, Seq::empty());
    let before = time_before(times);
    let n = times.len() as int;
    assert(n == b.len());
    assert(strict_order(before, n));
    sorted_order_sorts(before, n);
    let order = time_order(times);
    let j = order[0] as int;
    assert(0 <= j < n);
    assert forall|k: int| 0 <= k < b.len() && k != j implies b[j].ts.lt(#[trigger] b[k].ts) || (
    b[j].ts.le(b[k].ts) && j < k) by {
        sorted_order_covers(order, before, n, k);
        let at = choose|at: int| 0 <= at < n && #[trigger] order[at] == k;
        assert(at != 0);
        assert(before(order[0] as int, order[at] as int));
        assert(times[j] == b[j].ts && times[k] == b[k].ts);
        assert(!times[j].is_nan() && !times[k].is_nan());
    }
    assert(b[j].price == opening_price(b));
}

/// A replayed cycle gives exactly the records that its machines give, each run alone from the
/// opening of the cycle on: suppressed when its own halt bars it, and watching when not, whatever
/// the halt of the other strategy says.
pub proof fn replay_runs_each_machine_alone(
    slug: String,
    b: Seq<BinanceRow>,
    p: Seq<PolyRow>,
    ms: Seq<Machine>,
    halted_rev: bool,
    halted_hp: bool,
    ctx: CycleContext,
    calc: Calc,
    read: spec_fn(Seq<char>) -> Option<Num>,
    r: TradeRecord,
)
    requires
        b.len() > 0,
        p.len() > 0,
        b.len() <= usize::MAX,
        replayable(slug@, b, p, read),
        ctx.start_ts == stamp(slug@, read)->0,
        ctx.end_ts == calc.plus(ctx.start_ts, num(0x4072_C000_0000_0000)),
        ctx.open_binance == opening_price(b),
    ensures
        is_context(ctx, slug@, b, calc, read),
        replay(slug, b, p, ms, halted_rev, halted_hp, calc, read).1.contains(r) <==> exists|i: int|
            {
                &&& 0 <= i < ms.len()
                &&& !barred(ms[i].strategy_name@, halted_rev, halted_hp)
                &&& #[trigger] records_of(
                    ms[i].after_open(ctx, slug, false),
                    whole_cycle(merged(b, p)),
                    calc,
                ).contains(r)
            },
{
    let steps = whole_cycle(merged(b, p));
    let opened = ms.map_values(
        |m: Machine| m.after_open(ctx, slug, suppressed(m.strategy_name@, halted_rev, halted_hp)),
    );
    let times = row_times(b, p);
    let own = row_times(b, Seq::empty());
    assert forall|i: int| 0 <= i < own.len() implies !(#[trigger] own[i]).is_nan() by {
        assert(own[i] == times[i]);
    }
    opening_is_earliest(b);
    cycle_gives_what_machines_give(opened, merged(b, p), calc, r);
    assert forall|i: int| 0 <= i < ms.len() implies (if barred(
        ms[i].strategy_name@,
        halted_rev,
        halted_hp,
    ) {
        records_of(#[trigger] opened[i], steps, calc).len() == 0
    } else {
        opened[i] == ms[i].after_open(ctx, slug, false)
    }) by {
        barring_is_suppressing(ms[i].strategy_name@, halted_rev, halted_hp);
        suppressed_cycle_has_no_trade(ms[i], ctx, slug, steps, calc);
    }
    if some_gives(opened, steps, calc, r) {
        let i = choose|i: int|
            0 <= i < opened.len() && #[trigger] records_of(opened[i], steps, calc).contains(r);
        assert(!barred(ms[i].strategy_name@, halted_rev, halted_hp));
        assert(records_of(ms[i].after_open(ctx, slug, false), steps, calc).contains(r));
    }
    if exists|i: int|
        {
            &&& 0 <= i < ms.len()
            &&& !barred(ms[i].strategy_name@, halted_rev, halted_hp)
            &&& #[trigger] records_of(ms[i].after_open(ctx, slug, false), steps, calc).contains(r)
        } {
        let i = choose|i: int|
            {
                &&& 0 <= i < ms.len()
                &&& !barred(ms[i].strategy_name@, halted_rev, halted_hp)
                &&& #[trigger] records_of(ms[i].after_open(ctx, slug, false), steps, calc).contains(
                    r,
                )
            };
        assert(opened[i] == ms[i].after_open(ctx, slug, false));
        assert(records_of(opened[i], steps, calc).contains(r));
    }
}

/// A strategy whose own halt bars it trades nothing in the cycle, whatever the other halt says.
pub proof fn barred_strategy_trades_nothing(
    slug: String,
    b: Seq<BinanceRow>,
    p: Seq<PolyRow>,
    ms: Seq<Machine>,
    halted_rev: bool,
    halted_hp: bool,
    calc: Calc,
    read: spec_fn(Seq<char>) -> Option<Num>,
)
    requires
        b.len() <= usize::MAX,
        replayable(slug@, b, p, read),
    ensures
        forall|k: int|
            0 <= k < replay(slug, b, p, ms, halted_rev, halted_hp, calc, read).1.len() ==> {
                let r = #[trigger] replay(slug, b, p, ms, halted_rev, halted_hp, calc, read).1[k];
                &&& halted_rev ==> r.strategy@ != "reversal"@
                &&& halted_hp ==> r.strategy@ != "high_prob"@
            },
{
    let all = replay(slug, b, p, ms, halted_rev, halted_hp, calc, read).1;
    if b.len() > 0 && p.len() > 0 {
        let start = stamp(slug@, read)->0;
        let ctx = CycleContext {
            start_ts: start,
            end_ts: calc.plus(start, num(0x4072_C000_0000_0000)),
            open_binance: opening_price(b),
        };
        let steps = whole_cycle(merged(b, p));
        assert forall|k: int| 0 <= k < all.len() implies {
            let r = #[trigger] all[k];
            &&& halted_rev ==> r.strategy@ != "reversal"@
            &&& halted_hp ==> r.strategy@ != "high_prob"@
        } by {
            let r = all[k];
            replay_runs_each_machine_alone(
                slug,
                b,
                p,
                ms,
                halted_rev,
                halted_hp,
                ctx,
                calc,
                read,
                r,
            );
            assert(all.contains(r));
            let i = choose|i: int|
                {
                    &&& 0 <= i < ms.len()
                    &&& !barred(ms[i].strategy_name@, halted_rev, halted_hp)
                    &&& #[trigger] records_of(
                        ms[i].after_open(ctx, slug, false),
                        steps,
                        calc,
                    ).contains(r)
                };
            let m = ms[i].after_open(ctx, slug, false);
            records_name_the_strategy(m, steps, calc);
            let at = choose|at: int|
                0 <= at < records_of(m, steps, calc).len() && records_of(m, steps, calc)[at] == r;
            assert(records_of(m, steps, calc)[at].strategy == m.strategy_name);
        }
    }
}

/// The trades of a strategy in a cycle do not depend on the halt of the other strategy.
pub proof fn halts_keep_to_their_own(
    slug: String,
    b: Seq<BinanceRow>,
    p: Seq<PolyRow>,
    ms: Seq<Machine>,
    halted: bool,
    one: bool,
    other: bool,
    calc: Calc,
    read: spec_fn(Seq<char>) -> Option<Num>,
    r: TradeRecord,
)
    requires
        b.len() <= usize::MAX,
        replayable(slug@, b, p, read),
    ensures
        r.strategy@ == "high_prob"@ ==> (replay(slug, b, p, ms, one, halted, calc, read).1.contains(
            r,
        ) <==> replay(slug, b, p, ms, other, halted, calc, read).1.contains(r)),
        r.strategy@ == "reversal"@ ==> (replay(slug, b, p, ms, halted, one, calc, read).1.contains(
            r,
        ) <==> replay(slug, b, p, ms, halted, other, calc, read).1.contains(r)),
{
    if b.len() > 0 && p.len() > 0 {
        reveal_strlit("reversal");
        reveal_strlit("high_prob");
        assert("reversal"@.len() == 8);
        assert("high_prob"@.len() == 9);
        let start = stamp(slug@, read)->0;
        let ctx = CycleContext {
            start_ts: start,
            end_ts: calc.plus(start, num(0x4072_C000_0000_0000)),
            open_binance: opening_price(b),
        };
        let steps = whole_cycle(merged(b, p));
        assert forall|i: int|
            0 <= i < ms.len() && #[trigger] records_of(
                ms[i].after_open(ctx, slug, false),
                steps,
                calc,
            ).contains(r) implies ms[i].strategy_name == r.strategy by {
            let m = ms[i].after_open(ctx, slug, false);
            records_name_the_strategy(m, steps, calc);
            let at = choose|at: int|
                0 <= at < records_of(m, steps, calc).len() && records_of(m, steps, calc)[at] == r;
            assert(records_of(m, steps, calc)[at].strategy == m.strategy_name);
        }
        replay_runs_each_machine_alone(slug, b, p, ms, one, halted, ctx, calc, read, r);
        replay_runs_each_machine_alone(slug, b, p, ms, other, halted, ctx, calc, read, r);
        replay_runs_each_machine_alone(slug, b, p, ms, halted, one, ctx, calc, read, r);
        replay_runs_each_machine_alone(slug, b, p, ms, halted, other, ctx, calc, read, r);
    }
}

} // verus!

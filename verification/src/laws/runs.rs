//! A replay as a whole: where it begins, in which order it goes, and in which it tells.

use vstd::prelude::*;

use crate::backtest::{
    cycle_names, given, machines_for, merged, opening_price, replay, run_ticks, sorted_names, stamp,
    starts, suppressed, tick_record, BinanceRow, MergedTick, PolyRow, Progress, CYCLE_LENGTH_S,
};
use crate::config::AssetParams;
use crate::machine::Machine;
use crate::num::{num, Calc, Num};
use crate::order::{sorted_order_covers, sorted_order_sorts};
use crate::signal::{Signal, TickBus};
use crate::text::{
    all_different, index_order, text_before, text_order, text_order_is_strict, views,
};
use crate::types::{BinanceTick, CycleContext, Outcome, TradeRecord};

verus! {

/// A replay begins with nothing traded and nothing lost, and each halt has the maximum and the
/// reset hour of its own strategy.
pub proof fn replay_begins_with_its_own_limits(at: Progress, p: AssetParams)
    requires
        starts(at, p),
    ensures
        at.halt_rev.max == p.halt_rev,
        at.halt_rev.reset_hour == p.halt_reset_hour_rev,
        at.halt_hp.max == p.halt_prob,
        at.halt_hp.reset_hour == p.halt_reset_hour_hp,
        at.halt_rev.losses == 0 && at.halt_rev.last_session is None,
        at.halt_hp.losses == 0 && at.halt_hp.last_session is None,
        at.trades.len() == 0,
        at.machines.len() == p.strategies@.len(),
        forall|i: int|
            0 <= i < at.machines.len() ==> runs_as(#[trigger] at.machines[i], p.strategies@[i]@, p),
{
}

/// A machine for high_prob has its levels, and one for any other name those of the reversal.
pub open spec fn runs_as(m: Machine, name: Seq<char>, p: AssetParams) -> bool {
    &&& m.trade_size == p.trade_size_usdc
    &&& m.state is Watching
    &&& name == "high_prob"@ ==> {
        &&& m.strategy_name@ == "high_prob"@
        &&& m.kind is HighProb
        &&& m.kind->HighProb_0.price_low == p.price_low
        &&& m.kind->HighProb_0.price_high == p.price_high
        &&& m.kind->HighProb_0.enter_when_time_left == p.enter_when_time_left
        &&& m.kind->HighProb_0.no_enter_when_time_left == p.no_enter_when_time_left
        &&& m.sl == p.sl_high_prob
        &&& m.sl_pnl == p.sl_pnl_hp
        &&& m.unwind_pnl == p.unwind_pnl_hp
        &&& m.unwind_time == p.unwind_time_hp
    }
    &&& name != "high_prob"@ ==> {
        &&& m.strategy_name@ == "reversal"@
        &&& m.kind is Reversal
        &&& m.kind->Reversal_0.reversal == p.reversal
        &&& m.kind->Reversal_0.no_enter_when_time_left == p.no_enter_when_time_left
        &&& m.sl == p.sl_reversal
        &&& m.sl_pnl == p.sl_pnl_rev
        &&& m.unwind_pnl == p.unwind_pnl_rev
        &&& m.unwind_time == p.unwind_time_rev
    }
}

/// There is one machine for each strategy, in their order.
pub proof fn one_machine_for_each_strategy(p: AssetParams)
    ensures
        forall|r: Vec<Machine>| #[trigger]
            call_ensures(machines_for, (&p,), r) ==> r@.len() == p.strategies@.len() && forall|i: int|
                0 <= i < r@.len() ==> runs_as(#[trigger] r@[i], p.strategies@[i]@, p),
{
}

proof fn names_are_those_of_rows(p: Seq<PolyRow>)
    ensures
        all_different(views(cycle_names(p))),
        cycle_names(p).len() <= p.len(),
        forall|i: int|
            0 <= i < p.len() ==> views(cycle_names(p)).contains((#[trigger] p[i]).slug@),
    decreases p.len(),
{
    if p.len() > 0 {
        let rest = p.drop_last();
        names_are_those_of_rows(rest);
        let before = views(cycle_names(rest));
        let all = views(cycle_names(p));
        if !before.contains(p.last().slug@) {
            assert(all =~= before.push(p.last().slug@));
            assert(all.last() == p.last().slug@);
        }
        assert forall|i: int| 0 <= i < p.len() implies all.contains((#[trigger] p[i]).slug@) by {
            if i < rest.len() {
                assert(rest[i] == p[i]);
                let k = choose|k: int| 0 <= k < before.len() && before[k] == p[i].slug@;
                assert(all[k] == p[i].slug@);
            }
        }
    }
}

/// The cycles are run in the order of their names, each name once, and every cycle that has token
/// prices is among them.
pub proof fn cycles_run_in_the_order_of_names(p: Seq<PolyRow>)
    requires
        p.len() <= usize::MAX,
    ensures
        forall|i: int, j: int|
            0 <= i < j < sorted_names(p).len() ==> text_before(
                (#[trigger] sorted_names(p)[i])@,
                (#[trigger] sorted_names(p)[j])@,
            ),
        forall|i: int|
            0 <= i < p.len() ==> exists|k: int|
                0 <= k < sorted_names(p).len() && (#[trigger] sorted_names(p)[k])@
                    == (#[trigger] p[i]).slug@,
{
    names_are_those_of_rows(p);
    let names = cycle_names(p);
    let texts = views(names);
    let n = texts.len() as int;
    text_order_is_strict(texts);
    sorted_order_sorts(index_order(texts), n);
    let order = text_order(texts);
    assert forall|i: int, j: int| 0 <= i < j < sorted_names(p).len() implies text_before(
        (#[trigger] sorted_names(p)[i])@,
        (#[trigger] sorted_names(p)[j])@,
    ) by {
        assert(index_order(texts)(order[i] as int, order[j] as int));
        assert(texts[order[i] as int] == names[order[i] as int]@);
        assert(texts[order[j] as int] == names[order[j] as int]@);
    }
    assert forall|i: int| 0 <= i < p.len() implies exists|k: int|
        0 <= k < sorted_names(p).len() && (#[trigger] sorted_names(p)[k])@
            == (#[trigger] p[i]).slug@ by {
        let at = choose|at: int| 0 <= at < texts.len() && texts[at] == p[i].slug@;
        sorted_order_covers(order, index_order(texts), n, at);
        let k = choose|k: int| 0 <= k < n && #[trigger] order[k] == at;
        assert(sorted_names(p)[k]@ == texts[at]);
    }
}

/// The trade was settled by the resolution, not closed on a tick.
pub open spec fn is_settled(r: TradeRecord) -> bool {
    r.outcome == Outcome::Win || r.outcome == Outcome::Loss
}

proof fn ticks_settle_nothing(ms: Seq<Machine>, ticks: Seq<MergedTick>, calc: Calc)
    ensures
        forall|k: int|
            0 <= k < run_ticks(ms, ticks, calc).1.len() ==> !is_settled(
                #[trigger] run_ticks(ms, ticks, calc).1[k],
            ),
    decreases ticks.len(),
{
    if ticks.len() > 0 {
        let first = ticks.drop_last();
        let t = ticks.last();
        ticks_settle_nothing(ms, first, calc);
        let (ran, before) = run_ticks(ms, first, calc);
        let now = ran.map_values(|m: Machine| tick_record(m, t, calc));
        assert forall|i: int| 0 <= i < now.len() && (#[trigger] now[i]) is Some implies !is_settled(
            now[i]->0,
        ) by {
            tick_settles_nothing(ran[i], t, calc);
        }
        given_are_such(now, false);
        let all = run_ticks(ms, ticks, calc).1;
        assert(all == before + given(now));
        assert forall|k: int| 0 <= k < all.len() implies !is_settled(#[trigger] all[k]) by {
            if k < before.len() {
                assert(all[k] == before[k]);
            } else {
                assert(all[k] == given(now)[k - before.len()]);
            }
        }
    }
}

proof fn tick_settles_nothing(m: Machine, t: MergedTick, calc: Calc)
    ensures
        tick_record(m, t, calc) is Some ==> !is_settled(tick_record(m, t, calc)->0),
{
}

proof fn given_are_such(records: Seq<Option<TradeRecord>>, settled: bool)
    requires
        forall|i: int|
            0 <= i < records.len() && (#[trigger] records[i]) is Some ==> is_settled(
                records[i]->0,
            ) == settled,
    ensures
        forall|k: int|
            0 <= k < given(records).len() ==> is_settled(#[trigger] given(records)[k]) == settled,
    decreases records.len(),
{
    if records.len() > 0 {
        let rest = records.drop_last();
        assert forall|i: int| 0 <= i < rest.len() && (#[trigger] rest[i]) is Some implies is_settled(
            rest[i]->0,
        ) == settled by {
            assert(rest[i] == records[i]);
        }
        given_are_such(rest, settled);
        assert(records[records.len() - 1] == records.last());
        assert forall|k: int| 0 <= k < given(records).len() implies is_settled(
            #[trigger] given(records)[k],
        ) == settled by {
            if k < given(rest).len() {
                assert(given(records)[k] == given(rest)[k]);
            } else {
                assert(given(records)[k] == records.last()->0);
            }
        }
    }
}

/// Within a cycle what closed on a tick is told before what the resolution settled.
pub proof fn settled_trades_come_last(
    slug: String,
    b: Seq<BinanceRow>,
    p: Seq<PolyRow>,
    ms: Seq<Machine>,
    halted_rev: bool,
    halted_hp: bool,
    calc: Calc,
    read: spec_fn(Seq<char>) -> Option<Num>,
)
    ensures
        ({
            let all = replay(slug, b, p, ms, halted_rev, halted_hp, calc, read).1;
            forall|i: int, j: int|
                0 <= i < j < all.len() && is_settled(#[trigger] all[i]) ==> is_settled(
                    #[trigger] all[j],
                )
        }),
{
    if b.len() > 0 && p.len() > 0 {
        let start = stamp(slug@, read)->0;
        let ctx = CycleContext {
            start_ts: start,
            end_ts: calc.plus(start, num(CYCLE_LENGTH_S)),
            open_binance: opening_price(b),
        };
        let opened = ms.map_values(
            |m: Machine|
                m.after_open(ctx, slug, suppressed(m.strategy_name@, halted_rev, halted_hp)),
        );
        let (ran, records) = run_ticks(opened, merged(b, p), calc);
        ticks_settle_nothing(opened, merged(b, p), calc);
        let last = ran.map_values(|m: Machine| m.record_of(m.resolution(calc)));
        assert forall|i: int| 0 <= i < last.len() && (#[trigger] last[i]) is Some implies is_settled(
            last[i]->0,
        ) == true by {}
        given_are_such(last, true);
        let all = replay(slug, b, p, ms, halted_rev, halted_hp, calc, read).1;
        assert(all == records + given(last));
        assert forall|i: int, j: int| 0 <= i < j < all.len() && is_settled(
            #[trigger] all[i],
        ) implies is_settled(#[trigger] all[j]) by {
            if i < records.len() {
                assert(all[i] == records[i]);
            }
            if j >= records.len() {
                assert(all[j] == given(last)[j - records.len()]);
            }
        }
    }
}

/// Those who asked for a feed see its ticks, in the order in which they asked, and no others do.
pub proof fn ticks_go_to_their_subscribers<S: Signal>(t: BinanceTick, s: S)
    ensures
        forall|bus: &mut TickBus<S>| #[trigger]
            call_ensures(TickBus::<S>::publish_binance, (bus, t), ()) ==> {
                &&& final(bus).binance@.len() == bus.binance@.len()
                &&& final(bus).poly@ == bus.poly@
                &&& forall|i: int|
                    0 <= i < bus.binance@.len() ==> #[trigger] final(bus).binance@[i]
                        == bus.binance@[i].after_binance(t)
            },
        forall|bus: &mut TickBus<S>| #[trigger]
            call_ensures(TickBus::<S>::subscribe_binance, (bus, s), ()) ==> final(bus).poly@
                == bus.poly@ && final(bus).binance@ == bus.binance@.push(s),
        forall|bus: &mut TickBus<S>| #[trigger]
            call_ensures(TickBus::<S>::subscribe_poly, (bus, s), ()) ==> final(bus).binance@
                == bus.binance@ && final(bus).poly@ == bus.poly@.push(s),
{
}

} // verus!

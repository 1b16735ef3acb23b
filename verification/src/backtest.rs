//! Replay of recorded prices: cycle by cycle, with the halts of each session.

use vstd::hash_map::StringHashMap;
use vstd::prelude::*;

use crate::calendar::{instant, instant_of, local_day, CivilDate, MAX_DAY, MIN_DAY};
use crate::config::AssetParams;
use crate::halt::{after_trades, has_session, session_is_known, HaltTracker, HKT_OFFSET};
use crate::machine::{is_fresh, Machine, StrategyKind};
use crate::num::{num, Arith, Calc, Num, Op, Reader, ZERO};
use crate::order::{
    is_sorted_order, sorted_indices, sorted_order, sorted_order_is, sorted_order_sorts,
    strict_order,
};
use crate::strategies::{HighProbStrategy, ReversalStrategy};
use crate::text::{
    after_last, all_different, index_order, parse_signed, same_text, signed_of, sort_texts, split,
    split_text, text_after_last, text_order, text_order_is_strict, views,
};
use crate::types::{BinanceTick, CycleContext, PolyTick, TradeRecord};

verus! {

/// The bits of 300.0: the seconds of a cycle.
pub const CYCLE_LENGTH_S: u64 = 0x4072_C000_0000_0000;

#[derive(Clone, Debug)]
pub struct BinanceRow {
    pub ts: Num,
    pub price: Num,
    pub slug: String,
}

#[derive(Clone, Debug)]
pub struct PolyRow {
    pub ts: Num,
    pub up: Num,
    pub dn: Num,
    pub slug: String,
}

fn copy_binance(row: &BinanceRow) -> (r: BinanceRow)
    ensures
        r == *row,
{
    BinanceRow { ts: row.ts, price: row.price, slug: row.slug.clone() }
}

fn copy_poly(row: &PolyRow) -> (r: PolyRow)
    ensures
        r == *row,
{
    PolyRow { ts: row.ts, up: row.up, dn: row.dn, slug: row.slug.clone() }
}

/// A tick of either feed.
#[derive(Clone, Copy, Debug)]
pub enum MergedTick {
    Binance(BinanceTick),
    Poly(PolyTick),
}

/// The times of the rows, Binance rows first.
pub open spec fn row_times(b: Seq<BinanceRow>, p: Seq<PolyRow>) -> Seq<Num> {
    b.map_values(|r: BinanceRow| r.ts) + p.map_values(|r: PolyRow| r.ts)
}

/// Every time is a number.
pub open spec fn all_timed(times: Seq<Num>) -> bool {
    forall|i: int| 0 <= i < times.len() ==> !(#[trigger] times[i]).is_nan()
}

/// The times can be put in order: at most one of them, or every one is a number.
pub open spec fn can_order(times: Seq<Num>) -> bool {
    times.len() <= 1 || all_timed(times)
}

/// Earlier, or at the same time but first in the list.
pub open spec fn time_before(times: Seq<Num>) -> spec_fn(int, int) -> bool {
    |i: int, j: int|
        times[i].rank() < times[j].rank() || (times[i].rank() == times[j].rank() && i < j)
}

/// The indices of the times in order; what came first stays first among equal times.
pub open spec fn time_order(times: Seq<Num>) -> Seq<usize> {
    sorted_order(time_before(times), times.len() as int)
}

/// The indices of the times in order.
pub fn order_by_time(times: &Vec<Num>) -> (r: Vec<usize>)
    requires
        can_order(times@),
    ensures
        r@ == time_order(times@),
        is_sorted_order(r@, time_before(times@), times@.len() as int),
{
    let ghost before = time_before(times@);
    assert(strict_order(before, times@.len() as int));
    let less = |i: usize, j: usize| -> (r: bool)
        requires
            i < times@.len(),
            j < times@.len(),
            can_order(times@),
        ensures
            r == before(i as int, j as int),
        { times[i].lt(times[j]) || (!times[j].lt(times[i]) && i < j) };
    let r = sorted_indices(times.len(), &less, Ghost(before));
    proof {
        sorted_order_is(r@, before, times@.len() as int);
    }
    r
}

/// The tick of a row, where the Binance rows come first.
pub open spec fn tick_of(b: Seq<BinanceRow>, p: Seq<PolyRow>, i: int) -> MergedTick {
    if i < b.len() {
        MergedTick::Binance(BinanceTick { ts: b[i].ts, price: b[i].price })
    } else {
        let r = p[i - b.len()];
        MergedTick::Poly(
            PolyTick { ts: r.ts, up: r.up, dn: r.dn, up_bid: num(ZERO), up_ask: num(ZERO) },
        )
    }
}

/// The rows of both feeds as ticks in the order of time. At equal times the Binance tick
/// comes first, and within a feed the row that came first.
pub open spec fn merged(b: Seq<BinanceRow>, p: Seq<PolyRow>) -> Seq<MergedTick> {
    time_order(row_times(b, p)).map_values(|i: usize| tick_of(b, p, i as int))
}

pub fn merge_ticks(b_cycle: &Vec<BinanceRow>, p_cycle: &Vec<PolyRow>) -> (r: Vec<MergedTick>)
    requires
        b_cycle@.len() + p_cycle@.len() <= usize::MAX,
        can_order(row_times(b_cycle@, p_cycle@)),
    ensures
        r@ == merged(b_cycle@, p_cycle@),
        r@.len() == b_cycle@.len() + p_cycle@.len(),
{
    let ghost all = row_times(b_cycle@, p_cycle@);
    let mut times: Vec<Num> = Vec::new();
    let mut i: usize = 0;
    while i < b_cycle.len()
        invariant
            i <= b_cycle@.len(),
            all == row_times(b_cycle@, p_cycle@),
            times@ == all.take(i as int),
        decreases b_cycle@.len() - i,
    {
        times.push(b_cycle[i].ts);
        assert(all.take(i + 1) =~= all.take(i as int).push(all[i as int]));
        i = i + 1;
    }
    let mut j: usize = 0;
    while j < p_cycle.len()
        invariant
            j <= p_cycle@.len(),
            all == row_times(b_cycle@, p_cycle@),
            times@ == all.take(b_cycle@.len() + j),
        decreases p_cycle@.len() - j,
    {
        times.push(p_cycle[j].ts);
        assert(all[b_cycle@.len() + j] == p_cycle@[j as int].ts);
        assert(all.take(b_cycle@.len() + j + 1) =~= all.take(b_cycle@.len() + j).push(
            all[b_cycle@.len() + j],
        ));
        j = j + 1;
    }
    assert(times@ =~= all);
    let order = order_by_time(&times);
    let ghost want = merged(b_cycle@, p_cycle@);
    let mut r: Vec<MergedTick> = Vec::new();
    let mut k: usize = 0;
    while k < order.len()
        invariant
            k <= order@.len(),
            order@ == time_order(all),
            is_sorted_order(order@, time_before(all), all.len() as int),
            all.len() == b_cycle@.len() + p_cycle@.len(),
            want == merged(b_cycle@, p_cycle@),
            all == row_times(b_cycle@, p_cycle@),
            r@ == want.take(k as int),
        decreases order@.len() - k,
    {
        let at: usize = order[k];
        let tick = if at < b_cycle.len() {
            MergedTick::Binance(BinanceTick { ts: b_cycle[at].ts, price: b_cycle[at].price })
        } else {
            let row = &p_cycle[at - b_cycle.len()];
            MergedTick::Poly(
                PolyTick {
                    ts: row.ts,
                    up: row.up,
                    dn: row.dn,
                    up_bid: num(ZERO),
                    up_ask: num(ZERO),
                },
            )
        };
        r.push(tick);
        assert(want[k as int] == tick);
        assert(want.take(k + 1) =~= want.take(k as int).push(want[k as int]));
        k = k + 1;
    }
    assert(want.take(k as int) =~= want);
    r
}

pub open spec fn tick_time(t: MergedTick) -> Num {
    match t {
        MergedTick::Binance(b) => b.ts,
        MergedTick::Poly(p) => p.ts,
    }
}

/// The merged ticks hold every row once, their times never fall, and at equal times no
/// token tick stands before a Binance tick.
pub proof fn merge_is_ordered(b: Seq<BinanceRow>, p: Seq<PolyRow>, order: Seq<usize>)
    requires
        can_order(row_times(b, p)),
        is_sorted_order(order, time_before(row_times(b, p)), (b.len() + p.len()) as int),
    ensures
        merged(b, p) == order.map_values(|i: usize| tick_of(b, p, i as int)),
        forall|i: int, j: int|
            0 <= i < j < merged(b, p).len() ==> tick_time(#[trigger] merged(b, p)[i]).le(
                tick_time(#[trigger] merged(b, p)[j]),
            ),
        forall|i: int, j: int|
            0 <= i < j < merged(b, p).len() && tick_time(#[trigger] merged(b, p)[i]).rank()
                == tick_time(#[trigger] merged(b, p)[j]).rank() && merged(b, p)[i] is Poly
                ==> merged(b, p)[j] is Poly,
{
    let times = row_times(b, p);
    sorted_order_is(order, time_before(times), times.len() as int);
    assert forall|i: int| 0 <= i < order.len() implies tick_time(#[trigger] merged(b, p)[i])
        == times[order[i] as int] by {
        assert(order[i] < times.len());
    }
}

/// A machine after a tick of either feed.
pub open spec fn after_tick(m: Machine, t: MergedTick, calc: Calc) -> Machine {
    match t {
        MergedTick::Binance(b) => m.after_binance(b, calc),
        MergedTick::Poly(p) => m.after_poly(p, calc),
    }
}

/// The record that a tick of either feed gives.
pub open spec fn tick_record(m: Machine, t: MergedTick, calc: Calc) -> Option<TradeRecord> {
    match t {
        MergedTick::Binance(b) => m.binance_record(b, calc),
        MergedTick::Poly(p) => m.poly_record(p, calc),
    }
}

/// The records that are there.
pub open spec fn given(records: Seq<Option<TradeRecord>>) -> Seq<TradeRecord>
    decreases records.len(),
{
    if records.len() == 0 {
        Seq::empty()
    } else {
        match records.last() {
            Some(r) => given(records.drop_last()).push(r),
            None => given(records.drop_last()),
        }
    }
}

/// The machines after the ticks, and the records that the ticks gave: tick by tick, and
/// for each tick machine by machine.
pub open spec fn run_ticks(machines: Seq<Machine>, ticks: Seq<MergedTick>, calc: Calc) -> (
    Seq<Machine>,
    Seq<TradeRecord>,
)
    decreases ticks.len(),
{
    if ticks.len() == 0 {
        (machines, Seq::empty())
    } else {
        let (ms, records) = run_ticks(machines, ticks.drop_last(), calc);
        let t = ticks.last();
        (
            ms.map_values(|m: Machine| after_tick(m, t, calc)),
            records + given(ms.map_values(|m: Machine| tick_record(m, t, calc))),
        )
    }
}

/// Whether a strategy may not enter in a cycle.
pub open spec fn suppressed(strategy: Seq<char>, halted_rev: bool, halted_hp: bool) -> bool {
    if strategy == "reversal"@ {
        halted_rev
    } else if strategy == "high_prob"@ {
        halted_hp
    } else {
        false
    }
}

/// The price of the earliest Binance row, the first of them where several are earliest.
pub open spec fn opening_price(b: Seq<BinanceRow>) -> Num {
    b[time_order(row_times(b, Seq::empty()))[0] as int].price
}

/// The time that a cycle's name ends in.
pub open spec fn stamp(slug: Seq<char>, read: spec_fn(Seq<char>) -> Option<Num>) -> Option<Num> {
    read(after_last(slug, '-'))
}

/// The cycle can be replayed: it lacks a feed, or its name ends in a time and every row
/// has one.
pub open spec fn replayable(
    slug: Seq<char>,
    b: Seq<BinanceRow>,
    p: Seq<PolyRow>,
    read: spec_fn(Seq<char>) -> Option<Num>,
) -> bool {
    b.len() == 0 || p.len() == 0 || (stamp(slug, read) is Some && all_timed(row_times(b, p)))
}

/// The machines after a cycle, and its trades: what closed on a tick in the order of the
/// ticks, then what was open at the end.
pub open spec fn replay(
    slug: String,
    b: Seq<BinanceRow>,
    p: Seq<PolyRow>,
    machines: Seq<Machine>,
    halted_rev: bool,
    halted_hp: bool,
    calc: Calc,
    read: spec_fn(Seq<char>) -> Option<Num>,
) -> (Seq<Machine>, Seq<TradeRecord>) {
    if b.len() == 0 || p.len() == 0 {
        (machines, Seq::empty())
    } else {
        let start = stamp(slug@, read)->0;
        let ctx = CycleContext {
            start_ts: start,
            end_ts: calc.plus(start, num(CYCLE_LENGTH_S)),
            open_binance: opening_price(b),
        };
        let opened = machines.map_values(
            |m: Machine|
                m.after_open(ctx, slug, suppressed(m.strategy_name@, halted_rev, halted_hp)),
        );
        let (ran, records) = run_ticks(opened, merged(b, p), calc);
        (
            ran.map_values(|m: Machine| m.closed_by(m.resolution(calc))),
            records + given(ran.map_values(|m: Machine| m.record_of(m.resolution(calc)))),
        )
    }
}

fn open_all(machines: &mut Vec<Machine>, ctx: &CycleContext, slug: &String, halted_rev: bool, halted_hp: bool)
    ensures
        final(machines)@ == old(machines)@.map_values(
            |m: Machine|
                m.after_open(*ctx, *slug, suppressed(m.strategy_name@, halted_rev, halted_hp)),
        ),
{
    let ghost before = machines@;
    let n: usize = machines.len();
    let mut i: usize = 0;
    while i < n
        invariant
            i <= n,
            n == before.len(),
            machines@.len() == n,
            forall|k: int| i <= k < n ==> machines@[k] == before[k],
            forall|k: int|
                0 <= k < i ==> #[trigger] machines@[k] == before[k].after_open(
                    *ctx,
                    *slug,
                    suppressed(before[k].strategy_name@, halted_rev, halted_hp),
                ),
        decreases n - i,
    {
        let name = machines[i].strategy_name;
        let stop = if same_text(name, "reversal") {
            halted_rev
        } else if same_text(name, "high_prob") {
            halted_hp
        } else {
            false
        };
        machines[i].open_named(ctx, slug.clone(), stop);
        i = i + 1;
    }
    assert(machines@ =~= before.map_values(
        |m: Machine|
            m.after_open(*ctx, *slug, suppressed(m.strategy_name@, halted_rev, halted_hp)),
    ));
}

fn feed_all<F: Fn(Op, Num, Num) -> Num>(
    machines: &mut Vec<Machine>,
    tick: MergedTick,
    completed: &mut Vec<TradeRecord>,
    arith: &Arith<F>,
)
    ensures
        final(machines)@ == old(machines)@.map_values(|m: Machine| after_tick(m, tick, arith@)),
        final(completed)@ == old(completed)@ + given(
            old(machines)@.map_values(|m: Machine| tick_record(m, tick, arith@)),
        ),
{
    let ghost before = machines@;
    let ghost records = before.map_values(|m: Machine| tick_record(m, tick, arith@));
    let ghost done = completed@;
    let n: usize = machines.len();
    let mut i: usize = 0;
    assert(done + given(records.take(0)) =~= done);
    while i < n
        invariant
            i <= n,
            n == before.len(),
            machines@.len() == n,
            records == before.map_values(|m: Machine| tick_record(m, tick, arith@)),
            forall|k: int| i <= k < n ==> machines@[k] == before[k],
            forall|k: int|
                0 <= k < i ==> #[trigger] machines@[k] == after_tick(before[k], tick, arith@),
            completed@ == done + given(records.take(i as int)),
        decreases n - i,
    {
        let rec = match tick {
            MergedTick::Poly(pt) => machines[i].on_poly(pt, arith),
            MergedTick::Binance(bt) => machines[i].on_binance(bt, arith),
        };
        assert(rec == records[i as int]);
        assert(records.take(i + 1).drop_last() =~= records.take(i as int));
        if let Some(r) = rec {
            completed.push(r);
        }
        assert(completed@ =~= done + given(records.take(i + 1)));
        i = i + 1;
    }
    assert(records.take(i as int) =~= records);
    assert(machines@ =~= before.map_values(|m: Machine| after_tick(m, tick, arith@)));
}

fn close_all<F: Fn(Op, Num, Num) -> Num>(
    machines: &mut Vec<Machine>,
    completed: &mut Vec<TradeRecord>,
    arith: &Arith<F>,
)
    ensures
        final(machines)@ == old(machines)@.map_values(
            |m: Machine| m.closed_by(m.resolution(arith@)),
        ),
        final(completed)@ == old(completed)@ + given(
            old(machines)@.map_values(|m: Machine| m.record_of(m.resolution(arith@))),
        ),
{
    let ghost before = machines@;
    let ghost records = before.map_values(|m: Machine| m.record_of(m.resolution(arith@)));
    let ghost done = completed@;
    let n: usize = machines.len();
    let mut i: usize = 0;
    assert(done + given(records.take(0)) =~= done);
    while i < n
        invariant
            i <= n,
            n == before.len(),
            machines@.len() == n,
            records == before.map_values(|m: Machine| m.record_of(m.resolution(arith@))),
            forall|k: int| i <= k < n ==> machines@[k] == before[k],
            forall|k: int|
                0 <= k < i ==> #[trigger] machines@[k] == before[k].closed_by(
                    before[k].resolution(arith@),
                ),
            completed@ == done + given(records.take(i as int)),
        decreases n - i,
    {
        let rec = machines[i].cycle_close(arith);
        assert(rec == records[i as int]);
        assert(records.take(i + 1).drop_last() =~= records.take(i as int));
        if let Some(r) = rec {
            completed.push(r);
        }
        assert(completed@ =~= done + given(records.take(i + 1)));
        i = i + 1;
    }
    assert(records.take(i as int) =~= records);
    assert(machines@ =~= before.map_values(|m: Machine| m.closed_by(m.resolution(arith@))));
}

fn opening_of(b_cycle: &Vec<BinanceRow>) -> (r: Num)
    requires
        b_cycle@.len() > 0,
        all_timed(row_times(b_cycle@, Seq::empty())),
    ensures
        r == opening_price(b_cycle@),
{
    let ghost all = row_times(b_cycle@, Seq::empty());
    let mut times: Vec<Num> = Vec::new();
    let mut i: usize = 0;
    while i < b_cycle.len()
        invariant
            i <= b_cycle@.len(),
            all == row_times(b_cycle@, Seq::empty()),
            times@ == all.take(i as int),
        decreases b_cycle@.len() - i,
    {
        times.push(b_cycle[i].ts);
        assert(all.take(i + 1) =~= all.take(i as int).push(all[i as int]));
        i = i + 1;
    }
    assert(times@ =~= all);
    let order = order_by_time(&times);
    b_cycle[order[0]].price
}

/// Replays one cycle.
pub fn replay_cycle<F: Fn(Op, Num, Num) -> Num, P: Fn(String) -> Option<Num>>(
    slug: &String,
    b_cycle: &Vec<BinanceRow>,
    p_cycle: &Vec<PolyRow>,
    machines: &mut Vec<Machine>,
    halted_rev: bool,
    halted_hp: bool,
    arith: &Arith<F>,
    reader: &Reader<P>,
) -> (r: Vec<TradeRecord>)
    requires
        b_cycle@.len() + p_cycle@.len() <= usize::MAX,
        replayable(slug@, b_cycle@, p_cycle@, reader@),
    ensures
        (final(machines)@, r@) == replay(
            *slug,
            b_cycle@,
            p_cycle@,
            old(machines)@,
            halted_rev,
            halted_hp,
            arith@,
            reader@,
        ),
{
    if b_cycle.len() == 0 || p_cycle.len() == 0 {
        return Vec::new();
    }
    proof {
        let times = row_times(b_cycle@, p_cycle@);
        let opening = row_times(b_cycle@, Seq::empty());
        assert forall|i: int| 0 <= i < opening.len() implies !(#[trigger] opening[i]).is_nan() by {
            assert(opening[i] == times[i]);
        }
    }
    let start = match reader.read(text_after_last(slug.as_str(), '-')) {
        Some(x) => x,
        None => num(ZERO),
    };
    let ctx = CycleContext {
        start_ts: start,
        end_ts: arith.plus(start, num(CYCLE_LENGTH_S)),
        open_binance: opening_of(b_cycle),
    };
    open_all(machines, &ctx, slug, halted_rev, halted_hp);
    let ghost opened = machines@;
    let ticks = merge_ticks(b_cycle, p_cycle);
    let mut completed: Vec<TradeRecord> = Vec::new();
    let mut k: usize = 0;
    while k < ticks.len()
        invariant
            k <= ticks@.len(),
            (machines@, completed@) == run_ticks(opened, ticks@.take(k as int), arith@),
        decreases ticks@.len() - k,
    {
        assert(ticks@.take(k + 1).drop_last() =~= ticks@.take(k as int));
        feed_all(machines, ticks[k], &mut completed, arith);
        k = k + 1;
    }
    assert(ticks@.take(k as int) =~= ticks@);
    close_all(machines, &mut completed, arith);
    completed
}

/// The names of the cycles, in the order in which they first come.
pub open spec fn cycle_names(p: Seq<PolyRow>) -> Seq<String>
    decreases p.len(),
{
    if p.len() == 0 {
        Seq::empty()
    } else {
        let names = cycle_names(p.drop_last());
        if views(names).contains(p.last().slug@) {
            names
        } else {
            names.push(p.last().slug)
        }
    }
}

/// The rows of a cycle, in order.
pub open spec fn binance_rows_of(b: Seq<BinanceRow>, name: Seq<char>) -> Seq<BinanceRow> {
    b.filter(|r: BinanceRow| r.slug@ == name)
}

/// The rows of a cycle, in order.
pub open spec fn poly_rows_of(p: Seq<PolyRow>, name: Seq<char>) -> Seq<PolyRow> {
    p.filter(|r: PolyRow| r.slug@ == name)
}

/// The names of the cycles in the order of the text.
pub open spec fn sorted_names(p: Seq<PolyRow>) -> Seq<String> {
    let names = cycle_names(p);
    text_order(views(names)).map_values(|i: usize| names[i as int])
}

/// Where a replay stands.
pub struct Progress {
    pub machines: Seq<Machine>,
    pub halt_rev: HaltTracker,
    pub halt_hp: HaltTracker,
    pub trades: Seq<TradeRecord>,
}

/// The recorded prices and the strategies to replay.
pub struct Recording {
    pub strategies: Seq<Seq<char>>,
    pub b: Seq<BinanceRow>,
    pub p: Seq<PolyRow>,
    pub calc: Calc,
    pub read: spec_fn(Seq<char>) -> Option<Num>,
}

impl Recording {
    /// The time of a cycle, zero when its name tells none.
    pub open spec fn time_of(self, name: Seq<char>) -> Num {
        match stamp(name, self.read) {
            Some(x) => x,
            None => num(ZERO),
        }
    }

    /// The halts as the cycle begins.
    pub open spec fn begun(self, at: Progress, name: Seq<char>) -> Progress {
        Progress {
            halt_rev: at.halt_rev.in_session(self.time_of(name), self.calc),
            halt_hp: at.halt_hp.in_session(self.time_of(name), self.calc),
            ..at
        }
    }

    /// Some strategy may enter.
    pub open spec fn any_active(self, at: Progress) -> bool {
        exists|i: int|
            0 <= i < self.strategies.len() && !suppressed(
                #[trigger] self.strategies[i],
                at.halt_rev.halted(),
                at.halt_hp.halted(),
            )
    }

    /// The progress after a cycle: the halts are those at its beginning, and its losses
    /// count once it is over. A cycle in which no strategy may enter is passed over.
    pub open spec fn after_cycle(self, at: Progress, name: String) -> Progress {
        let now = self.begun(at, name@);
        if self.any_active(now) {
            let (machines, trades) = replay(
                name,
                binance_rows_of(self.b, name@),
                poly_rows_of(self.p, name@),
                now.machines,
                now.halt_rev.halted(),
                now.halt_hp.halted(),
                self.calc,
                self.read,
            );
            Progress {
                machines,
                halt_rev: after_trades(now.halt_rev, trades, "reversal"@),
                halt_hp: after_trades(now.halt_hp, trades, "high_prob"@),
                trades: now.trades + trades,
            }
        } else {
            now
        }
    }

    /// The cycle has its sessions, and can be replayed if it is not passed over.
    pub open spec fn can_run(self, at: Progress, name: Seq<char>) -> bool {
        &&& has_session(self.time_of(name), at.halt_rev.reset_hour, self.calc)
        &&& has_session(self.time_of(name), at.halt_hp.reset_hour, self.calc)
        &&& self.any_active(self.begun(at, name)) ==> replayable(
            name,
            binance_rows_of(self.b, name),
            poly_rows_of(self.p, name),
            self.read,
        )
    }

    /// The progress after several cycles.
    pub open spec fn after_cycles(self, at: Progress, names: Seq<String>) -> Progress
        decreases names.len(),
    {
        if names.len() == 0 {
            at
        } else {
            self.after_cycle(self.after_cycles(at, names.drop_last()), names.last())
        }
    }

    /// Each of the cycles can be run when its turn comes.
    pub open spec fn can_run_all(self, at: Progress, names: Seq<String>) -> bool {
        forall|k: int|
            0 <= k < names.len() ==> self.can_run(
                self.after_cycles(at, names.take(k)),
                #[trigger] names[k]@,
            )
    }
}

/// The machine that replays a strategy. One with an unknown name replays reversals.
pub open spec fn is_machine_for(m: Machine, name: Seq<char>, p: AssetParams) -> bool {
    &&& is_fresh(m, p)
    &&& if name == "high_prob"@ {
        &&& m.strategy_name@ == "high_prob"@
        &&& m.kind == StrategyKind::HighProb(
            HighProbStrategy {
                price_low: p.price_low,
                price_high: p.price_high,
                enter_when_time_left: p.enter_when_time_left,
                no_enter_when_time_left: p.no_enter_when_time_left,
                fired: false,
                cycle_end_ts: num(ZERO),
            },
        )
        &&& m.sl == p.sl_high_prob
        &&& m.sl_pnl == p.sl_pnl_hp
        &&& m.unwind_pnl == p.unwind_pnl_hp
        &&& m.unwind_time == p.unwind_time_hp
    } else {
        &&& m.strategy_name@ == "reversal"@
        &&& m.kind == StrategyKind::Reversal(
            ReversalStrategy {
                reversal: p.reversal,
                no_enter_when_time_left: p.no_enter_when_time_left,
                fired: false,
                cycle_end_ts: num(ZERO),
            },
        )
        &&& m.sl == p.sl_reversal
        &&& m.sl_pnl == p.sl_pnl_rev
        &&& m.unwind_pnl == p.unwind_pnl_rev
        &&& m.unwind_time == p.unwind_time_rev
    }
}

/// One machine for each strategy.
pub open spec fn are_machines_for(ms: Seq<Machine>, p: AssetParams) -> bool {
    &&& ms.len() == p.strategies@.len()
    &&& forall|i: int| 0 <= i < ms.len() ==> is_machine_for(#[trigger] ms[i], p.strategies@[i]@, p)
}

/// The replay before its first cycle.
pub open spec fn starts(at: Progress, p: AssetParams) -> bool {
    &&& are_machines_for(at.machines, p)
    &&& at.halt_rev == (HaltTracker {
        max: p.halt_rev,
        reset_hour: p.halt_reset_hour_rev,
        losses: 0,
        last_session: None,
    })
    &&& at.halt_hp == (HaltTracker {
        max: p.halt_prob,
        reset_hour: p.halt_reset_hour_hp,
        losses: 0,
        last_session: None,
    })
    &&& at.trades == Seq::<TradeRecord>::empty()
}

pub open spec fn recording(
    p: AssetParams,
    b_rows: Seq<BinanceRow>,
    p_rows: Seq<PolyRow>,
    calc: Calc,
    read: spec_fn(Seq<char>) -> Option<Num>,
) -> Recording {
    Recording { strategies: views(p.strategies@), b: b_rows, p: p_rows, calc, read }
}

proof fn filter_of_next<T>(s: Seq<T>, i: int, keep: spec_fn(T) -> bool)
    requires
        0 <= i < s.len(),
    ensures
        s.take(i + 1).filter(keep) == if keep(s[i]) {
            s.take(i).filter(keep).push(s[i])
        } else {
            s.take(i).filter(keep)
        },
{
    reveal(Seq::filter);
    assert(s.take(i + 1).drop_last() =~= s.take(i));
}

proof fn names_are_known(p: Seq<PolyRow>)
    ensures
        all_different(views(cycle_names(p))),
        cycle_names(p).len() <= p.len(),
    decreases p.len(),
{
    if p.len() > 0 {
        names_are_known(p.drop_last());
        let names = cycle_names(p.drop_last());
        let next = cycle_names(p);
        if !views(names).contains(p.last().slug@) {
            assert(views(next) =~= views(names).push(p.last().slug@));
            assert forall|i: int, j: int| 0 <= i < j < views(next).len() implies views(next)[i]
                != views(next)[j] by {
                if j == views(names).len() {
                    assert(views(names)[i] == views(next)[i]);
                }
            }
        }
    }
}

/// The rows of each cycle, by the order in which the cycles first come.
pub struct Grouped {
    pub names: Vec<String>,
    pub b: Vec<Vec<BinanceRow>>,
    pub p: Vec<Vec<PolyRow>>,
}

impl Grouped {
    pub open spec fn groups(self, b: Seq<BinanceRow>, p: Seq<PolyRow>) -> bool {
        &&& self.names@ == cycle_names(p)
        &&& self.b@.len() == self.names@.len()
        &&& self.p@.len() == self.names@.len()
        &&& forall|g: int|
            0 <= g < self.names@.len() ==> (#[trigger] self.b@[g])@ == binance_rows_of(
                b,
                self.names@[g]@,
            )
        &&& forall|g: int|
            0 <= g < self.names@.len() ==> (#[trigger] self.p@[g])@ == poly_rows_of(
                p,
                self.names@[g]@,
            )
    }
}

/// `index` tells where each name stands.
spec fn indexes(index: Map<Seq<char>, usize>, names: Seq<String>) -> bool {
    &&& forall|g: int|
        0 <= g < names.len() ==> index.contains_key((#[trigger] names[g])@) && index[names[g]@] == g
    &&& forall|k: Seq<char>| #[trigger]
        index.contains_key(k) ==> index[k] < names.len() && names[index[k] as int]@ == k
}

/// Sorts the rows into their cycles. Binance rows of a cycle without token prices are
/// left out.
pub fn group_rows(b_rows: &Vec<BinanceRow>, p_rows: &Vec<PolyRow>) -> (r: Grouped)
    ensures
        r.groups(b_rows@, p_rows@),
{
    let mut index: StringHashMap<usize> = StringHashMap::new();
    let mut names: Vec<String> = Vec::new();
    let mut p_groups: Vec<Vec<PolyRow>> = Vec::new();
    let mut b_groups: Vec<Vec<BinanceRow>> = Vec::new();
    let mut i: usize = 0;
    while i < p_rows.len()
        invariant
            i <= p_rows@.len(),
            names@ == cycle_names(p_rows@.take(i as int)),
            indexes(index@, names@),
            p_groups@.len() == names@.len(),
            b_groups@.len() == names@.len(),
            forall|g: int|
                0 <= g < names@.len() ==> (#[trigger] p_groups@[g])@ == poly_rows_of(
                    p_rows@.take(i as int),
                    names@[g]@,
                ),
            forall|g: int| 0 <= g < names@.len() ==> (#[trigger] b_groups@[g])@.len() == 0,
        decreases p_rows@.len() - i,
    {
        let row = &p_rows[i];
        let ghost before = p_groups@;
        let ghost known = names@;
        let ghost next = p_rows@.take(i + 1);
        proof {
            assert(next.drop_last() =~= p_rows@.take(i as int));
            assert(next.last() == *row);
            assert forall|n: Seq<char>| #[trigger]
                poly_rows_of(next, n) == if row.slug@ == n {
                    poly_rows_of(p_rows@.take(i as int), n).push(*row)
                } else {
                    poly_rows_of(p_rows@.take(i as int), n)
                } by {
                filter_of_next(p_rows@, i as int, |r: PolyRow| r.slug@ == n);
            }
        }
        let at: Option<usize> = match index.get(row.slug.as_str()) {
            Some(g) => Some(*g),
            None => None,
        };
        match at {
            Some(g) => {
                p_groups[g].push(copy_poly(row));
                proof {
                    assert(views(known)[g as int] == row.slug@);
                    assert forall|h: int| 0 <= h < known.len() implies (#[trigger] p_groups@[h])@
                        == poly_rows_of(next, known[h]@) by {
                        if h != g {
                            assert(known[h]@ != known[g as int]@);
                            assert(p_groups@[h] == before[h]);
                        }
                    }
                }
            },
            None => {
                let g: usize = names.len();
                proof {
                    assert(!views(known).contains(row.slug@)) by {
                        if views(known).contains(row.slug@) {
                            let h = choose|h: int|
                                0 <= h < views(known).len() && views(known)[h] == row.slug@;
                            assert(known[h]@ == row.slug@);
                        }
                    }
                    nothing_of_unknown(p_rows@.take(i as int), row.slug@);
                }
                index.insert(row.slug.clone(), g);
                names.push(row.slug.clone());
                let mut group: Vec<PolyRow> = Vec::new();
                group.push(copy_poly(row));
                p_groups.push(group);
                b_groups.push(Vec::new());
                proof {
                    assert forall|h: int| 0 <= h < names@.len() implies (#[trigger] p_groups@[h])@
                        == poly_rows_of(next, names@[h]@) by {
                        if h < known.len() {
                            assert(names@[h] == known[h]);
                            assert(p_groups@[h] == before[h]);
                            assert(views(known)[h] == known[h]@);
                        } else {
                            assert(p_groups@[h]@ =~= Seq::<PolyRow>::empty().push(*row));
                        }
                    }
                }
            },
        }
        i = i + 1;
    }
    assert(p_rows@.take(i as int) =~= p_rows@);
    proof {
        assert forall|g: int| 0 <= g < names@.len() implies (#[trigger] b_groups@[g])@
            == binance_rows_of(b_rows@.take(0), names@[g]@) by {
            reveal(Seq::filter);
            assert(b_groups@[g]@ =~= Seq::<BinanceRow>::empty());
        }
    }
    let mut j: usize = 0;
    while j < b_rows.len()
        invariant
            j <= b_rows@.len(),
            indexes(index@, names@),
            b_groups@.len() == names@.len(),
            forall|g: int|
                0 <= g < names@.len() ==> (#[trigger] b_groups@[g])@ == binance_rows_of(
                    b_rows@.take(j as int),
                    names@[g]@,
                ),
        decreases b_rows@.len() - j,
    {
        let row = &b_rows[j];
        let ghost before = b_groups@;
        let ghost next = b_rows@.take(j + 1);
        proof {
            assert forall|n: Seq<char>| #[trigger]
                binance_rows_of(next, n) == if row.slug@ == n {
                    binance_rows_of(b_rows@.take(j as int), n).push(*row)
                } else {
                    binance_rows_of(b_rows@.take(j as int), n)
                } by {
                filter_of_next(b_rows@, j as int, |r: BinanceRow| r.slug@ == n);
            }
        }
        let at: Option<usize> = match index.get(row.slug.as_str()) {
            Some(g) => Some(*g),
            None => None,
        };
        if let Some(g) = at {
            b_groups[g].push(copy_binance(row));
            proof {
                assert forall|h: int| 0 <= h < names@.len() implies (#[trigger] b_groups@[h])@
                    == binance_rows_of(next, names@[h]@) by {
                    if h != g {
                        assert(names@[h]@ != names@[g as int]@);
                        assert(b_groups@[h] == before[h]);
                    }
                }
            }
        }
        j = j + 1;
    }
    assert(b_rows@.take(j as int) =~= b_rows@);
    Grouped { names, b: b_groups, p: p_groups }
}

proof fn nothing_of_unknown(p: Seq<PolyRow>, name: Seq<char>)
    requires
        !views(cycle_names(p)).contains(name),
    ensures
        poly_rows_of(p, name) == Seq::<PolyRow>::empty(),
    decreases p.len(),
{
    reveal(Seq::filter);
    if p.len() > 0 {
        let names = cycle_names(p.drop_last());
        let next = cycle_names(p);
        if views(names).contains(p.last().slug@) {
        } else {
            assert(views(next) =~= views(names).push(p.last().slug@));
            assert(views(next).last() == p.last().slug@);
        }
        if views(names).contains(name) {
            let i = choose|i: int| 0 <= i < views(names).len() && views(names)[i] == name;
            assert(views(next)[i] == name);
        }
        nothing_of_unknown(p.drop_last(), name);
    }
}

/// One machine for each strategy of the asset.
pub fn machines_for(params: &AssetParams) -> (r: Vec<Machine>)
    ensures
        are_machines_for(r@, *params),
{
    let mut r: Vec<Machine> = Vec::new();
    let mut i: usize = 0;
    while i < params.strategies.len()
        invariant
            i <= params.strategies@.len(),
            r@.len() == i,
            forall|k: int|
                0 <= k < i ==> is_machine_for(
                    #[trigger] r@[k],
                    params.strategies@[k]@,
                    *params,
                ),
        decreases params.strategies@.len() - i,
    {
        let m = if same_text(params.strategies[i].as_str(), "high_prob") {
            Machine::new_high_prob(params)
        } else {
            Machine::new_reversal(params)
        };
        r.push(m);
        i = i + 1;
    }
    r
}

fn some_active(strategies: &Vec<String>, halted_rev: bool, halted_hp: bool) -> (r: bool)
    ensures
        r == exists|i: int|
            0 <= i < views(strategies@).len() && !suppressed(
                #[trigger] views(strategies@)[i],
                halted_rev,
                halted_hp,
            ),
{
    let mut i: usize = 0;
    while i < strategies.len()
        invariant
            i <= strategies@.len(),
            forall|k: int|
                0 <= k < i ==> suppressed(
                    #[trigger] views(strategies@)[k],
                    halted_rev,
                    halted_hp,
                ),
        decreases strategies@.len() - i,
    {
        let name = strategies[i].as_str();
        assert(views(strategies@)[i as int] == name@);
        let active = if same_text(name, "reversal") {
            !halted_rev
        } else if same_text(name, "high_prob") {
            !halted_hp
        } else {
            true
        };
        if active {
            return true;
        }
        i = i + 1;
    }
    false
}

fn record_all(halt: &mut HaltTracker, trades: &Vec<TradeRecord>, strategy: &str)
    ensures
        *final(halt) == after_trades(*old(halt), trades@, strategy@),
{
    let ghost before = *halt;
    let mut i: usize = 0;
    while i < trades.len()
        invariant
            i <= trades@.len(),
            *halt == after_trades(before, trades@.take(i as int), strategy@),
        decreases trades@.len() - i,
    {
        assert(trades@.take(i + 1).drop_last() =~= trades@.take(i as int));
        halt.record_trade(&trades[i], strategy);
        i = i + 1;
    }
    assert(trades@.take(i as int) =~= trades@);
}

/// Whether a cycle can be replayed.
fn can_replay<P: Fn(String) -> Option<Num>>(
    slug: &String,
    b_cycle: &Vec<BinanceRow>,
    p_cycle: &Vec<PolyRow>,
    reader: &Reader<P>,
) -> (r: bool)
    ensures
        r == replayable(slug@, b_cycle@, p_cycle@, reader@),
{
    if b_cycle.len() == 0 || p_cycle.len() == 0 {
        return true;
    }
    let stamp = reader.read(text_after_last(slug.as_str(), '-'));
    if stamp.is_none() {
        return false;
    }
    let ghost times = row_times(b_cycle@, p_cycle@);
    let mut i: usize = 0;
    while i < b_cycle.len()
        invariant
            i <= b_cycle@.len(),
            p_cycle@.len() > 0,
            times == row_times(b_cycle@, p_cycle@),
            forall|k: int| 0 <= k < i ==> !(#[trigger] times[k]).is_nan(),
        decreases b_cycle@.len() - i,
    {
        assert(times[i as int] == b_cycle@[i as int].ts);
        if b_cycle[i].ts.is_nan() {
            return false;
        }
        i = i + 1;
    }
    let mut j: usize = 0;
    while j < p_cycle.len()
        invariant
            j <= p_cycle@.len(),
            b_cycle@.len() > 0,
            times == row_times(b_cycle@, p_cycle@),
            forall|k: int| 0 <= k < b_cycle@.len() + j ==> !(#[trigger] times[k]).is_nan(),
        decreases p_cycle@.len() - j,
    {
        assert(times[b_cycle@.len() + j] == p_cycle@[j as int].ts);
        if p_cycle[j].ts.is_nan() {
            return false;
        }
        j = j + 1;
    }
    true
}

/// Where a replay stands, as it is worked on.
struct ReplayState {
    machines: Vec<Machine>,
    halt_rev: HaltTracker,
    halt_hp: HaltTracker,
    trades: Vec<TradeRecord>,
}

impl ReplayState {
    spec fn progress(self) -> Progress {
        Progress {
            machines: self.machines@,
            halt_rev: self.halt_rev,
            halt_hp: self.halt_hp,
            trades: self.trades@,
        }
    }
}

/// Runs one cycle. Says whether it could be run; one that could not may leave anything
/// behind.
fn run_cycle<F: Fn(Op, Num, Num) -> Num, P: Fn(String) -> Option<Num>>(
    state: &mut ReplayState,
    strategies: &Vec<String>,
    slug: &String,
    b_cycle: &Vec<BinanceRow>,
    p_cycle: &Vec<PolyRow>,
    arith: &Arith<F>,
    reader: &Reader<P>,
    Ghost(rec): Ghost<Recording>,
) -> (r: bool)
    requires
        b_cycle@.len() + p_cycle@.len() <= usize::MAX,
        b_cycle@ == binance_rows_of(rec.b, slug@),
        p_cycle@ == poly_rows_of(rec.p, slug@),
        rec.strategies == views(strategies@),
        rec.calc == arith@,
        rec.read == reader@,
    ensures
        r == rec.can_run(old(state).progress(), slug@),
        r ==> final(state).progress() == rec.after_cycle(old(state).progress(), *slug),
{
    let ghost at = state.progress();
    let slug_ts = match reader.read(text_after_last(slug.as_str(), '-')) {
        Some(x) => x,
        None => num(ZERO),
    };
    assert(slug_ts == rec.time_of(slug@));
    if !session_is_known(slug_ts, state.halt_rev.reset_hour, arith) || !session_is_known(
        slug_ts,
        state.halt_hp.reset_hour,
        arith,
    ) {
        return false;
    }
    state.halt_rev.reset_if_new_session(slug_ts, arith);
    state.halt_hp.reset_if_new_session(slug_ts, arith);
    let halted_rev = state.halt_rev.is_halted();
    let halted_hp = state.halt_hp.is_halted();
    let ghost now = rec.begun(at, slug@);
    assert(now.halt_rev == state.halt_rev && now.halt_hp == state.halt_hp);
    let active = some_active(strategies, halted_rev, halted_hp);
    assert(active == rec.any_active(now));
    if !active {
        return true;
    }
    if !can_replay(slug, b_cycle, p_cycle, reader) {
        return false;
    }
    let trades = replay_cycle(
        slug,
        b_cycle,
        p_cycle,
        &mut state.machines,
        halted_rev,
        halted_hp,
        arith,
        reader,
    );
    record_all(&mut state.halt_rev, &trades, "reversal");
    record_all(&mut state.halt_hp, &trades, "high_prob");
    let mut trades = trades;
    state.trades.append(&mut trades);
    true
}

/// The cycle at `i` can be run when its turn comes.
#[verifier::opaque]
spec fn can_run_at(rec: Recording, at: Progress, names: Seq<String>, i: int) -> bool {
    rec.can_run(rec.after_cycles(at, names.take(i)), names[i]@)
}

/// The first `k` cycles can be run when their turn comes.
spec fn can_run_first(rec: Recording, at: Progress, names: Seq<String>, k: int) -> bool {
    forall|i: int| 0 <= i < k ==> #[trigger] can_run_at(rec, at, names, i)
}

proof fn next_cycle(rec: Recording, at: Progress, names: Seq<String>, k: int)
    requires
        0 <= k < names.len(),
    ensures
        rec.after_cycles(at, names.take(k + 1)) == rec.after_cycle(
            rec.after_cycles(at, names.take(k)),
            names[k],
        ),
{
    assert(names.take(k + 1).drop_last() =~= names.take(k));
}

proof fn can_run_all_cycles(rec: Recording, at: Progress, names: Seq<String>)
    ensures
        rec.can_run_all(at, names) == can_run_first(rec, at, names, names.len() as int),
{
    reveal(can_run_at);
    if can_run_first(rec, at, names, names.len() as int) {
        assert forall|k: int| 0 <= k < names.len() implies rec.can_run(
            rec.after_cycles(at, names.take(k)),
            #[trigger] names[k]@,
        ) by {
            assert(can_run_at(rec, at, names, k));
        }
    }
}

/// Replays all cycles of the recorded prices, in the order of their names, and gives one
/// record for each trade; nothing when a cycle cannot be run.
pub fn try_backtest<F: Fn(Op, Num, Num) -> Num, P: Fn(String) -> Option<Num>>(
    params: &AssetParams,
    b_rows: &Vec<BinanceRow>,
    p_rows: &Vec<PolyRow>,
    arith: &Arith<F>,
    reader: &Reader<P>,
) -> (r: Option<Vec<TradeRecord>>)
    requires
        b_rows@.len() + p_rows@.len() <= usize::MAX,
    ensures
        exists|at: Progress| #[trigger]
            starts(at, *params) && ({
                let rec = recording(*params, b_rows@, p_rows@, arith@, reader@);
                match r {
                    Some(trades) => {
                        &&& rec.can_run_all(at, sorted_names(p_rows@))
                        &&& trades@ == rec.after_cycles(at, sorted_names(p_rows@)).trades
                    },
                    None => !rec.can_run_all(at, sorted_names(p_rows@)),
                }
            }),
{
    let groups = group_rows(b_rows, p_rows);
    proof {
        names_are_known(p_rows@);
    }
    let order = sort_texts(&groups.names);
    let mut state = ReplayState {
        machines: machines_for(params),
        halt_rev: HaltTracker::new(params.halt_rev, params.halt_reset_hour_rev),
        halt_hp: HaltTracker::new(params.halt_prob, params.halt_reset_hour_hp),
        trades: Vec::new(),
    };
    let ghost rec = recording(*params, b_rows@, p_rows@, arith@, reader@);
    let ghost names = sorted_names(p_rows@);
    let ghost at = state.progress();
    assert(starts(at, *params));
    let mut k: usize = 0;
    assert(names.take(0) =~= Seq::empty());
    assert(rec.after_cycles(at, Seq::empty()) == at);
    while k < order.len()
        invariant
            k <= order@.len(),
            b_rows@.len() + p_rows@.len() <= usize::MAX,
            groups.groups(b_rows@, p_rows@),
            order@ == text_order(views(groups.names@)),
            forall|i: int| 0 <= i < order@.len() ==> #[trigger] order@[i] < groups.names@.len(),
            names == sorted_names(p_rows@),
            rec == recording(*params, b_rows@, p_rows@, arith@, reader@),
            starts(at, *params),
            names.len() == order@.len(),
            can_run_first(rec, at, names, k as int),
            state.progress() == rec.after_cycles(at, names.take(k as int)),
        decreases order@.len() - k,
    {
        let g: usize = order[k];
        let slug = &groups.names[g];
        proof {
            assert(names[k as int] == *slug);
            b_rows@.lemma_filter_len(|r: BinanceRow| r.slug@ == slug@);
            p_rows@.lemma_filter_len(|r: PolyRow| r.slug@ == slug@);
        }
        let could = run_cycle(
            &mut state,
            &params.strategies,
            slug,
            &groups.b[g],
            &groups.p[g],
            arith,
            reader,
            Ghost(rec),
        );
        proof {
            next_cycle(rec, at, names, k as int);
        }
        assert(could == can_run_at(rec, at, names, k as int)) by {
            reveal(can_run_at);
        }
        if !could {
            proof {
                can_run_all_cycles(rec, at, names);
            }
            return None;
        }
        k = k + 1;
    }
    proof {
        can_run_all_cycles(rec, at, names);
        assert(names.take(k as int) =~= names);
    }
    Some(state.trades)
}

/// Replays all cycles of the recorded prices, in the order of their names, and gives one
/// record for each trade.
pub fn run_backtest<F: Fn(Op, Num, Num) -> Num, P: Fn(String) -> Option<Num>>(
    params: &AssetParams,
    b_rows: Vec<BinanceRow>,
    p_rows: Vec<PolyRow>,
    arith: &Arith<F>,
    reader: &Reader<P>,
) -> (r: Vec<TradeRecord>)
    requires
        b_rows@.len() + p_rows@.len() <= usize::MAX,
        forall|at: Progress| #[trigger]
            starts(at, *params) ==> recording(
                *params,
                b_rows@,
                p_rows@,
                arith@,
                reader@,
            ).can_run_all(at, sorted_names(p_rows@)),
    ensures
        exists|at: Progress| #[trigger]
            starts(at, *params) && r@ == recording(
                *params,
                b_rows@,
                p_rows@,
                arith@,
                reader@,
            ).after_cycles(at, sorted_names(p_rows@)).trades,
{
    match try_backtest(params, &b_rows, &p_rows, arith, reader) {
        Some(trades) => trades,
        None => {
            assert(false);
            Vec::new()
        },
    }
}

proof fn name_stands_in_a_row(p: Seq<PolyRow>, i: int)
    requires
        0 <= i < cycle_names(p).len(),
    ensures
        exists|k: int| 0 <= k < p.len() && (#[trigger] p[k]).slug@ == cycle_names(p)[i]@,
    decreases p.len(),
{
    if p.len() > 0 {
        let before = cycle_names(p.drop_last());
        if i < before.len() {
            name_stands_in_a_row(p.drop_last(), i);
            let k = choose|k: int|
                0 <= k < p.drop_last().len() && (#[trigger] p.drop_last()[k]).slug@ == before[i]@;
            assert(p[k].slug@ == cycle_names(p)[i]@);
        } else {
            assert(p[p.len() - 1].slug@ == cycle_names(p)[i]@);
        }
    }
}

proof fn trades_keep_the_hour(h: HaltTracker, trades: Seq<TradeRecord>, strategy: Seq<char>)
    ensures
        after_trades(h, trades, strategy).reset_hour == h.reset_hour,
    decreases trades.len(),
{
    if trades.len() > 0 {
        trades_keep_the_hour(h, trades.drop_last(), strategy);
    }
}

proof fn cycles_keep_the_hours(rec: Recording, at: Progress, names: Seq<String>)
    ensures
        rec.after_cycles(at, names).halt_rev.reset_hour == at.halt_rev.reset_hour,
        rec.after_cycles(at, names).halt_hp.reset_hour == at.halt_hp.reset_hour,
    decreases names.len(),
{
    if names.len() > 0 {
        cycles_keep_the_hours(rec, at, names.drop_last());
        let now = rec.begun(rec.after_cycles(at, names.drop_last()), names.last()@);
        let trades = replay(
            names.last(),
            binance_rows_of(rec.b, names.last()@),
            poly_rows_of(rec.p, names.last()@),
            now.machines,
            now.halt_rev.halted(),
            now.halt_hp.halted(),
            rec.calc,
            rec.read,
        ).1;
        trades_keep_the_hour(now.halt_rev, trades, "reversal"@);
        trades_keep_the_hour(now.halt_hp, trades, "high_prob"@);
    }
}

proof fn binance_row_is_recorded(b: Seq<BinanceRow>, name: Seq<char>, i: int)
    requires
        0 <= i < binance_rows_of(b, name).len(),
    ensures
        exists|k: int| 0 <= k < b.len() && #[trigger] b[k] == binance_rows_of(b, name)[i],
    decreases b.len(),
{
    reveal(Seq::filter);
    if b.len() > 0 {
        let before = binance_rows_of(b.drop_last(), name);
        if i < before.len() {
            binance_row_is_recorded(b.drop_last(), name, i);
            let k = choose|k: int| 0 <= k < b.drop_last().len() && #[trigger] b.drop_last()[k] == before[i];
            assert(b[k] == binance_rows_of(b, name)[i]);
        } else {
            assert(b[b.len() - 1] == binance_rows_of(b, name)[i]);
        }
    }
}

proof fn poly_row_is_recorded(p: Seq<PolyRow>, name: Seq<char>, i: int)
    requires
        0 <= i < poly_rows_of(p, name).len(),
    ensures
        exists|k: int| 0 <= k < p.len() && #[trigger] p[k] == poly_rows_of(p, name)[i],
    decreases p.len(),
{
    reveal(Seq::filter);
    if p.len() > 0 {
        let before = poly_rows_of(p.drop_last(), name);
        if i < before.len() {
            poly_row_is_recorded(p.drop_last(), name, i);
            let k = choose|k: int| 0 <= k < p.drop_last().len() && #[trigger] p.drop_last()[k] == before[i];
            assert(p[k] == poly_rows_of(p, name)[i]);
        } else {
            assert(p[p.len() - 1] == poly_rows_of(p, name)[i]);
        }
    }
}

proof fn rows_of_a_cycle_are_timed(b: Seq<BinanceRow>, p: Seq<PolyRow>, name: Seq<char>)
    requires
        all_timed(row_times(b, p)),
    ensures
        all_timed(row_times(binance_rows_of(b, name), poly_rows_of(p, name))),
{
    let bs = binance_rows_of(b, name);
    let ps = poly_rows_of(p, name);
    let all = row_times(b, p);
    let times = row_times(bs, ps);
    assert forall|i: int| 0 <= i < times.len() implies !(#[trigger] times[i]).is_nan() by {
        if i < bs.len() {
            binance_row_is_recorded(b, name, i);
            let k = choose|k: int| 0 <= k < b.len() && #[trigger] b[k] == bs[i];
            assert(all[k] == bs[i].ts);
        } else {
            let j = i - bs.len();
            poly_row_is_recorded(p, name, j);
            let k = choose|k: int| 0 <= k < p.len() && #[trigger] p[k] == ps[j];
            assert(all[b.len() + k] == ps[j].ts);
        }
    }
}

/// The name ends in a time whose sessions can be told.
pub open spec fn named_in_time(
    name: Seq<char>,
    params: AssetParams,
    calc: Calc,
    read: spec_fn(Seq<char>) -> Option<Num>,
) -> bool {
    &&& stamp(name, read) is Some
    &&& has_session(stamp(name, read)->0, params.halt_reset_hour_rev, calc)
    &&& has_session(stamp(name, read)->0, params.halt_reset_hour_hp, calc)
}

/// A recording in which every row has a time, and every cycle is named in time, can be
/// replayed from the start to the end.
pub proof fn timed_recording_can_run(
    params: AssetParams,
    b: Seq<BinanceRow>,
    p: Seq<PolyRow>,
    calc: Calc,
    read: spec_fn(Seq<char>) -> Option<Num>,
    at: Progress,
)
    requires
        starts(at, params),
        p.len() <= usize::MAX,
        all_timed(row_times(b, p)),
        forall|i: int|
            0 <= i < p.len() ==> named_in_time((#[trigger] p[i]).slug@, params, calc, read),
    ensures
        recording(params, b, p, calc, read).can_run_all(at, sorted_names(p)),
{
    let rec = recording(params, b, p, calc, read);
    let names = sorted_names(p);
    names_are_known(p);
    let texts = views(cycle_names(p));
    text_order_is_strict(texts);
    sorted_order_sorts(index_order(texts), texts.len() as int);
    assert forall|k: int| 0 <= k < names.len() implies rec.can_run(
        rec.after_cycles(at, names.take(k)),
        #[trigger] names[k]@,
    ) by {
        let i = text_order(texts)[k] as int;
        assert(0 <= i < cycle_names(p).len());
        name_stands_in_a_row(p, i);
        let j = choose|j: int| 0 <= j < p.len() && (#[trigger] p[j]).slug@ == cycle_names(p)[i]@;
        assert(named_in_time(p[j].slug@, params, calc, read));
        cycles_keep_the_hours(rec, at, names.take(k));
        rows_of_a_cycle_are_timed(b, p, names[k]@);
    }
}

/// The number that a piece of a date writes.
pub open spec fn date_part(s: Seq<char>) -> Option<int> {
    match signed_of(s) {
        Some(v) => if i32::MIN <= v <= i32::MAX {
            Some(v)
        } else {
            None
        },
        None => None,
    }
}

/// The date that a text like `2026-06-20` writes: year, month and day between dashes.
pub open spec fn date_of(s: Seq<char>) -> Option<CivilDate> {
    let parts = split(s, '-');
    if parts.len() >= 3 && (forall|i: int|
        0 <= i < parts.len() ==> date_part(#[trigger] parts[i]) is Some) && date_part(parts[1])->0
        >= 0 && date_part(parts[2])->0 >= 0 {
        Some(
            CivilDate {
                year: date_part(parts[0])->0 as i32,
                month: date_part(parts[1])->0 as u32,
                day: date_part(parts[2])->0 as u32,
            },
        )
    } else {
        None
    }
}

/// Reads a date.
pub fn parse_date(text: &str) -> (r: Option<CivilDate>)
    ensures
        r == date_of(text@),
{
    let parts = split_text(text, '-');
    let ghost pieces = split(text@, '-');
    let mut values: Vec<i32> = Vec::new();
    let mut i: usize = 0;
    while i < parts.len()
        invariant
            i <= parts@.len(),
            views(parts@) == pieces,
            pieces == split(text@, '-'),
            values@.len() == i,
            forall|k: int|
                0 <= k < i ==> date_part(#[trigger] pieces[k]) == Some(values@[k] as int),
        decreases parts@.len() - i,
    {
        assert(pieces[i as int] == parts@[i as int]@);
        match parse_signed(parts[i].as_str()) {
            Some(v) => {
                if v < -0x8000_0000 || v > 0x7FFF_FFFF {
                    assert(date_part(pieces[i as int]) is None);
                    return None;
                }
                values.push(v as i32);
            },
            None => {
                assert(date_part(pieces[i as int]) is None);
                return None;
            },
        }
        i = i + 1;
    }
    if values.len() < 3 {
        return None;
    }
    assert(date_part(pieces[0]) == Some(values@[0] as int));
    assert(date_part(pieces[1]) == Some(values@[1] as int));
    assert(date_part(pieces[2]) == Some(values@[2] as int));
    if values[1] < 0 || values[2] < 0 {
        return None;
    }
    Some(CivilDate { year: values[0], month: values[1] as u32, day: values[2] as u32 })
}

/// The first and the last second of a day in Hong Kong lie in the calendar.
pub open spec fn has_day(date: CivilDate) -> bool {
    &&& date.is_valid()
    &&& MIN_DAY <= local_day(instant(date, 0, 0, 0, HKT_OFFSET as int), 0) <= MAX_DAY
    &&& MIN_DAY <= local_day(instant(date, 23, 59, 59, HKT_OFFSET as int), 0) <= MAX_DAY
}

/// The cycle begins on that day in Hong Kong.
pub open spec fn begins_on(
    slug: Seq<char>,
    date: CivilDate,
    calc: Calc,
    read: spec_fn(Seq<char>) -> Option<Num>,
) -> bool {
    match stamp(slug, read) {
        Some(x) => x.ge(calc.from_signed(instant(date, 0, 0, 0, HKT_OFFSET as int) as i64)) && x.le(
            calc.from_signed(instant(date, 23, 59, 59, HKT_OFFSET as int) as i64),
        ),
        None => false,
    }
}

/// A token row belongs to the cycle.
pub open spec fn has_prices(p: Seq<PolyRow>, slug: Seq<char>) -> bool {
    exists|i: int| 0 <= i < p.len() && (#[trigger] p[i]).slug@ == slug
}

/// Keeps the rows of the cycles that begin on the day in Hong Kong and have token prices.
pub fn filter_by_date<F: Fn(Op, Num, Num) -> Num, P: Fn(String) -> Option<Num>>(
    b_rows: Vec<BinanceRow>,
    p_rows: Vec<PolyRow>,
    date: &str,
    arith: &Arith<F>,
    reader: &Reader<P>,
) -> (r: (Vec<BinanceRow>, Vec<PolyRow>))
    requires
        date_of(date@) is Some,
        has_day(date_of(date@)->0),
    ensures
        r.0@ == b_rows@.filter(
            |row: BinanceRow|
                begins_on(row.slug@, date_of(date@)->0, arith@, reader@) && has_prices(
                    p_rows@,
                    row.slug@,
                ),
        ),
        r.1@ == p_rows@.filter(
            |row: PolyRow| begins_on(row.slug@, date_of(date@)->0, arith@, reader@),
        ),
{
    let day = match parse_date(date) {
        Some(d) => d,
        None => CivilDate { year: 0, month: 0, day: 0 },
    };
    let first: i64 = match instant_of(day, 0, 0, 0, HKT_OFFSET) {
        Some(secs) => secs,
        None => 0,
    };
    let last: i64 = match instant_of(day, 23, 59, 59, HKT_OFFSET) {
        Some(secs) => secs,
        None => 0,
    };
    let ts_start = arith.from_signed(first);
    let ts_end = arith.from_signed(last);
    let ghost keep_p = |row: PolyRow| begins_on(row.slug@, day, arith@, reader@);
    let ghost keep_b = |row: BinanceRow|
        begins_on(row.slug@, day, arith@, reader@) && has_prices(p_rows@, row.slug@);
    let mut valid: StringHashMap<bool> = StringHashMap::new();
    let mut p: Vec<PolyRow> = Vec::new();
    let mut i: usize = 0;
    reveal(Seq::filter);
    while i < p_rows.len()
        invariant
            i <= p_rows@.len(),
            ts_start == arith@.from_signed(instant(day, 0, 0, 0, HKT_OFFSET as int) as i64),
            ts_end == arith@.from_signed(instant(day, 23, 59, 59, HKT_OFFSET as int) as i64),
            keep_p == (|row: PolyRow| begins_on(row.slug@, day, arith@, reader@)),
            p@ == p_rows@.take(i as int).filter(keep_p),
            forall|k: Seq<char>| #[trigger]
                valid@.contains_key(k) <==> begins_on(k, day, arith@, reader@) && has_prices(
                    p_rows@.take(i as int),
                    k,
                ),
        decreases p_rows@.len() - i,
    {
        let row = &p_rows[i];
        let ghost known = p_rows@.take(i as int);
        let ghost next = p_rows@.take(i + 1);
        proof {
            filter_of_next(p_rows@, i as int, keep_p);
            assert forall|k: Seq<char>| #[trigger] has_prices(next, k) == (has_prices(known, k)
                || row.slug@ == k) by {
                if has_prices(known, k) {
                    let j = choose|j: int| 0 <= j < known.len() && (#[trigger] known[j]).slug@ == k;
                    assert(next[j].slug@ == k);
                }
                if row.slug@ == k {
                    assert(next[i as int].slug@ == k);
                }
                if has_prices(next, k) {
                    let j = choose|j: int| 0 <= j < next.len() && (#[trigger] next[j]).slug@ == k;
                    if j < i {
                        assert(known[j].slug@ == k);
                    }
                }
            }
        }
        let keep = match reader.read(text_after_last(row.slug.as_str(), '-')) {
            Some(x) => x.ge(ts_start) && x.le(ts_end),
            None => false,
        };
        if keep {
            valid.insert(row.slug.clone(), true);
            p.push(copy_poly(row));
        }
        i = i + 1;
    }
    assert(p_rows@.take(i as int) =~= p_rows@);
    let mut b: Vec<BinanceRow> = Vec::new();
    let mut j: usize = 0;
    while j < b_rows.len()
        invariant
            j <= b_rows@.len(),
            keep_b == (|row: BinanceRow|
                begins_on(row.slug@, day, arith@, reader@) && has_prices(p_rows@, row.slug@)),
            b@ == b_rows@.take(j as int).filter(keep_b),
            forall|k: Seq<char>| #[trigger]
                valid@.contains_key(k) <==> begins_on(k, day, arith@, reader@) && has_prices(
                    p_rows@,
                    k,
                ),
        decreases b_rows@.len() - j,
    {
        let row = &b_rows[j];
        proof {
            filter_of_next(b_rows@, j as int, keep_b);
        }
        if valid.contains_key(row.slug.as_str()) {
            b.push(copy_binance(row));
        }
        j = j + 1;
    }
    assert(b_rows@.take(j as int) =~= b_rows@);
    (b, p)
}

} // verus!

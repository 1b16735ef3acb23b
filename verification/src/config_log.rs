//! Snapshots of the configuration, as they are logged.

use vstd::prelude::*;
use vstd::string::StringExecFns;

use crate::asset_map::AssetMap;
use crate::backtest::{can_order, order_by_time, time_order};
use crate::calendar::{in_range, local_stamp, stamp_of, STAMP_PATTERN};
use crate::config::{get_asset, pick, StrategyToml};
use crate::halt::HKT_OFFSET;
use crate::num::{num, Arith, Calc, Num, Op, ZERO};
use crate::text::{copy_texts, join, joined, same_text, views};

verus! {

/// The configuration at one time. The tables are whole, not resolved for the asset.
#[derive(Clone, Debug)]
pub struct ConfigSnapshot {
    pub ts: Num,
    /// The time in Hong Kong.
    pub hkt: String,
    pub asset: String,
    pub event: String,
    pub assets: String,
    pub trade_assets: String,
    pub strategies: Vec<String>,
    pub max_buy: Num,
    pub no_enter: i64,
    /// For each asset the low and the high end of the price band.
    pub band: AssetMap<(Num, Num)>,
    pub trade_size: AssetMap<Num>,
    pub halt_prob: AssetMap<i64>,
    pub halt_rev: AssetMap<i64>,
    pub halt_reset_hour_rev: AssetMap<i64>,
    pub halt_reset_hour_hp: AssetMap<i64>,
    pub enter_when: AssetMap<i64>,
    pub delta_pct_hp: AssetMap<Num>,
    pub delta_pct_rev: AssetMap<Num>,
    pub reversal: AssetMap<Num>,
    pub rev_low: AssetMap<Num>,
    pub rev_start: AssetMap<i64>,
    pub price_high_rev: AssetMap<Num>,
    pub sl_hp: AssetMap<Num>,
    pub sl_rev: AssetMap<Num>,
    pub unwind_pnl_rev: AssetMap<Num>,
    pub sl_pnl_rev: AssetMap<Num>,
    pub unwind_pnl_hp: AssetMap<Num>,
    pub sl_pnl_hp: AssetMap<Num>,
    pub v_high1: AssetMap<Num>,
    pub v_low: AssetMap<Num>,
    pub v_high2: AssetMap<Num>,
    pub delta_pct_v: AssetMap<Num>,
    pub sl_v_shape: AssetMap<Num>,
    pub sl_pnl_v: AssetMap<Num>,
    pub unwind_pnl_v: AssetMap<Num>,
    pub unwind_time_v: AssetMap<Num>,
    pub halt_v: AssetMap<i64>,
    pub halt_reset_hour_v: AssetMap<i64>,
}

/// Every asset that either end of the band names has both, by itself or by the default.
pub open spec fn has_bands(low: Map<Seq<char>, Num>, high: Map<Seq<char>, Num>) -> bool {
    forall|k: Seq<char>|
        #![trigger low.contains_key(k)]
        #![trigger high.contains_key(k)]
        low.contains_key(k) || high.contains_key(k) ==> pick(low, k) is Some && pick(high, k) is Some
}

/// The band of each asset that either end names; the end that does not name it takes its
/// default.
pub open spec fn is_band(
    band: Map<Seq<char>, (Num, Num)>,
    low: Map<Seq<char>, Num>,
    high: Map<Seq<char>, Num>,
) -> bool {
    &&& forall|k: Seq<char>| #[trigger]
        band.contains_key(k) <==> low.contains_key(k) || high.contains_key(k)
    &&& forall|k: Seq<char>| #[trigger]
        band.contains_key(k) ==> Some(band[k].0) == pick(low, k) && Some(band[k].1) == pick(high, k)
}

fn put_bands(
    band: &mut AssetMap<(Num, Num)>,
    names: &Vec<String>,
    low: &AssetMap<Num>,
    high: &AssetMap<Num>,
)
    requires
        has_bands(low@, high@),
        forall|i: int|
            0 <= i < names@.len() ==> low@.contains_key((#[trigger] names@[i])@)
                || high@.contains_key(names@[i]@),
        forall|k: Seq<char>| #[trigger]
            old(band)@.contains_key(k) ==> (low@.contains_key(k) || high@.contains_key(k)) && Some(
                old(band)@[k].0,
            ) == pick(low@, k) && Some(old(band)@[k].1) == pick(high@, k),
    ensures
        forall|k: Seq<char>| #[trigger]
            final(band)@.contains_key(k) <==> old(band)@.contains_key(k) || views(
                names@,
            ).contains(k),
        forall|k: Seq<char>| #[trigger]
            final(band)@.contains_key(k) ==> (low@.contains_key(k) || high@.contains_key(k))
                && Some(final(band)@[k].0) == pick(low@, k) && Some(final(band)@[k].1) == pick(
                high@,
                k,
            ),
{
    let ghost start = band@;
    let ghost all = views(names@);
    let mut i: usize = 0;
    while i < names.len()
        invariant
            i <= names@.len(),
            all == views(names@),
            has_bands(low@, high@),
            forall|j: int|
                0 <= j < names@.len() ==> low@.contains_key((#[trigger] names@[j])@)
                    || high@.contains_key(names@[j]@),
            forall|k: Seq<char>| #[trigger]
                band@.contains_key(k) <==> start.contains_key(k) || all.take(i as int).contains(k),
            forall|k: Seq<char>| #[trigger]
                band@.contains_key(k) ==> (low@.contains_key(k) || high@.contains_key(k)) && Some(
                    band@[k].0,
                ) == pick(low@, k) && Some(band@[k].1) == pick(high@, k),
        decreases names@.len() - i,
    {
        let ghost before = band@;
        let name = names[i].as_str();
        let lo = match get_asset(low, name) {
            Some(v) => v,
            None => num(ZERO),
        };
        let hi = match get_asset(high, name) {
            Some(v) => v,
            None => num(ZERO),
        };
        band.insert(names[i].clone(), (lo, hi));
        proof {
            let next = all.take(i + 1);
            let prev = all.take(i as int);
            assert(next =~= prev.push(name@));
            assert(low@.contains_key(names@[i as int]@) || high@.contains_key(names@[i as int]@));
            assert forall|k: Seq<char>| next.contains(k) == (prev.contains(k) || k == name@) by {
                if prev.contains(k) {
                    let j = choose|j: int| 0 <= j < prev.len() && prev[j] == k;
                    assert(next[j] == k);
                }
                if k == name@ {
                    assert(next[i as int] == k);
                }
                if next.contains(k) {
                    let j = choose|j: int| 0 <= j < next.len() && next[j] == k;
                    if j < i {
                        assert(prev[j] == k);
                    }
                }
            }
        }
        i = i + 1;
    }
    assert(all.take(i as int) =~= all);
}

/// The bands of all assets.
pub fn build_band(low: &AssetMap<Num>, high: &AssetMap<Num>) -> (r: AssetMap<(Num, Num)>)
    requires
        has_bands(low@, high@),
    ensures
        is_band(r@, low@, high@),
{
    let mut band: AssetMap<(Num, Num)> = AssetMap::new();
    let lows = low.keys();
    let highs = high.keys();
    put_bands(&mut band, &lows, low, high);
    put_bands(&mut band, &highs, low, high);
    proof {
        assert forall|k: Seq<char>| #[trigger] band@.contains_key(k) <==> low@.contains_key(k)
            || high@.contains_key(k) by {
            if low@.contains_key(k) {
                let i = choose|i: int| 0 <= i < lows@.len() && (#[trigger] lows@[i])@ == k;
                assert(views(lows@)[i] == k);
            }
            if high@.contains_key(k) {
                let i = choose|i: int| 0 <= i < highs@.len() && (#[trigger] highs@[i])@ == k;
                assert(views(highs@)[i] == k);
            }
        }
    }
    band
}

/// The snapshot holds the configuration.
pub open spec fn is_snapshot(
    s: ConfigSnapshot,
    toml: StrategyToml,
    asset: Seq<char>,
    event: Seq<char>,
    strategies: Seq<String>,
    ts: Num,
    calc: Calc,
) -> bool {
    &&& s.ts == ts
    &&& s.hkt@ == local_stamp(calc.to_signed(ts) as int, HKT_OFFSET as int) + " HKT"@
    &&& s.asset@ == asset
    &&& s.event@ == event
    &&& s.assets@ == joined(views(toml.assets@), ","@)
    &&& s.trade_assets@ == joined(views(toml.trade_assets@), ","@)
    &&& s.strategies@ == strategies
    &&& s.max_buy == toml.max_buy_price
    &&& s.no_enter == toml.no_enter_when_time_left
    &&& is_band(s.band@, toml.price_low@, toml.price_high@)
    &&& s.trade_size@ == toml.trade_size_usdc@
    &&& s.halt_prob@ == toml.halt_prob@
    &&& s.halt_rev@ == toml.halt_rev@
    &&& s.halt_reset_hour_rev@ == toml.halt_reset_hour_rev@
    &&& s.halt_reset_hour_hp@ == toml.halt_reset_hour_hp@
    &&& s.enter_when@ == toml.enter_when_time_left@
    &&& s.delta_pct_hp@ == toml.delta_pct_hp@
    &&& s.delta_pct_rev@ == toml.delta_pct_rev@
    &&& s.reversal@ == toml.reversal@
    &&& s.rev_low@ == toml.reversal_low_threshold@
    &&& s.rev_start@ == toml.reversal_start_time@
    &&& s.price_high_rev@ == toml.price_high_rev@
    &&& s.sl_hp@ == toml.sl_high_prob@
    &&& s.sl_rev@ == toml.sl_reversal@
    &&& s.unwind_pnl_rev@ == toml.unwind_pnl_rev@
    &&& s.sl_pnl_rev@ == toml.sl_pnl_rev@
    &&& s.unwind_pnl_hp@ == toml.unwind_pnl_hp@
    &&& s.sl_pnl_hp@ == toml.sl_pnl_hp@
    &&& s.v_high1@ == toml.v_high1@
    &&& s.v_low@ == toml.v_low@
    &&& s.v_high2@ == toml.v_high2@
    &&& s.delta_pct_v@ == toml.delta_pct_v@
    &&& s.sl_v_shape@ == toml.sl_v_shape@
    &&& s.sl_pnl_v@ == toml.sl_pnl_v@
    &&& s.unwind_pnl_v@ == toml.unwind_pnl_v@
    &&& s.unwind_time_v@ == toml.unwind_time_v@
    &&& s.halt_v@ == toml.halt_v@
    &&& s.halt_reset_hour_v@ == toml.halt_reset_hour_v@
}

/// The configuration at time `ts`.
pub fn build_snapshot<F: Fn(Op, Num, Num) -> Num>(
    toml: &StrategyToml,
    asset: &str,
    event: &str,
    strategies: &Vec<String>,
    ts: Num,
    arith: &Arith<F>,
) -> (r: ConfigSnapshot)
    requires
        has_bands(toml.price_low@, toml.price_high@),
        in_range(arith@.to_signed(ts) as int, HKT_OFFSET as int),
    ensures
        is_snapshot(r, *toml, asset@, event@, strategies@, ts, arith@),
{
    let secs: i64 = arith.to_signed(ts);
    let mut hkt = stamp_of(secs, HKT_OFFSET, STAMP_PATTERN);
    hkt.append(" HKT");
    ConfigSnapshot {
        ts,
        hkt,
        asset: asset.to_owned(),
        event: event.to_owned(),
        assets: join(&toml.assets, ","),
        trade_assets: join(&toml.trade_assets, ","),
        strategies: copy_texts(strategies),
        max_buy: toml.max_buy_price,
        no_enter: toml.no_enter_when_time_left,
        band: build_band(&toml.price_low, &toml.price_high),
        trade_size: toml.trade_size_usdc.copied(),
        halt_prob: toml.halt_prob.copied(),
        halt_rev: toml.halt_rev.copied(),
        halt_reset_hour_rev: toml.halt_reset_hour_rev.copied(),
        halt_reset_hour_hp: toml.halt_reset_hour_hp.copied(),
        enter_when: toml.enter_when_time_left.copied(),
        delta_pct_hp: toml.delta_pct_hp.copied(),
        delta_pct_rev: toml.delta_pct_rev.copied(),
        reversal: toml.reversal.copied(),
        rev_low: toml.reversal_low_threshold.copied(),
        rev_start: toml.reversal_start_time.copied(),
        price_high_rev: toml.price_high_rev.copied(),
        sl_hp: toml.sl_high_prob.copied(),
        sl_rev: toml.sl_reversal.copied(),
        unwind_pnl_rev: toml.unwind_pnl_rev.copied(),
        sl_pnl_rev: toml.sl_pnl_rev.copied(),
        unwind_pnl_hp: toml.unwind_pnl_hp.copied(),
        sl_pnl_hp: toml.sl_pnl_hp.copied(),
        v_high1: toml.v_high1.copied(),
        v_low: toml.v_low.copied(),
        v_high2: toml.v_high2.copied(),
        delta_pct_v: toml.delta_pct_v.copied(),
        sl_v_shape: toml.sl_v_shape.copied(),
        sl_pnl_v: toml.sl_pnl_v.copied(),
        unwind_pnl_v: toml.unwind_pnl_v.copied(),
        unwind_time_v: toml.unwind_time_v.copied(),
        halt_v: toml.halt_v.copied(),
        halt_reset_hour_v: toml.halt_reset_hour_v.copied(),
    }
}

/// The times of the snapshots.
pub open spec fn snapshot_times(entries: Seq<ConfigSnapshot>) -> Seq<Num> {
    entries.map_values(|e: ConfigSnapshot| e.ts)
}

/// The indices of the snapshots in the order of time; what came first stays first among
/// equal times.
pub fn snapshot_order(entries: &Vec<ConfigSnapshot>) -> (r: Vec<usize>)
    requires
        can_order(snapshot_times(entries@)),
    ensures
        r@ == time_order(snapshot_times(entries@)),
{
    let ghost all = snapshot_times(entries@);
    let mut times: Vec<Num> = Vec::new();
    let mut i: usize = 0;
    while i < entries.len()
        invariant
            i <= entries@.len(),
            all == snapshot_times(entries@),
            times@ == all.take(i as int),
        decreases entries@.len() - i,
    {
        times.push(entries[i].ts);
        assert(all.take(i + 1) =~= all.take(i as int).push(all[i as int]));
        i = i + 1;
    }
    assert(times@ =~= all);
    order_by_time(&times)
}

/// The snapshot is one of the asset, from `ts` or before.
pub open spec fn applies(e: ConfigSnapshot, asset: Seq<char>, ts: Num) -> bool {
    e.asset@ == asset && e.ts.le(ts)
}

/// No snapshot that applies is later; among those of the same time it is the last.
pub open spec fn is_latest(entries: Seq<ConfigSnapshot>, i: int, asset: Seq<char>, ts: Num) -> bool {
    &&& 0 <= i < entries.len()
    &&& applies(entries[i], asset, ts)
    &&& forall|j: int|
        0 <= j < entries.len() && applies(#[trigger] entries[j], asset, ts) ==> entries[j].ts.rank()
            < entries[i].ts.rank() || (entries[j].ts.rank() == entries[i].ts.rank() && j <= i)
}

/// No snapshot is one of the asset, from `ts` or before.
pub open spec fn none_applies(entries: Seq<ConfigSnapshot>, asset: Seq<char>, ts: Num) -> bool {
    forall|j: int| 0 <= j < entries.len() ==> !applies(#[trigger] entries[j], asset, ts)
}

/// The snapshot of the asset that was in force at `ts`, by its place in the list.
pub fn latest_snapshot(entries: &Vec<ConfigSnapshot>, asset: &str, ts: Num) -> (r: Option<usize>)
    requires
        can_order(snapshot_times(entries@)),
    ensures
        match r {
            Some(i) => is_latest(entries@, i as int, asset@, ts),
            None => none_applies(entries@, asset@, ts),
        },
{
    let mut best: Option<usize> = None;
    let mut i: usize = 0;
    while i < entries.len()
        invariant
            i <= entries@.len(),
            can_order(snapshot_times(entries@)),
            match best {
                Some(b) => b < i && is_latest(entries@.take(i as int), b as int, asset@, ts),
                None => forall|j: int|
                    0 <= j < i ==> !applies(#[trigger] entries@[j], asset@, ts),
            },
        decreases entries@.len() - i,
    {
        let ghost before = entries@.take(i as int);
        let ghost after = entries@.take(i + 1);
        let e = &entries[i];
        assert(snapshot_times(entries@)[i as int] == e.ts);
        if same_text(e.asset.as_str(), asset) && e.ts.le(ts) {
            let newer = match best {
                Some(b) => {
                    assert(snapshot_times(entries@)[b as int] == entries@[b as int].ts);
                    !e.ts.lt(entries[b].ts)
                },
                None => true,
            };
            proof {
                assert(after[i as int] == *e);
                assert forall|j: int| 0 <= j < i implies #[trigger] after[j] == before[j] by {}
                if best is Some {
                    assert(after[best->0 as int] == before[best->0 as int]);
                }
                assert forall|j: int|
                    0 <= j < i && applies(#[trigger] after[j], asset@, ts) implies best is Some && (
                before[j].ts.rank() < before[best->0 as int].ts.rank() || (before[j].ts.rank()
                    == before[best->0 as int].ts.rank() && j <= best->0)) by {
                    assert(after[j] == before[j]);
                    assert(before[j] == entries@[j]);
                }
            }
            if newer {
                best = Some(i);
            }
        } else {
            proof {
                assert(!applies(after[i as int], asset@, ts));
                assert forall|j: int| 0 <= j < i implies #[trigger] after[j] == before[j] by {}
                if best is Some {
                    assert(after[best->0 as int] == before[best->0 as int]);
                }
                assert forall|j: int|
                    0 <= j < i && applies(#[trigger] after[j], asset@, ts) implies best is Some && (
                before[j].ts.rank() < before[best->0 as int].ts.rank() || (before[j].ts.rank()
                    == before[best->0 as int].ts.rank() && j <= best->0)) by {
                    assert(after[j] == before[j]);
                    assert(before[j] == entries@[j]);
                }
            }
        }
        i = i + 1;
    }
    assert(entries@.take(i as int) =~= entries@);
    best
}

} // verus!

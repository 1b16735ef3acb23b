//! The answer to `/status`.

use vstd::prelude::*;
use vstd::string::StringExecFns;

use crate::live::messages::{
    asset_line, asset_line_text, market_line, market_line_text, pnl_line, pnl_line_text,
    session_line, session_line_text,
};
use crate::live::notices::{plus_or_nothing, plus_sign};
use crate::live::slot::{AssetSlot, Counts, EntryGate};
use crate::num::{num, Arith, Calc, Layout, Num, Op, Writer, ZERO};
use crate::order::{is_sorted_order, sorted_indices, sorted_order, sorted_order_is, strict_order};
use crate::text::{
    holds_text, join, joined, pad_right, padded, same_text, signed_decimal, signed_text,
    text_before, text_less, text_order_irreflexive, text_order_total, text_order_transitive, views,
};
use crate::types::Outcome;

verus! {

/// What slots are ordered by: a text, then a number, then a text.
pub struct Key {
    pub first: String,
    pub number: i64,
    pub second: String,
}

pub struct KeyView {
    pub first: Seq<char>,
    pub number: int,
    pub second: Seq<char>,
}

impl View for Key {
    type V = KeyView;

    open spec fn view(&self) -> KeyView {
        KeyView { first: self.first@, number: self.number as int, second: self.second@ }
    }
}

pub open spec fn key_views(keys: Seq<Key>) -> Seq<KeyView> {
    keys.map_values(|k: Key| k@)
}

/// The order of keys, over their indices. Equal keys keep their order.
pub open spec fn key_before(keys: Seq<KeyView>) -> spec_fn(int, int) -> bool {
    |i: int, j: int|
        {
            let a = keys[i];
            let b = keys[j];
            if a.first != b.first {
                text_before(a.first, b.first)
            } else if a.number != b.number {
                a.number < b.number
            } else if a.second != b.second {
                text_before(a.second, b.second)
            } else {
                i < j
            }
        }
}

/// The indices of the keys, in the order of the keys.
pub open spec fn key_order(keys: Seq<KeyView>) -> Seq<usize> {
    sorted_order(key_before(keys), keys.len() as int)
}

proof fn key_order_is_strict(keys: Seq<KeyView>)
    ensures
        strict_order(key_before(keys), keys.len() as int),
{
    let before = key_before(keys);
    let n = keys.len() as int;
    assert forall|i: int, j: int, k: int|
        0 <= i < n && 0 <= j < n && 0 <= k < n && #[trigger] before(i, j) && #[trigger] before(
            j,
            k,
        ) implies before(i, k) by {
        let a = keys[i];
        let b = keys[j];
        let c = keys[k];
        text_order_irreflexive(a.first);
        text_order_irreflexive(a.second);
        if a.first != b.first && b.first != c.first {
            text_order_transitive(a.first, b.first, c.first);
        }
        if a.first == b.first && b.first == c.first && a.number == b.number && b.number == c.number
            && a.second != b.second && b.second != c.second {
            text_order_transitive(a.second, b.second, c.second);
        }
    }
    assert forall|i: int, j: int| 0 <= i < n && 0 <= j < n && i != j implies #[trigger] before(i, j)
        || before(j, i) by {
        let a = keys[i];
        let b = keys[j];
        if a.first != b.first {
            text_order_total(a.first, b.first);
        } else if a.number == b.number && a.second != b.second {
            text_order_total(a.second, b.second);
        }
    }
}

fn sort_keys(keys: &Vec<Key>) -> (r: Vec<usize>)
    ensures
        r@ == key_order(key_views(keys@)),
        is_sorted_order(r@, key_before(key_views(keys@)), keys@.len() as int),
{
    let ghost before = key_before(key_views(keys@));
    proof {
        key_order_is_strict(key_views(keys@));
    }
    let less = |i: usize, j: usize| -> (r: bool)
        requires
            i < keys@.len(),
            j < keys@.len(),
        ensures
            r == before(i as int, j as int),
        {
            let a = &keys[i];
            let b = &keys[j];
            if !same_text(a.first.as_str(), b.first.as_str()) {
                text_less(a.first.as_str(), b.first.as_str())
            } else if a.number != b.number {
                a.number < b.number
            } else if !same_text(a.second.as_str(), b.second.as_str()) {
                text_less(a.second.as_str(), b.second.as_str())
            } else {
                i < j
            }
        };
    let r = sorted_indices(keys.len(), &less, Ghost(before));
    proof {
        sorted_order_is(r@, before, keys@.len() as int);
    }
    r
}

/// The slots that an order lists.
pub open spec fn listed(slots: Seq<AssetSlot>, order: Seq<usize>) -> Seq<AssetSlot> {
    order.map_values(|i: usize| slots[i as int])
}

/// The hour at which the losses of a slot are forgotten.
pub open spec fn reset_hour_of(slot: AssetSlot) -> i64 {
    if slot.worker.strategy_name@ == "high_prob"@ {
        slot.params.halt_reset_hour_hp
    } else if slot.worker.strategy_name@ == "v_shape"@ {
        slot.params.halt_reset_hour_v
    } else {
        slot.params.halt_reset_hour_rev
    }
}

pub fn reset_hour(slot: &AssetSlot) -> (r: i64)
    ensures
        r == reset_hour_of(*slot),
{
    if same_text(slot.worker.strategy_name.as_str(), "high_prob") {
        slot.params.halt_reset_hour_hp
    } else if same_text(slot.worker.strategy_name.as_str(), "v_shape") {
        slot.params.halt_reset_hour_v
    } else {
        slot.params.halt_reset_hour_rev
    }
}

pub open spec fn reset_key(slot: AssetSlot) -> KeyView {
    KeyView {
        first: slot.worker.strategy_name@,
        number: reset_hour_of(slot) as int,
        second: Seq::empty(),
    }
}

/// The slots by strategy and hour of reset.
pub open spec fn by_reset(slots: Seq<AssetSlot>) -> Seq<AssetSlot> {
    listed(slots, key_order(slots.map_values(|s: AssetSlot| reset_key(s))))
}

/// An hour in two digits.
pub open spec fn hour_text(hour: int) -> Seq<char> {
    if 0 <= hour < 10 {
        "0"@ + signed_decimal(hour)
    } else {
        signed_decimal(hour)
    }
}

/// The assets that share a strategy and an hour of reset.
pub struct ResetGroup {
    pub strategy: Seq<char>,
    pub hour: int,
    pub assets: Seq<Seq<char>>,
}

/// Neighbours with the same strategy and hour, together.
pub open spec fn reset_groups(sorted: Seq<AssetSlot>) -> Seq<ResetGroup>
    decreases sorted.len(),
{
    if sorted.len() == 0 {
        Seq::empty()
    } else {
        let before = reset_groups(sorted.drop_last());
        let s = sorted.last();
        if before.len() > 0 && before.last().strategy == s.worker.strategy_name@
            && before.last().hour == reset_hour_of(s) {
            before.drop_last().push(
                ResetGroup {
                    assets: before.last().assets.push(s.worker.asset@),
                    ..before.last()
                },
            )
        } else {
            before.push(
                ResetGroup {
                    strategy: s.worker.strategy_name@,
                    hour: reset_hour_of(s) as int,
                    assets: seq![s.worker.asset@],
                },
            )
        }
    }
}

pub open spec fn group_text(g: ResetGroup) -> Seq<char> {
    g.strategy + " "@ + hour_text(g.hour) + ":00 HKT ("@ + joined(g.assets, ","@) + ")"@
}

/// When the losses of each strategy are forgotten.
pub open spec fn reset_line_text(slots: Seq<AssetSlot>) -> Seq<char> {
    if slots.len() == 0 {
        "Auto-reset (loss-streak halt): n/a"@
    } else {
        "Auto-reset (loss-streak halt, daily): "@ + joined(
            reset_groups(by_reset(slots)).map_values(|g: ResetGroup| group_text(g)),
            " · "@,
        )
    }
}

fn hour_digits(hour: i64) -> (r: String)
    ensures
        r@ == hour_text(hour as int),
{
    let mut r = String::new();
    if 0 <= hour && hour < 10 {
        r.append("0");
    }
    r.append(signed_text(hour).as_str());
    assert(r@ =~= hour_text(hour as int));
    r
}

struct Group {
    strategy: String,
    hour: i64,
    assets: Vec<String>,
}

spec fn group_view(g: Group) -> ResetGroup {
    ResetGroup { strategy: g.strategy@, hour: g.hour as int, assets: views(g.assets@) }
}

fn group_line(g: &Group) -> (r: String)
    ensures
        r@ == group_text(group_view(*g)),
{
    let mut r = g.strategy.clone();
    r.append(" ");
    r.append(hour_digits(g.hour).as_str());
    r.append(":00 HKT (");
    r.append(join(&g.assets, ",").as_str());
    r.append(")");
    r
}

fn group_slots(slots: &Vec<AssetSlot>, order: &Vec<usize>) -> (r: Vec<Group>)
    requires
        forall|k: int| 0 <= k < order@.len() ==> order@[k] < slots@.len(),
    ensures
        r@.map_values(|g: Group| group_view(g)) == reset_groups(listed(slots@, order@)),
{
    let ghost sorted = listed(slots@, order@);
    let mut groups: Vec<Group> = Vec::new();
    let mut i: usize = 0;
    assert(groups@.map_values(|g: Group| group_view(g)) =~= reset_groups(sorted.take(0)));
    while i < order.len()
        invariant
            i <= order@.len(),
            sorted == listed(slots@, order@),
            forall|k: int| 0 <= k < order@.len() ==> order@[k] < slots@.len(),
            groups@.map_values(|g: Group| group_view(g)) == reset_groups(sorted.take(i as int)),
        decreases order@.len() - i,
    {
        let slot = &slots[order[i]];
        let ghost held = groups@;
        let ghost before = reset_groups(sorted.take(i as int));
        assert(sorted.take(i + 1).drop_last() =~= sorted.take(i as int));
        assert(sorted.take(i + 1).last() == *slot);
        assert(before.len() == held.len());
        let hour: i64 = reset_hour(slot);
        let mut open: Option<Group> = groups.pop();
        match open {
            Some(mut g) => {
                proof {
                    assert(before.last() == group_view(held.last()));
                    assert(groups@ =~= held.drop_last());
                    assert(groups@.map_values(|g: Group| group_view(g)) =~= before.drop_last());
                }
                if same_text(g.strategy.as_str(), slot.worker.strategy_name.as_str()) && g.hour
                    == hour {
                    let ghost assets = g.assets@;
                    g.assets.push(slot.worker.asset.clone());
                    assert(views(g.assets@) =~= views(assets).push(slot.worker.asset@));
                    groups.push(g);
                } else {
                    groups.push(g);
                    assert(groups@ =~= held);
                    let mut assets: Vec<String> = Vec::new();
                    assets.push(slot.worker.asset.clone());
                    assert(views(assets@) =~= seq![slot.worker.asset@]);
                    groups.push(Group { strategy: slot.worker.strategy_name.clone(), hour, assets });
                }
            },
            None => {
                let mut assets: Vec<String> = Vec::new();
                assets.push(slot.worker.asset.clone());
                assert(views(assets@) =~= seq![slot.worker.asset@]);
                groups.push(Group { strategy: slot.worker.strategy_name.clone(), hour, assets });
            },
        }
        assert(groups@.map_values(|g: Group| group_view(g)) =~= reset_groups(sorted.take(i + 1)));
        i = i + 1;
    }
    assert(sorted.take(i as int) =~= sorted);
    groups
}

/// Says at which hour the losses of each strategy are forgotten, and for which assets.
pub fn render_auto_reset_line(slots: &Vec<AssetSlot>) -> (r: String)
    ensures
        r@ == reset_line_text(slots@),
{
    if slots.len() == 0 {
        return "Auto-reset (loss-streak halt): n/a".to_owned();
    }
    let mut keys: Vec<Key> = Vec::new();
    let mut i: usize = 0;
    while i < slots.len()
        invariant
            i <= slots@.len(),
            keys@.len() == i,
            forall|k: int| 0 <= k < i ==> #[trigger] keys@[k]@ == reset_key(slots@[k]),
        decreases slots@.len() - i,
    {
        let key = Key {
            first: slots[i].worker.strategy_name.clone(),
            number: reset_hour(&slots[i]),
            second: String::new(),
        };
        assert(key@ == reset_key(slots@[i as int])) by {
            assert(key@.second =~= Seq::empty());
        }
        keys.push(key);
        i = i + 1;
    }
    assert(key_views(keys@) =~= slots@.map_values(|s: AssetSlot| reset_key(s)));
    let order = sort_keys(&keys);
    let groups = group_slots(slots, &order);
    let mut parts: Vec<String> = Vec::new();
    let mut j: usize = 0;
    while j < groups.len()
        invariant
            j <= groups@.len(),
            parts@.len() == j,
            forall|k: int| 0 <= k < j ==> #[trigger] parts@[k]@ == group_text(group_view(groups@[k])),
        decreases groups@.len() - j,
    {
        parts.push(group_line(&groups[j]));
        j = j + 1;
    }
    assert(views(parts@) =~= groups@.map_values(|g: Group| group_view(g)).map_values(
        |g: ResetGroup| group_text(g),
    ));
    let mut r = "Auto-reset (loss-streak halt, daily): ".to_owned();
    r.append(join(&parts, " · ").as_str());
    r
}

/// What is known of the account's balance.
#[derive(Clone, Copy, Debug)]
pub enum AccountBalance {
    Known(Num),
    FetchFailed,
    /// A simulated run has no account.
    NoAccount,
}

impl AccountBalance {
    pub open spec fn text(self, write: spec_fn(Num, Layout) -> Seq<char>) -> Seq<char> {
        match self {
            AccountBalance::Known(b) => "$"@ + write(b, Layout::Fixed(4)),
            AccountBalance::FetchFailed => "n/a (fetch failed)"@,
            AccountBalance::NoAccount => "n/a (dry-run)"@,
        }
    }

    pub fn render<W: Fn(Num, Layout) -> String>(self, writer: &Writer<W>) -> (r: String)
        ensures
            r@ == self.text(writer@),
    {
        match self {
            AccountBalance::Known(b) => {
                let mut r = "$".to_owned();
                r.append(writer.write(b, Layout::Fixed(4)).as_str());
                r
            },
            AccountBalance::FetchFailed => "n/a (fetch failed)".to_owned(),
            AccountBalance::NoAccount => "n/a (dry-run)".to_owned(),
        }
    }
}

/// Why a gate is closed: it was told to, it lost too often, or both. A resume ends only the
/// first.
pub open spec fn halt_reasons(gate: EntryGate) -> Seq<Seq<char>> {
    let told = if gate.suppressed {
        seq!["suppressed"@]
    } else {
        Seq::empty()
    };
    if gate.streak.halted() {
        told.push(
            "loss-streak "@ + signed_decimal(gate.streak.losses as int) + "/"@ + signed_decimal(
                gate.streak.max as int,
            ),
        )
    } else {
        told
    }
}

pub open spec fn light_text(gate: EntryGate) -> Seq<char> {
    if gate.closed() {
        "🟡 halted ("@ + joined(halt_reasons(gate), " + "@) + ")"@
    } else {
        "🟢 active"@
    }
}

/// Whether a worker enters, and if not, why.
pub fn light(gate: &EntryGate) -> (r: String)
    ensures
        r@ == light_text(*gate),
{
    if !gate.is_halted() {
        return "🟢 active".to_owned();
    }
    let mut reasons: Vec<String> = Vec::new();
    if gate.suppressed {
        reasons.push("suppressed".to_owned());
    }
    if gate.loss_streak_halted() {
        let mut text = "loss-streak ".to_owned();
        text.append(signed_text(gate.streak.losses()).as_str());
        text.append("/");
        text.append(signed_text(gate.streak.max()).as_str());
        reasons.push(text);
    }
    assert(views(reasons@) =~= halt_reasons(*gate));
    let mut r = "🟡 halted (".to_owned();
    r.append(join(&reasons, " + ").as_str());
    r.append(")");
    r
}

/// The parameters that a strategy goes by. `low` and `high` are the band in which it enters.
#[derive(Clone, Copy, Debug)]
pub struct Terms {
    pub sl: Num,
    pub delta_gate: Num,
    pub low: Num,
    pub high: Num,
    pub halt_n: i64,
    pub unwind_pnl: Num,
    pub sl_pnl: Num,
    pub unwind_time: Num,
    pub start: Option<Num>,
}

pub open spec fn terms_of(slot: AssetSlot) -> Terms {
    let p = slot.params;
    if slot.worker.strategy_name@ == "high_prob"@ {
        Terms {
            sl: p.sl_high_prob,
            delta_gate: p.delta_pct_hp,
            low: p.price_low,
            high: p.price_high,
            halt_n: p.halt_prob,
            unwind_pnl: p.unwind_pnl_hp,
            sl_pnl: p.sl_pnl_hp,
            unwind_time: p.unwind_time_hp,
            start: None,
        }
    } else if slot.worker.strategy_name@ == "v_shape"@ {
        Terms {
            sl: p.sl_v_shape,
            delta_gate: p.delta_pct_v,
            low: p.v_low,
            high: p.v_high2,
            halt_n: p.halt_v,
            unwind_pnl: p.unwind_pnl_v,
            sl_pnl: p.sl_pnl_v,
            unwind_time: p.unwind_time_v,
            start: None,
        }
    } else {
        Terms {
            sl: p.sl_reversal,
            delta_gate: p.delta_pct_rev,
            low: p.reversal_low_threshold,
            high: p.reversal,
            halt_n: p.halt_rev,
            unwind_pnl: p.unwind_pnl_rev,
            sl_pnl: p.sl_pnl_rev,
            unwind_time: p.unwind_time_rev,
            start: Some(p.reversal_start_time),
        }
    }
}

pub fn terms(slot: &AssetSlot) -> (r: Terms)
    ensures
        r == terms_of(*slot),
{
    let p = &slot.params;
    if same_text(slot.worker.strategy_name.as_str(), "high_prob") {
        Terms {
            sl: p.sl_high_prob,
            delta_gate: p.delta_pct_hp,
            low: p.price_low,
            high: p.price_high,
            halt_n: p.halt_prob,
            unwind_pnl: p.unwind_pnl_hp,
            sl_pnl: p.sl_pnl_hp,
            unwind_time: p.unwind_time_hp,
            start: None,
        }
    } else if same_text(slot.worker.strategy_name.as_str(), "v_shape") {
        Terms {
            sl: p.sl_v_shape,
            delta_gate: p.delta_pct_v,
            low: p.v_low,
            high: p.v_high2,
            halt_n: p.halt_v,
            unwind_pnl: p.unwind_pnl_v,
            sl_pnl: p.sl_pnl_v,
            unwind_time: p.unwind_time_v,
            start: None,
        }
    } else {
        Terms {
            sl: p.sl_reversal,
            delta_gate: p.delta_pct_rev,
            low: p.reversal_low_threshold,
            high: p.reversal,
            halt_n: p.halt_rev,
            unwind_pnl: p.unwind_pnl_rev,
            sl_pnl: p.sl_pnl_rev,
            unwind_time: p.unwind_time_rev,
            start: Some(p.reversal_start_time),
        }
    }
}

pub open spec fn start_text(
    start: Option<Num>,
    write: spec_fn(Num, Layout) -> Seq<char>,
) -> Seq<char> {
    match start {
        Some(s) => "  start="@ + write(s, Layout::Fixed(0)) + "s"@,
        None => Seq::empty(),
    }
}

/// The line of a slot under the traded assets.
pub open spec fn slot_line(
    slot: AssetSlot,
    write: spec_fn(Num, Layout) -> Seq<char>,
) -> Seq<char> {
    let t = terms_of(slot);
    asset_line_text(
        light_text(slot.worker.gate),
        slot.key(),
        slot.worker.strategy_name@,
        t.sl,
        t.delta_gate,
        t.low,
        t.high,
        t.halt_n,
        t.unwind_pnl,
        t.sl_pnl,
        t.unwind_time,
        start_text(t.start, write),
        slot.params.trade_size_usdc,
        write,
    )
}

fn slot_text<W: Fn(Num, Layout) -> String>(slot: &AssetSlot, writer: &Writer<W>) -> (r: String)
    ensures
        r@ == slot_line(*slot, writer@),
{
    let t = terms(slot);
    let mut start = String::new();
    match t.start {
        Some(s) => {
            start.append("  start=");
            start.append(writer.write(s, Layout::Fixed(0)).as_str());
            start.append("s");
        },
        None => {},
    }
    assert(start@ =~= start_text(t.start, writer@));
    asset_line(
        light(&slot.worker.gate).as_str(),
        slot.market_key().as_str(),
        slot.worker.strategy_name.as_str(),
        t.sl,
        t.delta_gate,
        t.low,
        t.high,
        t.halt_n,
        t.unwind_pnl,
        t.sl_pnl,
        t.unwind_time,
        start.as_str(),
        slot.params.trade_size_usdc,
        writer,
    )
}

/// The line of a market.
pub open spec fn price_line(
    slot: AssetSlot,
    write: spec_fn(Num, Layout) -> Seq<char>,
) -> Seq<char> {
    match slot.current_slug {
        Some(_) => market_line_text(
            slot.key(),
            slot.last_binance,
            slot.last_poly_up,
            slot.last_poly_dn,
            slot.worker.delta_pct,
            write,
        ),
        None => "  "@ + slot.key() + "  no active cycle yet"@,
    }
}

fn price_text<W: Fn(Num, Layout) -> String>(slot: &AssetSlot, writer: &Writer<W>) -> (r: String)
    ensures
        r@ == price_line(*slot, writer@),
{
    match slot.current_slug {
        Some(_) => market_line(
            slot.market_key().as_str(),
            slot.last_binance,
            slot.last_poly_up,
            slot.last_poly_dn,
            slot.worker.delta_pct,
            writer,
        ),
        None => {
            let mut r = "  ".to_owned();
            r.append(slot.market_key().as_str());
            r.append("  no active cycle yet");
            r
        },
    }
}

/// A market that several slots trade is shown once.
pub open spec fn price_lines(
    sorted: Seq<AssetSlot>,
    write: spec_fn(Num, Layout) -> Seq<char>,
) -> Seq<Seq<char>>
    decreases sorted.len(),
{
    if sorted.len() == 0 {
        Seq::empty()
    } else {
        let rest = sorted.drop_last();
        let before = price_lines(rest, write);
        if rest.map_values(|s: AssetSlot| s.key()).contains(sorted.last().key()) {
            before
        } else {
            before.push(price_line(sorted.last(), write))
        }
    }
}

/// The lines of a slot under the gains.
pub open spec fn gain_lines(
    slot: AssetSlot,
    write: spec_fn(Num, Layout) -> Seq<char>,
) -> Seq<Seq<char>> {
    let c = slot.stats.counts;
    let lines = seq![
        pnl_line_text(
            slot.key(),
            c.wins,
            c.losses,
            c.stoplosses,
            c.unwinds,
            c.timeouts,
            plus_sign(c.total_pnl),
            c.total_pnl,
            write,
        ),
        "    "@ + padded(slot.worker.strategy_name@, 10) + " "@ + plus_sign(c.total_pnl) + "$"@
            + write(c.total_pnl, Layout::Fixed(4)),
    ];
    match slot.stats.last_trade {
        Some(last) => lines.push("    last: "@ + last@),
        None => lines,
    }
}

pub open spec fn all_gain_lines(
    sorted: Seq<AssetSlot>,
    write: spec_fn(Num, Layout) -> Seq<char>,
) -> Seq<Seq<char>>
    decreases sorted.len(),
{
    if sorted.len() == 0 {
        Seq::empty()
    } else {
        all_gain_lines(sorted.drop_last(), write) + gain_lines(sorted.last(), write)
    }
}

fn add_gain_lines<W: Fn(Num, Layout) -> String>(
    lines: &mut Vec<String>,
    slot: &AssetSlot,
    writer: &Writer<W>,
)
    ensures
        views(final(lines)@) == views(old(lines)@) + gain_lines(*slot, writer@),
{
    let c = slot.stats.counts;
    let sign = plus_or_nothing(c.total_pnl);
    let first = pnl_line(
        slot.market_key().as_str(),
        c.wins,
        c.losses,
        c.stoplosses,
        c.unwinds,
        c.timeouts,
        sign,
        c.total_pnl,
        writer,
    );
    lines.push(first);
    let mut second = "    ".to_owned();
    second.append(pad_right(slot.worker.strategy_name.as_str(), 10).as_str());
    second.append(" ");
    second.append(sign);
    second.append("$");
    second.append(writer.write(c.total_pnl, Layout::Fixed(4)).as_str());
    lines.push(second);
    match &slot.stats.last_trade {
        Some(last) => {
            let mut third = "    last: ".to_owned();
            third.append(last.as_str());
            lines.push(third);
        },
        None => {},
    }
    assert(views(lines@) =~= views(old(lines)@) + gain_lines(*slot, writer@));
}

/// How often an outcome was counted in all slots.
pub open spec fn total(slots: Seq<AssetSlot>, outcome: Outcome) -> int
    decreases slots.len(),
{
    if slots.len() == 0 {
        0
    } else {
        total(slots.drop_last(), outcome) + slots.last().stats.counts.of(outcome)
    }
}

/// The gains of all slots, added up in their order.
pub open spec fn total_gain(sorted: Seq<AssetSlot>, calc: Calc) -> Num
    decreases sorted.len(),
{
    if sorted.len() == 0 {
        num(ZERO)
    } else {
        calc.plus(total_gain(sorted.drop_last(), calc), sorted.last().stats.counts.total_pnl)
    }
}

/// The totals can be counted.
pub open spec fn totals_fit(slots: Seq<AssetSlot>) -> bool {
    forall|o: Outcome| #[trigger] total(slots, o) <= u32::MAX
}

proof fn total_grows(slots: Seq<AssetSlot>, i: int, outcome: Outcome)
    requires
        0 <= i <= slots.len(),
    ensures
        0 <= total(slots.take(i), outcome) <= total(slots, outcome),
    decreases slots.len(),
{
    if i < slots.len() {
        total_grows(slots.drop_last(), i, outcome);
        assert(slots.drop_last().take(i) =~= slots.take(i));
    } else {
        assert(slots.take(i) =~= slots);
        if slots.len() > 0 {
            total_grows(slots.drop_last(), i - 1, outcome);
        }
    }
}

fn count_all(slots: &Vec<AssetSlot>) -> (r: Counts)
    requires
        totals_fit(slots@),
    ensures
        forall|o: Outcome| #[trigger] r.of(o) == total(slots@, o),
{
    let mut c = Counts {
        wins: 0,
        losses: 0,
        stoplosses: 0,
        unwinds: 0,
        timeouts: 0,
        total_pnl: num(ZERO),
    };
    let mut i: usize = 0;
    while i < slots.len()
        invariant
            i <= slots@.len(),
            totals_fit(slots@),
            forall|o: Outcome| #[trigger] c.of(o) == total(slots@.take(i as int), o),
        decreases slots@.len() - i,
    {
        let s = slots[i].stats.counts;
        proof {
            assert(slots@.take(i + 1).drop_last() =~= slots@.take(i as int));
            assert(slots@.take(i + 1).last() == slots@[i as int]);
            assert forall|o: Outcome| #![trigger c.of(o)] c.of(o) + s.of(o) <= u32::MAX by {
                total_grows(slots@, i + 1, o);
                assert(total(slots@, o) <= u32::MAX);
                assert(total(slots@.take(i + 1), o) == total(slots@.take(i as int), o) + s.of(o));
            }
            assert(c.of(Outcome::Win) + s.of(Outcome::Win) <= u32::MAX);
            assert(c.of(Outcome::Loss) + s.of(Outcome::Loss) <= u32::MAX);
            assert(c.of(Outcome::StopLoss) + s.of(Outcome::StopLoss) <= u32::MAX);
            assert(c.of(Outcome::Unwind) + s.of(Outcome::Unwind) <= u32::MAX);
            assert(c.of(Outcome::Timeout) + s.of(Outcome::Timeout) <= u32::MAX);
        }
        let ghost before = c;
        c =
        Counts {
            wins: c.wins + s.wins,
            losses: c.losses + s.losses,
            stoplosses: c.stoplosses + s.stoplosses,
            unwinds: c.unwinds + s.unwinds,
            timeouts: c.timeouts + s.timeouts,
            total_pnl: c.total_pnl,
        };
        assert forall|o: Outcome| #[trigger] c.of(o) == total(slots@.take(i + 1), o) by {
            assert(c.of(o) == before.of(o) + s.of(o));
        }
        i = i + 1;
    }
    assert(slots@.take(i as int) =~= slots@);
    c
}

pub open spec fn status_key(slot: AssetSlot) -> KeyView {
    KeyView {
        first: slot.worker.asset@,
        number: slot.duration.place(),
        second: slot.worker.strategy_name@,
    }
}

/// The slots by asset, cycle length and strategy, so that those of one asset stand together.
pub open spec fn in_order(slots: Seq<AssetSlot>) -> Seq<AssetSlot> {
    listed(slots, key_order(slots.map_values(|s: AssetSlot| status_key(s))))
}

pub open spec fn header_text(
    slots: Seq<AssetSlot>,
    now: Seq<char>,
    balance: AccountBalance,
    write: spec_fn(Num, Layout) -> Seq<char>,
) -> Seq<char> {
    "📊 <b>STATUS</b>  ("@ + now + ")\nBalance: "@ + balance.text(write) + "\n"@ + reset_line_text(
        slots,
    )
}

pub open spec fn session_text(
    slots: Seq<AssetSlot>,
    calc: Calc,
    write: spec_fn(Num, Layout) -> Seq<char>,
) -> Seq<char> {
    let gain = total_gain(in_order(slots), calc);
    session_line_text(
        total(slots, Outcome::Win) as u32,
        total(slots, Outcome::Loss) as u32,
        total(slots, Outcome::StopLoss) as u32,
        total(slots, Outcome::Unwind) as u32,
        total(slots, Outcome::Timeout) as u32,
        plus_sign(gain),
        gain,
        write,
    )
}

/// The whole answer: the account, the traded assets, the markets and the gains.
pub open spec fn status_text(
    slots: Seq<AssetSlot>,
    now: Seq<char>,
    balance: AccountBalance,
    calc: Calc,
    write: spec_fn(Num, Layout) -> Seq<char>,
) -> Seq<char> {
    let sorted = in_order(slots);
    joined(
        seq![
            header_text(slots, now, balance, write),
            "<b>TRADE ASSETS</b>\n"@ + joined(
                sorted.map_values(|s: AssetSlot| slot_line(s, write)),
                "\n"@,
            ),
            "<b>MARKETS</b>  ("@ + now + ")\n"@ + joined(price_lines(sorted, write), "\n"@),
            "<b>PNL</b>\n"@ + joined(
                seq![session_text(slots, calc, write)] + all_gain_lines(sorted, write),
                "\n"@,
            ),
        ],
        "\n\n"@,
    )
}

fn slot_order(slots: &Vec<AssetSlot>) -> (r: Vec<usize>)
    ensures
        listed(slots@, r@) == in_order(slots@),
        r@.len() == slots@.len(),
        forall|k: int| 0 <= k < r@.len() ==> r@[k] < slots@.len(),
{
    let mut keys: Vec<Key> = Vec::new();
    let mut i: usize = 0;
    while i < slots.len()
        invariant
            i <= slots@.len(),
            keys@.len() == i,
            forall|k: int| 0 <= k < i ==> #[trigger] keys@[k]@ == status_key(slots@[k]),
        decreases slots@.len() - i,
    {
        let place: u8 = slots[i].duration.place_number();
        keys.push(
            Key {
                first: slots[i].worker.asset.clone(),
                number: place as i64,
                second: slots[i].worker.strategy_name.clone(),
            },
        );
        i = i + 1;
    }
    assert(key_views(keys@) =~= slots@.map_values(|s: AssetSlot| status_key(s)));
    sort_keys(&keys)
}

/// Answers `/status`.
pub fn render_status<F: Fn(Op, Num, Num) -> Num, W: Fn(Num, Layout) -> String>(
    slots: &Vec<AssetSlot>,
    now: &str,
    balance: AccountBalance,
    arith: &Arith<F>,
    writer: &Writer<W>,
) -> (r: String)
    requires
        totals_fit(slots@),
    ensures
        r@ == status_text(slots@, now@, balance, arith@, writer@),
{
    let order = slot_order(slots);
    let ghost sorted = in_order(slots@);
    let totals = count_all(slots);
    let mut asset_lines: Vec<String> = Vec::new();
    let mut market_lines: Vec<String> = Vec::new();
    let mut pnl_lines: Vec<String> = Vec::new();
    let mut seen: Vec<String> = Vec::new();
    let mut gain = num(ZERO);
    let mut i: usize = 0;
    proof {
        let none = sorted.take(0);
        assert(views(asset_lines@) =~= none.map_values(|s: AssetSlot| slot_line(s, writer@)));
        assert(views(market_lines@) =~= price_lines(none, writer@));
        assert(views(pnl_lines@) =~= all_gain_lines(none, writer@));
        assert(views(seen@) =~= none.map_values(|s: AssetSlot| s.key()));
    }
    while i < order.len()
        invariant
            i <= order@.len(),
            order@.len() == slots@.len(),
            forall|k: int| 0 <= k < order@.len() ==> order@[k] < slots@.len(),
            sorted == listed(slots@, order@),
            views(asset_lines@) == sorted.take(i as int).map_values(
                |s: AssetSlot| slot_line(s, writer@),
            ),
            views(market_lines@) == price_lines(sorted.take(i as int), writer@),
            views(pnl_lines@) == all_gain_lines(sorted.take(i as int), writer@),
            views(seen@) == sorted.take(i as int).map_values(|s: AssetSlot| s.key()),
            gain == total_gain(sorted.take(i as int), arith@),
        decreases order@.len() - i,
    {
        let slot = &slots[order[i]];
        let ghost (a, m, s) = (asset_lines@, market_lines@, seen@);
        assert(sorted.take(i + 1).drop_last() =~= sorted.take(i as int));
        assert(sorted.take(i + 1).last() == *slot);
        let line = slot_text(slot, writer);
        asset_lines.push(line);
        proof {
            assert(views(asset_lines@) =~= views(a).push(slot_line(*slot, writer@)));
            assert(views(asset_lines@) =~= sorted.take(i + 1).map_values(
                |s: AssetSlot| slot_line(s, writer@),
            ));
        }
        let name = slot.market_key();
        if !holds_text(&seen, name.as_str()) {
            let line = price_text(slot, writer);
            market_lines.push(line);
            assert(views(market_lines@) =~= views(m).push(price_line(*slot, writer@)));
        }
        seen.push(name);
        proof {
            assert(views(seen@) =~= views(s).push(slot.key()));
            assert(views(seen@) =~= sorted.take(i + 1).map_values(|s: AssetSlot| s.key()));
        }
        add_gain_lines(&mut pnl_lines, slot, writer);
        gain = arith.plus(gain, slot.stats.counts.total_pnl);
        i = i + 1;
    }
    assert(sorted.take(i as int) =~= sorted);
    let mut header = "📊 <b>STATUS</b>  (".to_owned();
    header.append(now);
    header.append(")\nBalance: ");
    header.append(balance.render(writer).as_str());
    header.append("\n");
    header.append(render_auto_reset_line(slots).as_str());
    let mut traded = "<b>TRADE ASSETS</b>\n".to_owned();
    traded.append(join(&asset_lines, "\n").as_str());
    let mut markets = "<b>MARKETS</b>  (".to_owned();
    markets.append(now);
    markets.append(")\n");
    markets.append(join(&market_lines, "\n").as_str());
    assert(totals.wins == totals.of(Outcome::Win) && totals.losses == totals.of(Outcome::Loss)
        && totals.stoplosses == totals.of(Outcome::StopLoss) && totals.unwinds == totals.of(
        Outcome::Unwind,
    ) && totals.timeouts == totals.of(Outcome::Timeout));
    let session = session_line(
        totals.wins,
        totals.losses,
        totals.stoplosses,
        totals.unwinds,
        totals.timeouts,
        plus_or_nothing(gain),
        gain,
        writer,
    );
    let ghost gains = views(pnl_lines@);
    let mut all_gains: Vec<String> = Vec::new();
    all_gains.push(session);
    let ghost head = views(all_gains@);
    let ghost tail = pnl_lines@;
    all_gains.append(&mut pnl_lines);
    assert(views(all_gains@) =~= seq![session_text(slots@, arith@, writer@)] + gains);
    let mut pnl = "<b>PNL</b>\n".to_owned();
    pnl.append(join(&all_gains, "\n").as_str());
    let mut sections: Vec<String> = Vec::new();
    sections.push(header);
    sections.push(traded);
    sections.push(markets);
    sections.push(pnl);
    proof {
        let write = writer@;
        assert(sections@[0]@ =~= header_text(slots@, now@, balance, write));
        assert(views(sections@) =~= seq![
            header_text(slots@, now@, balance, write),
            "<b>TRADE ASSETS</b>\n"@ + joined(
                sorted.map_values(|s: AssetSlot| slot_line(s, write)),
                "\n"@,
            ),
            "<b>MARKETS</b>  ("@ + now@ + ")\n"@ + joined(price_lines(sorted, write), "\n"@),
            "<b>PNL</b>\n"@ + joined(
                seq![session_text(slots@, arith@, write)] + all_gain_lines(sorted, write),
                "\n"@,
            ),
        ]);
    }
    join(&sections, "\n\n")
}

} // verus!

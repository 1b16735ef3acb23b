//! The names, tokens, prices and resolutions of markets.

use vstd::prelude::*;

use crate::indicator_store::{IndicatorSnapshot, IndicatorStore};
use crate::json::{has_items, is_json};
use crate::laws::exact::{exact, fits};
use crate::marketdata::{
    current_slot, find_token, list_text, make_slug, market_text, resolution_of, string_list,
    tick_of_quote, token_for, tokens_in, went_up, MetaError, MetaView,
};
use crate::num::{num, Arith, Num, Op, Reader, ZERO};
use crate::text::{decimal, lowercase, trimmed, uppercase, views};
use crate::types::PolyTick;

verus! {

/// The slot of an instant is the multiple of the interval that the instant has reached and whose
/// next one it has not.
pub proof fn slot_is_the_last_multiple<F: Fn(Op, Num, Num) -> Num>(
    now: Num,
    interval: u64,
    arith: Arith<F>,
)
    requires
        interval > 0,
    ensures
        forall|r: u64| #[trigger]
            call_ensures(current_slot::<F>, (now, interval, &arith), r) ==> {
                let secs = arith@.to_unsigned(now) as int;
                &&& r as int % interval as int == 0
                &&& 0 <= secs - r < interval
            },
{
}

/// The name of a market: the asset in small letters, its kind, its length and its slot.
pub proof fn market_name(asset: &str, slot: u64, suffix: &str)
    ensures
        forall|r: String| #[trigger]
            call_ensures(make_slug, (asset, slot, suffix), r) ==> r@ == lowercase(asset@)
                + "-updown-"@ + suffix@ + "-"@ + decimal(slot as nat),
{
}

/// The token at the place of the first outcome, in small letters the target, that has a token.
pub open spec fn token_at_name(
    outcomes: Seq<Seq<char>>,
    ids: Seq<Seq<char>>,
    target: Seq<char>,
    i: int,
) -> bool {
    &&& 0 <= i < outcomes.len()
    &&& i < ids.len()
    &&& lowercase(outcomes[i]) == target
    &&& forall|k: int| 0 <= k < i ==> lowercase(#[trigger] outcomes[k]) != target
}

proof fn token_stands_at_its_name(
    outcomes: Seq<Seq<char>>,
    ids: Seq<Seq<char>>,
    target: Seq<char>,
)
    ensures
        match token_for(outcomes, ids, target) {
            Some(id) => exists|i: int| #[trigger]
                token_at_name(outcomes, ids, target, i) && id == ids[i],
            None => forall|i: int| !#[trigger] token_at_name(outcomes, ids, target, i),
        },
    decreases outcomes.len(),
{
    if outcomes.len() > 0 && ids.len() > 0 {
        if lowercase(outcomes[0]) == target {
            assert(token_at_name(outcomes, ids, target, 0));
        } else {
            let os = outcomes.drop_first();
            let ts = ids.drop_first();
            token_stands_at_its_name(os, ts, target);
            match token_for(os, ts, target) {
                Some(id) => {
                    let i = choose|i: int| #[trigger]
                        token_at_name(os, ts, target, i) && id == ts[i];
                    assert forall|k: int| 0 <= k < i + 1 implies lowercase(#[trigger] outcomes[k])
                        != target by {
                        if k > 0 {
                            assert(os[k - 1] == outcomes[k]);
                        }
                    }
                    assert(token_at_name(outcomes, ids, target, i + 1));
                },
                None => {
                    assert forall|i: int| !#[trigger] token_at_name(outcomes, ids, target, i) by {
                        if token_at_name(outcomes, ids, target, i) {
                            assert(i > 0);
                            assert forall|k: int| 0 <= k < i - 1 implies lowercase(#[trigger] os[k])
                                != target by {
                                assert(os[k] == outcomes[k + 1]);
                            }
                            assert(token_at_name(os, ts, target, i - 1));
                        }
                    }
                },
            }
        }
    }
}

/// The token of an outcome is the one listed at the outcome's place; where no outcome of that
/// name has a token, that is the failure.
pub proof fn token_goes_with_its_outcome(
    outcomes: Vec<String>,
    ids: Vec<String>,
    target: &str,
    slug: &str,
)
    ensures
        forall|r: Result<String, MetaError>| #[trigger]
            call_ensures(find_token, (&outcomes, &ids, target, slug), r) ==> {
                &&& r is Ok ==> exists|i: int| #[trigger]
                    token_at_name(views(outcomes@), views(ids@), target@, i) && r->Ok_0@ == views(
                        ids@,
                    )[i]
                &&& r is Err ==> forall|i: int|
                    !#[trigger] token_at_name(views(outcomes@), views(ids@), target@, i)
            },
{
    token_stands_at_its_name(views(outcomes@), views(ids@), target@);
}

/// The tokens of a market are told UP first: the one at the outcome called up, then the one at
/// the outcome called down.
pub proof fn up_token_comes_first(body: Seq<u8>, slug: Seq<char>)
    ensures
        match tokens_in(body, slug) {
            Ok((up, down)) => {
                let ids = string_list(list_text(market_text(body, 0, "clobTokenIds"@)));
                let names = string_list(list_text(market_text(body, 0, "outcomes"@)));
                &&& is_json(body)
                &&& ids is Some
                &&& names is Some
                &&& exists|i: int| #[trigger]
                    token_at_name(names->0, ids->0, "up"@, i) && up == ids->0[i]
                &&& exists|i: int| #[trigger]
                    token_at_name(names->0, ids->0, "down"@, i) && down == ids->0[i]
            },
            Err(MetaView::BadJson) => !is_json(body),
            Err(MetaView::NoEvent { slug: s }) => s == slug && !has_items(body, ""@),
            Err(MetaView::NoMarket { slug: s }) => s == slug && !has_items(body, "/0/markets"@),
            Err(MetaView::BadList) => string_list(
                list_text(market_text(body, 0, "clobTokenIds"@)),
            ) is None || string_list(list_text(market_text(body, 0, "outcomes"@))) is None,
            Err(MetaView::NoToken { target, slug: s }) => s == slug && (target == "up"@ || target
                == "down"@),
        },
{
    let ids = string_list(list_text(market_text(body, 0, "clobTokenIds"@)));
    let names = string_list(list_text(market_text(body, 0, "outcomes"@)));
    if ids is Some && names is Some {
        token_stands_at_its_name(names->0, ids->0, "up"@);
        token_stands_at_its_name(names->0, ids->0, "down"@);
    }
}

/// The outcome at a place is decided: its price stands at ninety-nine cents or above.
pub open spec fn decided(price: Option<Num>) -> bool {
    price is Some && num(0x3FEF_AE14_7AE1_47AE).le(price->0)
}

/// The outcome at a place has the name of a side and a decided price.
pub open spec fn decides_for(outcome: Seq<char>, price: Option<Num>, side: Seq<char>) -> bool {
    decided(price) && uppercase(trimmed(outcome)) == side
}

/// The outcome at a place tells who won: it is the first that decides, and every price before it
/// can be read.
pub open spec fn tells(
    outcomes: Seq<Seq<char>>,
    prices: Seq<Seq<char>>,
    read: spec_fn(Seq<char>) -> Option<Num>,
    i: int,
    side: Seq<char>,
) -> bool {
    &&& 0 <= i < outcomes.len()
    &&& i < prices.len()
    &&& decides_for(outcomes[i], read(prices[i]), side)
    &&& forall|k: int|
        #![trigger prices[k]]
        0 <= k < i ==> read(prices[k]) is Some && !decides_for(
            outcomes[k],
            read(prices[k]),
            "UP"@,
        ) && !decides_for(outcomes[k], read(prices[k]), "DOWN"@)
}

proof fn telling_moves_on(
    outcomes: Seq<Seq<char>>,
    prices: Seq<Seq<char>>,
    read: spec_fn(Seq<char>) -> Option<Num>,
    i: int,
    side: Seq<char>,
)
    requires
        outcomes.len() > 0,
        prices.len() > 0,
        read(prices[0]) is Some,
        !decides_for(outcomes[0], read(prices[0]), "UP"@),
        !decides_for(outcomes[0], read(prices[0]), "DOWN"@),
        side == "UP"@ || side == "DOWN"@,
    ensures
        tells(outcomes.drop_first(), prices.drop_first(), read, i - 1, side) == tells(
            outcomes,
            prices,
            read,
            i,
            side,
        ),
{
    let os = outcomes.drop_first();
    let ps = prices.drop_first();
    assert forall|k: int| 0 <= k < os.len() implies #[trigger] os[k] == outcomes[k + 1] by {}
    assert forall|k: int| 0 <= k < ps.len() implies #[trigger] ps[k] == prices[k + 1] by {}
    if tells(os, ps, read, i - 1, side) {
        assert(os[i - 1] == outcomes[i] && ps[i - 1] == prices[i]);
        assert forall|k: int|
            #![trigger prices[k]]
            0 <= k < i implies read(prices[k]) is Some && !decides_for(
            outcomes[k],
            read(prices[k]),
            "UP"@,
        ) && !decides_for(outcomes[k], read(prices[k]), "DOWN"@) by {
            if k > 0 {
                assert(ps[k - 1] == prices[k] && os[k - 1] == outcomes[k]);
            }
        }
    }
    if tells(outcomes, prices, read, i, side) {
        assert(i > 0);
        assert(os[i - 1] == outcomes[i] && ps[i - 1] == prices[i]);
        assert forall|k: int|
            #![trigger ps[k]]
            0 <= k < i - 1 implies read(ps[k]) is Some && !decides_for(os[k], read(ps[k]), "UP"@)
            && !decides_for(os[k], read(ps[k]), "DOWN"@) by {
            assert(ps[k] == prices[k + 1] && os[k] == outcomes[k + 1]);
        }
    }
}

/// Some outcome tells that the side won.
pub open spec fn some_tells(
    outcomes: Seq<Seq<char>>,
    prices: Seq<Seq<char>>,
    read: spec_fn(Seq<char>) -> Option<Num>,
    side: Seq<char>,
) -> bool {
    exists|i: int| #[trigger] tells(outcomes, prices, read, i, side)
}

proof fn telling_goes_on(
    outcomes: Seq<Seq<char>>,
    prices: Seq<Seq<char>>,
    read: spec_fn(Seq<char>) -> Option<Num>,
    side: Seq<char>,
)
    requires
        outcomes.len() > 0,
        prices.len() > 0,
        read(prices[0]) is Some,
        !decides_for(outcomes[0], read(prices[0]), "UP"@),
        !decides_for(outcomes[0], read(prices[0]), "DOWN"@),
        side == "UP"@ || side == "DOWN"@,
    ensures
        some_tells(outcomes.drop_first(), prices.drop_first(), read, side) == some_tells(
            outcomes,
            prices,
            read,
            side,
        ),
{
    let os = outcomes.drop_first();
    let ps = prices.drop_first();
    if some_tells(os, ps, read, side) {
        let i = choose|i: int| #[trigger] tells(os, ps, read, i, side);
        telling_moves_on(outcomes, prices, read, i + 1, side);
        assert(tells(outcomes, prices, read, i + 1, side));
    }
    if some_tells(outcomes, prices, read, side) {
        let i = choose|i: int| #[trigger] tells(outcomes, prices, read, i, side);
        telling_moves_on(outcomes, prices, read, i, side);
        assert(tells(os, ps, read, i - 1, side));
    }
}

/// Who won is told by the first outcome that is called UP or DOWN and stands at a decided price;
/// without one, or where a price before it cannot be read, it is open.
pub proof fn winner_has_a_decided_price(
    outcomes: Seq<Seq<char>>,
    prices: Seq<Seq<char>>,
    read: spec_fn(Seq<char>) -> Option<Num>,
)
    ensures
        went_up(outcomes, prices, read) == Some(true) ==> some_tells(outcomes, prices, read, "UP"@),
        went_up(outcomes, prices, read) == Some(false) ==> some_tells(
            outcomes,
            prices,
            read,
            "DOWN"@,
        ),
        went_up(outcomes, prices, read) is None ==> !some_tells(outcomes, prices, read, "UP"@)
            && !some_tells(outcomes, prices, read, "DOWN"@),
    decreases outcomes.len(),
{
    if outcomes.len() > 0 && prices.len() > 0 {
        let os = outcomes.drop_first();
        let ps = prices.drop_first();
        let first = read(prices[0]);
        if decides_for(outcomes[0], first, "UP"@) {
            assert(tells(outcomes, prices, read, 0, "UP"@));
            assert(went_up(outcomes, prices, read) == Some(true));
        } else if decides_for(outcomes[0], first, "DOWN"@) {
            assert(tells(outcomes, prices, read, 0, "DOWN"@));
            assert(went_up(outcomes, prices, read) == Some(false));
        } else if first is Some {
            winner_has_a_decided_price(os, ps, read);
            assert(went_up(outcomes, prices, read) == went_up(os, ps, read));
            telling_goes_on(outcomes, prices, read, "UP"@);
            telling_goes_on(outcomes, prices, read, "DOWN"@);
        } else {
            assert forall|i: int, side: Seq<char>| !#[trigger] tells(
                outcomes,
                prices,
                read,
                i,
                side,
            ) by {
                if tells(outcomes, prices, read, i, side) && i > 0 {
                    assert(read(prices[0]) is Some);
                }
            }
            assert(went_up(outcomes, prices, read) is None);
        }
    }
}

/// The same of the call on the lists.
pub proof fn winner_is_told_by_the_lists<P: Fn(String) -> Option<Num>>(
    outcomes: Vec<String>,
    prices: Vec<String>,
    reader: Reader<P>,
)
    ensures
        forall|r: Option<bool>| #[trigger]
            call_ensures(resolution_of::<P>, (&outcomes, &prices, &reader), r) ==> {
                let up = some_tells(views(outcomes@), views(prices@), reader@, "UP"@);
                let down = some_tells(views(outcomes@), views(prices@), reader@, "DOWN"@);
                &&& r == Some(true) ==> up
                &&& r == Some(false) ==> down
                &&& r is None ==> !up && !down
            },
{
    winner_has_a_decided_price(views(outcomes@), views(prices@), reader@);
}

/// A quote makes a tick exactly when both its prices are finite and above nothing. UP stands as
/// far above the bid as below the ask, and UP and DOWN make a dollar.
pub proof fn tick_stands_in_the_middle<F: Fn(Op, Num, Num) -> Num>(
    ts: Num,
    bid: Num,
    ask: Num,
    arith: Arith<F>,
    val: spec_fn(Num) -> real,
)
    requires
        exact(arith@, val),
        bid.is_finite(),
        ask.is_finite(),
        fits(val, val(bid) + val(ask)),
        fits(val, (val(bid) + val(ask)) / 2real),
        fits(val, 1real - (val(bid) + val(ask)) / 2real),
    ensures
        forall|r: Option<PolyTick>| #[trigger]
            call_ensures(tick_of_quote::<F>, (ts, bid, ask, &arith), r) ==> {
                &&& r is Some <==> val(bid) > 0real && val(ask) > 0real
                &&& r is Some ==> {
                    &&& r->0.ts == ts
                    &&& r->0.up_bid == bid
                    &&& r->0.up_ask == ask
                    &&& val(r->0.up) - val(bid) == val(ask) - val(r->0.up)
                    &&& val(r->0.up) + val(r->0.dn) == 1real
                }
            },
{
    assert(num(ZERO).lt(bid) <==> 0real < val(bid));
    assert(num(ZERO).lt(ask) <==> 0real < val(ask));
}

/// A quote in which a price is no finite number makes no tick.
pub proof fn no_tick_without_prices<F: Fn(Op, Num, Num) -> Num>(
    ts: Num,
    bid: Num,
    ask: Num,
    arith: Arith<F>,
)
    requires
        !bid.is_finite() || !ask.is_finite(),
    ensures
        forall|r: Option<PolyTick>| #[trigger]
            call_ensures(tick_of_quote::<F>, (ts, bid, ask, &arith), r) ==> r is None,
{
}

/// The latest message of an asset is the one that came last, and messages of others do not
/// touch it.
pub proof fn latest_message_is_kept(snap: IndicatorSnapshot)
    ensures
        forall|s: &mut IndicatorStore| #[trigger]
            call_ensures(IndicatorStore::update, (s, snap), ()) ==> {
                &&& final(s).latest@.contains_key(snap.asset@)
                &&& final(s).latest@[snap.asset@] == snap
                &&& forall|a: Seq<char>|
                    a != snap.asset@ ==> (#[trigger] final(s).latest@.contains_key(a)
                        == s.latest@.contains_key(a)) && final(s).latest@[a] == s.latest@[a]
            },
{
}

/// In the real numbers: a message is acted on exactly while it is no older than allowed.
pub proof fn old_messages_are_left<F: Fn(Op, Num, Num) -> Num>(
    store: IndicatorStore,
    asset: &str,
    now: Num,
    max_age: Num,
    arith: Arith<F>,
    val: spec_fn(Num) -> real,
)
    requires
        exact(arith@, val),
        now.is_finite(),
        max_age.is_finite(),
        store.latest@.contains_key(asset@),
        store.latest@[asset@].ts.is_finite(),
        fits(val, val(now) - val(store.latest@[asset@].ts)),
    ensures
        forall|r: Option<&IndicatorSnapshot>| #[trigger]
            call_ensures(
                IndicatorStore::fresh::<F>,
                (&store, asset, now, max_age, &arith),
                r,
            ) ==> {
                &&& r is Some <==> val(now) - val(store.latest@[asset@].ts) <= val(max_age)
                &&& r is Some ==> *r->0 == store.latest@[asset@]
            },
{
    let age = arith@.minus(now, store.latest@[asset@].ts);
    assert(max_age.lt(age) <==> val(max_age) < val(age));
}

} // verus!

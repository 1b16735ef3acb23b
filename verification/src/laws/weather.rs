//! What a held bucket is sold for, and when one is bought.

use vstd::prelude::*;

use crate::calendar::CivilDate;
use crate::execution::{CloseResult, SellStatus, TradeResult};
use crate::laws::exact::{exact, fits};
use crate::num::{num, Arith, Num, Op, ZERO};
use crate::telegram::commands::opt_view;
use crate::text::{decimal, same_letters, signed_decimal, views};
use crate::weather::{
    after_discovery, bucket_label, bucket_token, find_yes_token, mid_of_quote, month_name, on_tick,
    slug_on, yes_place, BucketAction, BucketState, BucketTrader, CityStep, CloseReason, Discovery,
    WeatherConfig, WeatherConfigError, WeatherTrade,
};

verus! {

/// A held bucket is stopped exactly when it has lost `sl_pnl` a share, whatever it was bought
/// for; it is sold for profit exactly when it is not stopped and has gained `unwind_pnl` a
/// share, and then for no less than that; it is timed out exactly when neither holds and it
/// was held long enough. Nothing else is asked of it, and a tick alone does not change it.
pub proof fn hold_ends_by_gain_or_clock<F: Fn(Op, Num, Num) -> Num>(
    cfg: WeatherConfig,
    mid: Num,
    ts: Num,
    arith: Arith<F>,
)
    ensures
        forall|t: &mut BucketTrader, r: BucketAction| #[trigger]
            call_ensures(on_tick::<F>, (t, &cfg, mid, ts, &arith), r) && t.state is Holding ==> {
                let entry = t.state->entry_price;
                let lost = mid.le(arith@.minus(entry, cfg.sl_pnl));
                let gained = mid.ge(arith@.plus(entry, cfg.unwind_pnl));
                let over = arith@.minus(ts, t.state->entry_ts).ge(cfg.max_hold_secs);
                &&& r is Close && r->outcome == CloseReason::StopLoss <==> lost
                &&& r is Close && r->outcome == CloseReason::Unwind <==> !lost && gained
                &&& r is Close && r->outcome == CloseReason::Timeout <==> !lost && !gained && over
                &&& r is Close || r is Nothing
                &&& r is Close && r->outcome == CloseReason::Unwind ==> r->floor == Some(
                    arith@.plus(entry, cfg.unwind_pnl),
                )
                &&& r is Close && r->outcome != CloseReason::Unwind ==> r->floor is None
                &&& *final(t) == *t
            },
{
}

/// In the real numbers: a stop takes a loss of at least `sl_pnl` a share and a target a gain of
/// at least `unwind_pnl` a share. The levels move with the price that was paid.
pub proof fn levels_move_with_the_entry<F: Fn(Op, Num, Num) -> Num>(
    cfg: WeatherConfig,
    mid: Num,
    ts: Num,
    arith: Arith<F>,
    val: spec_fn(Num) -> real,
    entry_ts: Num,
    entry: Num,
    shares: Num,
)
    requires
        exact(arith@, val),
        mid.is_finite(),
        entry.is_finite(),
        cfg.sl_pnl.is_finite(),
        cfg.unwind_pnl.is_finite(),
        fits(val, val(entry) - val(cfg.sl_pnl)),
        fits(val, val(entry) + val(cfg.unwind_pnl)),
    ensures
        forall|t: &mut BucketTrader, r: BucketAction|
            #[trigger] call_ensures(on_tick::<F>, (t, &cfg, mid, ts, &arith), r) && (*t).state == (
            BucketState::Holding { entry_ts, entry_price: entry, shares }) ==> {
                &&& r is Close && r->outcome == CloseReason::StopLoss <==> val(mid) - val(entry)
                    <= -val(cfg.sl_pnl)
                &&& r is Close && r->outcome == CloseReason::Unwind ==> val(mid) - val(entry)
                    >= val(cfg.unwind_pnl) && val(r->floor->0) - val(entry) == val(cfg.unwind_pnl)
                &&& r is Close && r->outcome == CloseReason::Timeout ==> -val(cfg.sl_pnl) < val(mid)
                    - val(entry) < val(cfg.unwind_pnl)
            },
{
    let stop = arith@.minus(entry, cfg.sl_pnl);
    let target = arith@.plus(entry, cfg.unwind_pnl);
    assert(stop.lt(mid) <==> val(stop) < val(mid));
    assert(mid.lt(target) <==> val(mid) < val(target));
}

/// A watched bucket is bought exactly when the price stands above the band, not above the cap,
/// and was below the band before or is now. A price below the band is remembered, and nothing
/// makes the bucket forget it.
pub proof fn watched_bucket_buys_a_recovery<F: Fn(Op, Num, Num) -> Num>(
    cfg: WeatherConfig,
    mid: Num,
    ts: Num,
    arith: Arith<F>,
)
    ensures
        forall|t: &mut BucketTrader, r: BucketAction| #[trigger]
            call_ensures(on_tick::<F>, (t, &cfg, mid, ts, &arith), r) && t.state is Watching ==> {
                let dipped = t.state->saw_low || mid.lt(cfg.low);
                &&& r is Enter <==> dipped && cfg.high.lt(mid) && mid.le(cfg.max_buy_price)
                &&& r is Enter ==> r->price == mid
                &&& !(r is Close)
                &&& *final(t) == (BucketTrader {
                    state: BucketState::Watching { saw_low: dipped },
                    ..*t
                })
            },
        forall|t: &mut BucketTrader, r: BucketAction|
            #[trigger] call_ensures(on_tick::<F>, (t, &cfg, mid, ts, &arith), r) && (*t).state
                == BucketState::Done ==> r is Nothing && *final(t) == *t,
{
}

/// A bucket is held from a fill on, and with what was filled: its shares, for what they cost.
pub proof fn position_is_what_was_filled(result: TradeResult, now: Num)
    ensures
        forall|t: &mut BucketTrader, r: bool|
            #[trigger] call_ensures(BucketTrader::on_entry_result, (t, &result, now), r) ==> {
                &&& r <==> result.placed && num(ZERO).lt(result.filled_shares)
                &&& r ==> final(t).state == (BucketState::Holding {
                    entry_ts: now,
                    entry_price: result.cost,
                    shares: result.filled_shares,
                })
                &&& !r ==> final(t).state == t.state
                &&& final(t).trades_today == t.trades_today
                &&& final(t).bucket == t.bucket
            },
{
}

/// Only a sale that went through ends a position, and it counts as one trade: the bucket is
/// done once the trades of the day are used up, and else waits for the next dip.
pub proof fn sale_ends_the_position<F: Fn(Op, Num, Num) -> Num>(
    cfg: WeatherConfig,
    city: &str,
    reason: CloseReason,
    result: CloseResult,
    now: Num,
    arith: Arith<F>,
)
    ensures
        forall|t: &mut BucketTrader, r: Option<WeatherTrade>| #[trigger]
            call_ensures(
                BucketTrader::on_close_result::<F>,
                (t, &cfg, city, reason, &result, now, &arith),
                r,
            ) && t.trades_today < u32::MAX ==> {
                &&& r is Some <==> t.state is Holding && result.status == SellStatus::Matched
                &&& r is None ==> *final(t) == *t
                &&& r is Some ==> {
                    &&& final(t).trades_today == t.trades_today + 1
                    &&& final(t).bucket == t.bucket
                    &&& final(t).state == BucketState::Done || final(t).state == (
                    BucketState::Watching { saw_low: false })
                    &&& final(t).state == BucketState::Done <==> t.trades_today + 1
                        >= cfg.max_trades_per_bucket
                    &&& r->0.entry_ts == t.state->entry_ts
                    &&& r->0.entry_price == t.state->entry_price
                    &&& r->0.shares == t.state->shares
                    &&& r->0.exit_ts == now
                    &&& r->0.city@ == city@
                    &&& r->0.bucket@ == t.bucket.label@
                    &&& r->0.outcome@ == match reason {
                        CloseReason::StopLoss => "STOPLOSS"@,
                        CloseReason::Unwind => "UNWIND"@,
                        CloseReason::Timeout => "TIMEOUT"@,
                    }
                }
            },
{
}

/// In the real numbers: a sale gains what it brought less what the shares had cost, and its
/// price is what it brought for a share.
pub proof fn sale_gains_takings_less_cost<F: Fn(Op, Num, Num) -> Num>(
    cfg: WeatherConfig,
    city: &str,
    reason: CloseReason,
    result: CloseResult,
    now: Num,
    arith: Arith<F>,
    val: spec_fn(Num) -> real,
    entry_ts: Num,
    entry: Num,
    shares: Num,
)
    requires
        exact(arith@, val),
        entry.is_finite(),
        shares.is_finite(),
        result.filled_usdc.is_finite(),
        result.shares_sold.is_finite(),
        fits(val, val(shares) * val(entry)),
        fits(val, val(result.filled_usdc) - val(shares) * val(entry)),
        val(result.shares_sold) > 0real,
        fits(val, val(result.filled_usdc) / val(result.shares_sold)),
    ensures
        forall|t: &mut BucketTrader, r: Option<WeatherTrade>| #[trigger]
            call_ensures(
                BucketTrader::on_close_result::<F>,
                (t, &cfg, city, reason, &result, now, &arith),
                r,
            ) && t.trades_today < u32::MAX && r is Some && t.state == (BucketState::Holding {
                entry_ts,
                entry_price: entry,
                shares,
            }) ==> {
                &&& val(r->0.pnl) == val(result.filled_usdc) - val(shares) * val(entry)
                &&& val(r->0.exit_price) == val(result.filled_usdc) / val(result.shares_sold)
            },
{
    assert(num(ZERO).lt(result.shares_sold));
}

/// The middle of a quote lies as far from the bid as from the ask. A quote without two prices
/// above nothing has none.
pub proof fn middle_lies_between<F: Fn(Op, Num, Num) -> Num>(
    bid: Num,
    ask: Num,
    arith: Arith<F>,
    val: spec_fn(Num) -> real,
)
    requires
        exact(arith@, val),
        bid.is_finite(),
        ask.is_finite(),
        fits(val, val(bid) + val(ask)),
        fits(val, (val(bid) + val(ask)) / 2real),
    ensures
        forall|r: Option<Num>| #[trigger]
            call_ensures(mid_of_quote::<F>, (bid, ask, &arith), r) ==> {
                &&& r is Some <==> val(bid) > 0real && val(ask) > 0real
                &&& r is Some ==> val(r->0) - val(bid) == val(ask) - val(r->0)
            },
{
    assert(num(ZERO).lt(bid) <==> 0real < val(bid));
    assert(num(ZERO).lt(ask) <==> 0real < val(ask));
}

/// A quote in which a price is no finite number has no middle.
pub proof fn no_middle_without_prices<F: Fn(Op, Num, Num) -> Num>(bid: Num, ask: Num, arith: Arith<F>)
    requires
        !bid.is_finite() || !ask.is_finite(),
    ensures
        forall|r: Option<Num>| #[trigger]
            call_ensures(mid_of_quote::<F>, (bid, ask, &arith), r) ==> r is None,
{
}

/// Buckets are traded exactly when there are some. After a failure the next look comes within
/// a minute, else at the set distance.
pub proof fn buckets_are_traded_when_there(found: Discovery, cfg: WeatherConfig)
    ensures
        forall|r: CityStep| #[trigger]
            call_ensures(after_discovery, (found, &cfg), r) ==> {
                &&& r is Trade <==> found is Buckets && found->Buckets_0 > 0
                &&& r is Wait && found is Failed ==> r->secs == 60
                &&& r is Wait && !(found is Failed) ==> r->secs == cfg.refresh_interval_secs
            },
{
}

/// A configuration passes exactly when it names a city and its band is not turned round.
pub proof fn checked_band_is_open(cfg: WeatherConfig)
    ensures
        forall|r: Result<(), WeatherConfigError>| #[trigger]
            call_ensures(WeatherConfig::validate, (&cfg,), r) ==> {
                &&& r is Ok <==> cfg.cities@.len() > 0 && !cfg.high.le(cfg.low)
                &&& r is Err && cfg.cities@.len() > 0 ==> r->Err_0 == (
                WeatherConfigError::BadBand { low: cfg.low, high: cfg.high })
                &&& cfg.cities@.len() == 0 ==> r == Err::<(), WeatherConfigError>(
                    WeatherConfigError::EmptyCities,
                )
            },
{
}

proof fn yes_place_is_first(outcomes: Seq<Seq<char>>, from: int)
    requires
        0 <= from,
    ensures
        match yes_place(outcomes, from) {
            Some(i) => {
                &&& from <= i < outcomes.len()
                &&& same_letters(outcomes[i], "yes"@)
                &&& forall|k: int| from <= k < i ==> !same_letters(#[trigger] outcomes[k], "yes"@)
            },
            None => forall|k: int|
                from <= k < outcomes.len() ==> !same_letters(#[trigger] outcomes[k], "yes"@),
        },
    decreases outcomes.len() - from,
{
    if from < outcomes.len() {
        yes_place_is_first(outcomes, from + 1);
    }
}

/// The token that is bought stands at the place of an outcome called yes, the first one.
pub proof fn token_stands_at_yes(outcomes: Vec<String>, ids: Vec<String>)
    ensures
        forall|r: Option<String>| #[trigger]
            call_ensures(find_yes_token, (&outcomes, &ids), r) ==> {
                &&& r is Some ==> exists|i: int|
                    {
                        &&& 0 <= i < outcomes@.len()
                        &&& i < ids@.len()
                        &&& same_letters(#[trigger] views(outcomes@)[i], "yes"@)
                        &&& r->0@ == ids@[i]@
                        &&& forall|k: int|
                            0 <= k < i ==> !same_letters(#[trigger] views(outcomes@)[k], "yes"@)
                    }
                &&& r is None ==> forall|i: int|
                    0 <= i < outcomes@.len() && i < ids@.len() && same_letters(
                        #[trigger] views(outcomes@)[i],
                        "yes"@,
                    ) ==> exists|k: int|
                        0 <= k < i && same_letters(#[trigger] views(outcomes@)[k], "yes"@)
            },
{
    yes_place_is_first(views(outcomes@), 0);
    assert forall|r: Option<String>| #[trigger]
        call_ensures(find_yes_token, (&outcomes, &ids), r) && r is Some implies exists|i: int|
        {
            &&& 0 <= i < outcomes@.len()
            &&& i < ids@.len()
            &&& same_letters(#[trigger] views(outcomes@)[i], "yes"@)
            &&& r->0@ == ids@[i]@
            &&& forall|k: int| 0 <= k < i ==> !same_letters(#[trigger] views(outcomes@)[k], "yes"@)
        } by {
        let i = yes_place(views(outcomes@), 0)->0;
        assert(same_letters(views(outcomes@)[i], "yes"@));
        assert(views(ids@)[i] == ids@[i]@);
        assert(opt_view(r) == Some(r->0@));
    }
}

/// The months have their names in their order.
pub proof fn months_are_named_in_order()
    ensures
        forall|r: &'static str| #[trigger] call_ensures(month_name, (1u32,), r) ==> r@ == "january"@,
        forall|r: &'static str| #[trigger] call_ensures(month_name, (2u32,), r) ==> r@ == "february"@,
        forall|r: &'static str| #[trigger] call_ensures(month_name, (3u32,), r) ==> r@ == "march"@,
        forall|r: &'static str| #[trigger] call_ensures(month_name, (4u32,), r) ==> r@ == "april"@,
        forall|r: &'static str| #[trigger] call_ensures(month_name, (5u32,), r) ==> r@ == "may"@,
        forall|r: &'static str| #[trigger] call_ensures(month_name, (6u32,), r) ==> r@ == "june"@,
        forall|r: &'static str| #[trigger] call_ensures(month_name, (7u32,), r) ==> r@ == "july"@,
        forall|r: &'static str| #[trigger] call_ensures(month_name, (8u32,), r) ==> r@ == "august"@,
        forall|r: &'static str| #[trigger] call_ensures(month_name, (9u32,), r) ==> r@ == "september"@,
        forall|r: &'static str| #[trigger] call_ensures(month_name, (10u32,), r) ==> r@ == "october"@,
        forall|r: &'static str| #[trigger] call_ensures(month_name, (11u32,), r) ==> r@ == "november"@,
        forall|r: &'static str| #[trigger] call_ensures(month_name, (12u32,), r) ==> r@ == "december"@,
{
}

/// The event of a city on a day goes by the city, the month by name, the day and the year.
pub proof fn event_goes_by_city_and_day(city: &str, date: CivilDate)
    requires
        1 <= date.month <= 12,
    ensures
        forall|r: String, m: &'static str|
            #[trigger] call_ensures(slug_on, (city, date), r) && #[trigger] call_ensures(
                month_name,
                (date.month,),
                m,
            ) ==> r@ == "highest-temperature-in-"@ + city@ + "-on-"@ + m@ + "-"@ + decimal(
                date.day as nat,
            ) + "-"@ + signed_decimal(date.year as int),
{
}

/// A bucket is called by its title, without one by its question, and without that by a question
/// mark. Without both its lists it has no token.
pub proof fn bucket_names(title: &str, question: &str, list: &str)
    ensures
        forall|r: String, q: Option<&str>| #[trigger]
            call_ensures(bucket_label, (Some(title), q), r) ==> r@ == title@,
        forall|r: String| #[trigger]
            call_ensures(bucket_label, (None::<&str>, Some(question)), r) ==> r@ == question@,
        forall|r: String| #[trigger]
            call_ensures(bucket_label, (None::<&str>, None::<&str>), r) ==> r@ == "?"@,
        forall|r: Option<String>, o: Option<&str>| #[trigger]
            call_ensures(bucket_token, (None::<&str>, o), r) ==> r is None,
        forall|r: Option<String>, t: Option<&str>| #[trigger]
            call_ensures(bucket_token, (t, None::<&str>), r) ==> r is None,
{
}

} // verus!

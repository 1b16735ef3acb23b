//! The balance, the won positions, and the fills that are waited for.

use vstd::prelude::*;

use crate::balance::{seconds_until_next_check, BalanceGuard, GammaBalanceTracker};
use crate::laws::exact::{exact, fits, quotient_times_divisor, real_of};
use crate::num::{num, Arith, Num, Op, ZERO};
use crate::redemption::{classify, redeemed, written_off, RedeemablePosition, RedemptionTracker};
use crate::unwind::{is_fill_status, TradeNotice, TradeStatus, UnwindWatcher};

verus! {

/// The first balance is what later ones are held against, and no halt. A later one halts exactly
/// when it lies more than a quarter below a first one above nothing, and no halt was called
/// before. Without a balance nothing changes.
pub proof fn guard_halts_on_a_quarter_lost<F: Fn(Op, Num, Num) -> Num>(balance: Num, arith: Arith<F>)
    ensures
        forall|g: &mut BalanceGuard, r: bool| #[trigger]
            call_ensures(BalanceGuard::check::<F>, (g, Some(balance), &arith), r) ==> {
                &&& g.initial_balance is None ==> !r && final(g).initial_balance == Some(balance)
                    && final(g).halt_fired == g.halt_fired
                &&& g.initial_balance is Some ==> {
                    let first = g.initial_balance->0;
                    &&& final(g).initial_balance == g.initial_balance
                    &&& r <==> !g.halt_fired && !first.le(num(ZERO)) && num(
                        0x3FD0_0000_0000_0000,
                    ).lt(arith@.over(arith@.minus(first, balance), first))
                    &&& final(g).halt_fired <==> g.halt_fired || r
                }
            },
        forall|g: &mut BalanceGuard, r: bool| #[trigger]
            call_ensures(BalanceGuard::check::<F>, (g, None::<Num>, &arith), r) ==> !r && *final(g)
                == *g,
        forall|g: &mut BalanceGuard| #[trigger]
            call_ensures(BalanceGuard::reset_baseline, (g,), ()) ==> final(g).initial_balance is None
                && !final(g).halt_fired,
{
}

/// In the real numbers: a guard that has not halted halts exactly below three quarters of the
/// first balance.
pub proof fn guard_halts_below_three_quarters<F: Fn(Op, Num, Num) -> Num>(
    first: Num,
    balance: Num,
    arith: Arith<F>,
    val: spec_fn(Num) -> real,
)
    requires
        exact(arith@, val),
        val(num(0x3FD0_0000_0000_0000)) == 1real / 4real,
        first.is_finite(),
        balance.is_finite(),
        val(first) > 0real,
        fits(val, val(first) - val(balance)),
        fits(val, (val(first) - val(balance)) / val(first)),
    ensures
        forall|g: &mut BalanceGuard, r: bool| #[trigger]
            call_ensures(BalanceGuard::check::<F>, (g, Some(balance), &arith), r)
                && g.initial_balance == Some(first) && !g.halt_fired ==> (r <==> 4real * val(
                balance,
            ) < 3real * val(first)),
{
    let f = val(first);
    let b = val(balance);
    let q = (f - b) / f;
    assert(num(ZERO).lt(first) <==> 0real < f);
    let lost = arith@.over(arith@.minus(first, balance), first);
    let limit = num(0x3FD0_0000_0000_0000);
    assert(limit.lt(lost) <==> val(limit) < val(lost));
    quotient_times_divisor(f - b, f);
    assert(q > 1real / 4real <==> q * f > 1real / 4real * f) by (nonlinear_arith)
        requires
            f > 0real,
    ;
}

/// The verdict is whether the balance rose since the one before, and open without two balances
/// in a row or with none now.
pub proof fn verdict_is_whether_it_rose(balance: Num)
    ensures
        forall|t: &mut GammaBalanceTracker| #[trigger]
            call_ensures(GammaBalanceTracker::record, (t, Some(balance)), ()) ==> {
                &&& final(t).last_sample == Some(balance)
                &&& t.last_sample is None ==> final(t).verdict is None
                &&& t.last_sample is Some ==> final(t).verdict == Some(
                    t.last_sample->0.lt(balance),
                )
            },
        forall|t: &mut GammaBalanceTracker| #[trigger]
            call_ensures(GammaBalanceTracker::record, (t, None::<Num>), ()) ==> final(
                t).verdict is None && final(t).last_sample == t.last_sample,
{
}

/// The balance is next looked at two minutes into a window of five, later than now and at most
/// five minutes on.
pub proof fn next_look_is_two_minutes_in<F: Fn(Op, Num, Num) -> Num>(
    now: Num,
    arith: Arith<F>,
    val: spec_fn(Num) -> real,
    secs: u64,
)
    requires
        exact(arith@, val),
        now.is_finite(),
        secs == arith@.to_unsigned(now),
        secs < 0x10_0000_0000_0000,
        real_of(secs as int) <= val(now) < real_of(secs as int) + 1real,
        forall|u: u64|
            u < 0x20_0000_0000_0000 ==> (#[trigger] arith@.from_unsigned(u)).is_finite() && val(
                arith@.from_unsigned(u),
            ) == real_of(u as int),
        forall|u: u64|
            secs <= u + 300 && u <= secs + 420 ==> fits(
                val,
                #[trigger] real_of(u as int) - val(now),
            ),
    ensures
        forall|r: Num| #[trigger]
            call_ensures(seconds_until_next_check::<F>, (now, &arith), r) ==> exists|at: int|
                {
                    &&& val(now) + val(r) == #[trigger] real_of(at)
                    &&& at % 300 == 120
                    &&& 0real < val(r) <= 300real
                },
{
    let first = secs as int / 300 * 300 + 120;
    let u = first as u64;
    assert(first == u);
    assert(arith@.from_unsigned(u).is_finite());
    assert(now.lt(arith@.from_unsigned(u)) <==> val(now) < real_of(first));
    assert(secs as int / 300 * 300 <= secs < secs as int / 300 * 300 + 300);
    assert forall|r: Num| #[trigger]
        call_ensures(seconds_until_next_check::<F>, (now, &arith), r) implies exists|at: int|
        {
            &&& val(now) + val(r) == #[trigger] real_of(at)
            &&& at % 300 == 120
            &&& 0real < val(r) <= 300real
        } by {
        let at = if val(now) < real_of(first) {
            first
        } else {
            first + 300
        };
        assert(arith@.from_unsigned(at as u64).is_finite());
        assert(fits(val, real_of((at as u64) as int) - val(now)));
        assert(val(now) + val(r) == real_of(at));
        assert(real_of(first) == real_of(secs as int / 300 * 300) + 120real);
        assert(real_of(first + 300) == real_of(first) + 300real);
        assert(real_of(secs as int / 300 * 300) <= real_of(secs as int));
        assert(real_of(secs as int) + 1real <= real_of(secs as int / 300 * 300) + 300real);
        assert(at % 300 == 120);
    }
}

// ── Won positions ───────────────────────────────────────────────────────────

/// The position is worth more than a cent.
pub open spec fn worth_it(p: RedeemablePosition) -> bool {
    num(0x3F84_7AE1_47AE_147B).lt(p.current_value)
}

/// A position is redeemed exactly when it is worth more than a cent, has a market, and that
/// market was not settled before. There is something to redeem exactly when the market lets it go
/// and shares are held.
pub proof fn redeeming_is_worth_it(p: RedeemablePosition, t: RedemptionTracker)
    ensures
        forall|r: bool| #[trigger]
            call_ensures(RedemptionTracker::wants, (&t, &p), r) ==> (r <==> worth_it(p)
                && p.condition_id@.len() > 0 && !t@.contains(p.condition_id@)),
        forall|r: bool| #[trigger]
            call_ensures(RedeemablePosition::is_held, (&p,), r) ==> (r <==> p.redeemable && num(
                ZERO,
            ).lt(p.size)),
        forall|t2: &mut RedemptionTracker, ok: bool| #[trigger]
            call_ensures(RedemptionTracker::settle, (t2, &p, ok), ()) ==> forall|id: Seq<char>| #[trigger]
                final(t2)@.contains(id) <==> t2@.contains(id) || (ok && id == p.condition_id@),
{
}

/// The markets of worthless positions, and no others, are counted as settled.
pub proof fn worthless_markets_are_written_off(
    attempted: Set<Seq<char>>,
    positions: Seq<RedeemablePosition>,
    id: Seq<char>,
)
    ensures
        written_off(attempted, positions).contains(id) <==> attempted.contains(id) || exists|i: int|
            {
                &&& 0 <= i < positions.len()
                &&& !worth_it(#[trigger] positions[i])
                &&& positions[i].condition_id@ == id
                &&& id.len() > 0
            },
    decreases positions.len(),
{
    if positions.len() > 0 {
        let rest = positions.drop_last();
        worthless_markets_are_written_off(attempted, rest, id);
        let n = positions.len() - 1;
        if exists|i: int|
            {
                &&& 0 <= i < rest.len()
                &&& !worth_it(#[trigger] rest[i])
                &&& rest[i].condition_id@ == id
                &&& id.len() > 0
            } {
            let i = choose|i: int|
                {
                    &&& 0 <= i < rest.len()
                    &&& !worth_it(#[trigger] rest[i])
                    &&& rest[i].condition_id@ == id
                    &&& id.len() > 0
                };
            assert(positions[i] == rest[i]);
        }
        if exists|i: int|
            {
                &&& 0 <= i < positions.len()
                &&& !worth_it(#[trigger] positions[i])
                &&& positions[i].condition_id@ == id
                &&& id.len() > 0
            } {
            let i = choose|i: int|
                {
                    &&& 0 <= i < positions.len()
                    &&& !worth_it(#[trigger] positions[i])
                    &&& positions[i].condition_id@ == id
                    &&& id.len() > 0
                };
            if i < n {
                assert(rest[i] == positions[i]);
            }
        }
        assert(positions[n] == positions.last());
    }
}

/// A pass settles exactly the markets in which a position worth it was redeemed, and counts each
/// market once, however many positions it has.
pub proof fn each_market_is_redeemed_once(
    attempted: Set<Seq<char>>,
    positions: Seq<RedeemablePosition>,
    outcomes: Seq<bool>,
)
    requires
        attempted.finite(),
        outcomes.len() >= positions.len(),
    ensures
        redeemed(attempted, positions, outcomes).0.finite(),
        redeemed(attempted, positions, outcomes).0.len() == attempted.len() + redeemed(
            attempted,
            positions,
            outcomes,
        ).1,
        forall|id: Seq<char>| #[trigger]
            redeemed(attempted, positions, outcomes).0.contains(id) <==> attempted.contains(id)
                || gets_redeemed(positions, outcomes, id),
    decreases positions.len(),
{
    if positions.len() > 0 {
        let rest = positions.drop_last();
        let n = positions.len() - 1;
        each_market_is_redeemed_once(attempted, rest, outcomes);
        let (before, count) = redeemed(attempted, rest, outcomes);
        let (after, total) = redeemed(attempted, positions, outcomes);
        assert(positions[n] == positions.last());
        assert forall|id: Seq<char>| #[trigger] after.contains(id) <==> attempted.contains(id)
            || gets_redeemed(positions, outcomes, id) by {
            assert(before.contains(id) <==> attempted.contains(id) || gets_redeemed(
                rest,
                outcomes,
                id,
            ));
            if gets_redeemed(rest, outcomes, id) {
                let i = choose|i: int|
                    {
                        &&& 0 <= i < rest.len()
                        &&& worth_it(#[trigger] rest[i])
                        &&& rest[i].condition_id@ == id
                        &&& id.len() > 0
                        &&& outcomes[i]
                    };
                assert(positions[i] == rest[i]);
            }
            if gets_redeemed(positions, outcomes, id) {
                let i = choose|i: int|
                    {
                        &&& 0 <= i < positions.len()
                        &&& worth_it(#[trigger] positions[i])
                        &&& positions[i].condition_id@ == id
                        &&& id.len() > 0
                        &&& outcomes[i]
                    };
                if i < n {
                    assert(rest[i] == positions[i]);
                }
            }
        }
    }
}

/// A position of the market was redeemed: one worth it, with success.
pub open spec fn gets_redeemed(
    positions: Seq<RedeemablePosition>,
    outcomes: Seq<bool>,
    id: Seq<char>,
) -> bool {
    exists|i: int|
        {
            &&& 0 <= i < positions.len()
            &&& worth_it(#[trigger] positions[i])
            &&& positions[i].condition_id@ == id
            &&& id.len() > 0
            &&& outcomes[i]
        }
}

/// Every position is sorted once: among the winning ones when it is worth it, else among the
/// others.
pub proof fn positions_are_split_by_worth(positions: Vec<RedeemablePosition>)
    ensures
        forall|r: (Vec<&RedeemablePosition>, Vec<&RedeemablePosition>)| #[trigger]
            call_ensures(classify, (&positions,), r) ==> {
                &&& r.0@.len() + r.1@.len() == positions@.len()
                &&& forall|i: int| 0 <= i < r.0@.len() ==> worth_it(*#[trigger] r.0@[i])
                &&& forall|i: int| 0 <= i < r.1@.len() ==> !worth_it(*#[trigger] r.1@[i])
            },
{
    let won = |p: RedeemablePosition| p.winning();
    let lost = |p: RedeemablePosition| !p.winning();
    filters_part(positions@, won, lost);
    assert forall|r: (Vec<&RedeemablePosition>, Vec<&RedeemablePosition>)| #[trigger]
        call_ensures(classify, (&positions,), r) implies {
        &&& r.0@.len() + r.1@.len() == positions@.len()
        &&& forall|i: int| 0 <= i < r.0@.len() ==> worth_it(*#[trigger] r.0@[i])
        &&& forall|i: int| 0 <= i < r.1@.len() ==> !worth_it(*#[trigger] r.1@[i])
    } by {
        let a = r.0@.map_values(|p: &RedeemablePosition| *p);
        let b = r.1@.map_values(|p: &RedeemablePosition| *p);
        assert(a == positions@.filter(won));
        assert(b == positions@.filter(lost));
        assert(a.len() == r.0@.len() && b.len() == r.1@.len());
        assert forall|i: int| 0 <= i < r.0@.len() implies worth_it(*#[trigger] r.0@[i]) by {
            assert(a[i] == *r.0@[i]);
            assert(won(a[i]));
        }
        assert forall|i: int| 0 <= i < r.1@.len() implies !worth_it(*#[trigger] r.1@[i]) by {
            assert(b[i] == *r.1@[i]);
            assert(lost(b[i]));
        }
    }
}

proof fn filters_part<T>(s: Seq<T>, yes: spec_fn(T) -> bool, no: spec_fn(T) -> bool)
    requires
        forall|x: T| #[trigger] yes(x) <==> !no(x),
    ensures
        s.filter(yes).len() + s.filter(no).len() == s.len(),
        forall|i: int| 0 <= i < s.filter(yes).len() ==> yes(#[trigger] s.filter(yes)[i]),
        forall|i: int| 0 <= i < s.filter(no).len() ==> no(#[trigger] s.filter(no)[i]),
    decreases s.len(),
{
    reveal(Seq::filter);
    if s.len() > 0 {
        filters_part(s.drop_last(), yes, no);
    }
}

// ── Fills ───────────────────────────────────────────────────────────────────

/// A fill is what was matched or confirmed, and nothing else. It calls what was asked for its
/// own order, last, and a report on another order calls nothing of it.
pub proof fn fills_call_their_own(status: TradeStatus)
    ensures
        forall|r: bool| #[trigger]
            call_ensures(is_fill_status, (status,), r) ==> (r <==> status == TradeStatus::Matched
                || status == TradeStatus::Confirmed),
{
}

/// What was watched last is called by its fill, and what is not watched any more is not.
pub proof fn watching_an_order<C>(order_id: String, id: &str, callback: C, msg: TradeNotice)
    ensures
        forall|w: &mut UnwindWatcher<C>| #[trigger]
            call_ensures(UnwindWatcher::<C>::watch, (w, order_id, callback), ()) ==> {
                &&& final(w)@.contains_key(order_id@) && final(w)@[order_id@] == callback
                &&& forall|other: Seq<char>|
                    other != order_id@ ==> (#[trigger] final(w)@.contains_key(other)
                        == w@.contains_key(other)) && final(w)@[other] == w@[other]
            },
        forall|w: &mut UnwindWatcher<C>| #[trigger]
            call_ensures(UnwindWatcher::<C>::unwatch, (w, id), ()) ==> {
                &&& !final(w)@.contains_key(id@)
                &&& forall|other: Seq<char>|
                    other != id@ ==> (#[trigger] final(w)@.contains_key(other) == w@.contains_key(
                        other,
                    )) && final(w)@[other] == w@[other]
            },
{
}

/// A report calls exactly when it is a fill of a watched order, and then what was asked for that
/// order.
pub proof fn fill_of_a_watched_order_calls<C>(w: UnwindWatcher<C>, msg: TradeNotice)
    ensures
        forall|r: Option<&C>| #[trigger]
            call_ensures(UnwindWatcher::<C>::dispatch, (&w, &msg), r) ==> {
                &&& r is Some <==> (msg.status == TradeStatus::Matched || msg.status
                    == TradeStatus::Confirmed) && msg.taker_order_id is Some && w@.contains_key(
                    msg.taker_order_id->0@,
                )
                &&& r is Some ==> *r->0 == w@[msg.taker_order_id->0@]
            },
{
}

} // verus!

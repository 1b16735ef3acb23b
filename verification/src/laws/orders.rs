//! What an order asks for and what is made of the answer.

use vstd::prelude::*;

use crate::execution::{
    aggressive_entry_price, balance_usdc, cancelled_by, choose_exit_order_kind,
    classify_entry_failure, close_at_price_prepared, close_at_price_result, close_at_price_start,
    close_next, close_prepared, close_start, floor2, limit_sell_next, limit_sell_prepared,
    limit_sell_start, needs_cancel, retry_entry_failure, round2, rounded2, signature_kind, BuyOrder, BuyReply,
    BuyStep, CancelReply, CloseResult, CloseStep, EntryFailure, LimitReply, LimitSellResult,
    LimitStep, LiveConfig, OrderKind, SellReply, SellStatus, SignatureKind, SimExecutionEngine,
    TokenId, TradeResult, HUNDRED, TICK, TWO,
};
use crate::laws::exact::{exact, fits, measures, whole, whole_stays};
use crate::num::{num, Arith, Layout, Num, Op, Reader, Writer, ONE, ZERO};
use crate::text::{contains, lowercase, trimmed, views};

verus! {

// ── Closing sales ───────────────────────────────────────────────────────────

/// A filled closing sale is over, and its result carries the answer's own numbers: the dollars
/// that came in and the shares that went.
pub proof fn filled_close_keeps_the_numbers(
    cfg: LiveConfig,
    attempt: u32,
    filled_usdc: Num,
    sold: Num,
)
    ensures
        forall|r: CloseStep| #[trigger]
            call_ensures(
                close_next,
                (&cfg, attempt, &(SellReply::Filled { filled_usdc, sold })),
                r,
            ) ==> {
                &&& r is Done
                &&& r->Done_0.filled_usdc == filled_usdc
                &&& r->Done_0.shares_sold == sold
                &&& r->Done_0.status == SellStatus::Matched
                &&& r->Done_0.error is None
                &&& r->Done_0.attempts == attempt
            },
        forall|r: CloseResult| #[trigger]
            call_ensures(close_at_price_result, (&(SellReply::Filled { filled_usdc, sold }),), r)
                ==> {
                &&& r.filled_usdc == filled_usdc
                &&& r.shares_sold == sold
                &&& r.status == SellStatus::Matched
                &&& r.error is None
                &&& r.attempts == 1
            },
{
}

/// Nothing was sold and nothing came in, and why.
pub open spec fn sold_nothing(r: CloseResult, why: Seq<char>) -> bool {
    &&& r.filled_usdc == num(ZERO)
    &&& r.shares_sold == num(ZERO)
    &&& r.status == SellStatus::Failed
    &&& r.error is Some
    &&& r.error->0@ == why
}

/// A closing sale is tried again exactly when tries are left and either nobody bought, then at
/// once, or the shares had not arrived, then after a second. When it is given up, nothing was
/// sold and the result tells the reason that the exchange gave.
pub proof fn failed_close_tries_again(cfg: LiveConfig, attempt: u32, msg: String)
    ensures
        forall|r: CloseStep| #[trigger]
            call_ensures(close_next, (&cfg, attempt, &SellReply::Error(msg)), r) ==> {
                let nobody = contains(msg@, "no orders found to match with FAK order"@);
                let unsettled = contains(msg@, "not enough balance"@);
                &&& r is Submit <==> attempt < cfg.close_max_retries && (nobody || unsettled)
                &&& r is Submit ==> r->Submit_attempt == attempt + 1
                &&& r is Submit && nobody ==> r->after_ms == 0
                &&& r is Submit && !nobody ==> r->after_ms == 1000
                &&& !(r is Submit) ==> r is Done && sold_nothing(r->Done_0, msg@)
                    && r->Done_0.attempts == attempt
            },
        forall|r: CloseStep| #[trigger]
            call_ensures(close_next, (&cfg, attempt, &SellReply::NotSuccessful), r) ==> r is Done
                && sold_nothing(r->Done_0, "order not successful"@) && r->Done_0.attempts
                == attempt,
        forall|r: CloseResult| #[trigger]
            call_ensures(close_at_price_result, (&SellReply::Error(msg),), r) ==> sold_nothing(
                r,
                msg@,
            ) && r.attempts == 1,
        forall|r: CloseResult| #[trigger]
            call_ensures(close_at_price_result, (&SellReply::NotSuccessful,), r) ==> sold_nothing(
                r,
                "order not successful"@,
            ) && r.attempts == 1,
{
}

/// A closing sale is prepared exactly for a number of shares above nothing, and where there is a
/// least price, for one above nothing; the least price goes into the order as it is, and a sale
/// at any price has none.
pub proof fn close_is_prepared_for_shares<F: Fn(Op, Num, Num) -> Num>(
    shares: Num,
    min_price: Num,
    arith: Arith<F>,
)
    ensures
        forall|r: CloseStep| #[trigger]
            call_ensures(close_start::<F>, (shares, &arith), r) ==> {
                &&& r is Prepare <==> !shares.le(num(ZERO))
                &&& r is Prepare ==> r->min_price is None
                &&& !(r is Prepare) ==> r is Done && sold_nothing(r->Done_0, "invalid shares"@)
                    && r->Done_0.attempts == 0
            },
        forall|r: CloseStep| #[trigger]
            call_ensures(close_at_price_start::<F>, (shares, min_price, &arith), r) ==> {
                &&& r is Prepare <==> !shares.le(num(ZERO)) && !min_price.le(num(ZERO))
                &&& r is Prepare ==> r->min_price == Some(min_price)
                &&& !(r is Prepare) ==> r is Done && sold_nothing(
                    r->Done_0,
                    "invalid shares/price"@,
                ) && r->Done_0.attempts == 0
            },
{
}

/// What was put into an order is sent once, at once; what could not be put into one is not.
pub proof fn prepared_sale_is_sent(cfg: LiveConfig, size_ok: bool, price_ok: bool)
    ensures
        forall|r: CloseStep| #[trigger]
            call_ensures(close_prepared, (&cfg, size_ok), r) ==> {
                &&& r is Submit <==> size_ok && cfg.close_max_retries > 0
                &&& r is Submit ==> r->Submit_attempt == 1 && r->after_ms == 0
                &&& !size_ok ==> r is Done && sold_nothing(r->Done_0, "bad size"@)
                &&& size_ok && !(r is Submit) ==> r is Done && sold_nothing(
                    r->Done_0,
                    "CLOSE_RETRIES_EXHAUSTED"@,
                )
            },
        forall|r: CloseStep| #[trigger]
            call_ensures(close_at_price_prepared, (size_ok, price_ok), r) ==> {
                &&& r is Submit <==> size_ok && price_ok
                &&& r is Submit ==> r->Submit_attempt == 1 && r->after_ms == 0
                &&& !size_ok ==> r is Done && sold_nothing(r->Done_0, "bad size"@)
                &&& size_ok && !price_ok ==> r is Done && sold_nothing(r->Done_0, "bad price"@)
            },
        forall|r: LimitStep| #[trigger]
            call_ensures(limit_sell_prepared, (price_ok, size_ok), r) ==> {
                &&& r is Submit <==> size_ok && price_ok
                &&& r is Submit ==> r->attempt == 0 && r->after_ms == 0
                &&& !price_ok ==> r is Done && not_in_the_book(r->Done_0, "bad price"@)
                &&& price_ok && !size_ok ==> r is Done && not_in_the_book(r->Done_0, "bad size"@)
            },
{
}

// ── Rounding ────────────────────────────────────────────────────────────────

/// To two decimals: at most half a hundredth away, and never above when cut.
pub proof fn two_decimals_are_near<F: Fn(Op, Num, Num) -> Num>(
    x: Num,
    arith: Arith<F>,
    val: spec_fn(Num) -> real,
)
    requires
        exact(arith@, val),
        x.is_finite(),
        fits(val, val(x) * 100real),
        fits(val, val(arith@.floor(arith@.times(x, num(HUNDRED)))) / 100real),
        fits(val, val(arith@.round(arith@.times(x, num(HUNDRED)))) / 100real),
    ensures
        forall|r: Num| #[trigger]
            call_ensures(floor2::<F>, (x, &arith), r) ==> {
                &&& val(r) <= val(x) < val(r) + 1real / 100real
                &&& whole(val(r) * 100real)
            },
        forall|r: Num| #[trigger]
            call_ensures(round2::<F>, (x, &arith), r) ==> {
                &&& val(r) - 1real / 200real <= val(x) <= val(r) + 1real / 200real
                &&& whole(val(r) * 100real)
            },
{
    let scaled = arith@.times(x, num(HUNDRED));
    let down = val(arith@.floor(scaled));
    let near = val(arith@.round(scaled));
    assert(down / 100real * 100real == down);
    assert(near / 100real * 100real == near);
}

/// A sale is never for more shares than are held, and for less than a hundredth fewer.
pub proof fn no_more_is_sold_than_held<F: Fn(Op, Num, Num) -> Num>(
    shares: Num,
    price: Num,
    arith: Arith<F>,
    val: spec_fn(Num) -> real,
)
    requires
        exact(arith@, val),
        shares.is_finite(),
        fits(val, val(shares) * 100real),
        fits(val, val(arith@.floor(arith@.times(shares, num(HUNDRED)))) / 100real),
    ensures
        forall|r: CloseStep| #[trigger]
            call_ensures(close_start::<F>, (shares, &arith), r) && r is Prepare
                ==> val(r->Prepare_shares) <= val(shares) < val(r->Prepare_shares) + 1real
                / 100real,
        forall|r: CloseStep| #[trigger]
            call_ensures(close_at_price_start::<F>, (shares, price, &arith), r) && r is Prepare
                ==> val(r->Prepare_shares) <= val(shares) < val(r->Prepare_shares) + 1real
                / 100real,
        forall|r: LimitStep| #[trigger]
            call_ensures(limit_sell_start::<F>, (shares, price, &arith), r) && r is Prepare
                ==> val(r->Prepare_shares) <= val(shares) < val(r->Prepare_shares) + 1real
                / 100real,
{
}

// ── Resting sales ───────────────────────────────────────────────────────────

/// The sale does not stand in the book, and why.
pub open spec fn not_in_the_book(r: LimitSellResult, why: Seq<char>) -> bool {
    &&& r.order_id is None
    &&& r.status == SellStatus::Failed
    &&& r.error is Some
    &&& r.error->0@ == why
}

/// A resting sale is prepared exactly for shares and a price above nothing. Its price lies
/// between a cent and a dollar less a cent, and is the nearest step of a cent where that lies
/// between them.
pub proof fn resting_price_stands_on_the_grid<F: Fn(Op, Num, Num) -> Num>(
    shares: Num,
    price: Num,
    arith: Arith<F>,
)
    ensures
        forall|r: LimitStep| #[trigger]
            call_ensures(limit_sell_start::<F>, (shares, price, &arith), r) ==> {
                let cent = num(TICK);
                let top = arith@.minus(num(ONE), cent);
                let step = arith@.times(arith@.round(arith@.over(price, cent)), cent);
                &&& r is Prepare <==> !shares.le(num(ZERO)) && !price.le(num(ZERO))
                &&& !(r is Prepare) ==> r is Done && not_in_the_book(
                    r->Done_0,
                    "invalid shares/price"@,
                )
                &&& r is Prepare && cent.le(step) && step.le(top) ==> r->price == step
                &&& r is Prepare && step.lt(cent) ==> r->price == cent
                &&& r is Prepare && !step.lt(cent) && top.lt(step) ==> r->price == top
                &&& r is Prepare && cent.le(top) && !step.is_nan() ==> cent.le(r->price)
                    && r->price.le(top)
            },
{
}

/// What a posted sale is: matched when something was taken, without an order that rests; live
/// with its order number when nothing was; and no sale at all without a number.
pub proof fn posted_sale_matches_or_rests(
    cfg: LiveConfig,
    attempt: u32,
    taking: Num,
    order_id: String,
)
    ensures
        forall|r: LimitStep| #[trigger]
            call_ensures(
                limit_sell_next,
                (&cfg, attempt, &(LimitReply::Posted { taking, order_id })),
                r,
            ) ==> {
                let d = r->Done_0;
                &&& r is Done
                &&& d.status == SellStatus::Matched <==> num(ZERO).lt(taking)
                &&& d.status == SellStatus::Live <==> !num(ZERO).lt(taking) && order_id@.len() > 0
                &&& d.status == SellStatus::Live ==> d.order_id is Some && d.order_id->0@
                    == order_id@ && d.error is None
                &&& d.status == SellStatus::Matched ==> d.order_id is None && d.error is None
                &&& !num(ZERO).lt(taking) && order_id@.len() == 0 ==> not_in_the_book(
                    d,
                    "empty order_id, no fill"@,
                )
            },
{
}

/// A resting sale is sent again exactly when the shares had not arrived and tries are left,
/// after the set time; else the result tells the reason that the exchange gave.
pub proof fn resting_sale_waits_for_shares(cfg: LiveConfig, attempt: u32, msg: String)
    ensures
        forall|r: LimitStep| #[trigger]
            call_ensures(limit_sell_next, (&cfg, attempt, &LimitReply::Error(msg)), r) ==> {
                &&& r is Submit <==> contains(msg@, "balance: 0"@) && attempt < cfg.settle_retries
                &&& r is Submit ==> r->attempt == attempt + 1 && r->after_ms == cfg.settle_sleep_ms
                &&& !(r is Submit) ==> r is Done && not_in_the_book(r->Done_0, msg@)
            },
{
}

// ── Buys ────────────────────────────────────────────────────────────────────

/// The first limit lies as far above the price as below the cap, or is the cap where the price
/// is not below it; every later limit is the cap.
pub proof fn first_limit_meets_the_cap_halfway<F: Fn(Op, Num, Num) -> Num>(
    price: Num,
    cap: Num,
    attempt: u32,
    arith: Arith<F>,
    val: spec_fn(Num) -> real,
)
    requires
        exact(arith@, val),
        price.is_finite(),
        cap.is_finite(),
        fits(val, val(cap) - val(price)),
        fits(val, (val(cap) - val(price)) / 2real),
        fits(val, val(price) + (val(cap) - val(price)) / 2real),
    ensures
        forall|r: Num| #[trigger]
            call_ensures(aggressive_entry_price::<F>, (price, cap, attempt, &arith), r) ==> {
                &&& attempt > 0 ==> r == cap
                &&& attempt == 0 && val(price) <= val(cap) ==> val(r) - val(price) == val(cap)
                    - val(r)
                &&& attempt == 0 && val(price) > val(cap) ==> val(r) == val(cap)
            },
{
    let room = arith@.minus(cap, price);
    assert(room.lt(num(ZERO)) <==> val(room) < 0real);
    let half = arith@.over(room, num(TWO));
    let middle = arith@.plus(price, half);
    assert(cap.lt(middle) <==> val(cap) < val(middle));
    if val(price) > val(cap) {
        let nothing = arith@.over(num(ZERO), num(TWO));
        assert(fits(val, 0real)) by {
            assert(val(num(ZERO)) == 0real);
        }
        assert(0real / 2real == 0real);
        assert(val(nothing) == 0real);
        assert(fits(val, val(price) + val(nothing)));
        let same = arith@.plus(price, nothing);
        assert(cap.lt(same) <==> val(cap) < val(same));
    }
}

/// A filled buy holds what was filled, at what was spent for each share; a fill of nothing is
/// told at the price that was seen.
pub proof fn filled_buy_keeps_the_numbers<F: Fn(Op, Num, Num) -> Num>(
    order: BuyOrder,
    attempt: u32,
    filled: Num,
    spent: Num,
    arith: Arith<F>,
)
    requires
        attempt <= order.order_max_retries < u32::MAX,
    ensures
        forall|r: BuyStep| #[trigger]
            call_ensures(
                BuyOrder::next::<F>,
                (&order, attempt, &(BuyReply::Filled { filled, spent }), &arith),
                r,
            ) ==> {
                let d = r->Done_0;
                &&& r is Done
                &&& d.placed
                &&& d.filled_shares == filled
                &&& num(ZERO).lt(filled) ==> d.cost == arith@.over(spent, filled)
                &&& !num(ZERO).lt(filled) ==> d.cost == order.price
                &&& d.error is None
                &&& d.attempts == attempt + 1
            },
{
}

/// The cost of a share times the shares is what was spent.
pub proof fn cost_times_shares_is_spent<F: Fn(Op, Num, Num) -> Num>(
    order: BuyOrder,
    attempt: u32,
    filled: Num,
    spent: Num,
    arith: Arith<F>,
    val: spec_fn(Num) -> real,
)
    requires
        attempt <= order.order_max_retries < u32::MAX,
        exact(arith@, val),
        filled.is_finite(),
        spent.is_finite(),
        val(filled) > 0real,
        fits(val, val(spent) / val(filled)),
    ensures
        forall|r: BuyStep| #[trigger]
            call_ensures(
                BuyOrder::next::<F>,
                (&order, attempt, &(BuyReply::Filled { filled, spent }), &arith),
                r,
            ) ==> val(r->Done_0.cost) * val(r->Done_0.filled_shares) == val(spent),
{
    assert(num(ZERO).lt(filled));
    let s = val(spent);
    let f = val(filled);
    assert(s / f * f == s) by (nonlinear_arith)
        requires
            f > 0real,
    ;
}

/// Nothing was bought, and why.
pub open spec fn bought_nothing(r: TradeResult, why: Seq<char>) -> bool {
    &&& !r.placed
    &&& r.filled_shares == num(ZERO)
    &&& r.cost == num(ZERO)
    &&& r.error is Some
    &&& r.error->0@ == why
}

/// The message blames the order itself.
pub open spec fn blames_the_order(msg: Seq<char>) -> bool {
    &&& !contains(msg, "no orders found to match with FAK order"@)
    &&& contains(msg, "invalid amounts"@) || contains(
        msg,
        "invalid amount for a marketable BUY order"@,
    ) || contains(msg, "min size"@)
}

/// A failed buy is sent again exactly when tries are left and the order itself was not blamed:
/// at the cap, after ten milliseconds when nobody sold and after a quarter of a second else.
/// When it is given up, nothing was bought and the result tells the reason.
pub proof fn failed_buy_tries_again<F: Fn(Op, Num, Num) -> Num>(
    order: BuyOrder,
    attempt: u32,
    msg: String,
    arith: Arith<F>,
)
    requires
        attempt <= order.order_max_retries < u32::MAX,
    ensures
        forall|r: BuyStep| #[trigger]
            call_ensures(
                BuyOrder::next::<F>,
                (&order, attempt, &BuyReply::Error(msg), &arith),
                r,
            ) ==> {
                &&& r is Submit <==> attempt < order.order_max_retries && !blames_the_order(msg@)
                &&& r is Submit ==> r->attempt == attempt + 1 && r->limit == order.max_buy_price
                &&& r is Submit ==> r->after_ms == if contains(
                    msg@,
                    "no orders found to match with FAK order"@,
                ) {
                    10u64
                } else {
                    250u64
                }
                &&& !(r is Submit) ==> r is Done && bought_nothing(r->Done_0, msg@)
                    && r->Done_0.attempts == attempt + 1
            },
        forall|r: BuyStep| #[trigger]
            call_ensures(
                BuyOrder::next::<F>,
                (&order, attempt, &BuyReply::BadPrice, &arith),
                r,
            ) ==> r is Done && bought_nothing(r->Done_0, "bad price"@) && r->Done_0.attempts
                == attempt + 1,
        forall|r: BuyStep| #[trigger]
            call_ensures(
                BuyOrder::next::<F>,
                (&order, attempt, &BuyReply::BadAmount, &arith),
                r,
            ) ==> r is Done && bought_nothing(r->Done_0, "bad amount"@) && r->Done_0.attempts
                == attempt + 1,
        forall|r: BuyStep| #[trigger]
            call_ensures(BuyOrder::start::<F>, (&order, &arith), r) ==> {
                &&& r is Submit <==> !order.price.le(num(ZERO))
                &&& r is Submit ==> r->attempt == 0 && r->after_ms == 0
                &&& !(r is Submit) ==> r is Done && bought_nothing(r->Done_0, "invalid price"@)
                    && r->Done_0.attempts == 0
            },
{
}

/// The first order of a buy goes out with the first limit.
pub proof fn buy_starts_with_the_first_limit<F: Fn(Op, Num, Num) -> Num>(
    order: BuyOrder,
    arith: Arith<F>,
)
    ensures
        forall|r: BuyStep, limit: Num| #[trigger]
            call_ensures(BuyOrder::start::<F>, (&order, &arith), r) && r is Submit
                && #[trigger] call_ensures(
                aggressive_entry_price::<F>,
                (order.price, order.max_buy_price, 0u32, &arith),
                limit,
            ) ==> r->limit == limit,
{
}

/// A failure is tried again exactly when it is not the order's own fault and it was not the
/// last try.
pub proof fn retry_needs_hope_and_tries(failure: EntryFailure, attempt: u32, max_attempts: u32)
    requires
        max_attempts > 0,
    ensures
        forall|r: Option<u64>| #[trigger]
            call_ensures(retry_entry_failure, (failure, attempt, max_attempts), r) ==> {
                &&& r is Some <==> failure != EntryFailure::Deterministic && attempt + 1
                    < max_attempts
                &&& r is Some && failure == EntryFailure::NoMatch ==> r->0 == 10
                &&& r is Some && failure == EntryFailure::Other ==> r->0 == 250
            },
{
}

/// A failure is told by what the exchange says.
pub proof fn failure_is_told_by_its_message(msg: &str)
    ensures
        forall|r: EntryFailure| #[trigger]
            call_ensures(classify_entry_failure, (msg,), r) ==> {
                &&& r == EntryFailure::NoMatch <==> contains(
                    msg@,
                    "no orders found to match with FAK order"@,
                )
                &&& r == EntryFailure::Deterministic <==> blames_the_order(msg@)
            },
{
}

// ── Orders without an exchange ──────────────────────────────────────────────

/// A simulated buy pays the price, or the cap where that is lower. It fails only without a
/// price or a fill, and then holds nothing.
pub proof fn simulated_buy_pays_no_more_than_the_cap<F: Fn(Op, Num, Num) -> Num>(
    engine: SimExecutionEngine,
    token: TokenId,
    price: Num,
    size: Num,
    cap: Num,
    arith: Arith<F>,
)
    ensures
        forall|r: TradeResult| #[trigger]
            call_ensures(
                SimExecutionEngine::place::<F>,
                (&engine, token, price, size, cap, &arith),
                r,
            ) ==> {
                &&& price.le(num(ZERO)) ==> bought_nothing(r, "invalid price"@)
                &&& r.attempts == 1
                &&& r.placed ==> r.error is None && !r.filled_shares.le(num(ZERO))
                &&& r.placed && price.le(cap) ==> r.cost == price
                &&& r.placed && cap.lt(price) ==> r.cost == cap
                &&& !r.placed && !price.le(num(ZERO)) ==> bought_nothing(r, "ORDER_FAILED"@)
            },
{
}

/// The amount is a whole number of hundredths, and neither it nor that number is too fine for a
/// double.
pub open spec fn in_hundredths(val: spec_fn(Num) -> real, x: real) -> bool {
    fits(val, x) && fits(val, x * 100real) && whole(x * 100real)
}

proof fn hundredths_stay<F: Fn(Op, Num, Num) -> Num>(
    x: Num,
    arith: Arith<F>,
    val: spec_fn(Num) -> real,
)
    requires
        exact(arith@, val),
        x.is_finite(),
        in_hundredths(val, val(x)),
    ensures
        forall|r: Num| #[trigger]
            call_ensures(round2::<F>, (x, &arith), r) ==> r.is_finite() && val(r) == val(x),
        rounded2(x, arith@).is_finite(),
        val(rounded2(x, arith@)) == val(x),
{
    whole_stays(arith@.times(x, num(HUNDRED)), arith@, val);
    assert(val(x) * 100real / 100real == val(x));
}

/// In the real numbers: the filled shares of a simulated buy, at what they cost, are worth the
/// stake times the fill ratio.
pub proof fn simulated_buy_spends_the_stake<F: Fn(Op, Num, Num) -> Num>(
    engine: SimExecutionEngine,
    token: TokenId,
    price: Num,
    size: Num,
    cap: Num,
    arith: Arith<F>,
    val: spec_fn(Num) -> real,
)
    requires
        exact(arith@, val),
        price.is_finite(),
        cap.is_finite(),
        size.is_finite(),
        engine.fill_ratio.is_finite(),
        price.le(cap),
        val(price) > 0real,
        val(size) > 0real,
        val(engine.fill_ratio) > 0real,
        in_hundredths(val, val(size) / val(price)),
        in_hundredths(val, val(size) / val(price) * val(engine.fill_ratio)),
    ensures
        forall|r: TradeResult| #[trigger]
            call_ensures(
                SimExecutionEngine::place::<F>,
                (&engine, token, price, size, cap, &arith),
                r,
            ) ==> r.placed && val(r.filled_shares) * val(r.cost) == val(size) * val(
                engine.fill_ratio,
            ),
{
    let asked = arith@.over(size, price);
    hundredths_stay(asked, arith, val);
    let shares = rounded2(asked, arith@);
    let part = arith@.times(shares, engine.fill_ratio);
    hundredths_stay(part, arith, val);
    let filled = rounded2(part, arith@);
    let s = val(size);
    let p = val(price);
    let f = val(engine.fill_ratio);
    assert(num(ZERO).lt(price) <==> 0real < p);
    assert(s / p * f * p == s * f && s / p * f > 0real) by (nonlinear_arith)
        requires
            p > 0real,
            s > 0real,
            f > 0real,
    ;
    assert(num(ZERO).lt(filled) <==> 0real < val(filled));
}

/// A simulated sale sells as many of the shares as fill; with a least price it brings just that
/// for each.
pub proof fn simulated_sale_sells_the_filled_part<F: Fn(Op, Num, Num) -> Num>(
    engine: SimExecutionEngine,
    token: TokenId,
    shares: Num,
    min_price: Num,
    arith: Arith<F>,
    val: spec_fn(Num) -> real,
)
    requires
        exact(arith@, val),
        shares.is_finite(),
        min_price.is_finite(),
        engine.fill_ratio.is_finite(),
        val(shares) > 0real,
        val(min_price) > 0real,
        val(shares) * val(engine.fill_ratio) > 0real,
        in_hundredths(val, val(shares) * val(engine.fill_ratio)),
        fits(val, val(shares) * val(engine.fill_ratio) * val(min_price)),
    ensures
        forall|r: CloseResult| #[trigger]
            call_ensures(
                SimExecutionEngine::close_position::<F>,
                (&engine, token, shares, &arith),
                r,
            ) ==> {
                &&& r.status == SellStatus::Matched
                &&& val(r.shares_sold) == val(shares) * val(engine.fill_ratio)
                &&& r.error is None
                &&& r.attempts == 1
            },
        forall|r: CloseResult| #[trigger]
            call_ensures(
                SimExecutionEngine::close_position_at_price::<F>,
                (&engine, token, shares, min_price, &arith),
                r,
            ) ==> {
                &&& r.status == SellStatus::Matched
                &&& val(r.shares_sold) == val(shares) * val(engine.fill_ratio)
                &&& val(r.filled_usdc) == val(r.shares_sold) * val(min_price)
                &&& r.error is None
                &&& r.attempts == 1
            },
{
    let part = arith@.times(shares, engine.fill_ratio);
    hundredths_stay(part, arith, val);
    let sold = rounded2(part, arith@);
    assert(num(ZERO).lt(shares) <==> 0real < val(shares));
    assert(num(ZERO).lt(min_price) <==> 0real < val(min_price));
    assert(num(ZERO).lt(sold) <==> 0real < val(sold));
}

/// A simulated sale of nothing, or for nothing, fails and sells nothing.
pub proof fn simulated_sale_of_nothing_fails<F: Fn(Op, Num, Num) -> Num, W: Fn(Num, Layout) -> String>(
    engine: SimExecutionEngine,
    token: TokenId,
    shares: Num,
    min_price: Num,
    arith: Arith<F>,
    writer: Writer<W>,
)
    ensures
        forall|r: CloseResult| #[trigger]
            call_ensures(
                SimExecutionEngine::close_position::<F>,
                (&engine, token, shares, &arith),
                r,
            ) ==> (r.status == SellStatus::Failed <==> shares.le(num(ZERO))) && (r.status
                == SellStatus::Failed ==> sold_nothing(r, "invalid shares"@)),
        forall|r: CloseResult| #[trigger]
            call_ensures(
                SimExecutionEngine::close_position_at_price::<F>,
                (&engine, token, shares, min_price, &arith),
                r,
            ) && (shares.le(num(ZERO)) || min_price.le(num(ZERO))) ==> sold_nothing(
                r,
                "invalid shares/price"@,
            ),
        forall|r: LimitSellResult| #[trigger]
            call_ensures(
                SimExecutionEngine::place_limit_sell::<W>,
                (&engine, token, shares, min_price, &writer),
                r,
            ) ==> {
                let bad = shares.le(num(ZERO)) || min_price.le(num(ZERO));
                &&& bad ==> not_in_the_book(r, "invalid shares/price"@)
                &&& !bad ==> r.status == SellStatus::Live && r.order_id is Some && r.error is None
            },
{
}

/// A fill ratio is a share of one, and one that is already is kept.
pub proof fn fill_ratio_is_a_share(ratio: Num)
    ensures
        forall|r: SimExecutionEngine| #[trigger]
            call_ensures(SimExecutionEngine::with_fill_ratio, (ratio,), r) ==> {
                &&& num(ZERO).le(ratio) && ratio.le(num(ONE)) ==> r.fill_ratio == ratio
                &&& ratio.lt(num(ZERO)) ==> r.fill_ratio == num(ZERO)
                &&& num(ONE).lt(ratio) ==> r.fill_ratio == num(ONE)
            },
{
}

// ── Around the orders ───────────────────────────────────────────────────────

/// An exit order rests in the book exactly from five shares on.
pub proof fn five_shares_rest(shares: Num, val: spec_fn(Num) -> real)
    requires
        measures(val),
        shares.is_finite(),
        val(num(0x4014_0000_0000_0000)) == 5real,
    ensures
        forall|r: OrderKind| #[trigger]
            call_ensures(choose_exit_order_kind, (shares,), r) ==> (r == OrderKind::Gtc
                <==> val(shares) >= 5real),
{
    let five = num(0x4014_0000_0000_0000);
    assert(shares.lt(five) <==> val(shares) < val(five));
}

/// An order is gone when the exchange cancelled it, says nothing against it, or says in whatever
/// case that it is not there any more.
pub proof fn gone_orders(order_id: &str, canceled: Vec<String>, not_canceled: Vec<String>, msg: String)
    ensures
        forall|r: bool| #[trigger]
            call_ensures(
                cancelled_by,
                (order_id, &(CancelReply::Answered { canceled, not_canceled })),
                r,
            ) ==> {
                &&& views(canceled@).contains(order_id@) ==> r
                &&& !r ==> views(not_canceled@).contains(order_id@)
                &&& !views(canceled@).contains(order_id@) && views(not_canceled@).contains(
                    order_id@,
                ) ==> !r
            },
        forall|r: bool| #[trigger]
            call_ensures(cancelled_by, (order_id, &CancelReply::Error(msg)), r) ==> {
                let low = lowercase(msg@);
                r <==> contains(low, "not found"@) || contains(low, "cancelled"@) || contains(
                    low,
                    "filled"@,
                )
            },
        forall|r: bool| #[trigger]
            call_ensures(needs_cancel, (order_id,), r) ==> (r <==> order_id@.len() != 0),
{
}

/// The kinds of wallet go by the digits nought to three, whatever white space stands around; no
/// setting means a proxy, and another text names none.
pub proof fn wallets_go_by_digits(raw: String)
    ensures
        forall|r: Option<SignatureKind>| #[trigger]
            call_ensures(signature_kind, (Some(raw),), r) ==> {
                let t = trimmed(raw@);
                &&& t == "0"@ ==> r == Some(SignatureKind::Eoa)
                &&& t == "1"@ ==> r == Some(SignatureKind::Proxy)
                &&& t == "2"@ ==> r == Some(SignatureKind::GnosisSafe)
                &&& t == "3"@ ==> r == Some(SignatureKind::Poly1271)
                &&& r is None <==> t != "0"@ && t != "1"@ && t != "2"@ && t != "3"@
            },
        forall|r: Option<SignatureKind>| #[trigger]
            call_ensures(signature_kind, (None::<String>,), r) ==> r == Some(SignatureKind::Proxy),
{
    reveal_strlit("0");
    reveal_strlit("1");
    reveal_strlit("2");
    reveal_strlit("3");
    assert("0"@[0] == '0' && "1"@[0] == '1' && "2"@[0] == '2' && "3"@[0] == '3');
}

/// A million base units are a dollar.
pub proof fn million_units_are_a_dollar<F: Fn(Op, Num, Num) -> Num, P: Fn(String) -> Option<Num>>(
    raw: &str,
    arith: Arith<F>,
    reader: Reader<P>,
    val: spec_fn(Num) -> real,
    units: Num,
)
    requires
        exact(arith@, val),
        val(num(0x412E_8480_0000_0000)) == 1000000real,
        (reader@)(raw@) == Some(units),
        units.is_finite(),
        fits(val, val(units) / 1000000real),
    ensures
        forall|r: Option<Num>| #[trigger]
            call_ensures(balance_usdc::<F, P>, (raw, &arith, &reader), r) ==> r is Some && val(r->0)
                * 1000000real == val(units),
{
}

/// What the live engine goes by unless it is told otherwise: three buys, four resting sales a
/// second and a half apart, five closing sales. A simulated engine fills everything.
pub proof fn engine_goes_by_default()
    ensures
        forall|r: LiveConfig| #[trigger]
            call_ensures(LiveConfig::default, (), r) ==> r.order_max_retries == 2
                && r.settle_retries == 3 && r.settle_sleep_ms == 1500 && r.close_max_retries == 5,
        forall|r: SimExecutionEngine| #[trigger]
            call_ensures(SimExecutionEngine::new, (), r) ==> r.fill_ratio == num(ONE),
{
}

} // verus!

//! What a closed position has brought, in the real numbers.

use vstd::prelude::*;

use crate::laws::entries::side_price;
use crate::laws::exact::{
    exact, fits, quotient_times_divisor, real_of, same_multiple, whole, whole_stays,
};
use crate::machine::{gain, round4, rounded4, Machine, TEN_THOUSAND};
use crate::num::{num, Arith, Calc, Num, Op, ONE, ZERO};
use crate::signal::LatestPolySignal;
use crate::types::{BinanceTick, Outcome, PolyTick, Side, TradeRecord};

verus! {

/// The amount is a whole number of hundredths of a cent, and neither it nor that number is
/// too fine for a double.
pub open spec fn in_small_change(val: spec_fn(Num) -> real, x: real) -> bool {
    fits(val, x) && fits(val, x * 10000real) && whole(x * 10000real)
}

/// Rounding to four decimals leaves an amount that has no more.
pub proof fn four_decimals_stay(x: Num, calc: Calc, val: spec_fn(Num) -> real)
    requires
        exact(calc, val),
        x.is_finite(),
        in_small_change(val, val(x)),
    ensures
        rounded4(x, calc).is_finite(),
        val(rounded4(x, calc)) == val(x),
{
    let t = num(TEN_THOUSAND);
    let scaled = calc.times(x, t);
    whole_stays(scaled, calc, val);
    assert(val(x) * 10000real / 10000real == val(x)) by (nonlinear_arith);
}

/// A stake that bought at `entry` and sells at `exit` gains what the shares bring less the
/// whole stake.
pub proof fn gain_is_proceeds_less_stake(
    stake: Num,
    entry: Num,
    exit: Num,
    calc: Calc,
    val: spec_fn(Num) -> real,
)
    requires
        exact(calc, val),
        stake.is_finite(),
        entry.is_finite(),
        exit.is_finite(),
        val(entry) != 0real,
        fits(val, val(stake) / val(entry)),
        fits(val, val(stake) / val(entry) * val(exit)),
        in_small_change(val, val(stake) / val(entry) * val(exit) - val(stake)),
    ensures
        val(gain(stake, entry, exit, calc)) == val(stake) / val(entry) * val(exit) - val(stake),
{
    let shares = calc.over(stake, entry);
    let proceeds = calc.times(shares, exit);
    four_decimals_stay(calc.minus(proceeds, stake), calc, val);
}

/// A position sold at the price that it was bought at gains nothing; one that is worth nothing
/// has lost the whole stake; and one that pays a dollar a share gains the shares less the stake.
pub proof fn gain_at_par_and_at_the_ends(
    stake: Num,
    entry: Num,
    calc: Calc,
    val: spec_fn(Num) -> real,
)
    requires
        exact(calc, val),
        stake.is_finite(),
        entry.is_finite(),
        val(entry) != 0real,
        fits(val, val(stake) / val(entry)),
        in_small_change(val, -val(stake)),
        in_small_change(val, val(stake) / val(entry) - val(stake)),
    ensures
        val(gain(stake, entry, entry, calc)) == 0real,
        val(gain(stake, entry, num(ZERO), calc)) == -val(stake),
        val(gain(stake, entry, num(ONE), calc)) == val(stake) / val(entry) - val(stake),
{
    quotient_times_divisor(val(stake), val(entry));
    assert(fits(val, 0real)) by {
        assert(val(num(ZERO)) == 0real);
    }
    assert(real_of(0) == 0real);
    assert(fits(val, val(stake)));
    gain_is_proceeds_less_stake(stake, entry, entry, calc, val);
    gain_is_proceeds_less_stake(stake, entry, num(ZERO), calc, val);
    gain_is_proceeds_less_stake(stake, entry, num(ONE), calc, val);
}

/// A stake `k` times as large gains `k` times as much.
pub proof fn gain_grows_with_the_stake(
    k: real,
    stake: Num,
    larger: Num,
    entry: Num,
    exit: Num,
    calc: Calc,
    val: spec_fn(Num) -> real,
)
    requires
        exact(calc, val),
        stake.is_finite(),
        larger.is_finite(),
        entry.is_finite(),
        exit.is_finite(),
        val(larger) == k * val(stake),
        val(entry) != 0real,
        fits(val, val(stake) / val(entry)),
        fits(val, val(stake) / val(entry) * val(exit)),
        in_small_change(val, val(stake) / val(entry) * val(exit) - val(stake)),
        fits(val, val(larger) / val(entry)),
        fits(val, val(larger) / val(entry) * val(exit)),
        in_small_change(val, val(larger) / val(entry) * val(exit) - val(larger)),
    ensures
        val(gain(larger, entry, exit, calc)) == k * val(gain(stake, entry, exit, calc)),
{
    gain_is_proceeds_less_stake(stake, entry, exit, calc, val);
    gain_is_proceeds_less_stake(larger, entry, exit, calc, val);
    let s = val(stake);
    let e = val(entry);
    let x = val(exit);
    let q = s / e;
    let big = (k * s) / e;
    quotient_times_divisor(s, e);
    quotient_times_divisor(k * s, e);
    assert(big * e == (k * q) * e) by (nonlinear_arith)
        requires
            q * e == s,
            big * e == k * s,
    ;
    same_multiple(big, k * q, e);
    assert((k * q) * x - k * s == k * (q * x - s)) by (nonlinear_arith);
}

/// Four decimals are at most half a ten-thousandth away.
pub proof fn four_decimals_are_near<F: Fn(Op, Num, Num) -> Num>(
    x: Num,
    arith: Arith<F>,
    val: spec_fn(Num) -> real,
)
    requires
        exact(arith@, val),
        x.is_finite(),
        fits(val, val(x) * 10000real),
        fits(val, val(arith@.round(arith@.times(x, num(TEN_THOUSAND)))) / 10000real),
    ensures
        forall|r: Num| #[trigger]
            call_ensures(round4::<F>, (x, &arith), r) ==> {
                &&& val(r) - 1real / 20000real <= val(x) <= val(r) + 1real / 20000real
                &&& whole(val(r) * 10000real)
            },
{
    let near = val(arith@.round(arith@.times(x, num(TEN_THOUSAND))));
    assert(near / 10000real * 10000real == near);
}

/// The numbers of a position and its exits are fine enough: neither the shares, nor the levels,
/// nor what is won or lost there needs rounding.
#[verifier::opaque]
pub open spec fn plain_numbers(m: Machine, price: Num, val: spec_fn(Num) -> real) -> bool {
    let h = m.state->Holding_0;
    let stake = val(m.trade_size);
    let entry = val(h.token_price);
    &&& m.trade_size.is_finite()
    &&& h.token_price.is_finite()
    &&& price.is_finite()
    &&& entry != 0real
    &&& fits(val, stake / entry)
    &&& fits(val, stake / entry * val(price))
    &&& in_small_change(val, stake / entry * val(price) - stake)
    &&& num(ZERO).lt(m.sl_pnl) ==> {
        let sl = val(m.sl_pnl);
        &&& m.sl_pnl.is_finite()
        &&& m.trade_size.negate().is_finite()
        &&& fits(val, entry - sl)
        &&& fits(val, -stake * sl)
        &&& in_small_change(val, -stake * sl / entry)
    }
    &&& num(ZERO).lt(m.unwind_pnl) ==> {
        let up = val(m.unwind_pnl);
        &&& m.unwind_pnl.is_finite()
        &&& fits(val, entry + up)
        &&& fits(val, stake * up)
        &&& in_small_change(val, stake * up / entry)
    }
}

/// What the shares of a stake bring at a price, less the stake.
#[verifier::opaque]
pub open spec fn proceeds_less_stake(stake: real, entry: real, exit: real) -> real {
    stake / entry * exit - stake
}

/// The gain of an exit is what the shares of the stake bring at its price, less the stake.
proof fn exit_tells_the_gain(
    m: Machine,
    tick: PolyTick,
    calc: Calc,
    val: spec_fn(Num) -> real,
)
    requires
        exact(calc, val),
        m.state is Holding,
        plain_numbers(m, side_price(tick, m.state->Holding_0.side), val),
    ensures
        ({
            let h = m.state->Holding_0;
            let e = m.exit(h, tick, calc);
            e is Some ==> val(e->0.pnl) == proceeds_less_stake(
                val(m.trade_size),
                val(h.token_price),
                val(e->0.price),
            )
        }),
{
    reveal(proceeds_less_stake);
    reveal(plain_numbers);
    let h = m.state->Holding_0;
    gain_is_proceeds_less_stake(m.trade_size, h.token_price, side_price(tick, h.side), calc, val);
    levels_gain_what_they_say(m, calc, val);
}

proof fn clock_tells_the_gain(
    m: Machine,
    now: Num,
    price: Num,
    calc: Calc,
    val: spec_fn(Num) -> real,
)
    requires
        exact(calc, val),
        m.state is Holding,
        plain_numbers(m, price, val),
    ensures
        ({
            let h = m.state->Holding_0;
            let e = m.clock_exit(h, now, price, calc);
            e is Some ==> val(e->0.pnl) == proceeds_less_stake(
                val(m.trade_size),
                val(h.token_price),
                val(e->0.price),
            )
        }),
{
    reveal(proceeds_less_stake);
    reveal(plain_numbers);
    let h = m.state->Holding_0;
    gain_is_proceeds_less_stake(m.trade_size, h.token_price, price, calc, val);
}

proof fn poly_record_tells_the_gain(
    m: Machine,
    tick: PolyTick,
    calc: Calc,
    val: spec_fn(Num) -> real,
)
    requires
        exact(calc, val),
        m.state is Holding,
        plain_numbers(m, side_price(tick, m.state->Holding_0.side), val),
    ensures
        m.poly_record(tick, calc) is Some ==> gain_is_told(m, m.poly_record(tick, calc)->0, val),
{
    let fed = m.fed_poly(tick, calc);
    assert(plain_numbers(fed, side_price(tick, m.state->Holding_0.side), val)) by {
        reveal(plain_numbers);
    }
    exit_tells_the_gain(fed, tick, calc, val);
}

proof fn binance_record_tells_the_gain(
    m: Machine,
    tick: BinanceTick,
    calc: Calc,
    val: spec_fn(Num) -> real,
)
    requires
        exact(calc, val),
        m.state is Holding,
        plain_numbers(m, known_price(m.latest_poly, m.state->Holding_0.side), val),
    ensures
        m.binance_record(tick, calc) is Some ==> gain_is_told(
            m,
            m.binance_record(tick, calc)->0,
            val,
        ),
{
    let fed = m.fed_binance(tick);
    let price = known_price(m.latest_poly, m.state->Holding_0.side);
    assert(plain_numbers(fed, price, val)) by {
        reveal(plain_numbers);
    }
    clock_tells_the_gain(fed, tick.ts, price, calc, val);
}

/// The gain of a record is what the shares of the stake bring at the exit price, less the stake.
pub open spec fn gain_is_told(m: Machine, r: TradeRecord, val: spec_fn(Num) -> real) -> bool {
    val(r.pnl) == proceeds_less_stake(val(m.trade_size), val(r.token_price), val(r.exit_price))
}

/// Whatever closes a position on a token tick, the record's gain is what the shares bring at the
/// record's exit price, less the whole stake.
pub proof fn token_tick_record_tells_the_gain<F: Fn(Op, Num, Num) -> Num>(
    tick: PolyTick,
    arith: Arith<F>,
    val: spec_fn(Num) -> real,
)
    requires
        exact(arith@, val),
    ensures
        forall|m: &mut Machine, r: Option<TradeRecord>| #[trigger]
            call_ensures(Machine::on_poly::<F>, (m, tick, &arith), r) && r is Some
                && m.state is Holding && plain_numbers(
                *m,
                side_price(tick, m.state->Holding_0.side),
                val,
            ) ==> gain_is_told(*m, r->0, val),
{
    let calc = arith@;
    assert forall|m: &mut Machine, r: Option<TradeRecord>| #[trigger]
        call_ensures(Machine::on_poly::<F>, (m, tick, &arith), r) && r is Some && m.state is Holding
            && plain_numbers(*m, side_price(tick, m.state->Holding_0.side), val) implies gain_is_told(
        *m,
        r->0,
        val,
    ) by {
        assert(r == m.poly_record(tick, calc));
        poly_record_tells_the_gain(*m, tick, calc, val);
    }
}

/// Whatever closes a position on a Binance tick, the record's gain is what the shares bring at
/// the record's exit price, less the whole stake.
pub proof fn binance_tick_record_tells_the_gain<F: Fn(Op, Num, Num) -> Num>(
    tick: BinanceTick,
    arith: Arith<F>,
    val: spec_fn(Num) -> real,
)
    requires
        exact(arith@, val),
    ensures
        forall|m: &mut Machine, r: Option<TradeRecord>| #[trigger]
            call_ensures(Machine::on_binance::<F>, (m, tick, &arith), r) && r is Some
                && m.state is Holding && plain_numbers(
                *m,
                known_price(m.latest_poly, m.state->Holding_0.side),
                val,
            ) ==> gain_is_told(*m, r->0, val),
{
    let calc = arith@;
    assert forall|m: &mut Machine, r: Option<TradeRecord>| #[trigger]
        call_ensures(Machine::on_binance::<F>, (m, tick, &arith), r) && r is Some
            && m.state is Holding && plain_numbers(
            *m,
            known_price(m.latest_poly, m.state->Holding_0.side),
            val,
        ) implies gain_is_told(*m, r->0, val) by {
        assert(r == m.binance_record(tick, calc));
        binance_record_tells_the_gain(*m, tick, calc, val);
    }
}

/// The latest known price of a side.
pub open spec fn known_price(poly: LatestPolySignal, side: Side) -> Num {
    match side {
        Side::Up => poly.up,
        Side::Down => poly.dn,
    }
}

proof fn level_gain(stake: real, entry: real, move_: real)
    requires
        entry != 0real,
    ensures
        stake / entry * (entry + move_) - stake == (stake * move_) / entry,
{
    let q = stake / entry;
    let y = (stake * move_) / entry;
    quotient_times_divisor(stake, entry);
    quotient_times_divisor(stake * move_, entry);
    assert(y * entry == (q * move_) * entry) by (nonlinear_arith)
        requires
            q * entry == stake,
            y * entry == stake * move_,
    ;
    same_multiple(y, q * move_, entry);
    assert(q * (entry + move_) == q * entry + q * move_) by (nonlinear_arith);
}

proof fn levels_gain_what_they_say(m: Machine, calc: Calc, val: spec_fn(Num) -> real)
    requires
        exact(calc, val),
        m.state is Holding,
        exists|p: Num| #[trigger] plain_numbers(m, p, val),
    ensures
        ({
            let h = m.state->Holding_0;
            let stake = val(m.trade_size);
            let entry = val(h.token_price);
            &&& num(ZERO).lt(m.sl_pnl) ==> val(
                rounded4(
                    calc.over(calc.times(m.trade_size.negate(), m.sl_pnl), h.token_price),
                    calc,
                ),
            ) == stake / entry * val(calc.minus(h.token_price, m.sl_pnl)) - stake
            &&& num(ZERO).lt(m.unwind_pnl) ==> val(
                rounded4(calc.over(calc.times(m.trade_size, m.unwind_pnl), h.token_price), calc),
            ) == stake / entry * val(calc.plus(h.token_price, m.unwind_pnl)) - stake
        }),
{
    reveal(plain_numbers);
    let h = m.state->Holding_0;
    let stake = val(m.trade_size);
    let entry = val(h.token_price);
    if num(ZERO).lt(m.sl_pnl) {
        let sl = val(m.sl_pnl);
        four_decimals_stay(
            calc.over(calc.times(m.trade_size.negate(), m.sl_pnl), h.token_price),
            calc,
            val,
        );
        level_gain(stake, entry, -sl);
        assert(-stake * sl == stake * -sl) by (nonlinear_arith);
    }
    if num(ZERO).lt(m.unwind_pnl) {
        let up = val(m.unwind_pnl);
        four_decimals_stay(
            calc.over(calc.times(m.trade_size, m.unwind_pnl), h.token_price),
            calc,
            val,
        );
        level_gain(stake, entry, up);
    }
}

/// In the real numbers: a winning settlement gains the shares less the stake, and a losing one
/// has lost the whole stake.
pub proof fn settlement_gain<F: Fn(Op, Num, Num) -> Num>(
    stake: Num,
    entry: Num,
    arith: Arith<F>,
    val: spec_fn(Num) -> real,
)
    requires
        exact(arith@, val),
        stake.is_finite(),
        entry.is_finite(),
        val(entry) != 0real,
        fits(val, val(stake) / val(entry)),
        in_small_change(val, -val(stake)),
        in_small_change(val, val(stake) / val(entry) - val(stake)),
    ensures
        forall|m: &mut Machine, r: Option<TradeRecord>| #[trigger]
            call_ensures(Machine::cycle_close::<F>, (m, &arith), r) && r is Some && m.trade_size
                == stake && m.state->Holding_0.token_price == entry ==> {
                &&& r->0.outcome == Outcome::Win ==> val(r->0.pnl) == val(stake) / val(entry) - val(
                    stake,
                )
                &&& r->0.outcome == Outcome::Loss ==> val(r->0.pnl) == -val(stake)
            },
{
    gain_at_par_and_at_the_ends(stake, entry, arith@, val);
}

} // verus!

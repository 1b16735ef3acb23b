//! The real numbers behind the doubles.
//!
//! A [`Calc`] rounds. Where a result has a double of its own there is nothing to round, and
//! the arithmetic is that of the real numbers. The laws on money speak of such results.

use vstd::prelude::*;

use crate::execution::{HUNDRED, TWO};
use crate::machine::TEN_THOUSAND;
use crate::num::{num, Calc, Num, ONE, ZERO};

verus! {

/// There is a double for the real number.
pub open spec fn fits(val: spec_fn(Num) -> real, x: real) -> bool {
    exists|n: Num| n.is_finite() && #[trigger] val(n) == x
}

pub open spec fn real_of(i: int) -> real {
    i as real
}

/// The real number is a whole number.
pub open spec fn whole(x: real) -> bool {
    exists|i: int| #[trigger] real_of(i) == x
}

/// `val` gives the real number of each double, in the order of the doubles.
pub open spec fn measures(val: spec_fn(Num) -> real) -> bool {
    &&& val(num(ZERO)) == 0real
    &&& val(num(ONE)) == 1real
    &&& val(num(TWO)) == 2real
    &&& val(num(HUNDRED)) == 100real
    &&& val(num(TEN_THOUSAND)) == 10000real
    &&& forall|a: Num, b: Num|
        a.is_finite() && b.is_finite() ==> (#[trigger] a.lt(b) <==> val(a) < val(b))
    &&& forall|a: Num| a.is_finite() ==> val(#[trigger] a.negate()) == -val(a)
}

/// Every operation is exact where its result has a double.
pub open spec fn exact(calc: Calc, val: spec_fn(Num) -> real) -> bool {
    &&& measures(val)
    &&& forall|a: Num, b: Num|
        a.is_finite() && b.is_finite() && fits(val, val(a) + val(b)) ==> {
            &&& (#[trigger] calc.plus(a, b)).is_finite()
            &&& val(calc.plus(a, b)) == val(a) + val(b)
        }
    &&& forall|a: Num, b: Num|
        a.is_finite() && b.is_finite() && fits(val, val(a) - val(b)) ==> {
            &&& (#[trigger] calc.minus(a, b)).is_finite()
            &&& val(calc.minus(a, b)) == val(a) - val(b)
        }
    &&& forall|a: Num, b: Num|
        a.is_finite() && b.is_finite() && fits(val, val(a) * val(b)) ==> {
            &&& (#[trigger] calc.times(a, b)).is_finite()
            &&& val(calc.times(a, b)) == val(a) * val(b)
        }
    &&& forall|a: Num, b: Num|
        a.is_finite() && b.is_finite() && val(b) != 0real && fits(val, val(a) / val(b)) ==> {
            &&& (#[trigger] calc.over(a, b)).is_finite()
            &&& val(calc.over(a, b)) == val(a) / val(b)
        }
    &&& forall|a: Num|
        a.is_finite() ==> {
            &&& (#[trigger] calc.round(a)).is_finite()
            &&& whole(val(calc.round(a)))
            &&& -1real <= 2real * (val(calc.round(a)) - val(a)) <= 1real
        }
    &&& forall|a: Num|
        a.is_finite() ==> {
            &&& (#[trigger] calc.floor(a)).is_finite()
            &&& whole(val(calc.floor(a)))
            &&& val(calc.floor(a)) <= val(a) < val(calc.floor(a)) + 1real
        }
}

/// Differences and quotients have the sign that they have in the real numbers, unless they are
/// too small to have one.
pub open spec fn keeps_signs(calc: Calc) -> bool {
    &&& forall|a: Num, b: Num|
        #![trigger calc.minus(a, b)]
        a.is_finite() && b.is_finite() ==> {
            &&& num(ZERO).lt(calc.minus(a, b)) <==> b.lt(a)
            &&& calc.minus(a, b).lt(num(ZERO)) <==> a.lt(b)
        }
    &&& forall|a: Num, b: Num|
        #![trigger calc.over(a, b)]
        num(ZERO).lt(b) ==> {
            &&& num(ZERO).lt(calc.over(a, b)) ==> num(ZERO).lt(a)
            &&& calc.over(a, b).lt(num(ZERO)) ==> a.lt(num(ZERO))
        }
}

/// A quotient times the divisor is the dividend.
pub proof fn quotient_times_divisor(a: real, b: real)
    requires
        b != 0real,
    ensures
        a / b * b == a,
{
    assert(a / b * b == a) by (nonlinear_arith)
        requires
            b != 0real,
    ;
}

/// Numbers that have the same multiple are equal.
pub proof fn same_multiple(a: real, b: real, c: real)
    requires
        c != 0real,
        a * c == b * c,
    ensures
        a == b,
{
    assert((a - b) * c == a * c - b * c) by (nonlinear_arith);
    assert(a - b == 0real) by (nonlinear_arith)
        requires
            c != 0real,
            (a - b) * c == 0real,
    ;
}

/// Whole numbers that are less than one apart are equal.
pub proof fn whole_numbers_stand_apart(x: real, y: real)
    requires
        whole(x),
        whole(y),
        -1real < x - y < 1real,
    ensures
        x == y,
{
    let i = choose|i: int| #[trigger] real_of(i) == x;
    let j = choose|j: int| #[trigger] real_of(j) == y;
    assert(i == j);
}

/// A whole number is rounded to itself, up or down.
pub proof fn whole_stays(a: Num, calc: Calc, val: spec_fn(Num) -> real)
    requires
        exact(calc, val),
        a.is_finite(),
        whole(val(a)),
    ensures
        val(calc.round(a)) == val(a),
        val(calc.floor(a)) == val(a),
{
    whole_numbers_stand_apart(val(calc.round(a)), val(a));
    whole_numbers_stand_apart(val(calc.floor(a)), val(a));
}

} // verus!

//! The order of the numbers.

use vstd::prelude::*;

use crate::num::{num, num_clamp, num_max, num_min, Arith, Num, Op, INFINITY_BITS, SIGN, ZERO};

verus! {

/// Numbers are strictly ordered: of two that are numbers, one is below the other or neither is,
/// and what lies below one that lies below a third lies below it too. What is not a number is
/// below nothing and above nothing.
pub proof fn numbers_are_ordered(a: Num, b: Num, c: Num)
    ensures
        forall|r: bool| #[trigger] call_ensures(Num::lt, (a, a), r) ==> !r,
        forall|r: bool, q: bool|
            #[trigger] call_ensures(Num::lt, (a, b), r) && #[trigger] call_ensures(
                Num::lt,
                (b, a),
                q,
            ) ==> !(r && q),
        forall|r: bool, q: bool, t: bool|
            #[trigger] call_ensures(Num::lt, (a, b), r) && #[trigger] call_ensures(
                Num::lt,
                (b, c),
                q,
            ) && #[trigger] call_ensures(Num::lt, (a, c), t) && r && q ==> t,
        forall|r: bool| #[trigger]
            call_ensures(Num::lt, (a, b), r) && (a.bits == INFINITY_BITS + 1 || b.bits
                == INFINITY_BITS + 1) ==> !r,
        forall|r: bool| #[trigger]
            call_ensures(Num::is_nan, (a,), r) ==> (r <==> (0x7FF0_0000_0000_0000 < a.bits
                < 0x8000_0000_0000_0000 || a.bits > 0xFFF0_0000_0000_0000)),
        forall|r: bool| #[trigger]
            call_ensures(Num::is_finite, (a,), r) ==> (r <==> (a.bits < 0x7FF0_0000_0000_0000 || (
            0x8000_0000_0000_0000 <= a.bits < 0xFFF0_0000_0000_0000))),
{
}

/// Below zero are the finite numbers with a sign, above it those without one, and both zeros are
/// neither. Among positive numbers the larger has the larger bits.
pub proof fn signs_tell_the_side_of_zero(a: Num, b: Num)
    requires
        a.is_finite(),
        b.is_finite(),
    ensures
        forall|r: bool| #[trigger]
            call_ensures(Num::lt, (a, num(ZERO)), r) ==> (r <==> a.bits > SIGN),
        forall|r: bool| #[trigger]
            call_ensures(Num::lt, (num(ZERO), a), r) ==> (r <==> 0 < a.bits < SIGN),
        forall|r: bool| #[trigger]
            call_ensures(Num::lt, (a, b), r) && a.bits < SIGN && b.bits < SIGN ==> (r <==> a.bits
                < b.bits),
{
}

/// The other comparisons by the first: what is not a number passes none of them.
pub proof fn comparisons_go_together(a: Num, b: Num)
    ensures
        forall|r: bool| #[trigger] call_ensures(Num::gt, (a, b), r) ==> r == b.lt(a),
        forall|r: bool| #[trigger]
            call_ensures(Num::le, (a, b), r) ==> r == (!a.is_nan() && !b.is_nan() && !b.lt(a)),
        forall|r: bool| #[trigger]
            call_ensures(Num::ge, (a, b), r) ==> r == (!a.is_nan() && !b.is_nan() && !a.lt(b)),
{
}

/// Turning the sign turns the order, and turning it twice does nothing. Without its sign a number
/// is not below zero and is itself or its negative.
pub proof fn negation_turns_the_order(a: Num, b: Num)
    ensures
        a.lt(b) <==> b.negate().lt(a.negate()),
        a.negate().negate() == a,
        forall|r: Num| #[trigger]
            call_ensures(Num::abs, (a,), r) ==> (r == a || r == a.negate()) && !r.lt(num(ZERO)),
        forall|r: Num| #[trigger] call_ensures(Num::negate, (a,), r) ==> r == a.negate() && r != a,
{
}

/// The larger of two numbers is one of them and below neither, the smaller one of them and above
/// neither; what is not a number gives way. A number that is held to a range lies in it, and stays
/// where it already does.
pub proof fn larger_smaller_and_held(a: Num, b: Num, lo: Num, hi: Num)
    ensures
        forall|r: Num| #[trigger]
            call_ensures(num_max, (a, b), r) ==> {
                &&& r == a || r == b
                &&& !r.lt(a) && !r.lt(b)
                &&& r.is_nan() ==> a.is_nan() && b.is_nan()
            },
        forall|r: Num| #[trigger]
            call_ensures(num_min, (a, b), r) ==> {
                &&& r == a || r == b
                &&& !a.lt(r) && !b.lt(r)
                &&& r.is_nan() ==> a.is_nan() && b.is_nan()
            },
        forall|r: Num| #[trigger]
            call_ensures(num_clamp, (a, lo, hi), r) && lo.le(hi) && !a.is_nan() ==> {
                &&& lo.le(r)
                &&& r.le(hi)
                &&& lo.le(a) && a.le(hi) ==> r == a
                &&& r == a || r == lo || r == hi
            },
{
}

/// Each operation is asked of the unit under its own name, with its operands in their order.
pub proof fn operations_keep_their_names<F: Fn(Op, Num, Num) -> Num>(
    arith: Arith<F>,
    a: Num,
    b: Num,
    i: i64,
    u: u64,
)
    ensures
        forall|r: Num| #[trigger]
            call_ensures(Arith::<F>::plus, (&arith, a, b), r) ==> r == (arith@.result)(
                Op::Plus,
                a,
                b,
            ),
        forall|r: Num| #[trigger]
            call_ensures(Arith::<F>::minus, (&arith, a, b), r) ==> r == (arith@.result)(
                Op::Minus,
                a,
                b,
            ),
        forall|r: Num| #[trigger]
            call_ensures(Arith::<F>::times, (&arith, a, b), r) ==> r == (arith@.result)(
                Op::Times,
                a,
                b,
            ),
        forall|r: Num| #[trigger]
            call_ensures(Arith::<F>::over, (&arith, a, b), r) ==> r == (arith@.result)(
                Op::Over,
                a,
                b,
            ),
        forall|r: Num| #[trigger]
            call_ensures(Arith::<F>::round, (&arith, a), r) ==> r == (arith@.result)(
                Op::Round,
                a,
                a,
            ),
        forall|r: Num| #[trigger]
            call_ensures(Arith::<F>::floor, (&arith, a), r) ==> r == (arith@.result)(
                Op::Floor,
                a,
                a,
            ),
        forall|r: Num| #[trigger]
            call_ensures(Arith::<F>::from_signed, (&arith, i), r) ==> r == (arith@.result)(
                Op::FromSigned,
                num(i as u64),
                num(i as u64),
            ),
        forall|r: Num| #[trigger]
            call_ensures(Arith::<F>::from_unsigned, (&arith, u), r) ==> r == (arith@.result)(
                Op::FromUnsigned,
                num(u),
                num(u),
            ),
        forall|r: i64| #[trigger]
            call_ensures(Arith::<F>::to_signed, (&arith, a), r) ==> r == (arith@.result)(
                Op::ToSigned,
                a,
                a,
            ).bits as i64,
        forall|r: u64| #[trigger]
            call_ensures(Arith::<F>::to_unsigned, (&arith, a), r) ==> r == (arith@.result)(
                Op::ToUnsigned,
                a,
                a,
            ).bits,
        arith@.plus(a, b) == (arith@.result)(Op::Plus, a, b),
        arith@.minus(a, b) == (arith@.result)(Op::Minus, a, b),
        arith@.times(a, b) == (arith@.result)(Op::Times, a, b),
        arith@.over(a, b) == (arith@.result)(Op::Over, a, b),
        arith@.round(a) == (arith@.result)(Op::Round, a, a),
        arith@.floor(a) == (arith@.result)(Op::Floor, a, a),
{
}

} // verus!

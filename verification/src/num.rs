//! Numbers and the arithmetic on them.
//!
//! A [`Num`] is held as the 64 bits of an IEEE-754 double. Ordering two numbers is a
//! fact about their bits and is decided here. Adding, multiplying or rounding them is
//! left to an [`Arith`], which carries the floating-point unit of whoever embeds the
//! library.

use vstd::prelude::*;

verus! {

/// The sign bit.
pub const SIGN: u64 = 0x8000_0000_0000_0000;

/// The bits of positive infinity; a larger magnitude is not a number.
pub const INFINITY_BITS: u64 = 0x7FF0_0000_0000_0000;

/// A double by its bits. `==` on this type is equality of the bits; the IEEE
/// comparisons are the methods `lt`, `le`, `gt` and `ge`.
#[derive(Clone, Copy, Debug, PartialEq, Eq, Structural)]
pub struct Num {
    pub bits: u64,
}

pub open spec fn spec_num(bits: u64) -> Num {
    Num { bits }
}

/// The number with these bits.
#[verifier::when_used_as_spec(spec_num)]
pub fn num(bits: u64) -> (r: Num)
    ensures
        r == spec_num(bits),
{
    Num { bits }
}

/// The bits of 0.0.
pub const ZERO: u64 = 0;

/// The bits of 1.0.
pub const ONE: u64 = 0x3FF0_0000_0000_0000;

impl Num {
    /// The bits without the sign.
    pub open spec fn magnitude(self) -> int {
        if self.bits >= SIGN {
            self.bits - SIGN
        } else {
            self.bits as int
        }
    }

    pub open spec fn spec_is_nan(self) -> bool {
        self.magnitude() > INFINITY_BITS
    }

    /// The place of the number in the order of all numbers; both zeros share a place.
    pub open spec fn rank(self) -> int {
        if self.bits >= SIGN {
            -self.magnitude()
        } else {
            self.magnitude()
        }
    }

    pub open spec fn is_lt(self, other: Num) -> bool {
        !self.spec_is_nan() && !other.spec_is_nan() && self.rank() < other.rank()
    }

    pub open spec fn is_le(self, other: Num) -> bool {
        !self.spec_is_nan() && !other.spec_is_nan() && self.rank() <= other.rank()
    }

    #[verifier::when_used_as_spec(spec_is_nan)]
    pub fn is_nan(self) -> (r: bool)
        ensures
            r == self.spec_is_nan(),
    {
        if self.bits >= SIGN {
            self.bits - SIGN > INFINITY_BITS
        } else {
            self.bits > INFINITY_BITS
        }
    }

    pub open spec fn spec_is_finite(self) -> bool {
        self.magnitude() < INFINITY_BITS
    }

    #[verifier::when_used_as_spec(spec_is_finite)]
    pub fn is_finite(self) -> (r: bool)
        ensures
            r == self.spec_is_finite(),
    {
        if self.bits >= SIGN {
            self.bits - SIGN < INFINITY_BITS
        } else {
            self.bits < INFINITY_BITS
        }
    }

    /// `self < other`, false when either is not a number.
    #[verifier::when_used_as_spec(is_lt)]
    pub fn lt(self, other: Num) -> (r: bool)
        ensures
            r == self.is_lt(other),
    {
        if self.is_nan() || other.is_nan() {
            return false;
        }
        if self.bits >= SIGN {
            if other.bits >= SIGN {
                self.bits > other.bits
            } else {
                self.bits > SIGN || other.bits > 0
            }
        } else {
            other.bits < SIGN && self.bits < other.bits
        }
    }

    /// `self <= other`, false when either is not a number.
    #[verifier::when_used_as_spec(is_le)]
    pub fn le(self, other: Num) -> (r: bool)
        ensures
            r == self.is_le(other),
    {
        !self.is_nan() && !other.is_nan() && !other.lt(self)
    }

    pub open spec fn is_gt(self, other: Num) -> bool {
        other.is_lt(self)
    }

    pub open spec fn is_ge(self, other: Num) -> bool {
        other.is_le(self)
    }

    /// `self > other`, false when either is not a number.
    #[verifier::when_used_as_spec(is_gt)]
    pub fn gt(self, other: Num) -> (r: bool)
        ensures
            r == self.is_gt(other),
    {
        other.lt(self)
    }

    /// `self >= other`, false when either is not a number.
    #[verifier::when_used_as_spec(is_ge)]
    pub fn ge(self, other: Num) -> (r: bool)
        ensures
            r == self.is_ge(other),
    {
        other.le(self)
    }

    pub open spec fn spec_abs(self) -> Num {
        Num { bits: self.magnitude() as u64 }
    }

    /// The number without its sign.
    #[verifier::when_used_as_spec(spec_abs)]
    pub fn abs(self) -> (r: Num)
        ensures
            r == self.spec_abs(),
    {
        if self.bits >= SIGN {
            Num { bits: self.bits - SIGN }
        } else {
            self
        }
    }

    pub open spec fn spec_negate(self) -> Num {
        if self.bits >= SIGN {
            Num { bits: (self.bits - SIGN) as u64 }
        } else {
            Num { bits: (self.bits + SIGN) as u64 }
        }
    }

    /// The number with its sign turned.
    #[verifier::when_used_as_spec(spec_negate)]
    pub fn negate(self) -> (r: Num)
        ensures
            r == self.spec_negate(),
    {
        if self.bits >= SIGN {
            Num { bits: self.bits - SIGN }
        } else {
            Num { bits: self.bits + SIGN }
        }
    }
}

/// The larger of two numbers; what is not a number gives way.
pub open spec fn larger(a: Num, b: Num) -> Num {
    if a.spec_is_nan() || a.is_lt(b) {
        b
    } else {
        a
    }
}

pub fn num_max(a: Num, b: Num) -> (r: Num)
    ensures
        r == larger(a, b),
{
    if a.is_nan() || a.lt(b) {
        b
    } else {
        a
    }
}

/// The smaller of two numbers; what is not a number gives way.
pub open spec fn smaller(a: Num, b: Num) -> Num {
    if a.spec_is_nan() || b.is_lt(a) {
        b
    } else {
        a
    }
}

pub fn num_min(a: Num, b: Num) -> (r: Num)
    ensures
        r == smaller(a, b),
{
    if a.is_nan() || b.lt(a) {
        b
    } else {
        a
    }
}

/// The number, held to `lo..=hi`; what is not a number stays as it is.
pub open spec fn held(x: Num, lo: Num, hi: Num) -> Num {
    if x.is_lt(lo) {
        lo
    } else if x.is_gt(hi) {
        hi
    } else {
        x
    }
}

pub fn num_clamp(x: Num, lo: Num, hi: Num) -> (r: Num)
    ensures
        r == held(x, lo, hi),
{
    if x.lt(lo) {
        lo
    } else if x.gt(hi) {
        hi
    } else {
        x
    }
}

/// An operation on doubles. `Round` (to the nearest integer, halves away from zero),
/// `Floor` and the conversions read the first operand only; `FromSigned` and
/// `FromUnsigned` take its bits for those of a 64-bit integer, and the bits that
/// `ToSigned` and `ToUnsigned` give are those of the integer, cut toward zero and held to
/// its range.
#[derive(Clone, Copy, Debug, PartialEq, Eq, Structural)]
pub enum Op {
    Plus,
    Minus,
    Times,
    Over,
    Round,
    Floor,
    FromSigned,
    FromUnsigned,
    ToSigned,
    ToUnsigned,
}

/// The arithmetic as contracts speak of it: the result of each operation.
pub struct Calc {
    pub result: spec_fn(Op, Num, Num) -> Num,
}

impl Calc {
    pub open spec fn plus(self, a: Num, b: Num) -> Num {
        (self.result)(Op::Plus, a, b)
    }

    pub open spec fn minus(self, a: Num, b: Num) -> Num {
        (self.result)(Op::Minus, a, b)
    }

    pub open spec fn times(self, a: Num, b: Num) -> Num {
        (self.result)(Op::Times, a, b)
    }

    pub open spec fn over(self, a: Num, b: Num) -> Num {
        (self.result)(Op::Over, a, b)
    }

    pub open spec fn round(self, a: Num) -> Num {
        (self.result)(Op::Round, a, a)
    }

    pub open spec fn floor(self, a: Num) -> Num {
        (self.result)(Op::Floor, a, a)
    }

    pub open spec fn from_signed(self, i: i64) -> Num {
        (self.result)(Op::FromSigned, num(i as u64), num(i as u64))
    }

    pub open spec fn from_unsigned(self, i: u64) -> Num {
        (self.result)(Op::FromUnsigned, num(i), num(i))
    }

    pub open spec fn to_signed(self, a: Num) -> i64 {
        (self.result)(Op::ToSigned, a, a).bits as i64
    }

    pub open spec fn to_unsigned(self, a: Num) -> u64 {
        (self.result)(Op::ToUnsigned, a, a).bits
    }
}

/// A floating-point unit: a function from an operation and its operands to the result.
/// Its view is the arithmetic that the function computes.
pub struct Arith<F: Fn(Op, Num, Num) -> Num> {
    unit: F,
}

/// `f` answers every operation.
pub open spec fn answers_all<F: Fn(Op, Num, Num) -> Num>(f: F) -> bool {
    forall|op: Op, a: Num, b: Num| call_requires(f, (op, a, b))
}

/// `f` gives one result for one operation on the same operands.
pub open spec fn single_valued<F: Fn(Op, Num, Num) -> Num>(f: F) -> bool {
    forall|op: Op, a: Num, b: Num, r1: Num, r2: Num|
        #[trigger] call_ensures(f, (op, a, b), r1) && #[trigger] call_ensures(f, (op, a, b), r2)
            ==> r1 == r2
}

impl<F: Fn(Op, Num, Num) -> Num> View for Arith<F> {
    type V = Calc;

    closed spec fn view(&self) -> Calc {
        Calc {
            result: |op: Op, a: Num, b: Num|
                choose|r: Num| call_ensures(self.unit, (op, a, b), r),
        }
    }
}

impl<F: Fn(Op, Num, Num) -> Num> Arith<F> {
    #[verifier::type_invariant]
    closed spec fn well_formed(self) -> bool {
        answers_all(self.unit) && single_valued(self.unit)
    }

    /// The function that computes.
    pub closed spec fn function(self) -> F {
        self.unit
    }

    pub fn new(unit: F) -> (r: Self)
        requires
            answers_all(unit),
            single_valued(unit),
        ensures
            r.function() == unit,
            forall|op: Op, a: Num, b: Num, x: Num|
                #[trigger] call_ensures(unit, (op, a, b), x) ==> x == (r@.result)(op, a, b),
    {
        Arith { unit }
    }

    /// Runs one operation.
    pub fn apply(&self, op: Op, a: Num, b: Num) -> (r: Num)
        ensures
            r == (self@.result)(op, a, b),
            call_ensures(self.function(), (op, a, b), r),
    {
        proof {
            use_type_invariant(self);
        }
        (self.unit)(op, a, b)
    }

    pub fn plus(&self, a: Num, b: Num) -> (r: Num)
        ensures
            r == self@.plus(a, b),
    {
        self.apply(Op::Plus, a, b)
    }

    pub fn minus(&self, a: Num, b: Num) -> (r: Num)
        ensures
            r == self@.minus(a, b),
    {
        self.apply(Op::Minus, a, b)
    }

    pub fn times(&self, a: Num, b: Num) -> (r: Num)
        ensures
            r == self@.times(a, b),
    {
        self.apply(Op::Times, a, b)
    }

    pub fn over(&self, a: Num, b: Num) -> (r: Num)
        ensures
            r == self@.over(a, b),
    {
        self.apply(Op::Over, a, b)
    }

    /// The nearest integer, halves away from zero.
    pub fn round(&self, a: Num) -> (r: Num)
        ensures
            r == self@.round(a),
    {
        self.apply(Op::Round, a, a)
    }

    /// The largest integer that is not above `a`.
    pub fn floor(&self, a: Num) -> (r: Num)
        ensures
            r == self@.floor(a),
    {
        self.apply(Op::Floor, a, a)
    }

    /// The double nearest to a signed integer.
    pub fn from_signed(&self, i: i64) -> (r: Num)
        ensures
            r == self@.from_signed(i),
    {
        let bits: u64 = #[verifier::truncate] (i as u64);
        self.apply(Op::FromSigned, num(bits), num(bits))
    }

    /// The double nearest to an unsigned integer.
    pub fn from_unsigned(&self, i: u64) -> (r: Num)
        ensures
            r == self@.from_unsigned(i),
    {
        self.apply(Op::FromUnsigned, num(i), num(i))
    }

    /// The integer part, held to the range of the type.
    pub fn to_signed(&self, a: Num) -> (r: i64)
        ensures
            r == self@.to_signed(a),
    {
        let bits: u64 = self.apply(Op::ToSigned, a, a).bits;
        #[verifier::truncate] (bits as i64)
    }

    /// The integer part, held to the range of the type.
    pub fn to_unsigned(&self, a: Num) -> (r: u64)
        ensures
            r == self@.to_unsigned(a),
    {
        self.apply(Op::ToUnsigned, a, a).bits
    }
}

/// Reads numbers from text: a function that gives the number a text writes, if it writes
/// one. The view is that function.
pub struct Reader<P: Fn(String) -> Option<Num>> {
    unit: P,
}

/// `f` answers for every text, and alike for texts of the same characters.
pub open spec fn reads_all<P: Fn(String) -> Option<Num>>(f: P) -> bool {
    &&& forall|t: String| call_requires(f, (t,))
    &&& forall|t1: String, t2: String, r1: Option<Num>, r2: Option<Num>|
        t1@ == t2@ && #[trigger] call_ensures(f, (t1,), r1) && #[trigger] call_ensures(
            f,
            (t2,),
            r2,
        ) ==> r1 == r2
}

impl<P: Fn(String) -> Option<Num>> View for Reader<P> {
    type V = spec_fn(Seq<char>) -> Option<Num>;

    closed spec fn view(&self) -> spec_fn(Seq<char>) -> Option<Num> {
        |s: Seq<char>|
            {
                let (t, r) = choose|t: String, r: Option<Num>|
                    t@ == s && call_ensures(self.unit, (t,), r);
                r
            }
    }
}

impl<P: Fn(String) -> Option<Num>> Reader<P> {
    #[verifier::type_invariant]
    closed spec fn well_formed(self) -> bool {
        reads_all(self.unit)
    }

    pub fn new(unit: P) -> (r: Self)
        requires
            reads_all(unit),
        ensures
            forall|t: String, x: Option<Num>| #[trigger]
                call_ensures(unit, (t,), x) ==> x == (r@)(t@),
    {
        Reader { unit }
    }

    /// The number that a text writes.
    pub fn read(&self, text: String) -> (r: Option<Num>)
        ensures
            r == (self@)(text@),
    {
        proof {
            use_type_invariant(self);
        }
        (self.unit)(text)
    }
}

/// How a number is written.
#[derive(Clone, Copy, Debug, PartialEq, Eq, Structural)]
pub enum Layout {
    /// The shortest text that reads back as the number.
    Plain,
    /// With so many decimals.
    Fixed(u8),
    /// With so many decimals and a sign in any case.
    Signed(u8),
}

/// Writes numbers: a function from a number and a layout to text. The view gives the
/// characters of the text.
pub struct Writer<W: Fn(Num, Layout) -> String> {
    unit: W,
}

/// `f` writes every number, always alike.
pub open spec fn writes_all<W: Fn(Num, Layout) -> String>(f: W) -> bool {
    &&& forall|x: Num, l: Layout| call_requires(f, (x, l))
    &&& forall|x: Num, l: Layout, r1: String, r2: String|
        #[trigger] call_ensures(f, (x, l), r1) && #[trigger] call_ensures(f, (x, l), r2) ==> r1@
            == r2@
}

impl<W: Fn(Num, Layout) -> String> View for Writer<W> {
    type V = spec_fn(Num, Layout) -> Seq<char>;

    closed spec fn view(&self) -> spec_fn(Num, Layout) -> Seq<char> {
        |x: Num, l: Layout|
            {
                let r = choose|r: String| call_ensures(self.unit, (x, l), r);
                r@
            }
    }
}

impl<W: Fn(Num, Layout) -> String> Writer<W> {
    #[verifier::type_invariant]
    closed spec fn well_formed(self) -> bool {
        writes_all(self.unit)
    }

    pub fn new(unit: W) -> (r: Self)
        requires
            writes_all(unit),
        ensures
            forall|x: Num, l: Layout, t: String| #[trigger]
                call_ensures(unit, (x, l), t) ==> t@ == (r@)(x, l),
    {
        Writer { unit }
    }

    /// The text of a number.
    pub fn write(&self, x: Num, layout: Layout) -> (r: String)
        ensures
            r@ == (self@)(x, layout),
    {
        proof {
            use_type_invariant(self);
        }
        (self.unit)(x, layout)
    }
}

} // verus!

//! The latest token prices, and their sum.

use vstd::prelude::*;

use crate::num::{num, Arith, Calc, Num, Op, INFINITY_BITS, ONE, ZERO};
use crate::signal::Signal;
use crate::types::{BinanceTick, CycleContext, PolyTick, Side};

verus! {

/// `new` when it is positive, else `known`.
pub open spec fn positive_or(new: Num, known: Num) -> Num {
    if new.gt(num(ZERO)) {
        new
    } else {
        known
    }
}

/// The most recent positive UP and DOWN prices and the latest timestamp. They outlive the
/// cycle.
#[derive(Clone, Copy, Debug)]
pub struct LatestPolySignal {
    pub up: Num,
    pub dn: Num,
    pub ts: Num,
    /// Best bid and ask of the UP token; zero means never observed.
    pub up_bid: Num,
    pub up_ask: Num,
}

impl Default for LatestPolySignal {
    fn default() -> (r: Self)
        ensures
            r == LatestPolySignal::blank(),
    {
        Self::new()
    }
}

impl LatestPolySignal {
    pub open spec fn blank() -> Self {
        LatestPolySignal {
            up: num(ZERO),
            dn: num(ZERO),
            ts: num(ZERO),
            up_bid: num(ZERO),
            up_ask: num(ZERO),
        }
    }

    pub fn new() -> (r: Self)
        ensures
            r == LatestPolySignal::blank(),
    {
        LatestPolySignal {
            up: num(ZERO),
            dn: num(ZERO),
            ts: num(ZERO),
            up_bid: num(ZERO),
            up_ask: num(ZERO),
        }
    }

    pub fn up(&self) -> (r: Num)
        ensures
            r == self.up,
    {
        self.up
    }

    pub fn dn(&self) -> (r: Num)
        ensures
            r == self.dn,
    {
        self.dn
    }

    pub open spec fn price_of(&self, side: Side) -> Num {
        match side {
            Side::Up => self.up,
            Side::Down => self.dn,
        }
    }

    /// The best bid for a side, if ever observed. A DOWN token and an UP token make one
    /// unit of collateral, so the DOWN bid is one minus the UP ask.
    pub fn best_bid<F: Fn(Op, Num, Num) -> Num>(&self, side: Side, arith: &Arith<F>) -> (r: Option<
        Num,
    >)
        ensures
            r == match side {
                Side::Up => if self.up_bid.gt(num(ZERO)) {
                    Some(self.up_bid)
                } else {
                    None
                },
                Side::Down => if self.up_ask.gt(num(ZERO)) {
                    Some(arith@.minus(num(ONE), self.up_ask))
                } else {
                    None
                },
            },
    {
        match side {
            Side::Up => {
                if self.up_bid.gt(num(ZERO)) {
                    Some(self.up_bid)
                } else {
                    None
                }
            },
            Side::Down => {
                if self.up_ask.gt(num(ZERO)) {
                    Some(arith.minus(num(ONE), self.up_ask))
                } else {
                    None
                }
            },
        }
    }

    /// The best ask for a side, if ever observed; the DOWN ask is one minus the UP bid.
    pub fn best_ask<F: Fn(Op, Num, Num) -> Num>(&self, side: Side, arith: &Arith<F>) -> (r: Option<
        Num,
    >)
        ensures
            r == match side {
                Side::Up => if self.up_ask.gt(num(ZERO)) {
                    Some(self.up_ask)
                } else {
                    None
                },
                Side::Down => if self.up_bid.gt(num(ZERO)) {
                    Some(arith@.minus(num(ONE), self.up_bid))
                } else {
                    None
                },
            },
    {
        match side {
            Side::Up => {
                if self.up_ask.gt(num(ZERO)) {
                    Some(self.up_ask)
                } else {
                    None
                }
            },
            Side::Down => {
                if self.up_bid.gt(num(ZERO)) {
                    Some(arith.minus(num(ONE), self.up_bid))
                } else {
                    None
                }
            },
        }
    }

    pub open spec fn age_at(self, now: Num, calc: Calc) -> Num {
        if self.ts.gt(num(ZERO)) {
            calc.minus(now, self.ts)
        } else {
            num(INFINITY_BITS)
        }
    }

    /// Seconds since the last tick, infinite when there was none.
    pub fn age<F: Fn(Op, Num, Num) -> Num>(&self, now: Num, arith: &Arith<F>) -> (r: Num)
        ensures
            r == self.age_at(now, arith@),
    {
        if self.ts.gt(num(ZERO)) {
            arith.minus(now, self.ts)
        } else {
            num(INFINITY_BITS)
        }
    }
}

impl Signal for LatestPolySignal {
    open spec fn name_text(&self) -> Seq<char> {
        "latest_poly"@
    }

    open spec fn after_reset(self, ctx: CycleContext) -> Self {
        self
    }

    open spec fn after_binance(self, t: BinanceTick) -> Self {
        self
    }

    open spec fn after_poly(self, t: PolyTick, calc: Calc) -> Self {
        LatestPolySignal {
            up: positive_or(t.up, self.up),
            dn: positive_or(t.dn, self.dn),
            ts: if t.ts.gt(self.ts) {
                t.ts
            } else {
                self.ts
            },
            up_bid: positive_or(t.up_bid, self.up_bid),
            up_ask: positive_or(t.up_ask, self.up_ask),
        }
    }

    fn name(&self) -> &'static str {
        "latest_poly"
    }

    fn reset(&mut self, _ctx: &CycleContext) {
    }

    fn on_binance(&mut self, _t: BinanceTick) {
    }

    fn on_poly<F: Fn(Op, Num, Num) -> Num>(&mut self, t: PolyTick, _arith: &Arith<F>) {
        if t.up.gt(num(ZERO)) {
            self.up = t.up;
        }
        if t.dn.gt(num(ZERO)) {
            self.dn = t.dn;
        }
        if t.up_bid.gt(num(ZERO)) {
            self.up_bid = t.up_bid;
        }
        if t.up_ask.gt(num(ZERO)) {
            self.up_ask = t.up_ask;
        }
        if t.ts.gt(self.ts) {
            self.ts = t.ts;
        }
    }
}

/// The sum of the latest UP and DOWN prices.
#[derive(Clone, Copy, Debug)]
pub struct SpreadSignal {
    pub up: Num,
    pub dn: Num,
}

impl Default for SpreadSignal {
    fn default() -> (r: Self)
        ensures
            r == (SpreadSignal { up: num(ZERO), dn: num(ZERO) }),
    {
        Self::new()
    }
}

impl SpreadSignal {
    pub fn new() -> (r: Self)
        ensures
            r == (SpreadSignal { up: num(ZERO), dn: num(ZERO) }),
    {
        SpreadSignal { up: num(ZERO), dn: num(ZERO) }
    }

    pub open spec fn total(self, calc: Calc) -> Num {
        calc.plus(self.up, self.dn)
    }

    pub fn value<F: Fn(Op, Num, Num) -> Num>(&self, arith: &Arith<F>) -> (r: Num)
        ensures
            r == self.total(arith@),
    {
        arith.plus(self.up, self.dn)
    }
}

impl Signal for SpreadSignal {
    open spec fn name_text(&self) -> Seq<char> {
        "spread"@
    }

    open spec fn after_reset(self, ctx: CycleContext) -> Self {
        self
    }

    open spec fn after_binance(self, t: BinanceTick) -> Self {
        self
    }

    open spec fn after_poly(self, t: PolyTick, calc: Calc) -> Self {
        SpreadSignal { up: positive_or(t.up, self.up), dn: positive_or(t.dn, self.dn) }
    }

    fn name(&self) -> &'static str {
        "spread"
    }

    fn reset(&mut self, _ctx: &CycleContext) {
    }

    fn on_binance(&mut self, _t: BinanceTick) {
    }

    fn on_poly<F: Fn(Op, Num, Num) -> Num>(&mut self, t: PolyTick, _arith: &Arith<F>) {
        if t.up.gt(num(ZERO)) {
            self.up = t.up;
        }
        if t.dn.gt(num(ZERO)) {
            self.dn = t.dn;
        }
    }
}

} // verus!

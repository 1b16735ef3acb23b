//! The relative move of the Binance price since the cycle opened.

use vstd::prelude::*;

use crate::num::{num, Arith, Calc, Num, Op, ZERO};
use crate::signal::Signal;
use crate::types::{BinanceTick, CycleContext, PolyTick};

verus! {

/// `(latest - open) / open`, zero until both prices are known.
#[derive(Clone, Copy, Debug)]
pub struct DeltaPctSignal {
    pub price: Num,
    pub open: Num,
}

impl Default for DeltaPctSignal {
    fn default() -> (r: Self)
        ensures
            r == (DeltaPctSignal { price: num(ZERO), open: num(ZERO) }),
    {
        Self::new()
    }
}

impl DeltaPctSignal {
    pub fn new() -> (r: Self)
        ensures
            r == (DeltaPctSignal { price: num(ZERO), open: num(ZERO) }),
    {
        DeltaPctSignal { price: num(ZERO), open: num(ZERO) }
    }

    pub open spec fn delta(self, calc: Calc) -> Num {
        if self.price.le(num(ZERO)) || self.open.le(num(ZERO)) {
            num(ZERO)
        } else {
            calc.over(calc.minus(self.price, self.open), self.open)
        }
    }

    pub fn value<F: Fn(Op, Num, Num) -> Num>(&self, arith: &Arith<F>) -> (r: Num)
        ensures
            r == self.delta(arith@),
    {
        if self.price.le(num(ZERO)) || self.open.le(num(ZERO)) {
            return num(ZERO);
        }
        arith.over(arith.minus(self.price, self.open), self.open)
    }
}

impl Signal for DeltaPctSignal {
    open spec fn name_text(&self) -> Seq<char> {
        "delta_pct"@
    }

    open spec fn after_reset(self, ctx: CycleContext) -> Self {
        DeltaPctSignal { price: num(ZERO), open: ctx.open_binance }
    }

    open spec fn after_binance(self, t: BinanceTick) -> Self {
        DeltaPctSignal {
            price: if t.price.gt(num(ZERO)) {
                t.price
            } else {
                self.price
            },
            open: self.open,
        }
    }

    open spec fn after_poly(self, t: PolyTick, calc: Calc) -> Self {
        self
    }

    fn name(&self) -> &'static str {
        "delta_pct"
    }

    /// The price is forgotten, so that a tick of the last cycle cannot pass for one of
    /// this cycle.
    fn reset(&mut self, ctx: &CycleContext) {
        self.open = ctx.open_binance;
        self.price = num(ZERO);
    }

    fn on_binance(&mut self, t: BinanceTick) {
        if t.price.gt(num(ZERO)) {
            self.price = t.price;
        }
    }

    fn on_poly<F: Fn(Op, Num, Num) -> Num>(&mut self, _t: PolyTick, _arith: &Arith<F>) {
    }
}

} // verus!

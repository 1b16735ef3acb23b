//! The latest Binance price.

use vstd::prelude::*;

use crate::num::{num, Arith, Calc, Num, Op, ZERO};
use crate::signal::Signal;
use crate::types::{BinanceTick, CycleContext, PolyTick};

verus! {

/// The latest positive price and its time. They outlive the cycle.
#[derive(Clone, Copy, Debug)]
pub struct LatestBinanceSignal {
    pub price: Num,
    pub ts: Num,
}

impl LatestBinanceSignal {
    pub fn new() -> (r: Self)
        ensures
            r == (LatestBinanceSignal { price: num(ZERO), ts: num(ZERO) }),
    {
        LatestBinanceSignal { price: num(ZERO), ts: num(ZERO) }
    }

    pub fn value(&self) -> (r: Num)
        ensures
            r == self.price,
    {
        self.price
    }
}

impl Signal for LatestBinanceSignal {
    open spec fn name_text(&self) -> Seq<char> {
        "latest_binance"@
    }

    open spec fn after_reset(self, ctx: CycleContext) -> Self {
        self
    }

    open spec fn after_binance(self, t: BinanceTick) -> Self {
        if t.price.gt(num(ZERO)) {
            LatestBinanceSignal { price: t.price, ts: t.ts }
        } else {
            self
        }
    }

    open spec fn after_poly(self, t: PolyTick, calc: Calc) -> Self {
        self
    }

    fn name(&self) -> &'static str {
        "latest_binance"
    }

    fn reset(&mut self, _ctx: &CycleContext) {
    }

    fn on_binance(&mut self, t: BinanceTick) {
        if t.price.gt(num(ZERO)) {
            self.price = t.price;
            self.ts = t.ts;
        }
    }

    fn on_poly<F: Fn(Op, Num, Num) -> Num>(&mut self, _t: PolyTick, _arith: &Arith<F>) {
    }
}

} // verus!

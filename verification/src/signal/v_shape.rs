//! A two-stage latch on one side's token: first a high, then a dip after it.

use vstd::prelude::*;

use crate::num::{num, Arith, Calc, Num, Op, ZERO};
use crate::signal::Signal;
use crate::types::{BinanceTick, CycleContext, PolyTick, Side};

verus! {

/// `seen_high` latches once the price reaches `high1`; `seen_low_after_high` once it then
/// dips to `low`. Both hold until the next cycle. There is no time window: the strategy
/// that reads the latch owns that.
#[derive(Clone, Copy, Debug)]
pub struct VShapeSignal {
    pub side: Side,
    pub high1: Num,
    pub low: Num,
    pub seen_high: bool,
    pub seen_low_after_high: bool,
}

impl VShapeSignal {
    pub open spec fn fresh(side: Side, high1: Num, low: Num) -> Self {
        VShapeSignal { side, high1, low, seen_high: false, seen_low_after_high: false }
    }

    pub fn new_up(high1: Num, low: Num) -> (r: Self)
        ensures
            r == VShapeSignal::fresh(Side::Up, high1, low),
    {
        VShapeSignal { side: Side::Up, high1, low, seen_high: false, seen_low_after_high: false }
    }

    pub fn new_dn(high1: Num, low: Num) -> (r: Self)
        ensures
            r == VShapeSignal::fresh(Side::Down, high1, low),
    {
        VShapeSignal { side: Side::Down, high1, low, seen_high: false, seen_low_after_high: false }
    }

    /// The high and the dip after it were both seen in this cycle.
    pub fn dipped_after_high(&self) -> (r: bool)
        ensures
            r == self.seen_low_after_high,
    {
        self.seen_low_after_high
    }
}

impl Signal for VShapeSignal {
    open spec fn name_text(&self) -> Seq<char> {
        match self.side {
            Side::Up => "v_shape_up"@,
            Side::Down => "v_shape_dn"@,
        }
    }

    open spec fn after_reset(self, ctx: CycleContext) -> Self {
        VShapeSignal { seen_high: false, seen_low_after_high: false, ..self }
    }

    open spec fn after_binance(self, t: BinanceTick) -> Self {
        self
    }

    open spec fn after_poly(self, t: PolyTick, calc: Calc) -> Self {
        let price = match self.side {
            Side::Up => t.up,
            Side::Down => t.dn,
        };
        let high = self.seen_high || (!price.le(num(ZERO)) && price.ge(self.high1));
        VShapeSignal {
            seen_high: high,
            seen_low_after_high: self.seen_low_after_high || (!price.le(num(ZERO)) && high
                && price.le(self.low)),
            ..self
        }
    }

    fn name(&self) -> &'static str {
        match self.side {
            Side::Up => "v_shape_up",
            Side::Down => "v_shape_dn",
        }
    }

    fn reset(&mut self, _ctx: &CycleContext) {
        self.seen_high = false;
        self.seen_low_after_high = false;
    }

    fn on_binance(&mut self, _t: BinanceTick) {
    }

    fn on_poly<F: Fn(Op, Num, Num) -> Num>(&mut self, t: PolyTick, _arith: &Arith<F>) {
        let price = match self.side {
            Side::Up => t.up,
            Side::Down => t.dn,
        };
        if price.le(num(ZERO)) {
            return ;
        }
        if price.ge(self.high1) {
            self.seen_high = true;
        }
        if self.seen_high && price.le(self.low) {
            self.seen_low_after_high = true;
        }
    }
}

} // verus!

//! A latch on one side's token dipping below a threshold inside a window of the cycle.

use vstd::prelude::*;

use crate::num::{num, Arith, Calc, Num, Op, ZERO};
use crate::signal::Signal;
use crate::types::{BinanceTick, CycleContext, PolyTick, Side};

verus! {

/// Latches when the side's price dips below `low_threshold` while the seconds left in the
/// cycle lie in `[end_time_left, start_time_left]`.
#[derive(Clone, Copy, Debug)]
pub struct SawLowSignal {
    pub side: Side,
    pub low_threshold: Num,
    pub start_time_left: Num,
    pub end_time_left: Num,
    pub fired: bool,
    pub cycle_end_ts: Num,
}

impl SawLowSignal {
    pub open spec fn fresh(
        side: Side,
        low_threshold: Num,
        start_time_left: Num,
        end_time_left: Num,
    ) -> Self {
        SawLowSignal {
            side,
            low_threshold,
            start_time_left,
            end_time_left,
            fired: false,
            cycle_end_ts: num(ZERO),
        }
    }

    pub fn new_up(low_threshold: Num, start_time_left: Num, end_time_left: Num) -> (r: Self)
        ensures
            r == SawLowSignal::fresh(Side::Up, low_threshold, start_time_left, end_time_left),
    {
        SawLowSignal {
            side: Side::Up,
            low_threshold,
            start_time_left,
            end_time_left,
            fired: false,
            cycle_end_ts: num(ZERO),
        }
    }

    pub fn new_dn(low_threshold: Num, start_time_left: Num, end_time_left: Num) -> (r: Self)
        ensures
            r == SawLowSignal::fresh(Side::Down, low_threshold, start_time_left, end_time_left),
    {
        SawLowSignal {
            side: Side::Down,
            low_threshold,
            start_time_left,
            end_time_left,
            fired: false,
            cycle_end_ts: num(ZERO),
        }
    }

    pub fn saw_low(&self) -> (r: bool)
        ensures
            r == self.fired,
    {
        self.fired
    }

    /// The tick is a dip inside the window.
    pub open spec fn is_dip(self, t: PolyTick, calc: Calc) -> bool {
        let time_left = calc.minus(self.cycle_end_ts, t.ts);
        let price = match self.side {
            Side::Up => t.up,
            Side::Down => t.dn,
        };
        &&& self.end_time_left.le(time_left)
        &&& time_left.le(self.start_time_left)
        &&& price.gt(num(ZERO))
        &&& price.lt(self.low_threshold)
    }
}

impl Signal for SawLowSignal {
    open spec fn name_text(&self) -> Seq<char> {
        match self.side {
            Side::Up => "saw_low_up"@,
            Side::Down => "saw_low_dn"@,
        }
    }

    open spec fn after_reset(self, ctx: CycleContext) -> Self {
        SawLowSignal { fired: false, cycle_end_ts: ctx.end_ts, ..self }
    }

    open spec fn after_binance(self, t: BinanceTick) -> Self {
        self
    }

    open spec fn after_poly(self, t: PolyTick, calc: Calc) -> Self {
        SawLowSignal { fired: self.fired || self.is_dip(t, calc), ..self }
    }

    fn name(&self) -> &'static str {
        match self.side {
            Side::Up => "saw_low_up",
            Side::Down => "saw_low_dn",
        }
    }

    fn reset(&mut self, ctx: &CycleContext) {
        self.fired = false;
        self.cycle_end_ts = ctx.end_ts;
    }

    fn on_binance(&mut self, _t: BinanceTick) {
    }

    fn on_poly<F: Fn(Op, Num, Num) -> Num>(&mut self, t: PolyTick, arith: &Arith<F>) {
        if self.fired {
            return ;
        }
        let time_left = arith.minus(self.cycle_end_ts, t.ts);
        if !(self.end_time_left.le(time_left) && time_left.le(self.start_time_left)) {
            return ;
        }
        let price = match self.side {
            Side::Up => t.up,
            Side::Down => t.dn,
        };
        if price.gt(num(ZERO)) && price.lt(self.low_threshold) {
            self.fired = true;
        }
    }
}

} // verus!

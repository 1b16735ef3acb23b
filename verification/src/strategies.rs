//! Entry strategies: pure decisions over the signals.
//!
//! The checks that all strategies share stand in `gates`.

use vstd::prelude::*;

use crate::num::{num, Arith, Calc, Num, Op, ZERO};
use crate::signal::{
    DeltaPctSignal, LatestBinanceSignal, LatestPolySignal, SawLowSignal, VShapeSignal,
};
use crate::types::{CycleContext, EntryType, Side, TradeIntent};

verus! {

/// The intent to buy a side at the latest prices.
pub open spec fn intent_for(
    side: Side,
    entry_type: EntryType,
    poly: LatestPolySignal,
    binance: LatestBinanceSignal,
) -> TradeIntent {
    TradeIntent { side, entry_type, up: poly.up, dn: poly.dn, binance_price: binance.price }
}

/// Both token prices are known.
pub open spec fn both_priced(poly: LatestPolySignal) -> bool {
    !poly.up.le(num(ZERO)) && !poly.dn.le(num(ZERO))
}

/// The first side, UP before DOWN, that is ready.
pub open spec fn first_ready(
    up_ready: bool,
    down_ready: bool,
    entry_type: EntryType,
    poly: LatestPolySignal,
    binance: LatestBinanceSignal,
) -> Option<TradeIntent> {
    if up_ready {
        Some(intent_for(Side::Up, entry_type, poly, binance))
    } else if down_ready {
        Some(intent_for(Side::Down, entry_type, poly, binance))
    } else {
        None
    }
}

/// Dip and recover: a side that dipped in its window and now stands above the threshold
/// is bought while Binance has moved its way.
#[derive(Clone, Copy, Debug)]
pub struct ReversalStrategy {
    pub reversal: Num,
    pub no_enter_when_time_left: Num,
    pub fired: bool,
    pub cycle_end_ts: Num,
}

impl ReversalStrategy {
    pub fn new(reversal: Num, no_enter_when_time_left: Num) -> (r: Self)
        ensures
            r == (ReversalStrategy {
                reversal,
                no_enter_when_time_left,
                fired: false,
                cycle_end_ts: num(ZERO),
            }),
    {
        ReversalStrategy {
            reversal,
            no_enter_when_time_left,
            fired: false,
            cycle_end_ts: num(ZERO),
        }
    }

    pub fn reset(&mut self, ctx: &CycleContext)
        ensures
            *final(self) == (ReversalStrategy {
                fired: false,
                cycle_end_ts: ctx.end_ts,
                ..*old(self)
            }),
    {
        self.fired = false;
        self.cycle_end_ts = ctx.end_ts;
    }

    pub fn mark_fired(&mut self)
        ensures
            *final(self) == (ReversalStrategy { fired: true, ..*old(self) }),
    {
        self.fired = true;
    }

    pub open spec fn intent(
        self,
        now: Num,
        saw_low_up: SawLowSignal,
        saw_low_dn: SawLowSignal,
        latest_poly: LatestPolySignal,
        delta_pct: DeltaPctSignal,
        latest_binance: LatestBinanceSignal,
        calc: Calc,
    ) -> Option<TradeIntent> {
        let open = !self.fired && !calc.minus(self.cycle_end_ts, now).lt(
            self.no_enter_when_time_left,
        ) && both_priced(latest_poly);
        let dp = delta_pct.delta(calc);
        first_ready(
            open && saw_low_up.fired && latest_poly.up.gt(self.reversal) && dp.gt(num(ZERO)),
            open && saw_low_dn.fired && latest_poly.dn.gt(self.reversal) && dp.lt(num(ZERO)),
            EntryType::Reversal,
            latest_poly,
            latest_binance,
        )
    }

    /// The intent at time `now`, if the conditions hold.
    pub fn evaluate<F: Fn(Op, Num, Num) -> Num>(
        &self,
        now: Num,
        saw_low_up: &SawLowSignal,
        saw_low_dn: &SawLowSignal,
        latest_poly: &LatestPolySignal,
        delta_pct: &DeltaPctSignal,
        latest_binance: &LatestBinanceSignal,
        arith: &Arith<F>,
    ) -> (r: Option<TradeIntent>)
        ensures
            r == self.intent(
                now,
                *saw_low_up,
                *saw_low_dn,
                *latest_poly,
                *delta_pct,
                *latest_binance,
                arith@,
            ),
    {
        if self.fired {
            return None;
        }
        let time_left = arith.minus(self.cycle_end_ts, now);
        if time_left.lt(self.no_enter_when_time_left) {
            return None;
        }
        let up = latest_poly.up();
        let dn = latest_poly.dn();
        if up.le(num(ZERO)) || dn.le(num(ZERO)) {
            return None;
        }
        let dp = delta_pct.value(arith);
        let binance_price = latest_binance.value();
        if saw_low_up.saw_low() && up.gt(self.reversal) && dp.gt(num(ZERO)) {
            return Some(
                TradeIntent {
                    side: Side::Up,
                    entry_type: EntryType::Reversal,
                    up,
                    dn,
                    binance_price,
                },
            );
        }
        if saw_low_dn.saw_low() && dn.gt(self.reversal) && dp.lt(num(ZERO)) {
            return Some(
                TradeIntent {
                    side: Side::Down,
                    entry_type: EntryType::Reversal,
                    up,
                    dn,
                    binance_price,
                },
            );
        }
        None
    }
}

/// Buys a side whose token stands strictly inside the band during the entry window, while
/// Binance has moved its way.
#[derive(Clone, Copy, Debug)]
pub struct HighProbStrategy {
    pub price_low: Num,
    pub price_high: Num,
    pub enter_when_time_left: Num,
    pub no_enter_when_time_left: Num,
    pub fired: bool,
    pub cycle_end_ts: Num,
}

impl HighProbStrategy {
    pub fn new(
        price_low: Num,
        price_high: Num,
        enter_when_time_left: Num,
        no_enter_when_time_left: Num,
    ) -> (r: Self)
        ensures
            r == (HighProbStrategy {
                price_low,
                price_high,
                enter_when_time_left,
                no_enter_when_time_left,
                fired: false,
                cycle_end_ts: num(ZERO),
            }),
    {
        HighProbStrategy {
            price_low,
            price_high,
            enter_when_time_left,
            no_enter_when_time_left,
            fired: false,
            cycle_end_ts: num(ZERO),
        }
    }

    pub fn reset(&mut self, ctx: &CycleContext)
        ensures
            *final(self) == (HighProbStrategy {
                fired: false,
                cycle_end_ts: ctx.end_ts,
                ..*old(self)
            }),
    {
        self.fired = false;
        self.cycle_end_ts = ctx.end_ts;
    }

    pub fn mark_fired(&mut self)
        ensures
            *final(self) == (HighProbStrategy { fired: true, ..*old(self) }),
    {
        self.fired = true;
    }

    pub open spec fn in_band(self, price: Num) -> bool {
        self.price_low.lt(price) && price.lt(self.price_high)
    }

    pub open spec fn intent(
        self,
        now: Num,
        latest_poly: LatestPolySignal,
        delta_pct: DeltaPctSignal,
        latest_binance: LatestBinanceSignal,
        calc: Calc,
    ) -> Option<TradeIntent> {
        let time_left = calc.minus(self.cycle_end_ts, now);
        let open = !self.fired && !time_left.gt(self.enter_when_time_left) && !time_left.lt(
            self.no_enter_when_time_left,
        ) && both_priced(latest_poly);
        let dp = delta_pct.delta(calc);
        first_ready(
            open && self.in_band(latest_poly.up) && dp.gt(num(ZERO)),
            open && self.in_band(latest_poly.dn) && dp.lt(num(ZERO)),
            EntryType::HighProb,
            latest_poly,
            latest_binance,
        )
    }

    /// The intent at time `now`, if the conditions hold.
    pub fn evaluate<F: Fn(Op, Num, Num) -> Num>(
        &self,
        now: Num,
        latest_poly: &LatestPolySignal,
        delta_pct: &DeltaPctSignal,
        latest_binance: &LatestBinanceSignal,
        arith: &Arith<F>,
    ) -> (r: Option<TradeIntent>)
        ensures
            r == self.intent(now, *latest_poly, *delta_pct, *latest_binance, arith@),
    {
        if self.fired {
            return None;
        }
        let time_left = arith.minus(self.cycle_end_ts, now);
        if time_left.gt(self.enter_when_time_left) {
            return None;
        }
        if time_left.lt(self.no_enter_when_time_left) {
            return None;
        }
        let up = latest_poly.up();
        let dn = latest_poly.dn();
        if up.le(num(ZERO)) || dn.le(num(ZERO)) {
            return None;
        }
        let dp = delta_pct.value(arith);
        let binance_price = latest_binance.value();
        if self.price_low.lt(up) && up.lt(self.price_high) && dp.gt(num(ZERO)) {
            return Some(
                TradeIntent {
                    side: Side::Up,
                    entry_type: EntryType::HighProb,
                    up,
                    dn,
                    binance_price,
                },
            );
        }
        if self.price_low.lt(dn) && dn.lt(self.price_high) && dp.lt(num(ZERO)) {
            return Some(
                TradeIntent {
                    side: Side::Down,
                    entry_type: EntryType::HighProb,
                    up,
                    dn,
                    binance_price,
                },
            );
        }
        None
    }
}

/// Buys a side whose high-then-dip is latched and whose token has recovered. Binance has
/// no say in it.
#[derive(Clone, Copy, Debug)]
pub struct VShapeStrategy {
    pub v_high2: Num,
    pub no_enter_when_time_left: Num,
    pub fired: bool,
    pub cycle_end_ts: Num,
}

impl VShapeStrategy {
    pub fn new(v_high2: Num, no_enter_when_time_left: Num) -> (r: Self)
        ensures
            r == (VShapeStrategy {
                v_high2,
                no_enter_when_time_left,
                fired: false,
                cycle_end_ts: num(ZERO),
            }),
    {
        VShapeStrategy { v_high2, no_enter_when_time_left, fired: false, cycle_end_ts: num(ZERO) }
    }

    pub fn reset(&mut self, ctx: &CycleContext)
        ensures
            *final(self) == (VShapeStrategy {
                fired: false,
                cycle_end_ts: ctx.end_ts,
                ..*old(self)
            }),
    {
        self.fired = false;
        self.cycle_end_ts = ctx.end_ts;
    }

    pub fn mark_fired(&mut self)
        ensures
            *final(self) == (VShapeStrategy { fired: true, ..*old(self) }),
    {
        self.fired = true;
    }

    pub open spec fn intent(
        self,
        now: Num,
        v_up: VShapeSignal,
        v_dn: VShapeSignal,
        latest_poly: LatestPolySignal,
        latest_binance: LatestBinanceSignal,
        calc: Calc,
    ) -> Option<TradeIntent> {
        let open = !self.fired && !calc.minus(self.cycle_end_ts, now).lt(
            self.no_enter_when_time_left,
        ) && both_priced(latest_poly);
        first_ready(
            open && v_up.seen_low_after_high && latest_poly.up.ge(self.v_high2),
            open && v_dn.seen_low_after_high && latest_poly.dn.ge(self.v_high2),
            EntryType::VShape,
            latest_poly,
            latest_binance,
        )
    }

    /// The intent at time `now`, if the conditions hold.
    pub fn evaluate<F: Fn(Op, Num, Num) -> Num>(
        &self,
        now: Num,
        v_up: &VShapeSignal,
        v_dn: &VShapeSignal,
        latest_poly: &LatestPolySignal,
        latest_binance: &LatestBinanceSignal,
        arith: &Arith<F>,
    ) -> (r: Option<TradeIntent>)
        ensures
            r == self.intent(now, *v_up, *v_dn, *latest_poly, *latest_binance, arith@),
    {
        if self.fired {
            return None;
        }
        let time_left = arith.minus(self.cycle_end_ts, now);
        if time_left.lt(self.no_enter_when_time_left) {
            return None;
        }
        let up = latest_poly.up();
        let dn = latest_poly.dn();
        if up.le(num(ZERO)) || dn.le(num(ZERO)) {
            return None;
        }
        let binance_price = latest_binance.value();
        if v_up.dipped_after_high() && up.ge(self.v_high2) {
            return Some(
                TradeIntent { side: Side::Up, entry_type: EntryType::VShape, up, dn, binance_price },
            );
        }
        if v_dn.dipped_after_high() && dn.ge(self.v_high2) {
            return Some(
                TradeIntent {
                    side: Side::Down,
                    entry_type: EntryType::VShape,
                    up,
                    dn,
                    binance_price,
                },
            );
        }
        None
    }
}

} // verus!

//! Signals: small states fed by ticks and reset at each cycle boundary.

use vstd::prelude::*;

use crate::num::{Arith, Calc, Num, Op};
use crate::types::{BinanceTick, CycleContext, PolyTick};

pub mod delta_pct;
pub mod latest_binance;
pub mod latest_poly;
pub mod saw_low;
pub mod tick_bus;
pub mod v_shape;

pub use delta_pct::DeltaPctSignal;
pub use latest_binance::LatestBinanceSignal;
pub use latest_poly::{LatestPolySignal, SpreadSignal};
pub use saw_low::SawLowSignal;
pub use tick_bus::TickBus;
pub use v_shape::VShapeSignal;

verus! {

/// A state fed by both feeds. What a signal makes of each event is a function of the
/// state and the event.
pub trait Signal: Sized {
    spec fn name_text(&self) -> Seq<char>;

    spec fn after_reset(self, ctx: CycleContext) -> Self;

    spec fn after_binance(self, t: BinanceTick) -> Self;

    spec fn after_poly(self, t: PolyTick, calc: Calc) -> Self;

    fn name(&self) -> (r: &'static str)
        ensures
            r@ == self.name_text(),
    ;

    /// Starts a cycle.
    fn reset(&mut self, ctx: &CycleContext)
        ensures
            *final(self) == old(self).after_reset(*ctx),
    ;

    fn on_binance(&mut self, t: BinanceTick)
        ensures
            *final(self) == old(self).after_binance(t),
    ;

    fn on_poly<F: Fn(Op, Num, Num) -> Num>(&mut self, t: PolyTick, arith: &Arith<F>)
        ensures
            *final(self) == old(self).after_poly(t, arith@),
    ;
}

} // verus!

//! Hands each tick to everybody who asked for its feed.

use vstd::prelude::*;

use crate::num::{Arith, Num, Op};
use crate::signal::Signal;
use crate::types::{BinanceTick, PolyTick};

verus! {

/// The subscribers of the two feeds, each list in the order of subscription.
pub struct TickBus<S: Signal> {
    pub binance: Vec<S>,
    pub poly: Vec<S>,
}

impl<S: Signal> Default for TickBus<S> {
    fn default() -> (r: Self)
        ensures
            r.binance@.len() == 0,
            r.poly@.len() == 0,
    {
        Self::new()
    }
}

impl<S: Signal> TickBus<S> {
    pub fn new() -> (r: Self)
        ensures
            r.binance@.len() == 0,
            r.poly@.len() == 0,
    {
        TickBus { binance: Vec::new(), poly: Vec::new() }
    }

    pub fn subscribe_binance(&mut self, subscriber: S)
        ensures
            final(self).binance@ == old(self).binance@.push(subscriber),
            final(self).poly@ == old(self).poly@,
    {
        self.binance.push(subscriber);
    }

    pub fn subscribe_poly(&mut self, subscriber: S)
        ensures
            final(self).poly@ == old(self).poly@.push(subscriber),
            final(self).binance@ == old(self).binance@,
    {
        self.poly.push(subscriber);
    }

    /// Every subscriber of the Binance feed sees the tick, and no other does.
    pub fn publish_binance(&mut self, t: BinanceTick)
        ensures
            final(self).binance@ == old(self).binance@.map_values(|s: S| s.after_binance(t)),
            final(self).poly@ == old(self).poly@,
    {
        let ghost start = self.binance@;
        let n: usize = self.binance.len();
        let mut i: usize = 0;
        while i < n
            invariant
                i <= n,
                n == self.binance@.len(),
                start.len() == n,
                self.poly@ == old(self).poly@,
                forall|k: int| 0 <= k < i ==> #[trigger] self.binance@[k] == start[k].after_binance(t),
                forall|k: int| i <= k < n ==> #[trigger] self.binance@[k] == start[k],
            decreases n - i,
        {
            self.binance[i].on_binance(t);
            i = i + 1;
        }
        assert(self.binance@ =~= start.map_values(|s: S| s.after_binance(t)));
    }

    /// Every subscriber of the token feed sees the tick, and no other does.
    pub fn publish_poly<F: Fn(Op, Num, Num) -> Num>(&mut self, t: PolyTick, arith: &Arith<F>)
        ensures
            final(self).poly@ == old(self).poly@.map_values(|s: S| s.after_poly(t, arith@)),
            final(self).binance@ == old(self).binance@,
    {
        let ghost start = self.poly@;
        let n: usize = self.poly.len();
        let mut i: usize = 0;
        while i < n
            invariant
                i <= n,
                n == self.poly@.len(),
                start.len() == n,
                self.binance@ == old(self).binance@,
                forall|k: int|
                    0 <= k < i ==> #[trigger] self.poly@[k] == start[k].after_poly(t, arith@),
                forall|k: int| i <= k < n ==> #[trigger] self.poly@[k] == start[k],
            decreases n - i,
        {
            self.poly[i].on_poly(t, arith);
            i = i + 1;
        }
        assert(self.poly@ =~= start.map_values(|s: S| s.after_poly(t, arith@)));
    }
}

} // verus!

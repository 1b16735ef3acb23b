//! Guards on the account's balance.

use vstd::prelude::*;

use crate::num::{num, Arith, Calc, Num, Op, ZERO};

verus! {

/// The bits of 0.25: the part of the baseline that may be lost.
pub const DRAWDOWN_LIMIT: u64 = 0x3FD0_0000_0000_0000;

/// Seconds into each window at which the balance is checked.
pub const CHECK_OFFSET_SECS: u64 = 120;

pub const WINDOW_SECS: u64 = 300;

/// Halts once when the balance has fallen too far below the first one seen.
#[derive(Clone, Copy, Debug)]
pub struct BalanceGuard {
    pub initial_balance: Option<Num>,
    pub halt_fired: bool,
}

impl Default for BalanceGuard {
    fn default() -> (r: Self)
        ensures
            r == (BalanceGuard { initial_balance: None, halt_fired: false }),
    {
        Self::new()
    }
}

impl BalanceGuard {
    pub fn new() -> (r: Self)
        ensures
            r == (BalanceGuard { initial_balance: None, halt_fired: false }),
    {
        BalanceGuard { initial_balance: None, halt_fired: false }
    }

    /// The next balance becomes the baseline, and the guard can halt again.
    pub fn reset_baseline(&mut self)
        ensures
            *final(self) == (BalanceGuard { initial_balance: None, halt_fired: false }),
    {
        self.initial_balance = None;
        self.halt_fired = false;
    }

    /// The balance lies too far below a positive baseline.
    pub open spec fn too_low(self, balance: Num, calc: Calc) -> bool {
        match self.initial_balance {
            Some(initial) => !initial.le(num(ZERO)) && calc.over(
                calc.minus(initial, balance),
                initial,
            ).gt(num(DRAWDOWN_LIMIT)),
            None => false,
        }
    }

    /// The guard halts on this sample.
    pub open spec fn fires(self, balance: Option<Num>, calc: Calc) -> bool {
        match balance {
            Some(b) => !self.halt_fired && self.too_low(b, calc),
            None => false,
        }
    }

    pub open spec fn after_check(self, balance: Option<Num>, calc: Calc) -> Self {
        match balance {
            Some(b) => BalanceGuard {
                initial_balance: match self.initial_balance {
                    Some(initial) => Some(initial),
                    None => Some(b),
                },
                halt_fired: self.halt_fired || self.too_low(b, calc),
            },
            None => self,
        }
    }

    /// Takes a balance; a failed fetch changes nothing. Says whether to halt now.
    pub fn check<F: Fn(Op, Num, Num) -> Num>(&mut self, balance: Option<Num>, arith: &Arith<F>) -> (r:
        bool)
        ensures
            *final(self) == old(self).after_check(balance, arith@),
            r == old(self).fires(balance, arith@),
    {
        let balance = match balance {
            Some(b) => b,
            None => {
                return false;
            },
        };
        let initial = match self.initial_balance {
            Some(initial) => initial,
            None => {
                self.initial_balance = Some(balance);
                return false;
            },
        };
        if initial.le(num(ZERO)) {
            return false;
        }
        let drawdown = arith.over(arith.minus(initial, balance), initial);
        if drawdown.gt(num(DRAWDOWN_LIMIT)) && !self.halt_fired {
            self.halt_fired = true;
            return true;
        }
        false
    }

    pub fn is_halted(&self) -> (r: bool)
        ensures
            r == self.halt_fired,
    {
        self.halt_fired
    }

    pub fn baseline(&self) -> (r: Option<Num>)
        ensures
            r == self.initial_balance,
    {
        self.initial_balance
    }
}

/// The guard after a series of samples.
pub open spec fn after_checks(g: BalanceGuard, samples: Seq<Option<Num>>, calc: Calc) -> BalanceGuard
    decreases samples.len(),
{
    if samples.len() == 0 {
        g
    } else {
        after_checks(g, samples.drop_last(), calc).after_check(samples.last(), calc)
    }
}

/// Between two resets the guard halts at most once: after it has, no sample makes it halt
/// again, and its baseline stays the first balance.
pub proof fn guard_fires_once(
    g: BalanceGuard,
    first: Option<Num>,
    samples: Seq<Option<Num>>,
    next: Option<Num>,
    calc: Calc,
)
    requires
        g.fires(first, calc),
    ensures
        ({
            let then = after_checks(g.after_check(first, calc), samples, calc);
            &&& then.halt_fired
            &&& !then.fires(next, calc)
            &&& then.initial_balance == g.initial_balance
        }),
    decreases samples.len(),
{
    if samples.len() > 0 {
        guard_fires_once(g, first, samples.drop_last(), next, calc);
    }
}

/// Compares each balance with the one before it.
#[derive(Clone, Copy, Debug)]
pub struct GammaBalanceTracker {
    pub last_sample: Option<Num>,
    pub verdict: Option<bool>,
}

impl Default for GammaBalanceTracker {
    fn default() -> (r: Self)
        ensures
            r == (GammaBalanceTracker { last_sample: None, verdict: None }),
    {
        Self::new()
    }
}

impl GammaBalanceTracker {
    pub fn new() -> (r: Self)
        ensures
            r == (GammaBalanceTracker { last_sample: None, verdict: None }),
    {
        GammaBalanceTracker { last_sample: None, verdict: None }
    }

    pub open spec fn after_record(self, balance: Option<Num>) -> Self {
        match balance {
            Some(b) => GammaBalanceTracker {
                last_sample: Some(b),
                verdict: match self.last_sample {
                    Some(prev) => Some(b.gt(prev)),
                    None => None,
                },
            },
            None => GammaBalanceTracker { verdict: None, ..self },
        }
    }

    /// Takes a balance. A failed fetch leaves the verdict open and keeps the last balance.
    pub fn record(&mut self, balance: Option<Num>)
        ensures
            *final(self) == old(self).after_record(balance),
    {
        match balance {
            Some(b) => {
                self.verdict =
                match self.last_sample {
                    Some(prev) => Some(b.gt(prev)),
                    None => None,
                };
                self.last_sample = Some(b);
            },
            None => {
                self.verdict = None;
            },
        }
    }

    /// Whether the balance rose, when that is known.
    pub fn increased(&self) -> (r: Option<bool>)
        ensures
            r == self.verdict,
    {
        self.verdict
    }
}

/// The next time of a check: in the window of `now`, or in the one after it.
pub open spec fn check_time(now: Num, calc: Calc) -> int {
    let first = calc.to_unsigned(now) as int / WINDOW_SECS as int * WINDOW_SECS + CHECK_OFFSET_SECS;
    if calc.from_unsigned(first as u64).le(now) {
        first + WINDOW_SECS
    } else {
        first
    }
}

/// Seconds until the balance is next checked.
pub fn seconds_until_next_check<F: Fn(Op, Num, Num) -> Num>(now: Num, arith: &Arith<F>) -> (r: Num)
    requires
        arith@.to_unsigned(now) as int / WINDOW_SECS as int * WINDOW_SECS + CHECK_OFFSET_SECS
            <= u64::MAX,
        check_time(now, arith@) <= u64::MAX,
    ensures
        r == arith@.minus(arith@.from_unsigned(check_time(now, arith@) as u64), now),
{
    let secs: u64 = arith.to_unsigned(now);
    let window_start: u64 = secs / WINDOW_SECS * WINDOW_SECS;
    let mut at: u64 = window_start + CHECK_OFFSET_SECS;
    if arith.from_unsigned(at).le(now) {
        at = at + WINDOW_SECS;
    }
    arith.minus(arith.from_unsigned(at), now)
}

} // verus!

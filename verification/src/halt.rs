//! The loss streak that halts a strategy for the rest of a session.

use vstd::prelude::*;

use crate::calendar::{in_range, is_in_range, local_date, local_day, number_identifies_date, CivilDate};
use crate::num::{Arith, Calc, Num, Op};
use crate::text::same_text;
use crate::types::{Outcome, TradeRecord};

verus! {

/// Hong Kong is so many seconds east of Greenwich.
pub const HKT_OFFSET: i32 = 28_800;

/// The session of an instant can be told: the instant, and the instant `reset_hour` hours
/// before it, lie in the calendar's range.
pub open spec fn has_session(slug_ts: Num, reset_hour: i64, calc: Calc) -> bool {
    let secs = calc.to_signed(slug_ts) as int;
    in_range(secs, 0) && in_range(secs - 3600 * reset_hour, HKT_OFFSET as int)
}

/// The number of the day, in Hong Kong, of the instant `reset_hour` hours before.
pub open spec fn session_day(slug_ts: Num, reset_hour: i64, calc: Calc) -> int {
    local_day(calc.to_signed(slug_ts) - 3600 * reset_hour, HKT_OFFSET as int)
}

/// `date` is the session of the instant: sessions begin at `reset_hour` in Hong Kong.
pub open spec fn is_session(date: CivilDate, slug_ts: Num, reset_hour: i64, calc: Calc) -> bool {
    date.is_valid() && date.number() == session_day(slug_ts, reset_hour, calc)
}

/// Whether the session of an instant can be told.
pub fn session_is_known<F: Fn(Op, Num, Num) -> Num>(
    slug_ts: Num,
    reset_hour: i64,
    arith: &Arith<F>,
) -> (r: bool)
    ensures
        r == has_session(slug_ts, reset_hour, arith@),
{
    let secs: i128 = arith.to_signed(slug_ts) as i128;
    is_in_range(secs, 0) && is_in_range(secs - 3600 * reset_hour as i128, HKT_OFFSET)
}

/// The session to which an instant belongs.
pub fn hkt_session<F: Fn(Op, Num, Num) -> Num>(
    slug_ts: Num,
    reset_hour: i64,
    arith: &Arith<F>,
) -> (r: CivilDate)
    requires
        has_session(slug_ts, reset_hour, arith@),
    ensures
        is_session(r, slug_ts, reset_hour, arith@),
{
    let secs: i64 = arith.to_signed(slug_ts);
    local_date(secs - 3600 * reset_hour, HKT_OFFSET)
}

/// Counts the losses of one strategy in a session. A maximum of zero never halts.
#[derive(Clone, Copy, Debug)]
pub struct HaltTracker {
    pub max: i64,
    pub reset_hour: i64,
    pub losses: i64,
    pub last_session: Option<CivilDate>,
}

/// The losses that a [`HaltTracker`] counts: a losing resolution or a stop. A position that
/// ran out of time is none, whatever it gained; this is where the rule differs from
/// [`Outcome::is_loss_for_halt`], which counts one that lost money.
pub open spec fn ends_in_loss(outcome: Outcome) -> bool {
    outcome == Outcome::Loss || outcome == Outcome::StopLoss
}

impl HaltTracker {
    pub open spec fn halted(self) -> bool {
        self.max > 0 && self.losses >= self.max
    }

    pub fn new(max: i64, reset_hour: i64) -> (r: Self)
        ensures
            r == (HaltTracker { max, reset_hour, losses: 0, last_session: None }),
    {
        HaltTracker { max, reset_hour, losses: 0, last_session: None }
    }

    /// A tracker with the count and session of an earlier run. The limits come from the
    /// configuration of this run.
    pub fn restore(
        max: i64,
        reset_hour: i64,
        losses: i64,
        last_session: Option<CivilDate>,
    ) -> (r: Self)
        ensures
            r == (HaltTracker { max, reset_hour, losses, last_session }),
    {
        HaltTracker { max, reset_hour, losses, last_session }
    }

    pub fn losses(&self) -> (r: i64)
        ensures
            r == self.losses,
    {
        self.losses
    }

    pub fn last_session(&self) -> (r: Option<CivilDate>)
        ensures
            r == self.last_session,
    {
        self.last_session
    }

    pub fn max(&self) -> (r: i64)
        ensures
            r == self.max,
    {
        self.max
    }

    pub fn reset_hour(&self) -> (r: i64)
        ensures
            r == self.reset_hour,
    {
        self.reset_hour
    }

    /// The session of the instant is the one that was last seen.
    pub open spec fn same_session(self, slug_ts: Num, calc: Calc) -> bool {
        match self.last_session {
            Some(date) => is_session(date, slug_ts, self.reset_hour, calc),
            None => false,
        }
    }

    /// The session of the instant.
    pub open spec fn session_at(self, slug_ts: Num, calc: Calc) -> CivilDate {
        choose|date: CivilDate| is_session(date, slug_ts, self.reset_hour, calc)
    }

    /// The tracker once the session of the instant has begun.
    pub open spec fn in_session(self, slug_ts: Num, calc: Calc) -> Self {
        if self.same_session(slug_ts, calc) {
            self
        } else {
            HaltTracker {
                losses: 0,
                last_session: Some(self.session_at(slug_ts, calc)),
                ..self
            }
        }
    }

    /// Forgets the losses when a new session has begun. Says whether that ended a halt.
    pub fn reset_if_new_session<F: Fn(Op, Num, Num) -> Num>(
        &mut self,
        slug_ts: Num,
        arith: &Arith<F>,
    ) -> (r: bool)
        requires
            has_session(slug_ts, old(self).reset_hour, arith@),
        ensures
            *final(self) == old(self).in_session(slug_ts, arith@),
            final(self).same_session(slug_ts, arith@),
            r == (old(self).halted() && !old(self).same_session(slug_ts, arith@)),
    {
        let session = hkt_session(slug_ts, self.reset_hour, arith);
        proof {
            let chosen = self.session_at(slug_ts, arith@);
            number_identifies_date(session, chosen);
        }
        let same = match self.last_session {
            Some(date) => {
                proof {
                    if is_session(date, slug_ts, self.reset_hour, arith@) {
                        number_identifies_date(session, date);
                    }
                }
                date == session
            },
            None => false,
        };
        if !same {
            let was_halted = self.is_halted();
            self.losses = 0;
            self.last_session = Some(session);
            return was_halted;
        }
        false
    }

    pub fn is_halted(&self) -> (r: bool)
        ensures
            r == self.halted(),
    {
        self.max > 0 && self.losses >= self.max
    }

    /// The tracker after a trade. Only a loss of its own strategy counts; the count stays
    /// at the largest number.
    pub open spec fn after_trade(self, rec: TradeRecord, strategy: Seq<char>) -> Self {
        if rec.strategy@ == strategy && ends_in_loss(rec.outcome) && self.losses < i64::MAX {
            HaltTracker { losses: (self.losses + 1) as i64, ..self }
        } else {
            self
        }
    }

    /// Takes a trade into account. Says whether this very trade began a halt.
    pub fn record_trade(&mut self, rec: &TradeRecord, strategy_name: &str) -> (r: bool)
        ensures
            *final(self) == old(self).after_trade(*rec, strategy_name@),
            r == (!old(self).halted() && final(self).halted()),
    {
        let lost = match rec.outcome {
            Outcome::Loss | Outcome::StopLoss => true,
            _ => false,
        };
        if lost && same_text(rec.strategy, strategy_name) {
            let was_halted = self.is_halted();
            if self.losses < i64::MAX {
                self.losses = self.losses + 1;
            }
            return !was_halted && self.is_halted();
        }
        false
    }
}

/// The tracker after several trades.
pub open spec fn after_trades(h: HaltTracker, trades: Seq<TradeRecord>, strategy: Seq<char>) -> HaltTracker
    decreases trades.len(),
{
    if trades.len() == 0 {
        h
    } else {
        after_trades(h, trades.drop_last(), strategy).after_trade(trades.last(), strategy)
    }
}

/// A halt, once begun, is not ended by a trade: only a new session ends it.
pub proof fn halt_outlasts_trades(h: HaltTracker, trades: Seq<TradeRecord>, strategy: Seq<char>)
    requires
        h.halted(),
    ensures
        after_trades(h, trades, strategy).halted(),
        after_trades(h, trades, strategy).max == h.max,
    decreases trades.len(),
{
    if trades.len() > 0 {
        halt_outlasts_trades(h, trades.drop_last(), strategy);
    }
}

/// In one session, among any number of trades, at most one begins a halt.
pub proof fn halt_begins_once(
    h: HaltTracker,
    trades: Seq<TradeRecord>,
    strategy: Seq<char>,
    i: int,
    j: int,
)
    requires
        0 <= i < j < trades.len(),
        !after_trades(h, trades.take(i), strategy).halted(),
        after_trades(h, trades.take(i + 1), strategy).halted(),
    ensures
        after_trades(h, trades.take(j), strategy).halted(),
{
    let from = after_trades(h, trades.take(i + 1), strategy);
    trades_chain(h, trades.take(j), i + 1, strategy);
    assert(trades.take(j).take(i + 1) =~= trades.take(i + 1));
    halt_outlasts_trades(from, trades.take(j).skip(i + 1), strategy);
}

proof fn trades_chain(h: HaltTracker, trades: Seq<TradeRecord>, k: int, strategy: Seq<char>)
    requires
        0 <= k <= trades.len(),
    ensures
        after_trades(h, trades, strategy) == after_trades(
            after_trades(h, trades.take(k), strategy),
            trades.skip(k),
            strategy,
        ),
    decreases trades.len(),
{
    if k == trades.len() {
        assert(trades.take(k) =~= trades);
        assert(trades.skip(k) =~= Seq::empty());
    } else {
        trades_chain(h, trades.drop_last(), k, strategy);
        assert(trades.drop_last().take(k) =~= trades.take(k));
        assert(trades.drop_last().skip(k) =~= trades.skip(k).drop_last());
    }
}

/// A new session never starts halted, and one that has begun is not begun again.
pub proof fn new_session_is_not_halted(h: HaltTracker, slug_ts: Num, calc: Calc)
    requires
        exists|date: CivilDate| is_session(date, slug_ts, h.reset_hour, calc),
    ensures
        !h.same_session(slug_ts, calc) ==> !h.in_session(slug_ts, calc).halted(),
        h.in_session(slug_ts, calc).in_session(slug_ts, calc) == h.in_session(slug_ts, calc),
{
}

} // verus!

//! One asset under one strategy, as the driver keeps it.

use vstd::prelude::*;
use vstd::string::StringExecFns;

use crate::calendar::CivilDate;
use crate::config::AssetParams;
use crate::execution::TokenId;
use crate::halt::HaltTracker;
use crate::live::MarketDuration;
use crate::num::{num, Arith, Num, Op, ZERO};
use crate::telegram::commands::opt_view;
use crate::text::{join, joined, signed_decimal, signed_text, views};
use crate::types::{Outcome, Side};

verus! {

/// What an operator asks of a worker.
#[derive(Clone, Copy, Debug, PartialEq, Eq, Structural)]
pub enum ControlEvent {
    Halt,
    Resume,
    ResetLosses,
}

impl ControlEvent {
    pub open spec fn text(self) -> Seq<char> {
        match self {
            ControlEvent::Halt => "halt"@,
            ControlEvent::Resume => "resume"@,
            ControlEvent::ResetLosses => "reset_losses"@,
        }
    }

    /// The name under which the event is logged.
    pub fn name(self) -> (r: &'static str)
        ensures
            r@ == self.text(),
    {
        match self {
            ControlEvent::Halt => "halt",
            ControlEvent::Resume => "resume",
            ControlEvent::ResetLosses => "reset_losses",
        }
    }
}

/// The two reasons for which a worker does not enter: it was told not to, or it lost too
/// often. Neither touches the other.
#[derive(Clone, Copy, Debug)]
pub struct EntryGate {
    pub suppressed: bool,
    pub streak: HaltTracker,
}

impl EntryGate {
    pub open spec fn closed(self) -> bool {
        self.suppressed || self.streak.halted()
    }

    pub fn is_halted(&self) -> (r: bool)
        ensures
            r == self.closed(),
    {
        self.suppressed || self.streak.is_halted()
    }

    pub fn loss_streak_halted(&self) -> (r: bool)
        ensures
            r == self.streak.halted(),
    {
        self.streak.is_halted()
    }

    pub open spec fn after_control(self, event: ControlEvent) -> Self {
        match event {
            ControlEvent::Halt => EntryGate { suppressed: true, ..self },
            ControlEvent::Resume => EntryGate { suppressed: false, ..self },
            ControlEvent::ResetLosses => EntryGate {
                streak: HaltTracker { losses: 0, ..self.streak },
                ..self
            },
        }
    }

    /// Does what an operator asks. A resume ends only what a halt began.
    pub fn control(&mut self, event: ControlEvent)
        ensures
            *final(self) == old(self).after_control(event),
    {
        match event {
            ControlEvent::Halt => {
                self.suppressed = true;
            },
            ControlEvent::Resume => {
                self.suppressed = false;
            },
            ControlEvent::ResetLosses => {
                self.streak.losses = 0;
            },
        }
    }

    /// Lets nothing enter because the balance fell.
    pub fn drawdown_halt(&mut self)
        ensures
            *final(self) == (EntryGate { suppressed: true, ..*old(self) }),
    {
        self.suppressed = true;
    }

    /// Takes up where an earlier run ended. The limits stay those of this run.
    pub fn restore(&mut self, suppressed: bool, losses: i64, last_session: Option<CivilDate>)
        ensures
            *final(self) == (EntryGate {
                suppressed,
                streak: HaltTracker { losses, last_session, ..old(self).streak },
            }),
    {
        self.suppressed = suppressed;
        self.streak = HaltTracker::restore(
            self.streak.max,
            self.streak.reset_hour,
            losses,
            last_session,
        );
    }
}

/// A resume, however often, does not end a halt by losses; only that the losses are
/// forgotten does, and a limit above zero is then not reached.
pub proof fn resume_keeps_loss_halt(gate: EntryGate)
    ensures
        gate.streak.halted() ==> gate.after_control(ControlEvent::Resume).closed(),
        gate.after_control(ControlEvent::Resume).after_control(ControlEvent::Resume)
            == gate.after_control(ControlEvent::Resume),
        !gate.after_control(ControlEvent::ResetLosses).streak.halted(),
        gate.after_control(ControlEvent::Halt).closed(),
        !gate.after_control(ControlEvent::ResetLosses).after_control(
            ControlEvent::Resume,
        ).closed(),
{
}

/// What the driver knows of a worker.
#[derive(Clone, Debug)]
pub struct WorkerState {
    pub asset: String,
    pub strategy_name: String,
    pub gate: EntryGate,
    /// A trade waits for the market's resolution.
    pub confirming: bool,
    pub delta_pct: Num,
    pub cycle_end_ts: Num,
    pub cycle_open_binance: Num,
}

impl WorkerState {
    pub fn copied(&self) -> (r: Self)
        ensures
            r == *self,
    {
        WorkerState {
            asset: self.asset.clone(),
            strategy_name: self.strategy_name.clone(),
            gate: self.gate,
            confirming: self.confirming,
            delta_pct: self.delta_pct,
            cycle_end_ts: self.cycle_end_ts,
            cycle_open_binance: self.cycle_open_binance,
        }
    }
}

/// One asset under one strategy.
#[derive(Clone, Debug)]
pub struct AssetSlot {
    pub worker: WorkerState,
    pub params: AssetParams,
    pub duration: MarketDuration,
    /// The slot of the last cycle that was seen; zero before the first.
    pub slot_val: u64,
    pub up_id: TokenId,
    pub dn_id: TokenId,
    /// The token that is held or being bought.
    pub current_token_id: Option<TokenId>,
    pub max_buy_price: Num,
    /// Trades of the running cycle.
    pub cycle_trades: u32,
    /// The stop of the held position was announced.
    pub sl_notified: bool,
    /// So was its timeout.
    pub timeout_notified: bool,
    pub stats: Stats,
    pub current_slug: Option<String>,
    pub last_binance: Num,
    pub last_poly_up: Num,
    pub last_poly_dn: Num,
    pub last_binance_server_ts: Option<Num>,
    pub last_poly_server_ts: Option<Num>,
    pub last_binance_ts: Option<Num>,
    pub last_poly_ts: Option<Num>,
}

/// The counts that `/status` shows.
#[derive(Clone, Copy, Debug)]
pub struct Counts {
    pub wins: u32,
    pub losses: u32,
    pub stoplosses: u32,
    pub unwinds: u32,
    pub timeouts: u32,
    pub total_pnl: Num,
}

#[derive(Clone, Debug)]
pub struct Stats {
    pub counts: Counts,
    pub last_trade: Option<String>,
}

impl Default for Stats {
    fn default() -> (r: Self)
        ensures
            r.counts == (Counts {
                wins: 0,
                losses: 0,
                stoplosses: 0,
                unwinds: 0,
                timeouts: 0,
                total_pnl: num(ZERO),
            }),
            r.last_trade is None,
    {
        Stats {
            counts: Counts {
                wins: 0,
                losses: 0,
                stoplosses: 0,
                unwinds: 0,
                timeouts: 0,
                total_pnl: num(ZERO),
            },
            last_trade: None,
        }
    }
}

impl Counts {
    /// The count of an outcome.
    pub open spec fn of(self, outcome: Outcome) -> u32 {
        match outcome {
            Outcome::Win => self.wins,
            Outcome::Loss => self.losses,
            Outcome::StopLoss => self.stoplosses,
            Outcome::Unwind => self.unwinds,
            Outcome::Timeout => self.timeouts,
        }
    }

    pub open spec fn with(self, outcome: Outcome, n: u32) -> Self {
        match outcome {
            Outcome::Win => Counts { wins: n, ..self },
            Outcome::Loss => Counts { losses: n, ..self },
            Outcome::StopLoss => Counts { stoplosses: n, ..self },
            Outcome::Unwind => Counts { unwinds: n, ..self },
            Outcome::Timeout => Counts { timeouts: n, ..self },
        }
    }

    /// Counts a trade.
    pub fn book<F: Fn(Op, Num, Num) -> Num>(&mut self, outcome: Outcome, pnl: Num, arith: &Arith<F>)
        requires
            old(self).of(outcome) < u32::MAX,
        ensures
            *final(self) == (Counts {
                total_pnl: arith@.plus(old(self).total_pnl, pnl),
                ..old(self).with(outcome, (old(self).of(outcome) + 1) as u32)
            }),
    {
        match outcome {
            Outcome::Win => {
                self.wins = self.wins + 1;
            },
            Outcome::Loss => {
                self.losses = self.losses + 1;
            },
            Outcome::StopLoss => {
                self.stoplosses = self.stoplosses + 1;
            },
            Outcome::Unwind => {
                self.unwinds = self.unwinds + 1;
            },
            Outcome::Timeout => {
                self.timeouts = self.timeouts + 1;
            },
        }
        self.total_pnl = arith.plus(self.total_pnl, pnl);
    }

    /// The counts without one resolution of that outcome; other outcomes are never
    /// corrected.
    pub open spec fn without(self, outcome: Outcome) -> Self {
        match outcome {
            Outcome::Win => if self.wins > 0 {
                Counts { wins: (self.wins - 1) as u32, ..self }
            } else {
                self
            },
            Outcome::Loss => if self.losses > 0 {
                Counts { losses: (self.losses - 1) as u32, ..self }
            } else {
                self
            },
            _ => self,
        }
    }

    pub open spec fn and_one(self, outcome: Outcome) -> Self {
        match outcome {
            Outcome::Win => Counts { wins: (self.wins + 1) as u32, ..self },
            Outcome::Loss => Counts { losses: (self.losses + 1) as u32, ..self },
            _ => self,
        }
    }

    /// Takes the true resolution of a trade in place of the one that was counted.
    pub fn correct<F: Fn(Op, Num, Num) -> Num>(
        &mut self,
        previous: Outcome,
        previous_pnl: Num,
        outcome: Outcome,
        pnl: Num,
        arith: &Arith<F>,
    )
        requires
            outcome == Outcome::Win ==> old(self).without(previous).wins < u32::MAX,
            outcome == Outcome::Loss ==> old(self).without(previous).losses < u32::MAX,
        ensures
            *final(self) == (Counts {
                total_pnl: arith@.plus(old(self).total_pnl, arith@.minus(pnl, previous_pnl)),
                ..old(self).without(previous).and_one(outcome)
            }),
    {
        match previous {
            Outcome::Win => {
                if self.wins > 0 {
                    self.wins = self.wins - 1;
                }
            },
            Outcome::Loss => {
                if self.losses > 0 {
                    self.losses = self.losses - 1;
                }
            },
            _ => {},
        }
        match outcome {
            Outcome::Win => {
                self.wins = self.wins + 1;
            },
            Outcome::Loss => {
                self.losses = self.losses + 1;
            },
            _ => {},
        }
        self.total_pnl = arith.plus(self.total_pnl, arith.minus(pnl, previous_pnl));
    }
}

/// Correcting a trade that was counted leaves the counts as if the true resolution had been
/// counted at once.
pub proof fn correction_recounts(c: Counts, previous: Outcome, outcome: Outcome)
    requires
        previous == Outcome::Win || previous == Outcome::Loss,
        outcome == Outcome::Win || outcome == Outcome::Loss,
        c.of(previous) < u32::MAX,
    ensures
        c.with(previous, (c.of(previous) + 1) as u32).without(previous).and_one(outcome) == c.with(
            outcome,
            (c.of(outcome) + 1) as u32,
        ),
{
}

impl AssetSlot {
    /// The market: the asset alone for five minutes, else with the family after an `@`.
    pub open spec fn key(self) -> Seq<char> {
        if self.duration == MarketDuration::M5 {
            self.worker.asset@
        } else {
            self.worker.asset@ + "@"@ + self.duration.text()
        }
    }

    pub fn market_key(&self) -> (r: String)
        ensures
            r@ == self.key(),
    {
        let mut r = self.worker.asset.clone();
        if !self.duration.is_5m() {
            r.append("@");
            r.append(self.duration.suffix());
        }
        r
    }

    pub open spec fn token_of(self, side: Side) -> TokenId {
        match side {
            Side::Up => self.up_id,
            Side::Down => self.dn_id,
        }
    }

    pub fn token(&self, side: Side) -> (r: TokenId)
        ensures
            r == self.token_of(side),
    {
        match side {
            Side::Up => self.up_id,
            Side::Down => self.dn_id,
        }
    }

    /// The side that a token stands for.
    pub open spec fn side_of(self, token: TokenId) -> Side {
        if token == self.up_id {
            Side::Up
        } else {
            Side::Down
        }
    }

    pub fn side(&self, token: TokenId) -> (r: Side)
        ensures
            r == self.side_of(token),
    {
        if token == self.up_id {
            Side::Up
        } else {
            Side::Down
        }
    }

    pub open spec fn last_price_of(self, side: Side) -> Num {
        match side {
            Side::Up => self.last_poly_up,
            Side::Down => self.last_poly_dn,
        }
    }

    pub fn last_price(&self, side: Side) -> (r: Num)
        ensures
            r == self.last_price_of(side),
    {
        match side {
            Side::Up => self.last_poly_up,
            Side::Down => self.last_poly_dn,
        }
    }
}

/// Markets of one asset with different cycles have different keys: the prices of one never
/// reach the other.
pub proof fn keys_keep_durations_apart(a: AssetSlot, b: AssetSlot)
    requires
        a.worker.asset@ == b.worker.asset@,
        a.duration != b.duration,
    ensures
        a.key() != b.key(),
{
    reveal_strlit("@");
    reveal_strlit("5m");
    reveal_strlit("15m");
    reveal_strlit("1h-et");
    reveal_strlit("4h");
    let n = a.worker.asset@.len() as int;
    if a.duration == MarketDuration::M5 {
        assert(b.key().len() > n);
    } else if b.duration == MarketDuration::M5 {
        assert(a.key().len() > n);
    } else {
        let x = a.duration.text();
        let y = b.duration.text();
        assert(a.key().len() == n + 1 + x.len());
        assert(b.key().len() == n + 1 + y.len());
        assert(x.len() != y.len());
    }
}

/// `asset/strategy` of each worker whose trade waits for its resolution.
pub open spec fn confirming_labels(labels: Seq<Seq<char>>, workers: Seq<WorkerState>) -> Seq<Seq<char>>
    decreases workers.len(),
{
    if workers.len() == 0 {
        Seq::empty()
    } else {
        let before = confirming_labels(labels, workers.drop_last());
        let w = workers.last();
        if w.confirming {
            before.push(labels[workers.len() - 1] + "/"@ + w.strategy_name@)
        } else {
            before
        }
    }
}

/// The labels of the workers that are halted when the balance falls: a fall of the one
/// balance cannot be laid to one of several pending trades, so all of them are meant, and
/// no idle worker is.
pub fn confirming_asset_labels(labels: &Vec<String>, workers: &Vec<WorkerState>) -> (r: Vec<String>)
    requires
        labels@.len() == workers@.len(),
    ensures
        views(r@) == confirming_labels(views(labels@), workers@),
{
    let mut r: Vec<String> = Vec::new();
    let mut i: usize = 0;
    assert(views(r@) =~= confirming_labels(views(labels@), workers@.take(0)));
    while i < workers.len()
        invariant
            i <= workers@.len(),
            labels@.len() == workers@.len(),
            views(r@) == confirming_labels(views(labels@), workers@.take(i as int)),
        decreases workers@.len() - i,
    {
        let ghost before = r@;
        assert(workers@.take(i + 1).drop_last() =~= workers@.take(i as int));
        assert(workers@.take(i + 1).last() == workers@[i as int]);
        assert(views(labels@)[i as int] == labels@[i as int]@);
        if workers[i].confirming {
            let mut text = labels[i].clone();
            text.append("/");
            text.append(workers[i].strategy_name.as_str());
            let ghost tv = text@;
            r.push(text);
            assert(views(r@) =~= views(before).push(tv));
        }
        i = i + 1;
    }
    assert(workers@.take(i as int) =~= workers@);
    r
}

/// `asset/strategy (losses/limit)` of each worker that lost too often.
pub open spec fn still_halted(workers: Seq<WorkerState>) -> Seq<Seq<char>>
    decreases workers.len(),
{
    if workers.len() == 0 {
        Seq::empty()
    } else {
        let before = still_halted(workers.drop_last());
        let w = workers.last();
        if w.gate.streak.halted() {
            before.push(
                w.asset@ + "/"@ + w.strategy_name@ + " ("@ + signed_decimal(
                    w.gate.streak.losses as int,
                ) + "/"@ + signed_decimal(w.gate.streak.max as int) + ")"@,
            )
        } else {
            before
        }
    }
}

/// What a reply to a resume adds when some workers stay halted by their losses.
pub open spec fn still_halted_note(workers: Seq<WorkerState>) -> Option<Seq<char>> {
    let still = still_halted(workers);
    if still.len() == 0 {
        None
    } else {
        Some(
            "\n⚠️ still halted (loss-streak): "@ + joined(still, ", "@)
                + " — /reset_losses to clear now, or wait for the daily reset."@,
        )
    }
}

pub fn loss_streak_still_halted_note(workers: &Vec<&WorkerState>) -> (r: Option<String>)
    ensures
        opt_view(r) == still_halted_note(
            workers@.map_values(|w: &WorkerState| *w),
        ),
{
    let ghost all = workers@.map_values(|w: &WorkerState| *w);
    let mut still: Vec<String> = Vec::new();
    let mut i: usize = 0;
    assert(views(still@) =~= still_halted(all.take(0)));
    while i < workers.len()
        invariant
            i <= workers@.len(),
            all == workers@.map_values(|w: &WorkerState| *w),
            views(still@) == still_halted(all.take(i as int)),
        decreases workers@.len() - i,
    {
        let ghost before = still@;
        let w = workers[i];
        assert(all.take(i + 1).drop_last() =~= all.take(i as int));
        assert(all.take(i + 1).last() == *w);
        if w.gate.loss_streak_halted() {
            let mut text = w.asset.clone();
            text.append("/");
            text.append(w.strategy_name.as_str());
            text.append(" (");
            text.append(signed_text(w.gate.streak.losses()).as_str());
            text.append("/");
            text.append(signed_text(w.gate.streak.max()).as_str());
            text.append(")");
            let ghost tv = text@;
            still.push(text);
            assert(views(still@) =~= views(before).push(tv));
        }
        i = i + 1;
    }
    assert(all.take(i as int) =~= all);
    assert(views(still@).len() == still@.len());
    if still.len() == 0 {
        return None;
    }
    let mut r = "\n⚠️ still halted (loss-streak): ".to_owned();
    r.append(join(&still, ", ").as_str());
    r.append(" — /reset_losses to clear now, or wait for the daily reset.");
    Some(r)
}

} // verus!

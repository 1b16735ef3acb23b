//! What the operator's commands and the account's balance do to the workers.

use vstd::prelude::*;
use vstd::string::StringExecFns;

use crate::balance::{BalanceGuard, GammaBalanceTracker};
use crate::live::latency::THOUSAND;
use crate::live::messages::{
    drawdown_halt, drawdown_halt_text, halted_all, halted_all_text, halted_one, halted_one_text,
    not_managed, not_managed_text, reset_all, reset_all_text, reset_one, reset_one_text,
    resumed_all, resumed_all_text, resumed_one, resumed_one_text, scoped_halt, scoped_halt_text,
};
use crate::live::slot::{
    confirming_asset_labels, confirming_labels, loss_streak_still_halted_note, still_halted_note,
    AssetSlot, ControlEvent, EntryGate, WorkerState,
};
use crate::num::{num, Arith, Num, Op};
use crate::telegram::commands::{opt_view, Command, CommandView};
use crate::telegram::render::{help_text, HELP_TEXT};
use crate::text::{join, joined, same_but_for_case, same_letters, same_text, views};

verus! {

/// An order to the workers of an asset; an empty asset means all of them.
pub struct OrderView {
    pub event: ControlEvent,
    pub asset: Seq<char>,
    pub strategy: Option<Seq<char>>,
}

/// The order that a command gives. A strategy counts only together with an asset.
pub open spec fn order_of(cmd: CommandView) -> Option<OrderView> {
    match cmd {
        CommandView::Halt { asset, strategy } => Some(
            OrderView {
                event: ControlEvent::Halt,
                asset,
                strategy: if asset.len() == 0 {
                    None
                } else {
                    strategy
                },
            },
        ),
        CommandView::Resume { asset, strategy } => Some(
            OrderView {
                event: ControlEvent::Resume,
                asset,
                strategy: if asset.len() == 0 {
                    None
                } else {
                    strategy
                },
            },
        ),
        CommandView::ResetLosses { asset } => Some(
            OrderView { event: ControlEvent::ResetLosses, asset, strategy: None },
        ),
        _ => None,
    }
}

/// The order is meant for the slot. An asset is named alone or with its cycle length, and
/// case does not matter.
pub open spec fn meant(slot: AssetSlot, order: OrderView) -> bool {
    order.asset.len() == 0 || {
        &&& same_letters(slot.worker.asset@, order.asset) || same_letters(slot.key(), order.asset)
        &&& match order.strategy {
            Some(s) => same_letters(slot.worker.strategy_name@, s),
            None => true,
        }
    }
}

/// The indices of the slots for which an order is meant.
pub open spec fn meant_indices(slots: Seq<AssetSlot>, order: OrderView) -> Seq<usize>
    decreases slots.len(),
{
    if slots.len() == 0 {
        Seq::empty()
    } else {
        let before = meant_indices(slots.drop_last(), order);
        if meant(slots.last(), order) {
            before.push((slots.len() - 1) as usize)
        } else {
            before
        }
    }
}

pub open spec fn with_gate(slot: AssetSlot, gate: EntryGate) -> AssetSlot {
    AssetSlot { worker: WorkerState { gate, ..slot.worker }, ..slot }
}

/// A slot after an order.
pub open spec fn ordered(slot: AssetSlot, order: OrderView) -> AssetSlot {
    if meant(slot, order) {
        with_gate(slot, slot.worker.gate.after_control(order.event))
    } else {
        slot
    }
}

/// The workers of the listed slots.
pub open spec fn workers_of(slots: Seq<AssetSlot>, indices: Seq<usize>) -> Seq<WorkerState> {
    indices.map_values(|i: usize| slots[i as int].worker)
}

pub open spec fn label_of(order: OrderView) -> Seq<char> {
    match order.strategy {
        Some(s) => order.asset + "/"@ + s,
        None => order.asset,
    }
}

pub open spec fn note_text(note: Option<Seq<char>>) -> Seq<char> {
    match note {
        Some(n) => n,
        None => Seq::empty(),
    }
}

/// What an order is answered. `slots` are the slots once it is carried out.
pub open spec fn order_reply(
    slots: Seq<AssetSlot>,
    order: OrderView,
    trading: Seq<char>,
) -> Seq<char> {
    let touched = meant_indices(slots, order);
    let note = note_text(still_halted_note(workers_of(slots, touched)));
    if order.asset.len() == 0 {
        match order.event {
            ControlEvent::Halt => halted_all_text(trading),
            ControlEvent::Resume => resumed_all_text(trading) + note,
            ControlEvent::ResetLosses => reset_all_text(trading),
        }
    } else if touched.len() == 0 {
        not_managed_text(label_of(order), trading)
    } else {
        match order.event {
            ControlEvent::Halt => halted_one_text(label_of(order)),
            ControlEvent::Resume => resumed_one_text(label_of(order)) + note,
            ControlEvent::ResetLosses => reset_one_text(label_of(order)),
        }
    }
}

/// What a command brings about.
#[derive(Clone, Debug)]
pub enum Answer {
    /// The status is asked for, which needs the balance.
    Status,
    Text(String),
}

#[derive(Clone, Debug)]
pub struct CommandResult {
    pub answer: Answer,
    /// What was done to the touched slots; each of them is now to be saved and logged.
    pub event: Option<ControlEvent>,
    pub touched: Vec<usize>,
}

pub open spec fn answer_view(a: Answer) -> Option<Seq<char>> {
    match a {
        Answer::Status => None,
        Answer::Text(t) => Some(t@),
    }
}

/// What a command is answered; nothing stands for the status.
pub open spec fn answer_of(
    cmd: CommandView,
    slots: Seq<AssetSlot>,
    trading: Seq<char>,
) -> Option<Seq<char>> {
    match order_of(cmd) {
        Some(order) => Some(order_reply(slots, order, trading)),
        None => match cmd {
            CommandView::Status => None,
            CommandView::Help => Some(HELP_TEXT@),
            CommandView::Invalid(text) => Some(text),
            _ => Some("not supported by this Rust live driver yet."@),
        },
    }
}

/// The slots after a command.
pub open spec fn slots_after(cmd: CommandView, slots: Seq<AssetSlot>) -> Seq<AssetSlot> {
    match order_of(cmd) {
        Some(order) => slots.map_values(|s: AssetSlot| ordered(s, order)),
        None => slots,
    }
}

/// A resume that reaches somebody lets the next balance be the baseline.
pub open spec fn guard_after(
    cmd: CommandView,
    slots: Seq<AssetSlot>,
    guard: BalanceGuard,
) -> BalanceGuard {
    match order_of(cmd) {
        Some(order) => if order.event == ControlEvent::Resume && (order.asset.len() == 0
            || meant_indices(slots, order).len() > 0) {
            BalanceGuard { initial_balance: None, halt_fired: false }
        } else {
            guard
        },
        None => guard,
    }
}

spec fn order_view(event: ControlEvent, asset: &String, strategy: &Option<String>) -> OrderView {
    OrderView { event, asset: asset@, strategy: opt_view(*strategy) }
}

fn is_meant(slot: &AssetSlot, asset: &String, strategy: &Option<String>) -> (r: bool)
    ensures
        forall|event: ControlEvent| r == meant(*slot, #[trigger] order_view(event, asset, strategy)),
{
    if asset.as_str().is_empty() {
        return true;
    }
    let named = same_but_for_case(slot.worker.asset.as_str(), asset.as_str()) || same_but_for_case(
        slot.market_key().as_str(),
        asset.as_str(),
    );
    let strategy_fits = match strategy {
        Some(s) => same_but_for_case(slot.worker.strategy_name.as_str(), s.as_str()),
        None => true,
    };
    named && strategy_fits
}

/// Whether a slot is meant does not depend on its halts.
proof fn order_keeps_meant(slots: Seq<AssetSlot>, order: OrderView)
    ensures
        meant_indices(slots.map_values(|s: AssetSlot| ordered(s, order)), order) == meant_indices(
            slots,
            order,
        ),
    decreases slots.len(),
{
    let after = slots.map_values(|s: AssetSlot| ordered(s, order));
    if slots.len() > 0 {
        order_keeps_meant(slots.drop_last(), order);
        assert(after.drop_last() =~= slots.drop_last().map_values(
            |s: AssetSlot| ordered(s, order),
        ));
    }
}

proof fn meant_indices_in_range(slots: Seq<AssetSlot>, order: OrderView)
    requires
        slots.len() <= usize::MAX,
    ensures
        forall|k: int|
            0 <= k < meant_indices(slots, order).len() ==> #[trigger] meant_indices(slots, order)[k]
                < slots.len(),
    decreases slots.len(),
{
    if slots.len() > 0 {
        let before = meant_indices(slots.drop_last(), order);
        meant_indices_in_range(slots.drop_last(), order);
        let all = meant_indices(slots, order);
        assert forall|k: int| 0 <= k < all.len() implies #[trigger] all[k] < slots.len() by {
            if k < before.len() {
                assert(all[k] == before[k]);
            }
        }
    }
}

/// Carries an order out and lists the slots that it reached.
fn carry_out(
    slots: &mut Vec<AssetSlot>,
    event: ControlEvent,
    asset: &String,
    strategy: &Option<String>,
) -> (r: Vec<usize>)
    ensures
        final(slots)@ == old(slots)@.map_values(
            |s: AssetSlot| ordered(s, order_view(event, asset, strategy)),
        ),
        r@ == meant_indices(old(slots)@, order_view(event, asset, strategy)),
{
    let ghost order = order_view(event, asset, strategy);
    let ghost start = slots@;
    let n: usize = slots.len();
    let mut touched: Vec<usize> = Vec::new();
    let mut i: usize = 0;
    assert(touched@ =~= meant_indices(start.take(0), order));
    while i < n
        invariant
            i <= n,
            n == slots@.len(),
            start.len() == n,
            order == order_view(event, asset, strategy),
            forall|k: int| 0 <= k < i ==> #[trigger] slots@[k] == ordered(start[k], order),
            forall|k: int| i <= k < n ==> #[trigger] slots@[k] == start[k],
            touched@ == meant_indices(start.take(i as int), order),
        decreases n - i,
    {
        assert(start.take(i + 1).drop_last() =~= start.take(i as int));
        assert(start.take(i + 1).last() == start[i as int]);
        if is_meant(&slots[i], asset, strategy) {
            assert(meant(start[i as int], order));
            slots[i].worker.gate.control(event);
            touched.push(i);
        } else {
            assert(!meant(start[i as int], order));
        }
        i = i + 1;
    }
    assert(start.take(i as int) =~= start);
    assert(slots@ =~= start.map_values(|s: AssetSlot| ordered(s, order)));
    touched
}

fn workers_at<'a>(slots: &'a Vec<AssetSlot>, indices: &Vec<usize>) -> (r: Vec<&'a WorkerState>)
    requires
        forall|k: int| 0 <= k < indices@.len() ==> #[trigger] indices@[k] < slots@.len(),
    ensures
        r@.map_values(|w: &WorkerState| *w) == workers_of(slots@, indices@),
{
    let mut r: Vec<&'a WorkerState> = Vec::new();
    let mut i: usize = 0;
    while i < indices.len()
        invariant
            i <= indices@.len(),
            r@.len() == i,
            forall|k: int| 0 <= k < indices@.len() ==> #[trigger] indices@[k] < slots@.len(),
            forall|k: int| 0 <= k < i ==> *#[trigger] r@[k] == slots@[indices@[k] as int].worker,
        decreases indices@.len() - i,
    {
        r.push(&slots[indices[i]].worker);
        i = i + 1;
    }
    assert(r@.map_values(|w: &WorkerState| *w) =~= workers_of(slots@, indices@));
    r
}

fn halted_note(slots: &Vec<AssetSlot>, touched: &Vec<usize>) -> (r: String)
    requires
        forall|k: int| 0 <= k < touched@.len() ==> #[trigger] touched@[k] < slots@.len(),
    ensures
        r@ == note_text(still_halted_note(workers_of(slots@, touched@))),
{
    let workers = workers_at(slots, touched);
    match loss_streak_still_halted_note(&workers) {
        Some(note) => note,
        None => {
            let r = String::new();
            assert(r@ =~= Seq::empty());
            r
        },
    }
}

fn give_order(
    slots: &mut Vec<AssetSlot>,
    guard: &mut BalanceGuard,
    trading: &Vec<String>,
    event: ControlEvent,
    asset: &String,
    strategy: &Option<String>,
) -> (r: CommandResult)
    requires
        asset@.len() == 0 ==> strategy is None,
    ensures
        ({
            let order = order_view(event, asset, strategy);
            &&& final(slots)@ == old(slots)@.map_values(|s: AssetSlot| ordered(s, order))
            &&& r.touched@ == meant_indices(old(slots)@, order)
            &&& r.event == Some(event)
            &&& answer_view(r.answer) == Some(
                order_reply(final(slots)@, order, joined(views(trading@), ", "@)),
            )
            &&& *final(guard) == if event == ControlEvent::Resume && (asset@.len() == 0
                || r.touched@.len() > 0) {
                BalanceGuard { initial_balance: None, halt_fired: false }
            } else {
                *old(guard)
            }
        }),
{
    let ghost order = order_view(event, asset, strategy);
    let ghost start = slots@;
    let touched = carry_out(slots, event, asset, strategy);
    proof {
        vstd::std_specs::vec::axiom_spec_len(slots);
        order_keeps_meant(start, order);
        meant_indices_in_range(slots@, order);
    }
    let all = join(trading, ", ");
    let everybody = asset.as_str().is_empty();
    if event == ControlEvent::Resume && (everybody || touched.len() > 0) {
        guard.reset_baseline();
    }
    let label = match strategy {
        Some(s) => {
            let mut label = asset.clone();
            label.append("/");
            label.append(s.as_str());
            label
        },
        None => asset.clone(),
    };
    assert(label@ == label_of(order));
    let text = if everybody {
        match event {
            ControlEvent::Halt => halted_all(all.as_str()),
            ControlEvent::Resume => {
                let mut text = resumed_all(all.as_str());
                text.append(halted_note(slots, &touched).as_str());
                text
            },
            ControlEvent::ResetLosses => reset_all(all.as_str()),
        }
    } else if touched.len() == 0 {
        not_managed(label.as_str(), all.as_str())
    } else {
        match event {
            ControlEvent::Halt => halted_one(label.as_str()),
            ControlEvent::Resume => {
                let mut text = resumed_one(label.as_str());
                text.append(halted_note(slots, &touched).as_str());
                text
            },
            ControlEvent::ResetLosses => reset_one(label.as_str()),
        }
    };
    CommandResult { answer: Answer::Text(text), event: Some(event), touched }
}

fn only_answer(answer: Answer) -> (r: CommandResult)
    ensures
        r.answer == answer,
        r.event is None,
        r.touched@.len() == 0,
{
    CommandResult { answer, event: None, touched: Vec::new() }
}

/// Does what a command asks of the workers and answers it.
pub fn on_command(
    cmd: &Command,
    slots: &mut Vec<AssetSlot>,
    guard: &mut BalanceGuard,
    trading: &Vec<String>,
) -> (r: CommandResult)
    ensures
        final(slots)@ == slots_after(cmd@, old(slots)@),
        *final(guard) == guard_after(cmd@, old(slots)@, *old(guard)),
        answer_view(r.answer) == answer_of(cmd@, final(slots)@, joined(views(trading@), ", "@)),
        match order_of(cmd@) {
            Some(order) => r.event == Some(order.event) && r.touched@ == meant_indices(
                old(slots)@,
                order,
            ),
            None => r.event is None && r.touched@.len() == 0,
        },
{
    match cmd {
        Command::Halt { asset, strategy } => {
            if asset.as_str().is_empty() {
                give_order(slots, guard, trading, ControlEvent::Halt, asset, &None)
            } else {
                give_order(slots, guard, trading, ControlEvent::Halt, asset, strategy)
            }
        },
        Command::Resume { asset, strategy } => {
            if asset.as_str().is_empty() {
                give_order(slots, guard, trading, ControlEvent::Resume, asset, &None)
            } else {
                give_order(slots, guard, trading, ControlEvent::Resume, asset, strategy)
            }
        },
        Command::ResetLosses { asset } => give_order(
            slots,
            guard,
            trading,
            ControlEvent::ResetLosses,
            asset,
            &None,
        ),
        Command::Status => only_answer(Answer::Status),
        Command::Help => only_answer(Answer::Text(help_text())),
        Command::Invalid(text) => only_answer(Answer::Text(text.clone())),
        _ => only_answer(
            Answer::Text("not supported by this Rust live driver yet.".to_owned()),
        ),
    }
}

/// No command touches anything of a slot but its gate, and a halt of everything closes every
/// gate.
pub proof fn commands_change_gates_only(cmd: CommandView, slots: Seq<AssetSlot>, i: int)
    requires
        0 <= i < slots.len(),
    ensures
        slots_after(cmd, slots).len() == slots.len(),
        slots_after(cmd, slots)[i] == with_gate(
            slots[i],
            slots_after(cmd, slots)[i].worker.gate,
        ),
        cmd matches CommandView::Halt { asset, .. } ==> asset.len() == 0 ==> slots_after(
            cmd,
            slots,
        )[i].worker.gate.closed(),
{
}

/// What a look at the balance brings about.
#[derive(Clone, Debug)]
pub struct BalanceReport {
    /// The balance fell while these slots had a trade waiting for its resolution.
    pub scoped: Vec<usize>,
    pub scoped_notice: Option<String>,
    /// It fell so far that every slot was halted.
    pub all_halted: bool,
    pub notice: Option<String>,
    /// The name under which the halts are logged.
    pub event: &'static str,
}

pub open spec fn slot_keys(slots: Seq<AssetSlot>) -> Seq<Seq<char>> {
    slots.map_values(|s: AssetSlot| s.key())
}

pub open spec fn slot_workers(slots: Seq<AssetSlot>) -> Seq<WorkerState> {
    slots.map_values(|s: AssetSlot| s.worker)
}

/// The indices of the slots whose trade waits for its resolution.
pub open spec fn confirming_indices(slots: Seq<AssetSlot>) -> Seq<usize>
    decreases slots.len(),
{
    if slots.len() == 0 {
        Seq::empty()
    } else {
        let before = confirming_indices(slots.drop_last());
        if slots.last().worker.confirming {
            before.push((slots.len() - 1) as usize)
        } else {
            before
        }
    }
}

pub open spec fn suppressed(slot: AssetSlot) -> AssetSlot {
    with_gate(slot, EntryGate { suppressed: true, ..slot.worker.gate })
}

/// A slot after a look at the balance.
pub open spec fn after_balance(slot: AssetSlot, fell: bool, fired: bool) -> AssetSlot {
    if fired || (fell && slot.worker.confirming) {
        suppressed(slot)
    } else {
        slot
    }
}

fn labels(slots: &Vec<AssetSlot>) -> (r: Vec<String>)
    ensures
        views(r@) == confirming_labels(slot_keys(slots@), slot_workers(slots@)),
{
    let mut keys: Vec<String> = Vec::new();
    let mut workers: Vec<WorkerState> = Vec::new();
    let mut i: usize = 0;
    while i < slots.len()
        invariant
            i <= slots@.len(),
            keys@.len() == i,
            workers@.len() == i,
            forall|k: int| 0 <= k < i ==> #[trigger] keys@[k]@ == slots@[k].key(),
            forall|k: int| 0 <= k < i ==> #[trigger] workers@[k] == slots@[k].worker,
        decreases slots@.len() - i,
    {
        keys.push(slots[i].market_key());
        workers.push(slots[i].worker.copied());
        i = i + 1;
    }
    assert(views(keys@) =~= slot_keys(slots@));
    assert(workers@ =~= slot_workers(slots@));
    confirming_asset_labels(&keys, &workers)
}

fn halt_confirming(slots: &mut Vec<AssetSlot>) -> (r: Vec<usize>)
    ensures
        final(slots)@ == old(slots)@.map_values(|s: AssetSlot| after_balance(s, true, false)),
        r@ == confirming_indices(old(slots)@),
{
    let ghost start = slots@;
    let n: usize = slots.len();
    let mut touched: Vec<usize> = Vec::new();
    let mut i: usize = 0;
    assert(touched@ =~= confirming_indices(start.take(0)));
    while i < n
        invariant
            i <= n,
            n == slots@.len(),
            start.len() == n,
            forall|k: int| 0 <= k < i ==> #[trigger] slots@[k] == after_balance(start[k], true, false),
            forall|k: int| i <= k < n ==> #[trigger] slots@[k] == start[k],
            touched@ == confirming_indices(start.take(i as int)),
        decreases n - i,
    {
        assert(start.take(i + 1).drop_last() =~= start.take(i as int));
        assert(start.take(i + 1).last() == start[i as int]);
        if slots[i].worker.confirming {
            slots[i].worker.gate.drawdown_halt();
            touched.push(i);
        }
        i = i + 1;
    }
    assert(start.take(i as int) =~= start);
    assert(slots@ =~= start.map_values(|s: AssetSlot| after_balance(s, true, false)));
    touched
}

fn halt_all(slots: &mut Vec<AssetSlot>)
    ensures
        final(slots)@ == old(slots)@.map_values(|s: AssetSlot| suppressed(s)),
{
    let ghost start = slots@;
    let n: usize = slots.len();
    let mut i: usize = 0;
    while i < n
        invariant
            i <= n,
            n == slots@.len(),
            start.len() == n,
            forall|k: int| 0 <= k < i ==> #[trigger] slots@[k] == suppressed(start[k]),
            forall|k: int| i <= k < n ==> #[trigger] slots@[k] == start[k],
        decreases n - i,
    {
        slots[i].worker.gate.drawdown_halt();
        i = i + 1;
    }
    assert(slots@ =~= start.map_values(|s: AssetSlot| suppressed(s)));
}

/// Takes a balance, or that there is none. A balance below the one before it halts the
/// slots whose trade waits for its resolution; one far below the first halts all.
pub fn on_balance<F: Fn(Op, Num, Num) -> Num>(
    slots: &mut Vec<AssetSlot>,
    tracker: &mut GammaBalanceTracker,
    guard: &mut BalanceGuard,
    balance: Option<Num>,
    trading: &Vec<String>,
    arith: &Arith<F>,
) -> (r: BalanceReport)
    ensures
        *final(tracker) == old(tracker).after_record(balance),
        *final(guard) == old(guard).after_check(balance, arith@),
        ({
            let fell = final(tracker).verdict == Some(false);
            let fired = old(guard).fires(balance, arith@);
            let waiting = confirming_labels(slot_keys(old(slots)@), slot_workers(old(slots)@));
            &&& final(slots)@ == old(slots)@.map_values(
                |s: AssetSlot| after_balance(s, fell, fired),
            )
            &&& r.scoped@ == if fell {
                confirming_indices(old(slots)@)
            } else {
                Seq::empty()
            }
            &&& opt_view(r.scoped_notice) == if fell && waiting.len() > 0 {
                Some(scoped_halt_text(joined(waiting, ", "@)))
            } else {
                None
            }
            &&& r.all_halted == fired
            &&& r.event@ == "drawdown_halt"@
            &&& opt_view(r.notice) == if fired {
                Some(drawdown_halt_text(joined(views(trading@), ", "@)))
            } else {
                None
            }
        }),
{
    let ghost start = slots@;
    tracker.record(balance);
    let mut scoped: Vec<usize> = Vec::new();
    let mut scoped_notice: Option<String> = None;
    let fell = match tracker.increased() {
        Some(rose) => !rose,
        None => false,
    };
    if fell {
        let waiting = labels(slots);
        assert(views(waiting@).len() == waiting@.len());
        scoped = halt_confirming(slots);
        if waiting.len() > 0 {
            scoped_notice = Some(scoped_halt(join(&waiting, ", ").as_str()));
        }
    }
    let ghost middle = slots@;
    assert(middle =~= start.map_values(|s: AssetSlot| after_balance(s, fell, false)));
    let all_halted = guard.check(balance, arith);
    let mut notice: Option<String> = None;
    if all_halted {
        halt_all(slots);
        notice = Some(drawdown_halt(join(trading, ", ").as_str()));
    }
    assert(scoped@ =~= if fell {
        confirming_indices(start)
    } else {
        Seq::empty()
    });
    assert(slots@ =~= start.map_values(|s: AssetSlot| after_balance(s, fell, all_halted)));
    BalanceReport { scoped, scoped_notice, all_halted, notice, event: "drawdown_halt" }
}

/// A fall of the balance halts no slot that waits for nothing, unless it is so large that all
/// are halted; and it never opens a gate.
pub proof fn fall_halts_only_waiting_slots(slot: AssetSlot, fell: bool, fired: bool)
    ensures
        !fired && !slot.worker.confirming ==> after_balance(slot, fell, fired) == slot,
        slot.worker.gate.closed() ==> after_balance(slot, fell, fired).worker.gate.closed(),
        fired ==> after_balance(slot, fell, fired).worker.gate.closed(),
{
}

/// One line of the log of halts.
#[derive(Clone, Debug)]
pub struct ControlEntry {
    pub ts: Num,
    pub asset: String,
    pub strategy: String,
    pub event: String,
    pub entry_suppressed: bool,
    pub halt_losses: i64,
    pub is_halted: bool,
}

/// What the log of halts says of an event. The market stands by its key.
pub fn control_entry<F: Fn(Op, Num, Num) -> Num>(
    slot: &AssetSlot,
    event: &str,
    secs: i64,
    millis: u64,
    arith: &Arith<F>,
) -> (r: ControlEntry)
    ensures
        r.ts == arith@.plus(
            arith@.from_signed(secs),
            arith@.over(arith@.from_unsigned(millis), num(THOUSAND)),
        ),
        r.asset@ == slot.key(),
        r.strategy@ == slot.worker.strategy_name@,
        r.event@ == event@,
        r.entry_suppressed == slot.worker.gate.suppressed,
        r.halt_losses == slot.worker.gate.streak.losses,
        r.is_halted == slot.worker.gate.closed(),
{
    ControlEntry {
        ts: arith.plus(
            arith.from_signed(secs),
            arith.over(arith.from_unsigned(millis), num(THOUSAND)),
        ),
        asset: slot.market_key(),
        strategy: slot.worker.strategy_name.clone(),
        event: event.to_owned(),
        entry_suppressed: slot.worker.gate.suppressed,
        halt_losses: slot.worker.gate.streak.losses(),
        is_halted: slot.worker.gate.is_halted(),
    }
}

/// The slot of a market and strategy.
pub open spec fn is_slot_of(slot: AssetSlot, market: Seq<char>, strategy: Seq<char>) -> bool {
    slot.key() == market && slot.worker.strategy_name@ == strategy
}

/// The first slot of a market and strategy.
pub fn find_slot(slots: &Vec<AssetSlot>, market: &str, strategy: &str) -> (r: Option<usize>)
    ensures
        match r {
            Some(i) => {
                &&& i < slots@.len()
                &&& is_slot_of(slots@[i as int], market@, strategy@)
                &&& forall|k: int| 0 <= k < i ==> !is_slot_of(#[trigger] slots@[k], market@, strategy@)
            },
            None => forall|k: int|
                0 <= k < slots@.len() ==> !is_slot_of(#[trigger] slots@[k], market@, strategy@),
        },
{
    let mut i: usize = 0;
    while i < slots.len()
        invariant
            i <= slots@.len(),
            forall|k: int| 0 <= k < i ==> !is_slot_of(#[trigger] slots@[k], market@, strategy@),
        decreases slots@.len() - i,
    {
        if same_text(slots[i].market_key().as_str(), market) && same_text(
            slots[i].worker.strategy_name.as_str(),
            strategy,
        ) {
            return Some(i);
        }
        i = i + 1;
    }
    None
}

} // verus!

//! Orders: what to send, what to make of the answer, and when to try again.
//!
//! The exchange is spoken to elsewhere. Each kind of order is a series of steps: a function
//! says what to do next, the driver does it and hands back what came of it.

use vstd::prelude::*;
use vstd::string::StringExecFns;

use crate::num::{
    held, larger, num, num_clamp, num_max, num_min, smaller, Arith, Calc, Layout, Num, Op, Reader,
    Writer, ONE, ZERO,
};
use crate::telegram::commands::opt_view;
use crate::text::{
    contains, contains_text, holds_text, lowercase, same_text, to_lower, trim_text, trimmed, views,
};

verus! {

#[derive(Clone, Copy, Debug, PartialEq, Eq, Structural)]
pub enum SellStatus {
    Live,
    Matched,
    Failed,
    DryRun,
}

/// A token, by its 256-bit number.
#[derive(Clone, Copy, Debug, PartialEq, Eq, Structural, Hash)]
pub struct TokenId {
    pub high: u128,
    pub low: u128,
}

/// What came of a buy.
#[derive(Clone, Debug)]
pub struct TradeResult {
    pub placed: bool,
    pub filled_shares: Num,
    /// The price per share that was paid, not the limit.
    pub cost: Num,
    pub error: Option<String>,
    /// How often the order was sent.
    pub attempts: u32,
}

pub struct TradeView {
    pub placed: bool,
    pub filled_shares: Num,
    pub cost: Num,
    pub error: Option<Seq<char>>,
    pub attempts: u32,
}

impl View for TradeResult {
    type V = TradeView;

    open spec fn view(&self) -> TradeView {
        TradeView {
            placed: self.placed,
            filled_shares: self.filled_shares,
            cost: self.cost,
            error: opt_view(self.error),
            attempts: self.attempts,
        }
    }
}

/// What came of closing a position.
#[derive(Clone, Debug)]
pub struct CloseResult {
    pub filled_usdc: Num,
    pub status: SellStatus,
    pub shares_sold: Num,
    pub error: Option<String>,
    pub attempts: u32,
}

pub struct CloseView {
    pub filled_usdc: Num,
    pub status: SellStatus,
    pub shares_sold: Num,
    pub error: Option<Seq<char>>,
    pub attempts: u32,
}

impl View for CloseResult {
    type V = CloseView;

    open spec fn view(&self) -> CloseView {
        CloseView {
            filled_usdc: self.filled_usdc,
            status: self.status,
            shares_sold: self.shares_sold,
            error: opt_view(self.error),
            attempts: self.attempts,
        }
    }
}

/// What came of an order that rests in the book.
#[derive(Clone, Debug)]
pub struct LimitSellResult {
    pub order_id: Option<String>,
    pub status: SellStatus,
    pub error: Option<String>,
}

pub struct LimitSellView {
    pub order_id: Option<Seq<char>>,
    pub status: SellStatus,
    pub error: Option<Seq<char>>,
}

impl View for LimitSellResult {
    type V = LimitSellView;

    open spec fn view(&self) -> LimitSellView {
        LimitSellView {
            order_id: opt_view(self.order_id),
            status: self.status,
            error: opt_view(self.error),
        }
    }
}

/// The bits of 5.0: the exchange takes no resting order for fewer shares.
pub const MIN_GTC_SHARES: u64 = 0x4014_0000_0000_0000;

/// The bits of 1.0: the exchange takes no immediate order for fewer dollars.
pub const MIN_MARKETABLE_USDC: u64 = 0x3FF0_0000_0000_0000;

#[derive(Clone, Copy, Debug, PartialEq, Eq, Structural)]
pub enum OrderKind {
    /// Rests in the book at its price.
    Gtc,
    /// Fills at once as far as it can, and is gone.
    Fak,
}

/// The kind of order that the exchange takes for a sale of so many shares.
pub fn choose_exit_order_kind(shares: Num) -> (r: OrderKind)
    ensures
        r == if shares.ge(num(MIN_GTC_SHARES)) {
            OrderKind::Gtc
        } else {
            OrderKind::Fak
        },
{
    if shares.ge(num(MIN_GTC_SHARES)) {
        OrderKind::Gtc
    } else {
        OrderKind::Fak
    }
}

/// The bits of 100.0.
pub const HUNDRED: u64 = 0x4059_0000_0000_0000;

/// The bits of 2.0.
pub const TWO: u64 = 0x4000_0000_0000_0000;

pub open spec fn rounded2(x: Num, calc: Calc) -> Num {
    calc.over(calc.round(calc.times(x, num(HUNDRED))), num(HUNDRED))
}

/// `x` to two decimals.
pub fn round2<F: Fn(Op, Num, Num) -> Num>(x: Num, arith: &Arith<F>) -> (r: Num)
    ensures
        r == rounded2(x, arith@),
{
    arith.over(arith.round(arith.times(x, num(HUNDRED))), num(HUNDRED))
}

pub open spec fn floored2(x: Num, calc: Calc) -> Num {
    calc.over(calc.floor(calc.times(x, num(HUNDRED))), num(HUNDRED))
}

/// `x` cut to two decimals. What is sold must not exceed what is held, so it is never
/// rounded up.
pub fn floor2<F: Fn(Op, Num, Num) -> Num>(x: Num, arith: &Arith<F>) -> (r: Num)
    ensures
        r == floored2(x, arith@),
{
    arith.over(arith.floor(arith.times(x, num(HUNDRED))), num(HUNDRED))
}

/// The limit of a buy: halfway from the price to the cap at first, then the cap.
pub open spec fn entry_limit(price: Num, max_buy_price: Num, attempt: int, calc: Calc) -> Num {
    if attempt == 0 {
        let spread = larger(calc.minus(max_buy_price, price), num(ZERO));
        smaller(calc.plus(price, calc.over(spread, num(TWO))), max_buy_price)
    } else {
        max_buy_price
    }
}

pub fn aggressive_entry_price<F: Fn(Op, Num, Num) -> Num>(
    price: Num,
    max_buy_price: Num,
    attempt: u32,
    arith: &Arith<F>,
) -> (r: Num)
    ensures
        r == entry_limit(price, max_buy_price, attempt as int, arith@),
{
    if attempt == 0 {
        let spread = num_max(arith.minus(max_buy_price, price), num(ZERO));
        num_min(arith.plus(price, arith.over(spread, num(TWO))), max_buy_price)
    } else {
        max_buy_price
    }
}

/// The limit of a buy is never above the cap, on any attempt and for any prices, unless
/// the cap is not a number.
pub proof fn entry_limit_keeps_the_cap(price: Num, max_buy_price: Num, attempt: int, calc: Calc)
    requires
        !max_buy_price.is_nan(),
    ensures
        entry_limit(price, max_buy_price, attempt, calc).le(max_buy_price),
{
}

/// Why a buy failed.
#[derive(Clone, Copy, Debug, PartialEq, Eq, Structural)]
pub enum EntryFailure {
    /// Nobody sells at that price now; the book can change with the next tick.
    NoMatch,
    /// The order itself is at fault and would fail again.
    Deterministic,
    Other,
}

pub const NO_MATCH_TEXT: &'static str = "no orders found to match with FAK order";

pub open spec fn failure_of(msg: Seq<char>) -> EntryFailure {
    if contains(msg, NO_MATCH_TEXT@) {
        EntryFailure::NoMatch
    } else if contains(msg, "invalid amounts"@) || contains(
        msg,
        "invalid amount for a marketable BUY order"@,
    ) || contains(msg, "min size"@) {
        EntryFailure::Deterministic
    } else {
        EntryFailure::Other
    }
}

pub fn classify_entry_failure(msg: &str) -> (r: EntryFailure)
    ensures
        r == failure_of(msg@),
{
    if contains_text(msg, NO_MATCH_TEXT) {
        EntryFailure::NoMatch
    } else if contains_text(msg, "invalid amounts") || contains_text(
        msg,
        "invalid amount for a marketable BUY order",
    ) || contains_text(msg, "min size") {
        EntryFailure::Deterministic
    } else {
        EntryFailure::Other
    }
}

/// Milliseconds before the next try when nobody sold.
pub const NO_MATCH_RETRY_SLEEP_MS: u64 = 10;

/// Milliseconds before the next try after a failure of another kind.
pub const OTHER_RETRY_SLEEP_MS: u64 = 250;

/// The milliseconds to wait before the next try; none when there is to be no other.
pub open spec fn retry_delay(failure: EntryFailure, attempt: int, max_attempts: int) -> Option<u64> {
    if failure == EntryFailure::Deterministic || attempt >= max_attempts - 1 {
        None
    } else if failure == EntryFailure::NoMatch {
        Some(NO_MATCH_RETRY_SLEEP_MS)
    } else {
        Some(OTHER_RETRY_SLEEP_MS)
    }
}

/// Whether to try again after attempt number `attempt`, counted from zero, and after how
/// many milliseconds.
pub fn retry_entry_failure(failure: EntryFailure, attempt: u32, max_attempts: u32) -> (r: Option<
    u64,
>)
    requires
        failure != EntryFailure::Deterministic ==> max_attempts > 0,
    ensures
        r == retry_delay(failure, attempt as int, max_attempts as int),
{
    if failure == EntryFailure::Deterministic {
        return None;
    }
    if attempt >= max_attempts - 1 {
        return None;
    }
    match failure {
        EntryFailure::NoMatch => Some(NO_MATCH_RETRY_SLEEP_MS),
        _ => Some(OTHER_RETRY_SLEEP_MS),
    }
}

/// Fills without an exchange. `fill_ratio` is the share of each order that fills.
#[derive(Clone, Copy, Debug)]
pub struct SimExecutionEngine {
    pub fill_ratio: Num,
}

impl Default for SimExecutionEngine {
    fn default() -> (r: Self)
        ensures
            r.fill_ratio == num(ONE),
    {
        Self::new()
    }
}

fn no_trade(error: &str, attempts: u32) -> (r: TradeResult)
    ensures
        r@ == failed_trade(error@, attempts),
{
    TradeResult {
        placed: false,
        filled_shares: num(ZERO),
        cost: num(ZERO),
        error: Some(error.to_owned()),
        attempts,
    }
}

pub open spec fn failed_trade(error: Seq<char>, attempts: u32) -> TradeView {
    TradeView {
        placed: false,
        filled_shares: num(ZERO),
        cost: num(ZERO),
        error: Some(error),
        attempts,
    }
}

fn no_close(error: &str, attempts: u32) -> (r: CloseResult)
    ensures
        r@ == failed_close(error@, attempts),
{
    CloseResult {
        filled_usdc: num(ZERO),
        status: SellStatus::Failed,
        shares_sold: num(ZERO),
        error: Some(error.to_owned()),
        attempts,
    }
}

pub open spec fn failed_close(error: Seq<char>, attempts: u32) -> CloseView {
    CloseView {
        filled_usdc: num(ZERO),
        status: SellStatus::Failed,
        shares_sold: num(ZERO),
        error: Some(error),
        attempts,
    }
}

fn no_limit_sell(error: &str) -> (r: LimitSellResult)
    ensures
        r@ == failed_limit_sell(error@),
{
    LimitSellResult { order_id: None, status: SellStatus::Failed, error: Some(error.to_owned()) }
}

pub open spec fn failed_limit_sell(error: Seq<char>) -> LimitSellView {
    LimitSellView { order_id: None, status: SellStatus::Failed, error: Some(error) }
}

impl SimExecutionEngine {
    pub fn new() -> (r: Self)
        ensures
            r.fill_ratio == num(ONE),
    {
        SimExecutionEngine { fill_ratio: num(ONE) }
    }

    pub fn with_fill_ratio(fill_ratio: Num) -> (r: Self)
        ensures
            r.fill_ratio == held(fill_ratio, num(ZERO), num(ONE)),
    {
        SimExecutionEngine { fill_ratio: num_clamp(fill_ratio, num(ZERO), num(ONE)) }
    }

    /// The buy at the price or the cap, whichever is lower.
    pub open spec fn bought(self, price: Num, size_usdc: Num, max_buy_price: Num, calc: Calc) -> TradeView {
        let capped = smaller(price, max_buy_price);
        let filled = rounded2(
            calc.times(rounded2(calc.over(size_usdc, capped), calc), self.fill_ratio),
            calc,
        );
        if price.le(num(ZERO)) {
            failed_trade("invalid price"@, 1)
        } else if filled.le(num(ZERO)) {
            failed_trade("ORDER_FAILED"@, 1)
        } else {
            TradeView {
                placed: true,
                filled_shares: filled,
                cost: capped,
                error: None,
                attempts: 1,
            }
        }
    }

    pub fn place<F: Fn(Op, Num, Num) -> Num>(
        &self,
        _token_id: TokenId,
        price: Num,
        size_usdc: Num,
        max_buy_price: Num,
        arith: &Arith<F>,
    ) -> (r: TradeResult)
        ensures
            r@ == self.bought(price, size_usdc, max_buy_price, arith@),
    {
        if price.le(num(ZERO)) {
            return no_trade("invalid price", 1);
        }
        let capped_price = num_min(price, max_buy_price);
        let requested_shares = round2(arith.over(size_usdc, capped_price), arith);
        let filled = round2(arith.times(requested_shares, self.fill_ratio), arith);
        if filled.le(num(ZERO)) {
            return no_trade("ORDER_FAILED", 1);
        }
        TradeResult {
            placed: true,
            filled_shares: filled,
            cost: capped_price,
            error: None,
            attempts: 1,
        }
    }

    pub fn place_limit_sell<W: Fn(Num, Layout) -> String>(
        &self,
        _token_id: TokenId,
        shares: Num,
        price: Num,
        writer: &Writer<W>,
    ) -> (r: LimitSellResult)
        ensures
            r@ == if shares.le(num(ZERO)) || price.le(num(ZERO)) {
                failed_limit_sell("invalid shares/price"@)
            } else {
                LimitSellView {
                    order_id: Some(
                        "sim-"@ + (writer@)(shares, Layout::Plain) + "-"@ + (writer@)(
                            price,
                            Layout::Plain,
                        ),
                    ),
                    status: SellStatus::Live,
                    error: None,
                }
            },
    {
        if shares.le(num(ZERO)) || price.le(num(ZERO)) {
            return no_limit_sell("invalid shares/price");
        }
        let mut id = "sim-".to_owned();
        id.append(writer.write(shares, Layout::Plain).as_str());
        id.append("-");
        id.append(writer.write(price, Layout::Plain).as_str());
        LimitSellResult { order_id: Some(id), status: SellStatus::Live, error: None }
    }

    pub fn close_position<F: Fn(Op, Num, Num) -> Num>(
        &self,
        _token_id: TokenId,
        shares: Num,
        arith: &Arith<F>,
    ) -> (r: CloseResult)
        ensures
            r@ == if shares.le(num(ZERO)) {
                failed_close("invalid shares"@, 1)
            } else {
                CloseView {
                    filled_usdc: num(ZERO),
                    status: SellStatus::Matched,
                    shares_sold: rounded2(arith@.times(shares, self.fill_ratio), arith@),
                    error: None,
                    attempts: 1,
                }
            },
    {
        if shares.le(num(ZERO)) {
            return no_close("invalid shares", 1);
        }
        let sold = round2(arith.times(shares, self.fill_ratio), arith);
        CloseResult {
            filled_usdc: num(ZERO),
            status: SellStatus::Matched,
            shares_sold: sold,
            error: None,
            attempts: 1,
        }
    }

    pub open spec fn closed_at_price(self, shares: Num, min_price: Num, calc: Calc) -> CloseView {
        let sold = rounded2(calc.times(shares, self.fill_ratio), calc);
        if shares.le(num(ZERO)) || min_price.le(num(ZERO)) {
            failed_close("invalid shares/price"@, 1)
        } else if sold.le(num(ZERO)) {
            failed_close("ORDER_FAILED"@, 1)
        } else {
            CloseView {
                filled_usdc: calc.times(sold, min_price),
                status: SellStatus::Matched,
                shares_sold: sold,
                error: None,
                attempts: 1,
            }
        }
    }

    pub fn close_position_at_price<F: Fn(Op, Num, Num) -> Num>(
        &self,
        _token_id: TokenId,
        shares: Num,
        min_price: Num,
        arith: &Arith<F>,
    ) -> (r: CloseResult)
        ensures
            r@ == self.closed_at_price(shares, min_price, arith@),
    {
        if shares.le(num(ZERO)) || min_price.le(num(ZERO)) {
            return no_close("invalid shares/price", 1);
        }
        let sold = round2(arith.times(shares, self.fill_ratio), arith);
        if sold.le(num(ZERO)) {
            return no_close("ORDER_FAILED", 1);
        }
        CloseResult {
            filled_usdc: arith.times(sold, min_price),
            status: SellStatus::Matched,
            shares_sold: sold,
            error: None,
            attempts: 1,
        }
    }

    pub fn cancel_limit_sell(&self, _order_id: &str) -> (r: bool)
        ensures
            r,
    {
        true
    }

    pub fn cancel_all(&self) -> (r: bool)
        ensures
            r,
    {
        true
    }
}

/// How often the orders of the live engine are tried.
#[derive(Clone, Copy, Debug)]
pub struct LiveConfig {
    /// Buys are sent once more than this.
    pub order_max_retries: u32,
    /// Resting sales are sent once more than this while the bought shares are not settled.
    pub settle_retries: u32,
    /// Milliseconds between two of these.
    pub settle_sleep_ms: u64,
    /// Closing sales are sent this often.
    pub close_max_retries: u32,
}

impl Default for LiveConfig {
    fn default() -> (r: Self)
        ensures
            r == (LiveConfig {
                order_max_retries: 2,
                settle_retries: 3,
                settle_sleep_ms: 1500,
                close_max_retries: 5,
            }),
    {
        LiveConfig {
            order_max_retries: 2,
            settle_retries: 3,
            settle_sleep_ms: 1500,
            close_max_retries: 5,
        }
    }
}

/// What the exchange made of a buy.
#[derive(Clone, Debug)]
pub enum BuyReply {
    /// The limit could not be put into the order.
    BadPrice,
    /// The amount could not be put into the order.
    BadAmount,
    /// Filled, in shares, for so many dollars.
    Filled { filled: Num, spent: Num },
    /// Taken, but not carried out.
    NotSuccessful,
    Error(String),
}

/// What to do next about a buy. Attempts are counted from zero.
#[derive(Clone, Debug)]
pub enum BuyStep {
    Done(TradeResult),
    /// Send the order with this limit, after so many milliseconds.
    Submit { attempt: u32, limit: Num, after_ms: u64 },
}

pub enum BuyStepView {
    Done(TradeView),
    Submit { attempt: u32, limit: Num, after_ms: u64 },
}

impl View for BuyStep {
    type V = BuyStepView;

    open spec fn view(&self) -> BuyStepView {
        match *self {
            BuyStep::Done(r) => BuyStepView::Done(r@),
            BuyStep::Submit { attempt, limit, after_ms } => BuyStepView::Submit {
                attempt,
                limit,
                after_ms,
            },
        }
    }
}

/// A buy of the live engine: `price` is what the signal saw, `max_buy_price` the cap.
#[derive(Clone, Copy, Debug)]
pub struct BuyOrder {
    pub price: Num,
    pub max_buy_price: Num,
    pub order_max_retries: u32,
}

impl BuyOrder {
    pub open spec fn max_attempts(self) -> int {
        1 + self.order_max_retries
    }

    pub open spec fn first_step(self, calc: Calc) -> BuyStepView {
        if self.price.le(num(ZERO)) {
            BuyStepView::Done(failed_trade("invalid price"@, 0))
        } else {
            BuyStepView::Submit {
                attempt: 0,
                limit: entry_limit(self.price, self.max_buy_price, 0, calc),
                after_ms: 0,
            }
        }
    }

    /// The step after a failed attempt.
    pub open spec fn step_after_failure(self, attempt: u32, msg: Seq<char>, calc: Calc) -> BuyStepView {
        match retry_delay(failure_of(msg), attempt as int, self.max_attempts()) {
            Some(ms) => BuyStepView::Submit {
                attempt: (attempt + 1) as u32,
                limit: entry_limit(self.price, self.max_buy_price, attempt + 1, calc),
                after_ms: ms,
            },
            None => BuyStepView::Done(failed_trade(msg, (attempt + 1) as u32)),
        }
    }

    pub open spec fn step_after(self, attempt: u32, reply: BuyReply, calc: Calc) -> BuyStepView {
        match reply {
            BuyReply::BadPrice => BuyStepView::Done(
                failed_trade("bad price"@, (attempt + 1) as u32),
            ),
            BuyReply::BadAmount => BuyStepView::Done(
                failed_trade("bad amount"@, (attempt + 1) as u32),
            ),
            BuyReply::Filled { filled, spent } => BuyStepView::Done(
                TradeView {
                    placed: true,
                    filled_shares: filled,
                    cost: if filled.gt(num(ZERO)) {
                        calc.over(spent, filled)
                    } else {
                        self.price
                    },
                    error: None,
                    attempts: (attempt + 1) as u32,
                },
            ),
            BuyReply::NotSuccessful => self.step_after_failure(
                attempt,
                "order not successful"@,
                calc,
            ),
            BuyReply::Error(msg) => self.step_after_failure(attempt, msg@, calc),
        }
    }

    /// The first step.
    pub fn start<F: Fn(Op, Num, Num) -> Num>(&self, arith: &Arith<F>) -> (r: BuyStep)
        ensures
            r@ == self.first_step(arith@),
    {
        if self.price.le(num(ZERO)) {
            return BuyStep::Done(no_trade("invalid price", 0));
        }
        BuyStep::Submit {
            attempt: 0,
            limit: aggressive_entry_price(self.price, self.max_buy_price, 0, arith),
            after_ms: 0,
        }
    }

    fn after_failure<F: Fn(Op, Num, Num) -> Num>(
        &self,
        attempt: u32,
        msg: &str,
        arith: &Arith<F>,
    ) -> (r: BuyStep)
        requires
            attempt < self.max_attempts(),
            self.order_max_retries < u32::MAX,
        ensures
            r@ == self.step_after_failure(attempt, msg@, arith@),
    {
        let max_attempts: u32 = 1 + self.order_max_retries;
        let failure = classify_entry_failure(msg);
        match retry_entry_failure(failure, attempt, max_attempts) {
            Some(ms) => BuyStep::Submit {
                attempt: attempt + 1,
                limit: aggressive_entry_price(
                    self.price,
                    self.max_buy_price,
                    attempt + 1,
                    arith,
                ),
                after_ms: ms,
            },
            None => BuyStep::Done(no_trade(msg, attempt + 1)),
        }
    }

    /// The step after the answer to an attempt.
    pub fn next<F: Fn(Op, Num, Num) -> Num>(
        &self,
        attempt: u32,
        reply: &BuyReply,
        arith: &Arith<F>,
    ) -> (r: BuyStep)
        requires
            attempt < self.max_attempts(),
            self.order_max_retries < u32::MAX,
        ensures
            r@ == self.step_after(attempt, *reply, arith@),
    {
        match reply {
            BuyReply::BadPrice => BuyStep::Done(no_trade("bad price", attempt + 1)),
            BuyReply::BadAmount => BuyStep::Done(no_trade("bad amount", attempt + 1)),
            BuyReply::Filled { filled, spent } => {
                let cost = if filled.gt(num(ZERO)) {
                    arith.over(*spent, *filled)
                } else {
                    self.price
                };
                BuyStep::Done(
                    TradeResult {
                        placed: true,
                        filled_shares: *filled,
                        cost,
                        error: None,
                        attempts: attempt + 1,
                    },
                )
            },
            BuyReply::NotSuccessful => self.after_failure(attempt, "order not successful", arith),
            BuyReply::Error(msg) => self.after_failure(attempt, msg.as_str(), arith),
        }
    }
}

/// Every buy ends: the answer to an attempt either ends it or asks for the next attempt,
/// and the answer to the last allowed attempt always ends it.
pub proof fn buy_ends(order: BuyOrder, attempt: u32, reply: BuyReply, calc: Calc)
    requires
        attempt < order.max_attempts(),
        order.order_max_retries < u32::MAX,
    ensures
        match order.step_after(attempt, reply, calc) {
            BuyStepView::Submit { attempt: next, limit, .. } => {
                &&& next == attempt + 1
                &&& next < order.max_attempts()
                &&& limit == order.max_buy_price
            },
            BuyStepView::Done(r) => r.attempts == attempt + 1,
        },
        attempt == order.order_max_retries ==> order.step_after(attempt, reply, calc) is Done,
{
}

/// An order that is itself at fault is not sent again.
pub proof fn faulty_buy_is_not_repeated(order: BuyOrder, attempt: u32, msg: String, calc: Calc)
    requires
        failure_of(msg@) == EntryFailure::Deterministic,
    ensures
        order.step_after(attempt, BuyReply::Error(msg), calc) == BuyStepView::Done(
            failed_trade(msg@, (attempt + 1) as u32),
        ),
{
}

/// The bits of 0.01: the step between two prices.
pub const TICK: u64 = 0x3F84_7AE1_47AE_147B;

/// The price on the grid of the exchange, inside its bounds.
pub open spec fn snapped(price: Num, calc: Calc) -> Num {
    held(
        calc.times(calc.round(calc.over(price, num(TICK))), num(TICK)),
        num(TICK),
        calc.minus(num(ONE), num(TICK)),
    )
}

/// What the exchange made of a resting sale.
#[derive(Clone, Debug)]
pub enum LimitReply {
    Posted { taking: Num, order_id: String },
    Error(String),
}

/// What to do next about a resting sale. Attempts are counted from zero.
#[derive(Clone, Debug)]
pub enum LimitStep {
    Done(LimitSellResult),
    /// Put price and size into an order.
    Prepare { price: Num, shares: Num },
    /// Send the order, after so many milliseconds.
    Submit { attempt: u32, after_ms: u64 },
}

pub enum LimitStepView {
    Done(LimitSellView),
    Prepare { price: Num, shares: Num },
    Submit { attempt: u32, after_ms: u64 },
}

impl View for LimitStep {
    type V = LimitStepView;

    open spec fn view(&self) -> LimitStepView {
        match *self {
            LimitStep::Done(r) => LimitStepView::Done(r@),
            LimitStep::Prepare { price, shares } => LimitStepView::Prepare { price, shares },
            LimitStep::Submit { attempt, after_ms } => LimitStepView::Submit { attempt, after_ms },
        }
    }
}

/// The first step of a resting sale.
pub fn limit_sell_start<F: Fn(Op, Num, Num) -> Num>(shares: Num, price: Num, arith: &Arith<F>) -> (r:
    LimitStep)
    ensures
        r@ == if shares.le(num(ZERO)) || price.le(num(ZERO)) {
            LimitStepView::Done(failed_limit_sell("invalid shares/price"@))
        } else {
            LimitStepView::Prepare {
                price: snapped(price, arith@),
                shares: floored2(shares, arith@),
            }
        },
{
    if shares.le(num(ZERO)) || price.le(num(ZERO)) {
        return LimitStep::Done(no_limit_sell("invalid shares/price"));
    }
    let tick = num(TICK);
    let on_grid = arith.times(arith.round(arith.over(price, tick)), tick);
    let price = num_clamp(on_grid, tick, arith.minus(num(ONE), tick));
    LimitStep::Prepare { price, shares: floor2(shares, arith) }
}

/// The step once price and size were put into an order, or could not be.
pub fn limit_sell_prepared(price_ok: bool, size_ok: bool) -> (r: LimitStep)
    ensures
        r@ == if !price_ok {
            LimitStepView::Done(failed_limit_sell("bad price"@))
        } else if !size_ok {
            LimitStepView::Done(failed_limit_sell("bad size"@))
        } else {
            LimitStepView::Submit { attempt: 0, after_ms: 0 }
        },
{
    if !price_ok {
        LimitStep::Done(no_limit_sell("bad price"))
    } else if !size_ok {
        LimitStep::Done(no_limit_sell("bad size"))
    } else {
        LimitStep::Submit { attempt: 0, after_ms: 0 }
    }
}

/// The step after the answer to a resting sale. Only shares that are not settled yet are
/// waited for.
pub open spec fn limit_step_after(cfg: LiveConfig, attempt: u32, reply: LimitReply) -> LimitStepView {
    match reply {
        LimitReply::Posted { taking, order_id } => LimitStepView::Done(
            if taking.gt(num(ZERO)) {
                LimitSellView { order_id: None, status: SellStatus::Matched, error: None }
            } else if order_id@.len() > 0 {
                LimitSellView {
                    order_id: Some(order_id@),
                    status: SellStatus::Live,
                    error: None,
                }
            } else {
                failed_limit_sell("empty order_id, no fill"@)
            },
        ),
        LimitReply::Error(msg) => if contains(msg@, "balance: 0"@) && attempt
            < cfg.settle_retries {
            LimitStepView::Submit { attempt: (attempt + 1) as u32, after_ms: cfg.settle_sleep_ms }
        } else {
            LimitStepView::Done(failed_limit_sell(msg@))
        },
    }
}

pub fn limit_sell_next(cfg: &LiveConfig, attempt: u32, reply: &LimitReply) -> (r: LimitStep)
    ensures
        r@ == limit_step_after(*cfg, attempt, *reply),
{
    match reply {
        LimitReply::Posted { taking, order_id } => {
            if taking.gt(num(ZERO)) {
                LimitStep::Done(
                    LimitSellResult { order_id: None, status: SellStatus::Matched, error: None },
                )
            } else if !order_id.as_str().is_empty() {
                LimitStep::Done(
                    LimitSellResult {
                        order_id: Some(order_id.clone()),
                        status: SellStatus::Live,
                        error: None,
                    },
                )
            } else {
                LimitStep::Done(no_limit_sell("empty order_id, no fill"))
            }
        },
        LimitReply::Error(msg) => {
            if contains_text(msg.as_str(), "balance: 0") && attempt < cfg.settle_retries {
                LimitStep::Submit { attempt: attempt + 1, after_ms: cfg.settle_sleep_ms }
            } else {
                LimitStep::Done(no_limit_sell(msg.as_str()))
            }
        },
    }
}

/// What the exchange made of a closing sale.
#[derive(Clone, Debug)]
pub enum SellReply {
    Filled { filled_usdc: Num, sold: Num },
    NotSuccessful,
    Error(String),
}

/// What to do next about a closing sale. Attempts are counted from one.
#[derive(Clone, Debug)]
pub enum CloseStep {
    Done(CloseResult),
    /// Put the size, and the least price where there is one, into an order.
    Prepare { shares: Num, min_price: Option<Num> },
    /// Send the order, after so many milliseconds.
    Submit { attempt: u32, after_ms: u64 },
}

pub enum CloseStepView {
    Done(CloseView),
    Prepare { shares: Num, min_price: Option<Num> },
    Submit { attempt: u32, after_ms: u64 },
}

impl View for CloseStep {
    type V = CloseStepView;

    open spec fn view(&self) -> CloseStepView {
        match *self {
            CloseStep::Done(r) => CloseStepView::Done(r@),
            CloseStep::Prepare { shares, min_price } => CloseStepView::Prepare {
                shares,
                min_price,
            },
            CloseStep::Submit { attempt, after_ms } => CloseStepView::Submit { attempt, after_ms },
        }
    }
}

/// The first step of a closing sale at any price.
pub fn close_start<F: Fn(Op, Num, Num) -> Num>(shares: Num, arith: &Arith<F>) -> (r: CloseStep)
    ensures
        r@ == if shares.le(num(ZERO)) {
            CloseStepView::Done(failed_close("invalid shares"@, 0))
        } else {
            CloseStepView::Prepare { shares: floored2(shares, arith@), min_price: None }
        },
{
    if shares.le(num(ZERO)) {
        return CloseStep::Done(no_close("invalid shares", 0));
    }
    CloseStep::Prepare { shares: floor2(shares, arith), min_price: None }
}

/// The step once the size was put into an order, or could not be.
pub fn close_prepared(cfg: &LiveConfig, size_ok: bool) -> (r: CloseStep)
    ensures
        r@ == if !size_ok {
            CloseStepView::Done(failed_close("bad size"@, 0))
        } else if cfg.close_max_retries == 0 {
            CloseStepView::Done(failed_close("CLOSE_RETRIES_EXHAUSTED"@, 0))
        } else {
            CloseStepView::Submit { attempt: 1, after_ms: 0 }
        },
{
    if !size_ok {
        CloseStep::Done(no_close("bad size", 0))
    } else if cfg.close_max_retries == 0 {
        CloseStep::Done(no_close("CLOSE_RETRIES_EXHAUSTED", 0))
    } else {
        CloseStep::Submit { attempt: 1, after_ms: 0 }
    }
}

/// Milliseconds before a closing sale is sent again while the shares are not settled.
pub const BALANCE_RETRY_SLEEP_MS: u64 = 1000;

/// What an answer to a closing sale says when it is final.
pub open spec fn close_result(attempt: u32, reply: SellReply) -> CloseView {
    match reply {
        SellReply::Filled { filled_usdc, sold } => CloseView {
            filled_usdc,
            status: SellStatus::Matched,
            shares_sold: sold,
            error: None,
            attempts: attempt,
        },
        SellReply::NotSuccessful => failed_close("order not successful"@, attempt),
        SellReply::Error(msg) => failed_close(msg@, attempt),
    }
}

/// The step after the answer to a closing sale: tried again at once when nobody bought,
/// and after a while when the shares are not settled.
pub open spec fn close_step_after(cfg: LiveConfig, attempt: u32, reply: SellReply) -> CloseStepView {
    match reply {
        SellReply::Error(msg) => if attempt < cfg.close_max_retries && contains(
            msg@,
            NO_MATCH_TEXT@,
        ) {
            CloseStepView::Submit { attempt: (attempt + 1) as u32, after_ms: 0 }
        } else if attempt < cfg.close_max_retries && contains(msg@, "not enough balance"@) {
            CloseStepView::Submit {
                attempt: (attempt + 1) as u32,
                after_ms: BALANCE_RETRY_SLEEP_MS,
            }
        } else {
            CloseStepView::Done(close_result(attempt, reply))
        },
        _ => CloseStepView::Done(close_result(attempt, reply)),
    }
}

fn close_end(attempt: u32, reply: &SellReply) -> (r: CloseResult)
    ensures
        r@ == close_result(attempt, *reply),
{
    match reply {
        SellReply::Filled { filled_usdc, sold } => CloseResult {
            filled_usdc: *filled_usdc,
            status: SellStatus::Matched,
            shares_sold: *sold,
            error: None,
            attempts: attempt,
        },
        SellReply::NotSuccessful => no_close("order not successful", attempt),
        SellReply::Error(msg) => no_close(msg.as_str(), attempt),
    }
}

pub fn close_next(cfg: &LiveConfig, attempt: u32, reply: &SellReply) -> (r: CloseStep)
    ensures
        r@ == close_step_after(*cfg, attempt, *reply),
        match *reply {
            SellReply::Filled { filled_usdc, sold } => {
                &&& r is Done
                &&& r->Done_0.filled_usdc == filled_usdc
                &&& r->Done_0.shares_sold == sold
                &&& r->Done_0.status == SellStatus::Matched
                &&& r->Done_0.error is None
                &&& r->Done_0.attempts == attempt
            },
            _ => true,
        },
{
    if let SellReply::Error(msg) = reply {
        if attempt < cfg.close_max_retries {
            if contains_text(msg.as_str(), NO_MATCH_TEXT) {
                return CloseStep::Submit { attempt: attempt + 1, after_ms: 0 };
            }
            if contains_text(msg.as_str(), "not enough balance") {
                return CloseStep::Submit {
                    attempt: attempt + 1,
                    after_ms: BALANCE_RETRY_SLEEP_MS,
                };
            }
        }
    }
    CloseStep::Done(close_end(attempt, reply))
}

/// Every closing sale ends: it is sent at most `close_max_retries` times.
pub proof fn close_ends(cfg: LiveConfig, attempt: u32, reply: SellReply)
    requires
        1 <= attempt <= cfg.close_max_retries,
    ensures
        match close_step_after(cfg, attempt, reply) {
            CloseStepView::Submit { attempt: next, .. } => next == attempt + 1 && next
                <= cfg.close_max_retries,
            CloseStepView::Done(r) => r.attempts == attempt,
            CloseStepView::Prepare { .. } => false,
        },
{
}

/// Every resting sale ends: it is sent at most once more than `settle_retries`.
pub proof fn limit_sell_ends(cfg: LiveConfig, attempt: u32, reply: LimitReply)
    requires
        attempt <= cfg.settle_retries,
    ensures
        match limit_step_after(cfg, attempt, reply) {
            LimitStepView::Submit { attempt: next, .. } => next == attempt + 1 && next
                <= cfg.settle_retries,
            LimitStepView::Done(_) => true,
            LimitStepView::Prepare { .. } => false,
        },
{
}

/// The first step of a closing sale at no less than a price.
pub fn close_at_price_start<F: Fn(Op, Num, Num) -> Num>(
    shares: Num,
    min_price: Num,
    arith: &Arith<F>,
) -> (r: CloseStep)
    ensures
        r@ == if shares.le(num(ZERO)) || min_price.le(num(ZERO)) {
            CloseStepView::Done(failed_close("invalid shares/price"@, 0))
        } else {
            CloseStepView::Prepare {
                shares: floored2(shares, arith@),
                min_price: Some(min_price),
            }
        },
{
    if shares.le(num(ZERO)) || min_price.le(num(ZERO)) {
        return CloseStep::Done(no_close("invalid shares/price", 0));
    }
    CloseStep::Prepare { shares: floor2(shares, arith), min_price: Some(min_price) }
}

/// The step once size and price were put into an order, or could not be.
pub fn close_at_price_prepared(size_ok: bool, price_ok: bool) -> (r: CloseStep)
    ensures
        r@ == if !size_ok {
            CloseStepView::Done(failed_close("bad size"@, 0))
        } else if !price_ok {
            CloseStepView::Done(failed_close("bad price"@, 0))
        } else {
            CloseStepView::Submit { attempt: 1, after_ms: 0 }
        },
{
    if !size_ok {
        CloseStep::Done(no_close("bad size", 0))
    } else if !price_ok {
        CloseStep::Done(no_close("bad price", 0))
    } else {
        CloseStep::Submit { attempt: 1, after_ms: 0 }
    }
}

/// What came of a closing sale at no less than a price. It is sent once: the next price
/// tick is the time to try again.
pub fn close_at_price_result(reply: &SellReply) -> (r: CloseResult)
    ensures
        r@ == close_result(1, *reply),
        match *reply {
            SellReply::Filled { filled_usdc, sold } => {
                &&& r.filled_usdc == filled_usdc
                &&& r.shares_sold == sold
                &&& r.status == SellStatus::Matched
                &&& r.error is None
                &&& r.attempts == 1
            },
            _ => true,
        },
{
    close_end(1, reply)
}

/// What the exchange made of a cancellation.
#[derive(Clone, Debug)]
pub enum CancelReply {
    Answered { canceled: Vec<String>, not_canceled: Vec<String> },
    Error(String),
}

/// Whether the order is gone: it was cancelled, nothing was said against it, or it was gone
/// before. An order without a name was never there.
pub open spec fn is_gone(order_id: Seq<char>, reply: CancelReply) -> bool {
    match reply {
        CancelReply::Answered { canceled, not_canceled } => views(canceled@).contains(order_id)
            || !views(not_canceled@).contains(order_id),
        CancelReply::Error(msg) => {
            let low = lowercase(msg@);
            contains(low, "not found"@) || contains(low, "cancelled"@) || contains(low, "filled"@)
        },
    }
}

/// Whether a cancellation has to be sent at all.
pub fn needs_cancel(order_id: &str) -> (r: bool)
    ensures
        r == (order_id@.len() > 0),
{
    !order_id.is_empty()
}

/// `cancelled_by` for an error message already in small letters.
pub fn error_means_gone(low: &str) -> (r: bool)
    ensures
        r == (contains(low@, "not found"@) || contains(low@, "cancelled"@) || contains(
            low@,
            "filled"@,
        )),
{
    contains_text(low, "not found") || contains_text(low, "cancelled") || contains_text(
        low,
        "filled",
    )
}

pub fn cancelled_by(order_id: &str, reply: &CancelReply) -> (r: bool)
    ensures
        r == is_gone(order_id@, *reply),
{
    match reply {
        CancelReply::Answered { canceled, not_canceled } => holds_text(canceled, order_id)
            || !holds_text(not_canceled, order_id),
        CancelReply::Error(msg) => error_means_gone(to_lower(msg.as_str()).as_str()),
    }
}

/// The kinds of wallet behind an account.
#[derive(Clone, Copy, Debug, PartialEq, Eq, Structural)]
pub enum SignatureKind {
    Eoa,
    Proxy,
    GnosisSafe,
    Poly1271,
}

/// The wallet that a setting names; a proxy when there is no setting.
pub open spec fn signature_of(raw: Option<Seq<char>>) -> Option<SignatureKind> {
    match raw {
        None => Some(SignatureKind::Proxy),
        Some(s) => {
            let t = trimmed(s);
            if t == "0"@ {
                Some(SignatureKind::Eoa)
            } else if t == "1"@ {
                Some(SignatureKind::Proxy)
            } else if t == "2"@ {
                Some(SignatureKind::GnosisSafe)
            } else if t == "3"@ {
                Some(SignatureKind::Poly1271)
            } else {
                None
            }
        },
    }
}

/// The wallet that a setting names, none when it names no wallet.
pub fn signature_kind(raw: Option<String>) -> (r: Option<SignatureKind>)
    ensures
        r == signature_of(opt_view(raw)),
{
    match raw {
        None => Some(SignatureKind::Proxy),
        Some(s) => {
            let t = trim_text(s.as_str());
            if same_text(t.as_str(), "0") {
                Some(SignatureKind::Eoa)
            } else if same_text(t.as_str(), "1") {
                Some(SignatureKind::Proxy)
            } else if same_text(t.as_str(), "2") {
                Some(SignatureKind::GnosisSafe)
            } else if same_text(t.as_str(), "3") {
                Some(SignatureKind::Poly1271)
            } else {
                None
            }
        },
    }
}

/// The bits of 1000000.0: the base units of a dollar.
pub const USDC_UNITS: u64 = 0x412E_8480_0000_0000;

/// Dollars from the base units that the exchange writes.
pub fn balance_usdc<F: Fn(Op, Num, Num) -> Num, P: Fn(String) -> Option<Num>>(
    raw: &str,
    arith: &Arith<F>,
    reader: &Reader<P>,
) -> (r: Option<Num>)
    ensures
        r == match (reader@)(raw@) {
            Some(x) => Some(arith@.over(x, num(USDC_UNITS))),
            None => None,
        },
{
    match reader.read(raw.to_owned()) {
        Some(x) => Some(arith.over(x, num(USDC_UNITS))),
        None => None,
    }
}

} // verus!

//! Temperature markets: each city has one event a day, with one yes/no market for each
//! bucket of temperatures. A bucket is bought when its price dips and recovers.

use vstd::prelude::*;
use vstd::string::StringExecFns;

use crate::calendar::{in_range, local_date, local_day, CivilDate};
use crate::execution::{CloseResult, SellStatus, TokenId, TradeResult, TWO};
use crate::json::{any_at, has_items, is_json, json_len, len_at, reads_as_json};
use crate::marketdata::{
    as_text, market_field, market_text, read_string_list, string_list, usable, MetaError,
};
use crate::num::{num, Arith, Calc, Layout, Num, Op, Writer, ZERO};
use crate::telegram::commands::opt_view;
use crate::text::{
    decimal, decimal_text, same_but_for_case, same_letters, signed_decimal, signed_text, views,
};

verus! {

#[derive(Clone, Debug)]
pub struct WeatherConfig {
    pub cities: Vec<String>,
    /// A dip below `low` and a recovery above `high` buys.
    pub low: Num,
    pub high: Num,
    pub sl_pnl: Num,
    pub unwind_pnl: Num,
    pub max_hold_secs: Num,
    pub trade_size_usdc: Num,
    /// The most that is paid for a share.
    pub max_buy_price: Num,
    /// A bucket is left alone after so many trades in a day.
    pub max_trades_per_bucket: u32,
    /// Seconds between two looks for the event of the day.
    pub refresh_interval_secs: u64,
}

/// The bits of 0.95.
pub const MAX_BUY_PRICE: u64 = 0x3FEE_6666_6666_6666;

pub fn default_max_buy_price() -> (r: Num)
    ensures
        r == num(MAX_BUY_PRICE),
{
    num(MAX_BUY_PRICE)
}

pub fn default_max_trades_per_bucket() -> (r: u32)
    ensures
        r == 1,
{
    1
}

pub fn default_refresh_interval_secs() -> (r: u64)
    ensures
        r == 600,
{
    600
}

/// What is wrong with a configuration.
#[derive(Clone, Copy, Debug, PartialEq, Eq, Structural)]
pub enum WeatherConfigError {
    EmptyCities,
    BadBand { low: Num, high: Num },
}

impl WeatherConfigError {
    pub open spec fn text(self, path: Seq<char>, write: spec_fn(Num, Layout) -> Seq<char>) -> Seq<char> {
        match self {
            WeatherConfigError::EmptyCities => "weather config "@ + path
                + " has an empty `cities` list"@,
            WeatherConfigError::BadBand { low, high } => "weather config: `low` ("@ + write(
                low,
                Layout::Plain,
            ) + ") must be strictly below `high` ("@ + write(high, Layout::Plain) + ")"@,
        }
    }

    pub fn message<W: Fn(Num, Layout) -> String>(&self, path: &str, writer: &Writer<W>) -> (r: String)
        ensures
            r@ == self.text(path@, writer@),
    {
        match self {
            WeatherConfigError::EmptyCities => {
                let mut r = "weather config ".to_owned();
                r.append(path);
                r.append(" has an empty `cities` list");
                r
            },
            WeatherConfigError::BadBand { low, high } => {
                let mut r = "weather config: `low` (".to_owned();
                r.append(writer.write(*low, Layout::Plain).as_str());
                r.append(") must be strictly below `high` (");
                r.append(writer.write(*high, Layout::Plain).as_str());
                r.append(")");
                r
            },
        }
    }
}

impl WeatherConfig {
    /// Checks what was read from a file: there must be a city, and the band must not be
    /// empty.
    pub fn validate(&self) -> (r: Result<(), WeatherConfigError>)
        ensures
            r == if self.cities@.len() == 0 {
                Err(WeatherConfigError::EmptyCities)
            } else if self.low.ge(self.high) {
                Err(WeatherConfigError::BadBand { low: self.low, high: self.high })
            } else {
                Ok(())
            },
    {
        if self.cities.len() == 0 {
            return Err(WeatherConfigError::EmptyCities);
        }
        if self.low.ge(self.high) {
            return Err(WeatherConfigError::BadBand { low: self.low, high: self.high });
        }
        Ok(())
    }
}

pub open spec fn month_text(m: int) -> Seq<char> {
    if m == 1 {
        "january"@
    } else if m == 2 {
        "february"@
    } else if m == 3 {
        "march"@
    } else if m == 4 {
        "april"@
    } else if m == 5 {
        "may"@
    } else if m == 6 {
        "june"@
    } else if m == 7 {
        "july"@
    } else if m == 8 {
        "august"@
    } else if m == 9 {
        "september"@
    } else if m == 10 {
        "october"@
    } else if m == 11 {
        "november"@
    } else {
        "december"@
    }
}

pub fn month_name(m: u32) -> (r: &'static str)
    ensures
        r@ == month_text(m as int),
{
    match m {
        1 => "january",
        2 => "february",
        3 => "march",
        4 => "april",
        5 => "may",
        6 => "june",
        7 => "july",
        8 => "august",
        9 => "september",
        10 => "october",
        11 => "november",
        _ => "december",
    }
}

/// The name of a city's event on a day.
pub open spec fn event_slug(city: Seq<char>, date: CivilDate) -> Seq<char> {
    "highest-temperature-in-"@ + city + "-on-"@ + month_text(date.month as int) + "-"@ + decimal(
        date.day as nat,
    ) + "-"@ + signed_decimal(date.year as int)
}

/// The name of a city's event on a day.
pub fn slug_on(city: &str, date: CivilDate) -> (r: String)
    ensures
        r@ == event_slug(city@, date),
{
    let mut r = "highest-temperature-in-".to_owned();
    r.append(city);
    r.append("-on-");
    r.append(month_name(date.month));
    r.append("-");
    r.append(decimal_text(date.day as u64).as_str());
    r.append("-");
    r.append(signed_text(date.year as i64).as_str());
    r
}

/// The name of a city's event on the day, at Greenwich, of the instant `now_secs`.
pub fn today_slug(city: &str, now_secs: i64) -> (r: String)
    requires
        in_range(now_secs as int, 0),
    ensures
        exists|date: CivilDate| #[trigger]
            date.is_valid() && date.number() == local_day(now_secs as int, 0) && r@ == event_slug(
                city@,
                date,
            ),
{
    slug_on(city, local_date(now_secs, 0))
}

/// A bucket of an event.
#[derive(Clone, Debug)]
pub struct Bucket {
    /// For instance `84-85°F`.
    pub label: String,
    pub yes_token: TokenId,
}

/// The place of the first outcome called yes.
pub open spec fn yes_place(outcomes: Seq<Seq<char>>, from: int) -> Option<int>
    decreases outcomes.len() - from,
{
    if from < 0 || from >= outcomes.len() {
        None
    } else if same_letters(outcomes[from], "yes"@) {
        Some(from)
    } else {
        yes_place(outcomes, from + 1)
    }
}

/// The token at the place of the first outcome called yes.
pub open spec fn yes_token_of(outcomes: Seq<Seq<char>>, ids: Seq<Seq<char>>) -> Option<Seq<char>> {
    match yes_place(outcomes, 0) {
        Some(i) => if i < ids.len() {
            Some(ids[i])
        } else {
            None
        },
        None => None,
    }
}

pub fn find_yes_token(outcomes: &Vec<String>, ids: &Vec<String>) -> (r: Option<String>)
    ensures
        opt_view(r) == yes_token_of(views(outcomes@), views(ids@)),
{
    let ghost os = views(outcomes@);
    let mut i: usize = 0;
    while i < outcomes.len()
        invariant
            i <= outcomes@.len(),
            os == views(outcomes@),
            yes_place(os, 0) == yes_place(os, i as int),
        decreases outcomes@.len() - i,
    {
        assert(os[i as int] == outcomes@[i as int]@);
        if same_but_for_case(outcomes[i].as_str(), "yes") {
            if i < ids.len() {
                assert(views(ids@)[i as int] == ids@[i as int]@);
                return Some(ids[i].clone());
            }
            return None;
        }
        i = i + 1;
    }
    None
}

/// The list that a text writes, empty where it writes none.
pub open spec fn list_or_empty(text: Seq<char>) -> Seq<Seq<char>> {
    match string_list(text) {
        Some(list) => list,
        None => Seq::empty(),
    }
}

fn read_list_or_empty(text: &str) -> (r: Vec<String>)
    ensures
        views(r@) == list_or_empty(text@),
{
    match read_string_list(text) {
        Some(list) => list,
        None => {
            let r: Vec<String> = Vec::new();
            assert(views(r@) =~= Seq::empty());
            r
        },
    }
}

/// The yes token of a market, from the texts of its lists. A market that lacks a list is
/// passed over.
pub fn bucket_token(token_ids: Option<&str>, outcomes: Option<&str>) -> (r: Option<String>)
    ensures
        opt_view(r) == match (token_ids, outcomes) {
            (Some(t), Some(o)) => yes_token_of(list_or_empty(o@), list_or_empty(t@)),
            _ => None,
        },
{
    match (token_ids, outcomes) {
        (Some(t), Some(o)) => {
            let ids = read_list_or_empty(t);
            let names = read_list_or_empty(o);
            find_yes_token(&names, &ids)
        },
        _ => None,
    }
}

/// What a bucket is called: its title, else its question, else a question mark.
pub fn bucket_label(title: Option<&str>, question: Option<&str>) -> (r: String)
    ensures
        r@ == match (title, question) {
            (Some(t), _) => t@,
            (None, Some(q)) => q@,
            (None, None) => "?"@,
        },
{
    match (title, question) {
        (Some(t), _) => t.to_owned(),
        (None, Some(q)) => q.to_owned(),
        (None, None) => "?".to_owned(),
    }
}

/// A bucket as an answer tells it: what it is called, and the number of its yes token.
#[derive(Clone, Debug, PartialEq)]
pub struct NamedToken {
    pub label: String,
    pub token: String,
}

/// What the bucket at a place of an answer is called.
pub open spec fn label_at(body: Seq<u8>, i: nat) -> Seq<char> {
    match (market_text(body, i, "groupItemTitle"@), market_text(body, i, "question"@)) {
        (Some(t), _) => t,
        (None, Some(q)) => q,
        (None, None) => "?"@,
    }
}

/// The yes token of the bucket at a place of an answer.
pub open spec fn token_at(body: Seq<u8>, i: nat) -> Option<Seq<char>> {
    match (market_text(body, i, "clobTokenIds"@), market_text(body, i, "outcomes"@)) {
        (Some(t), Some(o)) => yes_token_of(list_or_empty(o), list_or_empty(t)),
        _ => None,
    }
}

/// The labels and yes tokens of the first `n` markets of an answer, without those that have
/// no yes token.
pub open spec fn buckets_among(body: Seq<u8>, n: nat) -> Seq<(Seq<char>, Seq<char>)>
    decreases n,
{
    if n == 0 {
        Seq::empty()
    } else {
        let before = buckets_among(body, (n - 1) as nat);
        match token_at(body, (n - 1) as nat) {
            Some(token) => before.push((label_at(body, (n - 1) as nat), token)),
            None => before,
        }
    }
}

/// The labels and tokens over their texts.
pub open spec fn named_views(buckets: Seq<NamedToken>) -> Seq<(Seq<char>, Seq<char>)> {
    buckets.map_values(|b: NamedToken| (b.label@, b.token@))
}

/// The buckets of the first event in an answer of the Gamma API, in the order of its markets.
/// No event, or one without a list of markets, is no failure; an answer that is no JSON is.
pub fn buckets_in(body: &[u8]) -> (r: Result<Option<Vec<NamedToken>>, MetaError>)
    ensures
        match r {
            Err(e) => e == MetaError::BadJson && !is_json(body@),
            Ok(None) => is_json(body@) && (!has_items(body@, ""@) || json_len(
                body@,
                "/0/markets"@,
            ) is None),
            Ok(Some(buckets)) => {
                &&& is_json(body@)
                &&& has_items(body@, ""@)
                &&& json_len(body@, "/0/markets"@) is Some
                &&& named_views(buckets@) == buckets_among(
                    body@,
                    json_len(body@, "/0/markets"@)->0 as nat,
                )
            },
        },
{
    if !reads_as_json(body) {
        return Err(MetaError::BadJson);
    }
    if !any_at(body, "") {
        return Ok(None);
    }
    let n = match len_at(body, "/0/markets") {
        Some(n) => n,
        None => {
            return Ok(None);
        },
    };
    let mut buckets: Vec<NamedToken> = Vec::new();
    let mut i: usize = 0;
    assert(named_views(buckets@) =~= Seq::empty());
    while i < n
        invariant
            i <= n,
            named_views(buckets@) == buckets_among(body@, i as nat),
        decreases n - i,
    {
        let ghost before = buckets@;
        let ids = market_field(body, i, "clobTokenIds");
        let names = market_field(body, i, "outcomes");
        if let Some(token) = bucket_token(as_text(&ids), as_text(&names)) {
            let title = market_field(body, i, "groupItemTitle");
            let question = market_field(body, i, "question");
            let label = bucket_label(as_text(&title), as_text(&question));
            let ghost named = (label@, token@);
            buckets.push(NamedToken { label, token });
            assert(named_views(buckets@) =~= named_views(before).push(named));
        }
        i = i + 1;
    }
    Ok(Some(buckets))
}

/// What came of looking for the event of the day.
#[derive(Clone, Copy, Debug, PartialEq, Eq, Structural)]
pub enum Discovery {
    /// The look failed.
    Failed,
    /// There is no event yet.
    NoEvent,
    /// The event has so many buckets.
    Buckets(usize),
}

/// What a city does next.
#[derive(Clone, Copy, Debug, PartialEq, Eq, Structural)]
pub enum CityStep {
    /// Trade the buckets.
    Trade,
    /// Look again after so many seconds.
    Wait { secs: u64 },
}

/// Seconds after a failed look.
pub const DISCOVERY_RETRY_SECS: u64 = 60;

/// Seconds between the end of the prices and the next look.
pub const RESUBSCRIBE_SECS: u64 = 2;

/// What to do after a look: an event without buckets is waited for like one that is not
/// there.
pub fn after_discovery(found: Discovery, cfg: &WeatherConfig) -> (r: CityStep)
    ensures
        r == match found {
            Discovery::Failed => CityStep::Wait { secs: DISCOVERY_RETRY_SECS },
            Discovery::NoEvent => CityStep::Wait { secs: cfg.refresh_interval_secs },
            Discovery::Buckets(n) => if n > 0 {
                CityStep::Trade
            } else {
                CityStep::Wait { secs: cfg.refresh_interval_secs }
            },
        },
{
    match found {
        Discovery::Failed => CityStep::Wait { secs: DISCOVERY_RETRY_SECS },
        Discovery::Buckets(n) if n > 0 => CityStep::Trade,
        _ => CityStep::Wait { secs: cfg.refresh_interval_secs },
    }
}

/// The middle of a quote, none when the quote is of no use.
pub fn mid_of_quote<F: Fn(Op, Num, Num) -> Num>(bid: Num, ask: Num, arith: &Arith<F>) -> (r: Option<Num>)
    ensures
        r == if usable(bid, ask) {
            Some(arith@.over(arith@.plus(bid, ask), num(TWO)))
        } else {
            None
        },
{
    if bid.is_finite() && ask.is_finite() && bid.gt(num(ZERO)) && ask.gt(num(ZERO)) {
        Some(arith.over(arith.plus(bid, ask), num(TWO)))
    } else {
        None
    }
}

/// A closed trade.
#[derive(Clone, Debug)]
pub struct WeatherTrade {
    pub city: String,
    pub bucket: String,
    pub entry_ts: Num,
    pub exit_ts: Num,
    pub entry_price: Num,
    pub exit_price: Num,
    pub shares: Num,
    pub outcome: &'static str,
    pub pnl: Num,
}

#[derive(Clone, Copy, Debug, PartialEq, Eq, Structural)]
pub enum BucketState {
    Watching { saw_low: bool },
    Holding { entry_ts: Num, entry_price: Num, shares: Num },
    /// The trades of the day are used up.
    Done,
}

/// The trading of one bucket. Only the yes side is bought: no of one bucket is as good as
/// yes of the others.
#[derive(Clone, Debug)]
pub struct BucketTrader {
    pub bucket: Bucket,
    pub state: BucketState,
    pub trades_today: u32,
}

/// Why a bucket is sold.
#[derive(Clone, Copy, Debug, PartialEq, Eq, Structural)]
pub enum CloseReason {
    StopLoss,
    Unwind,
    Timeout,
}

impl CloseReason {
    pub open spec fn text(self) -> Seq<char> {
        match self {
            CloseReason::StopLoss => "STOPLOSS"@,
            CloseReason::Unwind => "UNWIND"@,
            CloseReason::Timeout => "TIMEOUT"@,
        }
    }

    pub fn as_str(self) -> (r: &'static str)
        ensures
            r@ == self.text(),
    {
        match self {
            CloseReason::StopLoss => "STOPLOSS",
            CloseReason::Unwind => "UNWIND",
            CloseReason::Timeout => "TIMEOUT",
        }
    }
}

/// What a tick asks for.
#[derive(Clone, Copy, Debug, PartialEq, Eq, Structural)]
pub enum BucketAction {
    Nothing,
    Enter { price: Num },
    /// Sell, at no less than `floor` where there is one.
    Close { outcome: CloseReason, floor: Option<Num> },
}

/// The state after a tick: a dip is remembered.
pub open spec fn state_after(state: BucketState, cfg: WeatherConfig, mid: Num) -> BucketState {
    match state {
        BucketState::Watching { saw_low } => BucketState::Watching {
            saw_low: saw_low || mid.lt(cfg.low),
        },
        other => other,
    }
}

/// What a tick asks for.
pub open spec fn action_for(
    state: BucketState,
    cfg: WeatherConfig,
    mid: Num,
    ts: Num,
    calc: Calc,
) -> BucketAction {
    match state {
        BucketState::Done => BucketAction::Nothing,
        BucketState::Watching { saw_low } => if (saw_low || mid.lt(cfg.low)) && mid.gt(cfg.high)
            && mid.le(cfg.max_buy_price) {
            BucketAction::Enter { price: mid }
        } else {
            BucketAction::Nothing
        },
        BucketState::Holding { entry_ts, entry_price, .. } => if mid.le(
            calc.minus(entry_price, cfg.sl_pnl),
        ) {
            BucketAction::Close { outcome: CloseReason::StopLoss, floor: None }
        } else if mid.ge(calc.plus(entry_price, cfg.unwind_pnl)) {
            BucketAction::Close {
                outcome: CloseReason::Unwind,
                floor: Some(calc.plus(entry_price, cfg.unwind_pnl)),
            }
        } else if calc.minus(ts, entry_ts).ge(cfg.max_hold_secs) {
            BucketAction::Close { outcome: CloseReason::Timeout, floor: None }
        } else {
            BucketAction::Nothing
        },
    }
}

/// The state after a sale went through.
pub open spec fn state_after_close(trades: int, cfg: WeatherConfig) -> BucketState {
    if trades >= cfg.max_trades_per_bucket {
        BucketState::Done
    } else {
        BucketState::Watching { saw_low: false }
    }
}

/// Takes a price and says what to do.
pub fn on_tick<F: Fn(Op, Num, Num) -> Num>(
    trader: &mut BucketTrader,
    cfg: &WeatherConfig,
    mid: Num,
    ts: Num,
    arith: &Arith<F>,
) -> (r: BucketAction)
    ensures
        *final(trader) == (BucketTrader {
            state: state_after(old(trader).state, *cfg, mid),
            ..*old(trader)
        }),
        r == action_for(old(trader).state, *cfg, mid, ts, arith@),
{
    match trader.state {
        BucketState::Done => BucketAction::Nothing,
        BucketState::Watching { saw_low } => {
            let dipped = saw_low || mid.lt(cfg.low);
            trader.state = BucketState::Watching { saw_low: dipped };
            if dipped && mid.gt(cfg.high) && mid.le(cfg.max_buy_price) {
                BucketAction::Enter { price: mid }
            } else {
                BucketAction::Nothing
            }
        },
        BucketState::Holding { entry_ts, entry_price, .. } => {
            let elapsed = arith.minus(ts, entry_ts);
            let target = arith.plus(entry_price, cfg.unwind_pnl);
            if mid.le(arith.minus(entry_price, cfg.sl_pnl)) {
                BucketAction::Close { outcome: CloseReason::StopLoss, floor: None }
            } else if mid.ge(target) {
                BucketAction::Close { outcome: CloseReason::Unwind, floor: Some(target) }
            } else if elapsed.ge(cfg.max_hold_secs) {
                BucketAction::Close { outcome: CloseReason::Timeout, floor: None }
            } else {
                BucketAction::Nothing
            }
        },
    }
}

impl BucketTrader {
    pub fn new(bucket: Bucket) -> (r: Self)
        ensures
            r == (BucketTrader {
                bucket,
                state: BucketState::Watching { saw_low: false },
                trades_today: 0,
            }),
    {
        BucketTrader { bucket, state: BucketState::Watching { saw_low: false }, trades_today: 0 }
    }

    /// Takes what came of a buy. Without a fill the bucket stays watched and the dip is
    /// still remembered. Says whether a position was opened.
    pub fn on_entry_result(&mut self, result: &TradeResult, now: Num) -> (r: bool)
        ensures
            r == (result.placed && result.filled_shares.gt(num(ZERO))),
            *final(self) == if r {
                BucketTrader {
                    state: BucketState::Holding {
                        entry_ts: now,
                        entry_price: result.cost,
                        shares: result.filled_shares,
                    },
                    ..*old(self)
                }
            } else {
                *old(self)
            },
    {
        if result.placed && result.filled_shares.gt(num(ZERO)) {
            self.state =
            BucketState::Holding {
                entry_ts: now,
                entry_price: result.cost,
                shares: result.filled_shares,
            };
            return true;
        }
        false
    }

    /// The trade that a sale closed.
    pub open spec fn closes(
        self,
        t: WeatherTrade,
        city: Seq<char>,
        reason: CloseReason,
        result: CloseResult,
        now: Num,
        calc: Calc,
    ) -> bool {
        match self.state {
            BucketState::Holding { entry_ts, entry_price, shares } => {
                &&& t.city@ == city
                &&& t.bucket@ == self.bucket.label@
                &&& t.entry_ts == entry_ts
                &&& t.exit_ts == now
                &&& t.entry_price == entry_price
                &&& t.exit_price == if result.shares_sold.gt(num(ZERO)) {
                    calc.over(result.filled_usdc, result.shares_sold)
                } else {
                    num(ZERO)
                }
                &&& t.shares == shares
                &&& t.outcome@ == reason.text()
                &&& t.pnl == calc.minus(result.filled_usdc, calc.times(shares, entry_price))
            },
            _ => false,
        }
    }

    /// Takes what came of a sale. A sale that did not go through leaves the position open,
    /// to be tried again on a later tick.
    pub fn on_close_result<F: Fn(Op, Num, Num) -> Num>(
        &mut self,
        cfg: &WeatherConfig,
        city: &str,
        reason: CloseReason,
        result: &CloseResult,
        now: Num,
        arith: &Arith<F>,
    ) -> (r: Option<WeatherTrade>)
        requires
            old(self).trades_today < u32::MAX,
        ensures
            match r {
                Some(t) => {
                    &&& old(self).state is Holding
                    &&& result.status == SellStatus::Matched
                    &&& old(self).closes(t, city@, reason, *result, now, arith@)
                    &&& *final(self) == (BucketTrader {
                        state: state_after_close(old(self).trades_today + 1, *cfg),
                        trades_today: (old(self).trades_today + 1) as u32,
                        ..*old(self)
                    })
                },
                None => {
                    &&& *final(self) == *old(self)
                    &&& !(old(self).state is Holding) || result.status != SellStatus::Matched
                },
            },
    {
        let (entry_ts, entry_price, shares) = match self.state {
            BucketState::Holding { entry_ts, entry_price, shares } => (
                entry_ts,
                entry_price,
                shares,
            ),
            _ => {
                return None;
            },
        };
        if result.status != SellStatus::Matched {
            return None;
        }
        let exit_price = if result.shares_sold.gt(num(ZERO)) {
            arith.over(result.filled_usdc, result.shares_sold)
        } else {
            num(ZERO)
        };
        let pnl = arith.minus(result.filled_usdc, arith.times(shares, entry_price));
        self.trades_today = self.trades_today + 1;
        self.state =
        if self.trades_today >= cfg.max_trades_per_bucket {
            BucketState::Done
        } else {
            BucketState::Watching { saw_low: false }
        };
        Some(
            WeatherTrade {
                city: city.to_owned(),
                bucket: self.bucket.label.clone(),
                entry_ts,
                exit_ts: now,
                entry_price,
                exit_price,
                shares,
                outcome: reason.as_str(),
                pnl,
            },
        )
    }
}

/// A bucket is bought only after a dip, above the band, and never above the cap.
pub proof fn entry_needs_dip_and_cap(
    state: BucketState,
    cfg: WeatherConfig,
    mid: Num,
    ts: Num,
    calc: Calc,
)
    ensures
        action_for(state, cfg, mid, ts, calc) is Enter ==> {
            &&& state is Watching
            &&& state_after(state, cfg, mid) == (BucketState::Watching { saw_low: true })
            &&& action_for(state, cfg, mid, ts, calc) == (BucketAction::Enter { price: mid })
            &&& mid.gt(cfg.high)
            &&& mid.le(cfg.max_buy_price)
        },
{
}

/// With a band that passed the check, one price cannot both make the dip and buy: the dip
/// was seen on an earlier tick.
pub proof fn dip_comes_before_entry(
    state: BucketState,
    cfg: WeatherConfig,
    mid: Num,
    ts: Num,
    calc: Calc,
)
    requires
        !cfg.low.ge(cfg.high),
        !cfg.low.is_nan(),
        !cfg.high.is_nan(),
        action_for(state, cfg, mid, ts, calc) is Enter,
    ensures
        state == (BucketState::Watching { saw_low: true }),
{
}

/// A bucket whose trades are used up stays so and asks for nothing.
pub proof fn done_is_final(cfg: WeatherConfig, mid: Num, ts: Num, calc: Calc)
    ensures
        state_after(BucketState::Done, cfg, mid) == BucketState::Done,
        action_for(BucketState::Done, cfg, mid, ts, calc) == BucketAction::Nothing,
{
}

/// With the last trade of the day the bucket is done: while it is watched or held, fewer
/// trades were made than are allowed, where one at least is allowed.
pub proof fn trades_stay_in_budget(trades: int, cfg: WeatherConfig)
    requires
        0 <= trades < cfg.max_trades_per_bucket,
    ensures
        trades + 1 <= cfg.max_trades_per_bucket,
        state_after_close(trades + 1, cfg) != BucketState::Done ==> trades + 1
            < cfg.max_trades_per_bucket,
{
}

} // verus!

//! Names and prices of markets.

use vstd::prelude::*;
use vstd::string::StringExecFns;

use crate::execution::TWO;
use crate::json::{any_at, has_items, is_json, json_text, reads_as_json, text_at};
use crate::num::{num, Arith, Calc, Num, Op, Reader, ONE, ZERO};
use crate::telegram::commands::opt_view;
use crate::telegram::control::str_view;
use crate::text::{
    after_last, decimal, decimal_reads_back, decimal_text, is_decimal, is_digit, lowercase,
    same_text, to_lower, to_upper, trim_text, trimmed, uppercase, views,
};
use crate::types::PolyTick;

verus! {

/// The start of the interval in which `secs` lies.
pub open spec fn slot_of(secs: int, interval: int) -> int {
    secs / interval * interval
}

/// The start of the interval in which `now` lies.
pub fn current_slot<F: Fn(Op, Num, Num) -> Num>(now: Num, interval: u64, arith: &Arith<F>) -> (r: u64)
    requires
        interval > 0,
    ensures
        r == slot_of(arith@.to_unsigned(now) as int, interval as int),
        r % interval == 0,
        r <= arith@.to_unsigned(now) < r + interval,
{
    let secs: u64 = arith.to_unsigned(now);
    proof {
        slot_holds(secs as int, interval as int);
    }
    (secs / interval) * interval
}

/// An instant lies in its slot, and a slot starts on a multiple of the interval.
pub proof fn slot_holds(secs: int, interval: int)
    requires
        secs >= 0,
        interval > 0,
    ensures
        0 <= slot_of(secs, interval) <= secs < slot_of(secs, interval) + interval,
        slot_of(secs, interval) % interval == 0,
{
    vstd::arithmetic::div_mod::lemma_fundamental_div_mod(secs, interval);
    vstd::arithmetic::div_mod::lemma_mod_multiples_basic(secs / interval, interval);
    vstd::arithmetic::mul::lemma_mul_is_commutative(secs / interval, interval);
    vstd::arithmetic::div_mod::lemma_div_pos_is_pos(secs, interval);
    vstd::arithmetic::mul::lemma_mul_nonnegative(secs / interval, interval);
}

/// The name of a market.
pub open spec fn slug_text(asset: Seq<char>, slot: nat, suffix: Seq<char>) -> Seq<char> {
    lowercase(asset) + "-updown-"@ + suffix + "-"@ + decimal(slot)
}

/// The name of a market, for instance `btc-updown-5m-1783046100`.
pub fn make_slug(asset: &str, slot: u64, suffix: &str) -> (r: String)
    ensures
        r@ == slug_text(asset@, slot as nat, suffix@),
{
    let mut r = to_lower(asset);
    r.append("-updown-");
    r.append(suffix);
    r.append("-");
    r.append(decimal_text(slot).as_str());
    r
}

proof fn after_last_of_digits(s: Seq<char>, digits: Seq<char>)
    requires
        forall|i: int| 0 <= i < digits.len() ==> is_digit(#[trigger] digits[i]),
    ensures
        after_last(s + "-"@ + digits, '-') == digits,
    decreases digits.len(),
{
    reveal_strlit("-");
    let all = s + "-"@ + digits;
    if digits.len() == 0 {
        assert(all.last() == '-');
        assert(digits =~= Seq::empty());
    } else {
        assert(all.last() == digits.last());
        assert(is_digit(digits[digits.len() - 1]));
        after_last_of_digits(s, digits.drop_last());
        assert(all.drop_last() =~= s + "-"@ + digits.drop_last());
        assert(digits =~= digits.drop_last().push(digits.last()));
    }
}

/// The name of a market ends in its slot: what follows the last dash is the slot in
/// decimal, whatever the asset and the suffix are.
pub proof fn slug_ends_in_slot(asset: Seq<char>, slot: nat, suffix: Seq<char>)
    ensures
        after_last(slug_text(asset, slot, suffix), '-') == decimal(slot),
        is_decimal(decimal(slot)),
        crate::text::decimal_value(decimal(slot)) == slot,
{
    decimal_reads_back(slot);
    after_last_of_digits(lowercase(asset) + "-updown-"@ + suffix, decimal(slot));
}

/// What `serde_json` reads from a text as a list of strings.
pub uninterp spec fn string_list(text: Seq<char>) -> Option<Seq<Seq<char>>>;

pub open spec fn list_view(list: Option<Vec<String>>) -> Option<Seq<Seq<char>>> {
    match list {
        Some(v) => Some(views(v@)),
        None => None,
    }
}

/// `serde_json::from_str` into a list of strings; none where the text is not the JSON of
/// one.
#[verifier::external_body]
pub(crate) fn read_string_list(text: &str) -> (r: Option<Vec<String>>)
    ensures
        list_view(r) == string_list(text@),
{
    serde_json::from_str::<Vec<String>>(text).ok()
}

/// Why the tokens of a market cannot be told.
#[derive(Clone, Debug, PartialEq)]
pub enum MetaError {
    /// The answer is no JSON.
    BadJson,
    /// The answer holds no event.
    NoEvent { slug: String },
    /// The event has no market.
    NoMarket { slug: String },
    /// A list of the market could not be read.
    BadList,
    /// No outcome of that name.
    NoToken { target: String, slug: String },
}

/// A `MetaError` over its texts.
pub enum MetaView {
    BadJson,
    NoEvent { slug: Seq<char> },
    NoMarket { slug: Seq<char> },
    BadList,
    NoToken { target: Seq<char>, slug: Seq<char> },
}

impl View for MetaError {
    type V = MetaView;

    open spec fn view(&self) -> MetaView {
        match self {
            MetaError::BadJson => MetaView::BadJson,
            MetaError::NoEvent { slug } => MetaView::NoEvent { slug: slug@ },
            MetaError::NoMarket { slug } => MetaView::NoMarket { slug: slug@ },
            MetaError::BadList => MetaView::BadList,
            MetaError::NoToken { target, slug } => MetaView::NoToken {
                target: target@,
                slug: slug@,
            },
        }
    }
}

impl MetaError {
    pub open spec fn text(self) -> Seq<char> {
        match self {
            MetaError::BadJson => "gamma json"@,
            MetaError::NoEvent { slug } => "no event for "@ + slug@,
            MetaError::NoMarket { slug } => "no market for "@ + slug@,
            MetaError::BadList => "the lists of the market cannot be read"@,
            MetaError::NoToken { target, slug } => "no "@ + target@ + " token in "@ + slug@,
        }
    }

    pub fn message(&self) -> (r: String)
        ensures
            r@ == self.text(),
    {
        match self {
            MetaError::BadJson => "gamma json".to_owned(),
            MetaError::NoEvent { slug } => {
                let mut r = "no event for ".to_owned();
                r.append(slug.as_str());
                r
            },
            MetaError::NoMarket { slug } => {
                let mut r = "no market for ".to_owned();
                r.append(slug.as_str());
                r
            },
            MetaError::BadList => "the lists of the market cannot be read".to_owned(),
            MetaError::NoToken { target, slug } => {
                let mut r = "no ".to_owned();
                r.append(target.as_str());
                r.append(" token in ");
                r.append(slug.as_str());
                r
            },
        }
    }
}

/// The token of the first outcome, among those that have one, whose name in small letters
/// is the target.
pub open spec fn token_for(outcomes: Seq<Seq<char>>, ids: Seq<Seq<char>>, target: Seq<char>) -> Option<
    Seq<char>,
>
    decreases outcomes.len(),
{
    if outcomes.len() == 0 || ids.len() == 0 {
        None
    } else if lowercase(outcomes[0]) == target {
        Some(ids[0])
    } else {
        token_for(outcomes.drop_first(), ids.drop_first(), target)
    }
}

/// The token of an outcome.
pub fn find_token(outcomes: &Vec<String>, ids: &Vec<String>, target: &str, slug: &str) -> (r: Result<
    String,
    MetaError,
>)
    ensures
        match r {
            Ok(id) => token_for(views(outcomes@), views(ids@), target@) == Some(id@),
            Err(e) => {
                &&& token_for(views(outcomes@), views(ids@), target@) is None
                &&& e is NoToken
                &&& e->NoToken_target@ == target@
                &&& e->NoToken_slug@ == slug@
            },
        },
{
    let ghost os = views(outcomes@);
    let ghost ts = views(ids@);
    let mut i: usize = 0;
    assert(os.skip(0) =~= os);
    assert(ts.skip(0) =~= ts);
    while i < outcomes.len() && i < ids.len()
        invariant
            i <= outcomes@.len(),
            i <= ids@.len(),
            os == views(outcomes@),
            ts == views(ids@),
            token_for(os, ts, target@) == token_for(
                os.skip(i as int),
                ts.skip(i as int),
                target@,
            ),
        decreases outcomes@.len() - i,
    {
        assert(os.skip(i as int)[0] == outcomes@[i as int]@);
        assert(ts.skip(i as int)[0] == ids@[i as int]@);
        assert(os.skip(i as int).drop_first() =~= os.skip(i + 1));
        assert(ts.skip(i as int).drop_first() =~= ts.skip(i + 1));
        if same_text(to_lower(outcomes[i].as_str()).as_str(), target) {
            return Ok(ids[i].clone());
        }
        i = i + 1;
    }
    Err(MetaError::NoToken { target: target.to_owned(), slug: slug.to_owned() })
}

/// The text of a list, an empty list when there is none.
pub open spec fn list_text(text: Option<Seq<char>>) -> Seq<char> {
    match text {
        Some(t) => t,
        None => "[]"@,
    }
}

/// The outcomes and token numbers of a market, as it lists them.
#[derive(Clone, Debug)]
pub struct MarketLists {
    pub outcomes: Vec<String>,
    pub token_ids: Vec<String>,
}

pub(crate) fn as_text(text: &Option<String>) -> (r: Option<&str>)
    ensures
        str_view(r) == opt_view(*text),
{
    match text {
        Some(t) => Some(t.as_str()),
        None => None,
    }
}

/// Reads the two lists of a market. A list that the market lacks is empty.
pub fn read_market_lists(token_ids: Option<&str>, outcomes: Option<&str>) -> (r: Result<
    MarketLists,
    MetaError,
>)
    ensures
        ({
            let ids = string_list(list_text(str_view(token_ids)));
            let names = string_list(list_text(str_view(outcomes)));
            match r {
                Ok(m) => ids == Some(views(m.token_ids@)) && names == Some(views(m.outcomes@)),
                Err(e) => (ids is None || names is None) && e == MetaError::BadList,
            }
        }),
{
    let ids_text = match token_ids {
        Some(t) => t,
        None => "[]",
    };
    let names_text = match outcomes {
        Some(t) => t,
        None => "[]",
    };
    match (read_string_list(ids_text), read_string_list(names_text)) {
        (Some(token_ids), Some(outcomes)) => Ok(MarketLists { outcomes, token_ids }),
        _ => Err(MetaError::BadList),
    }
}

/// The string under a name in a market of the first event.
pub open spec fn market_text(body: Seq<u8>, i: nat, field: Seq<char>) -> Option<Seq<char>> {
    json_text(body, "/0/markets/"@ + decimal(i) + "/"@ + field)
}

pub(crate) fn market_field(body: &[u8], i: usize, field: &str) -> (r: Option<String>)
    ensures
        opt_view(r) == market_text(body@, i as nat, field@),
{
    let mut path = "/0/markets/".to_owned();
    path.append(decimal_text(i as u64).as_str());
    path.append("/");
    path.append(field);
    text_at(body, path.as_str())
}

/// The up token and the down token of the first market in an answer.
pub open spec fn tokens_in(body: Seq<u8>, slug: Seq<char>) -> Result<
    (Seq<char>, Seq<char>),
    MetaView,
> {
    if !is_json(body) {
        Err(MetaView::BadJson)
    } else if !has_items(body, ""@) {
        Err(MetaView::NoEvent { slug })
    } else if !has_items(body, "/0/markets"@) {
        Err(MetaView::NoMarket { slug })
    } else {
        match (
            string_list(list_text(market_text(body, 0, "clobTokenIds"@))),
            string_list(list_text(market_text(body, 0, "outcomes"@))),
        ) {
            (Some(ids), Some(names)) => match (
                token_for(names, ids, "up"@),
                token_for(names, ids, "down"@),
            ) {
                (Some(up), Some(down)) => Ok((up, down)),
                (None, _) => Err(MetaView::NoToken { target: "up"@, slug }),
                (_, None) => Err(MetaView::NoToken { target: "down"@, slug }),
            },
            _ => Err(MetaView::BadList),
        }
    }
}

/// Two tokens, or why there are none, over their texts.
pub open spec fn tokens_view(r: Result<(String, String), MetaError>) -> Result<
    (Seq<char>, Seq<char>),
    MetaView,
> {
    match r {
        Ok((up, down)) => Ok((up@, down@)),
        Err(e) => Err(e@),
    }
}

/// The up token and the down token of the first market in an answer of the Gamma API.
pub fn market_tokens(body: &[u8], slug: &str) -> (r: Result<(String, String), MetaError>)
    ensures
        tokens_view(r) == tokens_in(body@, slug@),
{
    if !reads_as_json(body) {
        return Err(MetaError::BadJson);
    }
    if !any_at(body, "") {
        return Err(MetaError::NoEvent { slug: slug.to_owned() });
    }
    if !any_at(body, "/0/markets") {
        return Err(MetaError::NoMarket { slug: slug.to_owned() });
    }
    let ids = market_field(body, 0, "clobTokenIds");
    let names = market_field(body, 0, "outcomes");
    let lists = match read_market_lists(as_text(&ids), as_text(&names)) {
        Ok(lists) => lists,
        Err(_) => {
            return Err(MetaError::BadList);
        },
    };
    let up = match find_token(&lists.outcomes, &lists.token_ids, "up", slug) {
        Ok(up) => up,
        Err(e) => {
            return Err(e);
        },
    };
    match find_token(&lists.outcomes, &lists.token_ids, "down", slug) {
        Ok(down) => Ok((up, down)),
        Err(e) => Err(e),
    }
}

/// The bits of 0.99: a price at which an outcome counts as decided.
pub const DECIDED: u64 = 0x3FEF_AE14_7AE1_47AE;

/// Whether UP won: the first outcome with a decided price that is UP or DOWN tells. A price
/// that cannot be read leaves it open.
pub open spec fn went_up(
    outcomes: Seq<Seq<char>>,
    prices: Seq<Seq<char>>,
    read: spec_fn(Seq<char>) -> Option<Num>,
) -> Option<bool>
    decreases outcomes.len(),
{
    if outcomes.len() == 0 || prices.len() == 0 {
        None
    } else {
        match read(prices[0]) {
            None => None,
            Some(price) => {
                let name = uppercase(trimmed(outcomes[0]));
                if price.ge(num(DECIDED)) && name == "UP"@ {
                    Some(true)
                } else if price.ge(num(DECIDED)) && name == "DOWN"@ {
                    Some(false)
                } else {
                    went_up(outcomes.drop_first(), prices.drop_first(), read)
                }
            },
        }
    }
}

/// Whether UP won, from the outcomes and their prices.
pub fn resolution_of<P: Fn(String) -> Option<Num>>(
    outcomes: &Vec<String>,
    prices: &Vec<String>,
    reader: &Reader<P>,
) -> (r: Option<bool>)
    ensures
        r == went_up(views(outcomes@), views(prices@), reader@),
{
    let ghost os = views(outcomes@);
    let ghost ps = views(prices@);
    let mut i: usize = 0;
    assert(os.skip(0) =~= os);
    assert(ps.skip(0) =~= ps);
    while i < outcomes.len() && i < prices.len()
        invariant
            i <= outcomes@.len(),
            i <= prices@.len(),
            os == views(outcomes@),
            ps == views(prices@),
            went_up(os, ps, reader@) == went_up(os.skip(i as int), ps.skip(i as int), reader@),
        decreases outcomes@.len() - i,
    {
        assert(os.skip(i as int)[0] == outcomes@[i as int]@);
        assert(ps.skip(i as int)[0] == prices@[i as int]@);
        assert(os.skip(i as int).drop_first() =~= os.skip(i + 1));
        assert(ps.skip(i as int).drop_first() =~= ps.skip(i + 1));
        match reader.read(prices[i].clone()) {
            None => {
                return None;
            },
            Some(price) => {
                if price.ge(num(DECIDED)) {
                    let name = to_upper(trim_text(outcomes[i].as_str()).as_str());
                    if same_text(name.as_str(), "UP") {
                        return Some(true);
                    }
                    if same_text(name.as_str(), "DOWN") {
                        return Some(false);
                    }
                }
            },
        }
        i = i + 1;
    }
    None
}

/// Whether UP won, from the texts of the market's lists; open while a list is missing or
/// cannot be read.
pub fn gamma_resolution<P: Fn(String) -> Option<Num>>(
    outcomes: Option<&str>,
    prices: Option<&str>,
    reader: &Reader<P>,
) -> (r: Option<bool>)
    ensures
        r == match (outcomes, prices) {
            (Some(o), Some(p)) => match (string_list(o@), string_list(p@)) {
                (Some(names), Some(values)) => went_up(names, values, reader@),
                _ => None,
            },
            _ => None,
        },
{
    match (outcomes, prices) {
        (Some(o), Some(p)) => match (read_string_list(o), read_string_list(p)) {
            (Some(names), Some(values)) => resolution_of(&names, &values, reader),
            _ => None,
        },
        _ => None,
    }
}

/// Whether UP won in the first market of an answer of the Gamma API; open while the answer
/// holds no such market.
pub fn resolution_in<P: Fn(String) -> Option<Num>>(body: &[u8], reader: &Reader<P>) -> (r: Option<
    bool,
>)
    ensures
        r == if has_items(body@, ""@) && has_items(body@, "/0/markets"@) {
            match (
                market_text(body@, 0, "outcomes"@),
                market_text(body@, 0, "outcomePrices"@),
            ) {
                (Some(o), Some(p)) => match (string_list(o), string_list(p)) {
                    (Some(names), Some(values)) => went_up(names, values, reader@),
                    _ => None,
                },
                _ => None,
            }
        } else {
            None
        },
{
    if !any_at(body, "") || !any_at(body, "/0/markets") {
        return None;
    }
    let names = market_field(body, 0, "outcomes");
    let prices = market_field(body, 0, "outcomePrices");
    gamma_resolution(as_text(&names), as_text(&prices), reader)
}

/// The price in a message of the Binance trade stream, none when it tells none.
pub fn trade_price<P: Fn(String) -> Option<Num>>(message: &[u8], reader: &Reader<P>) -> (r: Option<
    Num,
>)
    ensures
        r == match json_text(message@, "/p"@) {
            Some(text) => (reader@)(text),
            None => None,
        },
{
    match text_at(message, "/p") {
        Some(text) => reader.read(text),
        None => None,
    }
}

/// A quote with which something can be done.
pub open spec fn usable(bid: Num, ask: Num) -> bool {
    bid.is_finite() && ask.is_finite() && !bid.le(num(ZERO)) && !ask.le(num(ZERO))
}

/// The tick of a quote: UP stands in the middle of bid and ask, DOWN is the rest to one.
pub open spec fn quote_tick(ts: Num, bid: Num, ask: Num, calc: Calc) -> PolyTick {
    let up = calc.over(calc.plus(bid, ask), num(TWO));
    PolyTick { ts, up, dn: calc.minus(num(ONE), up), up_bid: bid, up_ask: ask }
}

/// The tick of a quote for the UP token, none when the quote is of no use.
pub fn tick_of_quote<F: Fn(Op, Num, Num) -> Num>(ts: Num, bid: Num, ask: Num, arith: &Arith<F>) -> (r:
    Option<PolyTick>)
    ensures
        r == if usable(bid, ask) {
            Some(quote_tick(ts, bid, ask, arith@))
        } else {
            None
        },
{
    if !bid.is_finite() || !ask.is_finite() || bid.le(num(ZERO)) || ask.le(num(ZERO)) {
        return None;
    }
    let up = arith.over(arith.plus(bid, ask), num(TWO));
    Some(PolyTick { ts, up, dn: arith.minus(num(ONE), up), up_bid: bid, up_ask: ask })
}

} // verus!

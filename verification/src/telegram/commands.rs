//! Commands: the text of a chat message, as a command.

use vstd::prelude::*;
use vstd::string::StringExecFns;

use crate::text::{
    ascii, begins_with, case_is_lowered, first_word_stands_alone, holds_text, join, join_from,
    joined, lowercase, parse_u64, same_but_for_first_word, same_text, split, split_text,
    split_words, stands_at, to_lower, to_upper, trim_text, trimmed, unsigned_of, uppercase, views,
    words,
};

verus! {

/// The parameters that `/set` can change, in alphabetical order.
pub open spec fn settable() -> Seq<Seq<char>> {
    seq![
        "delta_pct_hp"@,
        "delta_pct_rev"@,
        "enter_when_time_left"@,
        "halt_prob"@,
        "halt_reset_hour_hp"@,
        "halt_reset_hour_rev"@,
        "halt_rev"@,
        "min_cycle_remaining_at_load"@,
        "no_enter_when_time_left"@,
        "price_high"@,
        "price_high_rev"@,
        "price_low"@,
        "reversal"@,
        "reversal_low_threshold"@,
        "sl_high_prob"@,
        "sl_pnl_hp"@,
        "sl_pnl_rev"@,
        "sl_reversal"@,
        "trade_assets"@,
        "trade_size_usdc"@,
        "unwind_pnl_hp"@,
        "unwind_pnl_rev"@,
    ]
}

/// The parameters that can be set for one asset.
pub open spec fn per_asset() -> Seq<Seq<char>> {
    seq![
        "delta_pct_hp"@,
        "delta_pct_rev"@,
        "enter_when_time_left"@,
        "halt_prob"@,
        "halt_reset_hour_hp"@,
        "halt_reset_hour_rev"@,
        "halt_rev"@,
        "price_high"@,
        "price_high_rev"@,
        "price_low"@,
        "reversal"@,
        "reversal_low_threshold"@,
        "sl_high_prob"@,
        "sl_reversal"@,
        "trade_size_usdc"@,
    ]
}

fn owned(names: Vec<&'static str>) -> (r: Vec<String>)
    ensures
        views(r@) == names@.map_values(|s: &'static str| s@),
{
    let mut r: Vec<String> = Vec::new();
    let mut i: usize = 0;
    while i < names.len()
        invariant
            i <= names@.len(),
            views(r@) == names@.map_values(|s: &'static str| s@).take(i as int),
        decreases names@.len() - i,
    {
        let ghost before = r@;
        r.push(names[i].to_owned());
        assert(views(r@) =~= views(before).push(names@[i as int]@));
        assert(names@.map_values(|s: &'static str| s@).take(i + 1) =~= names@.map_values(
            |s: &'static str| s@,
        ).take(i as int).push(names@[i as int]@));
        i = i + 1;
    }
    assert(names@.map_values(|s: &'static str| s@).take(i as int) =~= names@.map_values(
        |s: &'static str| s@,
    ));
    r
}

pub fn settable_params() -> (r: Vec<String>)
    ensures
        views(r@) == settable(),
{
    let r = owned(
        vec![
            "delta_pct_hp",
            "delta_pct_rev",
            "enter_when_time_left",
            "halt_prob",
            "halt_reset_hour_hp",
            "halt_reset_hour_rev",
            "halt_rev",
            "min_cycle_remaining_at_load",
            "no_enter_when_time_left",
            "price_high",
            "price_high_rev",
            "price_low",
            "reversal",
            "reversal_low_threshold",
            "sl_high_prob",
            "sl_pnl_hp",
            "sl_pnl_rev",
            "sl_reversal",
            "trade_assets",
            "trade_size_usdc",
            "unwind_pnl_hp",
            "unwind_pnl_rev",
        ],
    );
    assert(views(r@) =~= settable());
    r
}

pub fn dict_params() -> (r: Vec<String>)
    ensures
        views(r@) == per_asset(),
{
    let r = owned(
        vec![
            "delta_pct_hp",
            "delta_pct_rev",
            "enter_when_time_left",
            "halt_prob",
            "halt_reset_hour_hp",
            "halt_reset_hour_rev",
            "halt_rev",
            "price_high",
            "price_high_rev",
            "price_low",
            "reversal",
            "reversal_low_threshold",
            "sl_high_prob",
            "sl_reversal",
            "trade_size_usdc",
        ],
    );
    assert(views(r@) =~= per_asset());
    r
}

/// The proper name of a parameter.
pub open spec fn proper_name(param: Seq<char>) -> Seq<char> {
    if param == "min_delta_hp"@ || param == "delta_hp"@ {
        "delta_pct_hp"@
    } else if param == "min_delta_rev"@ || param == "delta_rev"@ {
        "delta_pct_rev"@
    } else {
        param
    }
}

pub fn resolve_alias(param: &str) -> (r: String)
    ensures
        r@ == proper_name(param@),
{
    if same_text(param, "min_delta_hp") || same_text(param, "delta_hp") {
        "delta_pct_hp".to_owned()
    } else if same_text(param, "min_delta_rev") || same_text(param, "delta_rev") {
        "delta_pct_rev".to_owned()
    } else {
        param.to_owned()
    }
}

#[derive(Clone, Copy, Debug, PartialEq, Eq, Structural)]
pub enum DeltaStrat {
    HighProb,
    Reversal,
}

/// A command. An empty asset means all assets, no strategy all strategies.
#[derive(Clone, Debug, PartialEq)]
pub enum Command {
    TradeHist,
    Assets,
    TradeAssetsQuery,
    TradeAssetsSet(Vec<String>),
    StrategiesQuery,
    StrategiesSet { asset: String, strategies: Vec<String> },
    Markets,
    DeltaQuery,
    DeltaSet { strat: DeltaStrat, key: String, value: String },
    ReconToday { asset: Option<String>, date: Option<String> },
    WarningAnalysis { date: Option<String> },
    Sys,
    Last(usize),
    LiveLog(usize),
    SkippedLog(usize),
    Status,
    Params,
    SetParam { param: String, key: String, value: String },
    ResetLosses { asset: String },
    Halt { asset: String, strategy: Option<String> },
    Resume { asset: String, strategy: Option<String> },
    Help,
    /// A known command used wrongly, or an unknown one, with what to answer.
    Invalid(String),
}

/// A command by the characters of its parts.
pub enum CommandView {
    TradeHist,
    Assets,
    TradeAssetsQuery,
    TradeAssetsSet(Seq<Seq<char>>),
    StrategiesQuery,
    StrategiesSet { asset: Seq<char>, strategies: Seq<Seq<char>> },
    Markets,
    DeltaQuery,
    DeltaSet { strat: DeltaStrat, key: Seq<char>, value: Seq<char> },
    ReconToday { asset: Option<Seq<char>>, date: Option<Seq<char>> },
    WarningAnalysis { date: Option<Seq<char>> },
    Sys,
    Last(usize),
    LiveLog(usize),
    SkippedLog(usize),
    Status,
    Params,
    SetParam { param: Seq<char>, key: Seq<char>, value: Seq<char> },
    ResetLosses { asset: Seq<char> },
    Halt { asset: Seq<char>, strategy: Option<Seq<char>> },
    Resume { asset: Seq<char>, strategy: Option<Seq<char>> },
    Help,
    Invalid(Seq<char>),
}

/// The characters of an optional string.
pub open spec fn opt_view(t: Option<String>) -> Option<Seq<char>> {
    match t {
        Some(s) => Some(s@),
        None => None,
    }
}

impl View for Command {
    type V = CommandView;

    open spec fn view(&self) -> CommandView {
        match *self {
            Command::TradeHist => CommandView::TradeHist,
            Command::Assets => CommandView::Assets,
            Command::TradeAssetsQuery => CommandView::TradeAssetsQuery,
            Command::TradeAssetsSet(list) => CommandView::TradeAssetsSet(views(list@)),
            Command::StrategiesQuery => CommandView::StrategiesQuery,
            Command::StrategiesSet { asset, strategies } => CommandView::StrategiesSet {
                asset: asset@,
                strategies: views(strategies@),
            },
            Command::Markets => CommandView::Markets,
            Command::DeltaQuery => CommandView::DeltaQuery,
            Command::DeltaSet { strat, key, value } => CommandView::DeltaSet {
                strat,
                key: key@,
                value: value@,
            },
            Command::ReconToday { asset, date } => CommandView::ReconToday {
                asset: opt_view(asset),
                date: opt_view(date),
            },
            Command::WarningAnalysis { date } => CommandView::WarningAnalysis {
                date: opt_view(date),
            },
            Command::Sys => CommandView::Sys,
            Command::Last(n) => CommandView::Last(n),
            Command::LiveLog(n) => CommandView::LiveLog(n),
            Command::SkippedLog(n) => CommandView::SkippedLog(n),
            Command::Status => CommandView::Status,
            Command::Params => CommandView::Params,
            Command::SetParam { param, key, value } => CommandView::SetParam {
                param: param@,
                key: key@,
                value: value@,
            },
            Command::ResetLosses { asset } => CommandView::ResetLosses { asset: asset@ },
            Command::Halt { asset, strategy } => CommandView::Halt {
                asset: asset@,
                strategy: opt_view(strategy),
            },
            Command::Resume { asset, strategy } => CommandView::Resume {
                asset: asset@,
                strategy: opt_view(strategy),
            },
            Command::Help => CommandView::Help,
            Command::Invalid(text) => CommandView::Invalid(text@),
        }
    }
}

/// The pieces between commas, without white space around them and without empty ones.
pub open spec fn comma_list(s: Seq<char>) -> Seq<Seq<char>> {
    split(s, ',').map_values(|t: Seq<char>| trimmed(t)).filter(|t: Seq<char>| t.len() > 0)
}

/// `comma_list` in capital letters.
pub open spec fn upper_list(s: Seq<char>) -> Seq<Seq<char>> {
    split(s, ',').map_values(|t: Seq<char>| uppercase(trimmed(t))).filter(
        |t: Seq<char>| t.len() > 0,
    )
}

pub open spec fn known_strategy(name: Seq<char>) -> bool {
    name == "high_prob"@ || name == "reversal"@
}

/// The first word that is, or is not, an unsigned number.
pub open spec fn first_word(parts: Seq<Seq<char>>, number: bool) -> Option<Seq<char>>
    decreases parts.len(),
{
    if parts.len() == 0 {
        None
    } else if (unsigned_of(parts[0]) is Some) == number {
        Some(parts[0])
    } else {
        first_word(parts.drop_first(), number)
    }
}

pub open spec fn upper_opt(s: Option<Seq<char>>) -> Option<Seq<char>> {
    match s {
        Some(t) => Some(uppercase(t)),
        None => None,
    }
}

/// The second word as a count, else the default.
pub open spec fn count_of(parts: Seq<Seq<char>>, default: usize) -> usize {
    if parts.len() > 1 && unsigned_of(parts[1]) is Some && unsigned_of(parts[1])->0 <= usize::MAX {
        unsigned_of(parts[1])->0 as usize
    } else {
        default
    }
}

/// The second word in capital letters, empty when there is none.
pub open spec fn asset_of(parts: Seq<Seq<char>>) -> Seq<char> {
    if parts.len() > 1 {
        uppercase(parts[1])
    } else {
        Seq::empty()
    }
}

/// The third word.
pub open spec fn strategy_of(parts: Seq<Seq<char>>) -> Option<Seq<char>> {
    if parts.len() > 2 {
        Some(parts[2])
    } else {
        None
    }
}

pub open spec fn strategies_command(parts: Seq<Seq<char>>) -> CommandView {
    if parts.len() == 1 {
        CommandView::StrategiesQuery
    } else if parts.len() < 3 {
        CommandView::Invalid("Usage: /strategies <ASSET> <strategy1[,strategy2]>"@)
    } else {
        let names = comma_list(joined(parts.skip(2), " "@));
        let unknown = names.filter(|n: Seq<char>| !known_strategy(n));
        if unknown.len() > 0 {
            CommandView::Invalid("Unknown strategies: "@ + joined(unknown, ", "@))
        } else {
            CommandView::StrategiesSet { asset: uppercase(parts[1]), strategies: names }
        }
    }
}

pub open spec fn delta_strat(word: Seq<char>) -> Option<DeltaStrat> {
    if word == "hp"@ {
        Some(DeltaStrat::HighProb)
    } else if word == "rev"@ {
        Some(DeltaStrat::Reversal)
    } else {
        None
    }
}

pub open spec fn delta_command(parts: Seq<Seq<char>>) -> CommandView {
    if parts.len() == 1 {
        CommandView::DeltaQuery
    } else {
        let strat = delta_strat(lowercase(parts[1]));
        if strat is None || parts.len() < 3 {
            CommandView::Invalid("Usage: /delta <hp|rev> [ASSET] <f>"@)
        } else if parts.len() == 4 {
            CommandView::DeltaSet { strat: strat->0, key: uppercase(parts[2]), value: parts[3] }
        } else {
            CommandView::DeltaSet { strat: strat->0, key: "default"@, value: parts[2] }
        }
    }
}

pub open spec fn set_command(parts: Seq<Seq<char>>) -> CommandView {
    if parts.len() < 3 {
        CommandView::Invalid(
            "Usage: /set <param> <value>  or  /set <param> <ASSET> <value>\nAllowed: "@ + joined(
                settable(),
                ", "@,
            ),
        )
    } else {
        let param = proper_name(lowercase(parts[1]));
        if !settable().contains(param) {
            CommandView::Invalid("Unknown param "@ + param)
        } else if per_asset().contains(param) && parts.len() == 4 {
            CommandView::SetParam { param, key: uppercase(parts[2]), value: parts[3] }
        } else {
            CommandView::SetParam { param, key: "default"@, value: parts[2] }
        }
    }
}

/// The command that the words of a message give.
pub open spec fn command_of(parts: Seq<Seq<char>>) -> CommandView {
    let cmd = lowercase(parts[0]);
    if cmd == "/trade_hist"@ {
        CommandView::TradeHist
    } else if cmd == "/assets"@ {
        CommandView::Assets
    } else if cmd == "/trade_assets"@ {
        if parts.len() > 1 {
            CommandView::TradeAssetsSet(upper_list(joined(parts.skip(1), " "@)))
        } else {
            CommandView::TradeAssetsQuery
        }
    } else if cmd == "/strategies"@ {
        strategies_command(parts)
    } else if cmd == "/markets"@ {
        CommandView::Markets
    } else if cmd == "/delta"@ {
        delta_command(parts)
    } else if cmd == "/recon_today"@ {
        CommandView::ReconToday {
            asset: upper_opt(first_word(parts.skip(1), false)),
            date: first_word(parts.skip(1), true),
        }
    } else if cmd == "/warning_analysis"@ {
        CommandView::WarningAnalysis {
            date: if parts.len() > 1 {
                Some(parts[1])
            } else {
                None
            },
        }
    } else if cmd == "/sys"@ {
        CommandView::Sys
    } else if stands_at(cmd, "/last"@, 0) {
        CommandView::Last(count_of(parts, 20))
    } else if stands_at(cmd, "/live_log"@, 0) {
        CommandView::LiveLog(count_of(parts, 40))
    } else if stands_at(cmd, "/skipped_log"@, 0) {
        CommandView::SkippedLog(count_of(parts, 40))
    } else if cmd == "/status"@ {
        CommandView::Status
    } else if cmd == "/params"@ {
        CommandView::Params
    } else if cmd == "/set"@ {
        set_command(parts)
    } else if cmd == "/reset_losses"@ {
        CommandView::ResetLosses { asset: asset_of(parts) }
    } else if cmd == "/halt"@ {
        CommandView::Halt { asset: asset_of(parts), strategy: strategy_of(parts) }
    } else if cmd == "/resume"@ {
        CommandView::Resume { asset: asset_of(parts), strategy: strategy_of(parts) }
    } else if cmd == "/start"@ || cmd == "/help"@ {
        CommandView::Help
    } else {
        CommandView::Invalid("Unknown command: "@ + cmd)
    }
}

fn list_of(s: &str, upper: bool) -> (r: Vec<String>)
    ensures
        views(r@) == if upper {
            upper_list(s@)
        } else {
            comma_list(s@)
        },
{
    let pieces = split_text(s, ',');
    let ghost made = if upper {
        split(s@, ',').map_values(|t: Seq<char>| uppercase(trimmed(t)))
    } else {
        split(s@, ',').map_values(|t: Seq<char>| trimmed(t))
    };
    let ghost keep = |t: Seq<char>| t.len() > 0;
    let mut r: Vec<String> = Vec::new();
    let mut i: usize = 0;
    reveal(Seq::filter);
    assert(views(r@) =~= made.take(0).filter(keep));
    while i < pieces.len()
        invariant
            i <= pieces@.len(),
            views(pieces@) == split(s@, ','),
            made == (if upper {
                split(s@, ',').map_values(|t: Seq<char>| uppercase(trimmed(t)))
            } else {
                split(s@, ',').map_values(|t: Seq<char>| trimmed(t))
            }),
            keep == (|t: Seq<char>| t.len() > 0),
            views(r@) == made.take(i as int).filter(keep),
        decreases pieces@.len() - i,
    {
        let ghost before = r@;
        assert(views(pieces@)[i as int] == pieces@[i as int]@);
        let plain = trim_text(pieces[i].as_str());
        let t = if upper {
            to_upper(plain.as_str())
        } else {
            plain
        };
        assert(t@ == made[i as int]);
        assert(made.take(i + 1).drop_last() =~= made.take(i as int));
        reveal(Seq::filter);
        if !t.as_str().is_empty() {
            let ghost tv = t@;
            r.push(t);
            assert(views(r@) =~= views(before).push(tv));
        }
        i = i + 1;
    }
    assert(made.take(i as int) =~= made);
    r
}

fn unknown_strategies(names: &Vec<String>) -> (r: Vec<String>)
    ensures
        views(r@) == views(names@).filter(|n: Seq<char>| !known_strategy(n)),
{
    let ghost all = views(names@);
    let ghost keep = |n: Seq<char>| !known_strategy(n);
    let mut r: Vec<String> = Vec::new();
    let mut i: usize = 0;
    reveal(Seq::filter);
    assert(views(r@) =~= all.take(0).filter(keep));
    while i < names.len()
        invariant
            i <= names@.len(),
            all == views(names@),
            keep == (|n: Seq<char>| !known_strategy(n)),
            views(r@) == all.take(i as int).filter(keep),
        decreases names@.len() - i,
    {
        let ghost before = r@;
        let name = names[i].as_str();
        assert(all[i as int] == name@);
        assert(all.take(i + 1).drop_last() =~= all.take(i as int));
        reveal(Seq::filter);
        if !(same_text(name, "high_prob") || same_text(name, "reversal")) {
            r.push(name.to_owned());
            assert(views(r@) =~= views(before).push(name@));
        }
        i = i + 1;
    }
    assert(all.take(i as int) =~= all);
    r
}

fn find_word(parts: &Vec<String>, number: bool) -> (r: Option<String>)
    requires
        parts@.len() > 0,
    ensures
        opt_view(r) == first_word(views(parts@).skip(1), number),
{
    let ghost all = views(parts@).skip(1);
    let mut i: usize = 1;
    assert(all.skip(0) =~= all);
    while i < parts.len()
        invariant
            1 <= i <= parts@.len(),
            all == views(parts@).skip(1),
            first_word(all, number) == first_word(all.skip(i - 1), number),
        decreases parts@.len() - i,
    {
        assert(all.skip(i - 1)[0] == parts@[i as int]@);
        assert(all.skip(i - 1).drop_first() =~= all.skip(i as int));
        let is_number = match parse_u64(parts[i].as_str()) {
            Some(_) => true,
            None => false,
        };
        if is_number == number {
            return Some(parts[i].clone());
        }
        i = i + 1;
    }
    assert(all.skip(i - 1).len() == 0);
    None
}

fn parse_count(parts: &Vec<String>, default: usize) -> (r: usize)
    ensures
        r == count_of(views(parts@), default),
{
    if parts.len() > 1 {
        assert(views(parts@)[1] == parts@[1]@);
        match parse_u64(parts[1].as_str()) {
            Some(n) => {
                if n <= usize::MAX as u64 {
                    n as usize
                } else {
                    default
                }
            },
            None => default,
        }
    } else {
        default
    }
}

fn parse_asset(parts: &Vec<String>) -> (r: String)
    ensures
        r@ == asset_of(views(parts@)),
{
    if parts.len() > 1 {
        assert(views(parts@)[1] == parts@[1]@);
        to_upper(parts[1].as_str())
    } else {
        String::new()
    }
}

fn parse_strategy(parts: &Vec<String>) -> (r: Option<String>)
    ensures
        opt_view(r) == strategy_of(views(parts@)),
{
    if parts.len() > 2 {
        assert(views(parts@)[2] == parts@[2]@);
        Some(parts[2].clone())
    } else {
        None
    }
}

fn parse_strategies(parts: &Vec<String>) -> (r: Command)
    requires
        parts@.len() > 0,
    ensures
        r@ == strategies_command(views(parts@)),
{
    if parts.len() == 1 {
        Command::StrategiesQuery
    } else if parts.len() < 3 {
        Command::Invalid("Usage: /strategies <ASSET> <strategy1[,strategy2]>".to_owned())
    } else {
        assert(views(parts@)[1] == parts@[1]@);
        let asset = to_upper(parts[1].as_str());
        let names = list_of(join_from(parts, 2, " ").as_str(), false);
        let unknown = unknown_strategies(&names);
        assert(views(unknown@).len() == unknown@.len());
        if unknown.len() > 0 {
            let mut text = "Unknown strategies: ".to_owned();
            text.append(join(&unknown, ", ").as_str());
            Command::Invalid(text)
        } else {
            Command::StrategiesSet { asset, strategies: names }
        }
    }
}

fn parse_delta(parts: &Vec<String>) -> (r: Command)
    requires
        parts@.len() > 0,
    ensures
        r@ == delta_command(views(parts@)),
{
    if parts.len() == 1 {
        return Command::DeltaQuery;
    }
    assert(views(parts@)[1] == parts@[1]@);
    let word = to_lower(parts[1].as_str());
    let strat = if same_text(word.as_str(), "hp") {
        Some(DeltaStrat::HighProb)
    } else if same_text(word.as_str(), "rev") {
        Some(DeltaStrat::Reversal)
    } else {
        None
    };
    match strat {
        None => Command::Invalid("Usage: /delta <hp|rev> [ASSET] <f>".to_owned()),
        Some(strat) => {
            if parts.len() < 3 {
                return Command::Invalid("Usage: /delta <hp|rev> [ASSET] <f>".to_owned());
            }
            assert(views(parts@)[2] == parts@[2]@);
            if parts.len() == 4 {
                assert(views(parts@)[3] == parts@[3]@);
                Command::DeltaSet {
                    strat,
                    key: to_upper(parts[2].as_str()),
                    value: parts[3].clone(),
                }
            } else {
                Command::DeltaSet { strat, key: "default".to_owned(), value: parts[2].clone() }
            }
        },
    }
}

fn parse_set(parts: &Vec<String>) -> (r: Command)
    requires
        parts@.len() > 0,
    ensures
        r@ == set_command(views(parts@)),
{
    if parts.len() < 3 {
        let mut text =
            "Usage: /set <param> <value>  or  /set <param> <ASSET> <value>\nAllowed: ".to_owned();
        text.append(join(&settable_params(), ", ").as_str());
        return Command::Invalid(text);
    }
    assert(views(parts@)[1] == parts@[1]@);
    assert(views(parts@)[2] == parts@[2]@);
    let param = resolve_alias(to_lower(parts[1].as_str()).as_str());
    if !holds_text(&settable_params(), param.as_str()) {
        let mut text = "Unknown param ".to_owned();
        text.append(param.as_str());
        Command::Invalid(text)
    } else if holds_text(&dict_params(), param.as_str()) && parts.len() == 4 {
        assert(views(parts@)[3] == parts@[3]@);
        Command::SetParam { param, key: to_upper(parts[2].as_str()), value: parts[3].clone() }
    } else {
        Command::SetParam { param, key: "default".to_owned(), value: parts[2].clone() }
    }
}

/// The command that the words of a message give.
pub fn parse_words(parts: &Vec<String>) -> (r: Command)
    requires
        parts@.len() > 0,
    ensures
        r@ == command_of(views(parts@)),
{
    assert(views(parts@)[0] == parts@[0]@);
    let cmd_text = to_lower(parts[0].as_str());
    let cmd = cmd_text.as_str();
    if same_text(cmd, "/trade_hist") {
        Command::TradeHist
    } else if same_text(cmd, "/assets") {
        Command::Assets
    } else if same_text(cmd, "/trade_assets") {
        if parts.len() > 1 {
            Command::TradeAssetsSet(list_of(join_from(parts, 1, " ").as_str(), true))
        } else {
            Command::TradeAssetsQuery
        }
    } else if same_text(cmd, "/strategies") {
        parse_strategies(parts)
    } else if same_text(cmd, "/markets") {
        Command::Markets
    } else if same_text(cmd, "/delta") {
        parse_delta(parts)
    } else if same_text(cmd, "/recon_today") {
        let asset = match find_word(parts, false) {
            Some(word) => Some(to_upper(word.as_str())),
            None => None,
        };
        Command::ReconToday { asset, date: find_word(parts, true) }
    } else if same_text(cmd, "/warning_analysis") {
        if parts.len() > 1 {
            assert(views(parts@)[1] == parts@[1]@);
            Command::WarningAnalysis { date: Some(parts[1].clone()) }
        } else {
            Command::WarningAnalysis { date: None }
        }
    } else if same_text(cmd, "/sys") {
        Command::Sys
    } else if begins_with(cmd, "/last") {
        Command::Last(parse_count(parts, 20))
    } else if begins_with(cmd, "/live_log") {
        Command::LiveLog(parse_count(parts, 40))
    } else if begins_with(cmd, "/skipped_log") {
        Command::SkippedLog(parse_count(parts, 40))
    } else if same_text(cmd, "/status") {
        Command::Status
    } else if same_text(cmd, "/params") {
        Command::Params
    } else if same_text(cmd, "/set") {
        parse_set(parts)
    } else if same_text(cmd, "/reset_losses") {
        Command::ResetLosses { asset: parse_asset(parts) }
    } else if same_text(cmd, "/halt") {
        Command::Halt { asset: parse_asset(parts), strategy: parse_strategy(parts) }
    } else if same_text(cmd, "/resume") {
        Command::Resume { asset: parse_asset(parts), strategy: parse_strategy(parts) }
    } else if same_text(cmd, "/start") || same_text(cmd, "/help") {
        Command::Help
    } else {
        let mut text = "Unknown command: ".to_owned();
        text.append(cmd);
        Command::Invalid(text)
    }
}

/// The command word counts by its small letters alone: messages whose first words have the
/// same small letters and whose other words are the same give the same command.
pub proof fn command_word_counts_lowered(a: Seq<char>, b: Seq<char>)
    requires
        words(a).len() > 0,
        words(b).len() == words(a).len(),
        lowercase(words(a)[0]) == lowercase(words(b)[0]),
        forall|i: int| 1 <= i < words(a).len() ==> words(a)[i] == words(b)[i],
    ensures
        command_of(words(a)) == command_of(words(b)),
{
    let p = words(a);
    let q = words(b);
    assert(p.skip(1) =~= q.skip(1));
    if p.len() > 1 {
        assert(p.skip(2) =~= q.skip(2));
    }
}

/// The case of the command word does not matter: messages that differ at most in the case of
/// ASCII letters in their first word give the same command. Of a word that is not all ASCII
/// this asks that the small letters are the same in both.
pub proof fn command_word_has_no_case(a: Seq<char>, b: Seq<char>)
    requires
        same_but_for_first_word(a, b),
        ascii(words(a)[0]) || lowercase(words(a)[0]) == lowercase(words(b)[0]),
    ensures
        words(a).len() > 0,
        words(b).len() > 0,
        command_of(words(a)) == command_of(words(b)),
{
    first_word_stands_alone(a, b);
    if ascii(words(a)[0]) {
        case_is_lowered(words(a)[0], words(b)[0]);
    }
    command_word_counts_lowered(a, b);
}

/// The command of a message, none when it holds nothing but white space.
pub fn parse_command(text: &str) -> (r: Option<Command>)
    ensures
        match r {
            None => words(text@).len() == 0,
            Some(cmd) => words(text@).len() > 0 && cmd@ == command_of(words(text@)),
        },
{
    let parts = split_words(text);
    assert(views(parts@).len() == parts@.len());
    if parts.len() == 0 {
        return None;
    }
    Some(parse_words(&parts))
}

} // verus!

//! Where the driver keeps its logs and its state.

use vstd::prelude::*;
use vstd::string::StringExecFns;

use crate::live::{MarketDuration, RunMode};
use crate::text::{lowercase, to_lower};

verus! {

/// The files of a slot.
#[derive(Clone, Copy, Debug, PartialEq, Eq, Structural)]
pub enum SlotFile {
    Trades,
    State,
    /// Quotes that were taken back.
    Quotes,
    PupVetoes,
}

impl SlotFile {
    pub open spec fn stem_text(self) -> Seq<char> {
        match self {
            SlotFile::Trades => "_trades_"@,
            SlotFile::State => "_state_"@,
            SlotFile::Quotes => "_quotes_"@,
            SlotFile::PupVetoes => "_pup_vetoes_"@,
        }
    }

    fn stem(self) -> (r: &'static str)
        ensures
            r@ == self.stem_text(),
    {
        match self {
            SlotFile::Trades => "_trades_",
            SlotFile::State => "_state_",
            SlotFile::Quotes => "_quotes_",
            SlotFile::PupVetoes => "_pup_vetoes_",
        }
    }

    pub open spec fn ending_text(self) -> Seq<char> {
        if self == SlotFile::State {
            ".json"@
        } else {
            ".csv"@
        }
    }

    fn ending(self) -> (r: &'static str)
        ensures
            r@ == self.ending_text(),
    {
        if self == SlotFile::State {
            ".json"
        } else {
            ".csv"
        }
    }
}

/// The files of a paper run are its own, so that those of a live run mean real money.
pub open spec fn run_text(mode: RunMode) -> Seq<char> {
    if mode == RunMode::Paper {
        "paper"@
    } else {
        "live"@
    }
}

/// Five minutes go without saying.
pub open spec fn tag_text(duration: MarketDuration) -> Seq<char> {
    if duration == MarketDuration::M5 {
        Seq::empty()
    } else {
        "_"@ + duration.text()
    }
}

pub open spec fn slot_file_text(
    dir: Seq<char>,
    mode: RunMode,
    file: SlotFile,
    asset: Seq<char>,
    strategy: Seq<char>,
    duration: MarketDuration,
) -> Seq<char> {
    dir + "/"@ + run_text(mode) + file.stem_text() + lowercase(asset) + "_"@ + strategy + tag_text(
        duration,
    ) + file.ending_text()
}

/// The path of a slot's file.
pub fn slot_file(
    dir: &str,
    mode: RunMode,
    file: SlotFile,
    asset: &str,
    strategy: &str,
    duration: MarketDuration,
) -> (r: String)
    ensures
        r@ == slot_file_text(dir@, mode, file, asset@, strategy@, duration),
{
    let mut r = dir.to_owned();
    r.append("/");
    if mode == RunMode::Paper {
        r.append("paper");
    } else {
        r.append("live");
    }
    r.append(file.stem());
    r.append(to_lower(asset).as_str());
    r.append("_");
    r.append(strategy);
    if !duration.is_5m() {
        r.append("_");
        r.append(duration.suffix());
    }
    r.append(file.ending());
    assert(r@ =~= slot_file_text(dir@, mode, file, asset@, strategy@, duration));
    r
}

pub open spec fn control_log_text(dir: Seq<char>, mode: RunMode) -> Seq<char> {
    dir + "/"@ + (if mode == RunMode::Paper {
        "paper_"@
    } else {
        ""@
    }) + "control_log.jsonl"@
}

/// The path of the log of halts, which all slots of a run share.
pub fn control_log(dir: &str, mode: RunMode) -> (r: String)
    ensures
        r@ == control_log_text(dir@, mode),
{
    let mut r = dir.to_owned();
    r.append("/");
    if mode == RunMode::Paper {
        r.append("paper_");
    } else {
        r.append("");
    }
    r.append("control_log.jsonl");
    r
}

/// The path of the log of weather trades.
pub fn weather_log(dir: &str) -> (r: String)
    ensures
        r@ == dir@ + "/live_trades_weather.csv"@,
{
    let mut r = dir.to_owned();
    r.append("/live_trades_weather.csv");
    r
}

/// No file of a paper run is a file of another run.
pub proof fn paper_files_are_apart(
    dir: Seq<char>,
    mode: RunMode,
    file: SlotFile,
    other: SlotFile,
    asset: Seq<char>,
    other_asset: Seq<char>,
    strategy: Seq<char>,
    other_strategy: Seq<char>,
    duration: MarketDuration,
    other_duration: MarketDuration,
)
    requires
        mode != RunMode::Paper,
    ensures
        slot_file_text(dir, RunMode::Paper, file, asset, strategy, duration) != slot_file_text(
            dir,
            mode,
            other,
            other_asset,
            other_strategy,
            other_duration,
        ),
        control_log_text(dir, RunMode::Paper) != control_log_text(dir, mode),
{
    reveal_strlit("/");
    reveal_strlit("paper");
    reveal_strlit("live");
    reveal_strlit("");
    reveal_strlit("paper_");
    let n = dir.len() as int;
    let a = slot_file_text(dir, RunMode::Paper, file, asset, strategy, duration);
    let b = slot_file_text(dir, mode, other, other_asset, other_strategy, other_duration);
    assert(a[n + 1] == 'p');
    assert(b[n + 1] == 'l');
    assert(control_log_text(dir, RunMode::Paper).len() == control_log_text(dir, mode).len() + 6);
}

} // verus!

//! The live driver's decisions: what it does with each event, and what it says.
//!
//! The driver itself, which talks to the feeds, the exchange and the chat, asks the
//! functions here what to do and reports back what came of it.

use vstd::prelude::*;
use vstd::string::StringExecFns;

use crate::num::{num, Num};
use crate::text::same_text;
use crate::types::Side;

pub mod control;
pub mod csv;
pub mod cycle;
pub mod files;
pub mod latency;
pub mod messages;
pub mod notices;
pub mod orders;
pub mod slot;
pub mod startup;
pub mod status;

verus! {

/// The bits of 5.0: a start so many seconds into a cycle, or less, still counts as a start
/// at its beginning.
pub const STARTUP_MID_CYCLE_GUARD_SECS: u64 = 0x4014_0000_0000_0000;

/// Whether to sit out the running cycle: the process has just started, and in its middle.
pub fn should_suppress_startup_cycle(is_first_tick: bool, elapsed_into_slot: Num) -> (r: bool)
    ensures
        r == (is_first_tick && elapsed_into_slot.gt(num(STARTUP_MID_CYCLE_GUARD_SECS))),
{
    is_first_tick && elapsed_into_slot.gt(num(STARTUP_MID_CYCLE_GUARD_SECS))
}

/// Where orders go. Chosen at the start and kept.
#[derive(Clone, Copy, Debug, PartialEq, Eq, Structural)]
pub enum RunMode {
    /// To the exchange.
    Real,
    /// Nowhere; each fills at once at its price.
    DryRun,
    /// Nowhere; each fills as the prices that are seen would have filled it.
    Paper,
}

impl RunMode {
    pub open spec fn prefix_text(self) -> Seq<char> {
        match self {
            RunMode::Real => ""@,
            RunMode::DryRun => "[DRY] "@,
            RunMode::Paper => "[PAPER] "@,
        }
    }

    /// What every message begins with, so that a simulated run is not taken for a real one.
    pub fn prefix(self) -> (r: &'static str)
        ensures
            r@ == self.prefix_text(),
    {
        match self {
            RunMode::Real => "",
            RunMode::DryRun => "[DRY] ",
            RunMode::Paper => "[PAPER] ",
        }
    }
}

/// Paper, asked for on the command line or in the configuration, comes before a dry run.
pub fn resolve_run_mode(paper_flag: bool, toml_paper_trade: bool, dry_run_flag: bool) -> (r: RunMode)
    ensures
        r == if paper_flag || toml_paper_trade {
            RunMode::Paper
        } else if dry_run_flag {
            RunMode::DryRun
        } else {
            RunMode::Real
        },
{
    if paper_flag || toml_paper_trade {
        RunMode::Paper
    } else if dry_run_flag {
        RunMode::DryRun
    } else {
        RunMode::Real
    }
}

/// A message as it is sent.
pub fn with_prefix(mode: RunMode, text: &str) -> (r: String)
    ensures
        r@ == mode.prefix_text() + text@,
{
    let mut r = mode.prefix().to_owned();
    r.append(text);
    r
}

pub open spec fn arrow_text(side: Side) -> Seq<char> {
    match side {
        Side::Up => "UP ↑"@,
        Side::Down => "DOWN ↓"@,
    }
}

/// A side as messages show it.
pub fn arrow_side(side: Side) -> (r: &'static str)
    ensures
        r@ == arrow_text(side),
{
    match side {
        Side::Up => "UP ↑",
        Side::Down => "DOWN ↓",
    }
}

/// The families of markets, by the length of their cycles.
#[derive(Clone, Copy, Debug, PartialEq, Eq, Structural)]
pub enum MarketDuration {
    M5,
    M15,
    HourlyEt,
    H4,
}

impl MarketDuration {
    pub open spec fn text(self) -> Seq<char> {
        match self {
            MarketDuration::M5 => "5m"@,
            MarketDuration::M15 => "15m"@,
            MarketDuration::HourlyEt => "1h-et"@,
            MarketDuration::H4 => "4h"@,
        }
    }

    pub fn suffix(self) -> (r: &'static str)
        ensures
            r@ == self.text(),
    {
        match self {
            MarketDuration::M5 => "5m",
            MarketDuration::M15 => "15m",
            MarketDuration::HourlyEt => "1h-et",
            MarketDuration::H4 => "4h",
        }
    }

    pub fn is_5m(self) -> (r: bool)
        ensures
            r == (self == MarketDuration::M5),
    {
        self == MarketDuration::M5
    }

    pub open spec fn seconds(self) -> u64 {
        match self {
            MarketDuration::M5 => 300,
            MarketDuration::M15 => 900,
            MarketDuration::HourlyEt => 3600,
            MarketDuration::H4 => 14400,
        }
    }

    pub fn period_secs(self) -> (r: u64)
        ensures
            r == self.seconds(),
    {
        match self {
            MarketDuration::M5 => 300,
            MarketDuration::M15 => 900,
            MarketDuration::HourlyEt => 3600,
            MarketDuration::H4 => 14400,
        }
    }

    /// The place of the family in lists.
    pub open spec fn place(self) -> int {
        match self {
            MarketDuration::M5 => 0,
            MarketDuration::M15 => 1,
            MarketDuration::HourlyEt => 2,
            MarketDuration::H4 => 3,
        }
    }

    pub fn place_number(self) -> (r: u8)
        ensures
            r == self.place(),
    {
        match self {
            MarketDuration::M5 => 0,
            MarketDuration::M15 => 1,
            MarketDuration::HourlyEt => 2,
            MarketDuration::H4 => 3,
        }
    }

    pub open spec fn of_text(label: Seq<char>) -> Option<MarketDuration> {
        if label == "5m"@ {
            Some(MarketDuration::M5)
        } else if label == "15m"@ {
            Some(MarketDuration::M15)
        } else if label == "1h-et"@ {
            Some(MarketDuration::HourlyEt)
        } else if label == "4h"@ {
            Some(MarketDuration::H4)
        } else {
            None
        }
    }

    pub fn parse(label: &str) -> (r: Option<MarketDuration>)
        ensures
            r == MarketDuration::of_text(label@),
    {
        if same_text(label, "5m") {
            Some(MarketDuration::M5)
        } else if same_text(label, "15m") {
            Some(MarketDuration::M15)
        } else if same_text(label, "1h-et") {
            Some(MarketDuration::HourlyEt)
        } else if same_text(label, "4h") {
            Some(MarketDuration::H4)
        } else {
            None
        }
    }
}

/// The name of each family reads back as the family.
pub proof fn duration_reads_back(d: MarketDuration)
    ensures
        MarketDuration::of_text(d.text()) == Some(d),
{
    reveal_strlit("5m");
    reveal_strlit("15m");
    reveal_strlit("1h-et");
    reveal_strlit("4h");
    assert("5m"@.len() == 2 && "15m"@.len() == 3 && "1h-et"@.len() == 5 && "4h"@.len() == 2);
    assert("5m"@[0] == '5' && "4h"@[0] == '4');
}

} // verus!

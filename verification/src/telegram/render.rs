//! What the bot shows.

use vstd::prelude::*;
use vstd::string::StringExecFns;

use crate::asset_map::{sorted_keys, AssetMap};
use crate::config::AssetParams;
use crate::num::{Layout, Num, Writer};
use crate::text::{
    decimal, decimal_text, join, joined, signed_decimal, signed_text, views,
};

verus! {

/// The counts of one asset.
#[derive(Clone, Debug, PartialEq)]
pub struct AssetStatus {
    pub wins: u32,
    pub losses: u32,
    pub stoplosses: u32,
    pub unwinds: u32,
    pub halted: bool,
    /// For instance `14:32:10 DOWN STOPLOSS -0.2235`.
    pub last_trade: Option<String>,
}

impl Default for AssetStatus {
    fn default() -> (r: Self)
        ensures
            r == (AssetStatus {
                wins: 0,
                losses: 0,
                stoplosses: 0,
                unwinds: 0,
                halted: false,
                last_trade: None,
            }),
    {
        AssetStatus {
            wins: 0,
            losses: 0,
            stoplosses: 0,
            unwinds: 0,
            halted: false,
            last_trade: None,
        }
    }
}

impl AssetStatus {
    pub open spec fn trades(self) -> int {
        self.wins + self.losses + self.stoplosses + self.unwinds
    }

    /// The lines of one asset.
    pub open spec fn lines(self, asset: Seq<char>) -> Seq<Seq<char>> {
        let light = if self.halted {
            "🛑"@
        } else {
            "🟢"@
        };
        let counts = light + " <b>"@ + asset + "</b>  W:"@ + decimal(self.wins as nat) + " L:"@
            + decimal(self.losses as nat) + " SL:"@ + decimal(self.stoplosses as nat) + " UW:"@
            + decimal(self.unwinds as nat) + "  ("@ + decimal(self.trades() as nat)
            + " trades)"@;
        match self.last_trade {
            Some(last) => seq![counts, "    last: "@ + last@],
            None => seq![counts],
        }
    }
}

/// The lines of the assets, in order, after the title.
pub open spec fn status_lines(keys: Seq<Seq<char>>, m: Map<Seq<char>, AssetStatus>) -> Seq<
    Seq<char>,
>
    decreases keys.len(),
{
    if keys.len() == 0 {
        seq!["📊 <b>Status</b>"@]
    } else {
        status_lines(keys.drop_last(), m) + m[keys.last()].lines(keys.last())
    }
}

fn push_lines(lines: &mut Vec<String>, asset: &str, s: &AssetStatus)
    requires
        s.trades() <= u32::MAX,
    ensures
        views(final(lines)@) == views(old(lines)@) + s.lines(asset@),
{
    let ghost before = views(lines@);
    let light = if s.halted {
        "🛑"
    } else {
        "🟢"
    };
    let trades: u32 = s.wins + s.losses + s.stoplosses + s.unwinds;
    let mut line = light.to_owned();
    line.append(" <b>");
    line.append(asset);
    line.append("</b>  W:");
    line.append(decimal_text(s.wins as u64).as_str());
    line.append(" L:");
    line.append(decimal_text(s.losses as u64).as_str());
    line.append(" SL:");
    line.append(decimal_text(s.stoplosses as u64).as_str());
    line.append(" UW:");
    line.append(decimal_text(s.unwinds as u64).as_str());
    line.append("  (");
    line.append(decimal_text(trades as u64).as_str());
    line.append(" trades)");
    let ghost counts = line@;
    lines.push(line);
    assert(views(lines@) =~= before.push(counts));
    match &s.last_trade {
        Some(last) => {
            let mut line = "    last: ".to_owned();
            line.append(last.as_str());
            let ghost text = line@;
            lines.push(line);
            assert(views(lines@) =~= before.push(counts).push(text));
            assert(views(lines@) =~= before + s.lines(asset@));
        },
        None => {
            assert(views(lines@) =~= before + s.lines(asset@));
        },
    }
}

/// The answer to `/status`, assets in alphabetical order.
pub fn format_status(snapshots: &AssetMap<AssetStatus>) -> (r: String)
    requires
        forall|k: Seq<char>| #[trigger]
            snapshots@.contains_key(k) ==> snapshots@[k].trades() <= u32::MAX,
    ensures
        exists|keys: Seq<Seq<char>>| #[trigger]
            sorted_keys(keys, snapshots@) && r@ == if keys.len() == 0 {
                "No status data yet."@
            } else {
                joined(status_lines(keys, snapshots@), "\n"@)
            },
{
    let names = snapshots.keys_in_order();
    let ghost keys = views(names@);
    if names.len() == 0 {
        return "No status data yet.".to_owned();
    }
    let mut lines: Vec<String> = Vec::new();
    lines.push("📊 <b>Status</b>".to_owned());
    assert(keys.take(0) =~= Seq::empty());
    assert(views(lines@) =~= status_lines(keys.take(0), snapshots@));
    let mut i: usize = 0;
    while i < names.len()
        invariant
            i <= names@.len(),
            keys == views(names@),
            sorted_keys(keys, snapshots@),
            forall|k: Seq<char>| #[trigger]
                snapshots@.contains_key(k) ==> snapshots@[k].trades() <= u32::MAX,
            views(lines@) == status_lines(keys.take(i as int), snapshots@),
        decreases names@.len() - i,
    {
        let name = names[i].as_str();
        assert(keys[i as int] == name@);
        assert(keys.take(i + 1).drop_last() =~= keys.take(i as int));
        assert(keys.take(i + 1).last() == name@);
        match snapshots.get(name) {
            Some(s) => push_lines(&mut lines, name, s),
            None => {},
        }
        i = i + 1;
    }
    assert(keys.take(i as int) =~= keys);
    join(&lines, "\n")
}

/// What `{:?}` makes of a list of strings.
pub uninterp spec fn debug_list(texts: Seq<Seq<char>>) -> Seq<char>;

/// `std::fmt::Debug` of a list of strings: the strings in quotes, with their escapes,
/// between brackets.
#[verifier::external_body]
fn debug_texts(texts: &Vec<String>) -> (r: String)
    ensures
        r@ == debug_list(views(texts@)),
{
    format!("{:?}", texts)
}

/// The parameters of an asset, with the text of its strategies.
pub open spec fn params_text(
    asset: Seq<char>,
    strategies: Seq<char>,
    p: AssetParams,
    write: spec_fn(Num, Layout) -> Seq<char>,
) -> Seq<char> {
    "⚙️ <b>"@ + asset + "</b> params\nstrategies: "@ + strategies + "\nreversal: "@ + write(
        p.reversal,
        Layout::Plain,
    ) + " (low="@ + write(p.reversal_low_threshold, Layout::Plain) + ", start="@ + write(
        p.reversal_start_time,
        Layout::Plain,
    ) + "s)\nprice_high_rev: "@ + write(p.price_high_rev, Layout::Plain) + "\ndelta_pct_rev: "@
        + write(p.delta_pct_rev, Layout::Plain) + "  delta_pct_hp: "@ + write(
        p.delta_pct_hp,
        Layout::Plain,
    ) + "\nsl_reversal: "@ + write(p.sl_reversal, Layout::Plain) + "  sl_high_prob: "@ + write(
        p.sl_high_prob,
        Layout::Plain,
    ) + "\nsl_pnl_rev: "@ + write(p.sl_pnl_rev, Layout::Plain) + "  unwind_pnl_rev: "@ + write(
        p.unwind_pnl_rev,
        Layout::Plain,
    ) + "\nsl_pnl_hp: "@ + write(p.sl_pnl_hp, Layout::Plain) + "  unwind_pnl_hp: "@ + write(
        p.unwind_pnl_hp,
        Layout::Plain,
    ) + "\nhalt_rev: "@ + signed_decimal(p.halt_rev as int) + "  halt_prob: "@ + signed_decimal(
        p.halt_prob as int,
    ) + "\ntrade_size_usdc: "@ + write(p.trade_size_usdc, Layout::Plain)
}

/// The parameters of an asset, with the text of its strategies.
pub fn format_params_with<W: Fn(Num, Layout) -> String>(
    asset: &str,
    strategies: &str,
    params: &AssetParams,
    writer: &Writer<W>,
) -> (r: String)
    ensures
        r@ == params_text(asset@, strategies@, *params, writer@),
{
    let mut r = "⚙️ <b>".to_owned();
    r.append(asset);
    r.append("</b> params\nstrategies: ");
    r.append(strategies);
    r.append("\nreversal: ");
    r.append(writer.write(params.reversal, Layout::Plain).as_str());
    r.append(" (low=");
    r.append(writer.write(params.reversal_low_threshold, Layout::Plain).as_str());
    r.append(", start=");
    r.append(writer.write(params.reversal_start_time, Layout::Plain).as_str());
    r.append("s)\nprice_high_rev: ");
    r.append(writer.write(params.price_high_rev, Layout::Plain).as_str());
    r.append("\ndelta_pct_rev: ");
    r.append(writer.write(params.delta_pct_rev, Layout::Plain).as_str());
    r.append("  delta_pct_hp: ");
    r.append(writer.write(params.delta_pct_hp, Layout::Plain).as_str());
    r.append("\nsl_reversal: ");
    r.append(writer.write(params.sl_reversal, Layout::Plain).as_str());
    r.append("  sl_high_prob: ");
    r.append(writer.write(params.sl_high_prob, Layout::Plain).as_str());
    r.append("\nsl_pnl_rev: ");
    r.append(writer.write(params.sl_pnl_rev, Layout::Plain).as_str());
    r.append("  unwind_pnl_rev: ");
    r.append(writer.write(params.unwind_pnl_rev, Layout::Plain).as_str());
    r.append("\nsl_pnl_hp: ");
    r.append(writer.write(params.sl_pnl_hp, Layout::Plain).as_str());
    r.append("  unwind_pnl_hp: ");
    r.append(writer.write(params.unwind_pnl_hp, Layout::Plain).as_str());
    r.append("\nhalt_rev: ");
    r.append(signed_text(params.halt_rev).as_str());
    r.append("  halt_prob: ");
    r.append(signed_text(params.halt_prob).as_str());
    r.append("\ntrade_size_usdc: ");
    r.append(writer.write(params.trade_size_usdc, Layout::Plain).as_str());
    r
}

/// The answer to `/params`.
pub fn format_params<W: Fn(Num, Layout) -> String>(
    asset: &str,
    params: &AssetParams,
    writer: &Writer<W>,
) -> (r: String)
    ensures
        r@ == params_text(asset@, debug_list(views(params.strategies@)), *params, writer@),
{
    format_params_with(asset, debug_texts(&params.strategies).as_str(), params, writer)
}

/// The answer to `/help`.
pub const HELP_TEXT: &'static str =
    "/status           — W/L count + halt state per asset\n/params <ASSET>   — show current resolved params\n/set <k> <v>      — change a config param (default asset)\n/set <k> <ASSET> <v> — change a per-asset config param\n/halt [asset]     — suppress new entries (all assets or one)\n/resume [asset]   — clear a halt\n/reset_losses [asset] — zero the halt loss counter\n/strategies [ASSET strat1,strat2] — show or set active strategies\n/trade_assets [A,B,C] — show or set the traded asset list\n/delta <hp|rev> [ASSET] <f> — set the delta_pct gate for a strategy\n/help             — this message";

pub fn help_text() -> (r: String)
    ensures
        r@ == HELP_TEXT@,
{
    HELP_TEXT.to_owned()
}

} // verus!

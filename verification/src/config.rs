//! Strategy configuration: the file's per-asset tables and the parameters resolved from
//! them for one asset.

use vstd::prelude::*;

use crate::asset_map::AssetMap;
use crate::num::{num, Arith, Calc, Num, Op, ZERO};
use crate::text::copy_texts;

verus! {

/// The bits of 0.70.
pub const V_HIGH1: u64 = 0x3FE6_6666_6666_6666;

/// The bits of 0.30.
pub const V_LOW: u64 = 0x3FD3_3333_3333_3333;

/// The bits of 0.70.
pub const V_HIGH2: u64 = 0x3FE6_6666_6666_6666;

/// The bits of 0.30.
pub const SL_PNL_V: u64 = 0x3FD3_3333_3333_3333;

/// The bits of 0.15.
pub const UNWIND_PNL_V: u64 = 0x3FC3_3333_3333_3333;

/// The bits of 25.0.
pub const UNWIND_TIME_V: u64 = 0x4039_0000_0000_0000;

pub const HALT_V: i64 = 1;

pub const HALT_RESET_HOUR_V: i64 = 2;

/// The strategy file. Each table maps asset names to values, with `default` for the
/// assets that it does not name.
#[derive(Clone, Debug)]
pub struct StrategyToml {
    pub assets: Vec<String>,
    pub trade_assets: Vec<String>,
    pub max_buy_price: Num,
    pub no_enter_when_time_left: i64,
    pub spread_premium_limit: Num,
    pub spread_discount_limit: Num,
    pub max_price_age_secs: Num,
    pub har_pup_enabled: bool,
    /// Retries of a market buy, for all assets.
    pub order_max_retries: u32,
    pub strategies: AssetMap<Vec<String>>,
    pub enter_when_time_left: AssetMap<i64>,
    pub reversal: AssetMap<Num>,
    pub reversal_low_threshold: AssetMap<Num>,
    pub reversal_start_time: AssetMap<i64>,
    /// Seconds after a position closes before its market is polled for a resolution.
    pub gamma_poll_delay_secs: AssetMap<Num>,
    /// Seconds between two polls.
    pub gamma_poll_interval_secs: AssetMap<Num>,
    /// Seconds after the close at which polling gives up.
    pub gamma_poll_deadline_secs: AssetMap<Num>,
    pub price_high_rev: AssetMap<Num>,
    pub delta_pct_rev: AssetMap<Num>,
    pub sl_reversal: AssetMap<Num>,
    pub unwind_pnl_rev: AssetMap<Num>,
    pub sl_pnl_rev: AssetMap<Num>,
    /// Seconds a reversal position may stay open; zero means no cap.
    pub unwind_time_rev: AssetMap<Num>,
    pub price_low: AssetMap<Num>,
    pub price_high: AssetMap<Num>,
    pub delta_pct_hp: AssetMap<Num>,
    pub sl_high_prob: AssetMap<Num>,
    pub unwind_pnl_hp: AssetMap<Num>,
    pub sl_pnl_hp: AssetMap<Num>,
    /// The same for high_prob.
    pub unwind_time_hp: AssetMap<Num>,
    pub halt_rev: AssetMap<i64>,
    pub halt_prob: AssetMap<i64>,
    pub halt_reset_hour_rev: AssetMap<i64>,
    pub halt_reset_hour_hp: AssetMap<i64>,
    pub trade_size_usdc: AssetMap<Num>,
    pub v_high1: AssetMap<Num>,
    pub v_low: AssetMap<Num>,
    pub v_high2: AssetMap<Num>,
    /// Zero by default: v_shape is pure price action of the token.
    pub delta_pct_v: AssetMap<Num>,
    pub sl_v_shape: AssetMap<Num>,
    pub sl_pnl_v: AssetMap<Num>,
    pub unwind_pnl_v: AssetMap<Num>,
    /// The same for v_shape.
    pub unwind_time_v: AssetMap<Num>,
    pub halt_v: AssetMap<i64>,
    pub halt_reset_hour_v: AssetMap<i64>,
    pub har_beta: AssetMap<Vec<Num>>,
    pub har_nu: AssetMap<Num>,
}

/// The parameters of one asset.
#[derive(Clone, Debug)]
pub struct AssetParams {
    pub asset: String,
    pub strategies: Vec<String>,
    pub enter_when_time_left: Num,
    pub no_enter_when_time_left: Num,
    pub reversal: Num,
    pub reversal_low_threshold: Num,
    pub reversal_start_time: Num,
    pub gamma_poll_delay_secs: Num,
    pub gamma_poll_interval_secs: Num,
    pub gamma_poll_deadline_secs: Num,
    pub price_high_rev: Num,
    pub delta_pct_rev: Num,
    pub sl_reversal: Num,
    pub unwind_pnl_rev: Num,
    pub sl_pnl_rev: Num,
    pub unwind_time_rev: Num,
    pub price_low: Num,
    pub price_high: Num,
    pub delta_pct_hp: Num,
    pub sl_high_prob: Num,
    pub unwind_pnl_hp: Num,
    pub sl_pnl_hp: Num,
    pub unwind_time_hp: Num,
    pub halt_rev: i64,
    pub halt_prob: i64,
    pub halt_reset_hour_rev: i64,
    pub halt_reset_hour_hp: i64,
    pub v_high1: Num,
    pub v_low: Num,
    pub v_high2: Num,
    pub delta_pct_v: Num,
    pub sl_v_shape: Num,
    pub sl_pnl_v: Num,
    pub unwind_pnl_v: Num,
    pub unwind_time_v: Num,
    pub halt_v: i64,
    pub halt_reset_hour_v: i64,
    pub max_buy_price: Num,
    pub spread_premium_limit: Num,
    pub spread_discount_limit: Num,
    pub max_price_age_secs: Num,
    pub trade_size_usdc: Num,
}

/// A table has neither an entry for the asset nor a default.
#[derive(Clone, Debug)]
pub struct MissingField {
    pub field: String,
    pub asset: String,
}

impl MissingField {
    pub open spec fn text(self) -> Seq<char> {
        "config field `"@ + self.field@ + "` missing default and no entry for `"@ + self.asset@
            + "`"@
    }

    pub fn message(&self) -> (r: String)
        ensures
            r@ == self.text(),
    {
        let mut r = String::new();
        r.append("config field `");
        r.append(self.field.as_str());
        r.append("` missing default and no entry for `");
        r.append(self.asset.as_str());
        r.append("`");
        assert(r@ =~= self.text());
        r
    }
}

/// The entry for the asset, else the default entry.
pub open spec fn pick<T>(map: Map<Seq<char>, T>, asset: Seq<char>) -> Option<T> {
    if map.contains_key(asset) {
        Some(map[asset])
    } else if map.contains_key("default"@) {
        Some(map["default"@])
    } else {
        None
    }
}

/// `pick`, with a value for when the table has neither entry.
pub open spec fn pick_or<T>(map: Map<Seq<char>, T>, asset: Seq<char>, default: T) -> T {
    match pick(map, asset) {
        Some(v) => v,
        None => default,
    }
}

pub fn get_asset<T: Copy>(map: &AssetMap<T>, asset: &str) -> (r: Option<T>)
    ensures
        r == pick(map@, asset@),
{
    match map.get(asset) {
        Some(v) => Some(*v),
        None => match map.get("default") {
            Some(v) => Some(*v),
            None => None,
        },
    }
}

fn get_asset_or<T: Copy>(map: &AssetMap<T>, asset: &str, default: T) -> (r: T)
    ensures
        r == pick_or(map@, asset@, default),
{
    match get_asset(map, asset) {
        Some(v) => v,
        None => default,
    }
}

/// The entry for the asset or the default entry, and an error where there is neither.
pub fn req<T: Copy>(map: &AssetMap<T>, asset: &str, field: &str) -> (r: Result<T, MissingField>)
    ensures
        match r {
            Ok(v) => pick(map@, asset@) == Some(v),
            Err(e) => pick(map@, asset@) is None && e.field@ == field@ && e.asset@ == asset@,
        },
{
    match get_asset(map, asset) {
        Some(v) => Ok(v),
        None => Err(MissingField { field: field.to_owned(), asset: asset.to_owned() }),
    }
}

impl StrategyToml {
    /// The first required table that has no entry to offer, in the order in which the
    /// parameters are resolved.
    pub open spec fn missing(self, asset: Seq<char>) -> Option<Seq<char>> {
        if pick(self.enter_when_time_left@, asset) is None {
            Some("enter_when_time_left"@)
        } else if pick(self.reversal@, asset) is None {
            Some("reversal"@)
        } else if pick(self.reversal_low_threshold@, asset) is None {
            Some("reversal_low_threshold"@)
        } else if pick(self.reversal_start_time@, asset) is None {
            Some("reversal_start_time"@)
        } else if pick(self.gamma_poll_delay_secs@, asset) is None {
            Some("gamma_poll_delay_secs"@)
        } else if pick(self.gamma_poll_interval_secs@, asset) is None {
            Some("gamma_poll_interval_secs"@)
        } else if pick(self.gamma_poll_deadline_secs@, asset) is None {
            Some("gamma_poll_deadline_secs"@)
        } else if pick(self.price_high_rev@, asset) is None {
            Some("price_high_rev"@)
        } else if pick(self.delta_pct_rev@, asset) is None {
            Some("delta_pct_rev"@)
        } else if pick(self.sl_reversal@, asset) is None {
            Some("sl_reversal"@)
        } else if pick(self.unwind_pnl_rev@, asset) is None {
            Some("unwind_pnl_rev"@)
        } else if pick(self.sl_pnl_rev@, asset) is None {
            Some("sl_pnl_rev"@)
        } else if pick(self.unwind_time_rev@, asset) is None {
            Some("unwind_time_rev"@)
        } else if pick(self.price_low@, asset) is None {
            Some("price_low"@)
        } else if pick(self.price_high@, asset) is None {
            Some("price_high"@)
        } else if pick(self.delta_pct_hp@, asset) is None {
            Some("delta_pct_hp"@)
        } else if pick(self.sl_high_prob@, asset) is None {
            Some("sl_high_prob"@)
        } else if pick(self.unwind_pnl_hp@, asset) is None {
            Some("unwind_pnl_hp"@)
        } else if pick(self.sl_pnl_hp@, asset) is None {
            Some("sl_pnl_hp"@)
        } else if pick(self.unwind_time_hp@, asset) is None {
            Some("unwind_time_hp"@)
        } else if pick(self.halt_rev@, asset) is None {
            Some("halt_rev"@)
        } else if pick(self.halt_prob@, asset) is None {
            Some("halt_prob"@)
        } else if pick(self.halt_reset_hour_rev@, asset) is None {
            Some("halt_reset_hour_rev"@)
        } else if pick(self.halt_reset_hour_hp@, asset) is None {
            Some("halt_reset_hour_hp"@)
        } else if pick(self.trade_size_usdc@, asset) is None {
            Some("trade_size_usdc"@)
        } else {
            None
        }
    }

    /// `p` holds what the tables say for the asset.
    pub open spec fn resolves_to(self, asset: Seq<char>, p: AssetParams, calc: Calc) -> bool {
        &&& p.asset@ == asset
        &&& p.strategies@ == match pick(self.strategies@, asset) {
            Some(names) => names@,
            None => Seq::empty(),
        }
        &&& p.no_enter_when_time_left == calc.from_signed(self.no_enter_when_time_left)
        &&& p.max_buy_price == self.max_buy_price
        &&& p.spread_premium_limit == self.spread_premium_limit
        &&& p.spread_discount_limit == self.spread_discount_limit
        &&& p.max_price_age_secs == self.max_price_age_secs
        &&& p.enter_when_time_left == calc.from_signed(pick(self.enter_when_time_left@, asset)->0)
        &&& pick(self.reversal@, asset) == Some(p.reversal)
        &&& pick(self.reversal_low_threshold@, asset) == Some(p.reversal_low_threshold)
        &&& p.reversal_start_time == calc.from_signed(pick(self.reversal_start_time@, asset)->0)
        &&& pick(self.gamma_poll_delay_secs@, asset) == Some(p.gamma_poll_delay_secs)
        &&& pick(self.gamma_poll_interval_secs@, asset) == Some(p.gamma_poll_interval_secs)
        &&& pick(self.gamma_poll_deadline_secs@, asset) == Some(p.gamma_poll_deadline_secs)
        &&& pick(self.price_high_rev@, asset) == Some(p.price_high_rev)
        &&& pick(self.delta_pct_rev@, asset) == Some(p.delta_pct_rev)
        &&& pick(self.sl_reversal@, asset) == Some(p.sl_reversal)
        &&& pick(self.unwind_pnl_rev@, asset) == Some(p.unwind_pnl_rev)
        &&& pick(self.sl_pnl_rev@, asset) == Some(p.sl_pnl_rev)
        &&& pick(self.unwind_time_rev@, asset) == Some(p.unwind_time_rev)
        &&& pick(self.price_low@, asset) == Some(p.price_low)
        &&& pick(self.price_high@, asset) == Some(p.price_high)
        &&& pick(self.delta_pct_hp@, asset) == Some(p.delta_pct_hp)
        &&& pick(self.sl_high_prob@, asset) == Some(p.sl_high_prob)
        &&& pick(self.unwind_pnl_hp@, asset) == Some(p.unwind_pnl_hp)
        &&& pick(self.sl_pnl_hp@, asset) == Some(p.sl_pnl_hp)
        &&& pick(self.unwind_time_hp@, asset) == Some(p.unwind_time_hp)
        &&& pick(self.halt_rev@, asset) == Some(p.halt_rev)
        &&& pick(self.halt_prob@, asset) == Some(p.halt_prob)
        &&& pick(self.halt_reset_hour_rev@, asset) == Some(p.halt_reset_hour_rev)
        &&& pick(self.halt_reset_hour_hp@, asset) == Some(p.halt_reset_hour_hp)
        &&& pick(self.trade_size_usdc@, asset) == Some(p.trade_size_usdc)
        &&& p.v_high1 == pick_or(self.v_high1@, asset, num(V_HIGH1))
        &&& p.v_low == pick_or(self.v_low@, asset, num(V_LOW))
        &&& p.v_high2 == pick_or(self.v_high2@, asset, num(V_HIGH2))
        &&& p.delta_pct_v == pick_or(self.delta_pct_v@, asset, num(ZERO))
        &&& p.sl_v_shape == pick_or(self.sl_v_shape@, asset, num(ZERO))
        &&& p.sl_pnl_v == pick_or(self.sl_pnl_v@, asset, num(SL_PNL_V))
        &&& p.unwind_pnl_v == pick_or(self.unwind_pnl_v@, asset, num(UNWIND_PNL_V))
        &&& p.unwind_time_v == pick_or(self.unwind_time_v@, asset, num(UNWIND_TIME_V))
        &&& p.halt_v == pick_or(self.halt_v@, asset, HALT_V)
        &&& p.halt_reset_hour_v == pick_or(self.halt_reset_hour_v@, asset, HALT_RESET_HOUR_V)
    }

    /// The parameters of one asset. The tables of v_shape have built-in defaults, the
    /// others must have an entry.
    pub fn resolve<F: Fn(Op, Num, Num) -> Num>(&self, asset: &str, arith: &Arith<F>) -> (r: Result<
        AssetParams,
        MissingField,
    >)
        ensures
            match r {
                Ok(p) => self.missing(asset@) is None && self.resolves_to(asset@, p, arith@),
                Err(e) => self.missing(asset@) == Some(e.field@) && e.asset@ == asset@,
            },
    {
        let strategies = match self.strategies.get(asset) {
            Some(names) => copy_texts(names),
            None => match self.strategies.get("default") {
                Some(names) => copy_texts(names),
                None => Vec::new(),
            },
        };
        let enter_when_time_left: i64 = match req(&self.enter_when_time_left, asset, "enter_when_time_left") {
            Ok(v) => v,
            Err(e) => {
                return Err(e);
            },
        };
        let reversal: Num = match req(&self.reversal, asset, "reversal") {
            Ok(v) => v,
            Err(e) => {
                return Err(e);
            },
        };
        let reversal_low_threshold: Num = match req(&self.reversal_low_threshold, asset, "reversal_low_threshold") {
            Ok(v) => v,
            Err(e) => {
                return Err(e);
            },
        };
        let reversal_start_time: i64 = match req(&self.reversal_start_time, asset, "reversal_start_time") {
            Ok(v) => v,
            Err(e) => {
                return Err(e);
            },
        };
        let gamma_poll_delay_secs: Num = match req(&self.gamma_poll_delay_secs, asset, "gamma_poll_delay_secs") {
            Ok(v) => v,
            Err(e) => {
                return Err(e);
            },
        };
        let gamma_poll_interval_secs: Num = match req(&self.gamma_poll_interval_secs, asset, "gamma_poll_interval_secs") {
            Ok(v) => v,
            Err(e) => {
                return Err(e);
            },
        };
        let gamma_poll_deadline_secs: Num = match req(&self.gamma_poll_deadline_secs, asset, "gamma_poll_deadline_secs") {
            Ok(v) => v,
            Err(e) => {
                return Err(e);
            },
        };
        let price_high_rev: Num = match req(&self.price_high_rev, asset, "price_high_rev") {
            Ok(v) => v,
            Err(e) => {
                return Err(e);
            },
        };
        let delta_pct_rev: Num = match req(&self.delta_pct_rev, asset, "delta_pct_rev") {
            Ok(v) => v,
            Err(e) => {
                return Err(e);
            },
        };
        let sl_reversal: Num = match req(&self.sl_reversal, asset, "sl_reversal") {
            Ok(v) => v,
            Err(e) => {
                return Err(e);
            },
        };
        let unwind_pnl_rev: Num = match req(&self.unwind_pnl_rev, asset, "unwind_pnl_rev") {
            Ok(v) => v,
            Err(e) => {
                return Err(e);
            },
        };
        let sl_pnl_rev: Num = match req(&self.sl_pnl_rev, asset, "sl_pnl_rev") {
            Ok(v) => v,
            Err(e) => {
                return Err(e);
            },
        };
        let unwind_time_rev: Num = match req(&self.unwind_time_rev, asset, "unwind_time_rev") {
            Ok(v) => v,
            Err(e) => {
                return Err(e);
            },
        };
        let price_low: Num = match req(&self.price_low, asset, "price_low") {
            Ok(v) => v,
            Err(e) => {
                return Err(e);
            },
        };
        let price_high: Num = match req(&self.price_high, asset, "price_high") {
            Ok(v) => v,
            Err(e) => {
                return Err(e);
            },
        };
        let delta_pct_hp: Num = match req(&self.delta_pct_hp, asset, "delta_pct_hp") {
            Ok(v) => v,
            Err(e) => {
                return Err(e);
            },
        };
        let sl_high_prob: Num = match req(&self.sl_high_prob, asset, "sl_high_prob") {
            Ok(v) => v,
            Err(e) => {
                return Err(e);
            },
        };
        let unwind_pnl_hp: Num = match req(&self.unwind_pnl_hp, asset, "unwind_pnl_hp") {
            Ok(v) => v,
            Err(e) => {
                return Err(e);
            },
        };
        let sl_pnl_hp: Num = match req(&self.sl_pnl_hp, asset, "sl_pnl_hp") {
            Ok(v) => v,
            Err(e) => {
                return Err(e);
            },
        };
        let unwind_time_hp: Num = match req(&self.unwind_time_hp, asset, "unwind_time_hp") {
            Ok(v) => v,
            Err(e) => {
                return Err(e);
            },
        };
        let halt_rev: i64 = match req(&self.halt_rev, asset, "halt_rev") {
            Ok(v) => v,
            Err(e) => {
                return Err(e);
            },
        };
        let halt_prob: i64 = match req(&self.halt_prob, asset, "halt_prob") {
            Ok(v) => v,
            Err(e) => {
                return Err(e);
            },
        };
        let halt_reset_hour_rev: i64 = match req(&self.halt_reset_hour_rev, asset, "halt_reset_hour_rev") {
            Ok(v) => v,
            Err(e) => {
                return Err(e);
            },
        };
        let halt_reset_hour_hp: i64 = match req(&self.halt_reset_hour_hp, asset, "halt_reset_hour_hp") {
            Ok(v) => v,
            Err(e) => {
                return Err(e);
            },
        };
        let trade_size_usdc: Num = match req(&self.trade_size_usdc, asset, "trade_size_usdc") {
            Ok(v) => v,
            Err(e) => {
                return Err(e);
            },
        };
        let p = AssetParams {
            asset: asset.to_owned(),
            strategies,
            enter_when_time_left: arith.from_signed(enter_when_time_left),
            no_enter_when_time_left: arith.from_signed(self.no_enter_when_time_left),
            reversal,
            reversal_low_threshold,
            reversal_start_time: arith.from_signed(reversal_start_time),
            gamma_poll_delay_secs,
            gamma_poll_interval_secs,
            gamma_poll_deadline_secs,
            price_high_rev,
            delta_pct_rev,
            sl_reversal,
            unwind_pnl_rev,
            sl_pnl_rev,
            unwind_time_rev,
            price_low,
            price_high,
            delta_pct_hp,
            sl_high_prob,
            unwind_pnl_hp,
            sl_pnl_hp,
            unwind_time_hp,
            halt_rev,
            halt_prob,
            halt_reset_hour_rev,
            halt_reset_hour_hp,
            v_high1: get_asset_or(&self.v_high1, asset, num(V_HIGH1)),
            v_low: get_asset_or(&self.v_low, asset, num(V_LOW)),
            v_high2: get_asset_or(&self.v_high2, asset, num(V_HIGH2)),
            delta_pct_v: get_asset_or(&self.delta_pct_v, asset, num(ZERO)),
            sl_v_shape: get_asset_or(&self.sl_v_shape, asset, num(ZERO)),
            sl_pnl_v: get_asset_or(&self.sl_pnl_v, asset, num(SL_PNL_V)),
            unwind_pnl_v: get_asset_or(&self.unwind_pnl_v, asset, num(UNWIND_PNL_V)),
            unwind_time_v: get_asset_or(&self.unwind_time_v, asset, num(UNWIND_TIME_V)),
            halt_v: get_asset_or(&self.halt_v, asset, HALT_V),
            halt_reset_hour_v: get_asset_or(&self.halt_reset_hour_v, asset, HALT_RESET_HOUR_V),
            max_buy_price: self.max_buy_price,
            spread_premium_limit: self.spread_premium_limit,
            spread_discount_limit: self.spread_discount_limit,
            max_price_age_secs: self.max_price_age_secs,
            trade_size_usdc,
        };
        Ok(p)
    }
}

} // verus!

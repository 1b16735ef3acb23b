//! What the tables of the configuration say for an asset.

use vstd::prelude::*;

use crate::asset_map::AssetMap;
use crate::calendar::local_stamp;
use crate::config::{get_asset, pick, req, AssetParams, MissingField, StrategyToml};
use crate::config_log::{build_band, build_snapshot, latest_snapshot, ConfigSnapshot};
use crate::num::{num, Arith, Num, Op, ZERO};
use crate::text::{joined, views};

verus! {

/// The table says `v` for the asset: by the asset's own entry, or by the default where it has
/// none of its own.
pub open spec fn says<T>(table: Map<Seq<char>, T>, asset: Seq<char>, v: T) -> bool {
    ||| table.contains_key(asset) && table[asset] == v
    ||| !table.contains_key(asset) && table.contains_key("default"@) && table["default"@] == v
}

/// The table says nothing for the asset.
pub open spec fn silent<T>(table: Map<Seq<char>, T>, asset: Seq<char>) -> bool {
    !table.contains_key(asset) && !table.contains_key("default"@)
}

/// The table says `v` for the asset, or nothing, and `v` is what then holds.
pub open spec fn says_or<T>(table: Map<Seq<char>, T>, asset: Seq<char>, v: T, built_in: T) -> bool {
    ||| says(table, asset, v)
    ||| silent(table, asset) && v == built_in
}

/// An asset's own entry comes before the default, and without either there is none.
pub proof fn own_entry_comes_first<T: Copy>(table: AssetMap<T>, asset: &str, field: &str)
    ensures
        forall|r: Option<T>| #[trigger]
            call_ensures(get_asset::<T>, (&table, asset), r) ==> {
                &&& r is Some ==> says(table@, asset@, r->0)
                &&& r is None <==> silent(table@, asset@)
            },
        forall|r: Result<T, MissingField>| #[trigger]
            call_ensures(req::<T>, (&table, asset, field), r) ==> {
                &&& r is Ok ==> says(table@, asset@, r->Ok_0)
                &&& r is Err <==> silent(table@, asset@)
                &&& r is Err ==> r->Err_0.field@ == field@ && r->Err_0.asset@ == asset@
            },
{
}

/// The parameters of an asset are what the tables say for it, each by the table of its own name.
pub proof fn parameters_are_what_the_tables_say<F: Fn(Op, Num, Num) -> Num>(
    toml: StrategyToml,
    asset: &str,
    arith: Arith<F>,
)
    ensures
        forall|r: Result<AssetParams, MissingField>| #[trigger]
            call_ensures(StrategyToml::resolve::<F>, (&toml, asset, &arith), r) && r is Ok ==> {
                let p = r->Ok_0;
                &&& p.asset@ == asset@
                &&& p.no_enter_when_time_left == arith@.from_signed(toml.no_enter_when_time_left)
                &&& p.max_buy_price == toml.max_buy_price
                &&& p.spread_premium_limit == toml.spread_premium_limit
                &&& p.spread_discount_limit == toml.spread_discount_limit
                &&& p.max_price_age_secs == toml.max_price_age_secs
                &&& exists|v: i64| #[trigger]
                    says(toml.enter_when_time_left@, asset@, v) && p.enter_when_time_left == arith@.from_signed(v)
                &&& says(toml.reversal@, asset@, p.reversal)
                &&& says(toml.reversal_low_threshold@, asset@, p.reversal_low_threshold)
                &&& exists|v: i64| #[trigger]
                    says(toml.reversal_start_time@, asset@, v) && p.reversal_start_time == arith@.from_signed(v)
                &&& says(toml.gamma_poll_delay_secs@, asset@, p.gamma_poll_delay_secs)
                &&& says(toml.gamma_poll_interval_secs@, asset@, p.gamma_poll_interval_secs)
                &&& says(toml.gamma_poll_deadline_secs@, asset@, p.gamma_poll_deadline_secs)
                &&& says(toml.price_high_rev@, asset@, p.price_high_rev)
                &&& says(toml.delta_pct_rev@, asset@, p.delta_pct_rev)
                &&& says(toml.sl_reversal@, asset@, p.sl_reversal)
                &&& says(toml.unwind_pnl_rev@, asset@, p.unwind_pnl_rev)
                &&& says(toml.sl_pnl_rev@, asset@, p.sl_pnl_rev)
                &&& says(toml.unwind_time_rev@, asset@, p.unwind_time_rev)
                &&& says(toml.price_low@, asset@, p.price_low)
                &&& says(toml.price_high@, asset@, p.price_high)
                &&& says(toml.delta_pct_hp@, asset@, p.delta_pct_hp)
                &&& says(toml.sl_high_prob@, asset@, p.sl_high_prob)
                &&& says(toml.unwind_pnl_hp@, asset@, p.unwind_pnl_hp)
                &&& says(toml.sl_pnl_hp@, asset@, p.sl_pnl_hp)
                &&& says(toml.unwind_time_hp@, asset@, p.unwind_time_hp)
                &&& says(toml.halt_rev@, asset@, p.halt_rev)
                &&& says(toml.halt_prob@, asset@, p.halt_prob)
                &&& says(toml.halt_reset_hour_rev@, asset@, p.halt_reset_hour_rev)
                &&& says(toml.halt_reset_hour_hp@, asset@, p.halt_reset_hour_hp)
                &&& says(toml.trade_size_usdc@, asset@, p.trade_size_usdc)
                &&& says_or(toml.v_high1@, asset@, p.v_high1, num(0x3FE6_6666_6666_6666))
                &&& says_or(toml.v_low@, asset@, p.v_low, num(0x3FD3_3333_3333_3333))
                &&& says_or(toml.v_high2@, asset@, p.v_high2, num(0x3FE6_6666_6666_6666))
                &&& says_or(toml.delta_pct_v@, asset@, p.delta_pct_v, num(ZERO))
                &&& says_or(toml.sl_v_shape@, asset@, p.sl_v_shape, num(ZERO))
                &&& says_or(toml.sl_pnl_v@, asset@, p.sl_pnl_v, num(0x3FD3_3333_3333_3333))
                &&& says_or(toml.unwind_pnl_v@, asset@, p.unwind_pnl_v, num(0x3FC3_3333_3333_3333))
                &&& says_or(toml.unwind_time_v@, asset@, p.unwind_time_v, num(0x4039_0000_0000_0000))
                &&& says_or(toml.halt_v@, asset@, p.halt_v, 1)
                &&& says_or(toml.halt_reset_hour_v@, asset@, p.halt_reset_hour_v, 2)
                &&& toml.strategies@.contains_key(asset@) ==> p.strategies@
                    == toml.strategies@[asset@]@
                &&& !toml.strategies@.contains_key(asset@) && toml.strategies@.contains_key(
                    "default"@,
                ) ==> p.strategies@ == toml.strategies@["default"@]@
                &&& silent(toml.strategies@, asset@) ==> p.strategies@.len() == 0
            },
{
    assert forall|r: Result<AssetParams, MissingField>| #[trigger]
        call_ensures(StrategyToml::resolve::<F>, (&toml, asset, &arith), r) && r is Ok implies {
        &&& exists|v: i64| #[trigger]
            says(toml.enter_when_time_left@, asset@, v) && r->Ok_0.enter_when_time_left == arith@.from_signed(v)
        &&& exists|v: i64| #[trigger]
            says(toml.reversal_start_time@, asset@, v) && r->Ok_0.reversal_start_time == arith@.from_signed(v)
    } by {
        assert(says(toml.enter_when_time_left@, asset@, pick(toml.enter_when_time_left@, asset@)->0));
        assert(says(toml.reversal_start_time@, asset@, pick(toml.reversal_start_time@, asset@)->0));
    }
}

/// The parameters are told exactly when every table that must speak does; else the first that is
/// silent is named.
pub proof fn silent_table_is_named<F: Fn(Op, Num, Num) -> Num>(
    toml: StrategyToml,
    asset: &str,
    arith: Arith<F>,
)
    ensures
        forall|r: Result<AssetParams, MissingField>| #[trigger]
            call_ensures(StrategyToml::resolve::<F>, (&toml, asset, &arith), r) ==> {
                let a = asset@;
                &&& r is Err ==> r->Err_0.asset@ == a
                &&& r is Ok <==> !silent(toml.enter_when_time_left@, a)
                    && !silent(toml.reversal@, a) && !silent(toml.reversal_low_threshold@, a)
                    && !silent(toml.reversal_start_time@, a)
                    && !silent(toml.gamma_poll_delay_secs@, a)
                    && !silent(toml.gamma_poll_interval_secs@, a)
                    && !silent(toml.gamma_poll_deadline_secs@, a)
                    && !silent(toml.price_high_rev@, a) && !silent(toml.delta_pct_rev@, a)
                    && !silent(toml.sl_reversal@, a) && !silent(toml.unwind_pnl_rev@, a)
                    && !silent(toml.sl_pnl_rev@, a) && !silent(toml.unwind_time_rev@, a)
                    && !silent(toml.price_low@, a) && !silent(toml.price_high@, a)
                    && !silent(toml.delta_pct_hp@, a) && !silent(toml.sl_high_prob@, a)
                    && !silent(toml.unwind_pnl_hp@, a) && !silent(toml.sl_pnl_hp@, a)
                    && !silent(toml.unwind_time_hp@, a) && !silent(toml.halt_rev@, a)
                    && !silent(toml.halt_prob@, a) && !silent(toml.halt_reset_hour_rev@, a)
                    && !silent(toml.halt_reset_hour_hp@, a) && !silent(toml.trade_size_usdc@, a)
                &&& silent(toml.enter_when_time_left@, a) ==> r is Err
                    && r->Err_0.field@ == "enter_when_time_left"@
                &&& !silent(toml.enter_when_time_left@, a)
                    && silent(toml.reversal@, a) ==> r is Err && r->Err_0.field@ == "reversal"@
                &&& !silent(toml.enter_when_time_left@, a) && !silent(toml.reversal@, a)
                    && silent(toml.reversal_low_threshold@, a) ==> r is Err
                    && r->Err_0.field@ == "reversal_low_threshold"@
                &&& !silent(toml.enter_when_time_left@, a) && !silent(toml.reversal@, a)
                    && !silent(toml.reversal_low_threshold@, a)
                    && silent(toml.reversal_start_time@, a) ==> r is Err
                    && r->Err_0.field@ == "reversal_start_time"@
                &&& !silent(toml.enter_when_time_left@, a) && !silent(toml.reversal@, a)
                    && !silent(toml.reversal_low_threshold@, a)
                    && !silent(toml.reversal_start_time@, a)
                    && silent(toml.gamma_poll_delay_secs@, a) ==> r is Err
                    && r->Err_0.field@ == "gamma_poll_delay_secs"@
                &&& !silent(toml.enter_when_time_left@, a) && !silent(toml.reversal@, a)
                    && !silent(toml.reversal_low_threshold@, a)
                    && !silent(toml.reversal_start_time@, a)
                    && !silent(toml.gamma_poll_delay_secs@, a)
                    && silent(toml.gamma_poll_interval_secs@, a) ==> r is Err
                    && r->Err_0.field@ == "gamma_poll_interval_secs"@
                &&& !silent(toml.enter_when_time_left@, a) && !silent(toml.reversal@, a)
                    && !silent(toml.reversal_low_threshold@, a)
                    && !silent(toml.reversal_start_time@, a)
                    && !silent(toml.gamma_poll_delay_secs@, a)
                    && !silent(toml.gamma_poll_interval_secs@, a)
                    && silent(toml.gamma_poll_deadline_secs@, a) ==> r is Err
                    && r->Err_0.field@ == "gamma_poll_deadline_secs"@
                &&& !silent(toml.enter_when_time_left@, a) && !silent(toml.reversal@, a)
                    && !silent(toml.reversal_low_threshold@, a)
                    && !silent(toml.reversal_start_time@, a)
                    && !silent(toml.gamma_poll_delay_secs@, a)
                    && !silent(toml.gamma_poll_interval_secs@, a)
                    && !silent(toml.gamma_poll_deadline_secs@, a)
                    && silent(toml.price_high_rev@, a) ==> r is Err
                    && r->Err_0.field@ == "price_high_rev"@
                &&& !silent(toml.enter_when_time_left@, a) && !silent(toml.reversal@, a)
                    && !silent(toml.reversal_low_threshold@, a)
                    && !silent(toml.reversal_start_time@, a)
                    && !silent(toml.gamma_poll_delay_secs@, a)
                    && !silent(toml.gamma_poll_interval_secs@, a)
                    && !silent(toml.gamma_poll_deadline_secs@, a)
                    && !silent(toml.price_high_rev@, a)
                    && silent(toml.delta_pct_rev@, a) ==> r is Err
                    && r->Err_0.field@ == "delta_pct_rev"@
                &&& !silent(toml.enter_when_time_left@, a) && !silent(toml.reversal@, a)
                    && !silent(toml.reversal_low_threshold@, a)
                    && !silent(toml.reversal_start_time@, a)
                    && !silent(toml.gamma_poll_delay_secs@, a)
                    && !silent(toml.gamma_poll_interval_secs@, a)
                    && !silent(toml.gamma_poll_deadline_secs@, a)
                    && !silent(toml.price_high_rev@, a) && !silent(toml.delta_pct_rev@, a)
                    && silent(toml.sl_reversal@, a) ==> r is Err
                    && r->Err_0.field@ == "sl_reversal"@
                &&& !silent(toml.enter_when_time_left@, a) && !silent(toml.reversal@, a)
                    && !silent(toml.reversal_low_threshold@, a)
                    && !silent(toml.reversal_start_time@, a)
                    && !silent(toml.gamma_poll_delay_secs@, a)
                    && !silent(toml.gamma_poll_interval_secs@, a)
                    && !silent(toml.gamma_poll_deadline_secs@, a)
                    && !silent(toml.price_high_rev@, a) && !silent(toml.delta_pct_rev@, a)
                    && !silent(toml.sl_reversal@, a)
                    && silent(toml.unwind_pnl_rev@, a) ==> r is Err
                    && r->Err_0.field@ == "unwind_pnl_rev"@
                &&& !silent(toml.enter_when_time_left@, a) && !silent(toml.reversal@, a)
                    && !silent(toml.reversal_low_threshold@, a)
                    && !silent(toml.reversal_start_time@, a)
                    && !silent(toml.gamma_poll_delay_secs@, a)
                    && !silent(toml.gamma_poll_interval_secs@, a)
                    && !silent(toml.gamma_poll_deadline_secs@, a)
                    && !silent(toml.price_high_rev@, a) && !silent(toml.delta_pct_rev@, a)
                    && !silent(toml.sl_reversal@, a) && !silent(toml.unwind_pnl_rev@, a)
                    && silent(toml.sl_pnl_rev@, a) ==> r is Err
                    && r->Err_0.field@ == "sl_pnl_rev"@
                &&& !silent(toml.enter_when_time_left@, a) && !silent(toml.reversal@, a)
                    && !silent(toml.reversal_low_threshold@, a)
                    && !silent(toml.reversal_start_time@, a)
                    && !silent(toml.gamma_poll_delay_secs@, a)
                    && !silent(toml.gamma_poll_interval_secs@, a)
                    && !silent(toml.gamma_poll_deadline_secs@, a)
                    && !silent(toml.price_high_rev@, a) && !silent(toml.delta_pct_rev@, a)
                    && !silent(toml.sl_reversal@, a) && !silent(toml.unwind_pnl_rev@, a)
                    && !silent(toml.sl_pnl_rev@, a)
                    && silent(toml.unwind_time_rev@, a) ==> r is Err
                    && r->Err_0.field@ == "unwind_time_rev"@
                &&& !silent(toml.enter_when_time_left@, a) && !silent(toml.reversal@, a)
                    && !silent(toml.reversal_low_threshold@, a)
                    && !silent(toml.reversal_start_time@, a)
                    && !silent(toml.gamma_poll_delay_secs@, a)
                    && !silent(toml.gamma_poll_interval_secs@, a)
                    && !silent(toml.gamma_poll_deadline_secs@, a)
                    && !silent(toml.price_high_rev@, a) && !silent(toml.delta_pct_rev@, a)
                    && !silent(toml.sl_reversal@, a) && !silent(toml.unwind_pnl_rev@, a)
                    && !silent(toml.sl_pnl_rev@, a) && !silent(toml.unwind_time_rev@, a)
                    && silent(toml.price_low@, a) ==> r is Err && r->Err_0.field@ == "price_low"@
                &&& !silent(toml.enter_when_time_left@, a) && !silent(toml.reversal@, a)
                    && !silent(toml.reversal_low_threshold@, a)
                    && !silent(toml.reversal_start_time@, a)
                    && !silent(toml.gamma_poll_delay_secs@, a)
                    && !silent(toml.gamma_poll_interval_secs@, a)
                    && !silent(toml.gamma_poll_deadline_secs@, a)
                    && !silent(toml.price_high_rev@, a) && !silent(toml.delta_pct_rev@, a)
                    && !silent(toml.sl_reversal@, a) && !silent(toml.unwind_pnl_rev@, a)
                    && !silent(toml.sl_pnl_rev@, a) && !silent(toml.unwind_time_rev@, a)
                    && !silent(toml.price_low@, a) && silent(toml.price_high@, a) ==> r is Err
                    && r->Err_0.field@ == "price_high"@
                &&& !silent(toml.enter_when_time_left@, a) && !silent(toml.reversal@, a)
                    && !silent(toml.reversal_low_threshold@, a)
                    && !silent(toml.reversal_start_time@, a)
                    && !silent(toml.gamma_poll_delay_secs@, a)
                    && !silent(toml.gamma_poll_interval_secs@, a)
                    && !silent(toml.gamma_poll_deadline_secs@, a)
                    && !silent(toml.price_high_rev@, a) && !silent(toml.delta_pct_rev@, a)
                    && !silent(toml.sl_reversal@, a) && !silent(toml.unwind_pnl_rev@, a)
                    && !silent(toml.sl_pnl_rev@, a) && !silent(toml.unwind_time_rev@, a)
                    && !silent(toml.price_low@, a) && !silent(toml.price_high@, a)
                    && silent(toml.delta_pct_hp@, a) ==> r is Err
                    && r->Err_0.field@ == "delta_pct_hp"@
                &&& !silent(toml.enter_when_time_left@, a) && !silent(toml.reversal@, a)
                    && !silent(toml.reversal_low_threshold@, a)
                    && !silent(toml.reversal_start_time@, a)
                    && !silent(toml.gamma_poll_delay_secs@, a)
                    && !silent(toml.gamma_poll_interval_secs@, a)
                    && !silent(toml.gamma_poll_deadline_secs@, a)
                    && !silent(toml.price_high_rev@, a) && !silent(toml.delta_pct_rev@, a)
                    && !silent(toml.sl_reversal@, a) && !silent(toml.unwind_pnl_rev@, a)
                    && !silent(toml.sl_pnl_rev@, a) && !silent(toml.unwind_time_rev@, a)
                    && !silent(toml.price_low@, a) && !silent(toml.price_high@, a)
                    && !silent(toml.delta_pct_hp@, a)
                    && silent(toml.sl_high_prob@, a) ==> r is Err
                    && r->Err_0.field@ == "sl_high_prob"@
                &&& !silent(toml.enter_when_time_left@, a) && !silent(toml.reversal@, a)
                    && !silent(toml.reversal_low_threshold@, a)
                    && !silent(toml.reversal_start_time@, a)
                    && !silent(toml.gamma_poll_delay_secs@, a)
                    && !silent(toml.gamma_poll_interval_secs@, a)
                    && !silent(toml.gamma_poll_deadline_secs@, a)
                    && !silent(toml.price_high_rev@, a) && !silent(toml.delta_pct_rev@, a)
                    && !silent(toml.sl_reversal@, a) && !silent(toml.unwind_pnl_rev@, a)
                    && !silent(toml.sl_pnl_rev@, a) && !silent(toml.unwind_time_rev@, a)
                    && !silent(toml.price_low@, a) && !silent(toml.price_high@, a)
                    && !silent(toml.delta_pct_hp@, a) && !silent(toml.sl_high_prob@, a)
                    && silent(toml.unwind_pnl_hp@, a) ==> r is Err
                    && r->Err_0.field@ == "unwind_pnl_hp"@
                &&& !silent(toml.enter_when_time_left@, a) && !silent(toml.reversal@, a)
                    && !silent(toml.reversal_low_threshold@, a)
                    && !silent(toml.reversal_start_time@, a)
                    && !silent(toml.gamma_poll_delay_secs@, a)
                    && !silent(toml.gamma_poll_interval_secs@, a)
                    && !silent(toml.gamma_poll_deadline_secs@, a)
                    && !silent(toml.price_high_rev@, a) && !silent(toml.delta_pct_rev@, a)
                    && !silent(toml.sl_reversal@, a) && !silent(toml.unwind_pnl_rev@, a)
                    && !silent(toml.sl_pnl_rev@, a) && !silent(toml.unwind_time_rev@, a)
                    && !silent(toml.price_low@, a) && !silent(toml.price_high@, a)
                    && !silent(toml.delta_pct_hp@, a) && !silent(toml.sl_high_prob@, a)
                    && !silent(toml.unwind_pnl_hp@, a) && silent(toml.sl_pnl_hp@, a) ==> r is Err
                    && r->Err_0.field@ == "sl_pnl_hp"@
                &&& !silent(toml.enter_when_time_left@, a) && !silent(toml.reversal@, a)
                    && !silent(toml.reversal_low_threshold@, a)
                    && !silent(toml.reversal_start_time@, a)
                    && !silent(toml.gamma_poll_delay_secs@, a)
                    && !silent(toml.gamma_poll_interval_secs@, a)
                    && !silent(toml.gamma_poll_deadline_secs@, a)
                    && !silent(toml.price_high_rev@, a) && !silent(toml.delta_pct_rev@, a)
                    && !silent(toml.sl_reversal@, a) && !silent(toml.unwind_pnl_rev@, a)
                    && !silent(toml.sl_pnl_rev@, a) && !silent(toml.unwind_time_rev@, a)
                    && !silent(toml.price_low@, a) && !silent(toml.price_high@, a)
                    && !silent(toml.delta_pct_hp@, a) && !silent(toml.sl_high_prob@, a)
                    && !silent(toml.unwind_pnl_hp@, a) && !silent(toml.sl_pnl_hp@, a)
                    && silent(toml.unwind_time_hp@, a) ==> r is Err
                    && r->Err_0.field@ == "unwind_time_hp"@
                &&& !silent(toml.enter_when_time_left@, a) && !silent(toml.reversal@, a)
                    && !silent(toml.reversal_low_threshold@, a)
                    && !silent(toml.reversal_start_time@, a)
                    && !silent(toml.gamma_poll_delay_secs@, a)
                    && !silent(toml.gamma_poll_interval_secs@, a)
                    && !silent(toml.gamma_poll_deadline_secs@, a)
                    && !silent(toml.price_high_rev@, a) && !silent(toml.delta_pct_rev@, a)
                    && !silent(toml.sl_reversal@, a) && !silent(toml.unwind_pnl_rev@, a)
                    && !silent(toml.sl_pnl_rev@, a) && !silent(toml.unwind_time_rev@, a)
                    && !silent(toml.price_low@, a) && !silent(toml.price_high@, a)
                    && !silent(toml.delta_pct_hp@, a) && !silent(toml.sl_high_prob@, a)
                    && !silent(toml.unwind_pnl_hp@, a) && !silent(toml.sl_pnl_hp@, a)
                    && !silent(toml.unwind_time_hp@, a) && silent(toml.halt_rev@, a) ==> r is Err
                    && r->Err_0.field@ == "halt_rev"@
                &&& !silent(toml.enter_when_time_left@, a) && !silent(toml.reversal@, a)
                    && !silent(toml.reversal_low_threshold@, a)
                    && !silent(toml.reversal_start_time@, a)
                    && !silent(toml.gamma_poll_delay_secs@, a)
                    && !silent(toml.gamma_poll_interval_secs@, a)
                    && !silent(toml.gamma_poll_deadline_secs@, a)
                    && !silent(toml.price_high_rev@, a) && !silent(toml.delta_pct_rev@, a)
                    && !silent(toml.sl_reversal@, a) && !silent(toml.unwind_pnl_rev@, a)
                    && !silent(toml.sl_pnl_rev@, a) && !silent(toml.unwind_time_rev@, a)
                    && !silent(toml.price_low@, a) && !silent(toml.price_high@, a)
                    && !silent(toml.delta_pct_hp@, a) && !silent(toml.sl_high_prob@, a)
                    && !silent(toml.unwind_pnl_hp@, a) && !silent(toml.sl_pnl_hp@, a)
                    && !silent(toml.unwind_time_hp@, a) && !silent(toml.halt_rev@, a)
                    && silent(toml.halt_prob@, a) ==> r is Err && r->Err_0.field@ == "halt_prob"@
                &&& !silent(toml.enter_when_time_left@, a) && !silent(toml.reversal@, a)
                    && !silent(toml.reversal_low_threshold@, a)
                    && !silent(toml.reversal_start_time@, a)
                    && !silent(toml.gamma_poll_delay_secs@, a)
                    && !silent(toml.gamma_poll_interval_secs@, a)
                    && !silent(toml.gamma_poll_deadline_secs@, a)
                    && !silent(toml.price_high_rev@, a) && !silent(toml.delta_pct_rev@, a)
                    && !silent(toml.sl_reversal@, a) && !silent(toml.unwind_pnl_rev@, a)
                    && !silent(toml.sl_pnl_rev@, a) && !silent(toml.unwind_time_rev@, a)
                    && !silent(toml.price_low@, a) && !silent(toml.price_high@, a)
                    && !silent(toml.delta_pct_hp@, a) && !silent(toml.sl_high_prob@, a)
                    && !silent(toml.unwind_pnl_hp@, a) && !silent(toml.sl_pnl_hp@, a)
                    && !silent(toml.unwind_time_hp@, a) && !silent(toml.halt_rev@, a)
                    && !silent(toml.halt_prob@, a)
                    && silent(toml.halt_reset_hour_rev@, a) ==> r is Err
                    && r->Err_0.field@ == "halt_reset_hour_rev"@
                &&& !silent(toml.enter_when_time_left@, a) && !silent(toml.reversal@, a)
                    && !silent(toml.reversal_low_threshold@, a)
                    && !silent(toml.reversal_start_time@, a)
                    && !silent(toml.gamma_poll_delay_secs@, a)
                    && !silent(toml.gamma_poll_interval_secs@, a)
                    && !silent(toml.gamma_poll_deadline_secs@, a)
                    && !silent(toml.price_high_rev@, a) && !silent(toml.delta_pct_rev@, a)
                    && !silent(toml.sl_reversal@, a) && !silent(toml.unwind_pnl_rev@, a)
                    && !silent(toml.sl_pnl_rev@, a) && !silent(toml.unwind_time_rev@, a)
                    && !silent(toml.price_low@, a) && !silent(toml.price_high@, a)
                    && !silent(toml.delta_pct_hp@, a) && !silent(toml.sl_high_prob@, a)
                    && !silent(toml.unwind_pnl_hp@, a) && !silent(toml.sl_pnl_hp@, a)
                    && !silent(toml.unwind_time_hp@, a) && !silent(toml.halt_rev@, a)
                    && !silent(toml.halt_prob@, a) && !silent(toml.halt_reset_hour_rev@, a)
                    && silent(toml.halt_reset_hour_hp@, a) ==> r is Err
                    && r->Err_0.field@ == "halt_reset_hour_hp"@
                &&& !silent(toml.enter_when_time_left@, a) && !silent(toml.reversal@, a)
                    && !silent(toml.reversal_low_threshold@, a)
                    && !silent(toml.reversal_start_time@, a)
                    && !silent(toml.gamma_poll_delay_secs@, a)
                    && !silent(toml.gamma_poll_interval_secs@, a)
                    && !silent(toml.gamma_poll_deadline_secs@, a)
                    && !silent(toml.price_high_rev@, a) && !silent(toml.delta_pct_rev@, a)
                    && !silent(toml.sl_reversal@, a) && !silent(toml.unwind_pnl_rev@, a)
                    && !silent(toml.sl_pnl_rev@, a) && !silent(toml.unwind_time_rev@, a)
                    && !silent(toml.price_low@, a) && !silent(toml.price_high@, a)
                    && !silent(toml.delta_pct_hp@, a) && !silent(toml.sl_high_prob@, a)
                    && !silent(toml.unwind_pnl_hp@, a) && !silent(toml.sl_pnl_hp@, a)
                    && !silent(toml.unwind_time_hp@, a) && !silent(toml.halt_rev@, a)
                    && !silent(toml.halt_prob@, a) && !silent(toml.halt_reset_hour_rev@, a)
                    && !silent(toml.halt_reset_hour_hp@, a)
                    && silent(toml.trade_size_usdc@, a) ==> r is Err
                    && r->Err_0.field@ == "trade_size_usdc"@
            },
{
}

/// A snapshot tells the configuration, each table under its own name, and its time as it is told
/// in Hong Kong.
pub proof fn snapshot_tells_the_tables<F: Fn(Op, Num, Num) -> Num>(
    toml: StrategyToml,
    asset: &str,
    event: &str,
    strategies: Vec<String>,
    ts: Num,
    arith: Arith<F>,
)
    ensures
        forall|s: ConfigSnapshot| #[trigger]
            call_ensures(
                build_snapshot::<F>,
                (&toml, asset, event, &strategies, ts, &arith),
                s,
            ) ==> {
                &&& s.ts == ts
                &&& s.hkt@ == local_stamp(arith@.to_signed(ts) as int, 28800) + " HKT"@
                &&& s.asset@ == asset@
                &&& s.event@ == event@
                &&& s.assets@ == joined(views(toml.assets@), ","@)
                &&& s.trade_assets@ == joined(views(toml.trade_assets@), ","@)
                &&& s.strategies@ == strategies@
                &&& s.max_buy == toml.max_buy_price
                &&& s.no_enter == toml.no_enter_when_time_left
                &&& forall|k: Seq<char>| #[trigger]
                    s.band@.contains_key(k) ==> says(toml.price_low@, k, s.band@[k].0) && says(
                        toml.price_high@,
                        k,
                        s.band@[k].1,
                    )
                &&& s.trade_size@ == toml.trade_size_usdc@
                &&& s.halt_prob@ == toml.halt_prob@
                &&& s.halt_rev@ == toml.halt_rev@
                &&& s.halt_reset_hour_rev@ == toml.halt_reset_hour_rev@
                &&& s.halt_reset_hour_hp@ == toml.halt_reset_hour_hp@
                &&& s.enter_when@ == toml.enter_when_time_left@
                &&& s.delta_pct_hp@ == toml.delta_pct_hp@
                &&& s.delta_pct_rev@ == toml.delta_pct_rev@
                &&& s.reversal@ == toml.reversal@
                &&& s.rev_low@ == toml.reversal_low_threshold@
                &&& s.rev_start@ == toml.reversal_start_time@
                &&& s.price_high_rev@ == toml.price_high_rev@
                &&& s.sl_hp@ == toml.sl_high_prob@
                &&& s.sl_rev@ == toml.sl_reversal@
                &&& s.unwind_pnl_rev@ == toml.unwind_pnl_rev@
                &&& s.sl_pnl_rev@ == toml.sl_pnl_rev@
                &&& s.unwind_pnl_hp@ == toml.unwind_pnl_hp@
                &&& s.sl_pnl_hp@ == toml.sl_pnl_hp@
                &&& s.v_high1@ == toml.v_high1@
                &&& s.v_low@ == toml.v_low@
                &&& s.v_high2@ == toml.v_high2@
                &&& s.delta_pct_v@ == toml.delta_pct_v@
                &&& s.sl_v_shape@ == toml.sl_v_shape@
                &&& s.sl_pnl_v@ == toml.sl_pnl_v@
                &&& s.unwind_pnl_v@ == toml.unwind_pnl_v@
                &&& s.unwind_time_v@ == toml.unwind_time_v@
                &&& s.halt_v@ == toml.halt_v@
                &&& s.halt_reset_hour_v@ == toml.halt_reset_hour_v@
            },
{
}

/// Every asset that either end of the band names has a band, from what both ends say for it.
pub proof fn band_has_both_ends(low: AssetMap<Num>, high: AssetMap<Num>)
    ensures
        forall|r: AssetMap<(Num, Num)>| #[trigger]
            call_ensures(build_band, (&low, &high), r) ==> forall|k: Seq<char>| #[trigger]
                r@.contains_key(k) ==> {
                    &&& low@.contains_key(k) || high@.contains_key(k)
                    &&& says(low@, k, r@[k].0)
                    &&& says(high@, k, r@[k].1)
                },
        forall|r: AssetMap<(Num, Num)>, k: Seq<char>|
            #[trigger] call_ensures(build_band, (&low, &high), r) && (low@.contains_key(k)
                || high@.contains_key(k)) ==> #[trigger] r@.contains_key(k),
{
}

/// The snapshot in force is one of the asset that is not later than the time; none of the asset
/// lies between, and among those of one time it is the last. Where there is none, none is given.
pub proof fn snapshot_in_force_is_the_latest(entries: Vec<ConfigSnapshot>, asset: &str, ts: Num)
    ensures
        forall|r: Option<usize>| #[trigger]
            call_ensures(latest_snapshot, (&entries, asset, ts), r) ==> {
                &&& r is Some ==> {
                    let e = entries@[r->0 as int];
                    &&& r->0 < entries@.len()
                    &&& e.asset@ == asset@
                    &&& e.ts.le(ts)
                    &&& forall|j: int|
                        0 <= j < entries@.len() && (#[trigger] entries@[j]).asset@ == asset@
                            && entries@[j].ts.le(ts) ==> entries@[j].ts.le(e.ts) && (e.ts.le(
                            entries@[j].ts,
                        ) ==> j <= r->0)
                }
                &&& r is None ==> forall|j: int|
                    0 <= j < entries@.len() && (#[trigger] entries@[j]).asset@ == asset@
                        ==> !entries@[j].ts.le(ts)
            },
{
}

} // verus!

use trader::asset_map::AssetMap;
use trader::config::{AssetParams, StrategyToml};
use trader::config_log::{build_band, build_snapshot, latest_snapshot, snapshot_order, ConfigSnapshot};
use trader::num::{num, Arith, Layout, Num, Op, Writer};
use trader::telegram::render::{format_params, format_params_with};

fn n(x: f64) -> Num {
    num(x.to_bits())
}

fn f(x: Num) -> f64 {
    f64::from_bits(x.bits)
}

fn unit(op: Op, a: Num, b: Num) -> Num {
    match op {
        Op::Plus => n(f(a) + f(b)),
        Op::Minus => n(f(a) - f(b)),
        Op::Times => n(f(a) * f(b)),
        Op::Over => n(f(a) / f(b)),
        Op::Round => n(f(a).round()),
        Op::Floor => n(f(a).floor()),
        Op::FromSigned => n((a.bits as i64) as f64),
        Op::FromUnsigned => n(a.bits as f64),
        Op::ToSigned => num((f(a) as i64) as u64),
        Op::ToUnsigned => num(f(a) as u64),
    }
}

fn arith() -> Arith<impl Fn(Op, Num, Num) -> Num> {
    Arith::new(unit)
}

fn written(x: Num, layout: Layout) -> String {
    match layout {
        Layout::Plain => format!("{}", f(x)),
        Layout::Fixed(d) => format!("{:.*}", d as usize, f(x)),
        Layout::Signed(d) => format!("{:+.*}", d as usize, f(x)),
    }
}

fn writer() -> Writer<impl Fn(Num, Layout) -> String> {
    Writer::new(written)
}

fn nums(entries: &[(&str, f64)]) -> AssetMap<Num> {
    let mut m = AssetMap::new();
    for (k, v) in entries {
        m.insert(k.to_string(), n(*v));
    }
    m
}

fn ints(entries: &[(&str, i64)]) -> AssetMap<i64> {
    let mut m = AssetMap::new();
    for (k, v) in entries {
        m.insert(k.to_string(), *v);
    }
    m
}

fn names(list: &[&str]) -> Vec<String> {
    list.iter().map(|s| s.to_string()).collect()
}

fn config() -> StrategyToml {
    let mut strategies = AssetMap::new();
    strategies.insert("default".to_string(), names(&["reversal"]));
    strategies.insert("ETH".to_string(), names(&["high_prob", "reversal"]));
    StrategyToml {
        assets: names(&["BTC", "ETH", "SOL", "XRP", "DOGE", "BNB"]),
        trade_assets: names(&["BTC", "SOL", "DOGE"]),
        max_buy_price: n(0.95),
        no_enter_when_time_left: 10,
        spread_premium_limit: n(1.05),
        spread_discount_limit: n(0.95),
        max_price_age_secs: n(2.0),
        har_pup_enabled: false,
        order_max_retries: 2,
        strategies,
        enter_when_time_left: ints(&[("default", 20)]),
        reversal: nums(&[("default", 0.60), ("BTC", 0.55)]),
        reversal_low_threshold: nums(&[("default", 0.20), ("BTC", 0.30)]),
        reversal_start_time: ints(&[("default", 120)]),
        gamma_poll_delay_secs: nums(&[("default", 60.0)]),
        gamma_poll_interval_secs: nums(&[("default", 20.0)]),
        gamma_poll_deadline_secs: nums(&[("default", 600.0)]),
        price_high_rev: nums(&[("default", 0.90)]),
        delta_pct_rev: nums(&[("default", 0.0003), ("BTC", 0.0004), ("SOL", 0.0004)]),
        sl_reversal: nums(&[("default", 0.0)]),
        unwind_pnl_rev: nums(&[("default", 0.10), ("BTC", 0.15)]),
        sl_pnl_rev: nums(&[("default", 0.30)]),
        unwind_time_rev: nums(&[("default", 25.0), ("XRP", 20.0)]),
        price_low: nums(&[("default", 0.80), ("BTC", 0.82)]),
        price_high: nums(&[("default", 0.93), ("ETH", 0.94)]),
        delta_pct_hp: nums(&[("default", 0.0004)]),
        sl_high_prob: nums(&[("default", 0.49)]),
        unwind_pnl_hp: nums(&[("default", 0.07)]),
        sl_pnl_hp: nums(&[("default", 0.35)]),
        unwind_time_hp: nums(&[("default", 30.0)]),
        halt_rev: ints(&[("default", 2), ("BTC", 1)]),
        halt_prob: ints(&[("default", 2)]),
        halt_reset_hour_rev: ints(&[("default", 2)]),
        halt_reset_hour_hp: ints(&[("default", 8)]),
        trade_size_usdc: nums(&[("default", 1.0)]),
        v_high1: AssetMap::new(),
        v_low: AssetMap::new(),
        v_high2: AssetMap::new(),
        delta_pct_v: AssetMap::new(),
        sl_v_shape: AssetMap::new(),
        sl_pnl_v: AssetMap::new(),
        unwind_pnl_v: AssetMap::new(),
        unwind_time_v: AssetMap::new(),
        halt_v: AssetMap::new(),
        halt_reset_hour_v: AssetMap::new(),
        har_beta: AssetMap::new(),
        har_nu: AssetMap::new(),
    }
}

fn resolve(toml: &StrategyToml, asset: &str) -> AssetParams {
    toml.resolve(asset, &arith()).unwrap()
}

fn near(x: Num, y: f64) -> bool {
    (f(x) - y).abs() < 1e-9
}

#[test]
fn load_and_resolve_btc() {
    let p = resolve(&config(), "BTC");
    assert!(near(p.reversal, 0.55), "BTC reversal = 0.55 (override)");
    assert!(near(p.reversal_low_threshold, 0.30));
    assert!(near(p.delta_pct_rev, 0.0004));
    assert_eq!(p.halt_rev, 1);
    assert_eq!(p.halt_reset_hour_rev, 2);
    assert!(near(p.unwind_pnl_rev, 0.15));
    assert!(near(p.sl_pnl_rev, 0.30));
    assert!(near(p.unwind_pnl_hp, 0.07));
    assert!(near(p.sl_pnl_hp, 0.35));
    assert!(near(p.unwind_time_rev, 25.0));
    assert!(near(p.unwind_time_hp, 30.0));
    assert!(near(p.gamma_poll_delay_secs, 60.0));
    assert!(near(p.gamma_poll_interval_secs, 20.0));
    assert!(near(p.gamma_poll_deadline_secs, 600.0));
}

#[test]
fn unwind_time_falls_back_to_default_and_resolves_asset_override() {
    let mut toml = config();
    let p = resolve(&toml, "SOL");
    assert!(near(p.unwind_time_rev, 25.0));
    toml.unwind_time_rev.insert("ETH".to_string(), n(12.0));
    let p = resolve(&toml, "ETH");
    assert!(near(p.unwind_time_rev, 12.0));
    toml.unwind_time_hp.insert("ETH".to_string(), n(0.0));
    let p = resolve(&toml, "ETH");
    assert!(near(p.unwind_time_hp, 0.0));
}

#[test]
fn default_fallback() {
    let p = resolve(&config(), "XRP");
    assert!(near(p.delta_pct_rev, 0.0003));
}

#[test]
fn v_shape_fields_default_when_absent_from_old_configs() {
    let p = resolve(&config(), "BTC");
    assert!(near(p.v_high1, 0.70));
    assert!(near(p.v_low, 0.30));
    assert!(near(p.v_high2, 0.70));
    assert!(near(p.delta_pct_v, 0.0), "no delta requirement");
    assert!(near(p.sl_v_shape, 0.0), "absolute SL disabled");
    assert!(near(p.sl_pnl_v, 0.30));
    assert!(near(p.unwind_pnl_v, 0.15));
    assert!(near(p.unwind_time_v, 25.0));
    assert_eq!(p.halt_v, 1);
    assert_eq!(p.halt_reset_hour_v, 2);
}

#[test]
fn v_shape_fields_resolve_overrides_when_present() {
    let mut toml = config();
    toml.v_high1.insert("default".to_string(), n(0.65));
    toml.v_high2.insert("default".to_string(), n(0.55));
    toml.v_high2.insert("ETH".to_string(), n(0.60));
    toml.unwind_pnl_v.insert("default".to_string(), n(0.05));
    toml.halt_v.insert("default".to_string(), 3);
    let p = resolve(&toml, "ETH");
    assert!(near(p.v_high1, 0.65), "default-key override");
    assert!(near(p.v_high2, 0.60), "asset-specific override");
    assert!(near(p.unwind_pnl_v, 0.05));
    assert_eq!(p.halt_v, 3);
    let p = resolve(&toml, "BTC");
    assert!(near(p.v_high2, 0.55), "BTC falls back to default key");
}

#[test]
fn strategies_come_from_the_asset_or_the_default() {
    assert_eq!(resolve(&config(), "ETH").strategies, names(&["high_prob", "reversal"]));
    assert_eq!(resolve(&config(), "BTC").strategies, names(&["reversal"]));
    let p = resolve(&config(), "BTC");
    assert_eq!(f(p.no_enter_when_time_left), 10.0);
    assert_eq!(f(p.enter_when_time_left), 20.0);
}

#[test]
fn a_table_without_default_is_reported() {
    let mut toml = config();
    toml.reversal = nums(&[("ETH", 0.6)]);
    let e = toml.resolve("BTC", &arith()).unwrap_err();
    assert_eq!(e.message(), "config field `reversal` missing default and no entry for `BTC`");
    assert!(toml.resolve("ETH", &arith()).is_ok());
}

fn snapshot(asset: &str, ts: f64) -> ConfigSnapshot {
    build_snapshot(&config(), asset, "startup", &names(&["reversal"]), n(ts), &arith())
}

#[test]
fn a_snapshot_tells_the_configuration() {
    let e = snapshot("BTC", 1_781_886_600.0);
    assert_eq!(e.asset, "BTC");
    assert_eq!(e.event, "startup");
    assert_eq!(e.strategies, vec!["reversal".to_string()]);
    assert!(near(*e.reversal.get("BTC").unwrap(), 0.55));
    assert!(near(*e.delta_pct_rev.get("BTC").unwrap(), 0.0004));
    assert_eq!(e.halt_rev.get("BTC"), Some(&1));
    assert_eq!(e.hkt, "2026-06-20 00:30:00 HKT");
    assert_eq!(e.assets, "BTC,ETH,SOL,XRP,DOGE,BNB");
    assert_eq!(e.trade_assets, "BTC,SOL,DOGE");
    assert_eq!(e.band.get("BTC"), Some(&(n(0.82), n(0.93))));
    assert_eq!(e.band.get("ETH"), Some(&(n(0.80), n(0.94))));
    assert_eq!(e.band.get("default"), Some(&(n(0.80), n(0.93))));
    assert_eq!(e.band.get("SOL"), None);
}

#[test]
fn bands_are_made_of_both_ends() {
    let band = build_band(&nums(&[("default", 0.1)]), &nums(&[("default", 0.2), ("X", 0.3)]));
    assert_eq!(band.get("X"), Some(&(n(0.1), n(0.3))));
}

#[test]
fn latest_snapshot_filters_by_ts_and_asset() {
    let entries = vec![snapshot("BTC", 2000.0), snapshot("ETH", 1500.0), snapshot("BTC", 1000.0)];
    let latest = latest_snapshot(&entries, "BTC", n(5600.0));
    assert_eq!(latest, Some(0));
    assert_eq!(entries[latest.unwrap()].asset, "BTC");
    assert_eq!(latest_snapshot(&entries, "BTC", n(1999.0)), Some(2));
    assert_eq!(latest_snapshot(&entries, "BTC", n(0.0)), None);
    assert_eq!(snapshot_order(&entries), vec![2, 1, 0]);
}

#[test]
fn a_lone_snapshot_needs_no_time() {
    let entries = vec![snapshot("BTC", f64::NAN)];
    assert_eq!(snapshot_order(&entries), vec![0]);
    assert_eq!(latest_snapshot(&entries, "BTC", n(1.0)), None);
}

#[test]
fn params_are_shown() {
    let p = resolve(&config(), "ETH");
    let text = format_params("ETH", &p, &writer());
    assert!(text.contains("ETH"));
    assert!(text.contains("[\"high_prob\", \"reversal\"]"));
    assert_eq!(
        text,
        format_params_with("ETH", "[\"high_prob\", \"reversal\"]", &p, &writer())
    );
}

#[test]
fn a_map_keeps_the_last_value_of_a_key() {
    let mut m = ints(&[("b", 1), ("a", 2)]);
    m.insert("b".to_string(), 3);
    assert_eq!(m.get("b"), Some(&3));
    assert_eq!(m.keys_in_order(), names(&["a", "b"]));
    assert_eq!(m.copied().get("a"), Some(&2));
    assert_eq!(m.get("c"), None);
}

use chrono::{TimeZone, Utc};
use trader::execution::{CloseResult, SellStatus, TokenId, TradeResult};
use trader::marketdata::{
    current_slot, find_token, gamma_resolution, make_slug, market_tokens, read_market_lists,
    resolution_in, tick_of_quote, trade_price, MetaError,
};
use trader::num::{num, Arith, Layout, Num, Op, Reader, Writer};
use trader::weather::{
    after_discovery, bucket_label, bucket_token, buckets_in, default_max_buy_price,
    default_max_trades_per_bucket, default_refresh_interval_secs, mid_of_quote, on_tick, slug_on,
    today_slug, Bucket, BucketAction, BucketState, BucketTrader, CityStep, CloseReason, Discovery,
    NamedToken, WeatherConfig, WeatherConfigError,
};

fn n(x: f64) -> Num {
    num(x.to_bits())
}

fn f(x: Num) -> f64 {
    f64::from_bits(x.bits)
}

fn unit(op: Op, a: Num, b: Num) -> Num {
    match op {
        Op::Plus => n(f(a) + f(b)),
        Op::Minus => n(f(a) - f(b)),
        Op::Times => n(f(a) * f(b)),
        Op::Over => n(f(a) / f(b)),
        Op::Round => n(f(a).round()),
        Op::Floor => n(f(a).floor()),
        Op::FromSigned => n((a.bits as i64) as f64),
        Op::FromUnsigned => n(a.bits as f64),
        Op::ToSigned => num((f(a) as i64) as u64),
        Op::ToUnsigned => num(f(a) as u64),
    }
}

fn arith() -> Arith<impl Fn(Op, Num, Num) -> Num> {
    Arith::new(unit)
}

fn reader() -> Reader<impl Fn(String) -> Option<Num>> {
    Reader::new(|t: String| t.parse::<f64>().ok().map(n))
}

fn written(x: Num, layout: Layout) -> String {
    match layout {
        Layout::Plain => format!("{}", f(x)),
        Layout::Fixed(d) => format!("{:.*}", d as usize, f(x)),
        Layout::Signed(d) => format!("{:+.*}", d as usize, f(x)),
    }
}

fn writer() -> Writer<impl Fn(Num, Layout) -> String> {
    Writer::new(written)
}

fn test_cfg() -> WeatherConfig {
    WeatherConfig {
        cities: vec!["nyc".to_string()],
        low: n(0.2),
        high: n(0.55),
        sl_pnl: n(0.3),
        unwind_pnl: n(0.15),
        max_hold_secs: n(25.0),
        trade_size_usdc: n(1.0),
        max_buy_price: n(0.95),
        max_trades_per_bucket: 1,
        refresh_interval_secs: 600,
    }
}

fn test_trader() -> BucketTrader {
    BucketTrader::new(Bucket {
        label: "84-85°F".to_string(),
        yes_token: TokenId { high: 0, low: 1 },
    })
}

fn tick(t: &mut BucketTrader, mid: f64, ts: f64) -> BucketAction {
    on_tick(t, &test_cfg(), n(mid), n(ts), &arith())
}

#[test]
fn today_slug_has_expected_shape() {
    let slug = today_slug("hong-kong", Utc::now().timestamp());
    assert!(slug.starts_with("highest-temperature-in-hong-kong-on-"));
}

#[test]
fn slugs_name_the_day() {
    let noon = Utc.with_ymd_and_hms(2026, 7, 17, 12, 0, 0).unwrap().timestamp();
    assert_eq!(today_slug("nyc", noon), "highest-temperature-in-nyc-on-july-17-2026");
    let date = trader::calendar::CivilDate { year: 2026, month: 12, day: 1 };
    assert_eq!(slug_on("nyc", date), "highest-temperature-in-nyc-on-december-1-2026");
}

#[test]
fn no_entry_without_a_dip_first() {
    let mut t = test_trader();
    assert!(matches!(tick(&mut t, 0.6, 0.0), BucketAction::Nothing));
    assert!(matches!(tick(&mut t, 0.7, 1.0), BucketAction::Nothing));
}

#[test]
fn dip_then_recover_enters_yes_side_only() {
    let mut t = test_trader();
    assert!(matches!(tick(&mut t, 0.15, 0.0), BucketAction::Nothing));
    match tick(&mut t, 0.6, 100.0) {
        BucketAction::Enter { price } => assert!((f(price) - 0.6).abs() < 1e-9),
        _ => panic!("expected Enter"),
    }
    let mut t2 = test_trader();
    assert!(matches!(tick(&mut t2, 0.85, 0.0), BucketAction::Nothing));
    assert!(matches!(tick(&mut t2, 0.9, 1.0), BucketAction::Nothing));
}

#[test]
fn entry_never_fires_above_max_buy_price() {
    let mut t = test_trader();
    tick(&mut t, 0.15, 0.0);
    assert!(matches!(tick(&mut t, 0.96, 1.0), BucketAction::Nothing));
}

fn holding() -> BucketTrader {
    let mut t = test_trader();
    t.state =
        BucketState::Holding { entry_ts: n(0.0), entry_price: n(0.6), shares: n(1.6) };
    t
}

#[test]
fn holding_exits_on_sl_tp_and_timeout() {
    match tick(&mut holding(), 0.76, 1.0) {
        BucketAction::Close { outcome, floor } => {
            assert_eq!(outcome.as_str(), "UNWIND");
            assert!((f(floor.unwrap()) - 0.75).abs() < 1e-9);
        }
        _ => panic!("expected TP close"),
    }

    match tick(&mut holding(), 0.29, 1.0) {
        BucketAction::Close { outcome, floor } => {
            assert_eq!(outcome.as_str(), "STOPLOSS");
            assert!(floor.is_none());
        }
        _ => panic!("expected SL close"),
    }

    match tick(&mut holding(), 0.62, 26.0) {
        BucketAction::Close { outcome, floor } => {
            assert_eq!(outcome.as_str(), "TIMEOUT");
            assert!(floor.is_none());
        }
        _ => panic!("expected timeout close"),
    }
}

#[test]
fn done_state_stops_watching() {
    let mut t = test_trader();
    t.state = BucketState::Done;
    assert!(matches!(tick(&mut t, 0.15, 0.0), BucketAction::Nothing));
    assert!(matches!(tick(&mut t, 0.6, 1.0), BucketAction::Nothing));
}

#[test]
fn config_validation_rejects_bad_band_and_empty_cities() {
    let mut cfg = test_cfg();
    cfg.cities = vec![];
    assert_eq!(cfg.validate(), Err(WeatherConfigError::EmptyCities));
    assert_eq!(
        cfg.validate().unwrap_err().message("w.toml", &writer()),
        "weather config w.toml has an empty `cities` list"
    );
    let mut cfg = test_cfg();
    cfg.low = n(0.6);
    assert_eq!(
        cfg.validate().unwrap_err().message("w.toml", &writer()),
        "weather config: `low` (0.6) must be strictly below `high` (0.55)"
    );
    let mut cfg = test_cfg();
    cfg.cities = vec!["nyc".to_string(), "london".to_string()];
    assert!(cfg.validate().is_ok());
    assert!((f(default_max_buy_price()) - 0.95).abs() < 1e-9, "default applied");
    assert_eq!(default_max_trades_per_bucket(), 1, "default applied");
    assert_eq!(default_refresh_interval_secs(), 600, "default applied");
}

fn sold(status: SellStatus, usdc: f64, shares: f64) -> CloseResult {
    CloseResult {
        filled_usdc: n(usdc),
        status,
        shares_sold: n(shares),
        error: None,
        attempts: 1,
    }
}

#[test]
fn a_bucket_is_bought_sold_and_left_alone() {
    let mut t = test_trader();
    let bought = TradeResult {
        placed: true,
        filled_shares: n(1.6),
        cost: n(0.6),
        error: None,
        attempts: 1,
    };
    let nothing = TradeResult { placed: true, filled_shares: n(0.0), ..bought.clone() };
    assert!(!t.on_entry_result(&nothing, n(5.0)));
    assert_eq!(t.state, BucketState::Watching { saw_low: false });
    assert!(t.on_entry_result(&bought, n(5.0)));
    let failed = sold(SellStatus::Failed, 0.0, 0.0);
    let r = t.on_close_result(&test_cfg(), "nyc", CloseReason::Unwind, &failed, n(9.0), &arith());
    assert!(r.is_none());
    let done = sold(SellStatus::Matched, 1.2, 1.6);
    let trade = t
        .on_close_result(&test_cfg(), "nyc", CloseReason::Unwind, &done, n(9.0), &arith())
        .unwrap();
    assert_eq!((trade.city.as_str(), trade.outcome), ("nyc", "UNWIND"));
    assert!((f(trade.exit_price) - 0.75).abs() < 1e-9);
    assert!((f(trade.pnl) - 0.24).abs() < 1e-9);
    assert_eq!(t.state, BucketState::Done);
    assert_eq!(t.trades_today, 1);
}

#[test]
fn buckets_are_read_from_the_lists_of_their_market() {
    assert_eq!(
        bucket_token(Some("[\"11\",\"22\"]"), Some("[\"No\",\"YES\"]")),
        Some("22".to_string())
    );
    assert_eq!(bucket_token(Some("[\"11\"]"), Some("[\"No\",\"Yes\"]")), None);
    assert_eq!(bucket_token(None, Some("[\"Yes\"]")), None);
    assert_eq!(bucket_token(Some("oops"), Some("[\"Yes\"]")), None);
    assert_eq!(bucket_label(None, Some("q")), "q");
    assert_eq!(bucket_label(None, None), "?");
    assert_eq!(mid_of_quote(n(0.4), n(0.5), &arith()), Some(n(0.45)));
    assert_eq!(mid_of_quote(n(0.0), n(0.5), &arith()), None);
}

#[test]
fn slots_and_slugs_of_markets() {
    assert_eq!(current_slot(n(1_781_886_733.7), 300, &arith()), 1_781_886_600);
    assert_eq!(make_slug("BTC", 1_781_886_600, "5m"), "btc-updown-5m-1781886600");
}

#[test]
fn tokens_are_found_by_their_outcome() {
    let lists =
        read_market_lists(Some("[\"1\",\"2\"]"), Some("[\"Up\",\"Down\"]")).unwrap();
    assert_eq!(find_token(&lists.outcomes, &lists.token_ids, "down", "s"), Ok("2".to_string()));
    assert_eq!(
        find_token(&lists.outcomes, &lists.token_ids, "side", "s"),
        Err(MetaError::NoToken { target: "side".to_string(), slug: "s".to_string() })
    );
    assert!(matches!(read_market_lists(Some("x"), None), Err(MetaError::BadList)));
    assert!(read_market_lists(None, None).unwrap().outcomes.is_empty());
}

#[test]
fn resolutions_are_read_from_the_prices() {
    let up = "[\"Up\",\"Down\"]";
    assert_eq!(gamma_resolution(Some(up), Some("[\"1\",\"0\"]"), &reader()), Some(true));
    assert_eq!(gamma_resolution(Some(up), Some("[\"0\",\"1\"]"), &reader()), Some(false));
    assert_eq!(gamma_resolution(Some(up), Some("[\"0.5\",\"0.5\"]"), &reader()), None);
    assert_eq!(gamma_resolution(None, Some("[\"0\",\"1\"]"), &reader()), None);
}

#[test]
fn quotes_become_ticks() {
    let t = tick_of_quote(n(7.0), n(0.6), n(0.7), &arith()).unwrap();
    assert!((f(t.up) - 0.65).abs() < 1e-9);
    assert!((f(t.dn) - 0.35).abs() < 1e-9);
    assert_eq!((f(t.up_bid), f(t.up_ask)), (0.6, 0.7));
    assert!(tick_of_quote(n(7.0), n(f64::NAN), n(0.7), &arith()).is_none());
    assert!(tick_of_quote(n(7.0), n(0.6), n(-0.1), &arith()).is_none());
}

fn answer(ids: &str, outcomes: &str, prices: &str) -> String {
    format!(
        "[{{\"markets\":[{{\"clobTokenIds\":{ids:?},\"outcomes\":{outcomes:?},\"outcomePrices\":{prices:?}}}]}}]"
    )
}

#[test]
fn an_answer_tells_the_tokens_of_its_market() {
    let body = answer("[\"7\",\"8\"]", "[\"Down\",\"UP\"]", "[\"0\",\"1\"]");
    assert_eq!(market_tokens(body.as_bytes(), "s"), Ok(("8".to_string(), "7".to_string())));
    assert_eq!(resolution_in(body.as_bytes(), &reader()), Some(true));
}

#[test]
fn an_answer_without_tokens_says_why() {
    let why = |body: &str| market_tokens(body.as_bytes(), "s").unwrap_err();
    assert_eq!(why("oops"), MetaError::BadJson);
    assert_eq!(why("[]"), MetaError::NoEvent { slug: "s".to_string() });
    assert_eq!(why("{\"0\":{}}"), MetaError::NoEvent { slug: "s".to_string() });
    assert_eq!(why("[{}]"), MetaError::NoMarket { slug: "s".to_string() });
    assert_eq!(why("[{\"markets\":[]}]"), MetaError::NoMarket { slug: "s".to_string() });
    assert_eq!(why(&answer("x", "[]", "[]")), MetaError::BadList);
    let none = MetaError::NoToken { target: "up".to_string(), slug: "s".to_string() };
    assert_eq!(why("[{\"markets\":[{}]}]"), none);
    let down = why(&answer("[\"1\"]", "[\"Up\"]", "[]"));
    assert_eq!(down, MetaError::NoToken { target: "down".to_string(), slug: "s".to_string() });
    assert_eq!(down.message(), "no down token in s");
    assert_eq!(MetaError::NoEvent { slug: "s".to_string() }.message(), "no event for s");
    assert_eq!(MetaError::NoMarket { slug: "s".to_string() }.message(), "no market for s");
    assert_eq!(MetaError::BadJson.message(), "gamma json");
    assert_eq!(MetaError::BadList.message(), "the lists of the market cannot be read");
}

#[test]
fn an_open_market_has_no_resolution() {
    let names = "[\"Up\",\"Down\"]";
    let open = answer("[]", names, "[\"0.6\",\"0.4\"]");
    assert_eq!(resolution_in(open.as_bytes(), &reader()), None);
    let down = answer("[]", names, "[\"0.005\",\"0.995\"]");
    assert_eq!(resolution_in(down.as_bytes(), &reader()), Some(false));
    assert_eq!(resolution_in(b"[]", &reader()), None);
    assert_eq!(resolution_in(b"[{\"markets\":[{}]}]", &reader()), None);
    assert_eq!(resolution_in(b"oops", &reader()), None);
}

#[test]
fn a_trade_message_tells_its_price() {
    assert_eq!(trade_price(b"{\"e\":\"trade\",\"p\":\"97.25\"}", &reader()), Some(n(97.25)));
    assert_eq!(trade_price(b"{\"p\":97.25}", &reader()), None);
    assert_eq!(trade_price(b"{\"q\":\"1\"}", &reader()), None);
    assert_eq!(trade_price(b"{\"p\":\"much\"}", &reader()), None);
    assert_eq!(trade_price(b"oops", &reader()), None);
}

#[test]
fn an_answer_tells_its_buckets() {
    let body = "[{\"markets\":[\
        {\"clobTokenIds\":\"[\\\"1\\\",\\\"2\\\"]\",\"outcomes\":\"[\\\"Yes\\\",\\\"No\\\"]\",\"groupItemTitle\":\"84-85\"},\
        {\"outcomes\":\"[\\\"Yes\\\"]\",\"groupItemTitle\":\"no tokens\"},\
        {\"clobTokenIds\":\"[\\\"3\\\",\\\"4\\\"]\",\"outcomes\":\"[\\\"No\\\",\\\"yes\\\"]\",\"question\":\"q?\"}\
        ]}]";
    let first = NamedToken { label: "84-85".to_string(), token: "1".to_string() };
    let third = NamedToken { label: "q?".to_string(), token: "4".to_string() };
    assert_eq!(buckets_in(body.as_bytes()), Ok(Some(vec![first, third])));
    assert_eq!(buckets_in(b"[{\"markets\":[]}]"), Ok(Some(vec![])));
    assert_eq!(buckets_in(b"[{}]"), Ok(None));
    assert_eq!(buckets_in(b"[]"), Ok(None));
    assert_eq!(buckets_in(b"oops"), Err(MetaError::BadJson));
}

#[test]
fn a_city_without_buckets_waits() {
    let mut c = test_cfg();
    c.refresh_interval_secs = 333;
    assert_eq!(after_discovery(Discovery::Buckets(3), &c), CityStep::Trade);
    assert_eq!(after_discovery(Discovery::Buckets(0), &c), CityStep::Wait { secs: 333 });
    assert_eq!(after_discovery(Discovery::NoEvent, &c), CityStep::Wait { secs: 333 });
    assert_eq!(after_discovery(Discovery::Failed, &c), CityStep::Wait { secs: 60 });
}

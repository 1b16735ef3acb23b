use trader::execution::{
    aggressive_entry_price, cancelled_by, choose_exit_order_kind, classify_entry_failure,
    close_at_price_prepared, close_at_price_result, close_at_price_start, close_next,
    close_prepared, close_start, error_means_gone, floor2, limit_sell_next, limit_sell_prepared,
    limit_sell_start, needs_cancel, retry_entry_failure, round2, BuyOrder, BuyReply, BuyStep,
    CancelReply, CloseStep, EntryFailure, LimitReply, LimitStep, LiveConfig, OrderKind, SellReply,
    SellStatus, SimExecutionEngine, TokenId, MIN_GTC_SHARES, NO_MATCH_RETRY_SLEEP_MS,
    OTHER_RETRY_SLEEP_MS,
};
use trader::num::{num, Arith, Layout, Num, Op, Writer};

fn n(x: f64) -> Num {
    num(x.to_bits())
}

fn f(x: Num) -> f64 {
    f64::from_bits(x.bits)
}

fn unit(op: Op, a: Num, b: Num) -> Num {
    match op {
        Op::Plus => n(f(a) + f(b)),
        Op::Minus => n(f(a) - f(b)),
        Op::Times => n(f(a) * f(b)),
        Op::Over => n(f(a) / f(b)),
        Op::Round => n(f(a).round()),
        Op::Floor => n(f(a).floor()),
        Op::FromSigned => n((a.bits as i64) as f64),
        Op::FromUnsigned => n(a.bits as f64),
        Op::ToSigned => num((f(a) as i64) as u64),
        Op::ToUnsigned => num(f(a) as u64),
    }
}

fn arith() -> Arith<impl Fn(Op, Num, Num) -> Num> {
    Arith::new(unit)
}

fn written(x: Num, layout: Layout) -> String {
    match layout {
        Layout::Plain => format!("{}", f(x)),
        Layout::Fixed(d) => format!("{:.*}", d as usize, f(x)),
        Layout::Signed(d) => format!("{:+.*}", d as usize, f(x)),
    }
}

fn writer() -> Writer<impl Fn(Num, Layout) -> String> {
    Writer::new(written)
}

fn dummy_token() -> TokenId {
    TokenId { high: 0, low: 1 }
}

#[test]
fn sim_full_fill_at_capped_price() {
    let engine = SimExecutionEngine::new();
    let r = engine.place(dummy_token(), n(0.80), n(1.0), n(0.95), &arith());
    assert!(r.placed);
    assert!((f(r.cost) - 0.80).abs() < 1e-9);
    assert!((f(r.filled_shares) - 1.25).abs() < 1e-9);
}

#[test]
fn sim_rounds_shares_to_nearest_not_floor() {
    let engine = SimExecutionEngine::new();
    let r = engine.place(dummy_token(), n(0.93), n(1.0), n(0.95), &arith());
    assert!(r.placed);
    assert!(
        (f(r.filled_shares) - 1.08).abs() < 1e-9,
        "1.0/0.93 = 1.07527... must round to nearest (1.08), not floor (1.07); got {}",
        f(r.filled_shares)
    );
}

#[test]
fn sim_caps_price_at_max_buy_price() {
    let engine = SimExecutionEngine::new();
    let r = engine.place(dummy_token(), n(0.99), n(1.0), n(0.95), &arith());
    assert!((f(r.cost) - 0.95).abs() < 1e-9);
}

#[test]
fn sim_rejects_invalid_price() {
    let engine = SimExecutionEngine::new();
    let r = engine.place(dummy_token(), n(0.0), n(1.0), n(0.95), &arith());
    assert!(!r.placed);
    assert_eq!(r.error.as_deref(), Some("invalid price"));
}

#[test]
fn sim_partial_fill_branch() {
    let engine = SimExecutionEngine::with_fill_ratio(n(0.5));
    let r = engine.place(dummy_token(), n(0.80), n(1.0), n(0.95), &arith());
    assert!(r.placed);
    assert!((f(r.filled_shares) - 0.63).abs() < 1e-9, "got {}", f(r.filled_shares));
}

#[test]
fn sim_close_position_partial() {
    let engine = SimExecutionEngine::with_fill_ratio(n(0.6));
    let r = engine.close_position(dummy_token(), n(1.25), &arith());
    assert_eq!(r.status, SellStatus::Matched);
    assert!((f(r.shares_sold) - 0.75).abs() < 1e-9);
    assert_eq!(r.attempts, 1);
}

#[test]
fn sim_close_position_reports_single_attempt_even_on_failure() {
    let engine = SimExecutionEngine::new();
    let r = engine.close_position(dummy_token(), n(0.0), &arith());
    assert_eq!(r.status, SellStatus::Failed);
    assert_eq!(r.attempts, 1);
}

#[test]
fn choose_exit_order_kind_below_five_shares_is_fak() {
    assert_eq!(choose_exit_order_kind(n(1.11)), OrderKind::Fak);
    assert_eq!(choose_exit_order_kind(n(4.99)), OrderKind::Fak);
    assert_eq!(choose_exit_order_kind(n(0.0)), OrderKind::Fak);
}

#[test]
fn choose_exit_order_kind_at_or_above_five_shares_is_gtc() {
    assert_eq!(choose_exit_order_kind(num(MIN_GTC_SHARES)), OrderKind::Gtc);
    assert_eq!(choose_exit_order_kind(n(5.5)), OrderKind::Gtc);
    assert_eq!(choose_exit_order_kind(n(10.0)), OrderKind::Gtc);
}

#[test]
fn sim_close_position_at_price_fills_at_floor() {
    let engine = SimExecutionEngine::new();
    let r = engine.close_position_at_price(dummy_token(), n(1.25), n(0.93), &arith());
    assert_eq!(r.status, SellStatus::Matched);
    assert!((f(r.shares_sold) - 1.25).abs() < 1e-9);
    assert!((f(r.filled_usdc) - 1.25 * 0.93).abs() < 1e-9);
    assert_eq!(r.attempts, 1);
}

#[test]
fn sim_close_position_at_price_rejects_invalid_inputs() {
    let engine = SimExecutionEngine::new();
    let r = engine.close_position_at_price(dummy_token(), n(0.0), n(0.93), &arith());
    assert_eq!(r.status, SellStatus::Failed);
    let r = engine.close_position_at_price(dummy_token(), n(1.25), n(0.0), &arith());
    assert_eq!(r.status, SellStatus::Failed);
}

#[test]
fn sim_limit_sell_and_cancel() {
    let engine = SimExecutionEngine::new();
    let r = engine.place_limit_sell(dummy_token(), n(1.25), n(0.83), &writer());
    assert_eq!(r.status, SellStatus::Live);
    assert!(r.order_id.is_some());
    assert!(engine.cancel_limit_sell(&r.order_id.unwrap()));
}

#[test]
fn sim_zero_shares_rejected() {
    let engine = SimExecutionEngine::new();
    let r = engine.place_limit_sell(dummy_token(), n(0.0), n(0.83), &writer());
    assert_eq!(r.status, SellStatus::Failed);
    assert!(r.order_id.is_none());
}

fn entry_price(price: f64, max_buy_price: f64, attempt: u32) -> f64 {
    f(aggressive_entry_price(n(price), n(max_buy_price), attempt, &arith()))
}

#[test]
fn aggressive_entry_first_attempt_splits_the_spread() {
    assert!((entry_price(0.80, 0.95, 0) - 0.875).abs() < 1e-9);
}

#[test]
fn aggressive_entry_retry_jumps_straight_to_cap() {
    let price = 0.80_f64;
    let max_buy_price = 0.95_f64;
    for attempt in 1..=5 {
        assert!((entry_price(price, max_buy_price, attempt) - max_buy_price).abs() < 1e-9);
    }
}

#[test]
fn aggressive_entry_never_exceeds_max_buy_price() {
    let price = 0.90_f64;
    let max_buy_price = 0.95_f64;
    for attempt in 0..=5 {
        let p = entry_price(price, max_buy_price, attempt);
        assert!(p <= max_buy_price + 1e-9, "attempt {attempt} price {p} exceeded cap");
    }
}

#[test]
fn aggressive_entry_price_already_at_or_above_cap_stays_at_cap() {
    assert!((entry_price(0.97, 0.95, 0) - 0.95).abs() < 1e-9);
    assert!((entry_price(0.97, 0.95, 3) - 0.95).abs() < 1e-9);
}

fn r2(x: f64) -> f64 {
    f(round2(n(x), &arith()))
}

fn f2(x: f64) -> f64 {
    f(floor2(n(x), &arith()))
}

#[test]
fn rounded_share_buy_cost_never_drifts_more_than_half_a_cent() {
    let sizes = [1.0, 5.0, 100.0];
    let prices = [0.55, 0.65, 0.75, 0.83, 0.93];
    for &size_usdc in &sizes {
        for &price in &prices {
            let target_shares = r2(size_usdc / price);
            let cost = target_shares * price;
            let deviation = (cost - size_usdc).abs();
            assert!(
                deviation <= 0.005 * price + 1e-9,
                "size=${size_usdc} price={price}: deviation ${deviation:.4} exceeded the 0.005*price bound"
            );
        }
    }
    assert!((r2(1.0 / 0.83) * 0.83 - 0.9960).abs() < 1e-4);
    assert!((r2(1.0 / 0.93) * 0.93 - 1.0044).abs() < 1e-4);
    assert!((r2(100.0 / 0.75) * 0.75 - 99.9975).abs() < 1e-4);
}

#[test]
fn round2_of_a_too_small_size_collapses_to_zero() {
    assert_eq!(r2(0.001), 0.0, "under half a share-cent must round down to 0.0, not up to 0.01");
    assert_eq!(r2(0.006), 0.01, "at/over half a share-cent should round up to 0.01");
}

#[test]
fn floor2_never_exceeds_input() {
    assert!((f2(1.5151) - 1.51).abs() < 1e-9);
    for shares in [0.001, 0.019, 0.125, 1.5151, 1.999, 9.996] {
        assert!(f2(shares) <= shares + 1e-9, "floor2({shares}) exceeded input");
    }
}

#[test]
fn floor2_exact_two_decimals_unchanged() {
    assert!((f2(1.52) - 1.52).abs() < 1e-9);
    assert!((f2(0.0) - 0.0).abs() < 1e-9);
}

const NO_MATCH: &str = "Status: error(400 Bad Request) making POST call to /order with {\"error\":\"no orders found to match with FAK order. FAK orders are partially filled or killed if no match is found.\",\"orderID\":\"0x1\"}";

const MIN_SIZE: &str = "Status: error(400 Bad Request) making POST call to /order with {\"error\":\"invalid amount for a marketable BUY order ($0.9975), min size: 1\"}";

#[test]
fn classify_entry_failure_no_match() {
    assert_eq!(classify_entry_failure(NO_MATCH), EntryFailure::NoMatch);
}

#[test]
fn classify_entry_failure_deterministic() {
    let decimals = "Status: error(400 Bad Request) making POST call to /order with {\"error\":\"invalid amounts, the market buy orders maker amount supports a max accuracy of 2 decimals, taker amount a max of 4 decimals\"}";
    assert_eq!(classify_entry_failure(decimals), EntryFailure::Deterministic);
    assert_eq!(classify_entry_failure(MIN_SIZE), EntryFailure::Deterministic);
}

#[test]
fn classify_entry_failure_other_is_the_fallback() {
    assert_eq!(classify_entry_failure("some unexpected network error"), EntryFailure::Other);
    assert_eq!(classify_entry_failure("order not successful"), EntryFailure::Other);
}

#[test]
fn retry_entry_failure_no_match_sleeps_the_short_interval_and_retries() {
    let wait = retry_entry_failure(EntryFailure::NoMatch, 0, 5);
    assert_eq!(wait, Some(NO_MATCH_RETRY_SLEEP_MS));
}

#[test]
fn retry_entry_failure_deterministic_never_retries_even_on_first_attempt() {
    assert_eq!(retry_entry_failure(EntryFailure::Deterministic, 0, 5), None);
}

#[test]
fn retry_entry_failure_stops_on_the_last_attempt_without_sleeping() {
    let max_attempts = 5;
    assert_eq!(retry_entry_failure(EntryFailure::NoMatch, max_attempts - 1, max_attempts), None);
}

#[test]
fn retry_entry_failure_other_sleeps_the_longer_interval() {
    assert_eq!(retry_entry_failure(EntryFailure::Other, 0, 5), Some(OTHER_RETRY_SLEEP_MS));
}

fn order() -> BuyOrder {
    BuyOrder { price: n(0.8), max_buy_price: n(0.95), order_max_retries: 2 }
}

#[test]
fn a_buy_is_repeated_at_the_cap_and_ends() {
    let order = order();
    match order.start(&arith()) {
        BuyStep::Submit { attempt, limit, after_ms } => {
            assert_eq!((attempt, after_ms), (0, 0));
            assert!((f(limit) - 0.875).abs() < 1e-9);
        }
        BuyStep::Done(r) => panic!("{r:?}"),
    }
    let failed = BuyReply::Error(NO_MATCH.to_string());
    for attempt in 0..2 {
        match order.next(attempt, &failed, &arith()) {
            BuyStep::Submit { attempt: next, limit, after_ms } => {
                assert_eq!((next, after_ms), (attempt + 1, 10));
                assert_eq!(f(limit), 0.95);
            }
            BuyStep::Done(r) => panic!("{r:?}"),
        }
    }
    match order.next(2, &failed, &arith()) {
        BuyStep::Done(r) => {
            assert!(!r.placed);
            assert_eq!(r.attempts, 3);
            assert_eq!(r.error.as_deref(), Some(NO_MATCH));
        }
        step => panic!("{step:?}"),
    }
}

#[test]
fn a_faulty_buy_is_not_repeated() {
    match order().next(0, &BuyReply::Error(MIN_SIZE.to_string()), &arith()) {
        BuyStep::Done(r) => assert_eq!((r.placed, r.attempts), (false, 1)),
        step => panic!("{step:?}"),
    }
}

#[test]
fn a_fill_costs_what_was_spent_per_share() {
    let reply = BuyReply::Filled { filled: n(1.25), spent: n(1.0) };
    match order().next(1, &reply, &arith()) {
        BuyStep::Done(r) => {
            assert!(r.placed);
            assert!((f(r.cost) - 0.8).abs() < 1e-9);
            assert_eq!(r.attempts, 2);
        }
        step => panic!("{step:?}"),
    }
    let nothing = BuyReply::Filled { filled: n(0.0), spent: n(0.0) };
    match order().next(0, &nothing, &arith()) {
        BuyStep::Done(r) => assert_eq!(f(r.cost), 0.8),
        step => panic!("{step:?}"),
    }
}

#[test]
fn buys_that_cannot_be_built_fail_by_name() {
    for (reply, error) in [
        (BuyReply::BadPrice, "bad price"),
        (BuyReply::BadAmount, "bad amount"),
        (BuyReply::NotSuccessful, "order not successful"),
    ] {
        match order().next(2, &reply, &arith()) {
            BuyStep::Done(r) => assert_eq!(r.error.as_deref(), Some(error)),
            step => panic!("{step:?}"),
        }
    }
    let free = BuyOrder { price: n(0.0), ..order() };
    match free.start(&arith()) {
        BuyStep::Done(r) => assert_eq!((r.error.as_deref(), r.attempts), (Some("invalid price"), 0)),
        step => panic!("{step:?}"),
    }
}

#[test]
fn a_resting_sale_waits_for_settlement() {
    match limit_sell_start(n(1.529), n(0.834), &arith()) {
        LimitStep::Prepare { price, shares } => {
            assert!((f(price) - 0.83).abs() < 1e-9);
            assert!((f(shares) - 1.52).abs() < 1e-9);
        }
        step => panic!("{step:?}"),
    }
    assert!(matches!(limit_sell_prepared(true, true), LimitStep::Submit { attempt: 0, after_ms: 0 }));
    match limit_sell_prepared(false, true) {
        LimitStep::Done(r) => assert_eq!(r.error.as_deref(), Some("bad price")),
        step => panic!("{step:?}"),
    }
    match limit_sell_prepared(true, false) {
        LimitStep::Done(r) => assert_eq!(r.error.as_deref(), Some("bad size")),
        step => panic!("{step:?}"),
    }
    let cfg = LiveConfig::default();
    let unsettled = LimitReply::Error("balance: 0, order amount: 5".to_string());
    match limit_sell_next(&cfg, 0, &unsettled) {
        LimitStep::Submit { attempt, after_ms } => assert_eq!((attempt, after_ms), (1, 1500)),
        step => panic!("{step:?}"),
    }
    match limit_sell_next(&cfg, 3, &unsettled) {
        LimitStep::Done(r) => assert_eq!(r.status, SellStatus::Failed),
        step => panic!("{step:?}"),
    }
    let resting = LimitReply::Posted { taking: n(0.0), order_id: "0x1".to_string() };
    match limit_sell_next(&cfg, 0, &resting) {
        LimitStep::Done(r) => {
            assert_eq!((r.status, r.order_id.as_deref()), (SellStatus::Live, Some("0x1")))
        }
        step => panic!("{step:?}"),
    }
    let filled = LimitReply::Posted { taking: n(1.0), order_id: "0x1".to_string() };
    match limit_sell_next(&cfg, 0, &filled) {
        LimitStep::Done(r) => assert_eq!((r.status, r.order_id), (SellStatus::Matched, None)),
        step => panic!("{step:?}"),
    }
    let lost = LimitReply::Posted { taking: n(0.0), order_id: String::new() };
    match limit_sell_next(&cfg, 0, &lost) {
        LimitStep::Done(r) => assert_eq!(r.error.as_deref(), Some("empty order_id, no fill")),
        step => panic!("{step:?}"),
    }
}

#[test]
fn a_closing_sale_is_repeated_while_nobody_buys() {
    let cfg = LiveConfig::default();
    match close_start(n(1.5151), &arith()) {
        CloseStep::Prepare { shares, min_price } => {
            assert!((f(shares) - 1.51).abs() < 1e-9);
            assert_eq!(min_price, None);
        }
        step => panic!("{step:?}"),
    }
    assert!(matches!(close_prepared(&cfg, true), CloseStep::Submit { attempt: 1, after_ms: 0 }));
    let nobody = SellReply::Error(NO_MATCH.to_string());
    match close_next(&cfg, 1, &nobody) {
        CloseStep::Submit { attempt, after_ms } => assert_eq!((attempt, after_ms), (2, 0)),
        step => panic!("{step:?}"),
    }
    match close_next(&cfg, 5, &nobody) {
        CloseStep::Done(r) => assert_eq!((r.status, r.attempts), (SellStatus::Failed, 5)),
        step => panic!("{step:?}"),
    }
    let unsettled = SellReply::Error("not enough balance / allowance".to_string());
    match close_next(&cfg, 1, &unsettled) {
        CloseStep::Submit { attempt, after_ms } => assert_eq!((attempt, after_ms), (2, 1000)),
        step => panic!("{step:?}"),
    }
    match close_next(&cfg, 1, &SellReply::NotSuccessful) {
        CloseStep::Done(r) => assert_eq!(r.error.as_deref(), Some("order not successful")),
        step => panic!("{step:?}"),
    }
    let none = LiveConfig { close_max_retries: 0, ..cfg };
    match close_prepared(&none, true) {
        CloseStep::Done(r) => assert_eq!(r.error.as_deref(), Some("CLOSE_RETRIES_EXHAUSTED")),
        step => panic!("{step:?}"),
    }
}

#[test]
fn a_closing_sale_at_a_price_is_sent_once() {
    match close_at_price_start(n(1.259), n(0.93), &arith()) {
        CloseStep::Prepare { shares, min_price } => {
            assert!((f(shares) - 1.25).abs() < 1e-9);
            assert_eq!(min_price, Some(n(0.93)));
        }
        step => panic!("{step:?}"),
    }
    match close_at_price_start(n(1.0), n(0.0), &arith()) {
        CloseStep::Done(r) => assert_eq!(r.error.as_deref(), Some("invalid shares/price")),
        step => panic!("{step:?}"),
    }
    match close_at_price_prepared(false, true) {
        CloseStep::Done(r) => assert_eq!(r.error.as_deref(), Some("bad size")),
        step => panic!("{step:?}"),
    }
    match close_at_price_prepared(true, false) {
        CloseStep::Done(r) => assert_eq!(r.error.as_deref(), Some("bad price")),
        step => panic!("{step:?}"),
    }
    let r = close_at_price_result(&SellReply::Filled { filled_usdc: n(1.2), sold: n(1.25) });
    assert_eq!((r.status, r.attempts), (SellStatus::Matched, 1));
    let r = close_at_price_result(&SellReply::Error(NO_MATCH.to_string()));
    assert_eq!((r.status, r.attempts), (SellStatus::Failed, 1));
}

#[test]
fn cancelled_orders_are_gone() {
    assert!(!needs_cancel(""));
    assert!(needs_cancel("0x1"));
    let yes = CancelReply::Answered { canceled: vec!["0x1".to_string()], not_canceled: vec![] };
    assert!(cancelled_by("0x1", &yes));
    let no = CancelReply::Answered { canceled: vec![], not_canceled: vec!["0x1".to_string()] };
    assert!(!cancelled_by("0x1", &no));
    let silent = CancelReply::Answered { canceled: vec![], not_canceled: vec![] };
    assert!(cancelled_by("0x1", &silent));
    assert!(cancelled_by("0x1", &CancelReply::Error("Order NOT FOUND".to_string())));
    assert!(!cancelled_by("0x1", &CancelReply::Error("timeout".to_string())));
    assert!(error_means_gone("order already filled"));
}

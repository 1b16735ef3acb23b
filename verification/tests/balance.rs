use trader::balance::{seconds_until_next_check, BalanceGuard, GammaBalanceTracker, WINDOW_SECS};
use trader::num::{num, Arith, Num, Op};

fn n(x: f64) -> Num {
    num(x.to_bits())
}

fn f(x: Num) -> f64 {
    f64::from_bits(x.bits)
}

fn unit(op: Op, a: Num, b: Num) -> Num {
    match op {
        Op::Plus => n(f(a) + f(b)),
        Op::Minus => n(f(a) - f(b)),
        Op::Times => n(f(a) * f(b)),
        Op::Over => n(f(a) / f(b)),
        Op::Round => n(f(a).round()),
        Op::Floor => n(f(a).floor()),
        Op::FromSigned => n((a.bits as i64) as f64),
        Op::FromUnsigned => n(a.bits as f64),
        Op::ToSigned => num((f(a) as i64) as u64),
        Op::ToUnsigned => num(f(a) as u64),
    }
}

fn arith() -> Arith<impl Fn(Op, Num, Num) -> Num> {
    Arith::new(unit)
}

fn check(g: &mut BalanceGuard, balance: Option<f64>) -> bool {
    g.check(balance.map(n), &arith())
}

fn record(t: &mut GammaBalanceTracker, balance: Option<f64>) {
    t.record(balance.map(n));
}

#[test]
fn first_check_sets_baseline_without_halting() {
    let mut g = BalanceGuard::new();
    assert!(!check(&mut g, Some(100.0)));
    assert_eq!(g.baseline(), Some(n(100.0)));
}

#[test]
fn halts_once_drawdown_exceeds_25_percent() {
    let mut g = BalanceGuard::new();
    check(&mut g, Some(100.0));
    assert!(!check(&mut g, Some(80.0)));
    assert!(check(&mut g, Some(70.0)));
    assert!(g.is_halted());
}

#[test]
fn fires_only_once_per_session() {
    let mut g = BalanceGuard::new();
    check(&mut g, Some(100.0));
    assert!(check(&mut g, Some(50.0)));
    assert!(!check(&mut g, Some(40.0)));
}

#[test]
fn reset_baseline_rearms_and_clears_halt() {
    let mut g = BalanceGuard::new();
    check(&mut g, Some(100.0));
    assert!(check(&mut g, Some(50.0)));
    assert!(g.is_halted());

    g.reset_baseline();
    assert!(!g.is_halted());
    assert_eq!(g.baseline(), None);

    assert!(!check(&mut g, Some(50.0)));
    assert_eq!(g.baseline(), Some(n(50.0)));
}

#[test]
fn failed_fetch_is_a_no_op() {
    let mut g = BalanceGuard::new();
    assert!(!check(&mut g, None));
    assert_eq!(g.baseline(), None);
}

#[test]
fn check_offset_math() {
    let window_start = 1_782_000_000u64 / WINDOW_SECS * WINDOW_SECS;
    let now = window_start as f64 + 10.0;
    let secs = f(seconds_until_next_check(n(now), &arith()));
    assert!((secs - 110.0).abs() < 1e-9);
}

#[test]
fn check_offset_wraps_to_next_window_if_past_checkpoint() {
    let window_start = 1_782_000_000u64 / WINDOW_SECS * WINDOW_SECS;
    let now = window_start as f64 + 200.0;
    let secs = f(seconds_until_next_check(n(now), &arith()));
    assert!((secs - 220.0).abs() < 1e-9);
}

#[test]
fn gamma_tracker_first_sample_has_no_verdict() {
    let mut t = GammaBalanceTracker::new();
    record(&mut t, Some(100.0));
    assert_eq!(t.increased(), None);
}

#[test]
fn gamma_tracker_detects_increase_and_decrease() {
    let mut t = GammaBalanceTracker::new();
    record(&mut t, Some(100.0));
    record(&mut t, Some(105.0));
    assert_eq!(t.increased(), Some(true));
    record(&mut t, Some(100.0));
    assert_eq!(t.increased(), Some(false));
}

#[test]
fn gamma_tracker_equal_balance_is_not_an_increase() {
    let mut t = GammaBalanceTracker::new();
    record(&mut t, Some(100.0));
    record(&mut t, Some(100.0));
    assert_eq!(t.increased(), Some(false));
}

#[test]
fn gamma_tracker_failed_fetch_marks_unknown_but_keeps_last_good_sample() {
    let mut t = GammaBalanceTracker::new();
    record(&mut t, Some(100.0));
    record(&mut t, Some(110.0));
    assert_eq!(t.increased(), Some(true));

    record(&mut t, None);
    assert_eq!(t.increased(), None);

    record(&mut t, Some(120.0));
    assert_eq!(t.increased(), Some(true));
    record(&mut t, Some(90.0));
    assert_eq!(t.increased(), Some(false));
}

#[test]
fn gamma_tracker_starts_unknown() {
    let t = GammaBalanceTracker::new();
    assert_eq!(t.increased(), None);
}

#[test]
fn a_baseline_of_nothing_never_halts() {
    let mut g = BalanceGuard::default();
    assert!(!check(&mut g, Some(0.0)));
    assert!(!check(&mut g, Some(-50.0)));
    assert!(!g.is_halted());
}

#[test]
fn exactly_a_quarter_is_not_too_much() {
    let mut g = BalanceGuard::default();
    assert!(!check(&mut g, Some(100.0)));
    assert!(!check(&mut g, Some(75.0)));
    assert!(check(&mut g, Some(74.9)));
}

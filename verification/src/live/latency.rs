//! How late things were.

use vstd::prelude::*;
use vstd::string::StringExecFns;

use crate::num::{num, Arith, Calc, Layout, Num, Op, Writer};

verus! {

/// The bits of 1000.0.
pub const THOUSAND: u64 = 0x408F_4000_0000_0000;

pub open spec fn latency_text(ms: Option<Num>, write: spec_fn(Num, Layout) -> Seq<char>) -> Seq<char> {
    match ms {
        Some(v) => write(v, Layout::Fixed(0)) + "ms"@,
        None => "n/a"@,
    }
}

/// Milliseconds as messages show them.
pub fn fmt_latency<W: Fn(Num, Layout) -> String>(ms: Option<Num>, writer: &Writer<W>) -> (r: String)
    ensures
        r@ == latency_text(ms, writer@),
{
    match ms {
        Some(v) => {
            let mut r = writer.write(v, Layout::Fixed(0));
            r.append("ms");
            r
        },
        None => "n/a".to_owned(),
    }
}

/// Milliseconds from one time to another.
pub open spec fn ms_between(from_ts: Num, to_ts: Num, calc: Calc) -> Num {
    calc.times(calc.minus(to_ts, from_ts), num(THOUSAND))
}

pub fn latency_ms<F: Fn(Op, Num, Num) -> Num>(from_ts: Num, to_ts: Num, arith: &Arith<F>) -> (r: Num)
    ensures
        r == ms_between(from_ts, to_ts, arith@),
{
    arith.times(arith.minus(to_ts, from_ts), num(THOUSAND))
}

pub open spec fn exchange_ms(local_ts: Option<Num>, server_ts: Option<Num>, calc: Calc) -> Option<Num> {
    match (local_ts, server_ts) {
        (Some(l), Some(s)) => Some(ms_between(s, l, calc)),
        _ => None,
    }
}

/// How long a tick was under way: from the exchange's own time to its receipt, where both
/// are known. How old the tick is by now does not enter.
pub fn exchange_latency_ms<F: Fn(Op, Num, Num) -> Num>(
    local_ts: Option<Num>,
    server_ts: Option<Num>,
    arith: &Arith<F>,
) -> (r: Option<Num>)
    ensures
        r == exchange_ms(local_ts, server_ts, arith@),
{
    match (local_ts, server_ts) {
        (Some(l), Some(s)) => Some(arith.times(arith.minus(l, s), num(THOUSAND))),
        _ => None,
    }
}

pub open spec fn ago_text(
    last_tick_ts: Option<Num>,
    now_ts: Num,
    calc: Calc,
    write: spec_fn(Num, Layout) -> Seq<char>,
) -> Seq<char> {
    match last_tick_ts {
        Some(t) => write(ms_between(t, now_ts, calc), Layout::Fixed(0)) + "ms ago"@,
        None => "n/a"@,
    }
}

/// How long ago a tick came.
pub fn fmt_ago<F: Fn(Op, Num, Num) -> Num, W: Fn(Num, Layout) -> String>(
    last_tick_ts: Option<Num>,
    now_ts: Num,
    arith: &Arith<F>,
    writer: &Writer<W>,
) -> (r: String)
    ensures
        r@ == ago_text(last_tick_ts, now_ts, arith@, writer@),
{
    match last_tick_ts {
        Some(t) => {
            let mut r = writer.write(latency_ms(t, now_ts, arith), Layout::Fixed(0));
            r.append("ms ago");
            r
        },
        None => "n/a".to_owned(),
    }
}

} // verus!

//! Rows of the trade logs.

use vstd::prelude::*;
use vstd::string::{StrSliceExecFns, StringExecFns};

use crate::num::{Layout, Num, Writer};
use crate::text::{
    begins_with, chars_of, decimal, decimal_text, join, joined, same_text, stands_at, views,
};
use crate::types::{Side, TradeRecord};
use crate::weather::WeatherTrade;

verus! {

pub const CSV_HEADER: &'static str =
    "logged_at,slug,strategy,side,entry_ts,token_price,exit_price,outcome,pnl,exit_attempts,exit_last_error,entry_signal_latency_ms,entry_process_latency_ms,exit_signal_latency_ms,exit_process_latency_ms";

pub const CANCELED_QUOTE_CSV_HEADER: &'static str =
    "logged_at,slug,strategy,side,quote_price,reason";

pub const PUP_VETO_CSV_HEADER: &'static str = "logged_at,slug,strategy,side,p_side,price";

pub const WEATHER_CSV_HEADER: &'static str =
    "logged_at,city,bucket,entry_ts,exit_ts,entry_price,exit_price,shares,outcome,pnl";

/// How often a character stands in a text.
pub open spec fn count_char(s: Seq<char>, c: char) -> nat
    decreases s.len(),
{
    if s.len() == 0 {
        0
    } else {
        count_char(s.drop_last(), c) + if s.last() == c {
            1nat
        } else {
            0
        }
    }
}

fn count_of(s: &str, c: char) -> (r: usize)
    ensures
        r == count_char(s@, c),
        r <= s@.len(),
{
    let chars = chars_of(s);
    let mut n: usize = 0;
    let mut i: usize = 0;
    assert(s@.take(0) =~= Seq::empty());
    while i < chars.len()
        invariant
            chars@ == s@,
            i <= s@.len(),
            n <= i,
            n == count_char(s@.take(i as int), c),
        decreases s@.len() - i,
    {
        assert(s@.take(i + 1).drop_last() =~= s@.take(i as int));
        if chars[i] == c {
            n = n + 1;
        }
        i = i + 1;
    }
    assert(s@.take(i as int) =~= s@);
    n
}

/// So many commas.
pub open spec fn commas(n: nat) -> Seq<char> {
    Seq::new(n, |i: int| ',')
}

/// A row with commas added until it has as many as the header.
pub open spec fn padded_row(line: Seq<char>, target: nat) -> Seq<char> {
    if count_char(line, ',') < target {
        line + commas((target - count_char(line, ',')) as nat)
    } else {
        line
    }
}

fn pad_row(line: &str, target: usize) -> (r: String)
    ensures
        r@ == padded_row(line@, target as nat),
{
    let have: usize = count_of(line, ',');
    let mut r = line.to_owned();
    let mut i: usize = have;
    assert(r@ =~= line@ + commas(0));
    while i < target
        invariant
            have == count_char(line@, ','),
            have <= i,
            i <= target || i == have,
            r@ == line@ + commas((i - have) as nat),
        decreases target - i,
    {
        proof {
            reveal_strlit(",");
            assert(line@ + commas((i - have) as nat) + ","@ =~= line@ + commas(
                (i + 1 - have) as nat,
            ));
        }
        r.append(",");
        i = i + 1;
    }
    assert(have >= target ==> r@ =~= line@);
    r
}

proof fn count_of_joined(a: Seq<char>, n: nat)
    ensures
        count_char(a + commas(n), ',') == count_char(a, ',') + n,
    decreases n,
{
    if n == 0 {
        assert(a + commas(0) =~= a);
    } else {
        count_of_joined(a, (n - 1) as nat);
        assert((a + commas(n)).drop_last() =~= a + commas((n - 1) as nat));
    }
}

/// A padded row has at least as many fields as the header, and exactly as many when it had
/// no more before.
pub proof fn padded_row_is_wide(line: Seq<char>, target: nat)
    ensures
        count_char(padded_row(line, target), ',') >= target,
        count_char(line, ',') <= target ==> count_char(padded_row(line, target), ',') == target,
        padded_row(padded_row(line, target), target) == padded_row(line, target),
{
    if count_char(line, ',') < target {
        count_of_joined(line, (target - count_char(line, ',')) as nat);
    }
}

/// The file with the present header and its rows padded.
pub open spec fn healed(header: Seq<char>, lines: Seq<Seq<char>>) -> Seq<char>
    decreases lines.len(),
{
    if lines.len() == 0 {
        header + "\n"@
    } else {
        healed(header, lines.drop_last()) + padded_row(lines.last(), count_char(header, ','))
            + "\n"@
    }
}

/// The first line is a header of an earlier time.
pub open spec fn is_stale(first: Seq<char>) -> bool {
    first != CSV_HEADER@ && stands_at(first, "logged_at,"@, 0)
}

/// What a log file is to hold. Nothing is to be done for one whose first line is the present
/// header or none at all; one with an older header gets the present one, and rows that are
/// too short get empty fields.
pub fn heal_csv(first: &str, rest: &Vec<String>) -> (r: Option<String>)
    ensures
        match r {
            Some(text) => is_stale(first@) && text@ == healed(CSV_HEADER@, views(rest@)),
            None => !is_stale(first@),
        },
{
    if same_text(first, CSV_HEADER) || !begins_with(first, "logged_at,") {
        return None;
    }
    let target: usize = count_of(CSV_HEADER, ',');
    let mut r = CSV_HEADER.to_owned();
    r.append("\n");
    let ghost lines = views(rest@);
    let mut i: usize = 0;
    assert(lines.take(0) =~= Seq::empty());
    while i < rest.len()
        invariant
            i <= rest@.len(),
            lines == views(rest@),
            target == count_char(CSV_HEADER@, ','),
            r@ == healed(CSV_HEADER@, lines.take(i as int)),
        decreases rest@.len() - i,
    {
        assert(lines.take(i + 1).drop_last() =~= lines.take(i as int));
        assert(lines.take(i + 1).last() == rest@[i as int]@);
        r.append(pad_row(rest[i].as_str(), target).as_str());
        r.append("\n");
        i = i + 1;
    }
    assert(lines.take(i as int) =~= lines);
    Some(r)
}

/// A new log file: the header.
pub fn new_csv(header: &str) -> (r: String)
    ensures
        r@ == header@ + "\n"@,
{
    let mut r = header.to_owned();
    r.append("\n");
    r
}

/// A comma becomes a semicolon, a line break a space.
pub open spec fn plain_char(c: char) -> char {
    if c == ',' {
        ';'
    } else if c == '\n' {
        ' '
    } else {
        c
    }
}

pub open spec fn sanitized(s: Seq<char>) -> Seq<char> {
    s.map_values(|c: char| plain_char(c))
}

/// A text that fits into one field of a row.
pub fn csv_sanitize(s: &str) -> (r: String)
    ensures
        r@ == sanitized(s@),
{
    let chars = chars_of(s);
    let n: usize = chars.len();
    let ghost want = sanitized(s@);
    let mut r = String::new();
    let mut from: usize = 0;
    let mut i: usize = 0;
    while i < n
        invariant
            chars@ == s@,
            n == s@.len(),
            from <= i <= n,
            want == sanitized(s@),
            r@ == want.take(from as int),
            forall|j: int| from <= j < i ==> s@[j] != ',' && s@[j] != '\n',
        decreases n - i,
    {
        if chars[i] == ',' || chars[i] == '\n' {
            r.append(s.substring_char(from, i));
            if chars[i] == ',' {
                r.append(";");
            } else {
                r.append(" ");
            }
            proof {
                reveal_strlit(";");
                reveal_strlit(" ");
                assert(want.take(i + 1) =~= want.take(from as int) + s@.subrange(
                    from as int,
                    i as int,
                ) + seq![plain_char(s@[i as int])]);
                assert(r@ =~= want.take(i + 1));
            }
            from = i + 1;
        }
        i = i + 1;
    }
    r.append(s.substring_char(from, n));
    assert(want =~= want.take(from as int) + s@.subrange(from as int, n as int));
    r
}

/// What was sanitized holds no comma and no line break, and the length is kept.
pub proof fn sanitized_fits(s: Seq<char>)
    ensures
        sanitized(s).len() == s.len(),
        forall|i: int|
            0 <= i < s.len() ==> #[trigger] sanitized(s)[i] != ',' && sanitized(s)[i] != '\n',
{
}

/// The fields of a row, with commas between them.
pub open spec fn row(fields: Seq<Seq<char>>) -> Seq<char> {
    joined(fields, ","@)
}

/// The fields of a trade's row.
pub open spec fn trade_fields(
    logged_at: Num,
    rec: TradeRecord,
    write: spec_fn(Num, Layout) -> Seq<char>,
) -> Seq<Seq<char>> {
    seq![
        write(logged_at, Layout::Plain),
        rec.slug@,
        rec.strategy@,
        rec.side.text(),
        write(rec.entry_ts, Layout::Plain),
        write(rec.token_price, Layout::Plain),
        write(rec.exit_price, Layout::Plain),
        rec.outcome.text(),
        write(rec.pnl, Layout::Plain),
        decimal(rec.exit_attempts as nat),
        match rec.exit_last_error {
            Some(e) => sanitized(e@),
            None => Seq::empty(),
        },
        write(rec.entry_signal_latency_ms, Layout::Plain),
        write(rec.entry_process_latency_ms, Layout::Plain),
        write(rec.exit_signal_latency_ms, Layout::Plain),
        write(rec.exit_process_latency_ms, Layout::Plain),
    ]
}

/// The row of a trade.
pub fn trade_row<W: Fn(Num, Layout) -> String>(
    logged_at: Num,
    rec: &TradeRecord,
    writer: &Writer<W>,
) -> (r: String)
    ensures
        r@ == row(trade_fields(logged_at, *rec, writer@)),
{
    let last_error = match &rec.exit_last_error {
        Some(e) => csv_sanitize(e.as_str()),
        None => String::new(),
    };
    let fields: Vec<String> = vec![
        writer.write(logged_at, Layout::Plain),
        rec.slug.clone(),
        rec.strategy.to_owned(),
        rec.side.as_str().to_owned(),
        writer.write(rec.entry_ts, Layout::Plain),
        writer.write(rec.token_price, Layout::Plain),
        writer.write(rec.exit_price, Layout::Plain),
        rec.outcome.as_str().to_owned(),
        writer.write(rec.pnl, Layout::Plain),
        decimal_text(rec.exit_attempts as u64),
        last_error,
        writer.write(rec.entry_signal_latency_ms, Layout::Plain),
        writer.write(rec.entry_process_latency_ms, Layout::Plain),
        writer.write(rec.exit_signal_latency_ms, Layout::Plain),
        writer.write(rec.exit_process_latency_ms, Layout::Plain),
    ];
    assert(views(fields@) =~= trade_fields(logged_at, *rec, writer@));
    join(&fields, ",")
}

/// The row of a weather trade.
pub fn weather_row<W: Fn(Num, Layout) -> String>(
    logged_at: Num,
    t: &WeatherTrade,
    writer: &Writer<W>,
) -> (r: String)
    ensures
        r@ == row(
            seq![
                (writer@)(logged_at, Layout::Plain),
                sanitized(t.city@),
                sanitized(t.bucket@),
                (writer@)(t.entry_ts, Layout::Plain),
                (writer@)(t.exit_ts, Layout::Plain),
                (writer@)(t.entry_price, Layout::Plain),
                (writer@)(t.exit_price, Layout::Plain),
                (writer@)(t.shares, Layout::Plain),
                t.outcome@,
                (writer@)(t.pnl, Layout::Plain),
            ],
        ),
{
    let fields: Vec<String> = vec![
        writer.write(logged_at, Layout::Plain),
        csv_sanitize(t.city.as_str()),
        csv_sanitize(t.bucket.as_str()),
        writer.write(t.entry_ts, Layout::Plain),
        writer.write(t.exit_ts, Layout::Plain),
        writer.write(t.entry_price, Layout::Plain),
        writer.write(t.exit_price, Layout::Plain),
        writer.write(t.shares, Layout::Plain),
        t.outcome.to_owned(),
        writer.write(t.pnl, Layout::Plain),
    ];
    assert(views(fields@) =~= seq![
        (writer@)(logged_at, Layout::Plain),
        sanitized(t.city@),
        sanitized(t.bucket@),
        (writer@)(t.entry_ts, Layout::Plain),
        (writer@)(t.exit_ts, Layout::Plain),
        (writer@)(t.entry_price, Layout::Plain),
        (writer@)(t.exit_price, Layout::Plain),
        (writer@)(t.shares, Layout::Plain),
        t.outcome@,
        (writer@)(t.pnl, Layout::Plain),
    ]);
    join(&fields, ",")
}

/// The row of a quote that was taken back.
pub fn canceled_quote_row<W: Fn(Num, Layout) -> String>(
    logged_at: Num,
    slug: &str,
    strategy: &str,
    side: Side,
    quote_price: Num,
    reason: &str,
    writer: &Writer<W>,
) -> (r: String)
    ensures
        r@ == row(
            seq![
                (writer@)(logged_at, Layout::Plain),
                slug@,
                strategy@,
                side.text(),
                (writer@)(quote_price, Layout::Fixed(4)),
                reason@,
            ],
        ),
{
    let fields: Vec<String> = vec![
        writer.write(logged_at, Layout::Plain),
        slug.to_owned(),
        strategy.to_owned(),
        side.as_str().to_owned(),
        writer.write(quote_price, Layout::Fixed(4)),
        reason.to_owned(),
    ];
    assert(views(fields@) =~= seq![
        (writer@)(logged_at, Layout::Plain),
        slug@,
        strategy@,
        side.text(),
        (writer@)(quote_price, Layout::Fixed(4)),
        reason@,
    ]);
    join(&fields, ",")
}

/// The row of an entry that the odds forbade.
pub fn pup_veto_row<W: Fn(Num, Layout) -> String>(
    logged_at: Num,
    slug: &str,
    strategy: &str,
    side: Side,
    p_side: Num,
    price: Num,
    writer: &Writer<W>,
) -> (r: String)
    ensures
        r@ == row(
            seq![
                (writer@)(logged_at, Layout::Plain),
                slug@,
                strategy@,
                side.text(),
                (writer@)(p_side, Layout::Fixed(4)),
                (writer@)(price, Layout::Fixed(4)),
            ],
        ),
{
    let fields: Vec<String> = vec![
        writer.write(logged_at, Layout::Plain),
        slug.to_owned(),
        strategy.to_owned(),
        side.as_str().to_owned(),
        writer.write(p_side, Layout::Fixed(4)),
        writer.write(price, Layout::Fixed(4)),
    ];
    assert(views(fields@) =~= seq![
        (writer@)(logged_at, Layout::Plain),
        slug@,
        strategy@,
        side.text(),
        (writer@)(p_side, Layout::Fixed(4)),
        (writer@)(price, Layout::Fixed(4)),
    ]);
    join(&fields, ",")
}

} // verus!

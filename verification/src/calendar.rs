//! Calendar days.

use chrono::{Datelike, FixedOffset, TimeZone};
use vstd::prelude::*;

use crate::text::decimal;

verus! {

/// A day of the proleptic Gregorian calendar.
#[derive(Clone, Copy, Debug, PartialEq, Eq, Structural)]
pub struct CivilDate {
    pub year: i32,
    pub month: u32,
    pub day: u32,
}

/// The first and the last year of the calendar.
pub const MIN_YEAR: i32 = -262143;

pub const MAX_YEAR: i32 = 262142;

/// The numbers of the first and the last day of the calendar.
pub const MIN_DAY: i64 = -95_746_129;

pub const MAX_DAY: i64 = 95_745_399;

/// The number of 1970-01-01.
pub const EPOCH_DAY: i64 = 719_163;

pub const SECS_PER_DAY: i64 = 86_400;

pub open spec fn is_leap(year: int) -> bool {
    year % 4 == 0 && (year % 100 != 0 || year % 400 == 0)
}

/// Days of the year before the month begins.
pub open spec fn days_before_month(year: int, month: int) -> int {
    let leap_day: int = if is_leap(year) && month > 2 {
        1
    } else {
        0
    };
    leap_day + if month <= 1 {
        0int
    } else if month == 2 {
        31
    } else if month == 3 {
        59
    } else if month == 4 {
        90
    } else if month == 5 {
        120
    } else if month == 6 {
        151
    } else if month == 7 {
        181
    } else if month == 8 {
        212
    } else if month == 9 {
        243
    } else if month == 10 {
        273
    } else if month == 11 {
        304
    } else if month == 12 {
        334
    } else {
        365
    }
}

impl CivilDate {
    /// The date exists and lies in the calendar's range.
    pub open spec fn is_valid(self) -> bool {
        &&& MIN_YEAR <= self.year <= MAX_YEAR
        &&& 1 <= self.month <= 12
        &&& 1 <= self.day <= days_before_month(self.year as int, self.month + 1)
            - days_before_month(self.year as int, self.month as int)
    }

    /// The day's number, where 0001-01-01 is day 1.
    pub open spec fn number(self) -> int {
        let y = self.year - 1;
        365 * y + y / 4 - y / 100 + y / 400 + days_before_month(
            self.year as int,
            self.month as int,
        ) + self.day
    }
}

/// The number of the day on which an instant falls, `offset` seconds east of Greenwich.
pub open spec fn local_day(secs: int, offset: int) -> int {
    (secs + offset) / (SECS_PER_DAY as int) + EPOCH_DAY
}

/// The instant and its local time both lie in the calendar's range.
pub open spec fn in_range(secs: int, offset: int) -> bool {
    MIN_DAY <= local_day(secs, 0) <= MAX_DAY && MIN_DAY <= local_day(secs, offset) <= MAX_DAY
}

/// Whether an instant and its local time both lie in the calendar's range.
pub(crate) fn is_in_range(secs: i128, offset: i32) -> (r: bool)
    requires
        -0x1_0000_0000_0000_0000_0000 < secs < 0x1_0000_0000_0000_0000_0000,
    ensures
        r == in_range(secs as int, offset as int),
{
    let first: i128 = (MIN_DAY as i128 - EPOCH_DAY as i128) * 86_400;
    let end: i128 = (MAX_DAY as i128 - EPOCH_DAY as i128 + 1) * 86_400;
    let local: i128 = secs + offset as i128;
    first <= secs && secs < end && first <= local && local < end
}

/// `chrono::TimeZone::timestamp_opt` on a `chrono::FixedOffset`: the date of the instant
/// `secs` seconds after 1970-01-01 00:00:00 UTC, `offset` seconds east of Greenwich. It is
/// the one date with the number of the local day.
#[verifier::external_body]
pub(crate) fn local_date(secs: i64, offset: i32) -> (r: CivilDate)
    requires
        -86_400 < offset < 86_400,
        in_range(secs as int, offset as int),
    ensures
        r.is_valid(),
        r.number() == local_day(secs as int, offset as int),
{
    let zone = FixedOffset::east_opt(offset).unwrap();
    let date = zone.timestamp_opt(secs, 0).unwrap().date_naive();
    CivilDate { year: date.year(), month: date.month(), day: date.day() }
}

/// The instant of a local time, in seconds after 1970-01-01 00:00:00 UTC.
pub open spec fn instant(date: CivilDate, hour: int, minute: int, second: int, offset: int) -> int {
    (date.number() - EPOCH_DAY) * SECS_PER_DAY + hour * 3600 + minute * 60 + second - offset
}

/// `chrono::TimeZone::with_ymd_and_hms` on a `chrono::FixedOffset`: the instant of a local
/// time, `offset` seconds east of Greenwich. There is none where the date or the time of
/// day does not exist, nor where the instant lies outside the calendar.
#[verifier::external_body]
pub(crate) fn instant_of(date: CivilDate, hour: u32, minute: u32, second: u32, offset: i32) -> (r:
    Option<i64>)
    requires
        -86_400 < offset < 86_400,
    ensures
        match r {
            Some(secs) => {
                &&& date.is_valid()
                &&& hour < 24 && minute < 60 && second < 60
                &&& secs == instant(
                    date,
                    hour as int,
                    minute as int,
                    second as int,
                    offset as int,
                )
                &&& MIN_DAY <= local_day(secs as int, 0) <= MAX_DAY
            },
            None => {
                ||| !date.is_valid()
                ||| hour >= 24 || minute >= 60 || second >= 60
                ||| !(MIN_DAY <= local_day(
                    instant(date, hour as int, minute as int, second as int, offset as int),
                    0,
                ) <= MAX_DAY)
            },
        },
{
    let zone = FixedOffset::east_opt(offset).unwrap();
    let time = zone.with_ymd_and_hms(date.year, date.month, date.day, hour, minute, second);
    time.single().map(|t| t.timestamp())
}

/// Year, month, day and time of day.
pub const STAMP_PATTERN: &'static str = "%Y-%m-%d %H:%M:%S";

/// The date with a number.
pub open spec fn date_numbered(number: int) -> CivilDate {
    choose|d: CivilDate| d.is_valid() && d.number() == number
}

/// A number in decimal, with zeros in front up to a width.
pub open spec fn zero_padded(n: nat, width: nat) -> Seq<char> {
    let digits = decimal(n);
    if digits.len() < width {
        Seq::new((width - digits.len()) as nat, |i: int| '0') + digits
    } else {
        digits
    }
}

/// A year in four digits or more. One before 0 or after 9999 has a sign.
pub open spec fn year_text(year: int) -> Seq<char> {
    if year < 0 {
        "-"@ + zero_padded((-year) as nat, 4)
    } else if year > 9999 {
        "+"@ + zero_padded(year as nat, 4)
    } else {
        zero_padded(year as nat, 4)
    }
}

/// A date and the seconds since its midnight, like `2026-06-20 09:05:00`.
pub open spec fn stamp_text(date: CivilDate, secs: int) -> Seq<char> {
    year_text(date.year as int) + "-"@ + zero_padded(date.month as nat, 2) + "-"@ + zero_padded(
        date.day as nat,
        2,
    ) + " "@ + zero_padded((secs / 3600) as nat, 2) + ":"@ + zero_padded(
        (secs / 60 % 60) as nat,
        2,
    ) + ":"@ + zero_padded((secs % 60) as nat, 2)
}

/// The local date and time of an instant, `offset` seconds east of Greenwich.
pub open spec fn local_stamp(secs: int, offset: int) -> Seq<char> {
    stamp_text(
        date_numbered(local_day(secs, offset)),
        (secs + offset) % (SECS_PER_DAY as int),
    )
}

/// `chrono::DateTime::format` on the instant `secs` seconds after 1970-01-01 00:00:00 UTC:
/// its local date and time as text, each part in decimal with zeros in front.
#[verifier::external_body]
pub(crate) fn stamp_of(secs: i64, offset: i32, pattern: &str) -> (r: String)
    requires
        -86_400 < offset < 86_400,
        in_range(secs as int, offset as int),
        pattern@ == STAMP_PATTERN@,
    ensures
        r@ == local_stamp(secs as int, offset as int),
{
    let zone = FixedOffset::east_opt(offset).unwrap();
    zone.timestamp_opt(secs, 0).unwrap().format(pattern).to_string()
}

proof fn year_starts(y: int)
    ensures
        ({
            let n = |y: int| 365 * (y - 1) + (y - 1) / 4 - (y - 1) / 100 + (y - 1) / 400;
            n(y + 1) == n(y) + if is_leap(y) {
                366int
            } else {
                365
            }
        }),
{
    assert((y - 1) / 4 + (if y % 4 == 0 { 1int } else { 0 }) == y / 4);
    assert((y - 1) / 100 + (if y % 100 == 0 { 1int } else { 0 }) == y / 100);
    assert((y - 1) / 400 + (if y % 400 == 0 { 1int } else { 0 }) == y / 400);
    assert(y % 400 == 0 ==> y % 100 == 0);
    assert(y % 100 == 0 ==> y % 4 == 0);
}

proof fn years_apart(a: int, b: int)
    requires
        a < b,
    ensures
        ({
            let n = |y: int| 365 * (y - 1) + (y - 1) / 4 - (y - 1) / 100 + (y - 1) / 400;
            n(a) + (if is_leap(a) {
                366int
            } else {
                365
            }) <= n(b)
        }),
    decreases b - a,
{
    year_starts(a);
    if a + 1 < b {
        years_apart(a + 1, b);
    }
}

/// A later date has a larger number.
pub proof fn later_date_has_larger_number(a: CivilDate, b: CivilDate)
    requires
        a.is_valid(),
        b.is_valid(),
        a.year < b.year || (a.year == b.year && (a.month < b.month || (a.month == b.month && a.day
            < b.day))),
    ensures
        a.number() < b.number(),
{
    if a.year < b.year {
        years_apart(a.year as int, b.year as int);
    }
}

/// Two dates with the same number are the same date.
pub proof fn number_identifies_date(a: CivilDate, b: CivilDate)
    requires
        a.is_valid(),
        b.is_valid(),
        a.number() == b.number(),
    ensures
        a == b,
{
    if a != b {
        if a.year < b.year || (a.year == b.year && (a.month < b.month || (a.month == b.month
            && a.day < b.day))) {
            later_date_has_larger_number(a, b);
        } else {
            later_date_has_larger_number(b, a);
        }
    }
}

/// A valid date is the one with its number.
pub proof fn date_has_its_number(date: CivilDate)
    requires
        date.is_valid(),
    ensures
        date_numbered(date.number()) == date,
{
    number_identifies_date(date, date_numbered(date.number()));
}

/// Every day of the calendar has a date.
pub proof fn day_has_a_date(number: int)
    requires
        MIN_DAY <= number <= MAX_DAY,
    ensures
        date_numbered(number).is_valid(),
        date_numbered(number).number() == number,
    decreases number - MIN_DAY,
{
    if number == MIN_DAY {
        let first = CivilDate { year: MIN_YEAR, month: 1, day: 1 };
        assert(first.is_valid() && first.number() == number);
    } else {
        day_has_a_date(number - 1);
        let d = date_numbered(number - 1);
        let length = days_before_month(d.year as int, d.month + 1) - days_before_month(
            d.year as int,
            d.month as int,
        );
        let next = if d.day < length {
            CivilDate { day: (d.day + 1) as u32, ..d }
        } else if d.month < 12 {
            CivilDate { year: d.year, month: (d.month + 1) as u32, day: 1 }
        } else {
            CivilDate { year: (d.year + 1) as i32, month: 1, day: 1 }
        };
        year_starts(d.year as int);
        assert(next.number() == number);
        if d.year == MAX_YEAR && d.month == 12 && d.day == length {
            assert(d.number() == MAX_DAY);
        }
        assert(next.is_valid());
    }
}

/// A local time falls on its own date: reading the instant of a local time back gives the
/// date that it was made from.
pub proof fn instant_falls_on_its_date(
    date: CivilDate,
    hour: int,
    minute: int,
    second: int,
    offset: int,
)
    requires
        0 <= hour < 24,
        0 <= minute < 60,
        0 <= second < 60,
    ensures
        local_day(instant(date, hour, minute, second, offset), offset) == date.number(),
{
}

} // verus!

//! Calendar dates as the protocol writes them: eight digits, year, month, day.

use vstd::prelude::*;
use crate::token::push_char;

verus! {

pub open spec fn is_leap_year(y: int) -> bool {
    (y % 4 == 0 && y % 100 != 0) || y % 400 == 0
}

pub open spec fn days_in_month(y: int, m: int) -> int {
    if m == 2 {
        if is_leap_year(y) { 29 } else { 28 }
    } else if m == 4 || m == 6 || m == 9 || m == 11 {
        30
    } else {
        31
    }
}

/// A day of the Gregorian calendar whose year has at most four digits.
pub open spec fn valid_date(y: int, m: int, d: int) -> bool {
    &&& 0 <= y <= 9999
    &&& 1 <= m <= 12
    &&& 1 <= d <= days_in_month(y, m)
}

/// A calendar day.
#[derive(Clone, Copy, Debug, PartialEq, Eq, Structural)]
pub struct CalendarDate {
    pub year: u32,
    pub month: u32,
    pub day: u32,
}

/// The decimal digit `n`, for `0 <= n < 10`.
pub open spec fn digit(n: int) -> char {
    "0123456789"@[n]
}

/// The eight characters `YYYYMMDD` of a date.
pub open spec fn date_text(d: CalendarDate) -> Seq<char> {
    let y = d.year as int;
    let m = d.month as int;
    let dd = d.day as int;
    seq![
        digit(y / 1000), digit(y / 100 % 10), digit(y / 10 % 10), digit(y % 10),
        digit(m / 10), digit(m % 10),
        digit(dd / 10), digit(dd % 10),
    ]
}

/// Relies on std's `SystemTime::now().duration_since(UNIX_EPOCH)`: the clock's
/// reading as whole seconds and the nanoseconds past them (below one second),
/// or `None` where the clock reads before 1970.
#[verifier::external_body]
fn clock_since_epoch() -> (r: Option<(u64, u32)>)
    ensures
        r matches Some(x) ==> x.1 < 1_000_000_000,
{
    match std::time::SystemTime::now().duration_since(std::time::UNIX_EPOCH) {
        Ok(d) => Some((d.as_secs(), d.subsec_nanos())),
        Err(_) => None,
    }
}

/// Relies on chrono's `DateTime::from_timestamp` and the `Datelike` getters:
/// the UTC date of a Unix timestamp, with a month in `1..=12` and a day in
/// `1..=31`, or `None` where chrono cannot represent it.
#[verifier::external_body]
fn utc_date_of(secs: i64, nanos: u32) -> (r: Option<(i32, u32, u32)>)
    ensures
        r matches Some(x) ==> 1 <= x.1 <= 12 && 1 <= x.2 <= 31,
{
    match chrono::DateTime::from_timestamp(secs, nanos) {
        Some(t) => Some((chrono::Datelike::year(&t), chrono::Datelike::month(&t), chrono::Datelike::day(&t))),
        None => None,
    }
}

impl CalendarDate {
    pub open spec fn wf(&self) -> bool {
        valid_date(self.year as int, self.month as int, self.day as int)
    }

    /// The date `year-month-day`, or `None` where that is no day of a four-digit year.
    pub fn new(year: u32, month: u32, day: u32) -> (r: Option<CalendarDate>)
        ensures
            r is Some <==> valid_date(year as int, month as int, day as int),
            r matches Some(d) ==> d.year == year && d.month == month && d.day == day,
    {
        if year > 9999 || month < 1 || month > 12 || day < 1 {
            return None;
        }
        let leap = (year % 4 == 0 && year % 100 != 0) || year % 400 == 0;
        let days: u32 = if month == 2 {
            if leap { 29 } else { 28 }
        } else if month == 4 || month == 6 || month == 9 || month == 11 {
            30
        } else {
            31
        };
        if day > days {
            None
        } else {
            Some(CalendarDate { year, month, day })
        }
    }

    /// The date that a clock reading of `year`, `month` and `day` stands for:
    /// `None` where that is no day of a year in `0..=9999`.
    pub fn from_clock(year: i32, month: u32, day: u32) -> (r: Option<CalendarDate>)
        ensures
            r is Some <==> (year >= 0 && valid_date(year as int, month as int, day as int)),
            r matches Some(d) ==> d.year == year && d.month == month && d.day == day,
    {
        if year < 0 {
            None
        } else {
            CalendarDate::new(year as u32, month, day)
        }
    }

    /// Today's date in UTC, from the system clock, as `from_clock` reads it;
    /// `None` also where the clock reads before 1970 or past what chrono holds.
    pub fn today() -> (r: Option<CalendarDate>)
        ensures
            r matches Some(d) ==> d.wf(),
    {
        let (secs, nanos) = match clock_since_epoch() {
            Some(x) => x,
            None => return None,
        };
        if secs > i64::MAX as u64 {
            return None;
        }
        match utc_date_of(secs as i64, nanos) {
            Some((y, m, d)) => CalendarDate::from_clock(y, m, d),
            None => None,
        }
    }
}

/// The protocol's text for a date: `YYYYMMDD`.
pub fn date_to_string(d: &CalendarDate) -> (r: String)
    requires
        d.wf(),
    ensures
        r@ == date_text(*d),
{
    let digits = "0123456789";
    proof {
        reveal_strlit("0123456789");
    }
    let mut s = String::new();
    push_char(&mut s, digits.get_char((d.year / 1000) as usize));
    push_char(&mut s, digits.get_char((d.year / 100 % 10) as usize));
    push_char(&mut s, digits.get_char((d.year / 10 % 10) as usize));
    push_char(&mut s, digits.get_char((d.year % 10) as usize));
    push_char(&mut s, digits.get_char((d.month / 10) as usize));
    push_char(&mut s, digits.get_char((d.month % 10) as usize));
    push_char(&mut s, digits.get_char((d.day / 10) as usize));
    push_char(&mut s, digits.get_char((d.day % 10) as usize));
    assert(s@ =~= date_text(*d));
    s
}

} // verus!

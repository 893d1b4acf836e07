//! Calendar days and wall-clock instants, and the market-close rules that
//! decide how fresh stored market history is.
//!
//! A day is held as its number in the proleptic Gregorian calendar, with
//! January 1 of year 1 as day 1 (what `chrono` calls `num_days_from_ce`);
//! an instant is a day, the seconds since midnight and the nanoseconds
//! within that second, ordered in that order, as `chrono` orders a
//! `NaiveDateTime`.

use vstd::prelude::*;
use chrono::{Datelike, NaiveDate, Timelike};

verus! {

/// The first day `chrono` can represent (January 1 of year -262143).
pub const MIN_DAY: i32 = -95746129i32;

/// The last day `chrono` can represent (December 31 of year 262142).
pub const MAX_DAY: i32 = 95745399i32;

/// The first year `chrono` can represent.
pub const MIN_YEAR: i32 = -262143i32;

/// The last year `chrono` can represent.
pub const MAX_YEAR: i32 = 262142i32;

/// Seconds after midnight at which the exchange closes (15:00:00).
pub const MARKET_CLOSE_SECS: u32 = 54000u32;

/// A calendar day, by its day number counted from January 1 of year 1.
#[derive(Clone, Copy, Debug, PartialEq, Eq, Structural)]
pub struct Date {
    pub days: i32,
}

/// A wall-clock instant without time zone.
#[derive(Clone, Copy, Debug, PartialEq, Eq, Structural)]
pub struct DateTime {
    pub date: Date,
    /// Seconds since midnight, below 86400.
    pub secs: u32,
    /// Nanoseconds within the second; from one billion on, a leap second.
    pub nanos: u32,
}

impl Date {
    /// The day lies in the range that `chrono` can represent.
    pub open spec fn wf(self) -> bool {
        MIN_DAY <= self.days <= MAX_DAY
    }
}

impl DateTime {
    /// The instant is one that `chrono` can represent.
    pub open spec fn wf(self) -> bool {
        &&& self.date.wf()
        &&& self.secs < 86400
        &&& self.nanos < 2_000_000_000
    }

    /// Whether `self` comes strictly before `other`.
    pub open spec fn spec_before(self, other: DateTime) -> bool {
        ||| self.date.days < other.date.days
        ||| (self.date.days == other.date.days && self.secs < other.secs)
        ||| (self.date.days == other.date.days && self.secs == other.secs && self.nanos
            < other.nanos)
    }

    /// Whether `self` comes strictly before `other`.
    pub fn before(&self, other: &DateTime) -> (r: bool)
        ensures
            r == self.spec_before(*other),
    {
        if self.date.days != other.date.days {
            self.date.days < other.date.days
        } else if self.secs != other.secs {
            self.secs < other.secs
        } else {
            self.nanos < other.nanos
        }
    }
}

/// Whether `y` is a leap year of the proleptic Gregorian calendar.
pub open spec fn is_leap_year(y: int) -> bool {
    y % 4 == 0 && (y % 100 != 0 || y % 400 == 0)
}

/// The number of days in month `m` of year `y`.
pub open spec fn days_in_month(y: int, m: int) -> int {
    if m == 2 {
        if is_leap_year(y) {
            29
        } else {
            28
        }
    } else if m == 4 || m == 6 || m == 9 || m == 11 {
        30
    } else {
        31
    }
}

/// Whether (`y`, `m`, `d`) names a day that exists and that `chrono` can
/// represent.
pub open spec fn valid_ymd(y: int, m: int, d: int) -> bool {
    &&& MIN_YEAR <= y <= MAX_YEAR
    &&& 1 <= m <= 12
    &&& 1 <= d <= days_in_month(y, m)
}

/// Days in the months of a common year before month `m`.
pub open spec fn days_before_month(m: int) -> int {
    if m <= 1 {
        0
    } else if m == 2 {
        31
    } else if m == 3 {
        59
    } else if m == 4 {
        90
    } else if m == 5 {
        120
    } else if m == 6 {
        151
    } else if m == 7 {
        181
    } else if m == 8 {
        212
    } else if m == 9 {
        243
    } else if m == 10 {
        273
    } else if m == 11 {
        304
    } else {
        334
    }
}

/// The day number of (`y`, `m`, `d`), January 1 of year 1 being day 1.
pub open spec fn days_from_ce(y: int, m: int, d: int) -> int {
    let y1 = y - 1;
    let leap_day = if is_leap_year(y) && m > 2 {
        1int
    } else {
        0int
    };
    365 * y1 + y1 / 4 - y1 / 100 + y1 / 400 + days_before_month(m) + d + leap_day
}

/// What `chrono` writes for a day with `Display` (`%Y-%m-%d`).
pub uninterp spec fn date_display(days: int) -> Seq<char>;

/// What `chrono` makes of a text with `NaiveDate::parse_from_str(s, "%Y%m%d")`:
/// the day number, or the text of the parse error.
pub uninterp spec fn compact_date_parse(s: Seq<char>) -> Result<int, Seq<char>>;

/// Reads the local wall clock through `chrono::Local::now().naive_local()`.
///
/// Claims only what holds of every reading: the instant is one `chrono` can
/// represent, and it is not earlier than December 31, 1969 (`chrono` reads
/// the system clock as time since the Unix epoch and panics before it, and a
/// time-zone offset is less than a day). Which instant comes back is not
/// stated: it is the time.
#[verifier::external_body]
pub fn local_now() -> (now: DateTime)
    ensures
        now.wf(),
        now.date.days >= 719162,
{
    let now = chrono::Local::now().naive_local();
    DateTime {
        date: Date { days: now.date().num_days_from_ce() },
        secs: now.time().num_seconds_from_midnight(),
        nanos: now.time().nanosecond(),
    }
}

/// Calls `chrono::NaiveDate::from_ymd_opt(y, m, d)` and reads the day's
/// `num_days_from_ce`. Claims what `chrono` documents: `None` exactly when
/// the day does not exist or the year is out of its range, and otherwise the
/// day's number in the proleptic Gregorian calendar counted from January 1
/// of year 1.
#[verifier::external_body]
pub fn date_from_ymd(y: i32, m: u32, d: u32) -> (r: Option<Date>)
    ensures
        r == (if valid_ymd(y as int, m as int, d as int) {
            Some(Date { days: days_from_ce(y as int, m as int, d as int) as i32 })
        } else {
            None
        }),
{
    match NaiveDate::from_ymd_opt(y, m, d) {
        Some(nd) => Some(Date { days: nd.num_days_from_ce() }),
        None => None,
    }
}

/// Writes a day as `chrono`'s `Display` for `NaiveDate` does, through
/// `NaiveDate::from_num_days_from_ce_opt` and `to_string`. The text is
/// named, not spelled out.
#[verifier::external_body]
pub fn date_to_string(d: Date) -> (s: String)
    requires
        d.wf(),
    ensures
        s@ == date_display(d.days as int),
{
    NaiveDate::from_num_days_from_ce_opt(d.days).expect("day in range").to_string()
}

/// Parses a day written as `%Y%m%d` with `chrono::NaiveDate::parse_from_str`;
/// a failure comes back as the parse error's text. The outcome is named, not
/// spelled out; a day that comes back is one `chrono` can represent.
#[verifier::external_body]
pub fn parse_compact_date(s: &str) -> (r: Result<Date, String>)
    ensures
        match compact_date_parse(s@) {
            Ok(n) => r == Ok::<Date, String>(Date { days: n as i32 }),
            Err(m) => r matches Err(e) && e@ == m,
        },
        r matches Ok(d) ==> d.wf(),
{
    match NaiveDate::parse_from_str(s, "%Y%m%d") {
        Ok(nd) => Ok(Date { days: nd.num_days_from_ce() }),
        Err(e) => Err(e.to_string()),
    }
}

/// The instant of the market close (15:00:00) on day `d`.
pub open spec fn market_close(d: Date) -> DateTime {
    DateTime { date: d, secs: MARKET_CLOSE_SECS, nanos: 0 }
}

/// The most recent market close at or before `now`: today's close once it
/// has passed, else yesterday's.
pub open spec fn last_market_close(now: DateTime) -> DateTime {
    if now.spec_before(market_close(now.date)) {
        market_close(Date { days: (now.date.days - 1) as i32 })
    } else {
        market_close(now.date)
    }
}

/// Whether stored history crawled at `crawl_time` must be crawled again at
/// `now`: it must unless it was crawled after the most recent market close.
pub fn check_crawl_by_time_at(crawl_time: DateTime, now: DateTime) -> (r: bool)
    requires
        now.date.days > MIN_DAY,
    ensures
        r == !last_market_close(now).spec_before(crawl_time),
{
    let market_close_time = DateTime { date: now.date, secs: MARKET_CLOSE_SECS, nanos: 0 };
    if market_close_time.before(&crawl_time) {
        return false;
    }
    let yest_market_close_time = DateTime {
        date: Date { days: now.date.days - 1 },
        secs: MARKET_CLOSE_SECS,
        nanos: 0,
    };
    if now.before(&market_close_time) && yest_market_close_time.before(&crawl_time) {
        return false;
    }
    true
}

/// Whether stored history crawled at `crawl_time` must be crawled again,
/// judged at the current local time.
pub fn check_crawl_by_time(crawl_time: DateTime) -> (r: bool)
    ensures
        exists|now: DateTime|
            now.wf() && now.date.days >= 719162 && r == !last_market_close(now).spec_before(
                crawl_time,
            ),
{
    let now = local_now();
    let r = check_crawl_by_time_at(crawl_time, now);
    assert(now.wf() && now.date.days >= 719162 && r == !last_market_close(now).spec_before(
        crawl_time,
    ));
    r
}

/// The last day whose history is complete at `now`: today once the market
/// has closed, else yesterday.
pub fn get_default_end_date_at(now: DateTime) -> (d: Date)
    requires
        now.date.days > MIN_DAY,
    ensures
        d == last_market_close(now).date,
{
    let market_close_time = DateTime { date: now.date, secs: MARKET_CLOSE_SECS, nanos: 0 };
    if now.before(&market_close_time) {
        Date { days: now.date.days - 1 }
    } else {
        now.date
    }
}

/// The last day whose history is complete, judged at the current local time.
pub fn get_default_end_date() -> (d: Date)
    ensures
        exists|now: DateTime|
            now.wf() && now.date.days >= 719162 && d == last_market_close(now).date,
        d.days >= 719161,
{
    let now = local_now();
    get_default_end_date_at(now)
}

/// The close chosen by `last_market_close` is not after `now`, and every
/// market close that is not after `now` is no later than it: it is the most
/// recent close.
pub proof fn lemma_last_market_close_is_latest(now: DateTime, d: Date)
    requires
        now.wf(),
        now.date.days > MIN_DAY,
    ensures
        !now.spec_before(last_market_close(now)),
        !now.spec_before(market_close(d)) ==> !last_market_close(now).spec_before(
            market_close(d),
        ),
{
}

/// A crawl needs repeating exactly when it happened no later than the close
/// of the default end date: the two clock rules agree on the same close.
pub proof fn lemma_crawl_rule_matches_default_end(crawl_time: DateTime, now: DateTime)
    requires
        now.date.days > MIN_DAY,
    ensures
        !last_market_close(now).spec_before(crawl_time) <==> !market_close(
            last_market_close(now).date,
        ).spec_before(crawl_time),
{
}

} // verus!

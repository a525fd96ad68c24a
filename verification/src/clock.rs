//! Points in time and calendar days.

use chrono::Datelike;
use vstd::prelude::*;

verus! {

/// The first second of the calendar, counted from the start of 1970: 1 January of year -262143.
pub const FIRST_SECOND: i64 = -8_334_601_228_800;

/// The last second of the calendar: the end of 31 December of year 262142.
pub const LAST_SECOND: i64 = 8_210_266_876_799;

/// The number of 1 January 1970, where 1 January of year 1 is day 1.
pub const EPOCH_DAY: i64 = 719_163;

pub const DAY: i64 = 86_400;

pub const WEEK: i64 = 604_800;

pub const HOUR: i64 = 3_600;

/// How calendar days are written in usage entries.
pub const DATE_FORMAT: &'static str = "%Y-%m-%d";

/// How a test report is stamped.
pub const STAMP_FORMAT: &'static str = "%Y-%m-%dT%H:%M:%SZ";

/// A point in time, UTC: whole seconds since the start of 1970 and nanoseconds past them.
#[derive(Clone, Copy, Debug, PartialEq, Eq, Structural)]
pub struct Moment {
    pub secs: i64,
    pub nanos: u32,
}

/// The RFC 3339 text of a moment.
pub uninterp spec fn rfc3339_of(secs: i64, nanos: u32) -> Seq<char>;

/// The text of a moment by a `strftime` format.
pub uninterp spec fn formatted_of(secs: i64, nanos: u32, format: Seq<char>) -> Seq<char>;

/// The number of the day that a text names when it is read by a `strftime` format.
pub uninterp spec fn parsed_day(text: Seq<char>, format: Seq<char>) -> Option<i32>;

/// The ISO 8601 year and week of a day, by its number.
pub uninterp spec fn iso_week_of(day: i32) -> Option<(i32, u32)>;

impl Moment {
    /// The moment lies within the calendar.
    pub open spec fn wf(self) -> bool {
        FIRST_SECOND <= self.secs <= LAST_SECOND && self.nanos < 1_000_000_000
    }

    /// Nanoseconds since the start of 1970.
    pub open spec fn total_nanos(self) -> int {
        self.secs * 1_000_000_000 + self.nanos
    }

    /// The number of the moment's day.
    pub open spec fn day_of(self) -> int {
        self.secs as int / DAY as int + EPOCH_DAY
    }

    /// The moment `secs` seconds later, where the calendar has it.
    pub open spec fn after(self, secs: int) -> Option<Moment> {
        if FIRST_SECOND <= self.secs + secs <= LAST_SECOND {
            Some(Moment { secs: (self.secs + secs) as i64, nanos: self.nanos })
        } else {
            None
        }
    }

    /// The present moment.
    pub fn now() -> (r: Moment)
        ensures
            r.wf(),
            r.secs >= 0,
    {
        utc_now()
    }

    /// The number of the moment's day.
    pub fn day(&self) -> (r: i32)
        requires
            self.wf(),
        ensures
            r == self.day_of(),
            -95_746_129 <= r <= 95_745_399,
    {
        let days: i64 = if self.secs >= 0 {
            self.secs / DAY
        } else {
            -((-1 - self.secs) / DAY) - 1
        };
        (days + EPOCH_DAY) as i32
    }

    /// The moment `secs` seconds later, where the calendar has it.
    pub fn shifted(&self, secs: i64) -> (r: Option<Moment>)
        requires
            self.wf(),
        ensures
            r == self.after(secs as int),
            r is Some ==> (r->0).wf(),
    {
        match self.secs.checked_add(secs) {
            Some(t) => {
                if FIRST_SECOND <= t && t <= LAST_SECOND {
                    Some(Moment { secs: t, nanos: self.nanos })
                } else {
                    None
                }
            },
            None => None,
        }
    }

    /// Whole seconds from `then` to `self`, zero where `then` is later.
    pub fn seconds_since(&self, then: &Moment) -> (r: u64)
        requires
            self.wf(),
            then.wf(),
        ensures
            then.total_nanos() <= self.total_nanos() ==> r == (self.total_nanos()
                - then.total_nanos()) / 1_000_000_000,
            then.total_nanos() > self.total_nanos() ==> r == 0,
    {
        let mut d: i64 = self.secs - then.secs;
        if self.nanos < then.nanos {
            d = d - 1;
        }
        if d < 0 {
            0
        } else {
            d as u64
        }
    }

    /// The RFC 3339 text of the moment.
    pub fn to_rfc3339(&self) -> (r: String)
        requires
            self.wf(),
        ensures
            r@ == rfc3339_of(self.secs, self.nanos),
    {
        rfc3339(*self)
    }

    /// The moment to the second, as a test report is stamped.
    pub fn stamp(&self) -> (r: String)
        requires
            self.wf(),
        ensures
            r@ == formatted_of(self.secs, self.nanos, STAMP_FORMAT@),
    {
        formatted(*self, STAMP_FORMAT)
    }
}

/// `chrono::Utc::now` reads the system clock. Its seconds count from 1970, so they are never
/// negative, and its nanoseconds never stand for a leap second. No argument makes it panic; a system
/// clock set before 1970 does. Which moment it gives is left unsaid.
#[verifier::external_body]
fn utc_now() -> (r: Moment)
    ensures
        r.wf(),
        r.secs >= 0,
{
    let t = chrono::Utc::now();
    Moment { secs: t.timestamp(), nanos: t.timestamp_subsec_nanos() }
}

/// `chrono::DateTime::to_rfc3339` on the UTC moment with these seconds and nanoseconds: the text
/// depends on them alone.
#[verifier::external_body]
fn rfc3339(m: Moment) -> (r: String)
    requires
        m.wf(),
    ensures
        r@ == rfc3339_of(m.secs, m.nanos),
{
    chrono::DateTime::<chrono::Utc>::from_timestamp(m.secs, m.nanos).unwrap().to_rfc3339()
}

/// `chrono::DateTime::format` on the UTC moment with these seconds and nanoseconds: the text depends
/// on them and the format alone.
#[verifier::external_body]
fn formatted(m: Moment, format: &str) -> (r: String)
    requires
        m.wf(),
        format@ == STAMP_FORMAT@,
    ensures
        r@ == formatted_of(m.secs, m.nanos, format@),
{
    let t = chrono::DateTime::<chrono::Utc>::from_timestamp(m.secs, m.nanos).unwrap();
    t.format(format).to_string()
}

/// `chrono::NaiveDate::parse_from_str`, a day given by its number, nothing where the text names no
/// day: the outcome depends on the text and the format alone.
#[verifier::external_body]
pub(crate) fn parse_day(text: &str, format: &str) -> (r: Option<i32>)
    ensures
        r == parsed_day(text@, format@),
{
    chrono::NaiveDate::parse_from_str(text, format).ok().map(|d| d.num_days_from_ce())
}

/// `chrono::Datelike::iso_week` on the day with this number: a week number from 1 to 53 and the
/// year that the week belongs to, nothing for a day outside the calendar.
#[verifier::external_body]
pub(crate) fn iso_week(day: i32) -> (r: Option<(i32, u32)>)
    ensures
        r == iso_week_of(day),
        r is Some ==> 1 <= (r->0).1 <= 53,
        -95_746_129 <= day <= 95_745_399 ==> r is Some,
{
    chrono::NaiveDate::from_num_days_from_ce_opt(day).map(
        |d| (d.iso_week().year(), d.iso_week().week()),
    )
}

/// A day is counted from midnight to midnight: a moment `s` seconds into the day number `d` since
/// 1970 falls on that day, and the same time a day later on the next.
pub proof fn lemma_days_are_counted(d: int, s: int, m: Moment, later: Moment)
    requires
        0 <= s < 86_400,
        m.secs == d * 86_400 + s,
        later.secs == m.secs + 86_400,
    ensures
        m.day_of() == 719_163 + d,
        later.day_of() == m.day_of() + 1,
{
    assert(m.secs as int / 86_400 == d) by (nonlinear_arith)
        requires
            0 <= s < 86_400,
            m.secs == d * 86_400 + s,
    ;
    assert(later.secs as int / 86_400 == d + 1) by (nonlinear_arith)
        requires
            0 <= s < 86_400,
            later.secs == d * 86_400 + s + 86_400,
    ;
}

/// A moment some seconds later is that many seconds later, to the nanosecond, and there is one
/// exactly where the calendar reaches so far.
pub proof fn lemma_shifted_by_seconds(m: Moment, secs: int)
    ensures
        m.after(secs) matches Some(t) ==> t.total_nanos() == m.total_nanos() + secs * 1_000_000_000
            && t.nanos == m.nanos,
        m.after(secs) is Some <==> -8_334_601_228_800 <= m.secs + secs <= 8_210_266_876_799,
{
}

/// Moments are ordered by their seconds, and within a second by their nanoseconds.
pub proof fn lemma_moments_are_ordered(a: Moment, b: Moment)
    requires
        a.wf(),
        b.wf(),
    ensures
        a.total_nanos() < b.total_nanos() <==> a.secs < b.secs || (a.secs == b.secs && a.nanos
            < b.nanos),
        a.total_nanos() == b.total_nanos() <==> a == b,
{
}

} // verus!

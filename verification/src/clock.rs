//! The clock of the machine, as plain values, and the two ways in which a
//! local time is written.
//!
//! The readings and the writing are chrono's. A reading depends on the machine,
//! so nothing here says which one comes back, only what holds of every one. That
//! a value is what the clock handed back, and not one made up, can be said.
use chrono::TimeZone;
use vstd::prelude::*;

use crate::calendar::{date_of, day_has_a_date, Date};
use crate::text::{decimal, digit};

verus! {

/// Day, month and year of the century, two digits each.
pub const DAY_PATTERN: &'static str = "%d%m%y";

/// Date and time of day, to the minute.
pub const MINUTE_PATTERN: &'static str = "%d/%m/%Y %H:%M";

/// The last second that chrono can represent: that of 31 December 262142.
pub const LATEST_SECOND: i64 = 8_210_266_876_799;

/// A second, and how far ahead of UTC the wall clock is at it.
#[derive(Clone, Copy, PartialEq, Eq, Debug, Structural)]
pub struct LocalTime {
    /// Seconds since the start of 1970, UTC.
    pub utc_secs: i64,
    /// What the wall clock adds to UTC, in seconds.
    pub offset_secs: i32,
}

/// `n` in two digits, for `0 <= n <= 99`.
pub open spec fn two_digits(n: int) -> Seq<char> {
    seq![digit(n / 10), digit(n % 10)]
}

/// `n` in four digits or more.
pub open spec fn four_digits(n: nat) -> Seq<char> {
    let digits = decimal(n);
    if digits.len() < 4 {
        Seq::new((4 - digits.len()) as nat, |i: int| '0') + digits
    } else {
        digits
    }
}

/// A year that is not before year 0: four digits up to 9999, and a plus sign
/// first after it.
pub open spec fn year_text(year: int) -> Seq<char> {
    if year > 9999 {
        seq!['+'] + four_digits(year as nat)
    } else {
        four_digits(year as nat)
    }
}

/// A number of seconds since the start of 1970 that the clock can show.
pub open spec fn is_reading(now: int) -> bool {
    0 <= now <= LATEST_SECOND
}

/// What a wall clock can add to UTC: less than a day, either way.
pub open spec fn is_offset(secs: int) -> bool {
    -86_400 < secs < 86_400
}

impl LocalTime {
    /// A second that the clock can show, in a time zone that can be.
    pub open spec fn wf(self) -> bool {
        is_reading(self.utc_secs as int) && is_offset(self.offset_secs as int)
    }

    /// What the wall clock shows, in seconds since it showed the start of 1970.
    pub open spec fn wall_secs(self) -> int {
        self.utc_secs + self.offset_secs
    }

    /// The date on the wall clock.
    pub open spec fn date(self) -> Date {
        date_of(self.wall_secs() / 86_400)
    }

    /// The hour on the wall clock.
    pub open spec fn hour(self) -> int {
        self.wall_secs() % 86_400 / 3600
    }

    /// The minute on the wall clock.
    pub open spec fn minute(self) -> int {
        self.wall_secs() % 3600 / 60
    }

    /// Day, month and year of the century: `020726` on 2 July 2026.
    pub open spec fn day_text(self) -> Seq<char> {
        two_digits(self.date().day) + two_digits(self.date().month) + two_digits(
            self.date().year % 100,
        )
    }

    /// Date and time: `02/07/2026 14:05`.
    pub open spec fn minute_text(self) -> Seq<char> {
        two_digits(self.date().day) + seq!['/'] + two_digits(self.date().month) + seq!['/']
            + year_text(self.date().year) + seq![' '] + two_digits(self.hour()) + seq![':']
            + two_digits(self.minute())
    }

    /// Whether this is a second that the clock can show, in a time zone that
    /// can be.
    pub fn is_valid(&self) -> (res: bool)
        ensures
            res == self.wf(),
    {
        0 <= self.utc_secs && self.utc_secs <= LATEST_SECOND && -86_400 < self.offset_secs
            && self.offset_secs < 86_400
    }
}

/// The date that a wall clock shows exists.
pub proof fn local_date_exists(time: LocalTime)
    requires
        time.wf(),
    ensures
        time.date().wf(),
        time.date().number() == time.wall_secs() / 86_400,
{
    day_has_a_date(time.wall_secs() / 86_400);
}

/// The time now, in seconds since the start of 1970 (`chrono::Utc::now`).
///
/// Trusted: chrono counts from the start of 1970 and stops with a panic when
/// the machine's clock stands before it or past chrono's last second, so that
/// what it returns lies between the two.
#[verifier::external_body]
pub(crate) fn utc_now() -> (now: i64)
    ensures
        is_reading(now as int),
{
    chrono::Utc::now().timestamp()
}

/// The local time now (`chrono::Local::now`).
///
/// Trusted: the second is one that the clock can show, as of `chrono::Utc::now`,
/// and the time zone is less than a day away from UTC. Which second and which
/// zone is the machine's affair. chrono stops with a panic when the clock stands
/// outside its range, or the machine's zone is a day or more away from UTC.
#[verifier::external_body]
pub(crate) fn local_now() -> (time: LocalTime)
    ensures
        time.wf(),
{
    let now = chrono::Local::now();
    LocalTime { utc_secs: now.timestamp(), offset_secs: now.offset().local_minus_utc() }
}

/// What the local time is ahead of UTC at a second (`chrono::Local.timestamp_opt`).
///
/// Trusted: every second in the range has exactly one local time, and that is
/// less than a day away from UTC. The time zone is the machine's: chrono stops
/// with a panic when it is a day or more away.
#[verifier::external_body]
pub(crate) fn local_offset_at(utc_secs: i64) -> (secs: i32)
    requires
        is_reading(utc_secs as int),
    ensures
        is_offset(secs as int),
{
    chrono::Local.timestamp_opt(utc_secs, 0).unwrap().offset().local_minus_utc()
}

/// Writes a local time by a pattern (`chrono::DateTime::format`).
///
/// Trusted, of the two patterns that are used here: `%d`, `%m`, `%y`, `%H` and
/// `%M` are written in two digits and `%Y` in four, with a plus sign in front of
/// a year above 9999; everything else stands as it is. The date is the Gregorian
/// one of the wall clock, also where the zone takes it one day past the last day
/// of UTC that chrono represents.
#[verifier::external_body]
pub(crate) fn write_time(time: &LocalTime, pattern: &str) -> (res: String)
    requires
        time.wf(),
        pattern@ == DAY_PATTERN@ || pattern@ == MINUTE_PATTERN@,
    ensures
        pattern@ == DAY_PATTERN@ ==> res@ == time.day_text(),
        pattern@ == MINUTE_PATTERN@ ==> res@ == time.minute_text(),
{
    let zone = chrono::FixedOffset::east_opt(time.offset_secs).unwrap();
    zone.timestamp_opt(time.utc_secs, 0).unwrap().format(pattern).to_string()
}

/// Whether the clock handed `now` back when it was asked for the time. Nothing
/// else is known to be such a reading: not a number that is made up, nor a reading
/// to which something was done.
pub open(crate) spec fn utc_reading(now: i64) -> bool {
    call_ensures(utc_now, (), now)
}

/// Whether the clock handed `time` back when it was asked for the local time.
pub open(crate) spec fn local_reading(time: LocalTime) -> bool {
    call_ensures(local_now, (), time)
}

/// Whether the machine handed `secs` back when it was asked what the local time is
/// ahead of UTC at `utc_secs`.
pub open(crate) spec fn offset_reading(utc_secs: i64, secs: i32) -> bool {
    call_ensures(local_offset_at, (utc_secs,), secs)
}

/// A reading is a result of the clock, in the range that its results have.
pub(crate) proof fn readings_are_results_of_the_clock(now: i64, time: LocalTime, at: i64, secs: i32)
    ensures
        utc_reading(now) == call_ensures(utc_now, (), now),
        utc_reading(now) ==> is_reading(now as int),
        local_reading(time) == call_ensures(local_now, (), time),
        local_reading(time) ==> time.wf(),
        offset_reading(at, secs) == call_ensures(local_offset_at, (at,), secs),
        offset_reading(at, secs) ==> is_offset(secs as int),
{
}

/// Whether the clock may read `now`: where a reading is given, it is that one, and
/// otherwise it is what the clock handed back.
pub(crate) open spec fn may_read(given: Option<i64>, now: i64) -> bool {
    is_reading(now as int) && match given {
        Some(n) => now == n,
        None => utc_reading(now),
    }
}

/// The reading that is given, or else the time now.
pub(crate) fn read_now(given: Option<i64>) -> (now: i64)
    requires
        given matches Some(n) ==> is_reading(n as int),
    ensures
        may_read(given, now),
{
    match given {
        Some(now) => now,
        None => utc_now(),
    }
}

} // verus!

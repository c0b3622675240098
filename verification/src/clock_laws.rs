//! Dates and times on the wall clock, said of the days that follow each other and
//! of the characters that are written.
use vstd::prelude::*;

use crate::calendar::{date_is_that_of_its_day, date_of, day_has_a_date, days_before_month, Date};
use crate::clock::{local_date_exists, two_digits, LocalTime};
use crate::startup::Readings;
use crate::text::{decimal, decimal_denotes_its_number, digits_value};

verus! {

/// The day with number 0 is 1 January 1970.
pub proof fn days_count_from_1970()
    ensures
        date_of(0) == (Date { year: 1970, month: 1, day: 1 }),
{
    let first = Date { year: 1970, month: 1, day: 1 };
    reveal_with_fuel(days_before_month, 2);
    assert(first.number() == 0);
    date_is_that_of_its_day(first);
}

/// Every date follows the one before it: the next day of the same month, or else
/// the first of the next month, or else the first of January. April, June,
/// September and November have thirty days, February has twenty-eight, or
/// twenty-nine in a leap year, and the other months have thirty-one.
pub proof fn every_date_follows_the_one_before(number: int)
    requires
        number >= -1,
    ensures
        ({
            let a = date_of(number);
            let b = date_of(number + 1);
            let leap = a.year % 4 == 0 && (a.year % 100 != 0 || a.year % 400 == 0);
            let last: int = if a.month == 2 {
                if leap {
                    29
                } else {
                    28
                }
            } else if a.month == 4 || a.month == 6 || a.month == 9 || a.month == 11 {
                30
            } else {
                31
            };
            &&& 1 <= a.day <= last
            &&& 1 <= a.month <= 12
            &&& a.day < last ==> b == (Date { year: a.year, month: a.month, day: a.day + 1 })
            &&& a.day == last && a.month < 12 ==> b == (Date {
                year: a.year,
                month: a.month + 1,
                day: 1,
            })
            &&& a.day == last && a.month == 12 ==> b == (Date {
                year: a.year + 1,
                month: 1,
                day: 1,
            })
        }),
{
    day_has_a_date(number);
    let a = date_of(number);
    let leap = a.year % 4 == 0 && (a.year % 100 != 0 || a.year % 400 == 0);
    let last: int = if a.month == 2 {
        if leap {
            29
        } else {
            28
        }
    } else if a.month == 4 || a.month == 6 || a.month == 9 || a.month == 11 {
        30
    } else {
        31
    };
    let b = if a.day < last {
        Date { year: a.year, month: a.month, day: a.day + 1 }
    } else if a.month < 12 {
        Date { year: a.year, month: a.month + 1, day: 1 }
    } else {
        Date { year: a.year + 1, month: 1, day: 1 }
    };
    assert(b.number() == number + 1) by {
        reveal_with_fuel(days_before_month, 13);
    }
    date_is_that_of_its_day(b);
}

/// The wall clock shows UTC and what the zone adds to it: the date, the hour and
/// the minute are those of that sum.
pub proof fn wall_clock_shows_utc_and_the_zone(time: LocalTime)
    requires
        time.wf(),
    ensures
        time.date() == date_of((time.utc_secs + time.offset_secs) / 86_400),
        time.date().number() == (time.utc_secs + time.offset_secs) / 86_400,
        0 <= time.hour() < 24,
        0 <= time.minute() < 60,
        ({
            let secs = time.utc_secs + time.offset_secs - 86_400 * time.date().number() - 3600
                * time.hour() - 60 * time.minute();
            0 <= secs < 60
        }),
{
    local_date_exists(time);
}

/// A time is written as day, month, year, hour and minute, in this order, with a
/// slash, a blank and a colon between them.
pub proof fn minute_text_is_date_and_time(time: LocalTime)
    requires
        time.wf(),
        1000 <= time.date().year <= 9999,
    ensures
        time.minute_text() == two_digits(time.date().day) + seq!['/'] + two_digits(
            time.date().month,
        ) + seq!['/'] + decimal(time.date().year as nat) + seq![' '] + two_digits(time.hour())
            + seq![':'] + two_digits(time.minute()),
        time.minute_text().len() == 16,
        digits_value(time.minute_text().subrange(6, 10)) == time.date().year,
{
    let year = time.date().year as nat;
    reveal_with_fuel(decimal, 5);
    assert(decimal(year).len() == 4);
    decimal_denotes_its_number(year);
    assert(time.minute_text().subrange(6, 10) =~= decimal(year));
}

/// A year past 9999 is written with a plus sign in front and all its digits.
pub proof fn late_year_has_a_plus_sign(time: LocalTime)
    requires
        time.wf(),
        time.date().year > 9999,
    ensures
        time.minute_text() == two_digits(time.date().day) + seq!['/'] + two_digits(
            time.date().month,
        ) + seq!['/'] + (seq!['+'] + decimal(time.date().year as nat)) + seq![' '] + two_digits(
            time.hour(),
        ) + seq![':'] + two_digits(time.minute()),
{
    let year = time.date().year as nat;
    reveal_with_fuel(decimal, 5);
    assert(decimal(year).len() >= 4);
}

/// Every second from the start of 1970 to the last that can be shown is valid, in
/// every zone less than a day away from UTC, and so are readings made of such.
pub proof fn valid_times_are_these(time: LocalTime, valid: bool, readings: Readings)
    requires
        call_ensures(LocalTime::is_valid, (&time,), valid),
    ensures
        valid <==> 0 <= time.utc_secs <= 8_210_266_876_799 && -86_400 < time.offset_secs < 86_400,
        time.wf() <==> valid,
        readings.wf() <==> {
            &&& 0 <= readings.now <= 8_210_266_876_799
            &&& 0 <= readings.today.utc_secs <= 8_210_266_876_799
            &&& -86_400 < readings.today.offset_secs < 86_400
            &&& -86_400 < readings.grace_end_offset < 86_400
        },
{
}

} // verus!

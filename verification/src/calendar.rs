//! The Gregorian calendar: dates and the numbers of their days.
use vstd::prelude::*;

verus! {

/// A date.
pub struct Date {
    pub year: int,
    pub month: int,
    pub day: int,
}

pub open spec fn is_leap(year: int) -> bool {
    year % 4 == 0 && (year % 100 != 0 || year % 400 == 0)
}

pub open spec fn days_in_month(year: int, month: int) -> int {
    if month == 2 {
        if is_leap(year) {
            29
        } else {
            28
        }
    } else if month == 4 || month == 6 || month == 9 || month == 11 {
        30
    } else {
        31
    }
}

/// How many days of the year lie before the month.
pub open spec fn days_before_month(year: int, month: int) -> int
    decreases month,
{
    if month <= 1 {
        0
    } else {
        days_before_month(year, month - 1) + days_in_month(year, month - 1)
    }
}

/// How many days lie between 1 January 1970 and 1 January of the year.
pub open spec fn days_before_year(year: int) -> int {
    let past = year - 1;
    365 * past + past / 4 - past / 100 + past / 400 - 719_162
}

impl Date {
    /// A date that exists.
    pub open spec fn wf(self) -> bool {
        &&& 1 <= self.month <= 12
        &&& 1 <= self.day <= days_in_month(self.year, self.month)
    }

    /// How many days lie between 1 January 1970 and the date.
    pub open spec fn number(self) -> int {
        days_before_year(self.year) + days_before_month(self.year, self.month) + self.day - 1
    }
}

/// The date of the day with the given number.
pub open spec fn date_of(number: int) -> Date {
    choose|date: Date| #[trigger] date.wf() && date.number() == number
}

spec fn next(date: Date) -> Date {
    if date.day < days_in_month(date.year, date.month) {
        Date { day: date.day + 1, ..date }
    } else if date.month < 12 {
        Date { month: date.month + 1, day: 1, ..date }
    } else {
        Date { year: date.year + 1, month: 1, day: 1 }
    }
}

proof fn lemma_year_length(year: int)
    ensures
        days_before_year(year + 1) == days_before_year(year) + if is_leap(year) {
            366int
        } else {
            365int
        },
        days_before_month(year, 12) + 31 == if is_leap(year) {
            366int
        } else {
            365int
        },
{
    reveal_with_fuel(days_before_month, 13);
}

proof fn lemma_next(date: Date)
    requires
        date.wf(),
    ensures
        next(date).wf(),
        next(date).number() == date.number() + 1,
{
    lemma_year_length(date.year);
}

proof fn lemma_years_in_order(a: int, b: int)
    requires
        a <= b,
    ensures
        days_before_year(a) <= days_before_year(b),
    decreases b - a,
{
    if a < b {
        lemma_years_in_order(a, b - 1);
        lemma_year_length(b - 1);
    }
}

proof fn lemma_months_in_order(year: int, a: int, b: int)
    requires
        1 <= a <= b,
    ensures
        days_before_month(year, a) <= days_before_month(year, b),
    decreases b - a,
{
    if a < b {
        lemma_months_in_order(year, a, b - 1);
    }
}

proof fn lemma_numbers_in_order(a: Date, b: Date)
    requires
        a.wf(),
        b.wf(),
        a.year < b.year || (a.year == b.year && a.month < b.month),
    ensures
        a.number() < b.number(),
{
    if a.year < b.year {
        lemma_months_in_order(a.year, a.month, 12);
        if a.month < 12 {
            lemma_months_in_order(a.year, a.month + 1, 12);
        }
        lemma_year_length(a.year);
        lemma_years_in_order(a.year + 1, b.year);
        lemma_months_in_order(b.year, 1, b.month);
    } else {
        lemma_months_in_order(a.year, a.month + 1, b.month);
    }
}

proof fn lemma_number_has_date(number: int)
    requires
        -1 <= number,
    ensures
        exists|date: Date| #[trigger] date.wf() && date.number() == number,
    decreases number + 1,
{
    if number == -1 {
        reveal_with_fuel(days_before_month, 13);
        let eve = Date { year: 1969, month: 12, day: 31 };
        assert(eve.wf() && eve.number() == -1);
    } else {
        lemma_number_has_date(number - 1);
        let before = choose|date: Date| #[trigger] date.wf() && date.number() == number - 1;
        lemma_next(before);
        assert(next(before).wf() && next(before).number() == number);
    }
}

/// Every day from 31 December 1969 on has a date, and its number is that day's.
pub proof fn day_has_a_date(number: int)
    requires
        -1 <= number,
    ensures
        date_of(number).wf(),
        date_of(number).number() == number,
{
    lemma_number_has_date(number);
}

/// A date is the date of its own day, and of no other.
pub proof fn date_is_that_of_its_day(date: Date)
    requires
        date.wf(),
    ensures
        date_of(date.number()) == date,
{
    assert(date.wf() && date.number() == date.number());
    let other = date_of(date.number());
    assert(other.wf() && other.number() == date.number());
    if other.year != date.year || other.month != date.month {
        if other.year < date.year || (other.year == date.year && other.month < date.month) {
            lemma_numbers_in_order(other, date);
        } else {
            lemma_numbers_in_order(date, other);
        }
    }
}

} // verus!

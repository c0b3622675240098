//! The password of the day and its change, said of the characters and of what the
//! calendar shows.
use vstd::prelude::*;

use crate::clock::{local_date_exists, local_reading, two_digits, LocalTime};
use crate::password::{
    daily_password, daily_password_at, password_of, refresh, DailyPasswordRefresher,
};

verus! {

/// A number below a hundred is written as its tens and its ones.
pub proof fn two_digits_are_tens_and_ones(n: int)
    requires
        0 <= n <= 99,
    ensures
        two_digits(n).len() == 2,
        '0' <= two_digits(n)[0] <= '9',
        '0' <= two_digits(n)[1] <= '9',
        10 * (two_digits(n)[0] as int - '0' as int) + (two_digits(n)[1] as int - '0' as int) == n,
{
    assert(two_digits(n)[0] == (48 + n / 10) as char);
    assert(two_digits(n)[1] == (48 + n % 10) as char);
}

/// The text of a day is six digits: the day, the month and the year of the
/// century, two digits each and in this order, whatever the day.
pub proof fn day_text_is_day_month_year(time: LocalTime)
    requires
        time.wf(),
    ensures
        time.day_text().len() == 6,
        time.day_text().subrange(0, 2) == two_digits(time.date().day),
        time.day_text().subrange(2, 4) == two_digits(time.date().month),
        time.day_text().subrange(4, 6) == two_digits(time.date().year % 100),
        1 <= time.date().day <= 31,
        1 <= time.date().month <= 12,
        time.date().number() == (time.utc_secs + time.offset_secs) / 86_400,
{
    local_date_exists(time);
    let t = time.day_text();
    assert(t.subrange(0, 2) =~= two_digits(time.date().day));
    assert(t.subrange(2, 4) =~= two_digits(time.date().month));
    assert(t.subrange(4, 6) =~= two_digits(time.date().year % 100));
}

/// The password is fourteen characters: the fixed beginning, and then day, month
/// and year of the century, in this order and in two digits each, whatever the
/// day.
pub proof fn password_spells_the_date(time: LocalTime)
    requires
        time.wf(),
    ensures
        password_of(time).len() == 14,
        password_of(time).take(8) == "Inf0mek@"@,
        password_of(time).subrange(8, 10) == two_digits(time.date().day),
        password_of(time).subrange(10, 12) == two_digits(time.date().month),
        password_of(time).subrange(12, 14) == two_digits(time.date().year % 100),
{
    reveal_strlit("Inf0mek@");
    assert("Inf0mek@"@.len() == 8);
    let p = password_of(time);
    assert(p.take(8) =~= "Inf0mek@"@);
    assert(p.subrange(8, 10) =~= two_digits(time.date().day));
    assert(p.subrange(10, 12) =~= two_digits(time.date().month));
    assert(p.subrange(12, 14) =~= two_digits(time.date().year % 100));
}

/// The number that the digits at `i` and behind it denote.
pub open spec fn pair_value(s: Seq<char>, i: int) -> int {
    10 * (s[i] as int - '0' as int) + (s[i + 1] as int - '0' as int)
}

/// Read as numbers, the last six characters of a password that is made are the
/// day, the month and the year of the century, and the others are always the same.
pub proof fn made_password_reads_as_the_date(time: LocalTime, password: String)
    requires
        time.wf(),
        call_ensures(daily_password_at, (&time,), password),
    ensures
        password@.len() == 14,
        password@.take(8) == "Inf0mek@"@,
        forall|i: int| 8 <= i < 14 ==> '0' <= #[trigger] password@[i] <= '9',
        pair_value(password@, 8) == time.date().day,
        pair_value(password@, 10) == time.date().month,
        pair_value(password@, 12) == time.date().year % 100,
{
    password_spells_the_date(time);
    day_text_is_day_month_year(time);
    let p = password@;
    let date = time.date();
    two_digits_are_tens_and_ones(date.day);
    two_digits_are_tens_and_ones(date.month);
    two_digits_are_tens_and_ones(date.year % 100);
    assert(p[8] == p.subrange(8, 10)[0] && p[9] == p.subrange(8, 10)[1]);
    assert(p[10] == p.subrange(10, 12)[0] && p[11] == p.subrange(10, 12)[1]);
    assert(p[12] == p.subrange(12, 14)[0] && p[13] == p.subrange(12, 14)[1]);
}

/// The password of today is that of the date which the local clock showed when it
/// was read for it.
pub proof fn password_of_today_is_that_of_the_clock(password: String)
    requires
        call_ensures(daily_password, (), password),
    ensures
        exists|time: LocalTime| #[trigger]
            local_reading(time) && {
                &&& time.wf()
                &&& password@.len() == 14
                &&& password@.take(8) == "Inf0mek@"@
                &&& password@.subrange(8, 10) == two_digits(time.date().day)
                &&& password@.subrange(10, 12) == two_digits(time.date().month)
                &&& password@.subrange(12, 14) == two_digits(time.date().year % 100)
            },
{
    let time = choose|time: LocalTime| #[trigger]
        local_reading(time) && time.wf() && password@ == password_of(time);
    password_spells_the_date(time);
}

/// No password is set while the date that is followed is the one that the clock
/// shows. On any other date one is set, and it is that of the date on which it is
/// made.
pub proof fn password_is_set_exactly_on_another_date(
    followed: LocalTime,
    seen: LocalTime,
    made: LocalTime,
)
    requires
        followed.wf(),
        seen.wf(),
        made.wf(),
    ensures
        refresh(followed.day_text(), seen, made) is None <==> {
            &&& followed.date().day == seen.date().day
            &&& followed.date().month == seen.date().month
            &&& followed.date().year % 100 == seen.date().year % 100
        },
        refresh(followed.day_text(), seen, made) matches Some(password) ==> {
            &&& password.len() == 14
            &&& password.take(8) == "Inf0mek@"@
            &&& password.subrange(8, 10) == two_digits(made.date().day)
            &&& password.subrange(10, 12) == two_digits(made.date().month)
            &&& password.subrange(12, 14) == two_digits(made.date().year % 100)
        },
{
    password_spells_the_date(made);
    day_text_is_day_month_year(followed);
    day_text_is_day_month_year(seen);
    two_digits_are_tens_and_ones(followed.date().day);
    two_digits_are_tens_and_ones(followed.date().month);
    two_digits_are_tens_and_ones(followed.date().year % 100);
    two_digits_are_tens_and_ones(seen.date().day);
    two_digits_are_tens_and_ones(seen.date().month);
    two_digits_are_tens_and_ones(seen.date().year % 100);
}

/// A look at the clock follows it, and sets a password exactly when the text of
/// the day that the clock showed in that look is not the one that was followed.
/// The password is that of the date that the clock showed when it was made.
pub proof fn look_follows_the_clock(
    refresher: &mut DailyPasswordRefresher,
    password: Option<String>,
)
    requires
        call_ensures(DailyPasswordRefresher::poll, (refresher,), password),
    ensures
        exists|seen: LocalTime, made: LocalTime| #[trigger]
            local_reading(seen) && #[trigger] local_reading(made) && {
                &&& final(refresher)@ == seen.day_text()
                &&& password is Some <==> old(refresher)@ != seen.day_text()
                &&& password matches Some(p) ==> {
                    &&& p@.len() == 14
                    &&& p@.take(8) == "Inf0mek@"@
                    &&& p@.subrange(8, 10) == two_digits(made.date().day)
                    &&& p@.subrange(10, 12) == two_digits(made.date().month)
                    &&& p@.subrange(12, 14) == two_digits(made.date().year % 100)
                }
            },
{
    let (seen, made) = choose|seen: LocalTime, made: LocalTime|
        {
            &&& #[trigger] local_reading(seen)
            &&& #[trigger] local_reading(made)
            &&& seen.wf() && made.wf()
            &&& final(refresher)@ == seen.day_text()
            &&& password is Some <==> old(refresher)@ != seen.day_text()
            &&& password matches Some(p) ==> p@ == password_of(made)
        };
    password_spells_the_date(made);
}

/// Two looks in a row while the clock shows the same day set at most one password
/// between them, and the second one sets none.
pub proof fn second_look_on_a_day_sets_nothing(
    refresher: &mut DailyPasswordRefresher,
    seen: LocalTime,
    made: LocalTime,
    later: &mut DailyPasswordRefresher,
    seen_later: LocalTime,
    made_later: LocalTime,
    first: Option<String>,
    second: Option<String>,
)
    requires
        call_ensures(DailyPasswordRefresher::advance, (refresher, &seen, &made), first),
        call_ensures(
            DailyPasswordRefresher::advance,
            (later, &seen_later, &made_later),
            second,
        ),
        *old(later) == *final(refresher),
        seen.wf(),
        seen_later.wf(),
        seen.date() == seen_later.date(),
    ensures
        second is None,
        final(later)@ == seen.day_text(),
        first is None <==> old(refresher)@ == seen.day_text(),
{
}

/// A refresher that starts on a day sets no password at a look on the same date,
/// and at a look on another date it sets that of the date on which it is made.
pub proof fn first_look_is_held_against_the_start(
    start: LocalTime,
    started: DailyPasswordRefresher,
    refresher: &mut DailyPasswordRefresher,
    seen: LocalTime,
    made: LocalTime,
    password: Option<String>,
)
    requires
        start.wf(),
        seen.wf(),
        made.wf(),
        call_ensures(DailyPasswordRefresher::start_at, (&start,), started),
        *old(refresher) == started,
        call_ensures(DailyPasswordRefresher::advance, (refresher, &seen, &made), password),
    ensures
        password is None <==> {
            &&& start.date().day == seen.date().day
            &&& start.date().month == seen.date().month
            &&& start.date().year % 100 == seen.date().year % 100
        },
        password matches Some(p) ==> {
            &&& p@.len() == 14
            &&& p@.take(8) == "Inf0mek@"@
            &&& p@.subrange(8, 10) == two_digits(made.date().day)
            &&& p@.subrange(10, 12) == two_digits(made.date().month)
            &&& p@.subrange(12, 14) == two_digits(made.date().year % 100)
        },
{
    password_is_set_exactly_on_another_date(start, seen, made);
}

} // verus!

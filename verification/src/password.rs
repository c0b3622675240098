//! The password of the day, and its change when the day changes.
use vstd::prelude::*;

use crate::clock::{local_now, local_reading, write_time, LocalTime, DAY_PATTERN};

verus! {

/// What the password of every day starts with.
pub const PASSWORD_PREFIX: &'static str = "Inf0mek@";

/// How often a running client looks whether the day has changed.
pub const REFRESH_PERIOD_SECS: u64 = 300;

/// The password of the day on which `time` lies: `Inf0mek@020726` on
/// 2 July 2026.
pub open spec fn password_of(time: LocalTime) -> Seq<char> {
    PASSWORD_PREFIX@ + time.day_text()
}

/// Whether `password` is that of some day.
pub open spec fn is_daily_password(password: Seq<char>) -> bool {
    exists|time: LocalTime| #[trigger] time.wf() && password == password_of(time)
}

/// The password to put in force when the clock is seen to show `seen` and the day
/// that is followed is `day`: none while the day is the same, and otherwise that
/// of the day on which the password is made, which is at `made`.
pub open spec fn refresh(day: Seq<char>, seen: LocalTime, made: LocalTime) -> Option<Seq<char>> {
    if day == seen.day_text() {
        None
    } else {
        Some(password_of(made))
    }
}

/// A password, if there is one, as a text.
pub open spec fn password_view(password: Option<String>) -> Option<Seq<char>> {
    match password {
        Some(p) => Some(p@),
        None => None,
    }
}

/// The password of the day on which `time` lies.
pub fn daily_password_at(time: &LocalTime) -> (res: String)
    requires
        time.wf(),
    ensures
        res@ == password_of(*time),
{
    let day = write_time(time, DAY_PATTERN);
    let mut password = PASSWORD_PREFIX.to_owned();
    password.append(day.as_str());
    password
}

/// The password of today, by the local clock.
pub fn daily_password() -> (res: String)
    ensures
        is_daily_password(res@),
        exists|time: LocalTime| #[trigger]
            local_reading(time) && time.wf() && res@ == password_of(time),
{
    let time = local_now();
    assert(local_reading(time));
    daily_password_at(&time)
}

/// Follows the day while the client runs, which may be for days on end.
pub struct DailyPasswordRefresher {
    last_applied: String,
}

impl View for DailyPasswordRefresher {
    type V = Seq<char>;

    /// The text of the day on which the clock was last seen; at the start, of the
    /// day whose password is in force.
    closed spec fn view(&self) -> Seq<char> {
        self.last_applied@
    }
}

impl DailyPasswordRefresher {
    /// The day that is followed is a day of the calendar.
    pub open spec fn wf(self) -> bool {
        exists|time: LocalTime| #[trigger] time.wf() && self@ == time.day_text()
    }

    /// Starts on the day on which `time` lies, whose password is in force.
    pub fn start_at(time: &LocalTime) -> (res: Self)
        requires
            time.wf(),
        ensures
            res.wf(),
            res@ == time.day_text(),
    {
        DailyPasswordRefresher { last_applied: write_time(time, DAY_PATTERN) }
    }

    /// Follows the clock, which shows `seen`, and tells whether the day is
    /// another one.
    fn follow(&mut self, seen: &LocalTime) -> (changed: bool)
        requires
            seen.wf(),
        ensures
            final(self).wf(),
            final(self)@ == seen.day_text(),
            changed == (old(self)@ != seen.day_text()),
    {
        let today = write_time(seen, DAY_PATTERN);
        if today == self.last_applied {
            false
        } else {
            self.last_applied = today;
            true
        }
    }

    /// Looks at the clock when it shows `seen`: the password to put in force, if
    /// the day is another one. The password is made when the clock shows `made`.
    pub fn advance(&mut self, seen: &LocalTime, made: &LocalTime) -> (res: Option<String>)
        requires
            seen.wf(),
            made.wf(),
        ensures
            final(self).wf(),
            final(self)@ == seen.day_text(),
            password_view(res) == refresh(old(self)@, *seen, *made),
            res is Some <==> old(self)@ != seen.day_text(),
            res matches Some(password) ==> password@ == password_of(*made),
    {
        if self.follow(seen) {
            Some(daily_password_at(made))
        } else {
            None
        }
    }

    /// Looks at the clock now: the password to put in force, if the day has
    /// changed. The clock is read once more for the password, so that a day that
    /// starts between the two readings has its password at once.
    pub fn poll(&mut self) -> (res: Option<String>)
        ensures
            final(self).wf(),
            res is Some <==> final(self)@ != old(self)@,
            exists|seen: LocalTime, made: LocalTime|
                #![trigger refresh(old(self)@, seen, made)]
                seen.wf() && made.wf() && final(self)@ == seen.day_text() && password_view(res)
                    == refresh(old(self)@, seen, made),
            exists|seen: LocalTime, made: LocalTime|
                {
                    &&& #[trigger] local_reading(seen)
                    &&& #[trigger] local_reading(made)
                    &&& seen.wf() && made.wf()
                    &&& final(self)@ == seen.day_text()
                    &&& res is Some <==> old(self)@ != seen.day_text()
                    &&& res matches Some(password) ==> password@ == password_of(made)
                },
    {
        let seen = local_now();
        if self.follow(&seen) {
            let made = local_now();
            let password = daily_password_at(&made);
            assert(refresh(old(self)@, seen, made) == Some(password@));
            assert(local_reading(seen) && local_reading(made));
            Some(password)
        } else {
            assert(refresh(old(self)@, seen, seen) is None);
            assert(local_reading(seen));
            None
        }
    }
}

} // verus!

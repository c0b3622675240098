use chrono::{TimeZone, Utc};
use deploy::clock::LocalTime;
use deploy::password::{
    daily_password, daily_password_at, DailyPasswordRefresher, PASSWORD_PREFIX, REFRESH_PERIOD_SECS,
};

fn at(year: i32, month: u32, day: u32, hour: u32, minute: u32, second: u32) -> LocalTime {
    let moment = Utc.with_ymd_and_hms(year, month, day, hour, minute, second).unwrap();
    LocalTime { utc_secs: moment.timestamp(), offset_secs: 0 }
}

fn day(year: i32, month: u32, day: u32) -> LocalTime {
    at(year, month, day, 12, 30, 0)
}

#[test]
fn password_of_a_day_is_prefix_and_date() {
    assert_eq!(PASSWORD_PREFIX, "Inf0mek@");
    assert_eq!(daily_password_at(&day(2026, 7, 2)), "Inf0mek@020726");
    assert_eq!(daily_password_at(&day(1999, 12, 31)), "Inf0mek@311299");
    assert_eq!(daily_password_at(&day(2000, 2, 29)), "Inf0mek@290200");
    assert_eq!(daily_password_at(&day(1970, 1, 1)), "Inf0mek@010170");
    assert_eq!(daily_password_at(&day(262_142, 12, 31)), "Inf0mek@311242");
}

#[test]
fn password_of_today_follows_the_local_clock() {
    let before = chrono::Local::now().format("Inf0mek@%d%m%y").to_string();
    let password = daily_password();
    let after = chrono::Local::now().format("Inf0mek@%d%m%y").to_string();
    assert!(password == before || password == after);
}

#[test]
fn minute_of_the_day_does_not_change_the_password() {
    let morning = at(2026, 7, 2, 0, 0, 0);
    let night = at(2026, 7, 2, 23, 59, 59);
    assert_eq!(daily_password_at(&morning), daily_password_at(&night));
    assert_ne!(daily_password_at(&morning), daily_password_at(&day(2026, 7, 3)));
    assert_ne!(daily_password_at(&morning), daily_password_at(&day(2026, 2, 7)));
    assert_ne!(daily_password_at(&morning), daily_password_at(&day(2027, 7, 2)));
}

#[test]
fn password_follows_the_wall_clock_and_not_utc() {
    let late = at(2026, 7, 2, 23, 0, 0);
    assert_eq!(daily_password_at(&LocalTime { offset_secs: 3600, ..late }), "Inf0mek@030726");
    assert_eq!(daily_password_at(&LocalTime { offset_secs: 3599, ..late }), "Inf0mek@020726");
    let early = at(2026, 7, 2, 1, 0, 0);
    assert_eq!(daily_password_at(&LocalTime { offset_secs: -3600, ..early }), "Inf0mek@020726");
    assert_eq!(daily_password_at(&LocalTime { offset_secs: -3601, ..early }), "Inf0mek@010726");
    let first = LocalTime { utc_secs: 0, offset_secs: -86_399 };
    assert_eq!(daily_password_at(&first), "Inf0mek@311269");
    let last = LocalTime { utc_secs: 8_210_266_876_799, offset_secs: 86_399 };
    assert_eq!(daily_password_at(&last), "Inf0mek@010143");
}

#[test]
fn refresher_changes_the_password_with_the_day() {
    assert_eq!(REFRESH_PERIOD_SECS, 5 * 60);
    let july = day(2026, 7, 31);
    let august = day(2026, 8, 1);
    let mut refresher = DailyPasswordRefresher::start_at(&july);
    assert_eq!(refresher.advance(&july, &july), None);
    assert_eq!(refresher.advance(&august, &august), Some("Inf0mek@010826".to_string()));
    assert_eq!(refresher.advance(&august, &august), None);
    assert_eq!(refresher.advance(&july, &july), Some("Inf0mek@310726".to_string()));
}

#[test]
fn day_that_starts_during_a_look_has_its_password_at_once() {
    let mut refresher = DailyPasswordRefresher::start_at(&day(2026, 7, 1));
    let before = at(2026, 7, 2, 23, 59, 59);
    let after = at(2026, 7, 3, 0, 0, 0);
    assert_eq!(refresher.advance(&before, &after), Some("Inf0mek@030726".to_string()));
    assert_eq!(refresher.advance(&after, &after), Some("Inf0mek@030726".to_string()));
    assert_eq!(refresher.advance(&after, &after), None);
}

#[test]
fn day_that_starts_after_the_look_waits_for_the_next_one() {
    let mut refresher = DailyPasswordRefresher::start_at(&day(2026, 7, 2));
    let before = at(2026, 7, 2, 23, 59, 59);
    let after = at(2026, 7, 3, 0, 4, 59);
    assert_eq!(refresher.advance(&before, &after), None);
    assert_eq!(refresher.advance(&after, &after), Some("Inf0mek@030726".to_string()));
}

#[test]
fn refresher_that_starts_today_is_up_to_date() {
    let now = chrono::Local::now();
    let today = LocalTime {
        utc_secs: now.timestamp(),
        offset_secs: now.offset().local_minus_utc(),
    };
    let polled = DailyPasswordRefresher::start_at(&today).poll();
    if chrono::Local::now().date_naive() == now.date_naive() {
        assert_eq!(polled, None);
    }
    let before = chrono::Local::now().format("Inf0mek@%d%m%y").to_string();
    let mut stale = DailyPasswordRefresher::start_at(&day(2001, 1, 1));
    let password = stale.poll().expect("the day has changed since 2001");
    let after = chrono::Local::now().format("Inf0mek@%d%m%y").to_string();
    assert!(password == before || password == after);
}

#[test]
fn password_repeats_after_a_century() {
    assert_eq!(daily_password_at(&day(2026, 1, 1)), daily_password_at(&day(2126, 1, 1)));
    assert_ne!(daily_password_at(&day(2026, 1, 1)), daily_password_at(&day(2125, 1, 1)));
}

#[test]
fn only_seconds_and_zones_in_range_are_valid() {
    for (utc_secs, offset_secs) in [
        (0, 0),
        (0, -86_399),
        (8_210_266_876_799, 86_399),
        (1_780_000_000, -10_800),
    ] {
        assert!(LocalTime { utc_secs, offset_secs }.is_valid());
    }
    for (utc_secs, offset_secs) in [
        (-1, 0),
        (8_210_266_876_800, 0),
        (0, 86_400),
        (0, -86_400),
        (i64::MIN, i32::MIN),
    ] {
        assert!(!LocalTime { utc_secs, offset_secs }.is_valid());
    }
}

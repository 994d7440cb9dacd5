use chrono::{Datelike, Timelike};
use daily_wallpaper::clock::{local_now, LocalMoment, Timestamp, Weekday};

#[test]
fn weekday_from_index_counts_from_monday() {
    assert_eq!(Weekday::from_index(0), Some(Weekday::Monday));
    assert_eq!(Weekday::from_index(1), Some(Weekday::Tuesday));
    assert_eq!(Weekday::from_index(2), Some(Weekday::Wednesday));
    assert_eq!(Weekday::from_index(3), Some(Weekday::Thursday));
    assert_eq!(Weekday::from_index(4), Some(Weekday::Friday));
    assert_eq!(Weekday::from_index(5), Some(Weekday::Saturday));
    assert_eq!(Weekday::from_index(6), Some(Weekday::Sunday));
    assert_eq!(Weekday::from_index(7), None);
    assert_eq!(Weekday::from_index(u32::MAX), None);
}

#[test]
fn timestamp_order_is_by_seconds_then_nanoseconds() {
    let a = Timestamp { secs: 10, nanos: 999_999_999 };
    let b = Timestamp { secs: 11, nanos: 0 };
    let c = Timestamp { secs: 11, nanos: 1 };
    assert!(a.before(&b));
    assert!(b.before(&c));
    assert!(a.before(&c));
    assert!(!b.before(&a));
    assert!(!c.before(&b));
    assert!(!a.before(&a));
    let negative = Timestamp { secs: -5, nanos: 0 };
    assert!(negative.before(&a));
}

#[test]
fn plus_hours_adds_whole_hours() {
    let now = Timestamp { secs: 1_700_000_000, nanos: 123 };
    assert_eq!(now.plus_hours(1), Some(Timestamp { secs: 1_700_003_600, nanos: 123 }));
    assert_eq!(now.plus_hours(0), Some(now));
    assert_eq!(now.plus_hours(48), Some(Timestamp { secs: 1_700_172_800, nanos: 123 }));
    assert_eq!(
        now.plus_hours(u32::MAX),
        Some(Timestamp { secs: 1_700_000_000 + 4_294_967_295 * 3600, nanos: 123 })
    );
}

#[test]
fn plus_hours_refuses_to_overflow() {
    let late = Timestamp { secs: i64::MAX - 3599, nanos: 0 };
    assert_eq!(late.plus_hours(1), None);
    assert_eq!(late.plus_hours(0), Some(late));
    let edge = Timestamp { secs: i64::MAX - 3600, nanos: 7 };
    assert_eq!(edge.plus_hours(1), Some(Timestamp { secs: i64::MAX, nanos: 7 }));
}

#[test]
fn seconds_until_counts_whole_seconds() {
    let now = Timestamp { secs: 100, nanos: 500_000_000 };
    assert_eq!(now.seconds_until(&Timestamp { secs: 3700, nanos: 500_000_000 }), 3600);
    assert_eq!(now.seconds_until(&Timestamp { secs: 3700, nanos: 499_999_999 }), 3599);
    assert_eq!(now.seconds_until(&Timestamp { secs: 102, nanos: 500_000_000 }), 2);
    assert_eq!(now.seconds_until(&Timestamp { secs: 102, nanos: 499_999_999 }), 1);
}

#[test]
fn seconds_until_is_at_least_one() {
    let now = Timestamp { secs: 100, nanos: 500_000_000 };
    assert_eq!(now.seconds_until(&Timestamp { secs: 101, nanos: 0 }), 1);
    assert_eq!(now.seconds_until(&now), 1);
    assert_eq!(now.seconds_until(&Timestamp { secs: 0, nanos: 0 }), 1);
    assert_eq!(now.seconds_until(&Timestamp { secs: i64::MIN, nanos: 0 }), 1);
}

#[test]
fn seconds_until_stays_in_range() {
    let early = Timestamp { secs: i64::MIN, nanos: 0 };
    let late = Timestamp { secs: i64::MAX, nanos: 999_999_999 };
    assert_eq!(early.seconds_until(&late), u64::MAX);
    let odd = Timestamp { secs: i64::MAX, nanos: u32::MAX };
    assert_eq!(early.seconds_until(&odd), u64::MAX);
}

#[test]
fn from_parts_takes_what_a_clock_shows() {
    let moment = LocalMoment::from_parts(1_700_000_000, 999_999_999, 6, 86_399, 12, 31).unwrap();
    assert_eq!(moment.at, Timestamp { secs: 1_700_000_000, nanos: 999_999_999 });
    assert_eq!(moment.weekday, Weekday::Sunday);
    assert_eq!(moment.second_of_day, 86_399);
    assert_eq!(moment.month, 12);
    assert_eq!(moment.day, 31);
    assert!(LocalMoment::from_parts(-1, 0, 0, 0, 1, 1).is_some());
}

#[test]
fn from_parts_refuses_instants_off_the_calendar() {
    assert!(LocalMoment::from_parts(185_480_451_503_999, 0, 0, 0, 1, 1).is_some());
    assert_eq!(LocalMoment::from_parts(185_480_451_504_000, 0, 0, 0, 1, 1), None);
    assert!(LocalMoment::from_parts(-185_604_722_870_400, 0, 0, 0, 1, 1).is_some());
    assert_eq!(LocalMoment::from_parts(-185_604_722_870_401, 0, 0, 0, 1, 1), None);
    assert_eq!(LocalMoment::from_parts(i64::MAX, 0, 0, 0, 1, 1), None);
    assert_eq!(LocalMoment::from_parts(i64::MIN, 0, 0, 0, 1, 1), None);
}

#[test]
fn calendar_is_wider_than_what_chrono_holds() {
    let first = chrono::DateTime::<chrono::Utc>::MIN_UTC.timestamp();
    let last = chrono::DateTime::<chrono::Utc>::MAX_UTC.timestamp();
    assert!(LocalMoment::from_parts(first, 0, 0, 0, 1, 1).is_some());
    assert!(LocalMoment::from_parts(last, 0, 0, 0, 1, 1).is_some());
    assert!(chrono::DateTime::from_timestamp(185_480_451_504_000, 0).is_none());
    assert!(chrono::DateTime::from_timestamp(-185_604_722_870_401, 0).is_none());
}

#[test]
fn from_parts_refuses_what_no_clock_shows() {
    assert_eq!(LocalMoment::from_parts(0, 1_000_000_000, 0, 0, 1, 1), None);
    assert_eq!(LocalMoment::from_parts(0, 0, 7, 0, 1, 1), None);
    assert_eq!(LocalMoment::from_parts(0, 0, 0, 86_400, 1, 1), None);
    assert_eq!(LocalMoment::from_parts(0, 0, 0, 0, 0, 1), None);
    assert_eq!(LocalMoment::from_parts(0, 0, 0, 0, 13, 1), None);
    assert_eq!(LocalMoment::from_parts(0, 0, 0, 0, 1, 0), None);
    assert_eq!(LocalMoment::from_parts(0, 0, 0, 0, 1, 32), None);
}

#[test]
fn local_now_reads_the_clock() {
    let before = chrono::Local::now();
    let now = local_now();
    let after = chrono::Local::now();
    assert!(before.timestamp() <= now.at.secs && now.at.secs <= after.timestamp());
    assert!(now.at.nanos < 1_000_000_000);
    assert!(now.second_of_day < 86_400);
    assert!((1..=12).contains(&now.month));
    assert!((1..=31).contains(&now.day));
    if before.day() == after.day() {
        assert_eq!(now.day, before.day());
        assert_eq!(now.month, before.month());
        assert_eq!(Weekday::from_index(before.weekday().num_days_from_monday()), Some(now.weekday));
        assert!(before.num_seconds_from_midnight() <= now.second_of_day);
        assert!(now.second_of_day <= after.num_seconds_from_midnight());
    }
}

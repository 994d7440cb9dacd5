use daily_wallpaper::clock::{LocalMoment, Timestamp, Weekday};
use daily_wallpaper::config::{Config, Days, SpecialPeriod, UrlTable, Wallpapers};
use daily_wallpaper::schedule::{
    date_key, determine_target_url, first_covering_index, period_window, period_windows,
    resolve_target, scheduled_target, weekday_from_str, PeriodWindow,
};
use daily_wallpaper::state::{AppState, TempWallpaper};

fn days() -> Days {
    Days {
        monday: "https://pics.example/mon.jpg".to_string(),
        tuesday: "https://pics.example/tue.jpg".to_string(),
        wednesday: "https://pics.example/wed.jpg".to_string(),
        thursday: "https://pics.example/thu.jpg".to_string(),
        friday: "https://pics.example/fri.jpg".to_string(),
        saturday: "https://pics.example/sat.jpg".to_string(),
        sunday: "https://pics.example/sun.jpg".to_string(),
    }
}

fn period(day: &str, start: &str, end: &str, url: &str) -> SpecialPeriod {
    SpecialPeriod {
        day: day.to_string(),
        start: start.to_string(),
        end: end.to_string(),
        url: url.to_string(),
    }
}

fn config(dates: &[(&str, &str)], periods: Vec<SpecialPeriod>) -> Config {
    let mut table = UrlTable::new();
    for (key, url) in dates {
        table.insert(key.to_string(), url.to_string());
    }
    Config {
        wallpapers: Wallpapers { days: days(), dates: table, periods },
        special_urls: UrlTable::new(),
    }
}

fn moment(secs: i64, weekday: u32, second_of_day: u32, month: u32, day: u32) -> LocalMoment {
    LocalMoment::from_parts(secs, 0, weekday, second_of_day, month, day).unwrap()
}

fn state_with(config: Option<Config>, temp: Option<TempWallpaper>) -> AppState {
    let mut state = AppState::new("/data".to_string());
    state.config = config;
    state.temp_wallpaper = temp;
    state
}

#[test]
fn weekday_names_are_read_in_any_case() {
    assert_eq!(weekday_from_str("monday"), Some(Weekday::Monday));
    assert_eq!(weekday_from_str("Tuesday"), Some(Weekday::Tuesday));
    assert_eq!(weekday_from_str("WEDNESDAY"), Some(Weekday::Wednesday));
    assert_eq!(weekday_from_str("tHuRsDaY"), Some(Weekday::Thursday));
    assert_eq!(weekday_from_str("Friday"), Some(Weekday::Friday));
    assert_eq!(weekday_from_str("saturday"), Some(Weekday::Saturday));
    assert_eq!(weekday_from_str("Sunday"), Some(Weekday::Sunday));
}

#[test]
fn unknown_weekday_names_name_nothing() {
    assert_eq!(weekday_from_str(""), None);
    assert_eq!(weekday_from_str("mon"), None);
    assert_eq!(weekday_from_str("Monday "), None);
    assert_eq!(weekday_from_str("Funday"), None);
    assert_eq!(weekday_from_str("FR\u{130}DAY"), None);
}

#[test]
fn weekday_names_agree_with_unicode_lowercasing() {
    let names = [
        "monday", "MONDAY", "Tuesday", "wEdNeSdAy", "THURSDAY", "friday", "Saturday", "SUNDAY",
        "FR\u{130}DAY", "mo\u{212A}day", "", "sun day", "sunday\n",
    ];
    for name in names {
        let expected = match name.to_lowercase().as_str() {
            "monday" => Some(Weekday::Monday),
            "tuesday" => Some(Weekday::Tuesday),
            "wednesday" => Some(Weekday::Wednesday),
            "thursday" => Some(Weekday::Thursday),
            "friday" => Some(Weekday::Friday),
            "saturday" => Some(Weekday::Saturday),
            "sunday" => Some(Weekday::Sunday),
            _ => None,
        };
        assert_eq!(weekday_from_str(name), expected, "{:?}", name);
    }
}

#[test]
fn date_key_has_two_digits_each() {
    assert_eq!(date_key(7, 4), "07-04");
    assert_eq!(date_key(12, 25), "12-25");
    assert_eq!(date_key(1, 1), "01-01");
    assert_eq!(date_key(10, 31), "10-31");
}

#[test]
fn period_window_reads_clock_times() {
    let window = period_window(&period("Monday", "09:00", "17:30", "u"));
    assert_eq!(
        window,
        PeriodWindow { day: Some(Weekday::Monday), start: Some(32_400), end: Some(63_000) }
    );
    let short = period_window(&period("friday", "7:15", "23:59", "u"));
    assert_eq!(short.start, Some(26_100));
    assert_eq!(short.end, Some(86_340));
}

#[test]
fn period_window_marks_unreadable_parts() {
    let window = period_window(&period("Someday", "24:00", "17:60", "u"));
    assert_eq!(window, PeriodWindow { day: None, start: None, end: None });
    let words = period_window(&period("sunday", "noon", "", "u"));
    assert_eq!(words, PeriodWindow { day: Some(Weekday::Sunday), start: None, end: None });
    let seconds = period_window(&period("sunday", "09:00:00", "0900", "u"));
    assert_eq!(seconds.start, None);
    assert_eq!(seconds.end, None);
}

#[test]
fn window_is_half_open() {
    let window =
        PeriodWindow { day: Some(Weekday::Monday), start: Some(32_400), end: Some(36_000) };
    assert!(!window.contains(Weekday::Monday, 32_399));
    assert!(window.contains(Weekday::Monday, 32_400));
    assert!(window.contains(Weekday::Monday, 35_999));
    assert!(!window.contains(Weekday::Monday, 36_000));
    assert!(!window.contains(Weekday::Tuesday, 33_000));
}

#[test]
fn window_with_missing_part_never_holds() {
    let no_day = PeriodWindow { day: None, start: Some(0), end: Some(86_400) };
    let no_start = PeriodWindow { day: Some(Weekday::Monday), start: None, end: Some(86_400) };
    let no_end = PeriodWindow { day: Some(Weekday::Monday), start: Some(0), end: None };
    assert!(!no_day.contains(Weekday::Monday, 100));
    assert!(!no_start.contains(Weekday::Monday, 100));
    assert!(!no_end.contains(Weekday::Monday, 100));
}

#[test]
fn first_covering_index_takes_the_first() {
    let windows = vec![
        PeriodWindow { day: Some(Weekday::Tuesday), start: Some(0), end: Some(86_400) },
        PeriodWindow { day: Some(Weekday::Monday), start: Some(100), end: Some(200) },
        PeriodWindow { day: Some(Weekday::Monday), start: Some(0), end: Some(86_400) },
    ];
    assert_eq!(first_covering_index(&windows, Weekday::Monday, 150), Some(1));
    assert_eq!(first_covering_index(&windows, Weekday::Monday, 50), Some(2));
    assert_eq!(first_covering_index(&windows, Weekday::Tuesday, 50), Some(0));
    assert_eq!(first_covering_index(&windows, Weekday::Sunday, 50), None);
    assert_eq!(first_covering_index(&Vec::new(), Weekday::Sunday, 50), None);
}

#[test]
fn period_windows_keep_the_order() {
    let periods = vec![period("monday", "01:00", "02:00", "a"), period("x", "y", "03:00", "b")];
    let windows = period_windows(&periods);
    assert_eq!(
        windows,
        vec![
            PeriodWindow { day: Some(Weekday::Monday), start: Some(3600), end: Some(7200) },
            PeriodWindow { day: None, start: None, end: Some(10_800) },
        ]
    );
}

#[test]
fn plain_schedule_gives_weekday_default() {
    let config = config(&[], Vec::new());
    let urls = ["mon", "tue", "wed", "thu", "fri", "sat", "sun"];
    for (index, name) in urls.iter().enumerate() {
        let now = moment(1_700_000_000, index as u32, 43_200, 7, 4);
        assert_eq!(
            scheduled_target(&config, &now),
            format!("https://pics.example/{}.jpg", name)
        );
        let mut state = state_with(Some(config.clone()), None);
        assert_eq!(
            resolve_target(&mut state, &now),
            Some((format!("https://pics.example/{}.jpg", name), false))
        );
    }
}

#[test]
fn no_schedule_and_no_override_resolves_to_nothing() {
    let mut state = state_with(None, None);
    let now = moment(1_700_000_000, 0, 0, 1, 1);
    assert_eq!(resolve_target(&mut state, &now), None);
    assert_eq!(state, state_with(None, None));
}

#[test]
fn active_override_wins_over_everything() {
    let chosen = TempWallpaper {
        url: "https://pics.example/chosen.png".to_string(),
        expiry: Timestamp { secs: 1_700_003_600, nanos: 0 },
    };
    let full = config(
        &[("07-04", "https://pics.example/july.jpg")],
        vec![period("monday", "00:00", "23:59", "https://pics.example/window.jpg")],
    );
    let now = moment(1_700_000_000, 0, 43_200, 7, 4);
    let mut state = state_with(Some(full), Some(chosen.clone()));
    assert_eq!(
        resolve_target(&mut state, &now),
        Some(("https://pics.example/chosen.png".to_string(), true))
    );
    assert_eq!(state.temp_wallpaper, Some(chosen.clone()));
    let mut bare = state_with(None, Some(chosen.clone()));
    assert_eq!(
        resolve_target(&mut bare, &now),
        Some(("https://pics.example/chosen.png".to_string(), true))
    );
}

#[test]
fn override_is_compared_to_the_nanosecond() {
    let chosen = TempWallpaper {
        url: "chosen".to_string(),
        expiry: Timestamp { secs: 100, nanos: 500 },
    };
    let before = LocalMoment::from_parts(100, 499, 0, 0, 1, 1).unwrap();
    let at = LocalMoment::from_parts(100, 500, 0, 0, 1, 1).unwrap();
    let mut state = state_with(None, Some(chosen.clone()));
    assert_eq!(resolve_target(&mut state, &before), Some(("chosen".to_string(), true)));
    assert_eq!(resolve_target(&mut state, &at), None);
    assert_eq!(state.temp_wallpaper, None);
}

#[test]
fn expired_override_is_dropped_by_one_resolution() {
    let chosen = TempWallpaper {
        url: "https://pics.example/chosen.png".to_string(),
        expiry: Timestamp { secs: 1_700_000_000, nanos: 0 },
    };
    let schedule = config(&[], Vec::new());
    let now = moment(1_700_000_000, 2, 43_200, 7, 4);
    let mut state = state_with(Some(schedule.clone()), Some(chosen));
    let first = resolve_target(&mut state, &now);
    assert_eq!(first, Some(("https://pics.example/wed.jpg".to_string(), false)));
    assert_eq!(state.temp_wallpaper, None);
    let after_first = state.clone();
    let second = resolve_target(&mut state, &now);
    assert_eq!(second, first);
    assert_eq!(state, after_first);
}

#[test]
fn expired_override_is_dropped_without_a_schedule() {
    let chosen =
        TempWallpaper { url: "chosen".to_string(), expiry: Timestamp { secs: 10, nanos: 0 } };
    let mut state = state_with(None, Some(chosen));
    let now = moment(11, 0, 0, 1, 1);
    assert_eq!(resolve_target(&mut state, &now), None);
    assert_eq!(state.temp_wallpaper, None);
}

#[test]
fn earlier_period_wins() {
    let schedule = config(
        &[],
        vec![
            period("Monday", "08:00", "12:00", "https://pics.example/first.jpg"),
            period("monday", "09:00", "18:00", "https://pics.example/second.jpg"),
        ],
    );
    let in_both = moment(1_700_000_000, 0, 10 * 3600, 3, 3);
    let in_second = moment(1_700_000_000, 0, 13 * 3600, 3, 3);
    let in_none = moment(1_700_000_000, 0, 19 * 3600, 3, 3);
    let other_day = moment(1_700_000_000, 1, 10 * 3600, 3, 3);
    assert_eq!(scheduled_target(&schedule, &in_both), "https://pics.example/first.jpg");
    assert_eq!(scheduled_target(&schedule, &in_second), "https://pics.example/second.jpg");
    assert_eq!(scheduled_target(&schedule, &in_none), "https://pics.example/mon.jpg");
    assert_eq!(scheduled_target(&schedule, &other_day), "https://pics.example/tue.jpg");
}

#[test]
fn malformed_period_is_skipped() {
    let schedule = config(
        &[],
        vec![
            period("Monday", "8 o'clock", "12:00", "https://pics.example/broken.jpg"),
            period("Moonday", "00:00", "23:59", "https://pics.example/nowhere.jpg"),
            period("monday", "09:00", "18:00", "https://pics.example/good.jpg"),
        ],
    );
    let now = moment(1_700_000_000, 0, 10 * 3600, 3, 3);
    assert_eq!(scheduled_target(&schedule, &now), "https://pics.example/good.jpg");
}

#[test]
fn period_beats_date() {
    let schedule = config(
        &[("07-04", "https://pics.example/july.jpg")],
        vec![period("thursday", "09:00", "10:00", "https://pics.example/window.jpg")],
    );
    let inside = moment(1_700_000_000, 3, 9 * 3600 + 1800, 7, 4);
    let outside = moment(1_700_000_000, 3, 10 * 3600, 7, 4);
    assert_eq!(scheduled_target(&schedule, &inside), "https://pics.example/window.jpg");
    assert_eq!(scheduled_target(&schedule, &outside), "https://pics.example/july.jpg");
}

#[test]
fn date_beats_weekday_default() {
    let schedule = config(&[("07-04", "https://pics.example/july.jpg")], Vec::new());
    let fourth = moment(1_700_000_000, 4, 43_200, 7, 4);
    let fifth = moment(1_700_000_000, 5, 43_200, 7, 5);
    assert_eq!(scheduled_target(&schedule, &fourth), "https://pics.example/july.jpg");
    assert_eq!(scheduled_target(&schedule, &fifth), "https://pics.example/sat.jpg");
}

#[test]
fn date_key_needs_leading_zeros() {
    let schedule = config(&[("7-4", "https://pics.example/short.jpg")], Vec::new());
    let fourth = moment(1_700_000_000, 4, 43_200, 7, 4);
    assert_eq!(scheduled_target(&schedule, &fourth), "https://pics.example/fri.jpg");
}

#[test]
fn determine_target_url_resolves_for_the_present() {
    let chosen = TempWallpaper {
        url: "https://pics.example/chosen.png".to_string(),
        expiry: Timestamp { secs: i64::MAX, nanos: 0 },
    };
    let mut state = state_with(None, Some(chosen.clone()));
    assert_eq!(
        determine_target_url(&mut state),
        Some(("https://pics.example/chosen.png".to_string(), true))
    );
    assert_eq!(state.temp_wallpaper, Some(chosen));
    let past =
        TempWallpaper { url: "old".to_string(), expiry: Timestamp { secs: 0, nanos: 0 } };
    let mut expired = state_with(None, Some(past));
    assert_eq!(determine_target_url(&mut expired), None);
    assert_eq!(expired.temp_wallpaper, None);
    let mut scheduled = state_with(Some(config(&[], Vec::new())), None);
    let target = determine_target_url(&mut scheduled).unwrap();
    assert!(target.0.starts_with("https://pics.example/"));
    assert!(!target.1);
}

use daily_wallpaper::clock::Weekday;
use daily_wallpaper::config::{Days, UrlEntry, UrlTable};
use daily_wallpaper::state::AppState;

fn days() -> Days {
    Days {
        monday: "1".to_string(),
        tuesday: "2".to_string(),
        wednesday: "3".to_string(),
        thursday: "4".to_string(),
        friday: "5".to_string(),
        saturday: "6".to_string(),
        sunday: "7".to_string(),
    }
}

#[test]
fn each_weekday_has_its_own_default() {
    let days = days();
    assert_eq!(days.url_for(Weekday::Monday), "1");
    assert_eq!(days.url_for(Weekday::Tuesday), "2");
    assert_eq!(days.url_for(Weekday::Wednesday), "3");
    assert_eq!(days.url_for(Weekday::Thursday), "4");
    assert_eq!(days.url_for(Weekday::Friday), "5");
    assert_eq!(days.url_for(Weekday::Saturday), "6");
    assert_eq!(days.url_for(Weekday::Sunday), "7");
}

#[test]
fn empty_table_holds_nothing() {
    let table = UrlTable::new();
    assert_eq!(table.len(), 0);
    assert_eq!(table.get(&"07-04".to_string()), None);
    assert!(table.entries().is_empty());
}

#[test]
fn table_gives_back_what_was_stored() {
    let mut table = UrlTable::new();
    table.insert("07-04".to_string(), "july".to_string());
    table.insert("12-25".to_string(), "december".to_string());
    assert_eq!(table.len(), 2);
    assert_eq!(table.get(&"07-04".to_string()), Some(&"july".to_string()));
    assert_eq!(table.get(&"12-25".to_string()), Some(&"december".to_string()));
    assert_eq!(table.get(&"01-01".to_string()), None);
    assert_eq!(table.get(&"07-4".to_string()), None);
}

#[test]
fn storing_under_a_held_key_replaces_the_picture() {
    let mut table = UrlTable::new();
    table.insert("07-04".to_string(), "first".to_string());
    table.insert("12-25".to_string(), "december".to_string());
    table.insert("07-04".to_string(), "second".to_string());
    assert_eq!(table.len(), 2);
    assert_eq!(table.get(&"07-04".to_string()), Some(&"second".to_string()));
    assert_eq!(
        table.entries(),
        &vec![
            UrlEntry { key: "07-04".to_string(), url: "second".to_string() },
            UrlEntry { key: "12-25".to_string(), url: "december".to_string() },
        ]
    );
}

#[test]
fn state_starts_empty() {
    let state = AppState::new("/data".to_string());
    assert_eq!(state.config, None);
    assert_eq!(state.temp_wallpaper, None);
    assert_eq!(state.current_wallpaper_url, "");
    assert_eq!(state.app_data_dir, "/data");
    assert!(!state.wake_pending);
}

#[test]
fn wake_signals_merge_into_one() {
    let mut state = AppState::new("/data".to_string());
    assert!(!state.take_wake());
    state.signal_wake();
    state.signal_wake();
    state.signal_wake();
    assert!(state.take_wake());
    assert!(!state.take_wake());
}

#[test]
fn wake_signal_raised_while_nobody_waits_is_kept() {
    let mut state = AppState::new("/data".to_string());
    state.signal_wake();
    let before = state.clone();
    assert!(before.wake_pending);
    assert!(state.take_wake());
    state.signal_wake();
    assert!(state.take_wake());
}

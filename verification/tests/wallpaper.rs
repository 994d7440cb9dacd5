use daily_wallpaper::clock::{LocalMoment, Timestamp};
use daily_wallpaper::config::{Config, Days, UrlTable, Wallpapers};
use daily_wallpaper::file_manager::wallpaper_url_to_path;
use daily_wallpaper::state::{AppState, TempWallpaper};
use daily_wallpaper::wallpaper::{
    wait_seconds, wallpaper_step, LoopAction, LoopEvent, LoopPhase, IDLE_WAIT_SECS,
    NO_CONFIG_WAIT_SECS,
};

fn week() -> Config {
    let url = |day: &str| format!("https://pics.example/{}.jpg", day);
    Config {
        wallpapers: Wallpapers {
            days: Days {
                monday: url("mon"),
                tuesday: url("tue"),
                wednesday: url("wed"),
                thursday: url("thu"),
                friday: url("fri"),
                saturday: url("sat"),
                sunday: url("sun"),
            },
            dates: UrlTable::new(),
            periods: Vec::new(),
        },
        special_urls: UrlTable::new(),
    }
}

fn monday_noon(secs: i64) -> LocalMoment {
    LocalMoment::from_parts(secs, 0, 0, 43_200, 6, 15).unwrap()
}

fn loaded() -> AppState {
    let mut state = AppState::new("/data".to_string());
    state.config = Some(week());
    state
}

const MONDAY: &str = "https://pics.example/mon.jpg";

#[test]
fn loop_waits_while_no_schedule_is_loaded() {
    let mut state = AppState::new("/data".to_string());
    let expected = state.clone();
    let next = wallpaper_step(&mut state, LoopPhase::Idle, LoopEvent::Woke, &monday_noon(1000));
    assert_eq!(next, (LoopPhase::Idle, LoopAction::Wait { seconds: NO_CONFIG_WAIT_SECS }));
    assert_eq!(NO_CONFIG_WAIT_SECS, 300);
    assert_eq!(state, expected);
}

#[test]
fn loop_fetches_a_new_target() {
    let mut state = loaded();
    let expected = state.clone();
    let next = wallpaper_step(&mut state, LoopPhase::Idle, LoopEvent::Woke, &monday_noon(1000));
    assert_eq!(
        next,
        (
            LoopPhase::Fetching { url: MONDAY.to_string(), temporary: false },
            LoopAction::Fetch {
                url: MONDAY.to_string(),
                path: wallpaper_url_to_path("/data", MONDAY),
            }
        )
    );
    assert_eq!(state, expected);
}

#[test]
fn loop_applies_locks_and_records_in_this_order() {
    let mut state = loaded();
    let now = monday_noon(1000);
    let (phase, _) = wallpaper_step(&mut state, LoopPhase::Idle, LoopEvent::Woke, &now);
    let (phase, action) = wallpaper_step(&mut state, phase, LoopEvent::Fetched(true), &now);
    assert_eq!(phase, LoopPhase::Applying { url: MONDAY.to_string(), temporary: false });
    assert_eq!(action, LoopAction::Apply { path: wallpaper_url_to_path("/data", MONDAY) });
    assert_eq!(state.current_wallpaper_url, "");
    let (phase, action) = wallpaper_step(&mut state, phase, LoopEvent::Applied(true), &now);
    assert_eq!(phase, LoopPhase::Locking { url: MONDAY.to_string(), temporary: false });
    assert_eq!(action, LoopAction::Lock);
    assert_eq!(state.current_wallpaper_url, "");
    let (phase, action) = wallpaper_step(&mut state, phase, LoopEvent::Locked(true), &now);
    assert_eq!(phase, LoopPhase::Idle);
    assert_eq!(action, LoopAction::Wait { seconds: IDLE_WAIT_SECS });
    assert_eq!(IDLE_WAIT_SECS, 60);
    assert_eq!(state.current_wallpaper_url, MONDAY);
}

#[test]
fn failed_lock_still_records_the_applied_picture() {
    let mut state = loaded();
    let now = monday_noon(1000);
    let phase = LoopPhase::Locking { url: MONDAY.to_string(), temporary: false };
    let next = wallpaper_step(&mut state, phase, LoopEvent::Locked(false), &now);
    assert_eq!(next, (LoopPhase::Idle, LoopAction::Wait { seconds: 60 }));
    assert_eq!(state.current_wallpaper_url, MONDAY);
}

#[test]
fn failed_fetch_leaves_the_state_alone() {
    let mut state = loaded();
    state.current_wallpaper_url = "https://pics.example/sun.jpg".to_string();
    let expected = state.clone();
    let phase = LoopPhase::Fetching { url: MONDAY.to_string(), temporary: false };
    let next = wallpaper_step(&mut state, phase, LoopEvent::Fetched(false), &monday_noon(1000));
    assert_eq!(next, (LoopPhase::Idle, LoopAction::Wait { seconds: 60 }));
    assert_eq!(state, expected);
}

#[test]
fn failed_apply_leaves_the_state_alone() {
    let mut state = loaded();
    state.current_wallpaper_url = "https://pics.example/sun.jpg".to_string();
    let expected = state.clone();
    let phase = LoopPhase::Applying { url: MONDAY.to_string(), temporary: false };
    let next = wallpaper_step(&mut state, phase, LoopEvent::Applied(false), &monday_noon(1000));
    assert_eq!(next, (LoopPhase::Idle, LoopAction::Wait { seconds: 60 }));
    assert_eq!(state, expected);
}

#[test]
fn event_of_another_phase_ends_the_iteration() {
    let now = monday_noon(1000);
    let phases = [
        (LoopPhase::Fetching { url: MONDAY.to_string(), temporary: false }, LoopEvent::Applied(true)),
        (LoopPhase::Fetching { url: MONDAY.to_string(), temporary: false }, LoopEvent::Woke),
        (LoopPhase::Applying { url: MONDAY.to_string(), temporary: false }, LoopEvent::Fetched(true)),
        (LoopPhase::Applying { url: MONDAY.to_string(), temporary: false }, LoopEvent::Locked(true)),
        (LoopPhase::Locking { url: MONDAY.to_string(), temporary: false }, LoopEvent::Applied(true)),
        (LoopPhase::Locking { url: MONDAY.to_string(), temporary: false }, LoopEvent::Woke),
    ];
    for (phase, event) in phases {
        let mut state = loaded();
        let expected = state.clone();
        let next = wallpaper_step(&mut state, phase, event, &now);
        assert_eq!(next, (LoopPhase::Idle, LoopAction::Wait { seconds: 60 }));
        assert_eq!(state, expected);
    }
}

#[test]
fn any_event_starts_an_iteration_while_idle() {
    let now = monday_noon(1000);
    for event in [LoopEvent::Fetched(true), LoopEvent::Applied(false), LoopEvent::Locked(true)] {
        let mut state = loaded();
        let (phase, _) = wallpaper_step(&mut state, LoopPhase::Idle, event, &now);
        assert_eq!(phase, LoopPhase::Fetching { url: MONDAY.to_string(), temporary: false });
    }
}

#[test]
fn applied_target_is_not_fetched_again() {
    let mut state = loaded();
    state.current_wallpaper_url = MONDAY.to_string();
    let expected = state.clone();
    let now = monday_noon(1000);
    for _ in 0..3 {
        let next = wallpaper_step(&mut state, LoopPhase::Idle, LoopEvent::Woke, &now);
        assert_eq!(next, (LoopPhase::Idle, LoopAction::Wait { seconds: 60 }));
        assert_eq!(state, expected);
    }
}

#[test]
fn second_resolution_after_a_full_round_only_waits() {
    let mut state = loaded();
    let now = monday_noon(1000);
    let (phase, _) = wallpaper_step(&mut state, LoopPhase::Idle, LoopEvent::Woke, &now);
    let (phase, _) = wallpaper_step(&mut state, phase, LoopEvent::Fetched(true), &now);
    let (phase, _) = wallpaper_step(&mut state, phase, LoopEvent::Applied(true), &now);
    let (phase, _) = wallpaper_step(&mut state, phase, LoopEvent::Locked(true), &now);
    let done = state.clone();
    let next = wallpaper_step(&mut state, phase, LoopEvent::Woke, &now);
    assert_eq!(next, (LoopPhase::Idle, LoopAction::Wait { seconds: 60 }));
    assert_eq!(state, done);
}

#[test]
fn override_target_waits_until_it_expires() {
    let mut state = loaded();
    state.temp_wallpaper = Some(TempWallpaper {
        url: "https://pics.example/chosen.png".to_string(),
        expiry: Timestamp { secs: 4600, nanos: 0 },
    });
    state.current_wallpaper_url = "https://pics.example/chosen.png".to_string();
    let next = wallpaper_step(&mut state, LoopPhase::Idle, LoopEvent::Woke, &monday_noon(1000));
    assert_eq!(next, (LoopPhase::Idle, LoopAction::Wait { seconds: 3600 }));
    let last = wallpaper_step(&mut state, LoopPhase::Idle, LoopEvent::Woke, &monday_noon(4599));
    assert_eq!(last, (LoopPhase::Idle, LoopAction::Wait { seconds: 1 }));
}

#[test]
fn override_target_is_fetched_and_marked_temporary() {
    let mut state = loaded();
    state.temp_wallpaper = Some(TempWallpaper {
        url: "https://pics.example/chosen.png".to_string(),
        expiry: Timestamp { secs: 4600, nanos: 0 },
    });
    let now = monday_noon(1000);
    let (phase, action) = wallpaper_step(&mut state, LoopPhase::Idle, LoopEvent::Woke, &now);
    assert_eq!(
        phase,
        LoopPhase::Fetching { url: "https://pics.example/chosen.png".to_string(), temporary: true }
    );
    assert_eq!(
        action,
        LoopAction::Fetch {
            url: "https://pics.example/chosen.png".to_string(),
            path: wallpaper_url_to_path("/data", "https://pics.example/chosen.png"),
        }
    );
    let (_, action) = wallpaper_step(&mut state, phase, LoopEvent::Fetched(false), &now);
    assert_eq!(action, LoopAction::Wait { seconds: 3600 });
}

#[test]
fn expired_override_is_dropped_at_the_start_of_an_iteration() {
    let mut state = loaded();
    state.temp_wallpaper = Some(TempWallpaper {
        url: "https://pics.example/chosen.png".to_string(),
        expiry: Timestamp { secs: 1000, nanos: 0 },
    });
    state.current_wallpaper_url = "https://pics.example/chosen.png".to_string();
    let (phase, _) =
        wallpaper_step(&mut state, LoopPhase::Idle, LoopEvent::Woke, &monday_noon(1000));
    assert_eq!(phase, LoopPhase::Fetching { url: MONDAY.to_string(), temporary: false });
    assert_eq!(state.temp_wallpaper, None);
}

#[test]
fn wait_seconds_follows_the_override() {
    let mut state = loaded();
    let now = monday_noon(1000);
    assert_eq!(wait_seconds(&state, false, &now), 60);
    assert_eq!(wait_seconds(&state, true, &now), 60);
    state.temp_wallpaper = Some(TempWallpaper {
        url: "u".to_string(),
        expiry: Timestamp { secs: 1000 + 7200, nanos: 0 },
    });
    assert_eq!(wait_seconds(&state, true, &now), 7200);
    assert_eq!(wait_seconds(&state, false, &now), 60);
    assert_eq!(wait_seconds(&state, true, &monday_noon(9000)), 1);
}

//! Target resolution: which picture belongs on the desktop at a given moment.
//!
//! The first rule that applies decides: an override that has not expired, then
//! the first time window that holds, then the calendar date, then the weekday.

use crate::clock::{clock_time_of, local_now, parse_time, LocalMoment, Weekday, CLOCK_FORMAT};
use crate::config::{periods_view, Config, ConfigView, PeriodView, SpecialPeriod};
use crate::state::{AppState, OverrideView, StateView};
use crate::text::{digit_char, digit_to_char, lower, lowered_chars, push_char, spells};
use vstd::prelude::*;

verus! {

/// The weekday that `name` names: one of the seven English names, in capital
/// or small letters.
pub open spec fn weekday_of_name(name: Seq<char>) -> Option<Weekday> {
    let word = lower(name);
    if word == "monday"@ {
        Some(Weekday::Monday)
    } else if word == "tuesday"@ {
        Some(Weekday::Tuesday)
    } else if word == "wednesday"@ {
        Some(Weekday::Wednesday)
    } else if word == "thursday"@ {
        Some(Weekday::Thursday)
    } else if word == "friday"@ {
        Some(Weekday::Friday)
    } else if word == "saturday"@ {
        Some(Weekday::Saturday)
    } else if word == "sunday"@ {
        Some(Weekday::Sunday)
    } else {
        None
    }
}

/// The weekday that `name` names, if it names one.
pub fn weekday_from_str(name: &str) -> (weekday: Option<Weekday>)
    ensures
        weekday == weekday_of_name(name@),
{
    let word = lowered_chars(name);
    if spells(&word, "monday") {
        Some(Weekday::Monday)
    } else if spells(&word, "tuesday") {
        Some(Weekday::Tuesday)
    } else if spells(&word, "wednesday") {
        Some(Weekday::Wednesday)
    } else if spells(&word, "thursday") {
        Some(Weekday::Thursday)
    } else if spells(&word, "friday") {
        Some(Weekday::Friday)
    } else if spells(&word, "saturday") {
        Some(Weekday::Saturday)
    } else if spells(&word, "sunday") {
        Some(Weekday::Sunday)
    } else {
        None
    }
}

/// `number` written with two decimal digits; of a larger number, its last two.
pub open spec fn two_digits(number: u32) -> Seq<char> {
    seq![digit_char(((number / 10) % 10) as int), digit_char((number % 10) as int)]
}

/// The key under which a calendar date is looked up: month and day, two
/// digits each, with a `-` between them.
pub open spec fn date_key_of(month: u32, day: u32) -> Seq<char> {
    two_digits(month) + seq!['-'] + two_digits(day)
}

/// Appends `number` with two decimal digits.
fn push_two_digits(text: &mut String, number: u32)
    ensures
        final(text)@ == old(text)@ + two_digits(number),
{
    let tens: u8 = ((number / 10) % 10) as u8;
    let ones: u8 = (number % 10) as u8;
    push_char(text, digit_to_char(tens));
    push_char(text, digit_to_char(ones));
}

/// The key under which the calendar date `month`, `day` is looked up.
pub fn date_key(month: u32, day: u32) -> (key: String)
    ensures
        key@ == date_key_of(month, day),
{
    let mut key = String::new();
    push_two_digits(&mut key, month);
    push_char(&mut key, '-');
    push_two_digits(&mut key, day);
    key
}

/// A time window as the resolver compares it: the weekday and the two clock
/// times in seconds from midnight, each `None` where its text could not be
/// read.
#[derive(Clone, Copy, Debug, PartialEq, Eq, Structural)]
pub struct PeriodWindow {
    pub day: Option<Weekday>,
    pub start: Option<u32>,
    pub end: Option<u32>,
}

impl PeriodWindow {
    /// The window holds on `weekday` at `second_of_day`: the weekday is the
    /// window's, and the time lies at or after its start and before its end.
    /// A window with a part that could not be read never holds.
    pub open spec fn covers(self, weekday: Weekday, second_of_day: u32) -> bool {
        &&& self.day == Some(weekday)
        &&& self.start matches Some(start)
        &&& self.end matches Some(end)
        &&& start <= second_of_day < end
    }

    /// Tells whether the window holds on `weekday` at `second_of_day`.
    pub fn contains(&self, weekday: Weekday, second_of_day: u32) -> (inside: bool)
        ensures
            inside == self.covers(weekday, second_of_day),
    {
        match (self.day, self.start, self.end) {
            (Some(day), Some(start), Some(end)) => day == weekday && start <= second_of_day
                && second_of_day < end,
            _ => false,
        }
    }
}

/// The window that a period of the schedule describes.
pub open spec fn window_of(period: PeriodView) -> PeriodWindow {
    PeriodWindow {
        day: weekday_of_name(period.day),
        start: clock_time_of(period.start),
        end: clock_time_of(period.end),
    }
}

/// The windows of a sequence of periods, in their order.
pub open spec fn windows_of(periods: Seq<PeriodView>) -> Seq<PeriodWindow> {
    periods.map_values(|period: PeriodView| window_of(period))
}

/// Reads the window that `period` describes.
pub fn period_window(period: &SpecialPeriod) -> (window: PeriodWindow)
    ensures
        window == window_of(period@),
{
    PeriodWindow {
        day: weekday_from_str(period.day.as_str()),
        start: parse_time(period.start.as_str(), CLOCK_FORMAT),
        end: parse_time(period.end.as_str(), CLOCK_FORMAT),
    }
}

/// Reads the windows of `periods`, in their order.
pub fn period_windows(periods: &Vec<SpecialPeriod>) -> (windows: Vec<PeriodWindow>)
    ensures
        windows@ == windows_of(periods_view(periods@)),
{
    let mut windows: Vec<PeriodWindow> = Vec::new();
    let mut i: usize = 0;
    while i < periods.len()
        invariant
            i <= periods.len(),
            windows@ == windows_of(periods_view(periods@)).take(i as int),
        decreases periods.len() - i,
    {
        windows.push(period_window(&periods[i]));
        i += 1;
    }
    windows
}

/// The first index at or after `from` whose window holds.
pub open spec fn first_covering_from(
    windows: Seq<PeriodWindow>,
    from: int,
    weekday: Weekday,
    second_of_day: u32,
) -> Option<int>
    decreases windows.len() - from,
{
    if from < 0 || from >= windows.len() {
        None
    } else if windows[from].covers(weekday, second_of_day) {
        Some(from)
    } else {
        first_covering_from(windows, from + 1, weekday, second_of_day)
    }
}

/// The first index whose window holds.
pub open spec fn first_covering(
    windows: Seq<PeriodWindow>,
    weekday: Weekday,
    second_of_day: u32,
) -> Option<int> {
    first_covering_from(windows, 0, weekday, second_of_day)
}

/// `first_covering_from` finds a window that holds, with none holding between
/// `from` and it; it finds none only where none holds from `from` on.
pub proof fn lemma_first_covering_from(
    windows: Seq<PeriodWindow>,
    from: int,
    weekday: Weekday,
    second_of_day: u32,
)
    requires
        0 <= from,
    ensures
        match first_covering_from(windows, from, weekday, second_of_day) {
            Some(found) => {
                &&& from <= found < windows.len()
                &&& windows[found].covers(weekday, second_of_day)
                &&& forall|j: int| from <= j < found ==> !windows[j].covers(weekday, second_of_day)
            },
            None => forall|j: int|
                from <= j < windows.len() ==> !windows[j].covers(weekday, second_of_day),
        },
    decreases windows.len() - from,
{
    if from < windows.len() && !windows[from].covers(weekday, second_of_day) {
        lemma_first_covering_from(windows, from + 1, weekday, second_of_day);
    }
}

/// The index of the first window that holds on `weekday` at `second_of_day`.
pub fn first_covering_index(
    windows: &Vec<PeriodWindow>,
    weekday: Weekday,
    second_of_day: u32,
) -> (index: Option<usize>)
    ensures
        match index {
            Some(found) => first_covering(windows@, weekday, second_of_day) == Some(found as int),
            None => first_covering(windows@, weekday, second_of_day) is None,
        },
{
    let mut i: usize = 0;
    while i < windows.len()
        invariant
            i <= windows.len(),
            first_covering(windows@, weekday, second_of_day) == first_covering_from(
                windows@,
                i as int,
                weekday,
                second_of_day,
            ),
        decreases windows.len() - i,
    {
        if windows[i].contains(weekday, second_of_day) {
            return Some(i);
        }
        i += 1;
    }
    None
}

/// The picture that the schedule gives for `now`: that of the first window
/// that holds; else that of the calendar date; else that of the weekday.
pub open spec fn scheduled_url(config: ConfigView, now: LocalMoment) -> Seq<char> {
    let periods = config.wallpapers.periods;
    match first_covering(windows_of(periods), now.weekday, now.second_of_day) {
        Some(index) => periods[index].url,
        None => {
            let key = date_key_of(now.month, now.day);
            if config.wallpapers.dates.contains_key(key) {
                config.wallpapers.dates[key]
            } else {
                config.wallpapers.days.on(now.weekday)
            }
        },
    }
}

/// The picture that the schedule `config` gives for `now`.
pub fn scheduled_target(config: &Config, now: &LocalMoment) -> (url: String)
    ensures
        url@ == scheduled_url(config@, *now),
{
    let periods = &config.wallpapers.periods;
    let windows = period_windows(periods);
    match first_covering_index(&windows, now.weekday, now.second_of_day) {
        Some(index) => {
            proof {
                lemma_first_covering_from(windows@, 0, now.weekday, now.second_of_day);
            }
            periods[index].url.clone()
        },
        None => {
            let key = date_key(now.month, now.day);
            match config.wallpapers.dates.get(&key) {
                Some(url) => url.clone(),
                None => config.wallpapers.days.url_for(now.weekday).clone(),
            }
        },
    }
}

/// The override is set and `now` lies before its expiry.
pub open spec fn override_active(temp: Option<OverrideView>, now: LocalMoment) -> bool {
    temp matches Some(chosen) && now.at.is_before(chosen.expiry)
}

/// The picture for `now` and whether it comes from the override; `None` where
/// no override is active and no schedule has been loaded.
pub open spec fn resolved(state: StateView, now: LocalMoment) -> Option<(Seq<char>, bool)> {
    if override_active(state.temp_wallpaper, now) {
        Some((state.temp_wallpaper->0.url, true))
    } else {
        match state.config {
            Some(config) => Some((scheduled_url(config, now), false)),
            None => None,
        }
    }
}

/// The state after a resolution at `now`: an override that is not active is
/// gone, everything else is as before.
pub open spec fn after_resolution(state: StateView, now: LocalMoment) -> StateView {
    StateView {
        temp_wallpaper: if override_active(state.temp_wallpaper, now) {
            state.temp_wallpaper
        } else {
            None
        },
        ..state
    }
}

/// The text and the flag of a resolved target.
pub open spec fn target_view(target: Option<(String, bool)>) -> Option<(Seq<char>, bool)> {
    match target {
        Some((url, temporary)) => Some((url@, temporary)),
        None => None,
    }
}

/// Resolves the target for the moment `now`, and drops the override where it
/// is no longer active.
pub fn resolve_target(state: &mut AppState, now: &LocalMoment) -> (target: Option<(String, bool)>)
    ensures
        target_view(target) == resolved(old(state)@, *now),
        final(state)@ == after_resolution(old(state)@, *now),
{
    let active = match &state.temp_wallpaper {
        Some(chosen) => now.at.before(&chosen.expiry),
        None => false,
    };
    if active {
        match &state.temp_wallpaper {
            Some(chosen) => Some((chosen.url.clone(), true)),
            None => None,
        }
    } else {
        state.temp_wallpaper = None;
        match &state.config {
            Some(config) => Some((scheduled_target(config, now), false)),
            None => None,
        }
    }
}

/// One resolution at `now` leads from the state `before` to the state `after`
/// and gives `target`.
pub open spec fn resolves(
    before: StateView,
    now: LocalMoment,
    after: StateView,
    target: Option<(Seq<char>, bool)>,
) -> bool {
    target == resolved(before, now) && after == after_resolution(before, now)
}

/// Resolves the target for the present moment on the local clock.
///
/// The moment is whatever the clock shows; the result is the resolution for
/// that moment.
pub fn determine_target_url(state: &mut AppState) -> (target: Option<(String, bool)>)
    ensures
        exists|now: LocalMoment|
            now.wf() && #[trigger] resolves(old(state)@, now, final(state)@, target_view(target)),
{
    let now = local_now();
    let target = resolve_target(state, &now);
    assert(resolves(old(state)@, now, state@, target_view(target)));
    target
}

/// With no override, no time windows and no dated pictures, the resolution is
/// exactly the default picture of the weekday.
pub proof fn lemma_plain_schedule_gives_weekday_default(state: StateView, now: LocalMoment)
    requires
        state.temp_wallpaper is None,
        state.config is Some,
        state.config->0.wallpapers.periods.len() == 0,
        state.config->0.wallpapers.dates == Map::<Seq<char>, Seq<char>>::empty(),
    ensures
        resolved(state, now) == Some((state.config->0.wallpapers.days.on(now.weekday), false)),
{
}

/// An override that has not expired decides the resolution, whatever the
/// schedule holds and whether or not one is loaded.
pub proof fn lemma_active_override_wins(state: StateView, now: LocalMoment)
    requires
        state.temp_wallpaper is Some,
        now.at.is_before(state.temp_wallpaper->0.expiry),
    ensures
        resolved(state, now) == Some((state.temp_wallpaper->0.url, true)),
        after_resolution(state, now) == state,
{
}

/// The first resolution that sees an expired override drops it and resolves
/// by the schedule; a second resolution at the same moment finds no override,
/// changes nothing and resolves to the same target.
pub proof fn lemma_expired_override_is_dropped_once(state: StateView, now: LocalMoment)
    requires
        state.temp_wallpaper is Some,
        !now.at.is_before(state.temp_wallpaper->0.expiry),
    ensures
        ({
            let after = after_resolution(state, now);
            &&& after.temp_wallpaper is None
            &&& resolved(state, now) == match state.config {
                Some(config) => Some((scheduled_url(config, now), false)),
                None => None,
            }
            &&& after_resolution(after, now) == after
            &&& resolved(after, now) == resolved(state, now)
        }),
{
}

/// Of the time windows that hold, the one that stands first in the schedule
/// decides, whatever windows hold after it.
pub proof fn lemma_first_window_wins(config: ConfigView, now: LocalMoment, first: int, second: int)
    requires
        0 <= first < second < config.wallpapers.periods.len(),
        window_of(config.wallpapers.periods[first]).covers(now.weekday, now.second_of_day),
        window_of(config.wallpapers.periods[second]).covers(now.weekday, now.second_of_day),
        forall|k: int|
            0 <= k < first ==> !window_of(#[trigger] config.wallpapers.periods[k]).covers(
                now.weekday,
                now.second_of_day,
            ),
    ensures
        scheduled_url(config, now) == config.wallpapers.periods[first].url,
{
    let windows = windows_of(config.wallpapers.periods);
    lemma_first_covering_from(windows, 0, now.weekday, now.second_of_day);
    assert(windows[first].covers(now.weekday, now.second_of_day));
}

/// Where no time window holds, a picture stored for the calendar date decides,
/// whatever the default of the weekday is.
pub proof fn lemma_date_beats_weekday_default(config: ConfigView, now: LocalMoment)
    requires
        first_covering(
            windows_of(config.wallpapers.periods),
            now.weekday,
            now.second_of_day,
        ) is None,
        config.wallpapers.dates.contains_key(date_key_of(now.month, now.day)),
    ensures
        scheduled_url(config, now) == config.wallpapers.dates[date_key_of(now.month, now.day)],
{
}

/// The key of the fourth of July is `07-04`.
pub proof fn lemma_date_key_of_fourth_of_july()
    ensures
        date_key_of(7, 4) == "07-04"@,
{
    reveal_strlit("07-04");
}

} // verus!

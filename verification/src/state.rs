//! The state that the loops and the control interface share.

use crate::clock::Timestamp;
use crate::config::{config_view, Config, ConfigView};
use vstd::prelude::*;

verus! {

/// A picture chosen by hand that takes precedence over the schedule until
/// `expiry`.
#[derive(Clone, Debug, PartialEq, Eq)]
pub struct TempWallpaper {
    pub url: String,
    pub expiry: Timestamp,
}

/// An override, as a mathematical value.
pub struct OverrideView {
    pub url: Seq<char>,
    pub expiry: Timestamp,
}

impl View for TempWallpaper {
    type V = OverrideView;

    open spec fn view(&self) -> OverrideView {
        OverrideView { url: self.url@, expiry: self.expiry }
    }
}

/// The override that is set, as a mathematical value.
pub open spec fn override_view(temp: Option<TempWallpaper>) -> Option<OverrideView> {
    match temp {
        Some(chosen) => Some(chosen@),
        None => None,
    }
}

/// Everything the loops share. It is built once at start and handed to every
/// loop and handler; whoever holds it holds it for a field read or write only.
#[derive(Clone, Debug, PartialEq, Eq)]
pub struct AppState {
    /// The schedule; `None` until one has been loaded.
    pub config: Option<Config>,
    /// The override chosen by hand, if one is set.
    pub temp_wallpaper: Option<TempWallpaper>,
    /// The picture last put on the desktop; empty until the first one.
    pub current_wallpaper_url: String,
    /// The directory that holds the cached pictures, the schedule and the logs.
    pub app_data_dir: String,
    /// The wake signal: set by whoever changes the state, taken by the
    /// wallpaper loop. It is one slot, so signals that nobody has taken yet
    /// merge into one.
    pub wake_pending: bool,
}

/// The shared state, as a mathematical value.
pub struct StateView {
    pub config: Option<ConfigView>,
    pub temp_wallpaper: Option<OverrideView>,
    pub current_wallpaper_url: Seq<char>,
    pub app_data_dir: Seq<char>,
    pub wake_pending: bool,
}

impl View for AppState {
    type V = StateView;

    open spec fn view(&self) -> StateView {
        StateView {
            config: config_view(self.config),
            temp_wallpaper: override_view(self.temp_wallpaper),
            current_wallpaper_url: self.current_wallpaper_url@,
            app_data_dir: self.app_data_dir@,
            wake_pending: self.wake_pending,
        }
    }
}

impl StateView {
    /// The state at start: nothing loaded, nothing applied, no signal.
    pub open spec fn initial(app_data_dir: Seq<char>) -> StateView {
        StateView {
            config: None,
            temp_wallpaper: None,
            current_wallpaper_url: Seq::empty(),
            app_data_dir,
            wake_pending: false,
        }
    }
}

impl AppState {
    /// The state at start: nothing loaded, nothing applied, no signal.
    pub fn new(app_data_dir: String) -> (state: AppState)
        ensures
            state@ == StateView::initial(app_data_dir@),
    {
        AppState {
            config: None,
            temp_wallpaper: None,
            current_wallpaper_url: String::new(),
            app_data_dir,
            wake_pending: false,
        }
    }

    /// Raises the wake signal. Raising it again before it is taken changes
    /// nothing.
    pub fn signal_wake(&mut self)
        ensures
            final(self)@ == (StateView { wake_pending: true, ..old(self)@ }),
    {
        self.wake_pending = true;
    }

    /// Takes the wake signal: tells whether it was raised since it was last
    /// taken, and lowers it.
    pub fn take_wake(&mut self) -> (woken: bool)
        ensures
            woken == old(self)@.wake_pending,
            final(self)@ == (StateView { wake_pending: false, ..old(self)@ }),
    {
        let woken = self.wake_pending;
        self.wake_pending = false;
        woken
    }
}

/// However often the wake signal is raised before it is taken, it is taken
/// once: signals merge, and none is lost.
pub proof fn lemma_wake_signals_merge(state: StateView)
    ensures
        ({
            let once = StateView { wake_pending: true, ..state };
            let twice = StateView { wake_pending: true, ..once };
            let taken = StateView { wake_pending: false, ..twice };
            &&& twice == once
            &&& twice.wake_pending
            &&& !taken.wake_pending
        }),
{
}

} // verus!

//! The wallpaper loop as a state machine.
//!
//! The loop itself sleeps, downloads and talks to the desktop; what it does
//! next is decided here. The caller hands in what happened and gets back what
//! to do: wait, fetch a picture into the cache, put it on the desktop, or lock
//! the desktop's wallpaper setting. The applied picture is recorded only after
//! the picture was fetched, applied and the lock was attempted, in this order.

use crate::clock::LocalMoment;
use crate::file_manager::{wallpaper_path_of, wallpaper_url_to_path};
use crate::schedule::{after_resolution, resolve_target, resolved};
use crate::state::{AppState, StateView};
use vstd::prelude::*;

verus! {

/// Seconds to wait between two looks at the schedule.
pub const IDLE_WAIT_SECS: u64 = 60;

/// Seconds to wait while no schedule is loaded.
pub const NO_CONFIG_WAIT_SECS: u64 = 300;

/// What the loop is in the middle of.
#[derive(Clone, Debug, PartialEq, Eq)]
pub enum LoopPhase {
    /// Waiting for the timer or the wake signal.
    Idle,
    /// The picture at `url` is being fetched into the cache.
    Fetching { url: String, temporary: bool },
    /// The cached picture of `url` is being put on the desktop.
    Applying { url: String, temporary: bool },
    /// The desktop's wallpaper setting is being locked.
    Locking { url: String, temporary: bool },
}

/// What happened since the last step.
#[derive(Clone, Copy, Debug, PartialEq, Eq, Structural)]
pub enum LoopEvent {
    /// The wait ended, by the timer or by the wake signal.
    Woke,
    /// The fetch ended; `true` where the picture is now in the cache.
    Fetched(bool),
    /// The desktop was asked to show the picture; `true` where it does.
    Applied(bool),
    /// The lock was attempted; `true` where it holds.
    Locked(bool),
}

/// What the loop is to do next.
#[derive(Clone, Debug, PartialEq, Eq)]
pub enum LoopAction {
    /// Wait for `seconds` seconds or for the wake signal, whichever comes
    /// first.
    Wait { seconds: u64 },
    /// Fetch the picture at `url` into the file `path`, unless it is there.
    Fetch { url: String, path: String },
    /// Put the picture in the file `path` on the desktop.
    Apply { path: String },
    /// Lock the desktop's wallpaper setting.
    Lock,
}

/// A phase with its texts as sequences of characters.
pub enum PhaseView {
    Idle,
    Fetching { url: Seq<char>, temporary: bool },
    Applying { url: Seq<char>, temporary: bool },
    Locking { url: Seq<char>, temporary: bool },
}

/// An action with its texts as sequences of characters.
pub enum ActionView {
    Wait { seconds: u64 },
    Fetch { url: Seq<char>, path: Seq<char> },
    Apply { path: Seq<char> },
    Lock,
}

impl View for LoopPhase {
    type V = PhaseView;

    open spec fn view(&self) -> PhaseView {
        match *self {
            LoopPhase::Idle => PhaseView::Idle,
            LoopPhase::Fetching { url, temporary } => PhaseView::Fetching { url: url@, temporary },
            LoopPhase::Applying { url, temporary } => PhaseView::Applying { url: url@, temporary },
            LoopPhase::Locking { url, temporary } => PhaseView::Locking { url: url@, temporary },
        }
    }
}

impl View for LoopAction {
    type V = ActionView;

    open spec fn view(&self) -> ActionView {
        match *self {
            LoopAction::Wait { seconds } => ActionView::Wait { seconds },
            LoopAction::Fetch { url, path } => ActionView::Fetch { url: url@, path: path@ },
            LoopAction::Apply { path } => ActionView::Apply { path: path@ },
            LoopAction::Lock => ActionView::Lock,
        }
    }
}

/// Seconds to wait after an iteration: for a target from the override, the
/// whole seconds until it expires, one at least; else the fixed interval.
pub open spec fn wait_after(state: StateView, temporary: bool, now: LocalMoment) -> u64 {
    if temporary && state.temp_wallpaper is Some {
        now.at.wait_until(state.temp_wallpaper->0.expiry) as u64
    } else {
        IDLE_WAIT_SECS
    }
}

/// The file that caches the picture at `url`.
pub open spec fn path_for(state: StateView, url: Seq<char>) -> Seq<char> {
    wallpaper_path_of(state.app_data_dir, url)
}

/// The step that ends an iteration without a change of state: the loop goes
/// idle and waits.
pub open spec fn iteration_ends(state: StateView, temporary: bool, now: LocalMoment) -> (
    StateView,
    PhaseView,
    ActionView,
) {
    (state, PhaseView::Idle, ActionView::Wait { seconds: wait_after(state, temporary, now) })
}

/// One step of the loop: the state, the phase and the action that follow from
/// a state, a phase and an event at the moment `now`.
///
/// While idle, any event starts an iteration: the target is resolved, and it
/// is fetched only where it differs from the applied picture. In the other
/// phases only the success the phase waits for leads on; anything else ends
/// the iteration and leaves the applied picture as it is. The applied picture
/// changes in one place: when the lock attempt has ended.
pub open spec fn loop_step(
    state: StateView,
    phase: PhaseView,
    event: LoopEvent,
    now: LocalMoment,
) -> (StateView, PhaseView, ActionView) {
    match phase {
        PhaseView::Idle => {
            let after = after_resolution(state, now);
            match resolved(state, now) {
                None => (after, PhaseView::Idle, ActionView::Wait { seconds: NO_CONFIG_WAIT_SECS }),
                Some((url, temporary)) => if url == state.current_wallpaper_url {
                    iteration_ends(after, temporary, now)
                } else {
                    (
                        after,
                        PhaseView::Fetching { url, temporary },
                        ActionView::Fetch { url, path: path_for(state, url) },
                    )
                },
            }
        },
        PhaseView::Fetching { url, temporary } => if event == LoopEvent::Fetched(true) {
            (
                state,
                PhaseView::Applying { url, temporary },
                ActionView::Apply { path: path_for(state, url) },
            )
        } else {
            iteration_ends(state, temporary, now)
        },
        PhaseView::Applying { url, temporary } => if event == LoopEvent::Applied(true) {
            (state, PhaseView::Locking { url, temporary }, ActionView::Lock)
        } else {
            iteration_ends(state, temporary, now)
        },
        PhaseView::Locking { url, temporary } => if event is Locked {
            (
                StateView { current_wallpaper_url: url, ..state },
                PhaseView::Idle,
                ActionView::Wait { seconds: wait_after(state, temporary, now) },
            )
        } else {
            iteration_ends(state, temporary, now)
        },
    }
}

/// Seconds to wait after an iteration whose target was `temporary`.
pub fn wait_seconds(state: &AppState, temporary: bool, now: &LocalMoment) -> (seconds: u64)
    ensures
        seconds == wait_after(state@, temporary, *now),
{
    if temporary {
        match &state.temp_wallpaper {
            Some(chosen) => now.at.seconds_until(&chosen.expiry),
            None => IDLE_WAIT_SECS,
        }
    } else {
        IDLE_WAIT_SECS
    }
}

/// Ends an iteration: the loop goes idle and waits.
fn end_iteration(state: &AppState, temporary: bool, now: &LocalMoment) -> (next: (
    LoopPhase,
    LoopAction,
))
    ensures
        next.0@ == PhaseView::Idle,
        next.1@ == (ActionView::Wait { seconds: wait_after(state@, temporary, *now) }),
{
    (LoopPhase::Idle, LoopAction::Wait { seconds: wait_seconds(state, temporary, now) })
}

/// Starts an iteration: resolves the target and asks for it to be fetched
/// where it is not the applied picture.
fn begin_iteration(state: &mut AppState, now: &LocalMoment) -> (next: (LoopPhase, LoopAction))
    ensures
        ({
            let step = loop_step(old(state)@, PhaseView::Idle, LoopEvent::Woke, *now);
            &&& final(state)@ == step.0
            &&& next.0@ == step.1
            &&& next.1@ == step.2
        }),
{
    match resolve_target(state, now) {
        None => (LoopPhase::Idle, LoopAction::Wait { seconds: NO_CONFIG_WAIT_SECS }),
        Some((url, temporary)) => {
            if url == state.current_wallpaper_url {
                (LoopPhase::Idle, LoopAction::Wait { seconds: wait_seconds(state, temporary, now) })
            } else {
                let path = wallpaper_url_to_path(state.app_data_dir.as_str(), url.as_str());
                let wanted = url.clone();
                (LoopPhase::Fetching { url, temporary }, LoopAction::Fetch { url: wanted, path })
            }
        },
    }
}

/// Decides what the wallpaper loop does next.
///
/// `phase` is what the loop was in the middle of, `event` what happened, and
/// `now` the present moment. The state is changed and the next phase and
/// action are returned as `loop_step` says.
pub fn wallpaper_step(
    state: &mut AppState,
    phase: LoopPhase,
    event: LoopEvent,
    now: &LocalMoment,
) -> (next: (LoopPhase, LoopAction))
    ensures
        ({
            let step = loop_step(old(state)@, phase@, event, *now);
            &&& final(state)@ == step.0
            &&& next.0@ == step.1
            &&& next.1@ == step.2
        }),
{
    match phase {
        LoopPhase::Idle => begin_iteration(state, now),
        LoopPhase::Fetching { url, temporary } => match event {
            LoopEvent::Fetched(true) => {
                let path = wallpaper_url_to_path(state.app_data_dir.as_str(), url.as_str());
                (LoopPhase::Applying { url, temporary }, LoopAction::Apply { path })
            },
            _ => end_iteration(state, temporary, now),
        },
        LoopPhase::Applying { url, temporary } => match event {
            LoopEvent::Applied(true) => (LoopPhase::Locking { url, temporary }, LoopAction::Lock),
            _ => end_iteration(state, temporary, now),
        },
        LoopPhase::Locking { url, temporary } => match event {
            LoopEvent::Locked(_) => {
                let seconds = wait_seconds(state, temporary, now);
                state.current_wallpaper_url = url;
                (LoopPhase::Idle, LoopAction::Wait { seconds })
            },
            _ => end_iteration(state, temporary, now),
        },
    }
}

/// Where the resolved target is the applied picture, an iteration fetches
/// nothing and applies nothing: the loop stays idle and waits, and the applied
/// picture stays as it is.
pub proof fn lemma_applied_target_is_left_alone(
    state: StateView,
    event: LoopEvent,
    now: LocalMoment,
)
    requires
        resolved(state, now) matches Some(target) && target.0 == state.current_wallpaper_url,
    ensures
        loop_step(state, PhaseView::Idle, event, now).1 is Idle,
        loop_step(state, PhaseView::Idle, event, now).2 is Wait,
        loop_step(state, PhaseView::Idle, event, now).0.current_wallpaper_url
            == state.current_wallpaper_url,
{
}

/// After a target was fetched, applied and locked, the loop records it; a
/// wake at the same moment with nothing else changed then only waits.
pub proof fn lemma_second_resolution_does_nothing(
    state: StateView,
    now: LocalMoment,
    url: Seq<char>,
    temporary: bool,
    locked: bool,
)
    requires
        resolved(state, now) == Some((url, temporary)),
    ensures
        ({
            let started = loop_step(state, PhaseView::Idle, LoopEvent::Woke, now).0;
            let done = loop_step(
                started,
                PhaseView::Locking { url, temporary },
                LoopEvent::Locked(locked),
                now,
            ).0;
            let again = loop_step(done, PhaseView::Idle, LoopEvent::Woke, now);
            &&& done.current_wallpaper_url == url
            &&& again.0 == done
            &&& again.1 is Idle
            &&& again.2 is Wait
        }),
{
}

/// The applied picture changes only when a lock attempt has ended; a failed
/// fetch or a failed apply leaves the whole state as it is.
pub proof fn lemma_applied_picture_changes_only_after_lock(
    state: StateView,
    phase: PhaseView,
    event: LoopEvent,
    now: LocalMoment,
)
    ensures
        !(phase is Locking && event is Locked) ==> loop_step(
            state,
            phase,
            event,
            now,
        ).0.current_wallpaper_url == state.current_wallpaper_url,
        !(phase is Idle) && !(phase is Locking && event is Locked) ==> loop_step(
            state,
            phase,
            event,
            now,
        ).0 == state,
        phase is Fetching && event != LoopEvent::Fetched(true) ==> loop_step(
            state,
            phase,
            event,
            now,
        ).2 is Wait,
        phase is Applying && event != LoopEvent::Applied(true) ==> loop_step(
            state,
            phase,
            event,
            now,
        ).2 is Wait,
{
}

/// A wait is never shorter than one second.
pub proof fn lemma_wait_is_positive(state: StateView, temporary: bool, now: LocalMoment)
    ensures
        wait_after(state, temporary, now) >= 1,
{
}

} // verus!

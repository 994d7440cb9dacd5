//! The control interface: setting an override by hand, and writing text into
//! the status page.

use crate::clock::{lemma_hours_fit_after_reading, local_now, LocalMoment, Timestamp};
use crate::state::{AppState, OverrideView, StateView, TempWallpaper};
use crate::text::{chars_of, decimal_of, push_char, push_decimal};
use vstd::prelude::*;

verus! {

/// Hours an override lasts where the request names none.
pub const DEFAULT_HOURS: u32 = 1;

/// A request to show the picture at `url` for `hours` hours.
#[derive(Clone, Debug, PartialEq, Eq)]
pub struct TempWallpaperPayload {
    pub url: String,
    pub hours: Option<u32>,
}

/// A request, as a mathematical value.
pub struct PayloadView {
    pub url: Seq<char>,
    pub hours: Option<u32>,
}

impl PayloadView {
    /// The hours the override is to last.
    pub open spec fn lasting(self) -> u32 {
        match self.hours {
            Some(hours) => hours,
            None => DEFAULT_HOURS,
        }
    }
}

impl View for TempWallpaperPayload {
    type V = PayloadView;

    open spec fn view(&self) -> PayloadView {
        PayloadView { url: self.url@, hours: self.hours }
    }
}

/// The answer to a request: whether it was carried out, and a sentence for the
/// person who made it.
#[derive(Clone, Debug, PartialEq, Eq)]
pub struct ApiResponse {
    pub success: bool,
    pub message: String,
}

/// An answer, as a mathematical value.
pub struct ResponseView {
    pub success: bool,
    pub message: Seq<char>,
}

impl View for ApiResponse {
    type V = ResponseView;

    open spec fn view(&self) -> ResponseView {
        ResponseView { success: self.success, message: self.message@ }
    }
}

/// The sentence that confirms an override.
pub open spec fn confirmation_of(url: Seq<char>, hours: u32) -> Seq<char> {
    "Temporary wallpaper set to "@ + url + " for "@ + decimal_of(hours as nat) + " hours."@
}

/// The sentence that refuses an override whose expiry cannot be represented.
pub open spec fn refusal() -> Seq<char> {
    "The requested duration is too long."@
}

/// What the request `payload`, made at `now`, does to `state`, and the answer
/// to it.
///
/// Where the expiry, `now` plus the hours asked for, can be represented, the
/// override is set with that expiry in place of any earlier one, the wake
/// signal is raised and the answer confirms it. Otherwise the state stays as
/// it is and the answer refuses.
pub open spec fn override_request(state: StateView, payload: PayloadView, now: Timestamp) -> (
    StateView,
    ResponseView,
) {
    match now.hours_later(payload.lasting()) {
        Some(expiry) => (
            StateView {
                temp_wallpaper: Some(OverrideView { url: payload.url, expiry }),
                wake_pending: true,
                ..state
            },
            ResponseView {
                success: true,
                message: confirmation_of(payload.url, payload.lasting()),
            },
        ),
        None => (state, ResponseView { success: false, message: refusal() }),
    }
}

/// Sets the override that `payload` asks for, counted from the instant `now`.
pub fn set_temp_wallpaper(
    state: &mut AppState,
    payload: &TempWallpaperPayload,
    now: &Timestamp,
) -> (response: ApiResponse)
    ensures
        (final(state)@, response@) == override_request(old(state)@, payload@, *now),
{
    let hours = match payload.hours {
        Some(hours) => hours,
        None => DEFAULT_HOURS,
    };
    match now.plus_hours(hours) {
        Some(expiry) => {
            state.temp_wallpaper = Some(TempWallpaper { url: payload.url.clone(), expiry });
            state.wake_pending = true;
            let mut message = "Temporary wallpaper set to ".to_owned();
            message.append(payload.url.as_str());
            message.append(" for ");
            push_decimal(&mut message, hours);
            message.append(" hours.");
            ApiResponse { success: true, message }
        },
        None => ApiResponse {
            success: false,
            message: "The requested duration is too long.".to_owned(),
        },
    }
}

/// The request `payload`, made at the moment `now`, leads from the state
/// `before` to the state `after` with the answer `response`.
pub open spec fn answers(
    before: StateView,
    payload: PayloadView,
    now: LocalMoment,
    after: StateView,
    response: ResponseView,
) -> bool {
    (after, response) == override_request(before, payload, now.at)
}

/// Sets the override that `payload` asks for, counted from the present moment
/// on the local clock.
///
/// The request is always carried out: from a moment that the clock shows, any
/// number of hours can be counted. The override is set in place of any
/// earlier one, the wake signal is raised, the rest of the state stays as it
/// is, and the answer confirms the request. The expiry is the moment read
/// plus the hours asked for.
pub fn handle_set_temp_wallpaper(state: &mut AppState, payload: &TempWallpaperPayload) -> (response:
    ApiResponse)
    ensures
        exists|now: LocalMoment|
            now.wf() && #[trigger] answers(old(state)@, payload@, now, final(state)@, response@),
        response@ == (ResponseView {
            success: true,
            message: confirmation_of(payload@.url, payload@.lasting()),
        }),
        final(state)@.temp_wallpaper matches Some(chosen) && chosen.url == payload@.url,
        final(state)@.wake_pending,
        final(state)@.config == old(state)@.config,
        final(state)@.current_wallpaper_url == old(state)@.current_wallpaper_url,
        final(state)@.app_data_dir == old(state)@.app_data_dir,
{
    let now = local_now();
    proof {
        lemma_hours_fit_after_reading(now, payload@.lasting());
    }
    let response = set_temp_wallpaper(state, payload, &now.at);
    assert(answers(old(state)@, payload@, now, state@, response@));
    response
}

/// A new override takes the place of the one that was set: after two requests
/// the state is as if only the second had been made.
pub proof fn lemma_new_override_replaces_old(
    state: StateView,
    first: PayloadView,
    second: PayloadView,
    now: Timestamp,
)
    requires
        now.hours_later(second.lasting()) is Some,
    ensures
        override_request(override_request(state, first, now).0, second, now).0 == override_request(
            state,
            second,
            now,
        ).0,
{
}

/// What stands for `c` in HTML text: an entity for `&`, `<`, `>`, `"` and
/// `'`, and the character itself otherwise.
pub open spec fn escaped_char(c: char) -> Seq<char> {
    if c == '&' {
        "&amp;"@
    } else if c == '<' {
        "&lt;"@
    } else if c == '>' {
        "&gt;"@
    } else if c == '"' {
        "&quot;"@
    } else if c == '\'' {
        "&#39;"@
    } else {
        seq![c]
    }
}

/// `s` with each character replaced by what stands for it in HTML text.
pub open spec fn escaped(s: Seq<char>) -> Seq<char>
    decreases s.len(),
{
    if s.len() == 0 {
        Seq::empty()
    } else {
        escaped(s.drop_last()) + escaped_char(s.last())
    }
}

/// Writes `s` as HTML text: `&`, `<`, `>`, `"` and `'` become entities.
pub fn html_escape(s: &str) -> (text: String)
    ensures
        text@ == escaped(s@),
{
    let chars = chars_of(s);
    let mut text = String::new();
    let mut i: usize = 0;
    while i < chars.len()
        invariant
            i <= chars.len(),
            text@ == escaped(chars@.take(i as int)),
        decreases chars.len() - i,
    {
        let c = chars[i];
        assert(chars@.take(i + 1).drop_last() == chars@.take(i as int));
        if c == '&' {
            text.append("&amp;");
        } else if c == '<' {
            text.append("&lt;");
        } else if c == '>' {
            text.append("&gt;");
        } else if c == '"' {
            text.append("&quot;");
        } else if c == '\'' {
            text.append("&#39;");
        } else {
            push_char(&mut text, c);
        }
        i += 1;
    }
    assert(chars@.take(i as int) == chars@);
    text
}

} // verus!

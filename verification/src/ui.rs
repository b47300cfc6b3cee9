//! The UI controller: a single-threaded state machine over window lifecycle
//! events, and the classification of the configuration view's navigations.

use crate::config::Config;
use crate::config::ConfigView;
use crate::text::{
    contains_seq,
    find_char,
    find_char_str,
    param_lookup,
    param_value,
    query_of,
    query_param,
    split_char,
    str_contains,
};
use vstd::prelude::*;

verus! {

/// An application event handled on the UI thread. Produced by any thread,
/// consumed exactly once, in the order delivered.
#[derive(Clone, Copy, PartialEq, Eq, Structural, Debug)]
pub enum UiEvent {
    /// The user asked to open the configuration window.
    OpenConfigRequested,
    /// The user asked to quit.
    ExitRequested,
    /// The view committed a save.
    ConfigSaved,
    /// The view asked to close the window.
    ConfigWindowClosed,
    /// The platform asked to close the window with this id.
    NativeCloseRequested { window_id: u64 },
}

/// What the event loop must do after a transition.
#[derive(Clone, Copy, PartialEq, Eq, Structural, Debug)]
pub enum UiAction {
    /// Nothing to do.
    Nothing,
    /// Create the configuration window and view, seeded with a fresh
    /// configuration snapshot, then report back through `window_opened` or
    /// `window_open_failed`.
    OpenWindow,
    /// Drop the window and view handles, if any are still held.
    CloseWindow,
    /// Send the shutdown notification first when asked to, then leave the
    /// event loop.
    Exit { notify_shutdown: bool },
}

/// Window bookkeeping owned by the UI thread: whether the single
/// configuration window exists, and its id once the platform reported it.
#[derive(Clone, Copy, PartialEq, Eq, Debug)]
pub struct UiState {
    pub window_open: bool,
    pub window_id: Option<u64>,
}

/// The state with no window: the initial state, and the one every close
/// path converges to.
pub open spec fn closed_state() -> UiState {
    UiState { window_open: false, window_id: None }
}

/// The transition relation of the UI controller, as one step:
/// an open request is ignored while a window exists (single flight); every
/// close path clears the window; an exit decides from the configuration
/// whether the shutdown notification is owed.
pub open spec fn ui_step(s: UiState, e: UiEvent, c: ConfigView) -> (UiState, UiAction) {
    match e {
        UiEvent::OpenConfigRequested => {
            if s.window_open {
                (s, UiAction::Nothing)
            } else {
                ((UiState { window_open: true, window_id: None }), UiAction::OpenWindow)
            }
        },
        UiEvent::ConfigSaved => (closed_state(), UiAction::CloseWindow),
        UiEvent::ConfigWindowClosed => (closed_state(), UiAction::CloseWindow),
        UiEvent::NativeCloseRequested { window_id } => {
            if s.window_id == Some(window_id) {
                (closed_state(), UiAction::CloseWindow)
            } else {
                (s, UiAction::Nothing)
            }
        },
        UiEvent::ExitRequested => (
            s,
            UiAction::Exit {
                notify_shutdown: c.session_messages.on_shutdown && c.webhook.url.len() > 0,
            },
        ),
    }
}

impl UiState {
    /// The controller before any window was opened.
    pub fn new() -> (s: Self)
        ensures
            s == closed_state(),
    {
        UiState { window_open: false, window_id: None }
    }

    /// Handles one event, strictly serialized by the caller's event loop;
    /// the result is exactly one `ui_step` of the transition relation.
    pub fn handle_event(&mut self, event: &UiEvent, config: &Config) -> (a: UiAction)
        ensures
            (*final(self), a) == ui_step(*old(self), *event, config@),
    {
        match *event {
            UiEvent::OpenConfigRequested => {
                if self.window_open {
                    UiAction::Nothing
                } else {
                    self.window_open = true;
                    self.window_id = None;
                    UiAction::OpenWindow
                }
            },
            UiEvent::ConfigSaved => {
                self.window_open = false;
                self.window_id = None;
                UiAction::CloseWindow
            },
            UiEvent::ConfigWindowClosed => {
                self.window_open = false;
                self.window_id = None;
                UiAction::CloseWindow
            },
            UiEvent::NativeCloseRequested { window_id } => {
                let matching = match self.window_id {
                    Some(open_id) => open_id == window_id,
                    None => false,
                };
                if matching {
                    self.window_open = false;
                    self.window_id = None;
                    UiAction::CloseWindow
                } else {
                    UiAction::Nothing
                }
            },
            UiEvent::ExitRequested => {
                UiAction::Exit {
                    notify_shutdown: config.session_messages.on_shutdown
                        && !config.webhook.url.as_str().is_empty(),
                }
            },
        }
    }

    /// Records the id of the window the event loop just created.
    pub fn window_opened(&mut self, window_id: u64)
        ensures
            *final(self) == (UiState { window_open: true, window_id: Some(window_id) }),
    {
        self.window_open = true;
        self.window_id = Some(window_id);
    }

    /// Clears the bookkeeping after window or view creation failed.
    pub fn window_open_failed(&mut self)
        ensures
            *final(self) == closed_state(),
    {
        self.window_open = false;
        self.window_id = None;
    }
}

/// Single flight: while a window is open, an open request changes nothing
/// and opens nothing, so two rapid open requests with no close between them
/// create exactly one window.
pub proof fn lemma_open_single_flight(s0: UiState, c1: ConfigView, c2: ConfigView)
    requires
        !s0.window_open,
    ensures
        ({
            let (s1, a1) = ui_step(s0, UiEvent::OpenConfigRequested, c1);
            let (s2, a2) = ui_step(s1, UiEvent::OpenConfigRequested, c2);
            a1 == UiAction::OpenWindow && a2 == UiAction::Nothing && s2 == s1
        }),
{
}

/// A close event with no window open is a no-op: the state is already the
/// cleared one and stays exactly that.
pub proof fn lemma_close_when_closed(c: ConfigView)
    ensures
        ui_step(closed_state(), UiEvent::ConfigWindowClosed, c).0 == closed_state(),
        ui_step(closed_state(), UiEvent::ConfigSaved, c).0 == closed_state(),
{
}

/// All close paths converge: a save, a view close, and a matching native
/// close request all leave the same cleared state.
pub proof fn lemma_close_paths_converge(s: UiState, c: ConfigView, id: u64)
    requires
        s.window_id == Some(id),
    ensures
        ui_step(s, UiEvent::ConfigSaved, c).0 == closed_state(),
        ui_step(s, UiEvent::ConfigWindowClosed, c).0 == closed_state(),
        ui_step(s, UiEvent::NativeCloseRequested { window_id: id }, c).0 == closed_state(),
{
}

/// How the configuration view's navigation was classified.
pub enum NavDecision {
    /// Not a pseudo-navigation of ours: let it proceed.
    Allow,
    /// The view committed a save; the decoded configuration JSON, when the
    /// URL carried a well-formed `config` parameter.
    Save { config_json: Option<String> },
    /// The view asked to close the window.
    Close,
}

/// A save navigation: the pseudo-URL names `save` and carries a `config=`
/// parameter.
pub open spec fn is_save_nav(url: Seq<char>) -> bool {
    contains_seq(url, "save"@) && contains_seq(url, "config="@)
}

/// A close navigation: the application scheme together with `close`.
pub open spec fn is_close_nav(url: Seq<char>) -> bool {
    contains_seq(url, "wintrack"@) && contains_seq(url, "close"@)
}

/// The configuration JSON a save navigation carries: the first `config`
/// parameter of the query section, percent-decoded.
pub open spec fn save_payload(url: Seq<char>) -> Option<Seq<char>> {
    match query_param(url, "config"@) {
        Some(raw) => percent_decoded(raw),
        None => None,
    }
}

/// What urlencoding::decode returns for a given input; it depends on the
/// input characters alone, and is `None` exactly when the decoded bytes are
/// not UTF-8.
pub uninterp spec fn percent_decoded(s: Seq<char>) -> Option<Seq<char>>;

/// Relies on urlencoding::decode: percent-decodes `%XX` escapes and keeps
/// every other character, failing only on non-UTF-8 escape contents.
#[verifier::external_body]
fn percent_decode(s: &str) -> (r: Option<String>)
    ensures
        r is Some <==> percent_decoded(s@) is Some,
        r matches Some(d) ==> d@ == percent_decoded(s@).unwrap(),
{
    match urlencoding::decode(s) {
        Ok(decoded) => Some(decoded.into_owned()),
        Err(_) => None,
    }
}

/// Classifies a navigation of the configuration view: a save (with its
/// decoded payload, when present and decodable), a close, or an ordinary
/// navigation to let through.
pub fn classify_navigation(url: &str) -> (d: NavDecision)
    ensures
        is_save_nav(url@) ==> (d matches NavDecision::Save { config_json } && (match config_json {
            Some(j) => save_payload(url@) matches Some(p) && j@ == p,
            None => save_payload(url@) is None,
        })),
        !is_save_nav(url@) && is_close_nav(url@) ==> d == NavDecision::Close,
        !is_save_nav(url@) && !is_close_nav(url@) ==> d == NavDecision::Allow,
{
    if str_contains(url, "save") && str_contains(url, "config=") {
        let config_json = match lookup_config_param(url) {
            Some(raw) => percent_decode(raw.as_str()),
            None => None,
        };
        NavDecision::Save { config_json }
    } else if str_contains(url, "wintrack") && str_contains(url, "close") {
        NavDecision::Close
    } else {
        NavDecision::Allow
    }
}

/// The raw `config` parameter of `url`'s query section.
fn lookup_config_param(url: &str) -> (r: Option<String>)
    ensures
        match r {
            Some(v) => query_param(url@, "config"@) matches Some(raw) && v@ == raw,
            None => query_param(url@, "config"@) is None,
        },
{
    let len = url.unicode_len();
    let ghost url_parts = split_char(url@, '?');
    match find_char_str(url, '?') {
        None => {
            proof {
                assert(url_parts == seq![url@]);
                assert(query_of(url@) =~= Seq::<char>::empty());
                let empty_parts = split_char(Seq::<char>::empty(), '&');
                assert(find_char(Seq::<char>::empty(), '&') == -1);
                assert(empty_parts == seq![Seq::<char>::empty()]);
                assert(find_char(Seq::<char>::empty(), '=') == -1);
                assert(empty_parts.subrange(1, 1) =~= Seq::<Seq<char>>::empty());
                assert(param_value(Seq::<Seq<char>>::empty(), "config"@) is None);
                assert(param_value(empty_parts, "config"@) == param_value(
                    empty_parts.subrange(1, 1),
                    "config"@,
                ));
                assert(query_param(url@, "config"@) is None);
            }
            None
        },
        Some(p1) => {
            let after = url.substring_char(p1 + 1, len);
            proof {
                assert(url_parts.subrange(1, url_parts.len() as int) =~= split_char(after@, '?'));
            }
            let ghost after_parts = split_char(after@, '?');
            match find_char_str(after, '?') {
                None => {
                    proof {
                        assert(after_parts == seq![after@]);
                        assert(url_parts[1] == after@);
                        assert(query_of(url@) == after@);
                    }
                    param_lookup(after, "config")
                },
                Some(p2) => {
                    let segment = after.substring_char(0, p2);
                    proof {
                        assert(after_parts[0] == segment@);
                        assert(url_parts[1] == segment@);
                        assert(query_of(url@) == segment@);
                    }
                    param_lookup(segment, "config")
                },
            }
        },
    }
}

} // verus!

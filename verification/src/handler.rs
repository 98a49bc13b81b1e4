//! The dispatch of keys: which key does what to the state.

use crate::app::{App, AppView};
use crate::event::{KeyCode, KeyEvent};
use vstd::prelude::*;

verus! {

/// The status line after the refresh key.
pub const REFRESHING_STATUS: &'static str = "Refreshing selected city…";

/// What a key did.
#[derive(Clone, Copy, Debug, PartialEq, Eq, Structural)]
pub enum Outcome {
    /// The state is no longer running.
    QuitRequested,
    /// The cursor stands on another city than before.
    NavigationChanged,
    /// The record of the city under the cursor is to be fetched anew.
    RefreshRequested,
    /// Nothing that the render loop has to act on.
    NoOp,
}

/// `q` and escape end the application.
pub open spec fn is_quit(code: KeyCode) -> bool {
    code == KeyCode::Char('q') || code == KeyCode::Esc
}

/// The up arrow and `k` go to the city before.
pub open spec fn is_previous(code: KeyCode) -> bool {
    code == KeyCode::Up || code == KeyCode::Char('k')
}

/// The down arrow and `j` go to the next city.
pub open spec fn is_next(code: KeyCode) -> bool {
    code == KeyCode::Down || code == KeyCode::Char('j')
}

/// `r` asks for a refresh.
pub open spec fn is_refresh(code: KeyCode) -> bool {
    code == KeyCode::Char('r')
}

/// The state after the key `code`.
pub open spec fn handled(state: AppView, code: KeyCode) -> AppView {
    if is_quit(code) {
        state.stopped()
    } else if is_previous(code) {
        state.prev()
    } else if is_next(code) {
        state.next()
    } else if is_refresh(code) {
        state.with_status(REFRESHING_STATUS@)
    } else {
        state
    }
}

/// What the key `code` did to `state`.
pub open spec fn outcome_of(state: AppView, code: KeyCode) -> Outcome {
    if is_quit(code) {
        Outcome::QuitRequested
    } else if is_previous(code) || is_next(code) {
        if handled(state, code).selected != state.selected {
            Outcome::NavigationChanged
        } else {
            Outcome::NoOp
        }
    } else if is_refresh(code) {
        Outcome::RefreshRequested
    } else {
        Outcome::NoOp
    }
}

/// Applies one key to the state and says what it did. The kind of the event
/// is not looked at, and nothing is fetched here: a refresh only changes the
/// status line.
pub fn handle_key_events(key_event: KeyEvent, app: &mut App) -> (outcome: Outcome)
    ensures
        final(app)@ == handled(old(app)@, key_event.code),
        outcome == outcome_of(old(app)@, key_event.code),
        is_quit(key_event.code) ==> !final(app)@.running,
        !is_quit(key_event.code) ==> final(app)@.running == old(app)@.running,
        final(app)@.cities == old(app)@.cities,
        final(app)@.cache == old(app)@.cache,
        old(app)@.wf() ==> final(app)@.wf(),
{
    let before = app.selected;
    match key_event.code {
        KeyCode::Char('q') | KeyCode::Esc => {
            app.running = false;
            Outcome::QuitRequested
        },
        KeyCode::Up | KeyCode::Char('k') => {
            app.prev();
            if app.selected != before {
                Outcome::NavigationChanged
            } else {
                Outcome::NoOp
            }
        },
        KeyCode::Down | KeyCode::Char('j') => {
            app.next();
            if app.selected != before {
                Outcome::NavigationChanged
            } else {
                Outcome::NoOp
            }
        },
        KeyCode::Char('r') => {
            app.set_status(String::from_str(REFRESHING_STATUS));
            Outcome::RefreshRequested
        },
        _ => Outcome::NoOp,
    }
}

} // verus!

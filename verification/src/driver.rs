//! The decisions of the render loop. The loop itself draws, waits for the next
//! event and talks to the weather service; between those it asks here what
//! the event does to the state and what is to be done next.

use crate::app::{App, AppView, WeatherInfo};
use crate::event::{Event, KeyCode, KeyEvent, KeyEventKind};
use crate::handler::{handle_key_events, handled, is_quit, is_refresh, Outcome};
use vstd::prelude::*;

verus! {

/// The interval between two ticks, in milliseconds.
pub const TICK_RATE_MS: u64 = 500;

/// The status line after the first fetch, made before the loop starts.
pub const PRIMED_STATUS: &'static str = "Fetched initial city. R to refresh, Q to quit.";

/// What the render loop does after an event.
#[derive(Clone, Debug, PartialEq, Eq)]
pub enum Action {
    /// Draw again and wait for the next event.
    Continue,
    /// Fetch the record of this city, hand the result to `on_fetched`, then
    /// draw again and wait for the next event.
    Fetch(String),
    /// Leave the loop.
    Quit,
}

/// An action as mathematics.
pub enum ActionView {
    Continue,
    Fetch(Seq<char>),
    Quit,
}

impl View for Action {
    type V = ActionView;

    open spec fn view(&self) -> ActionView {
        match self {
            Action::Continue => ActionView::Continue,
            Action::Fetch(city) => ActionView::Fetch(city@),
            Action::Quit => ActionView::Quit,
        }
    }
}

/// The status line while the record of `city` is being fetched.
pub open spec fn fetching_status(city: Seq<char>) -> Seq<char> {
    "Fetching "@ + city + "…"@
}

/// The status line after the record of `city` has arrived.
pub open spec fn updated_status(city: Seq<char>) -> Seq<char> {
    "Updated "@ + city + "."@
}

/// The status line after a fetch has failed for `reason`.
pub open spec fn error_status(reason: Seq<char>) -> Seq<char> {
    "Error: "@ + reason
}

/// The key that an event presses, if it presses one. A key that is held down
/// or comes up presses nothing, nor does a tick or the end of the stream.
pub open spec fn pressed(event: Option<Event>) -> Option<KeyCode> {
    match event {
        Some(Event::Key(key)) => if key.kind == KeyEventKind::Press {
            Some(key.code)
        } else {
            None
        },
        _ => None,
    }
}

/// The city whose record the loop fetches after `event`, if it fetches one:
/// the city under the cursor, when the state is running before and after the
/// event and the event has moved the cursor or pressed the refresh key.
pub open spec fn fetch_target(state: AppView, event: Option<Event>) -> Option<Seq<char>> {
    match pressed(event) {
        Some(code) => {
            let after = handled(state, code);
            if state.running && after.running && (after.selected != state.selected || is_refresh(
                code,
            )) {
                after.current()
            } else {
                None
            }
        },
        None => None,
    }
}

/// The state after `event`. A state that is not running stays as it is.
pub open spec fn after_event(state: AppView, event: Option<Event>) -> AppView {
    match pressed(event) {
        Some(code) => if state.running {
            match fetch_target(state, event) {
                Some(city) => handled(state, code).with_status(fetching_status(city)),
                None => handled(state, code),
            }
        } else {
            state
        },
        None => state,
    }
}

/// What the loop does after `event`.
pub open spec fn action_after(state: AppView, event: Option<Event>) -> ActionView {
    if !after_event(state, event).running {
        ActionView::Quit
    } else {
        match fetch_target(state, event) {
            Some(city) => ActionView::Fetch(city),
            None => ActionView::Continue,
        }
    }
}

/// The state after a fetch for `city` has settled with `fetched`.
pub open spec fn after_fetch(
    state: AppView,
    city: Seq<char>,
    fetched: Result<WeatherInfo, String>,
) -> AppView {
    match fetched {
        Ok(info) => state.with_weather(city, info).with_status(updated_status(city)),
        Err(reason) => state.with_status(error_status(reason@)),
    }
}

/// The state after the fetch that is made before the loop starts.
pub open spec fn after_priming(
    state: AppView,
    city: Seq<char>,
    fetched: Result<WeatherInfo, String>,
) -> AppView {
    match fetched {
        Ok(info) => state.with_weather(city, info).with_status(PRIMED_STATUS@),
        Err(_) => state,
    }
}

/// One turn of the render loop as the queue and the weather service make it:
/// the event that wakes the loop, and what the service answers if the loop
/// asks it in this turn.
pub struct Turn {
    pub event: Option<Event>,
    pub fetched: Result<WeatherInfo, String>,
}

/// The state after one turn: after the event and, if the loop fetches, after
/// the fetch has settled.
pub open spec fn after_turn(state: AppView, turn: Turn) -> AppView {
    match action_after(state, turn.event) {
        ActionView::Fetch(city) => after_fetch(after_event(state, turn.event), city, turn.fetched),
        _ => after_event(state, turn.event),
    }
}

/// The state after the turns of `turns`, in their order.
pub open spec fn after_turns(state: AppView, turns: Seq<Turn>) -> AppView
    decreases turns.len(),
{
    if turns.len() == 0 {
        state
    } else {
        after_turn(after_turns(state, turns.drop_last()), turns.last())
    }
}

/// The turns of `turns` whose event presses a key, in their order.
pub open spec fn presses(turns: Seq<Turn>) -> Seq<Turn>
    decreases turns.len(),
{
    if turns.len() == 0 {
        turns
    } else if pressed(turns.last().event).is_some() {
        presses(turns.drop_last()).push(turns.last())
    } else {
        presses(turns.drop_last())
    }
}

/// Applies one event of the queue to the state and says what the loop does
/// next. `event` is `None` at the end of the stream.
///
/// Only a key that goes down reaches the dispatch. After it the loop fetches
/// once if the cursor has moved or the refresh key was pressed, and the status
/// line says so. A tick, another kind of key event and the end of the stream
/// change nothing. A state that is not running is left alone and ends the loop.
pub fn on_event(app: &mut App, event: Option<Event>) -> (action: Action)
    ensures
        final(app)@ == after_event(old(app)@, event),
        action@ == action_after(old(app)@, event),
        !old(app)@.running ==> final(app)@ == old(app)@ && action@ == ActionView::Quit,
        !final(app)@.running ==> action@ == ActionView::Quit,
        pressed(event).is_none() ==> final(app)@ == old(app)@ && !(action@ is Fetch),
        final(app)@.cities == old(app)@.cities,
        final(app)@.cache == old(app)@.cache,
        old(app)@.wf() ==> final(app)@.wf(),
{
    if !app.running {
        return Action::Quit;
    }
    let key = match event {
        Some(Event::Key(key)) => key,
        _ => {
            return Action::Continue;
        },
    };
    if key.kind != KeyEventKind::Press {
        return Action::Continue;
    }
    match handle_key_events(key, app) {
        Outcome::QuitRequested => Action::Quit,
        Outcome::NoOp => Action::Continue,
        Outcome::NavigationChanged | Outcome::RefreshRequested => {
            let target = match app.selected_city() {
                Some(city) => Some(String::from_str(city)),
                None => None,
            };
            match target {
                Some(city) => {
                    let mut status = String::from_str("Fetching ");
                    status.append(city.as_str());
                    status.append("…");
                    app.set_status(status);
                    Action::Fetch(city)
                },
                None => Action::Continue,
            }
        },
    }
}

/// Takes in what a fetch for `city` gave: the record is stored and the status
/// line says so, or the status line carries the reason of the failure and
/// nothing is stored.
pub fn on_fetched(app: &mut App, city: &str, fetched: Result<WeatherInfo, String>)
    ensures
        final(app)@ == after_fetch(old(app)@, city@, fetched),
        fetched.is_err() ==> final(app)@.cache == old(app)@.cache,
        final(app)@.running == old(app)@.running,
        final(app)@.cities == old(app)@.cities,
        final(app)@.selected == old(app)@.selected,
{
    match fetched {
        Ok(info) => {
            app.put_weather(city, info);
            let mut status = String::from_str("Updated ");
            status.append(city);
            status.append(".");
            app.set_status(status);
        },
        Err(reason) => {
            let mut status = String::from_str("Error: ");
            status.append(reason.as_str());
            app.set_status(status);
        },
    }
}

/// Takes in what the fetch before the loop gave for `city`: a record is
/// stored and the status line says so; a failure changes nothing.
pub fn on_primed(app: &mut App, city: &str, fetched: Result<WeatherInfo, String>)
    ensures
        final(app)@ == after_priming(old(app)@, city@, fetched),
        final(app)@.running == old(app)@.running,
        final(app)@.cities == old(app)@.cities,
        final(app)@.selected == old(app)@.selected,
{
    match fetched {
        Ok(info) => {
            app.put_weather(city, info);
            app.set_status(String::from_str(PRIMED_STATUS));
        },
        Err(_) => {},
    }
}

/// A press of a quit key stops the state, whatever it was before, and the
/// loop ends without a fetch.
pub proof fn quit_ends_loop(state: AppView, key: KeyEvent)
    requires
        key.kind == KeyEventKind::Press,
        is_quit(key.code),
    ensures
        !after_event(state, Some(Event::Key(key))).running,
        action_after(state, Some(Event::Key(key))) == ActionView::Quit,
{
}

/// Once the state has stopped, no event changes it, starts it again or
/// causes a fetch.
pub proof fn stopped_is_final(state: AppView, event: Option<Event>)
    requires
        !state.running,
    ensures
        after_event(state, event) == state,
        action_after(state, event) == ActionView::Quit,
{
}

/// An event that presses no key (a key that is held or comes up, a tick, the
/// end of the stream) changes nothing and causes no fetch.
pub proof fn only_presses_act(state: AppView, event: Option<Event>)
    requires
        pressed(event).is_none(),
    ensures
        after_event(state, event) == state,
        !(action_after(state, event) is Fetch),
{
}

/// Only the turns that press a key count: the state after a stream of turns
/// is the state after its presses alone.
pub proof fn idle_turns_do_not_count(state: AppView, turns: Seq<Turn>)
    ensures
        after_turns(state, turns) == after_turns(state, presses(turns)),
    decreases turns.len(),
{
    if turns.len() > 0 {
        let earlier = turns.drop_last();
        idle_turns_do_not_count(state, earlier);
        if pressed(turns.last().event).is_some() {
            assert(presses(earlier).push(turns.last()).drop_last() =~= presses(earlier));
        }
    }
}

/// The queue keeps the order of the key events among themselves, and says
/// nothing of where the ticks fall between them. That is enough: two streams
/// with the same presses in the same order lead to the same state.
pub proof fn interleaving_is_immaterial(state: AppView, first: Seq<Turn>, second: Seq<Turn>)
    requires
        presses(first) == presses(second),
    ensures
        after_turns(state, first) == after_turns(state, second),
{
    idle_turns_do_not_count(state, first);
    idle_turns_do_not_count(state, second);
}

/// A state that has stopped stays as it is through every stream of turns:
/// it does not run again and nothing is fetched into it.
pub proof fn stopped_stays_stopped(state: AppView, turns: Seq<Turn>)
    requires
        !state.running,
    ensures
        after_turns(state, turns) == state,
    decreases turns.len(),
{
    if turns.len() > 0 {
        stopped_stays_stopped(state, turns.drop_last());
    }
}

/// A fetch that failed stores nothing: only the status line changes, and it
/// carries the reason.
pub proof fn failed_fetch_keeps_cache(state: AppView, city: Seq<char>, reason: String)
    ensures
        after_fetch(state, city, Err(reason)) == state.with_status(error_status(reason@)),
        after_fetch(state, city, Err(reason)).cache == state.cache,
{
}

} // verus!

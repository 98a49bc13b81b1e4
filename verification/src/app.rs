//! The application state: where the cursor stands in the list of cities, what
//! has been fetched for each of them, and the status line.

use crate::clock::Timestamp;
use vstd::arithmetic::div_mod::{
    lemma_add_mod_noop_right, lemma_mod_add_multiples_vanish, lemma_small_mod,
};
use vstd::hash_map::StringHashMap;
use vstd::prelude::*;

verus! {

/// The status line of a state that has handled no event yet.
pub const INITIAL_STATUS: &'static str = "Press R to refresh, ↑/↓ to navigate, Q to quit";

/// What was fetched for one city. Temperature and wind speed are held in
/// tenths of their unit, so that the record is made of integers and text.
#[derive(Debug, Clone, PartialEq, Eq)]
pub struct WeatherInfo {
    pub name: String,
    pub temp_tenths: i64,
    pub humidity: u64,
    pub pressure: u64,
    pub wind_tenths: i64,
    pub description: String,
    pub updated_at: Timestamp,
}

/// The state of the application.
pub struct App {
    pub running: bool,
    pub cities: Vec<String>,
    pub selected: usize,
    pub cache: StringHashMap<WeatherInfo>,
    pub status: String,
}

/// The state as mathematics: the contracts of this crate speak of it.
pub struct AppView {
    pub running: bool,
    pub cities: Seq<Seq<char>>,
    pub selected: int,
    pub cache: Map<Seq<char>, WeatherInfo>,
    pub status: Seq<char>,
}

impl AppView {
    /// The cursor stands on a city whenever there is one.
    pub open spec fn wf(self) -> bool {
        &&& 0 <= self.selected
        &&& self.cities.len() > 0 ==> self.selected < self.cities.len()
    }

    /// The state that a list of cities starts in.
    pub open spec fn initial(cities: Seq<Seq<char>>) -> AppView {
        AppView {
            running: true,
            cities,
            selected: 0,
            cache: Map::empty(),
            status: INITIAL_STATUS@,
        }
    }

    /// The city under the cursor, if the cursor stands on one.
    pub open spec fn current(self) -> Option<Seq<char>> {
        if 0 <= self.selected < self.cities.len() {
            Some(self.cities[self.selected])
        } else {
            None
        }
    }

    /// The cursor one city further, and at the first city after the last.
    pub open spec fn next(self) -> AppView {
        if self.cities.len() == 0 {
            self
        } else {
            AppView { selected: (self.selected + 1) % (self.cities.len() as int), ..self }
        }
    }

    /// The cursor one city back, and at the last city before the first.
    pub open spec fn prev(self) -> AppView {
        if self.cities.len() == 0 {
            self
        } else if self.selected == 0 {
            AppView { selected: self.cities.len() - 1, ..self }
        } else {
            AppView { selected: self.selected - 1, ..self }
        }
    }

    /// `next` applied `times` times.
    pub open spec fn next_times(self, times: nat) -> AppView
        decreases times,
    {
        if times == 0 {
            self
        } else {
            self.next_times((times - 1) as nat).next()
        }
    }

    /// The same state with another status line.
    pub open spec fn with_status(self, status: Seq<char>) -> AppView {
        AppView { status, ..self }
    }

    /// The same state with `info` as the one record of `city`.
    pub open spec fn with_weather(self, city: Seq<char>, info: WeatherInfo) -> AppView {
        AppView { cache: self.cache.insert(city, info), ..self }
    }

    /// The record of `city`, if one was stored.
    pub open spec fn weather(self, city: Seq<char>) -> Option<WeatherInfo> {
        if self.cache.contains_key(city) {
            Some(self.cache[city])
        } else {
            None
        }
    }

    /// The same state, no longer running.
    pub open spec fn stopped(self) -> AppView {
        AppView { running: false, ..self }
    }
}

impl View for App {
    type V = AppView;

    open spec fn view(&self) -> AppView {
        AppView {
            running: self.running,
            cities: self.cities@.map_values(|city: String| city@),
            selected: self.selected as int,
            cache: self.cache@,
            status: self.status@,
        }
    }
}

impl App {
    /// A running state over `cities`, with the cursor on the first of them,
    /// nothing fetched and the opening status line.
    pub fn new(cities: Vec<String>) -> (app: App)
        ensures
            app@ == AppView::initial(cities@.map_values(|city: String| city@)),
            app@.wf(),
    {
        App {
            running: true,
            cities,
            selected: 0,
            cache: StringHashMap::new(),
            status: String::from_str(INITIAL_STATUS),
        }
    }

    /// The city under the cursor; `None` when the cursor stands on none.
    pub fn selected_city(&self) -> (city: Option<&str>)
        ensures
            match city {
                Some(name) => self@.current() == Some(name@),
                None => self@.current().is_none(),
            },
    {
        if self.selected < self.cities.len() {
            Some(self.cities[self.selected].as_str())
        } else {
            None
        }
    }

    /// Moves the cursor to the next city, from the last to the first. With no
    /// city nothing changes.
    pub fn next(&mut self)
        ensures
            final(self)@ == old(self)@.next(),
            final(self)@.wf(),
    {
        let count = self.cities.len();
        if count > 0 {
            proof {
                lemma_add_mod_noop_right(1, self.selected as int, count as int);
            }
            self.selected = (self.selected % count + 1) % count;
        }
    }

    /// Moves the cursor to the city before, from the first to the last. With
    /// no city nothing changes.
    pub fn prev(&mut self)
        ensures
            final(self)@ == old(self)@.prev(),
            old(self)@.wf() ==> final(self)@.wf(),
    {
        let count = self.cities.len();
        if count > 0 {
            if self.selected == 0 {
                self.selected = count - 1;
            } else {
                self.selected = self.selected - 1;
            }
        }
    }

    /// Replaces the status line.
    pub fn set_status(&mut self, msg: String)
        ensures
            final(self)@ == old(self)@.with_status(msg@),
    {
        self.status = msg;
    }

    /// Stores `info` as the record of `city`; a record that was there is gone.
    pub fn put_weather(&mut self, city: &str, info: WeatherInfo)
        ensures
            final(self)@ == old(self)@.with_weather(city@, info),
    {
        self.cache.insert(String::from_str(city), info);
    }

    /// The record of `city`, if one was stored.
    pub fn get_weather(&self, city: &str) -> (info: Option<&WeatherInfo>)
        ensures
            match info {
                Some(found) => self@.weather(city@) == Some(*found),
                None => self@.weather(city@).is_none(),
            },
    {
        self.cache.get(city)
    }
}

/// After `times` steps forward from a city, the cursor stands `times` cities
/// further, counted round the list.
pub proof fn next_times_counts(state: AppView, times: nat)
    requires
        state.wf(),
        state.cities.len() > 0,
    ensures
        state.next_times(times) == (AppView {
            selected: (state.selected + times) % (state.cities.len() as int),
            ..state
        }),
    decreases times,
{
    let count = state.cities.len() as int;
    if times == 0 {
        lemma_small_mod(state.selected as nat, count as nat);
    } else {
        next_times_counts(state, (times - 1) as nat);
        lemma_add_mod_noop_right(1, state.selected + times - 1, count);
    }
}

/// Going forward once for every city of the list brings the cursor back to
/// the city it started from, and changes nothing else.
pub proof fn next_full_cycle(state: AppView)
    requires
        state.wf(),
        state.cities.len() > 0,
    ensures
        state.next_times(state.cities.len()) == state,
{
    let count = state.cities.len() as int;
    next_times_counts(state, state.cities.len());
    lemma_mod_add_multiples_vanish(state.selected, count);
    lemma_small_mod(state.selected as nat, count as nat);
}

/// A step forward and then a step back leave the state as it was.
pub proof fn prev_undoes_next(state: AppView)
    requires
        state.wf(),
    ensures
        state.next().prev() == state,
{
    if state.cities.len() > 0 {
        let count = state.cities.len() as int;
        if state.selected + 1 < count {
            lemma_small_mod((state.selected + 1) as nat, count as nat);
        } else {
            lemma_mod_add_multiples_vanish(0, count);
            lemma_small_mod(0, count as nat);
        }
    }
}

/// A step back and then a step forward leave the state as it was.
pub proof fn next_undoes_prev(state: AppView)
    requires
        state.wf(),
    ensures
        state.prev().next() == state,
{
    if state.cities.len() > 0 {
        let count = state.cities.len() as int;
        if state.selected == 0 {
            lemma_mod_add_multiples_vanish(0, count);
            lemma_small_mod(0, count as nat);
        } else {
            lemma_small_mod(state.selected as nat, count as nat);
        }
    }
}

/// A record that was stored for a city is the record found for it.
pub proof fn stored_is_found(state: AppView, city: Seq<char>, info: WeatherInfo)
    ensures
        state.with_weather(city, info).weather(city) == Some(info),
{
}

/// Storing a record leaves the records of all other cities as they were.
pub proof fn store_keeps_others(
    state: AppView,
    city: Seq<char>,
    info: WeatherInfo,
    other: Seq<char>,
)
    requires
        other != city,
    ensures
        state.with_weather(city, info).weather(other) == state.weather(other),
{
}

/// A second record for the same city takes the place of the first: the state
/// is the one in which only the second was stored.
pub proof fn store_replaces(state: AppView, city: Seq<char>, first: WeatherInfo, second: WeatherInfo)
    ensures
        state.with_weather(city, first).with_weather(city, second) == state.with_weather(
            city,
            second,
        ),
        state.with_weather(city, first).with_weather(city, second).weather(city) == Some(second),
{
    assert(state.cache.insert(city, first).insert(city, second) =~= state.cache.insert(
        city,
        second,
    ));
}

} // verus!

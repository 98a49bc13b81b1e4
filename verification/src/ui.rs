//! The text of the screen: the lines of the list of cities and of the panel
//! of details. Laying them out on the terminal is done elsewhere.

use crate::app::{App, AppView, WeatherInfo};
use crate::text::{decimal, decimal_string, tenths, tenths_string};
use vstd::prelude::*;

verus! {

/// The title in the header.
pub const TITLE: &'static str = " Weather CLI (Ratatui + OpenWeather) ";

/// The title of the list of cities.
pub const CITIES_TITLE: &'static str = "Cities";

/// The title of the panel of details.
pub const DETAILS_TITLE: &'static str = "Weather Details";

/// What stands in front of the city under the cursor.
pub const SELECTED_MARKER: &'static str = "▶ ";

/// What stands in front of every other city.
pub const PLAIN_MARKER: &'static str = "  ";

/// The last line of the details of a record.
pub const TIPS: &'static str = "Tips: Press R to refresh; ↑/↓ to switch city; Q to quit.";

/// The details when the cursor stands on no city.
pub const NO_CITY: &'static str = "No city selected";

/// The second line of the details of a city without a record.
pub const NO_DATA: &'static str = "No data cached. Press R to fetch.";

/// The line of the city at `index` in the list of cities.
pub open spec fn city_line(state: AppView, index: int) -> Seq<char> {
    if index == state.selected {
        SELECTED_MARKER@ + state.cities[index]
    } else {
        PLAIN_MARKER@ + state.cities[index]
    }
}

/// The lines of the list of cities: one for each city, in their order.
pub open spec fn city_text(state: AppView) -> Seq<Seq<char>> {
    Seq::new(state.cities.len(), |index: int| city_line(state, index))
}

/// The details of a record.
pub open spec fn record_text(info: WeatherInfo) -> Seq<Seq<char>> {
    seq![
        "City: "@ + info.name@,
        "Temp: "@ + tenths(info.temp_tenths as int) + "°F"@,
        "Humidity: "@ + decimal(info.humidity as nat) + "%"@,
        "Pressure: "@ + decimal(info.pressure as nat) + " hPa"@,
        "Wind: "@ + tenths(info.wind_tenths as int) + " m/s"@,
        "Conditions: "@ + info.description@,
        "Last updated: "@ + info.updated_at.text(),
        Seq::<char>::empty(),
        TIPS@,
    ]
}

/// The lines of the panel of details: the record of the city under the
/// cursor, or that there is none yet, or that the cursor stands on no city.
pub open spec fn detail_text(state: AppView) -> Seq<Seq<char>> {
    match state.current() {
        Some(city) => match state.weather(city) {
            Some(info) => record_text(info),
            None => seq!["Selected: "@ + city, NO_DATA@],
        },
        None => seq![NO_CITY@],
    }
}

/// The characters of each line.
pub open spec fn lines_view(lines: Seq<String>) -> Seq<Seq<char>> {
    lines.map_values(|line: String| line@)
}

/// Puts `tail` behind `head` and, if there is one, `unit` behind both.
fn labelled(head: &str, tail: &str, unit: &str) -> (line: String)
    ensures
        line@ == head@ + tail@ + unit@,
{
    let mut line = String::from_str(head);
    line.append(tail);
    line.append(unit);
    line
}

/// The lines of the list of cities.
pub fn city_lines(app: &App) -> (lines: Vec<String>)
    ensures
        lines_view(lines@) == city_text(app@),
        lines@.len() == app@.cities.len(),
{
    let mut lines: Vec<String> = Vec::new();
    let mut index: usize = 0;
    while index < app.cities.len()
        invariant
            index <= app.cities.len(),
            lines@.len() == index,
            forall|i: int| 0 <= i < index ==> (#[trigger] lines@[i])@ == city_line(app@, i),
        decreases app.cities.len() - index,
    {
        let marker = if index == app.selected {
            SELECTED_MARKER
        } else {
            PLAIN_MARKER
        };
        let mut line = String::from_str(marker);
        line.append(app.cities[index].as_str());
        lines.push(line);
        index = index + 1;
    }
    assert(lines_view(lines@) =~= city_text(app@));
    lines
}

/// The details of one record.
pub fn record_lines(info: &WeatherInfo) -> (lines: Vec<String>)
    ensures
        lines_view(lines@) == record_text(*info),
        lines@.len() == 9,
{
    let temp = tenths_string(info.temp_tenths);
    let humidity = decimal_string(info.humidity);
    let pressure = decimal_string(info.pressure);
    let wind = tenths_string(info.wind_tenths);
    let updated = info.updated_at.to_text();
    let mut lines: Vec<String> = Vec::new();
    lines.push(labelled("City: ", info.name.as_str(), ""));
    lines.push(labelled("Temp: ", temp.as_str(), "°F"));
    lines.push(labelled("Humidity: ", humidity.as_str(), "%"));
    lines.push(labelled("Pressure: ", pressure.as_str(), " hPa"));
    lines.push(labelled("Wind: ", wind.as_str(), " m/s"));
    lines.push(labelled("Conditions: ", info.description.as_str(), ""));
    lines.push(labelled("Last updated: ", updated.as_str(), ""));
    lines.push(String::new());
    lines.push(String::from_str(TIPS));
    proof {
        reveal_strlit("");
        assert(lines_view(lines@) =~= record_text(*info));
    }
    lines
}

/// The lines of the panel of details.
pub fn detail_lines(app: &App) -> (lines: Vec<String>)
    ensures
        lines_view(lines@) == detail_text(app@),
        lines@.len() == detail_text(app@).len(),
{
    match app.selected_city() {
        Some(city) => match app.get_weather(city) {
            Some(info) => record_lines(info),
            None => {
                let mut lines: Vec<String> = Vec::new();
                lines.push(labelled("Selected: ", city, ""));
                lines.push(String::from_str(NO_DATA));
                proof {
                    reveal_strlit("");
                    assert(lines_view(lines@) =~= detail_text(app@));
                }
                lines
            },
        },
        None => {
            let mut lines: Vec<String> = Vec::new();
            lines.push(String::from_str(NO_CITY));
            assert(lines_view(lines@) =~= detail_text(app@));
            lines
        },
    }
}

} // verus!

use weather_cli::app::{App, WeatherInfo};
use weather_cli::clock::Timestamp;
use weather_cli::ui::{city_lines, detail_lines, record_lines};
use weather_cli::ui::{CITIES_TITLE, DETAILS_TITLE, TITLE};

fn five() -> App {
    App::new(
        ["Bucharest", "Craiova", "London", "New York", "Tokyo"]
            .iter()
            .map(|name| name.to_string())
            .collect(),
    )
}

fn london() -> WeatherInfo {
    WeatherInfo {
        name: "London".to_string(),
        temp_tenths: 123,
        humidity: 81,
        pressure: 1009,
        wind_tenths: 46,
        description: "light rain".to_string(),
        updated_at: Timestamp::new(2024, 3, 9, 7, 5, 0).unwrap(),
    }
}

#[test]
fn city_list_marks_the_city_under_the_cursor() {
    let mut app = five();
    assert_eq!(
        city_lines(&app),
        vec!["▶ Bucharest", "  Craiova", "  London", "  New York", "  Tokyo"]
    );
    app.prev();
    assert_eq!(
        city_lines(&app),
        vec!["  Bucharest", "  Craiova", "  London", "  New York", "▶ Tokyo"]
    );
}

#[test]
fn city_list_of_no_cities_is_empty() {
    let app = App::new(Vec::new());
    assert_eq!(city_lines(&app), Vec::<String>::new());
}

#[test]
fn city_list_marks_nothing_when_the_cursor_is_beyond_it() {
    let mut app = five();
    app.selected = 5;
    assert_eq!(
        city_lines(&app),
        vec!["  Bucharest", "  Craiova", "  London", "  New York", "  Tokyo"]
    );
}

#[test]
fn details_without_a_city() {
    let app = App::new(Vec::new());
    assert_eq!(detail_lines(&app), vec!["No city selected"]);
    let mut beyond = five();
    beyond.selected = 9;
    assert_eq!(detail_lines(&beyond), vec!["No city selected"]);
}

#[test]
fn details_of_a_city_without_a_record() {
    let mut app = five();
    app.put_weather("London", london());
    assert_eq!(
        detail_lines(&app),
        vec!["Selected: Bucharest", "No data cached. Press R to fetch."]
    );
}

#[test]
fn details_of_a_city_with_a_record() {
    let mut app = five();
    app.next();
    app.next();
    app.put_weather("London", london());
    assert_eq!(
        detail_lines(&app),
        vec![
            "City: London",
            "Temp: 12.3°F",
            "Humidity: 81%",
            "Pressure: 1009 hPa",
            "Wind: 4.6 m/s",
            "Conditions: light rain",
            "Last updated: 2024-03-09 07:05:00",
            "",
            "Tips: Press R to refresh; ↑/↓ to switch city; Q to quit.",
        ]
    );
}

#[test]
fn details_of_a_record_below_zero() {
    let mut info = london();
    info.name = String::new();
    info.temp_tenths = -5;
    info.humidity = 0;
    info.pressure = u64::MAX;
    info.wind_tenths = 0;
    info.description = "n/a".to_string();
    info.updated_at = Timestamp::new(-1, 12, 31, 23, 59, 59).unwrap();
    assert_eq!(
        record_lines(&info),
        vec![
            "City: ",
            "Temp: -0.5°F",
            "Humidity: 0%",
            "Pressure: 18446744073709551615 hPa",
            "Wind: 0.0 m/s",
            "Conditions: n/a",
            "Last updated: -0001-12-31 23:59:59",
            "",
            "Tips: Press R to refresh; ↑/↓ to switch city; Q to quit.",
        ]
    );
}

#[test]
fn titles_of_the_screen() {
    assert_eq!(TITLE, " Weather CLI (Ratatui + OpenWeather) ");
    assert_eq!(CITIES_TITLE, "Cities");
    assert_eq!(DETAILS_TITLE, "Weather Details");
}

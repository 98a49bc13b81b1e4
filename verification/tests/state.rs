use weather_cli::app::{App, WeatherInfo, INITIAL_STATUS};
use weather_cli::clock::Timestamp;

fn cities(names: &[&str]) -> Vec<String> {
    names.iter().map(|name| name.to_string()).collect()
}

fn record(name: &str, temp_tenths: i64) -> WeatherInfo {
    WeatherInfo {
        name: name.to_string(),
        temp_tenths,
        humidity: 40,
        pressure: 1013,
        wind_tenths: 35,
        description: "clear sky".to_string(),
        updated_at: Timestamp::new(2024, 3, 9, 7, 5, 0).unwrap(),
    }
}

#[test]
fn new_state_runs_with_cursor_on_first_city() {
    let app = App::new(cities(&["A", "B", "C"]));
    assert!(app.running);
    assert_eq!(app.cities, cities(&["A", "B", "C"]));
    assert_eq!(app.selected, 0);
    assert_eq!(app.status, "Press R to refresh, ↑/↓ to navigate, Q to quit");
    assert_eq!(app.status, INITIAL_STATUS);
    assert_eq!(app.selected_city(), Some("A"));
    assert!(app.get_weather("A").is_none());
}

#[test]
fn new_state_without_cities_selects_nothing() {
    let app = App::new(Vec::new());
    assert!(app.running);
    assert_eq!(app.selected, 0);
    assert_eq!(app.selected_city(), None);
}

#[test]
fn next_twice_reaches_third_city_and_then_wraps() {
    let mut app = App::new(cities(&["A", "B", "C"]));
    app.next();
    app.next();
    assert_eq!(app.selected, 2);
    assert_eq!(app.selected_city(), Some("C"));
    app.next();
    assert_eq!(app.selected, 0);
    assert_eq!(app.selected_city(), Some("A"));
}

#[test]
fn next_once_for_every_city_returns_to_the_start() {
    let names = ["Bucharest", "Craiova", "London", "New York", "Tokyo"];
    for start in 0..names.len() {
        let mut app = App::new(cities(&names));
        app.selected = start;
        for _ in 0..names.len() {
            app.next();
        }
        assert_eq!(app.selected, start);
    }
}

#[test]
fn prev_from_first_city_wraps_to_last() {
    let mut app = App::new(cities(&["A", "B", "C"]));
    app.prev();
    assert_eq!(app.selected, 2);
    assert_eq!(app.selected_city(), Some("C"));
    app.prev();
    assert_eq!(app.selected, 1);
}

#[test]
fn prev_then_next_and_next_then_prev_keep_the_cursor() {
    for start in 0..4 {
        let mut app = App::new(cities(&["A", "B", "C", "D"]));
        app.selected = start;
        app.prev();
        app.next();
        assert_eq!(app.selected, start);
        app.next();
        app.prev();
        assert_eq!(app.selected, start);
    }
}

#[test]
fn navigation_without_cities_changes_nothing() {
    let mut app = App::new(Vec::new());
    app.next();
    assert_eq!(app.selected, 0);
    app.prev();
    assert_eq!(app.selected, 0);
    assert_eq!(app.selected_city(), None);
    assert!(app.running);
}

#[test]
fn navigation_with_one_city_stays_on_it() {
    let mut app = App::new(cities(&["Tokyo"]));
    app.next();
    assert_eq!(app.selected, 0);
    app.prev();
    assert_eq!(app.selected, 0);
    assert_eq!(app.selected_city(), Some("Tokyo"));
}

#[test]
fn next_counts_round_the_list_from_a_cursor_beyond_it() {
    let mut app = App::new(cities(&["A", "B", "C"]));
    app.selected = 10;
    assert_eq!(app.selected_city(), None);
    app.next();
    assert_eq!(app.selected, 2);
    app.selected = usize::MAX;
    app.next();
    assert_eq!(app.selected, ((usize::MAX % 3) + 1) % 3);
}

#[test]
fn navigation_keeps_everything_but_the_cursor() {
    let mut app = App::new(cities(&["A", "B"]));
    app.put_weather("A", record("A", 215));
    app.set_status("busy".to_string());
    app.next();
    app.prev();
    assert!(app.running);
    assert_eq!(app.cities, cities(&["A", "B"]));
    assert_eq!(app.status, "busy");
    assert_eq!(app.get_weather("A"), Some(&record("A", 215)));
}

#[test]
fn set_status_overwrites() {
    let mut app = App::new(cities(&["A"]));
    app.set_status("first".to_string());
    assert_eq!(app.status, "first");
    app.set_status(String::new());
    assert_eq!(app.status, "");
    assert_eq!(app.selected, 0);
    assert!(app.running);
}

#[test]
fn stored_record_is_found() {
    let mut app = App::new(cities(&["A", "B"]));
    app.put_weather("A", record("A", 215));
    assert_eq!(app.get_weather("A"), Some(&record("A", 215)));
    assert_eq!(app.get_weather("B"), None);
    assert_eq!(app.get_weather("a"), None);
}

#[test]
fn second_record_replaces_the_first() {
    let mut app = App::new(cities(&["A", "B"]));
    app.put_weather("A", record("A", 215));
    app.put_weather("B", record("B", -30));
    let mut second = record("A2", 190);
    second.description = String::new();
    app.put_weather("A", second.clone());
    assert_eq!(app.get_weather("A"), Some(&second));
    assert_eq!(app.get_weather("B"), Some(&record("B", -30)));
}

#[test]
fn record_of_a_city_outside_the_list_is_kept() {
    let mut app = App::new(cities(&["A"]));
    app.put_weather("Elsewhere", record("Elsewhere", 0));
    assert_eq!(app.get_weather("Elsewhere"), Some(&record("Elsewhere", 0)));
    assert_eq!(app.selected_city(), Some("A"));
}

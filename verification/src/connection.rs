//! What is asked of the weather service, and the record that is made of its
//! answer. The request itself is sent elsewhere.

use crate::app::WeatherInfo;
use crate::clock::{local_now, Timestamp};
use vstd::prelude::*;

verus! {

/// Where the current weather of a city is asked for.
pub const ENDPOINT: &'static str = "https://api.openweathermap.org/data/2.5/weather";

/// The description of a report that describes nothing.
pub const NO_DESCRIPTION: &'static str = "n/a";

/// What the service reports for one city. Temperature and wind speed are in
/// tenths of their unit.
#[derive(Debug, Clone, PartialEq, Eq)]
pub struct Report {
    pub name: String,
    pub descriptions: Vec<String>,
    pub temp_tenths: i64,
    pub humidity: u64,
    pub pressure: u64,
    pub wind_tenths: i64,
}

/// What a request needs besides the city: the key of the account, and the
/// system of units (`metric` or `imperial`) in which the service answers.
#[derive(Debug, Clone, PartialEq, Eq)]
pub struct WeatherClient {
    pub api_key: String,
    pub units: String,
}

/// The parameters of the request for `city`, in the order in which they are
/// sent: the city as `q`, the key as `appid`, the system of units as `units`.
pub open spec fn query_of(city: Seq<char>, api_key: Seq<char>, units: Seq<char>) -> Seq<
    (Seq<char>, Seq<char>),
> {
    seq![("q"@, city), ("appid"@, api_key), ("units"@, units)]
}

/// The description that a record takes from a report: the first one, and
/// `n/a` where there is none.
pub open spec fn description_of(descriptions: Seq<String>) -> Seq<char> {
    if descriptions.len() > 0 {
        descriptions[0]@
    } else {
        NO_DESCRIPTION@
    }
}

/// Whether `info` is the record of `report` as received at `at`.
pub open spec fn is_record_of(info: WeatherInfo, report: Report, at: Timestamp) -> bool {
    &&& info.name == report.name
    &&& info.temp_tenths == report.temp_tenths
    &&& info.humidity == report.humidity
    &&& info.pressure == report.pressure
    &&& info.wind_tenths == report.wind_tenths
    &&& info.description@ == description_of(report.descriptions@)
    &&& info.updated_at == at
}

/// The characters of each name and value.
pub open spec fn pairs_view(pairs: Seq<(String, String)>) -> Seq<(Seq<char>, Seq<char>)> {
    pairs.map_values(|pair: (String, String)| (pair.0@, pair.1@))
}

impl WeatherClient {
    /// A client with the key `api_key` that asks for answers in `units`.
    pub fn new(api_key: String, units: &str) -> (client: WeatherClient)
        ensures
            client.api_key == api_key,
            client.units@ == units@,
    {
        WeatherClient { api_key, units: String::from_str(units) }
    }

    /// The parameters of the request for the current weather of `city`.
    pub fn query(&self, city: &str) -> (pairs: Vec<(String, String)>)
        ensures
            pairs_view(pairs@) == query_of(city@, self.api_key@, self.units@),
            pairs@.len() == 3,
    {
        let mut pairs: Vec<(String, String)> = Vec::new();
        pairs.push((String::from_str("q"), String::from_str(city)));
        pairs.push((String::from_str("appid"), self.api_key.clone()));
        pairs.push((String::from_str("units"), self.units.clone()));
        assert(pairs_view(pairs@) =~= query_of(city@, self.api_key@, self.units@));
        pairs
    }
}

/// The record of a report that was received at `at`.
pub fn record_at(report: Report, at: Timestamp) -> (info: WeatherInfo)
    ensures
        is_record_of(info, report, at),
{
    let description = if report.descriptions.len() > 0 {
        report.descriptions[0].clone()
    } else {
        String::from_str(NO_DESCRIPTION)
    };
    WeatherInfo {
        name: report.name,
        temp_tenths: report.temp_tenths,
        humidity: report.humidity,
        pressure: report.pressure,
        wind_tenths: report.wind_tenths,
        description,
        updated_at: at,
    }
}

/// The record of a report that has just been received: it carries the
/// reading of the local clock at the time of the call.
pub fn record_now(report: Report) -> (info: WeatherInfo)
    ensures
        is_record_of(info, report, info.updated_at),
        info.updated_at.wf(),
{
    let at = local_now();
    record_at(report, at)
}

} // verus!

//! The weather service that anyone may ask.

use vstd::prelude::*;
use vstd::std_specs::convert::FromSpecImpl;
use vstd::string::*;

use crate::api::{query_view, Fetchable, Query};
use crate::config::{Config, ConfigView};
use crate::icons::TimeOfDay;
use crate::location::{Location, LocationView};
use crate::weather::temperature::Temperature;
use crate::weather::{CurrentConditions, CurrentConditionsView, Source};

verus! {

/// A request to the service.
#[derive(Debug)]
pub struct Client {
    query: Query,
}

impl View for Client {
    type V = Seq<(Seq<char>, Seq<char>)>;

    closed spec fn view(&self) -> Self::V {
        query_view(self.query)
    }
}

/// The request for the weather at a location: the present weather, in the
/// stored unit, at the location's latitude and longitude.
pub open spec fn client_for(config: ConfigView, location: LocationView) -> Seq<
    (Seq<char>, Seq<char>),
> {
    seq![
        ("current_weather"@, "true"@),
        ("temperature_unit"@, config.unit.name()),
        ("latitude"@, location.latitude),
        ("longitude"@, location.longitude),
    ]
}

impl Client {
    /// The request for the weather at a location.
    pub fn new(config: &Config, location: &Location) -> (client: Self)
        ensures
            client@ == client_for(config.model(), location@),
    {
        let unit = config.unit.to_string();
        let mut query: Query = Vec::new();
        query.push(("current_weather".to_owned(), "true".to_owned()));
        query.push(("temperature_unit".to_owned(), unit));
        query.push(("latitude".to_owned(), location.latitude.clone()));
        query.push(("longitude".to_owned(), location.longitude.clone()));
        assert(query_view(query) =~= client_for(config.model(), location@));
        Self { query }
    }
}

impl Fetchable for Client {
    fn url(&self) -> (url: &'static str)
        ensures
            url@ == "https://api.open-meteo.com/v1/forecast"@,
    {
        "https://api.open-meteo.com/v1/forecast"
    }

    fn query(&self) -> (query: Option<&Query>)
        ensures
            query matches Some(pairs) && query_view(*pairs) == self@,
    {
        Some(&self.query)
    }
}

/// What the service reports of the present: the temperature in the unit
/// asked for, the condition by the service's own code, and whether it is day
/// (1) or not.
#[derive(Clone, Copy, Debug, PartialEq, Eq, Structural)]
pub struct CurrentWeather {
    pub temperature: Temperature,
    pub weathercode: i32,
    pub is_day: u8,
}

/// The service's answer.
#[derive(Clone, Copy, Debug, PartialEq, Eq, Structural)]
pub struct Response {
    pub current_weather: CurrentWeather,
}

impl Response {
    /// The conditions that the answer reports: its one temperature for both
    /// units, and the glyph that this service's code has at the answer's time
    /// of day.
    pub open spec fn conditions(self) -> CurrentConditionsView {
        CurrentConditionsView {
            temp_c: self.current_weather.temperature,
            temp_f: self.current_weather.temperature,
            icon: TimeOfDay::of_flag(self.current_weather.is_day).icon_of(
                Source::OpenMeteo,
                self.current_weather.weathercode,
            ),
        }
    }
}

/// The service's answer in the common form.
impl From<Response> for CurrentConditions {
    fn from(result: Response) -> (conditions: Self)
        ensures
            conditions@ == result.conditions(),
    {
        let icon = TimeOfDay::from(result.current_weather.is_day).icon(
            &Source::OpenMeteo,
            result.current_weather.weathercode,
        );
        Self {
            temp_c: result.current_weather.temperature,
            temp_f: result.current_weather.temperature,
            icon,
        }
    }
}

/// What `from` returns is stated by its own `ensures`, over views: a
/// contract has no way to write a `String` down.
impl FromSpecImpl<Response> for CurrentConditions {
    open spec fn obeys_from_spec() -> bool {
        false
    }

    open spec fn from_spec(result: Response) -> Self {
        arbitrary()
    }
}

} // verus!

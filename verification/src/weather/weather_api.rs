//! The weather service that wants a key.

use vstd::prelude::*;
use vstd::std_specs::convert::FromSpecImpl;
use vstd::string::*;

use crate::api::{query_view, Fetchable, Query};
use crate::config::{Config, ConfigView};
use crate::icons::TimeOfDay;
use crate::location::{Location, LocationView};
use crate::weather::temperature::Temperature;
use crate::weather::{CurrentConditions, CurrentConditionsView, Source};

verus! {

/// A request to the service, and whether there is a key to send it with.
#[derive(Debug)]
pub struct Client {
    is_valid: bool,
    query: Query,
}

/// A request to the service, as contracts speak of it.
pub struct ClientView {
    pub is_valid: bool,
    pub query: Seq<(Seq<char>, Seq<char>)>,
}

impl View for Client {
    type V = ClientView;

    closed spec fn view(&self) -> ClientView {
        ClientView { is_valid: self.is_valid, query: query_view(self.query) }
    }
}

/// The request for the weather at a location: it carries the stored key and
/// the location's `loc`, and it is valid where a key is stored that is not
/// empty.
pub open spec fn client_for(config: ConfigView, location: LocationView) -> ClientView {
    ClientView {
        is_valid: config.token_or_empty().len() > 0,
        query: seq![("key"@, config.token_or_empty()), ("q"@, location.loc)],
    }
}

impl Client {
    /// The request for the weather at a location.
    pub fn new(config: &Config, location: &Location) -> (client: Self)
        ensures
            client@ == client_for(config.model(), location@),
    {
        let key = match &config.weatherapi_token {
            Some(token) => token.clone(),
            None => String::new(),
        };
        let is_valid = !key.as_str().is_empty();
        let mut query: Query = Vec::new();
        query.push(("key".to_owned(), key));
        query.push(("q".to_owned(), location.loc.clone()));
        assert(query_view(query) =~= client_for(config.model(), location@).query);
        Self { is_valid, query }
    }
}

impl Fetchable for Client {
    fn url(&self) -> (url: &'static str)
        ensures
            url@ == "http://api.weatherapi.com/v1/current.json"@,
    {
        "http://api.weatherapi.com/v1/current.json"
    }

    fn is_valid(&self) -> (valid: bool)
        ensures
            valid == self@.is_valid,
    {
        self.is_valid
    }

    fn query(&self) -> (query: Option<&Query>)
        ensures
            query matches Some(pairs) && query_view(*pairs) == self@.query,
    {
        Some(&self.query)
    }
}

/// The condition that the service reports, by its own code.
#[derive(Clone, Copy, Debug, PartialEq, Eq, Structural)]
pub struct WeatherAPIResultCondition {
    pub code: i32,
}

/// What the service reports of the present: the temperature in both units,
/// and whether it is day (1) or not.
#[derive(Clone, Copy, Debug, PartialEq, Eq, Structural)]
pub struct WeatherAPIResultCurrent {
    pub condition: WeatherAPIResultCondition,
    pub temp_c: Temperature,
    pub temp_f: Temperature,
    pub is_day: u8,
}

/// The service's answer.
#[derive(Clone, Copy, Debug, PartialEq, Eq, Structural)]
pub struct Response {
    pub current: WeatherAPIResultCurrent,
}

impl Response {
    /// The conditions that the answer reports: its two temperatures, and the
    /// glyph that this service's code has at the answer's time of day.
    pub open spec fn conditions(self) -> CurrentConditionsView {
        CurrentConditionsView {
            temp_c: self.current.temp_c,
            temp_f: self.current.temp_f,
            icon: TimeOfDay::of_flag(self.current.is_day).icon_of(
                Source::WeatherAPI,
                self.current.condition.code,
            ),
        }
    }
}

/// The service's answer in the common form.
impl From<Response> for CurrentConditions {
    fn from(result: Response) -> (conditions: Self)
        ensures
            conditions@ == result.conditions(),
    {
        let icon = TimeOfDay::from(result.current.is_day).icon(
            &Source::WeatherAPI,
            result.current.condition.code,
        );
        Self { temp_c: result.current.temp_c, temp_f: result.current.temp_f, icon }
    }
}

/// What `from` returns is stated by its own `ensures`, over views: a
/// contract has no way to write a `String` down.
impl FromSpecImpl<Response> for CurrentConditions {
    open spec fn obeys_from_spec() -> bool {
        false
    }

    open spec fn from_spec(result: Response) -> Self {
        arbitrary()
    }
}

} // verus!

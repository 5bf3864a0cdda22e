//! Weather services and what they report.

use vstd::prelude::*;
use vstd::string::*;

use crate::api::Fetchable;
use crate::config::{Config, ConfigView};
use crate::location::{Location, LocationView};
use crate::weather::temperature::Temperature;

pub mod laws;
pub mod open_meteo;
pub mod temperature;
pub mod weather_api;

verus! {

/// A weather service. Each numbers the conditions it reports in its own way.
#[derive(Clone, Copy, Debug, PartialEq, Eq, Structural)]
pub enum Source {
    WeatherAPI,
    OpenMeteo,
}

impl Source {
    /// The service's name.
    pub open spec fn name(self) -> Seq<char> {
        match self {
            Source::WeatherAPI => "WeatherAPI"@,
            Source::OpenMeteo => "OpenMeteo"@,
        }
    }

    /// The service's name, for messages.
    pub fn to_string(&self) -> (text: String)
        ensures
            text@ == self.name(),
    {
        match self {
            Source::WeatherAPI => "WeatherAPI".to_owned(),
            Source::OpenMeteo => "OpenMeteo".to_owned(),
        }
    }
}

/// The present weather, in the one form that every service's answer is
/// brought to: the temperature in both units, and the glyph for the condition
/// and the time of day.
#[derive(Debug, PartialEq)]
pub struct CurrentConditions {
    pub temp_c: Temperature,
    pub temp_f: Temperature,
    pub icon: String,
}

/// The present weather, as contracts speak of it.
pub struct CurrentConditionsView {
    pub temp_c: Temperature,
    pub temp_f: Temperature,
    pub icon: Seq<char>,
}

impl View for CurrentConditions {
    type V = CurrentConditionsView;

    open spec fn view(&self) -> CurrentConditionsView {
        CurrentConditionsView { temp_c: self.temp_c, temp_f: self.temp_f, icon: self.icon@ }
    }
}

/// The services to ask for a configuration, first to last: the one that
/// wants a key only where a key is stored that is not empty, and after it the
/// one that anyone may ask.
pub open spec fn available(config: ConfigView) -> Seq<Source> {
    if config.token_or_empty().len() > 0 {
        seq![Source::WeatherAPI, Source::OpenMeteo]
    } else {
        seq![Source::OpenMeteo]
    }
}

impl Source {
    /// The services to ask, first to last.
    pub fn available(config: &Config) -> (sources: Vec<Source>)
        ensures
            sources@ == available(config.model()),
    {
        let mut sources: Vec<Source> = Vec::new();
        let keyed = match &config.weatherapi_token {
            Some(token) => !token.as_str().is_empty(),
            None => false,
        };
        if keyed {
            sources.push(Source::WeatherAPI);
        }
        sources.push(Source::OpenMeteo);
        assert(sources@ =~= available(config.model()));
        sources
    }
}

/// A request to one of the services.
#[derive(Debug)]
pub enum Provider {
    WeatherAPI(weather_api::Client),
    OpenMeteo(open_meteo::Client),
}

/// A request to one of the services, as contracts speak of it.
pub enum ProviderView {
    WeatherAPI(weather_api::ClientView),
    OpenMeteo(Seq<(Seq<char>, Seq<char>)>),
}

impl View for Provider {
    type V = ProviderView;

    open spec fn view(&self) -> ProviderView {
        match *self {
            Provider::WeatherAPI(client) => ProviderView::WeatherAPI(client@),
            Provider::OpenMeteo(client) => ProviderView::OpenMeteo(client@),
        }
    }
}

/// What became of a service that was in line.
#[derive(Clone, Copy, Debug, PartialEq, Eq, Structural)]
pub enum Outcome {
    /// It was not asked: its request was not valid.
    Skipped,
    /// It was asked and did not answer.
    Failed,
}

/// A service that was in line, and what became of it.
#[derive(Clone, Copy, Debug, PartialEq, Eq, Structural)]
pub struct Attempt {
    pub source: Source,
    pub outcome: Outcome,
}

/// Why the conditions could not be had.
#[derive(Debug, PartialEq)]
pub enum FetchConditionsError {
    /// A service could not be asked, or what it sent is no answer of its own.
    Unknown,
    /// None of the services answered. These were in line, in this order.
    NoProviderSucceeded(Vec<Attempt>),
}

/// An error of the fetch, as contracts speak of it.
pub enum FetchConditionsErrorView {
    Unknown,
    NoProviderSucceeded(Seq<Attempt>),
}

impl View for FetchConditionsError {
    type V = FetchConditionsErrorView;

    open spec fn view(&self) -> FetchConditionsErrorView {
        match *self {
            FetchConditionsError::Unknown => FetchConditionsErrorView::Unknown,
            FetchConditionsError::NoProviderSucceeded(asked) => {
                FetchConditionsErrorView::NoProviderSucceeded(asked@)
            },
        }
    }
}

impl FetchConditionsError {
    /// What the user is told.
    pub open spec fn message(self) -> Seq<char> {
        match self {
            FetchConditionsError::Unknown => "unknown error fetching weather conditions"@,
            FetchConditionsError::NoProviderSucceeded(_) => "no weather providers succeeded"@,
        }
    }

    /// What the user is told. Which services were in line is in the error
    /// itself.
    pub fn to_string(&self) -> (text: String)
        ensures
            text@ == self.message(),
    {
        match self {
            FetchConditionsError::Unknown => {
                "unknown error fetching weather conditions".to_owned()
            },
            FetchConditionsError::NoProviderSucceeded(_) => {
                "no weather providers succeeded".to_owned()
            },
        }
    }
}

/// The outcome of the pending request: the answer of one of the services, or
/// none.
#[derive(Clone, Copy, Debug, PartialEq, Eq, Structural)]
pub enum Event {
    WeatherAPI(weather_api::Response),
    OpenMeteo(open_meteo::Response),
    Failed,
}

impl ProviderView {
    /// The request to a service for the weather at a location.
    pub open spec fn new(source: Source, config: ConfigView, location: LocationView) -> ProviderView {
        match source {
            Source::WeatherAPI => ProviderView::WeatherAPI(
                weather_api::client_for(config, location),
            ),
            Source::OpenMeteo => ProviderView::OpenMeteo(open_meteo::client_for(config, location)),
        }
    }

    /// The service that the request goes to.
    pub open spec fn source(self) -> Source {
        match self {
            ProviderView::WeatherAPI(_) => Source::WeatherAPI,
            ProviderView::OpenMeteo(_) => Source::OpenMeteo,
        }
    }

    /// Whether the request is worth sending.
    pub open spec fn is_valid(self) -> bool {
        match self {
            ProviderView::WeatherAPI(client) => client.is_valid,
            ProviderView::OpenMeteo(_) => true,
        }
    }

    /// The conditions that an event reports, where the event is an answer of
    /// the service that was asked. The glyph is that of this service's code.
    pub open spec fn read(self, event: Event) -> Option<CurrentConditionsView> {
        match (self, event) {
            (ProviderView::WeatherAPI(_), Event::WeatherAPI(answer)) => Some(answer.conditions()),
            (ProviderView::OpenMeteo(_), Event::OpenMeteo(answer)) => Some(answer.conditions()),
            _ => None,
        }
    }

    /// What is noted of the request once it is clear that it brings nothing.
    pub open spec fn attempt(self) -> Attempt {
        Attempt {
            source: self.source(),
            outcome: if self.is_valid() {
                Outcome::Failed
            } else {
                Outcome::Skipped
            },
        }
    }
}

impl Provider {
    /// The request to a service for the weather at a location.
    pub fn new(source: Source, config: &Config, location: &Location) -> (provider: Self)
        ensures
            provider@ == ProviderView::new(source, config.model(), location@),
    {
        match source {
            Source::WeatherAPI => Provider::WeatherAPI(weather_api::Client::new(config, location)),
            Source::OpenMeteo => Provider::OpenMeteo(open_meteo::Client::new(config, location)),
        }
    }

    /// The service that the request goes to.
    pub fn source(&self) -> (source: Source)
        ensures
            source == self@.source(),
    {
        match self {
            Provider::WeatherAPI(_) => Source::WeatherAPI,
            Provider::OpenMeteo(_) => Source::OpenMeteo,
        }
    }

    /// Whether the request is worth sending.
    pub fn is_valid(&self) -> (valid: bool)
        ensures
            valid == self@.is_valid(),
    {
        match self {
            Provider::WeatherAPI(client) => client.is_valid(),
            Provider::OpenMeteo(client) => client.is_valid(),
        }
    }

    /// Reads the outcome of this request: the conditions, brought to the
    /// common form, where the event is an answer of the service asked.
    pub fn read(&self, event: Event) -> (read: Result<CurrentConditions, FetchConditionsError>)
        ensures
            match read {
                Ok(conditions) => self@.read(event) == Some(conditions@),
                Err(error) => self@.read(event) is None && error@
                    == FetchConditionsErrorView::Unknown,
            },
    {
        match (self, event) {
            (Provider::WeatherAPI(_), Event::WeatherAPI(answer)) => Ok(
                CurrentConditions::from(answer),
            ),
            (Provider::OpenMeteo(_), Event::OpenMeteo(answer)) => Ok(
                CurrentConditions::from(answer),
            ),
            _ => Err(FetchConditionsError::Unknown),
        }
    }
}

/// A fetch under way: the request that is pending, those that are in line
/// behind it, and what became of those before it.
#[derive(Debug)]
pub struct Fetcher {
    pub pending: Provider,
    pub rest: Vec<Provider>,
    pub log: Vec<Attempt>,
}

/// How far a fetch has come.
#[derive(Debug)]
pub enum Fetch {
    Pending(Fetcher),
    Fetched(CurrentConditions),
    Failed(FetchConditionsError),
}

/// A fetch under way, as contracts speak of it.
pub struct FetcherView {
    pub pending: ProviderView,
    pub rest: Seq<ProviderView>,
    pub log: Seq<Attempt>,
}

/// The state of a fetch, as contracts speak of it.
pub enum FetchView {
    Pending(FetcherView),
    Fetched(CurrentConditionsView),
    Failed(FetchConditionsErrorView),
}

/// The requests in line as text.
pub open spec fn line_view(line: Vec<Provider>) -> Seq<ProviderView> {
    Seq::new(line@.len(), |i: int| line@[i]@)
}

impl View for Fetcher {
    type V = FetcherView;

    open spec fn view(&self) -> FetcherView {
        FetcherView { pending: self.pending@, rest: line_view(self.rest), log: self.log@ }
    }
}

impl View for Fetch {
    type V = FetchView;

    open spec fn view(&self) -> FetchView {
        match *self {
            Fetch::Pending(fetcher) => FetchView::Pending(fetcher@),
            Fetch::Fetched(conditions) => FetchView::Fetched(conditions@),
            Fetch::Failed(error) => FetchView::Failed(error@),
        }
    }
}

/// Moves on to the first request in line that is valid. Those before it are
/// noted as skipped and never sent. With none left the fetch has failed, and
/// the failure names every service that was in line.
pub open spec fn advance(line: Seq<ProviderView>, log: Seq<Attempt>) -> FetchView
    decreases line.len(),
{
    if line.len() == 0 {
        FetchView::Failed(FetchConditionsErrorView::NoProviderSucceeded(log))
    } else if line[0].is_valid() {
        FetchView::Pending(FetcherView { pending: line[0], rest: line.drop_first(), log })
    } else {
        advance(line.drop_first(), log.push(line[0].attempt()))
    }
}

/// The requests to the services, in their order.
pub open spec fn line_for(
    sources: Seq<Source>,
    config: ConfigView,
    location: LocationView,
) -> Seq<ProviderView> {
    Seq::new(sources.len(), |i: int| ProviderView::new(sources[i], config, location))
}

impl FetcherView {
    /// What follows the pending request once its outcome is known: an answer
    /// of the service that was asked is the result, read by that service's
    /// own codes; anything else is noted as a failure, and the fetch moves on.
    pub open spec fn step(self, event: Event) -> FetchView {
        match self.pending.read(event) {
            Some(conditions) => FetchView::Fetched(conditions),
            None => advance(
                self.rest,
                self.log.push(Attempt { source: self.pending.source(), outcome: Outcome::Failed }),
            ),
        }
    }
}

impl FetchView {
    /// Where a fetch stands once its requests have had these outcomes, one
    /// after the other. Outcomes that come after the end change nothing.
    pub open spec fn after(self, events: Seq<Event>) -> FetchView
        decreases events.len(),
    {
        if events.len() == 0 {
            self
        } else {
            match self {
                FetchView::Pending(fetcher) => fetcher.step(events[0]).after(events.drop_first()),
                _ => self,
            }
        }
    }
}

/// Moves on to the first request in line that is valid, as `advance` says.
fn advance_line(line: Vec<Provider>, log: Vec<Attempt>) -> (fetch: Fetch)
    ensures
        fetch@ == advance(line_view(line), log@),
{
    let mut rest = line;
    let mut noted = log;
    while rest.len() > 0
        invariant
            advance(line_view(rest), noted@) == advance(line_view(line), log@),
        decreases rest.len(),
    {
        let ghost before = line_view(rest);
        let provider = rest.remove(0);
        assert(provider@ == before[0]);
        assert(line_view(rest) =~= before.drop_first());
        if provider.is_valid() {
            return Fetch::Pending(Fetcher { pending: provider, rest, log: noted });
        }
        noted.push(Attempt { source: provider.source(), outcome: Outcome::Skipped });
    }
    Fetch::Failed(FetchConditionsError::NoProviderSucceeded(noted))
}

/// Begins to ask the services, in their order, for the weather at a location.
pub fn fetch(sources: &Vec<Source>, config: &Config, location: &Location) -> (fetch: Fetch)
    ensures
        fetch@ == advance(line_for(sources@, config.model(), location@), Seq::empty()),
{
    let mut line: Vec<Provider> = Vec::new();
    let mut i: usize = 0;
    while i < sources.len()
        invariant
            i <= sources.len(),
            line@.len() == i,
            line_view(line) == line_for(sources@.take(i as int), config.model(), location@),
        decreases sources.len() - i,
    {
        let ghost before = line_view(line);
        line.push(Provider::new(sources[i], config, location));
        i += 1;
        assert forall|j: int| 0 <= j < i implies #[trigger] line_view(line)[j] == line_for(
            sources@.take(i as int),
            config.model(),
            location@,
        )[j] by {
            if j < i - 1 {
                assert(line_view(line)[j] == before[j]);
                assert(sources@.take(i - 1)[j] == sources@.take(i as int)[j]);
            }
        }
        assert(line_view(line) =~= line_for(sources@.take(i as int), config.model(), location@));
    }
    assert(sources@.take(i as int) =~= sources@);
    advance_line(line, Vec::new())
}

impl CurrentConditions {
    /// Begins to ask for the weather at a location: the services that the
    /// configuration makes available, in their order.
    pub fn get(config: &Config, location: &Location) -> (fetch: Fetch)
        ensures
            fetch@ == advance(
                line_for(available(config.model()), config.model(), location@),
                Seq::empty(),
            ),
    {
        let sources = Source::available(config);
        fetch(&sources, config, location)
    }
}

impl Fetcher {
    /// Takes the outcome of the pending request and says what follows.
    pub fn step(self, event: Event) -> (fetch: Fetch)
        ensures
            fetch@ == self@.step(event),
    {
        match self.pending.read(event) {
            Ok(conditions) => Fetch::Fetched(conditions),
            Err(_) => {
                let mut log = self.log;
                log.push(Attempt { source: self.pending.source(), outcome: Outcome::Failed });
                advance_line(self.rest, log)
            },
        }
    }
}

} // verus!

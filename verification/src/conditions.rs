//! From a configuration and, maybe, a region to what is shown: first the
//! location, then the weather there, then the temperature in the stored unit.

use vstd::prelude::*;

use crate::config::{Config, ConfigView};
use crate::location::from_postal_code::region_parts;
use crate::location::{
    resolve, start_with, LocationError, Resolution, ResolutionView, Resolver, ResolverView,
};
use crate::weather::{
    advance, available, line_for, CurrentConditions, CurrentConditionsView, Fetch,
    FetchConditionsError, FetchConditionsErrorView, FetchView, Fetcher, FetcherView,
};
use crate::Unit;

verus! {

/// What is shown: the temperature in whole degrees of the stored unit, and
/// the glyph.
#[derive(Debug, PartialEq)]
pub struct Output {
    pub temp: i32,
    pub icon: String,
}

/// What is shown, as contracts speak of it.
pub struct OutputView {
    pub temp: int,
    pub icon: Seq<char>,
}

impl View for Output {
    type V = OutputView;

    open spec fn view(&self) -> OutputView {
        OutputView { temp: self.temp as int, icon: self.icon@ }
    }
}

/// What is shown of the conditions in a unit: the whole degrees of the
/// temperature of that unit, and the glyph as it is.
pub open spec fn output_of(unit: Unit, conditions: CurrentConditionsView) -> OutputView {
    OutputView {
        temp: match unit {
            Unit::C => conditions.temp_c.whole_degrees(),
            Unit::F => conditions.temp_f.whole_degrees(),
        },
        icon: conditions.icon,
    }
}

/// A request for the present conditions: the configuration, and the region
/// to report on where it is not the configuration's.
#[derive(Debug)]
pub struct Conditions {
    config: Config,
    region: Option<String>,
}

/// A request for the present conditions, as contracts speak of it.
pub struct ConditionsView {
    pub config: ConfigView,
    pub region: Option<Seq<char>>,
}

impl View for Conditions {
    type V = ConditionsView;

    closed spec fn view(&self) -> ConditionsView {
        ConditionsView {
            config: self.config.model(),
            region: match self.region {
                Some(region) => Some(region@),
                None => None,
            },
        }
    }
}

/// Why nothing can be shown.
#[derive(Debug, PartialEq)]
pub enum Error {
    Location(LocationError),
    Weather(FetchConditionsError),
}

/// An error, as contracts speak of it.
pub enum ErrorView {
    Location(LocationError),
    Weather(FetchConditionsErrorView),
}

impl View for Error {
    type V = ErrorView;

    open spec fn view(&self) -> ErrorView {
        match *self {
            Error::Location(error) => ErrorView::Location(error),
            Error::Weather(error) => ErrorView::Weather(error@),
        }
    }
}

impl Error {
    /// The message of the resolution's or the fetch's error.
    pub fn to_string(&self) -> (text: String)
        ensures
            text@ == match *self {
                Error::Location(error) => error.message(),
                Error::Weather(error) => error.message(),
            },
    {
        match self {
            Error::Location(error) => error.to_string(),
            Error::Weather(error) => error.to_string(),
        }
    }
}

/// The outcome of the pending request, which is one of the resolution or one
/// of the fetch.
#[derive(Debug)]
pub enum Event {
    Location(crate::location::Event),
    Weather(crate::weather::Event),
}

/// An outcome, as contracts speak of it.
pub enum EventView {
    Location(crate::location::EventView),
    Weather(crate::weather::Event),
}

impl View for Event {
    type V = EventView;

    open spec fn view(&self) -> EventView {
        match *self {
            Event::Location(event) => EventView::Location(event@),
            Event::Weather(event) => EventView::Weather(event),
        }
    }
}

impl EventView {
    /// The event as an outcome of a resolution's request. An outcome of the
    /// fetch is none.
    pub open spec fn of_resolution(self) -> crate::location::EventView {
        match self {
            EventView::Location(event) => event,
            EventView::Weather(_) => crate::location::EventView::Failed,
        }
    }

    /// The event as an outcome of a fetch's request. An outcome of the
    /// resolution is none.
    pub open spec fn of_fetch(self) -> crate::weather::Event {
        match self {
            EventView::Weather(event) => event,
            EventView::Location(_) => crate::weather::Event::Failed,
        }
    }
}

/// How far the work has come. While it is under way, the resolver or the
/// fetcher names the one request that is pending.
#[derive(Debug)]
pub enum Progress {
    Locating { conditions: Conditions, resolver: Resolver },
    Fetching { conditions: Conditions, fetcher: Fetcher },
    Done(Output),
    Failed(Error),
}

/// The state of the work, as contracts speak of it.
pub enum ProgressView {
    Locating { conditions: ConditionsView, resolver: ResolverView },
    Fetching { conditions: ConditionsView, fetcher: FetcherView },
    Done(OutputView),
    Failed(ErrorView),
}

impl View for Progress {
    type V = ProgressView;

    open spec fn view(&self) -> ProgressView {
        match *self {
            Progress::Locating { conditions, resolver } => ProgressView::Locating {
                conditions: conditions@,
                resolver: resolver@,
            },
            Progress::Fetching { conditions, fetcher } => ProgressView::Fetching {
                conditions: conditions@,
                fetcher: fetcher@,
            },
            Progress::Done(output) => ProgressView::Done(output@),
            Progress::Failed(error) => ProgressView::Failed(error@),
        }
    }
}

impl ConditionsView {
    /// How the work begins: with the resolution of the region, or of the
    /// configuration's location where no region is given.
    pub open spec fn begin(self) -> ProgressView {
        self.located(start_with(self.region, self.config.location))
    }

    /// What follows a step of the resolution. Once the location is there, the
    /// services that the configuration makes available are asked for the
    /// weather at it. A resolution that fails ends the work with its error.
    pub open spec fn located(self, resolution: ResolutionView) -> ProgressView {
        match resolution {
            ResolutionView::Pending(resolver) => ProgressView::Locating {
                conditions: self,
                resolver,
            },
            ResolutionView::Resolved(location) => self.fetched(
                advance(line_for(available(self.config), self.config, location), Seq::empty()),
            ),
            ResolutionView::Failed(error) => ProgressView::Failed(ErrorView::Location(error)),
        }
    }

    /// What follows a step of the fetch. Once the conditions are there, they
    /// are shown in the stored unit. A fetch that fails ends the work with its
    /// error.
    pub open spec fn fetched(self, fetch: FetchView) -> ProgressView {
        match fetch {
            FetchView::Pending(fetcher) => ProgressView::Fetching { conditions: self, fetcher },
            FetchView::Fetched(conditions) => ProgressView::Done(
                output_of(self.config.unit, conditions),
            ),
            FetchView::Failed(error) => ProgressView::Failed(ErrorView::Weather(error)),
        }
    }
}

impl ProgressView {
    /// What follows the pending request once its outcome is known. An event
    /// of the other kind counts as the request's failure. Work that has ended
    /// stays as it is.
    pub open spec fn step(self, event: EventView) -> ProgressView {
        match self {
            ProgressView::Locating { conditions, resolver } => conditions.located(
                resolver.step(event.of_resolution()),
            ),
            ProgressView::Fetching { conditions, fetcher } => conditions.fetched(
                fetcher.step(event.of_fetch()),
            ),
            _ => self,
        }
    }
}

impl ProgressView {
    /// Where the work stands once its requests have had these outcomes, one
    /// after the other.
    pub open spec fn after(self, events: Seq<EventView>) -> ProgressView
        decreases events.len(),
    {
        if events.len() == 0 {
            self
        } else {
            self.step(events[0]).after(events.drop_first())
        }
    }
}

/// A region that is not a postal code, a comma and a country ends the work at
/// once with that error: nothing is asked of the cache or of any service,
/// whatever is stored and whatever comes in.
pub proof fn law_malformed_region_ends_the_work(
    conditions: ConditionsView,
    events: Seq<EventView>,
)
    requires
        conditions.region is Some,
        region_parts(conditions.region->Some_0) is Err,
    ensures
        conditions.begin().after(events) == ProgressView::Failed(
            ErrorView::Location(
                LocationError::InvalidRegionFormat(region_parts(conditions.region->Some_0)->Err_0),
            ),
        ),
{
    lemma_ended_stays(conditions.begin(), events);
}

/// Work that has ended stays as it is.
pub proof fn lemma_ended_stays(progress: ProgressView, events: Seq<EventView>)
    requires
        progress is Done || progress is Failed,
    ensures
        progress.after(events) == progress,
    decreases events.len(),
{
    if events.len() > 0 {
        lemma_ended_stays(progress, events.drop_first());
    }
}

/// The weather is asked for a location that is there: at once only for the
/// stored one, where no region is given, and else only after the resolution
/// has brought one. The services are those that the configuration makes
/// available, first to last.
pub proof fn law_location_before_weather(
    conditions: ConditionsView,
    resolver: ResolverView,
    event: EventView,
)
    ensures
        conditions.begin() is Fetching ==> conditions.region is None
            && conditions.config.location is Some,
        (ProgressView::Locating { conditions, resolver }).step(event) matches ProgressView::Fetching {
            fetcher,
            ..
        } ==> resolver.step(event.of_resolution()) matches ResolutionView::Resolved(location)
            && FetchView::Pending(fetcher) == advance(
            line_for(available(conditions.config), conditions.config, location),
            Seq::empty(),
        ),
{
}

impl Conditions {
    #[must_use]
    pub fn new(config: Config, region: Option<String>) -> (conditions: Self)
        ensures
            conditions@ == (ConditionsView {
                config: config.model(),
                region: match region {
                    Some(region) => Some(region@),
                    None => None,
                },
            }),
    {
        Self { config, region }
    }

    /// Begins the work.
    pub fn fetch(self) -> (progress: Progress)
        ensures
            progress@ == self@.begin(),
    {
        let resolution = match &self.region {
            Some(region) => resolve(Some(region.as_str()), self.config.location.as_ref()),
            None => self.config.get_location(),
        };
        self.located(resolution)
    }

    /// The conditions as they are shown: the temperature of the stored unit,
    /// cut to whole degrees.
    pub fn to_output(&self, conditions: CurrentConditions) -> (output: Output)
        ensures
            output@ == output_of(self@.config.unit, conditions@),
    {
        let temp = match self.config.unit {
            Unit::C => conditions.temp_c,
            Unit::F => conditions.temp_f,
        };
        Output { temp: temp.truncate(), icon: conditions.icon }
    }

    fn located(self, resolution: Resolution) -> (progress: Progress)
        ensures
            progress@ == self@.located(resolution@),
    {
        match resolution {
            Resolution::Pending(resolver) => Progress::Locating { conditions: self, resolver },
            Resolution::Resolved(location) => {
                let fetch = CurrentConditions::get(&self.config, &location);
                self.fetched(fetch)
            },
            Resolution::Failed(error) => Progress::Failed(Error::Location(error)),
        }
    }

    fn fetched(self, fetch: Fetch) -> (progress: Progress)
        ensures
            progress@ == self@.fetched(fetch@),
    {
        match fetch {
            Fetch::Pending(fetcher) => Progress::Fetching { conditions: self, fetcher },
            Fetch::Fetched(conditions) => Progress::Done(self.to_output(conditions)),
            Fetch::Failed(error) => Progress::Failed(Error::Weather(error)),
        }
    }
}

impl Progress {
    /// Takes the outcome of the pending request and says what follows.
    pub fn step(self, event: Event) -> (progress: Progress)
        ensures
            progress@ == self@.step(event@),
    {
        match self {
            Progress::Locating { conditions, resolver } => {
                let outcome = match event {
                    Event::Location(event) => event,
                    Event::Weather(_) => crate::location::Event::Failed,
                };
                conditions.located(resolver.step(outcome))
            },
            Progress::Fetching { conditions, fetcher } => {
                let outcome = match event {
                    Event::Weather(event) => event,
                    Event::Location(_) => crate::weather::Event::Failed,
                };
                conditions.fetched(fetcher.step(outcome))
            },
            Progress::Done(output) => Progress::Done(output),
            Progress::Failed(error) => Progress::Failed(error),
        }
    }
}

} // verus!

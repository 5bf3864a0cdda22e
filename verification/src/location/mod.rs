//! A place, and how one is found.

use vstd::prelude::*;
use vstd::string::*;

use crate::location::from_postal_code::{geocoder_query, places_view, region_parts};
use crate::text::{lemma_split_at_first, split_at_first, split_once, trim, trimmed};

pub mod cache;
pub mod from_ip;
pub mod from_postal_code;
pub mod laws;

verus! {

/// Why a text could not be read as coordinates, or a postal code not be found.
#[derive(Clone, Copy, Debug, PartialEq, Eq, Structural)]
pub enum ParseCoordinatesError {
    InvalidFormat,
    UnknownLocation,
}

impl ParseCoordinatesError {
    /// What the user is told.
    pub open spec fn message(self) -> Seq<char> {
        match self {
            ParseCoordinatesError::InvalidFormat => {
                "provided string was not in the format 'lat,long'"@
            },
            ParseCoordinatesError::UnknownLocation => "provided postal code was not found"@,
        }
    }

    /// What the user is told.
    pub fn to_string(&self) -> (text: String)
        ensures
            text@ == self.message(),
    {
        match self {
            ParseCoordinatesError::InvalidFormat => {
                "provided string was not in the format 'lat,long'".to_owned()
            },
            ParseCoordinatesError::UnknownLocation => {
                "provided postal code was not found".to_owned()
            },
        }
    }
}

/// What is wrong with a region that is not a postal code, a comma and a country.
#[derive(Clone, Copy, Debug, PartialEq, Eq, Structural)]
pub enum InvalidRegion {
    MissingComma,
    MissingPostalCode,
    MissingCountry,
}

impl InvalidRegion {
    /// What the user is told.
    pub open spec fn message(self) -> Seq<char> {
        match self {
            InvalidRegion::MissingComma => "invalid location, expect [POSTAL_CODE, COUNTRY]"@,
            InvalidRegion::MissingPostalCode => "missing postal code"@,
            InvalidRegion::MissingCountry => "missing country"@,
        }
    }

    /// What the user is told.
    pub fn to_string(&self) -> (text: String)
        ensures
            text@ == self.message(),
    {
        match self {
            InvalidRegion::MissingComma => {
                "invalid location, expect [POSTAL_CODE, COUNTRY]".to_owned()
            },
            InvalidRegion::MissingPostalCode => "missing postal code".to_owned(),
            InvalidRegion::MissingCountry => "missing country".to_owned(),
        }
    }
}

/// Why no location could be had. Each is final: nothing is tried again.
#[derive(Clone, Copy, Debug, PartialEq, Eq, Structural)]
pub enum LocationError {
    /// The region given is not a postal code, a comma and a country.
    InvalidRegionFormat(InvalidRegion),
    /// The geocoder failed or knows no place of that postal code.
    UnknownLocation,
    /// The place could not be inferred from the caller's address.
    LocationUnavailable,
    /// The cache could not be read or written.
    Cache,
}

impl LocationError {
    /// What the user is told.
    pub open spec fn message(self) -> Seq<char> {
        match self {
            LocationError::InvalidRegionFormat(fault) => fault.message(),
            LocationError::UnknownLocation => ParseCoordinatesError::UnknownLocation.message(),
            LocationError::LocationUnavailable => "location could not be inferred"@,
            LocationError::Cache => "location cache could not be read or written"@,
        }
    }

    /// What the user is told.
    pub fn to_string(&self) -> (text: String)
        ensures
            text@ == self.message(),
    {
        match self {
            LocationError::InvalidRegionFormat(fault) => fault.to_string(),
            LocationError::UnknownLocation => {
                ParseCoordinatesError::UnknownLocation.to_string()
            },
            LocationError::LocationUnavailable => "location could not be inferred".to_owned(),
            LocationError::Cache => "location cache could not be read or written".to_owned(),
        }
    }
}

/// A point on the map. `loc` is the latitude, a comma and the longitude in
/// every location that this library makes; `postal_code` is empty where none
/// is known.
#[derive(Debug, PartialEq)]
pub struct Location {
    pub loc: String,
    pub latitude: String,
    pub longitude: String,
    pub postal_code: String,
}

/// A location as text.
pub struct LocationView {
    pub loc: Seq<char>,
    pub latitude: Seq<char>,
    pub longitude: Seq<char>,
    pub postal_code: Seq<char>,
}

impl LocationView {
    /// `loc` is the latitude, a comma and the longitude.
    pub open spec fn is_canonical(self) -> bool {
        self.loc == self.latitude + seq![','] + self.longitude
    }

    /// How a location is shown.
    pub open spec fn text(self) -> Seq<char> {
        "Coordinates: "@ + self.loc + "\n  Postal Code: "@ + self.postal_code
    }
}

impl View for Location {
    type V = LocationView;

    open spec fn view(&self) -> LocationView {
        LocationView {
            loc: self.loc@,
            latitude: self.latitude@,
            longitude: self.longitude@,
            postal_code: self.postal_code@,
        }
    }
}

impl Clone for Location {
    fn clone(&self) -> (copy: Self)
        ensures
            copy == *self,
    {
        Location {
            loc: self.loc.clone(),
            latitude: self.latitude.clone(),
            longitude: self.longitude.clone(),
            postal_code: self.postal_code.clone(),
        }
    }
}

impl Default for Location {
    fn default() -> (location: Self)
        ensures
            location@ == (LocationView {
                loc: Seq::empty(),
                latitude: Seq::empty(),
                longitude: Seq::empty(),
                postal_code: Seq::empty(),
            }),
    {
        Location {
            loc: String::new(),
            latitude: String::new(),
            longitude: String::new(),
            postal_code: String::new(),
        }
    }
}

impl Location {
    /// The location as it is shown to the user.
    pub fn to_string(&self) -> (text: String)
        ensures
            text@ == self@.text(),
    {
        let mut text = "Coordinates: ".to_owned();
        text.append(self.loc.as_str());
        text.append("\n  Postal Code: ");
        text.append(self.postal_code.as_str());
        text
    }
}

/// Where the caller's coordinates can be asked for as plain text.
pub const LOCATION_URL: &'static str = "https://ipinfo.io/loc";

/// Something that can ask for the caller's coordinates and hands back the
/// answer as text.
pub trait HttpClient {
    /// The answer's text, or why there is none.
    fn get_location(&self) -> Result<String, ParseCoordinatesError>;
}

/// A latitude and a longitude, each as text.
#[derive(Debug, PartialEq)]
pub struct Coordinates {
    pub latitude: String,
    pub longitude: String,
}

/// Coordinates as text.
pub struct CoordinatesView {
    pub latitude: Seq<char>,
    pub longitude: Seq<char>,
}

impl CoordinatesView {
    /// How coordinates are shown: the latitude, a comma, the longitude.
    pub open spec fn text(self) -> Seq<char> {
        self.latitude + seq![','] + self.longitude
    }
}

impl View for Coordinates {
    type V = CoordinatesView;

    open spec fn view(&self) -> CoordinatesView {
        CoordinatesView { latitude: self.latitude@, longitude: self.longitude@ }
    }
}

/// The coordinates that a text holds: the text has exactly one comma, and
/// the latitude and the longitude are what stands before and after it, each
/// without the white space around it.
pub open spec fn coordinates_in(text: Seq<char>) -> Option<CoordinatesView> {
    match split_at_first(text, ',') {
        Some((latitude, longitude)) => if longitude.contains(',') {
            None
        } else {
            Some(CoordinatesView { latitude: trimmed(latitude), longitude: trimmed(longitude) })
        },
        None => None,
    }
}

impl Coordinates {
    /// The coordinates of a latitude and a longitude.
    pub fn new(lat: String, long: String) -> (coordinates: Self)
        ensures
            coordinates.latitude == lat,
            coordinates.longitude == long,
    {
        Self { latitude: lat, longitude: long }
    }

    /// The coordinates as they are shown to the user.
    pub fn to_string(&self) -> (text: String)
        ensures
            text@ == self@.text(),
    {
        let mut text = self.latitude.clone();
        text.append(",");
        text.append(self.longitude.as_str());
        proof {
            reveal_strlit(",");
            assert(","@ =~= seq![',']);
        }
        text
    }
}

/// Reads coordinates from a text such as `40.748817,-73.985428`.
impl core::str::FromStr for Coordinates {
    type Err = ParseCoordinatesError;

    fn from_str(text: &str) -> (read: Result<Self, ParseCoordinatesError>)
        ensures
            match read {
                Ok(coordinates) => coordinates_in(text@) == Some(coordinates@),
                Err(error) => coordinates_in(text@) is None
                    && error == ParseCoordinatesError::InvalidFormat,
            },
    {
        let (lat, long) = match split_once(text, ',') {
            Some(parts) => parts,
            None => { return Err(ParseCoordinatesError::InvalidFormat); },
        };
        proof {
            lemma_split_at_first(long@, ',');
        }
        if split_once(long, ',').is_some() {
            return Err(ParseCoordinatesError::InvalidFormat);
        }
        Ok(Self::new(trim(lat).to_owned(), trim(long).to_owned()))
    }
}

/// What becomes of a client's answer: a text is read as coordinates, an
/// error is handed on as it is.
pub open spec fn answer_read(
    answer: Result<String, ParseCoordinatesError>,
) -> Result<CoordinatesView, ParseCoordinatesError> {
    match answer {
        Ok(text) => match coordinates_in(text@) {
            Some(coordinates) => Ok(coordinates),
            None => Err(ParseCoordinatesError::InvalidFormat),
        },
        Err(error) => Err(error),
    }
}

/// Reads a client's answer.
pub fn read(answer: Result<String, ParseCoordinatesError>) -> (found: Result<
    Coordinates,
    ParseCoordinatesError,
>)
    ensures
        match found {
            Ok(coordinates) => answer_read(answer) == Ok::<_, ParseCoordinatesError>(coordinates@),
            Err(error) => answer_read(answer) == Err::<CoordinatesView, _>(error),
        },
{
    match answer {
        Ok(text) => <Coordinates as core::str::FromStr>::from_str(text.as_str()),
        Err(error) => Err(error),
    }
}

/// Asks `client` for the caller's coordinates and reads its answer: what is
/// returned is what `read` makes of an answer that the client has handed
/// back. So a text with coordinates in it gives these coordinates, any other
/// text is of an invalid format, and the client's own error is handed on.
pub fn current<T: HttpClient>(client: &T) -> (found: Result<Coordinates, ParseCoordinatesError>)
    ensures
        exists|answer: Result<String, ParseCoordinatesError>| #[trigger]
            call_ensures(T::get_location, (client,), answer) && match found {
                Ok(coordinates) => answer_read(answer) == Ok::<_, ParseCoordinatesError>(
                    coordinates@,
                ),
                Err(error) => answer_read(answer) == Err::<CoordinatesView, _>(error),
            },
{
    read(client.get_location())
}

/// A resolution under way. It names the one request that is pending; the
/// caller performs it and hands the outcome to `step`.
#[derive(Debug)]
pub enum Resolver {
    /// Read the cache under `postal_code`. `geocoder` is asked on a miss.
    Lookup { postal_code: String, geocoder: from_postal_code::Client },
    /// Send `geocoder`.
    Geocode { geocoder: from_postal_code::Client },
    /// Send `locator`, which infers the place from the caller's address.
    Infer { locator: from_ip::Client },
    /// Write `location` to the cache, under its postal code.
    Store { location: Location },
}

/// The outcome of the pending request.
#[derive(Debug)]
pub enum Event {
    /// The cache was read: the location it holds under the postal code, if any.
    Found(Option<Location>),
    /// The geocoder answered with these places.
    Geocoded(Vec<from_postal_code::Response>),
    /// The caller's address was located.
    Inferred(from_ip::Response),
    /// The cache was written.
    Stored,
    /// The request failed: no connection, no answer, an answer that cannot
    /// be read, a cache that cannot be reached.
    Failed,
}

/// How far a resolution has come.
#[derive(Debug)]
pub enum Resolution {
    Pending(Resolver),
    Resolved(Location),
    Failed(LocationError),
}

/// A resolution under way, as contracts speak of it.
pub enum ResolverView {
    Lookup { postal_code: Seq<char>, geocoder: Seq<(Seq<char>, Seq<char>)> },
    Geocode { geocoder: Seq<(Seq<char>, Seq<char>)> },
    Infer,
    Store { location: LocationView },
}

/// An outcome, as contracts speak of it.
pub enum EventView {
    Found(Option<LocationView>),
    Geocoded(Seq<from_postal_code::ResponseView>),
    Inferred(from_ip::ResponseView),
    Stored,
    Failed,
}

/// The state of a resolution, as contracts speak of it.
pub enum ResolutionView {
    Pending(ResolverView),
    Resolved(LocationView),
    Failed(LocationError),
}

impl View for Resolver {
    type V = ResolverView;

    open spec fn view(&self) -> ResolverView {
        match *self {
            Resolver::Lookup { postal_code, geocoder } => ResolverView::Lookup {
                postal_code: postal_code@,
                geocoder: geocoder@,
            },
            Resolver::Geocode { geocoder } => ResolverView::Geocode { geocoder: geocoder@ },
            Resolver::Infer { locator } => ResolverView::Infer,
            Resolver::Store { location } => ResolverView::Store { location: location@ },
        }
    }
}

impl View for Event {
    type V = EventView;

    open spec fn view(&self) -> EventView {
        match *self {
            Event::Found(Some(location)) => EventView::Found(Some(location@)),
            Event::Found(None) => EventView::Found(None),
            Event::Geocoded(places) => EventView::Geocoded(places_view(places)),
            Event::Inferred(answer) => EventView::Inferred(answer@),
            Event::Stored => EventView::Stored,
            Event::Failed => EventView::Failed,
        }
    }
}

impl View for Resolution {
    type V = ResolutionView;

    open spec fn view(&self) -> ResolutionView {
        match *self {
            Resolution::Pending(resolver) => ResolutionView::Pending(resolver@),
            Resolution::Resolved(location) => ResolutionView::Resolved(location@),
            Resolution::Failed(error) => ResolutionView::Failed(error),
        }
    }
}

impl ResolverView {
    /// What follows the pending request once its outcome is known. An event
    /// that is no outcome of the pending request counts as its failure.
    ///
    /// - A cache hit is the result, unchanged. A miss sends the geocoder. A
    ///   cache that fails ends the resolution.
    /// - The first place of the geocoder's answer is written to the cache. No
    ///   place, or no answer, means that the location is unknown.
    /// - An inferred location is written to the cache. No answer, or one
    ///   without coordinates, means that no location is available.
    /// - Once the cache is written the location is the result.
    pub open spec fn step(self, event: EventView) -> ResolutionView {
        match self {
            ResolverView::Lookup { postal_code, geocoder } => match event {
                EventView::Found(Some(location)) => ResolutionView::Resolved(location),
                EventView::Found(None) => ResolutionView::Pending(ResolverView::Geocode { geocoder }),
                _ => ResolutionView::Failed(LocationError::Cache),
            },
            ResolverView::Geocode { geocoder } => match event {
                EventView::Geocoded(places) if places.len() > 0 => ResolutionView::Pending(
                    ResolverView::Store { location: places[0].location() },
                ),
                _ => ResolutionView::Failed(LocationError::UnknownLocation),
            },
            ResolverView::Infer => match event {
                EventView::Inferred(answer) if answer.location() is Some => ResolutionView::Pending(
                    ResolverView::Store { location: answer.location()->Some_0 },
                ),
                _ => ResolutionView::Failed(LocationError::LocationUnavailable),
            },
            ResolverView::Store { location } => match event {
                EventView::Stored => ResolutionView::Resolved(location),
                _ => ResolutionView::Failed(LocationError::Cache),
            },
        }
    }
}

/// How a resolution begins.
///
/// - A region that is a postal code, a comma and a country: the cache is read
///   under the postal code. Any other region fails at once.
/// - No region: the place is inferred from the caller's address.
pub open spec fn start(region: Option<Seq<char>>) -> ResolutionView {
    match region {
        Some(region) => match region_parts(region) {
            Ok((postal_code, country)) => ResolutionView::Pending(
                ResolverView::Lookup {
                    postal_code,
                    geocoder: geocoder_query(postal_code, country),
                },
            ),
            Err(fault) => ResolutionView::Failed(LocationError::InvalidRegionFormat(fault)),
        },
        None => ResolutionView::Pending(ResolverView::Infer),
    }
}

/// The text of a region, if there is one.
pub open spec fn region_view(region: Option<&str>) -> Option<Seq<char>> {
    match region {
        Some(region) => Some(region@),
        None => None,
    }
}

/// Begins to find the location of a region or, without one, of the caller.
pub fn get(region: Option<&str>) -> (resolution: Resolution)
    ensures
        resolution@ == start(region_view(region)),
{
    match region {
        Some(region) => match from_postal_code::parse_region(region) {
            Ok((postal_code, country)) => Resolution::Pending(
                Resolver::Lookup {
                    postal_code: postal_code.to_owned(),
                    geocoder: from_postal_code::Client::for_place(postal_code, country),
                },
            ),
            Err(fault) => Resolution::Failed(LocationError::InvalidRegionFormat(fault)),
        },
        None => Resolution::Pending(Resolver::Infer { locator: from_ip::Client::new() }),
    }
}

impl Resolver {
    /// Takes the outcome of the pending request and says what follows.
    pub fn step(self, event: Event) -> (resolution: Resolution)
        ensures
            resolution@ == self@.step(event@),
    {
        match self {
            Resolver::Lookup { postal_code, geocoder } => match event {
                Event::Found(Some(location)) => Resolution::Resolved(location),
                Event::Found(None) => Resolution::Pending(Resolver::Geocode { geocoder }),
                _ => Resolution::Failed(LocationError::Cache),
            },
            Resolver::Geocode { geocoder } => match event {
                Event::Geocoded(places) => match from_postal_code::first(places) {
                    Ok(location) => Resolution::Pending(Resolver::Store { location }),
                    Err(_) => Resolution::Failed(LocationError::UnknownLocation),
                },
                _ => Resolution::Failed(LocationError::UnknownLocation),
            },
            Resolver::Infer { locator } => match event {
                Event::Inferred(answer) => match Location::try_from(answer) {
                    Ok(location) => Resolution::Pending(Resolver::Store { location }),
                    Err(_) => Resolution::Failed(LocationError::LocationUnavailable),
                },
                _ => Resolution::Failed(LocationError::LocationUnavailable),
            },
            Resolver::Store { location } => match event {
                Event::Stored => Resolution::Resolved(location),
                _ => Resolution::Failed(LocationError::Cache),
            },
        }
    }
}

/// How a resolution begins where a location may be stored in the
/// configuration: a region that is given decides; without one the stored
/// location is the result; without either the place is inferred.
pub open spec fn start_with(
    region: Option<Seq<char>>,
    stored: Option<LocationView>,
) -> ResolutionView {
    match (region, stored) {
        (Some(_), _) => start(region),
        (None, Some(location)) => ResolutionView::Resolved(location),
        (None, None) => start(None),
    }
}

/// The stored location as text, if there is one.
pub open spec fn stored_view(stored: Option<&Location>) -> Option<LocationView> {
    match stored {
        Some(location) => Some(location@),
        None => None,
    }
}

/// Begins to find the location to report on.
pub fn resolve(region: Option<&str>, stored: Option<&Location>) -> (resolution: Resolution)
    ensures
        resolution@ == start_with(region_view(region), stored_view(stored)),
{
    match (region, stored) {
        (Some(_), _) => get(region),
        (None, Some(location)) => Resolution::Resolved(location.clone()),
        (None, None) => get(None),
    }
}

impl ResolutionView {
    /// Where a resolution stands once its requests have had these outcomes,
    /// one after the other. Outcomes that come after the end change nothing.
    pub open spec fn after(self, events: Seq<EventView>) -> ResolutionView
        decreases events.len(),
    {
        if events.len() == 0 {
            self
        } else {
            match self {
                ResolutionView::Pending(resolver) => resolver.step(events[0]).after(
                    events.drop_first(),
                ),
                _ => self,
            }
        }
    }
}

} // verus!

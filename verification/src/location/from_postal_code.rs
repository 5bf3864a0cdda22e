//! Looking a place up by postal code and country.

use vstd::prelude::*;
use vstd::std_specs::convert::FromSpecImpl;
use vstd::string::*;

use crate::api::{query_view, Fetchable, Query};
use crate::location::{InvalidRegion, Location, LocationView, ParseCoordinatesError};
use crate::text::{lemma_split_at_first, split_at_first, split_once};

verus! {

/// One place in the geocoder's answer; `name` is the postal code asked for.
#[derive(Debug, PartialEq)]
pub struct Response {
    pub lat: String,
    pub lon: String,
    pub name: String,
}

/// A place in the geocoder's answer, as contracts speak of it.
pub struct ResponseView {
    pub lat: Seq<char>,
    pub lon: Seq<char>,
    pub name: Seq<char>,
}

impl ResponseView {
    /// The location that the geocoder's answer describes.
    pub open spec fn location(self) -> LocationView {
        LocationView {
            loc: self.lat + seq![','] + self.lon,
            latitude: self.lat,
            longitude: self.lon,
            postal_code: self.name,
        }
    }
}

impl View for Response {
    type V = ResponseView;

    open spec fn view(&self) -> ResponseView {
        ResponseView { lat: self.lat@, lon: self.lon@, name: self.name@ }
    }
}

/// The location that a place of the geocoder's answer describes.
impl From<Response> for Location {
    fn from(response: Response) -> (location: Self)
        ensures
            location@ == response@.location(),
            location@.is_canonical(),
    {
        let mut loc = response.lat.clone();
        loc.append(",");
        loc.append(response.lon.as_str());
        proof {
            reveal_strlit(",");
            assert(","@ =~= seq![',']);
        }
        Location {
            loc,
            latitude: response.lat,
            longitude: response.lon,
            postal_code: response.name,
        }
    }
}

/// What `from` returns is stated by its own `ensures`, over views: a
/// contract has no way to write a `String` down.
impl FromSpecImpl<Response> for Location {
    open spec fn obeys_from_spec() -> bool {
        false
    }

    open spec fn from_spec(response: Response) -> Self {
        arbitrary()
    }
}

/// The postal code and the country of a region: what stands before its first
/// comma and what stands after it, neither of them empty.
pub open spec fn region_parts(region: Seq<char>) -> Result<(Seq<char>, Seq<char>), InvalidRegion> {
    match split_at_first(region, ',') {
        None => Err(InvalidRegion::MissingComma),
        Some((postal_code, country)) => if postal_code.len() == 0 {
            Err(InvalidRegion::MissingPostalCode)
        } else if country.len() == 0 {
            Err(InvalidRegion::MissingCountry)
        } else {
            Ok((postal_code, country))
        },
    }
}

/// Reads a region as a postal code and a country.
pub fn parse_region<'a>(region: &'a str) -> (parts: Result<(&'a str, &'a str), InvalidRegion>)
    ensures
        match parts {
            Ok((postal_code, country)) => region_parts(region@) == Ok::<_, InvalidRegion>(
                (postal_code@, country@),
            ),
            Err(fault) => region_parts(region@) == Err::<(Seq<char>, Seq<char>), _>(fault),
        },
{
    match split_once(region, ',') {
        None => Err(InvalidRegion::MissingComma),
        Some((postal_code, country)) => {
            if postal_code.is_empty() {
                Err(InvalidRegion::MissingPostalCode)
            } else if country.is_empty() {
                Err(InvalidRegion::MissingCountry)
            } else {
                Ok((postal_code, country))
            }
        },
    }
}

/// The parameters with which the geocoder is asked for a postal code in a
/// country.
pub open spec fn geocoder_query(postal_code: Seq<char>, country: Seq<char>) -> Seq<
    (Seq<char>, Seq<char>),
> {
    seq![("format"@, "json"@), ("postalcode"@, postal_code), ("country"@, country)]
}

/// A request to the geocoder.
#[derive(Debug)]
pub struct Client {
    query: Query,
}

impl View for Client {
    type V = Seq<(Seq<char>, Seq<char>)>;

    closed spec fn view(&self) -> Self::V {
        query_view(self.query)
    }
}

impl Client {
    /// The request for a region, where the region is a postal code, a comma
    /// and a country; else what is wrong with the region.
    pub fn new(region: &str) -> (made: Result<Self, InvalidRegion>)
        ensures
            match made {
                Ok(client) => region_parts(region@) matches Ok((postal_code, country))
                    && client@ == geocoder_query(postal_code, country),
                Err(fault) => region_parts(region@) == Err::<(Seq<char>, Seq<char>), _>(fault),
            },
    {
        match parse_region(region) {
            Ok((postal_code, country)) => Ok(Self::for_place(postal_code, country)),
            Err(fault) => Err(fault),
        }
    }

    /// The request for a postal code in a country.
    pub fn for_place(postal_code: &str, country: &str) -> (client: Self)
        ensures
            client@ == geocoder_query(postal_code@, country@),
    {
        let mut query: Query = Vec::new();
        query.push(("format".to_owned(), "json".to_owned()));
        query.push(("postalcode".to_owned(), postal_code.to_owned()));
        query.push(("country".to_owned(), country.to_owned()));
        assert(query_view(query) =~= geocoder_query(postal_code@, country@));
        Client { query }
    }
}

impl Fetchable for Client {
    fn url(&self) -> (url: &'static str)
        ensures
            url@ == "https://nominatim.openstreetmap.org/search.php"@,
    {
        "https://nominatim.openstreetmap.org/search.php"
    }

    fn query(&self) -> (query: Option<&Query>)
        ensures
            query matches Some(pairs) && query_view(*pairs) == self@,
    {
        Some(&self.query)
    }
}

/// The geocoder's answer as text: its places in the order given.
pub open spec fn places_view(places: Vec<Response>) -> Seq<ResponseView> {
    Seq::new(places@.len(), |i: int| places@[i]@)
}

/// The location of the first place in the geocoder's answer. The other
/// places are not looked at. An answer without a place means that the postal
/// code is not known.
pub fn first(places: Vec<Response>) -> (found: Result<Location, ParseCoordinatesError>)
    ensures
        match found {
            Ok(location) => places@.len() > 0 && location@ == places_view(places)[0].location()
                && location@.is_canonical(),
            Err(error) => places@.len() == 0 && error == ParseCoordinatesError::UnknownLocation,
        },
{
    let mut places = places;
    if places.len() == 0 {
        return Err(ParseCoordinatesError::UnknownLocation);
    }
    let place = places.remove(0);
    Ok(Location::from(place))
}

} // verus!

//! Inferring a place from the address that the caller is seen under.

use vstd::prelude::*;
use vstd::std_specs::convert::TryFromSpecImpl;

use crate::api::Fetchable;
use crate::location::{Location, LocationView, ParseCoordinatesError};
use crate::text::{lemma_split_at_first, split_at_first, split_once};

verus! {

/// The service's answer: `loc` is a latitude, a comma and a longitude;
/// `postal` may be empty.
#[derive(Debug, PartialEq)]
pub struct Response {
    pub loc: String,
    pub postal: String,
}

/// The service's answer, as contracts speak of it.
pub struct ResponseView {
    pub loc: Seq<char>,
    pub postal: Seq<char>,
}

impl ResponseView {
    /// The location that the answer describes, where its `loc` holds a comma:
    /// the latitude is what stands before the first one, the longitude what
    /// stands after it.
    pub open spec fn location(self) -> Option<LocationView> {
        match split_at_first(self.loc, ',') {
            Some((latitude, longitude)) => Some(
                LocationView { loc: self.loc, latitude, longitude, postal_code: self.postal },
            ),
            None => None,
        }
    }
}

impl View for Response {
    type V = ResponseView;

    open spec fn view(&self) -> ResponseView {
        ResponseView { loc: self.loc@, postal: self.postal@ }
    }
}

/// The location that an answer describes. An answer whose `loc` holds no
/// comma describes none.
impl TryFrom<Response> for Location {
    type Error = ParseCoordinatesError;

    fn try_from(response: Response) -> (made: Result<Self, ParseCoordinatesError>)
        ensures
            match made {
                Ok(location) => response@.location() == Some(location@) && location@.is_canonical(),
                Err(error) => response@.location() is None
                    && error == ParseCoordinatesError::InvalidFormat,
            },
    {
        proof {
            lemma_split_at_first(response.loc@, ',');
        }
        let (latitude, longitude) = match split_once(response.loc.as_str(), ',') {
            Some((latitude, longitude)) => (latitude.to_owned(), longitude.to_owned()),
            None => { return Err(ParseCoordinatesError::InvalidFormat); },
        };
        Ok(Location { loc: response.loc, latitude, longitude, postal_code: response.postal })
    }
}

/// What `try_from` returns is stated by its own `ensures`, over views: a
/// contract has no way to write a `String` down.
impl TryFromSpecImpl<Response> for Location {
    open spec fn obeys_try_from_spec() -> bool {
        false
    }

    open spec fn try_from_spec(response: Response) -> Result<Self, ParseCoordinatesError> {
        arbitrary()
    }
}

/// A request to the service that sees the caller's address.
#[derive(Debug)]
pub struct Client;

impl Client {
    pub fn new() -> Self {
        Client
    }
}

impl Fetchable for Client {
    fn url(&self) -> (url: &'static str)
        ensures
            url@ == "https://ipinfo.io/json"@,
    {
        "https://ipinfo.io/json"
    }
}

} // verus!

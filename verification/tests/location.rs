use std::collections::HashMap;
use std::str::FromStr;

use conditions::api::{pairs, Fetchable};
use conditions::location::from_ip;
use conditions::location::from_postal_code::{self, first, parse_region, Client, Response};
use conditions::location::{
    current, get, read, resolve, Coordinates, Event, HttpClient, InvalidRegion, Location,
    LocationError, ParseCoordinatesError, Resolution, Resolver,
};

#[test]
fn from_postal_code_test_location_from() {
    let lat = "35.12345";
    let long = "-80.54321";
    let name = "10001";
    let loc = format!("{lat},{long}");

    let response = Response {
        lat: lat.to_string(),
        lon: long.to_string(),
        name: name.to_string(),
    };

    let location = Location::from(response);

    assert_eq!(location.loc, loc);
    assert_eq!(location.latitude, lat);
    assert_eq!(location.longitude, long);
    assert_eq!(location.postal_code, name);
}

#[test]
fn from_ip_test_location_from() {
    let lat = "35.12345";
    let lon = "-80.54321";
    let postal_code = "10001";
    let loc = format!("{},{}", lat, lon);

    let response = from_ip::Response {
        loc: loc.to_string(),
        postal: postal_code.to_string(),
    };

    let location = Location::try_from(response).unwrap();

    assert_eq!(location.loc, loc);
    assert_eq!(location.latitude, lat);
    assert_eq!(location.longitude, lon);
    assert_eq!(location.postal_code, postal_code);
}

#[test]
fn location_from_ip_needs_a_comma() {
    let response = from_ip::Response {
        loc: "35.12345".to_string(),
        postal: "10001".to_string(),
    };

    assert_eq!(
        Location::try_from(response),
        Err(ParseCoordinatesError::InvalidFormat)
    );
}

#[test]
fn location_from_ip_splits_at_the_first_comma() {
    let response = from_ip::Response {
        loc: "1,2,3".to_string(),
        postal: String::new(),
    };

    let location = Location::try_from(response).unwrap();

    assert_eq!(location.loc, "1,2,3");
    assert_eq!(location.latitude, "1");
    assert_eq!(location.longitude, "2,3");
    assert_eq!(location.postal_code, "");
}

#[test]
fn test_client_new_valid() {
    let result = Client::new("10001,US").unwrap();
    let query = vec![
        ("format".to_string(), "json".to_string()),
        ("postalcode".to_string(), "10001".to_string()),
        ("country".to_string(), "US".to_string()),
    ];

    assert_eq!(result.query(), Some(&query));
}

#[test]
fn test_client_new_invalid_format() {
    let result = Client::new("12345");

    assert!(result.is_err());
    assert!(result
        .unwrap_err()
        .to_string()
        .contains("invalid location, expect [POSTAL_CODE, COUNTRY]"));
}

#[test]
fn test_client_new_missing_postal_code() {
    let result = Client::new(",CA");

    assert!(result.is_err());
    assert!(result
        .unwrap_err()
        .to_string()
        .contains("missing postal code"));
}

#[test]
fn test_client_new_missing_country() {
    let result = Client::new("12345,");

    assert!(result.is_err());
    assert!(result.unwrap_err().to_string().contains("missing country"));
}

#[test]
fn client_new_names_each_fault() {
    assert_eq!(Client::new("").unwrap_err(), InvalidRegion::MissingComma);
    assert_eq!(Client::new("12345").unwrap_err(), InvalidRegion::MissingComma);
    assert_eq!(Client::new(",").unwrap_err(), InvalidRegion::MissingPostalCode);
    assert_eq!(Client::new(",CA").unwrap_err(), InvalidRegion::MissingPostalCode);
    assert_eq!(Client::new("12345,").unwrap_err(), InvalidRegion::MissingCountry);
}

#[test]
fn region_is_split_at_its_first_comma() {
    assert_eq!(parse_region("10001,US"), Ok(("10001", "US")));
    assert_eq!(parse_region("10001,US,NY"), Ok(("10001", "US,NY")));
    assert_eq!(parse_region(" 10001 , US "), Ok((" 10001 ", " US ")));
}

#[test]
fn client_asks_the_geocoder() {
    let client = Client::for_place("10001", "US");

    assert_eq!(client.url(), "https://nominatim.openstreetmap.org/search.php");
    assert!(client.is_valid());
}

#[test]
fn ip_client_has_no_query() {
    let client = from_ip::Client::new();

    assert_eq!(client.url(), "https://ipinfo.io/json");
    assert!(client.is_valid());
    assert_eq!(client.query(), None);
    assert!(client.query_pairs().is_empty());
}

#[test]
fn query_pairs_are_the_query_borrowed() {
    let client = Client::for_place("10001", "US");

    assert_eq!(
        client.query_pairs(),
        vec![("format", "json"), ("postalcode", "10001"), ("country", "US")]
    );
    assert_eq!(pairs(client.query()), client.query_pairs());
    assert!(pairs(None).is_empty());
}

#[test]
fn first_place_is_taken() {
    let places = vec![
        Response {
            lat: "1".to_string(),
            lon: "2".to_string(),
            name: "a".to_string(),
        },
        Response {
            lat: "3".to_string(),
            lon: "4".to_string(),
            name: "b".to_string(),
        },
    ];

    let location = first(places).unwrap();

    assert_eq!(location.loc, "1,2");
    assert_eq!(location.postal_code, "a");
}

#[test]
fn no_place_is_an_unknown_location() {
    assert_eq!(first(vec![]), Err(ParseCoordinatesError::UnknownLocation));
}

struct MockClient;

impl HttpClient for MockClient {
    fn get_location(&self) -> Result<String, ParseCoordinatesError> {
        Ok(COORDS.to_string())
    }
}

struct DownClient;

impl HttpClient for DownClient {
    fn get_location(&self) -> Result<String, ParseCoordinatesError> {
        Err(ParseCoordinatesError::InvalidFormat)
    }
}

const LAT: &str = "40.748817";
const LONG: &str = "-73.985428";
const COORDS: &str = "40.748817,-73.985428";

#[test]
fn test_current() {
    let mock_client = MockClient;
    let result = current(&mock_client).unwrap();
    assert_eq!(
        result,
        Coordinates {
            latitude: LAT.to_string(),
            longitude: LONG.to_string(),
        }
    );
}

#[test]
fn answer_is_read_as_coordinates() {
    assert_eq!(
        read(Ok(COORDS.to_string())),
        Ok(Coordinates::new(LAT.to_string(), LONG.to_string()))
    );
    assert_eq!(
        read(Ok("nowhere".to_string())),
        Err(ParseCoordinatesError::InvalidFormat)
    );
    assert_eq!(
        read(Err(ParseCoordinatesError::UnknownLocation)),
        Err(ParseCoordinatesError::UnknownLocation)
    );
}

#[test]
fn current_hands_on_the_clients_error() {
    assert_eq!(
        current(&DownClient),
        Err(ParseCoordinatesError::InvalidFormat)
    );
}

#[test]
fn coordinates_from_str() {
    let coords = Coordinates::from_str(COORDS);

    assert_eq!(
        coords,
        Ok(Coordinates {
            latitude: LAT.to_string(),
            longitude: LONG.to_string(),
        })
    );
}

#[test]
fn coordinates_from_str_invalid() {
    let coords = Coordinates::from_str("invalid");
    assert_eq!(coords.err(), Some(ParseCoordinatesError::InvalidFormat));
}

#[test]
fn coordinates_from_str_trims_each_part() {
    let coords = Coordinates::from_str(" 40.748817 ,\t-73.985428\n").unwrap();

    assert_eq!(coords, Coordinates::new(LAT.to_string(), LONG.to_string()));
    assert_eq!(coords.to_string(), COORDS);
}

#[test]
fn coordinates_from_str_wants_one_comma() {
    assert_eq!(
        Coordinates::from_str("1,2,3").err(),
        Some(ParseCoordinatesError::InvalidFormat)
    );
    assert_eq!(
        Coordinates::from_str("").err(),
        Some(ParseCoordinatesError::InvalidFormat)
    );
    assert_eq!(
        Coordinates::from_str(","),
        Ok(Coordinates::new(String::new(), String::new()))
    );
}

#[test]
fn location_is_shown_with_its_postal_code() {
    let location = Location {
        loc: "1,2".to_string(),
        latitude: "1".to_string(),
        longitude: "2".to_string(),
        postal_code: "10001".to_string(),
    };

    assert_eq!(location.to_string(), "Coordinates: 1,2\n  Postal Code: 10001");
    assert_eq!(location.clone(), location);
    assert_eq!(Location::default().to_string(), "Coordinates: \n  Postal Code: ");
}

#[test]
fn errors_have_their_messages() {
    assert_eq!(
        ParseCoordinatesError::InvalidFormat.to_string(),
        "provided string was not in the format 'lat,long'"
    );
    assert_eq!(
        ParseCoordinatesError::UnknownLocation.to_string(),
        "provided postal code was not found"
    );
    assert_eq!(
        LocationError::InvalidRegionFormat(InvalidRegion::MissingCountry).to_string(),
        "missing country"
    );
    assert_eq!(
        LocationError::UnknownLocation.to_string(),
        "provided postal code was not found"
    );
    assert_eq!(
        LocationError::LocationUnavailable.to_string(),
        "location could not be inferred"
    );
    assert_eq!(
        LocationError::Cache.to_string(),
        "location cache could not be read or written"
    );
}

/// Stands in for the cache and the two services, and counts what is asked of
/// each.
struct World {
    cache: HashMap<String, Location>,
    places: Option<Vec<(String, String, String)>>,
    seen_at: Option<(String, String)>,
    cache_works: bool,
    reads: Vec<String>,
    writes: usize,
    geocoder_calls: usize,
    locator_calls: usize,
}

impl World {
    fn new() -> Self {
        World {
            cache: HashMap::new(),
            places: None,
            seen_at: None,
            cache_works: true,
            reads: Vec::new(),
            writes: 0,
            geocoder_calls: 0,
            locator_calls: 0,
        }
    }

    fn perform(&mut self, resolver: &Resolver) -> Event {
        match resolver {
            Resolver::Lookup { postal_code, .. } => {
                self.reads.push(postal_code.clone());
                if self.cache_works {
                    Event::Found(self.cache.get(postal_code).cloned())
                } else {
                    Event::Failed
                }
            }
            Resolver::Geocode { geocoder } => {
                self.geocoder_calls += 1;
                assert!(geocoder.is_valid());
                match &self.places {
                    Some(places) => Event::Geocoded(
                        places
                            .iter()
                            .map(|(lat, lon, name)| from_postal_code::Response {
                                lat: lat.clone(),
                                lon: lon.clone(),
                                name: name.clone(),
                            })
                            .collect(),
                    ),
                    None => Event::Failed,
                }
            }
            Resolver::Infer { .. } => {
                self.locator_calls += 1;
                match &self.seen_at {
                    Some((loc, postal)) => Event::Inferred(from_ip::Response {
                        loc: loc.clone(),
                        postal: postal.clone(),
                    }),
                    None => Event::Failed,
                }
            }
            Resolver::Store { location } => {
                self.writes += 1;
                if self.cache_works {
                    self.cache
                        .insert(location.postal_code.clone(), location.clone());
                    Event::Stored
                } else {
                    Event::Failed
                }
            }
        }
    }

    fn run(&mut self, begun: Resolution) -> Result<Location, LocationError> {
        let mut resolution = begun;
        loop {
            match resolution {
                Resolution::Pending(resolver) => {
                    let event = self.perform(&resolver);
                    resolution = resolver.step(event);
                }
                Resolution::Resolved(location) => return Ok(location),
                Resolution::Failed(error) => return Err(error),
            }
        }
    }
}

fn new_york() -> Location {
    Location {
        loc: "40.7128,-74.0060".to_string(),
        latitude: "40.7128".to_string(),
        longitude: "-74.0060".to_string(),
        postal_code: "10001".to_string(),
    }
}

#[test]
fn region_is_geocoded_and_cached_on_a_miss() {
    let mut world = World::new();
    world.places = Some(vec![(
        "40.7128".to_string(),
        "-74.0060".to_string(),
        "10001".to_string(),
    )]);

    let location = world.run(get(Some("10001,US"))).unwrap();

    assert_eq!(location, new_york());
    assert_eq!(world.cache.get("10001"), Some(&new_york()));
    assert_eq!(world.reads, vec!["10001".to_string()]);
    assert_eq!(world.geocoder_calls, 1);
    assert_eq!(world.writes, 1);
    assert_eq!(world.locator_calls, 0);
}

#[test]
fn second_resolution_reads_what_the_first_wrote() {
    let mut world = World::new();
    world.places = Some(vec![(
        "40.7128".to_string(),
        "-74.0060".to_string(),
        "10001".to_string(),
    )]);

    let first = world.run(get(Some("10001,US"))).unwrap();
    let second = world.run(get(Some("10001,US"))).unwrap();

    assert_eq!(first, second);
    assert_eq!(second, new_york());
    assert_eq!(world.reads.len(), 2);
    assert_eq!(world.geocoder_calls, 1);
    assert_eq!(world.writes, 1);
    assert_eq!(world.cache.get("00000"), None);
}

#[test]
fn geocoder_is_asked_for_the_regions_parts() {
    match get(Some("10001,US")) {
        Resolution::Pending(Resolver::Lookup {
            postal_code,
            geocoder,
        }) => {
            assert_eq!(postal_code, "10001");
            let query = vec![
                ("format".to_string(), "json".to_string()),
                ("postalcode".to_string(), "10001".to_string()),
                ("country".to_string(), "US".to_string()),
            ];
            assert_eq!(geocoder.query(), Some(&query));
        }
        other => panic!("{other:?}"),
    }
}

#[test]
fn cached_location_is_returned_without_geocoding() {
    let mut world = World::new();
    let cached = Location {
        loc: "Test Location".to_string(),
        latitude: "12.345".to_string(),
        longitude: "54.321".to_string(),
        postal_code: "12345".to_string(),
    };
    world.cache.insert("12345".to_string(), cached.clone());
    world.places = Some(vec![(
        "1".to_string(),
        "2".to_string(),
        "12345".to_string(),
    )]);

    let location = world.run(get(Some("12345,US"))).unwrap();

    assert_eq!(location, cached);
    assert_eq!(world.reads, vec!["12345".to_string()]);
    assert_eq!(world.geocoder_calls, 0);
    assert_eq!(world.writes, 0);
}

#[test]
fn malformed_region_fails_without_a_request() {
    for region in ["10001", "", ",US", "10001,", ","] {
        let mut world = World::new();

        let result = world.run(get(Some(region)));

        assert!(matches!(
            result,
            Err(LocationError::InvalidRegionFormat(_))
        ));
        assert!(world.reads.is_empty());
        assert_eq!(world.geocoder_calls, 0);
        assert_eq!(world.locator_calls, 0);
        assert_eq!(world.writes, 0);
    }
}

#[test]
fn region_without_comma_is_an_input_error() {
    let mut world = World::new();

    let result = world.run(get(Some("10001")));

    assert_eq!(
        result,
        Err(LocationError::InvalidRegionFormat(
            InvalidRegion::MissingComma
        ))
    );
    assert_eq!(world.geocoder_calls + world.locator_calls, 0);
}

#[test]
fn empty_answer_is_an_unknown_location() {
    let mut world = World::new();
    world.places = Some(vec![]);

    assert_eq!(
        world.run(get(Some("00000,US"))),
        Err(LocationError::UnknownLocation)
    );
    assert_eq!(world.geocoder_calls, 1);
    assert_eq!(world.writes, 0);
}

#[test]
fn failing_geocoder_is_an_unknown_location() {
    let mut world = World::new();

    assert_eq!(
        world.run(get(Some("00000,US"))),
        Err(LocationError::UnknownLocation)
    );
    assert_eq!(world.geocoder_calls, 1);
}

#[test]
fn failing_cache_ends_the_resolution() {
    let mut world = World::new();
    world.cache_works = false;
    world.places = Some(vec![(
        "1".to_string(),
        "2".to_string(),
        "10001".to_string(),
    )]);

    assert_eq!(
        world.run(get(Some("10001,US"))),
        Err(LocationError::Cache)
    );
    assert_eq!(world.geocoder_calls, 0);
}

#[test]
fn failing_cache_write_ends_the_resolution() {
    let resolver = Resolver::Store {
        location: new_york(),
    };

    assert!(matches!(
        resolver.step(Event::Failed),
        Resolution::Failed(LocationError::Cache)
    ));
}

#[test]
fn location_is_inferred_without_reading_the_cache() {
    let mut world = World::new();
    world.seen_at = Some(("35.1287,-80.9338".to_string(), "28273".to_string()));

    let location = world.run(get(None)).unwrap();

    assert_eq!(
        location,
        Location {
            loc: "35.1287,-80.9338".to_string(),
            latitude: "35.1287".to_string(),
            longitude: "-80.9338".to_string(),
            postal_code: "28273".to_string(),
        }
    );
    assert!(world.reads.is_empty());
    assert_eq!(world.locator_calls, 1);
    assert_eq!(world.writes, 1);
    assert_eq!(world.cache.get("28273"), Some(&location));
}

#[test]
fn failing_locator_leaves_no_location() {
    let mut world = World::new();

    assert_eq!(
        world.run(get(None)),
        Err(LocationError::LocationUnavailable)
    );

    world.seen_at = Some(("nowhere".to_string(), String::new()));

    assert_eq!(
        world.run(get(None)),
        Err(LocationError::LocationUnavailable)
    );
    assert_eq!(world.writes, 0);
}

#[test]
fn stored_location_needs_no_request() {
    let mut world = World::new();
    let stored = new_york();

    let location = world.run(resolve(None, Some(&stored))).unwrap();

    assert_eq!(location, stored);
    assert!(world.reads.is_empty());
    assert_eq!(world.geocoder_calls + world.locator_calls + world.writes, 0);
}

#[test]
fn region_decides_over_stored_location() {
    let mut world = World::new();
    world.places = Some(vec![(
        "51.5".to_string(),
        "-0.1".to_string(),
        "SW1A".to_string(),
    )]);
    let stored = new_york();

    let location = world.run(resolve(Some("SW1A,GB"), Some(&stored))).unwrap();

    assert_eq!(location.loc, "51.5,-0.1");
    assert_eq!(world.reads, vec!["SW1A".to_string()]);
}

#[test]
fn event_of_another_request_counts_as_failure() {
    let lookup = match get(Some("10001,US")) {
        Resolution::Pending(resolver) => resolver,
        other => panic!("{other:?}"),
    };

    assert!(matches!(
        lookup.step(Event::Stored),
        Resolution::Failed(LocationError::Cache)
    ));

    let infer = match get(None) {
        Resolution::Pending(resolver) => resolver,
        other => panic!("{other:?}"),
    };

    assert!(matches!(
        infer.step(Event::Found(None)),
        Resolution::Failed(LocationError::LocationUnavailable)
    ));
}

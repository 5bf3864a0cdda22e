use conditions::conditions::{Conditions, Error, Event, Output, Progress};
use conditions::config::{Config, ParseConfigError};
use conditions::location::from_postal_code;
use conditions::location::{InvalidRegion, Location, LocationError, Resolver};
use conditions::weather::open_meteo::{self, CurrentWeather};
use conditions::weather::temperature::Temperature;
use conditions::weather::weather_api::{
    self, WeatherAPIResultCondition, WeatherAPIResultCurrent,
};
use conditions::weather::{Attempt, CurrentConditions, FetchConditionsError, Outcome, Source};
use conditions::Unit;

fn degrees(value: f32) -> Temperature {
    Temperature::from_bits(value.to_bits())
}

#[test]
fn test_conditions_to_output() {
    let config = Config {
        unit: Unit::C,
        ..Default::default()
    };
    let conditions = CurrentConditions {
        temp_c: degrees(10.0),
        temp_f: degrees(50.0),
        icon: "icon".to_string(),
    };

    let output = Conditions::new(config, None).to_output(conditions);

    assert_eq!(output.temp, 10);
    assert_eq!(output.icon, "icon");
}

#[test]
fn temperature_is_cut_toward_zero() {
    let show = |unit: Unit, temp_c: f32, temp_f: f32| {
        let config = Config {
            unit,
            ..Default::default()
        };
        let conditions = CurrentConditions {
            temp_c: degrees(temp_c),
            temp_f: degrees(temp_f),
            icon: "icon".to_string(),
        };
        Conditions::new(config, None).to_output(conditions).temp
    };

    assert_eq!(show(Unit::C, 10.9, 51.62), 10);
    assert_eq!(show(Unit::F, 10.9, 51.62), 51);
    assert_eq!(show(Unit::C, -0.5, 31.1), 0);
    assert_eq!(show(Unit::C, -10.9, 12.38), -10);
    assert_eq!(show(Unit::F, -40.0, -40.0), -40);
}

#[test]
fn fahrenheit_is_shown_by_default() {
    let conditions = CurrentConditions {
        temp_c: degrees(10.0),
        temp_f: degrees(50.0),
        icon: "icon".to_string(),
    };

    let output = Conditions::new(Config::default(), None).to_output(conditions);

    assert_eq!(
        output,
        Output {
            temp: 50,
            icon: "icon".to_string()
        }
    );
}

fn new_york() -> Location {
    Location {
        loc: "40.7128,-74.0060".to_string(),
        latitude: "40.7128".to_string(),
        longitude: "-74.0060".to_string(),
        postal_code: "10001".to_string(),
    }
}

#[test]
fn region_is_resolved_then_the_weather_is_fetched() {
    let config = Config {
        unit: Unit::C,
        weatherapi_token: Some("token123".to_string()),
        ..Default::default()
    };

    let progress = Conditions::new(config, Some("10001,US".to_string())).fetch();
    match &progress {
        Progress::Locating {
            resolver: Resolver::Lookup { postal_code, .. },
            ..
        } => assert_eq!(postal_code, "10001"),
        other => panic!("{other:?}"),
    }

    let progress = progress.step(Event::Location(conditions::location::Event::Found(None)));
    assert!(matches!(
        progress,
        Progress::Locating {
            resolver: Resolver::Geocode { .. },
            ..
        }
    ));

    let progress = progress.step(Event::Location(conditions::location::Event::Geocoded(
        vec![from_postal_code::Response {
            lat: "40.7128".to_string(),
            lon: "-74.0060".to_string(),
            name: "10001".to_string(),
        }],
    )));
    match &progress {
        Progress::Locating {
            resolver: Resolver::Store { location },
            ..
        } => assert_eq!(*location, new_york()),
        other => panic!("{other:?}"),
    }

    let progress = progress.step(Event::Location(conditions::location::Event::Stored));
    match &progress {
        Progress::Fetching { fetcher, .. } => {
            assert_eq!(fetcher.pending.source(), Source::WeatherAPI);
        }
        other => panic!("{other:?}"),
    }

    let progress = progress.step(Event::Weather(conditions::weather::Event::WeatherAPI(
        weather_api::Response {
            current: WeatherAPIResultCurrent {
                condition: WeatherAPIResultCondition { code: 1006 },
                temp_c: degrees(10.9),
                temp_f: degrees(51.62),
                is_day: 1,
            },
        },
    )));
    match progress {
        Progress::Done(output) => assert_eq!(
            output,
            Output {
                temp: 10,
                icon: "ΌΝΤ ".to_string()
            }
        ),
        other => panic!("{other:?}"),
    }
}

#[test]
fn stored_location_goes_straight_to_the_weather() {
    let config = Config {
        location: Some(new_york()),
        ..Default::default()
    };

    let progress = Conditions::new(config, None).fetch();
    match &progress {
        Progress::Fetching { fetcher, .. } => {
            assert_eq!(fetcher.pending.source(), Source::OpenMeteo);
        }
        other => panic!("{other:?}"),
    }

    let progress = progress.step(Event::Weather(conditions::weather::Event::OpenMeteo(
        open_meteo::Response {
            current_weather: CurrentWeather {
                temperature: degrees(72.3),
                weathercode: 0,
                is_day: 1,
            },
        },
    )));
    match progress {
        Progress::Done(output) => assert_eq!(
            output,
            Output {
                temp: 72,
                icon: "ΌΝΞ ".to_string()
            }
        ),
        other => panic!("{other:?}"),
    }
}

#[test]
fn malformed_region_ends_the_work_at_once() {
    let progress = Conditions::new(Config::default(), Some("10001".to_string())).fetch();

    match progress {
        Progress::Failed(error) => {
            assert_eq!(
                error,
                Error::Location(LocationError::InvalidRegionFormat(
                    InvalidRegion::MissingComma
                ))
            );
            assert_eq!(
                error.to_string(),
                "invalid location, expect [POSTAL_CODE, COUNTRY]"
            );
        }
        other => panic!("{other:?}"),
    }
}

#[test]
fn failing_services_end_the_work() {
    let config = Config {
        location: Some(new_york()),
        ..Default::default()
    };

    let progress = Conditions::new(config, None).fetch();
    let progress = progress.step(Event::Weather(conditions::weather::Event::Failed));

    match progress {
        Progress::Failed(error) => assert_eq!(
            error,
            Error::Weather(FetchConditionsError::NoProviderSucceeded(vec![Attempt {
                source: Source::OpenMeteo,
                outcome: Outcome::Failed
            }]))
        ),
        other => panic!("{other:?}"),
    }
}

#[test]
fn event_of_the_other_kind_counts_as_failure() {
    let progress = Conditions::new(Config::default(), None).fetch();
    assert!(matches!(
        progress,
        Progress::Locating {
            resolver: Resolver::Infer { .. },
            ..
        }
    ));

    let progress = progress.step(Event::Weather(conditions::weather::Event::Failed));

    match progress {
        Progress::Failed(error) => {
            assert_eq!(error, Error::Location(LocationError::LocationUnavailable))
        }
        other => panic!("{other:?}"),
    }
}

#[test]
fn ended_work_stays_as_it_is() {
    let done = Progress::Done(Output {
        temp: 1,
        icon: "?".to_string(),
    });

    match done.step(Event::Location(conditions::location::Event::Stored)) {
        Progress::Done(output) => assert_eq!(output.temp, 1),
        other => panic!("{other:?}"),
    }
}

#[test]
fn config_is_shown_line_by_line() {
    let config = Config {
        location: Some(new_york()),
        unit: Unit::C,
        weatherapi_token: Some("token123".to_string()),
    };

    assert_eq!(
        config.view(),
        "Stored Configuration\n  Coordinates: 40.7128,-74.0060\n  Postal Code: 10001\n  Unit: celsius\n  Weather API Key: token123"
    );
    assert_eq!(
        Config::default().view(),
        "Stored Configuration\n  Coordinates: \n  Postal Code: \n  Unit: fahrenheit\n  Weather API Key: "
    );
}

#[test]
fn config_settings_are_set_and_unset() {
    let mut config = Config::default();

    assert_eq!(
        config.set_location(new_york()),
        "location stored successfully"
    );
    assert_eq!(config.location, Some(new_york()));
    assert_eq!(config.set_unit(Unit::C), "unit stored as: celsius");
    assert_eq!(config.unit, Unit::C);
    assert_eq!(config.set_unit(Unit::F), "unit stored as: fahrenheit");
    assert_eq!(
        config.set_weatherapi_token("token123"),
        "weatherapi.com key stored successfully"
    );
    assert_eq!(config.get_weatherapi_token(), Ok("token123".to_string()));
    assert_eq!(
        config.unset_weatherapi_token(),
        "weatherapi.com key unset successfully"
    );
    assert_eq!(
        config.get_weatherapi_token(),
        Err(ParseConfigError::Missing("weatherapi key".to_string()))
    );
    assert_eq!(
        config.get_weatherapi_token().unwrap_err().to_string(),
        "configuration for weatherapi key not found"
    );
    assert_eq!(config.unset_location(), "location unset successfully");
    assert_eq!(config.location, None);
}

#[test]
fn config_location_is_the_stored_one_or_inferred() {
    let stored = Config {
        location: Some(new_york()),
        ..Default::default()
    };

    match stored.get_location() {
        conditions::location::Resolution::Resolved(location) => assert_eq!(location, new_york()),
        other => panic!("{other:?}"),
    }
    assert!(matches!(
        Config::default().get_location(),
        conditions::location::Resolution::Pending(Resolver::Infer { .. })
    ));
}

#[test]
fn unit_has_a_letter_and_a_name() {
    assert_eq!(Unit::from_char('c'), Some(Unit::C));
    assert_eq!(Unit::from_char('f'), Some(Unit::F));
    assert_eq!(Unit::from_char('C'), None);
    assert_eq!(Unit::from_char('k'), None);
    assert_eq!(Unit::C.as_char(), 'c');
    assert_eq!(Unit::F.as_char(), 'f');
    assert_eq!(Unit::C.to_string(), "celsius");
    assert_eq!(Unit::F.to_string(), "fahrenheit");
    assert_eq!(Unit::default(), Unit::F);
}

#[test]
fn unit_is_read_from_stored_text() {
    assert_eq!(Unit::from_text("c"), Unit::C);
    assert_eq!(Unit::from_text("C"), Unit::C);
    assert_eq!(Unit::from_text("f"), Unit::F);
    assert_eq!(Unit::from_text("celsius"), Unit::F);
    assert_eq!(Unit::from_text(""), Unit::F);
    for text in ["c", "C", "f", "F", "cc", "", "ℂ", "K"] {
        let expected = if text.to_lowercase() == "c" {
            Unit::C
        } else {
            Unit::F
        };
        assert_eq!(Unit::from_text(text), expected);
    }
}

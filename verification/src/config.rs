//! What the user has stored: a place, a unit, a key for the weather service
//! that wants one.

use vstd::prelude::*;
use vstd::string::*;

use crate::location::{resolve, start_with, Location, LocationView, Resolution};
use crate::Unit;

verus! {

/// The name under which the configuration is kept.
pub const APP_NAME: &'static str = "conditions";

/// The name of the configuration's file, without its extension.
pub const CONFIG_NAME: &'static str = "config";

/// The name of the cache's file, which lies beside the configuration's.
pub const CACHE_NAME: &'static str = "cache.db";

/// A setting that is asked for and not there.
#[derive(Debug, PartialEq)]
pub enum ParseConfigError {
    /// Nothing is stored for the setting of this name.
    Missing(String),
}

impl ParseConfigError {
    /// The name of the setting that is missing.
    pub open spec fn setting(self) -> Seq<char> {
        match self {
            ParseConfigError::Missing(name) => name@,
        }
    }

    /// Which setting was not found.
    pub fn to_string(&self) -> (text: String)
        ensures
            text@ == "configuration for "@ + self.setting() + " not found"@,
    {
        match self {
            ParseConfigError::Missing(name) => {
                let mut text = "configuration for ".to_owned();
                text.append(name.as_str());
                text.append(" not found");
                text
            },
        }
    }
}

/// The stored settings: the place to report on, if one is stored; the unit
/// to report in; the key of the weather service that wants one, if one is
/// stored.
#[derive(Debug)]
pub struct Config {
    pub location: Option<Location>,
    pub unit: Unit,
    pub weatherapi_token: Option<String>,
}

/// The stored settings, as contracts speak of them.
pub struct ConfigView {
    pub location: Option<LocationView>,
    pub unit: Unit,
    pub weatherapi_token: Option<Seq<char>>,
}

impl ConfigView {
    /// The stored location, or one whose every part is empty.
    pub open spec fn location_or_empty(self) -> LocationView {
        match self.location {
            Some(location) => location,
            None => LocationView {
                loc: Seq::empty(),
                latitude: Seq::empty(),
                longitude: Seq::empty(),
                postal_code: Seq::empty(),
            },
        }
    }

    /// The stored key, or the empty text.
    pub open spec fn token_or_empty(self) -> Seq<char> {
        match self.weatherapi_token {
            Some(token) => token,
            None => Seq::empty(),
        }
    }

    /// How the configuration is shown.
    pub open spec fn text(self) -> Seq<char> {
        "Stored Configuration\n  Coordinates: "@ + self.location_or_empty().loc
            + "\n  Postal Code: "@ + self.location_or_empty().postal_code + "\n  Unit: "@
            + self.unit.name() + "\n  Weather API Key: "@ + self.token_or_empty()
    }
}

impl Config {
    /// The configuration as text. (`view` is the name of the function that
    /// shows it.)
    pub open spec fn model(&self) -> ConfigView {
        ConfigView {
            location: match self.location {
                Some(location) => Some(location@),
                None => None,
            },
            unit: self.unit,
            weatherapi_token: match self.weatherapi_token {
                Some(token) => Some(token@),
                None => None,
            },
        }
    }
}

/// Nothing is stored, and the unit is Fahrenheit.
impl Default for Config {
    fn default() -> (config: Self)
        ensures
            config.model() == (ConfigView { location: None, unit: Unit::F, weatherapi_token: None }),
    {
        Config { location: None, unit: Unit::F, weatherapi_token: None }
    }
}

impl Config {
    /// The configuration as text, one setting to a line.
    pub fn view(&self) -> (text: String)
        ensures
            text@ == self.model().text(),
    {
        let mut text = "Stored Configuration\n  Coordinates: ".to_owned();
        match &self.location {
            Some(location) => text.append(location.loc.as_str()),
            None => {},
        }
        text.append("\n  Postal Code: ");
        match &self.location {
            Some(location) => text.append(location.postal_code.as_str()),
            None => {},
        }
        text.append("\n  Unit: ");
        text.append(self.unit.to_string().as_str());
        text.append("\n  Weather API Key: ");
        match &self.weatherapi_token {
            Some(token) => text.append(token.as_str()),
            None => {},
        }
        assert(text@ =~= self.model().text());
        text
    }

    /// Begins to find the location to report on: the stored one if there is
    /// one, else the one inferred from the caller's address.
    pub fn get_location(&self) -> (resolution: Resolution)
        ensures
            resolution@ == start_with(None, self.model().location),
    {
        resolve(None, self.location.as_ref())
    }

    /// Stores a location.
    pub fn set_location(&mut self, location: Location) -> (message: String)
        ensures
            final(self).location == Some(location),
            final(self).unit == old(self).unit,
            final(self).weatherapi_token == old(self).weatherapi_token,
            message@ == "location stored successfully"@,
    {
        self.location = Some(location);
        "location stored successfully".to_owned()
    }

    /// Forgets the stored location.
    pub fn unset_location(&mut self) -> (message: String)
        ensures
            final(self).location is None,
            final(self).unit == old(self).unit,
            final(self).weatherapi_token == old(self).weatherapi_token,
            message@ == "location unset successfully"@,
    {
        self.location = None;
        "location unset successfully".to_owned()
    }

    /// Stores a unit.
    pub fn set_unit(&mut self, unit: Unit) -> (message: String)
        ensures
            final(self).unit == unit,
            final(self).location == old(self).location,
            final(self).weatherapi_token == old(self).weatherapi_token,
            message@ == "unit stored as: "@ + unit.name(),
    {
        self.unit = unit;
        let mut message = "unit stored as: ".to_owned();
        message.append(unit.to_string().as_str());
        message
    }

    /// The stored key, or the name of the setting that is missing.
    pub fn get_weatherapi_token(&self) -> (token: Result<String, ParseConfigError>)
        ensures
            match token {
                Ok(key) => self.weatherapi_token == Some(key),
                Err(error) => self.weatherapi_token is None && error.setting()
                    == "weatherapi key"@,
            },
    {
        match &self.weatherapi_token {
            Some(key) => Ok(key.clone()),
            None => Err(ParseConfigError::Missing("weatherapi key".to_owned())),
        }
    }

    /// Stores a key.
    pub fn set_weatherapi_token(&mut self, key: &str) -> (message: String)
        ensures
            final(self).model().weatherapi_token == Some(key@),
            final(self).location == old(self).location,
            final(self).unit == old(self).unit,
            message@ == "weatherapi.com key stored successfully"@,
    {
        self.weatherapi_token = Some(key.to_owned());
        "weatherapi.com key stored successfully".to_owned()
    }

    /// Forgets the stored key.
    pub fn unset_weatherapi_token(&mut self) -> (message: String)
        ensures
            final(self).weatherapi_token is None,
            final(self).location == old(self).location,
            final(self).unit == old(self).unit,
            message@ == "weatherapi.com key unset successfully"@,
    {
        self.weatherapi_token = None;
        "weatherapi.com key unset successfully".to_owned()
    }
}

} // verus!

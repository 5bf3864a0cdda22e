//! Current weather conditions for a place: where to look the place up, which
//! weather service to ask, and how to turn an answer into a temperature and a
//! glyph. The library decides; the program around it performs the requests.

use vstd::prelude::*;
use vstd::string::*;

pub mod api;
pub mod conditions;
pub mod config;
pub mod icons;
pub mod location;
pub mod text;
pub mod weather;

verus! {

/// The unit a temperature is reported in. Fahrenheit is the default.
#[derive(Clone, Copy, Debug, PartialEq, Eq, Structural)]
pub enum Unit {
    C,
    F,
}

impl Unit {
    /// The unit that a one-letter code stands for: `c` or `f`, nothing else.
    pub open spec fn of_char(unit: char) -> Option<Unit> {
        if unit == 'c' {
            Some(Unit::C)
        } else if unit == 'f' {
            Some(Unit::F)
        } else {
            None
        }
    }

    /// The unit of a one-letter code, if the letter is one.
    #[must_use]
    pub fn from_char(unit: char) -> (found: Option<Self>)
        ensures
            found == Self::of_char(unit),
    {
        match unit {
            'c' => Some(Self::C),
            'f' => Some(Self::F),
            _ => None,
        }
    }

    /// The unit's name, as it is shown and as a service is asked for it.
    pub open spec fn name(self) -> Seq<char> {
        match self {
            Unit::C => "celsius"@,
            Unit::F => "fahrenheit"@,
        }
    }

    /// The unit's name.
    pub fn to_string(&self) -> (text: String)
        ensures
            text@ == self.name(),
    {
        match self {
            Unit::C => "celsius".to_owned(),
            Unit::F => "fahrenheit".to_owned(),
        }
    }

    /// The unit that a stored text stands for: Celsius for the letter c,
    /// small or capital, and Fahrenheit for every other text.
    pub open spec fn of_text(text: Seq<char>) -> Unit {
        if text == seq!['c'] || text == seq!['C'] {
            Unit::C
        } else {
            Unit::F
        }
    }

    /// Reads a unit as it was stored. No text is refused.
    pub fn from_text(text: &str) -> (unit: Self)
        ensures
            unit == Self::of_text(text@),
    {
        if text.unicode_len() == 1 {
            let letter = text.get_char(0);
            if letter == 'c' || letter == 'C' {
                assert(text@ =~= seq![letter]);
                return Unit::C;
            }
        }
        Unit::F
    }

    /// The unit's one-letter code.
    #[must_use]
    pub fn as_char(&self) -> (code: char)
        ensures
            Self::of_char(code) == Some(*self),
            code == 'c' || code == 'f',
    {
        match self {
            Unit::C => 'c',
            Unit::F => 'f',
        }
    }
}

impl Default for Unit {
    fn default() -> (unit: Self)
        ensures
            unit == Unit::F,
    {
        Unit::F
    }
}

} // verus!

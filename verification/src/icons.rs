//! From a service's condition code and the time of day to a glyph.

use vstd::prelude::*;
use vstd::std_specs::convert::FromSpecImpl;

use crate::weather::Source;

verus! {

/// Whether it is day or night where the weather is reported. Most conditions
/// have one glyph for the day and another for the night.
#[derive(Clone, Copy, Debug, PartialEq, Eq, Structural)]
pub enum TimeOfDay {
    Night,
    Day,
}

impl TimeOfDay {
    /// The time of day that a service's day flag stands for: 1 is day, every
    /// other value is night.
    pub open spec fn of_flag(is_day: u8) -> TimeOfDay {
        if is_day == 1 {
            TimeOfDay::Day
        } else {
            TimeOfDay::Night
        }
    }
}

impl From<u8> for TimeOfDay {
    fn from(is_day: u8) -> (time: Self) {
        match is_day {
            1 => TimeOfDay::Day,
            _ => TimeOfDay::Night,
        }
    }
}

impl FromSpecImpl<u8> for TimeOfDay {
    open spec fn obeys_from_spec() -> bool {
        true
    }

    open spec fn from_spec(is_day: u8) -> Self {
        TimeOfDay::of_flag(is_day)
    }
}

impl From<bool> for TimeOfDay {
    fn from(is_day: bool) -> (time: Self) {
        if is_day {
            TimeOfDay::Day
        } else {
            TimeOfDay::Night
        }
    }
}

impl FromSpecImpl<bool> for TimeOfDay {
    open spec fn obeys_from_spec() -> bool {
        true
    }

    open spec fn from_spec(is_day: bool) -> Self {
        if is_day {
            TimeOfDay::Day
        } else {
            TimeOfDay::Night
        }
    }
}

/// What the sky does, whichever service says so.
#[derive(Clone, Copy, Debug, PartialEq, Eq, Structural)]
pub enum Condition {
    Clear,
    PartlyCloudy,
    Cloudy,
    Fog,
    Rain,
    Snow,
    Sleet,
    Thunder,
    IcePellets,
    Showers,
    SnowThunder,
}

impl Condition {
    /// The glyph for a condition, by day and by night. The glyphs are written
    /// with escapes: few editors show them.
    pub open spec fn glyph_of(self, time: TimeOfDay) -> Seq<char> {
        match (self, time) {
            (Condition::Clear, TimeOfDay::Day) => "\u{38c}\u{39d}\u{39e} "@,
            (Condition::Clear, TimeOfDay::Night) => "\u{38c}\u{39d}\u{3c4}"@,
            (Condition::PartlyCloudy, TimeOfDay::Day) => "\u{38c}\u{39d}\u{393} "@,
            (Condition::PartlyCloudy, TimeOfDay::Night) => "\u{38c}\u{39e}\u{2563}"@,
            (Condition::Cloudy, TimeOfDay::Day) => "\u{38c}\u{39d}\u{3a4} "@,
            (Condition::Cloudy, TimeOfDay::Night) => "\u{38c}\u{39d}\u{3a4}"@,
            (Condition::Fog, TimeOfDay::Day) => "\u{38c}\u{39d}\u{394} "@,
            (Condition::Fog, TimeOfDay::Night) => "\u{38c}\u{39e}\u{397}"@,
            (Condition::Rain, TimeOfDay::Day) => "\u{38c}\u{39d}\u{399} "@,
            (Condition::Rain, TimeOfDay::Night) => "\u{38c}\u{39d}\u{3be}"@,
            (Condition::Snow, TimeOfDay::Day) => "\u{ee}\u{152}\u{160} "@,
            (Condition::Snow, TimeOfDay::Night) => "\u{38c}\u{39d}\u{3c0}"@,
            (Condition::Sleet, TimeOfDay::Day) => "\u{38c}\u{39f}\u{3c2} "@,
            (Condition::Sleet, TimeOfDay::Night) => "\u{38c}\u{39f}\u{3c5}"@,
            (Condition::Thunder, TimeOfDay::Day) => "\u{38c}\u{39d}\u{3a0} "@,
            (Condition::Thunder, TimeOfDay::Night) => "\u{ee}\u{152}\u{aa}"@,
            (Condition::IcePellets, TimeOfDay::Day) => "\u{38c}\u{39d}\u{395} "@,
            (Condition::IcePellets, TimeOfDay::Night) => "\u{38c}\u{39d}\u{3ba}"@,
            (Condition::Showers, TimeOfDay::Day) => "\u{38c}\u{39d}\u{39a} "@,
            (Condition::Showers, TimeOfDay::Night) => "\u{38c}\u{39d}\u{2524}"@,
            (Condition::SnowThunder, TimeOfDay::Day) => "\u{38c}\u{39e}\u{3c0} "@,
            (Condition::SnowThunder, TimeOfDay::Night) => "\u{38c}\u{39e}\u{3c0}"@,
        }
    }

    pub fn glyph(&self, time: &TimeOfDay) -> (glyph: &'static str)
        ensures
            glyph@ == self.glyph_of(*time),
    {
        match (self, time) {
            (Condition::Clear, TimeOfDay::Day) => "\u{38c}\u{39d}\u{39e} ",
            (Condition::Clear, TimeOfDay::Night) => "\u{38c}\u{39d}\u{3c4}",
            (Condition::PartlyCloudy, TimeOfDay::Day) => "\u{38c}\u{39d}\u{393} ",
            (Condition::PartlyCloudy, TimeOfDay::Night) => "\u{38c}\u{39e}\u{2563}",
            (Condition::Cloudy, TimeOfDay::Day) => "\u{38c}\u{39d}\u{3a4} ",
            (Condition::Cloudy, TimeOfDay::Night) => "\u{38c}\u{39d}\u{3a4}",
            (Condition::Fog, TimeOfDay::Day) => "\u{38c}\u{39d}\u{394} ",
            (Condition::Fog, TimeOfDay::Night) => "\u{38c}\u{39e}\u{397}",
            (Condition::Rain, TimeOfDay::Day) => "\u{38c}\u{39d}\u{399} ",
            (Condition::Rain, TimeOfDay::Night) => "\u{38c}\u{39d}\u{3be}",
            (Condition::Snow, TimeOfDay::Day) => "\u{ee}\u{152}\u{160} ",
            (Condition::Snow, TimeOfDay::Night) => "\u{38c}\u{39d}\u{3c0}",
            (Condition::Sleet, TimeOfDay::Day) => "\u{38c}\u{39f}\u{3c2} ",
            (Condition::Sleet, TimeOfDay::Night) => "\u{38c}\u{39f}\u{3c5}",
            (Condition::Thunder, TimeOfDay::Day) => "\u{38c}\u{39d}\u{3a0} ",
            (Condition::Thunder, TimeOfDay::Night) => "\u{ee}\u{152}\u{aa}",
            (Condition::IcePellets, TimeOfDay::Day) => "\u{38c}\u{39d}\u{395} ",
            (Condition::IcePellets, TimeOfDay::Night) => "\u{38c}\u{39d}\u{3ba}",
            (Condition::Showers, TimeOfDay::Day) => "\u{38c}\u{39d}\u{39a} ",
            (Condition::Showers, TimeOfDay::Night) => "\u{38c}\u{39d}\u{2524}",
            (Condition::SnowThunder, TimeOfDay::Day) => "\u{38c}\u{39e}\u{3c0} ",
            (Condition::SnowThunder, TimeOfDay::Night) => "\u{38c}\u{39e}\u{3c0}",
        }
    }
}

impl Source {
    /// The condition that a code of this service stands for, if it is one of
    /// the service's codes.
    pub open spec fn condition_of(self, code: i32) -> Option<Condition> {
        match self {
            Source::WeatherAPI => match code {
                1000 => Some(Condition::Clear),
                1003 | 1009 => Some(Condition::PartlyCloudy),
                1006 => Some(Condition::Cloudy),
                1030 | 1135 | 1147 => Some(Condition::Fog),
                1063 | 1072 | 1150 | 1153 | 1168 | 1171 | 1180 | 1183 | 1186 | 1189 | 1192
                | 1195 | 1198 | 1201 => Some(Condition::Rain),
                1066 | 1114 | 1117 | 1210 | 1213 | 1216 | 1219 | 1222 | 1225 | 1255 | 1258 => Some(Condition::Snow),
                1069 | 1204 | 1207 | 1249 | 1252 => Some(Condition::Sleet),
                1087 | 1273 | 1276 => Some(Condition::Thunder),
                1237 | 1261 | 1264 => Some(Condition::IcePellets),
                1240 | 1243 | 1246 => Some(Condition::Showers),
                1279 | 1282 => Some(Condition::SnowThunder),
                _ => None,
            },
            Source::OpenMeteo => match code {
                0 => Some(Condition::Clear),
                1 | 2 | 3 => Some(Condition::PartlyCloudy),
                45 | 48 => Some(Condition::Fog),
                51 | 53 | 55 | 56 | 57 | 61 | 63 | 65 | 66 | 67 => Some(Condition::Rain),
                71 | 73 | 75 | 77 | 85 | 86 => Some(Condition::Snow),
                80 | 81 | 82 => Some(Condition::Showers),
                95 | 96 | 99 => Some(Condition::Thunder),
                _ => None,
            },
        }
    }

    /// Looks a code of this service up.
    pub fn condition(&self, code: i32) -> (found: Option<Condition>)
        ensures
            found == self.condition_of(code),
    {
        match self {
            Source::WeatherAPI => match code {
                1000 => Some(Condition::Clear),
                1003 | 1009 => Some(Condition::PartlyCloudy),
                1006 => Some(Condition::Cloudy),
                1030 | 1135 | 1147 => Some(Condition::Fog),
                1063 | 1072 | 1150 | 1153 | 1168 | 1171 | 1180 | 1183 | 1186 | 1189 | 1192
                | 1195 | 1198 | 1201 => Some(Condition::Rain),
                1066 | 1114 | 1117 | 1210 | 1213 | 1216 | 1219 | 1222 | 1225 | 1255 | 1258 => Some(Condition::Snow),
                1069 | 1204 | 1207 | 1249 | 1252 => Some(Condition::Sleet),
                1087 | 1273 | 1276 => Some(Condition::Thunder),
                1237 | 1261 | 1264 => Some(Condition::IcePellets),
                1240 | 1243 | 1246 => Some(Condition::Showers),
                1279 | 1282 => Some(Condition::SnowThunder),
                _ => None,
            },
            Source::OpenMeteo => match code {
                0 => Some(Condition::Clear),
                1 | 2 | 3 => Some(Condition::PartlyCloudy),
                45 | 48 => Some(Condition::Fog),
                51 | 53 | 55 | 56 | 57 | 61 | 63 | 65 | 66 | 67 => Some(Condition::Rain),
                71 | 73 | 75 | 77 | 85 | 86 => Some(Condition::Snow),
                80 | 81 | 82 => Some(Condition::Showers),
                95 | 96 | 99 => Some(Condition::Thunder),
                _ => None,
            },
        }
    }
}

impl TimeOfDay {
    /// The glyph shown for a service's code at this time of day: that of the
    /// condition the code stands for, and `?` for a code the service does not
    /// have.
    pub open spec fn icon_of(self, provider: Source, code: i32) -> Seq<char> {
        match provider.condition_of(code) {
            Some(condition) => condition.glyph_of(self),
            None => "?"@,
        }
    }

    /// The glyph to show: never a failure, whatever the code.
    #[must_use]
    pub fn icon(&self, provider: &Source, code: i32) -> (glyph: String)
        ensures
            glyph@ == self.icon_of(*provider, code),
            provider.condition_of(code) is None ==> glyph@ == "?"@,
    {
        match provider.condition(code) {
            Some(condition) => condition.glyph(self).to_owned(),
            None => "?".to_owned(),
        }
    }
}

/// A code that a service does not list has the glyph `?`, by day and by
/// night. So has every code outside the span of the service's codes: 1000 to
/// 1282 for one service, 0 to 99 for the other.
pub proof fn law_unlisted_code_is_question_mark(time: TimeOfDay, provider: Source, code: i32)
    ensures
        provider.condition_of(code) is None ==> time.icon_of(provider, code) == "?"@,
        provider == Source::WeatherAPI && !(1000 <= code <= 1282) ==> time.icon_of(provider, code)
            == "?"@,
        provider == Source::OpenMeteo && !(0 <= code <= 99) ==> time.icon_of(provider, code)
            == "?"@,
{
}

/// Every day flag but 1 stands for the night: a code then has the glyph that
/// it has by night.
pub proof fn law_only_one_is_day(is_day: u8, provider: Source, code: i32)
    requires
        is_day != 1,
    ensures
        TimeOfDay::of_flag(is_day) == TimeOfDay::Night,
        TimeOfDay::of_flag(is_day).icon_of(provider, code) == TimeOfDay::Night.icon_of(
            provider,
            code,
        ),
{
}

/// A service lists the same codes by day and by night, and a listed code has
/// the glyph of its condition at that time of day.
pub proof fn law_listed_code_has_its_conditions_glyph(
    time: TimeOfDay,
    provider: Source,
    code: i32,
)
    ensures
        provider.condition_of(code) matches Some(condition) ==> time.icon_of(provider, code)
            == condition.glyph_of(time),
{
}

} // verus!

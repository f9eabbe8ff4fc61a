//! Vocabulary of the national weather service's observation and forecast
//! feeds: measured quantities, METAR groups, and feed metadata.

use vstd::prelude::*;

verus! {

/// The unit system of a national-weather-service forecast feed.
#[derive(Debug, Clone, Copy, PartialEq, Eq, Structural)]
pub enum Units {
    Us,
    Si,
}

/// Whether a period's temperature is on its way up or down.
#[derive(Debug, Clone, Copy, PartialEq, Eq, Structural)]
pub enum TemperatureTrend {
    Rising,
    Falling,
}

/// A compass wind direction, sixteen points.
#[derive(Debug, Clone, Copy, PartialEq, Eq, Structural)]
pub enum WindDirection {
    N,
    NNE,
    NE,
    ENE,
    E,
    ESE,
    SE,
    SSE,
    S,
    SSW,
    SW,
    WSW,
    W,
    WNW,
    NW,
    NNW,
}

/// A measured value with optional bounds and its unit, as observation feeds
/// report quantities.
#[derive(Debug)]
pub struct QuantitativeValue<N> {
    pub value: Option<N>,
    pub max_value: Option<N>,
    pub min_value: Option<N>,
    pub unit_code: String,
}

impl<N: Copy> QuantitativeValue<N> {
    /// The most specific reading available: the value itself, else the upper
    /// bound, else the lower bound.
    pub fn get_value(&self) -> (r: Option<N>)
        ensures
            r == if self.value is Some {
                self.value
            } else if self.max_value is Some {
                self.max_value
            } else {
                self.min_value
            },
    {
        match self.value {
            Option::Some(v) => Option::Some(v),
            Option::None => match self.max_value {
                Option::Some(v) => Option::Some(v),
                Option::None => self.min_value,
            },
        }
    }
}

/// A link to a resource of the service, kept as the URL text.
#[derive(Debug)]
pub struct ResourceLocation(pub String);

impl ResourceLocation {
    /// The URL text.
    pub fn as_str(&self) -> (r: &str)
        ensures
            r@ == self.0@,
    {
        self.0.as_str()
    }
}

/// The intensity qualifier of a METAR weather phenomenon.
#[derive(Debug, Clone, Copy, PartialEq, Eq, Structural)]
pub enum MetarIntensity {
    Light,
    Heavy,
}

/// The descriptor qualifier of a METAR weather phenomenon.
#[derive(Debug, Clone, Copy, PartialEq, Eq, Structural)]
pub enum MetarModifier {
    Patches,
    Blowing,
    LowDrifting,
    Freezing,
    Shallow,
    Partial,
    Showers,
}

/// The phenomenon itself of a METAR weather group.
#[derive(Debug, Clone, Copy, PartialEq, Eq, Structural)]
pub enum MetarWeather {
    FogMist,
    DustStorm,
    Dust,
    Drizzle,
    FunnelCloud,
    Fog,
    Smoke,
    Hail,
    SnowPellets,
    Haze,
    IceCrystals,
    IcePellets,
    DustWhirls,
    Spray,
    Rain,
    Sand,
    SnowGrains,
    Snow,
    Squalls,
    SandStorm,
    Thunderstorms,
    Unknown,
    VolcanicAsh,
}

/// One decoded METAR weather group of an observation.
#[derive(Debug)]
pub struct MetarPhenomenon {
    pub intensity: Option<MetarIntensity>,
    pub modifier: Option<MetarModifier>,
    pub weather: MetarWeather,
    pub raw_string: Option<String>,
    pub in_vicinity: bool,
}

/// METAR sky-coverage contractions, overcast down to clear.
#[derive(Debug, Clone, Copy, PartialEq, Eq, Structural)]
pub enum MetarSkyCoverage {
    OVC,
    BKN,
    SCT,
    FEW,
    SKC,
    CLR,
    VV,
}

} // verus!

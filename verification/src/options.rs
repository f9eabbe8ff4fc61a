//! The provider's request vocabulary: unit systems, languages, and the
//! catalogue of sky conditions with their numeric codes.

use vstd::prelude::*;

verus! {

/// The measurement system requested from the provider.
#[derive(Debug, Clone, Copy, PartialEq, Eq, Structural)]
pub enum Units {
    /// Kelvin, metres per second.
    Standard,
    /// Celsius, metres per second.
    Metric,
    /// Fahrenheit, miles per hour.
    Imperial,
}

impl Units {
    /// The name the provider's query string expects.
    pub fn code(&self) -> (r: &'static str)
        ensures
            *self is Standard ==> r@ == "standard"@,
            *self is Metric ==> r@ == "metric"@,
            *self is Imperial ==> r@ == "imperial"@,
    {
        match self {
            Units::Standard => "standard",
            Units::Metric => "metric",
            Units::Imperial => "imperial",
        }
    }
}

impl Default for Units {
    /// The provider's default system.
    fn default() -> (r: Self)
        ensures
            r is Standard,
    {
        Units::Standard
    }
}

/// The language requested for the provider's textual descriptions.
#[derive(Debug, Clone, Copy, PartialEq, Eq, Structural)]
pub enum Language {
    Afrikaans,
    Albanian,
    Arabic,
    Azerbaijani,
    Bulgarian,
    Catalan,
    Czech,
    Danish,
    German,
    Greek,
    English,
    Basque,
    Persian,
    Farsi,
    Finnish,
    French,
    Galician,
    Hebrew,
    Hindi,
    Hungarian,
    Indonesian,
    Italian,
    Japanese,
    Korean,
    Latvian,
    Lithuanian,
    Macedonian,
    Norwegian,
    Dutch,
    Polish,
    Portuguese,
    PortuguesBrazil,
    Romanian,
    Russian,
    Swedish,
    Slovak,
    Slovenian,
    Spanish,
    Serbian,
    Thai,
    Turkish,
    Ukranian,
    Vietnamese,
    ChineseSimplified,
    ChineseTraditional,
    Zulu,
}

/// The code the provider's query string expects for each language.
pub open spec fn language_code(l: Language) -> Seq<char> {
    match l {
        Language::Afrikaans => "af"@,
        Language::Albanian => "al"@,
        Language::Arabic => "ar"@,
        Language::Azerbaijani => "az"@,
        Language::Bulgarian => "bg"@,
        Language::Catalan => "ca"@,
        Language::Czech => "cz"@,
        Language::Danish => "da"@,
        Language::German => "de"@,
        Language::Greek => "el"@,
        Language::English => "en"@,
        Language::Basque => "eu"@,
        Language::Persian => "fa"@,
        Language::Farsi => "fa"@,
        Language::Finnish => "fi"@,
        Language::French => "fr"@,
        Language::Galician => "gl"@,
        Language::Hebrew => "he"@,
        Language::Hindi => "hi"@,
        Language::Hungarian => "hu"@,
        Language::Indonesian => "id"@,
        Language::Italian => "it"@,
        Language::Japanese => "ja"@,
        Language::Korean => "kr"@,
        Language::Latvian => "la"@,
        Language::Lithuanian => "lt"@,
        Language::Macedonian => "mk"@,
        Language::Norwegian => "no"@,
        Language::Dutch => "nl"@,
        Language::Polish => "pl"@,
        Language::Portuguese => "pt"@,
        Language::PortuguesBrazil => "pt_br"@,
        Language::Romanian => "ro"@,
        Language::Russian => "ru"@,
        Language::Swedish => "se"@,
        Language::Slovak => "sk"@,
        Language::Slovenian => "sl"@,
        Language::Spanish => "es"@,
        Language::Serbian => "sr"@,
        Language::Thai => "th"@,
        Language::Turkish => "tr"@,
        Language::Ukranian => "ua"@,
        Language::Vietnamese => "vi"@,
        Language::ChineseSimplified => "zh_cn"@,
        Language::ChineseTraditional => "zh_tw"@,
        Language::Zulu => "zu"@,
    }
}

impl Language {
    /// The code the provider's query string expects.
    pub fn code(&self) -> (r: &'static str)
        ensures
            r@ == language_code(*self),
    {
        match self {
            Language::Afrikaans => "af",
            Language::Albanian => "al",
            Language::Arabic => "ar",
            Language::Azerbaijani => "az",
            Language::Bulgarian => "bg",
            Language::Catalan => "ca",
            Language::Czech => "cz",
            Language::Danish => "da",
            Language::German => "de",
            Language::Greek => "el",
            Language::English => "en",
            Language::Basque => "eu",
            Language::Persian => "fa",
            Language::Farsi => "fa",
            Language::Finnish => "fi",
            Language::French => "fr",
            Language::Galician => "gl",
            Language::Hebrew => "he",
            Language::Hindi => "hi",
            Language::Hungarian => "hu",
            Language::Indonesian => "id",
            Language::Italian => "it",
            Language::Japanese => "ja",
            Language::Korean => "kr",
            Language::Latvian => "la",
            Language::Lithuanian => "lt",
            Language::Macedonian => "mk",
            Language::Norwegian => "no",
            Language::Dutch => "nl",
            Language::Polish => "pl",
            Language::Portuguese => "pt",
            Language::PortuguesBrazil => "pt_br",
            Language::Romanian => "ro",
            Language::Russian => "ru",
            Language::Swedish => "se",
            Language::Slovak => "sk",
            Language::Slovenian => "sl",
            Language::Spanish => "es",
            Language::Serbian => "sr",
            Language::Thai => "th",
            Language::Turkish => "tr",
            Language::Ukranian => "ua",
            Language::Vietnamese => "vi",
            Language::ChineseSimplified => "zh_cn",
            Language::ChineseTraditional => "zh_tw",
            Language::Zulu => "zu",
        }
    }
}

impl Default for Language {
    /// The provider answers in English unless asked otherwise.
    fn default() -> (r: Self)
        ensures
            r is English,
    {
        Language::English
    }
}

/// The per-client options sent with every provider call.
#[derive(Debug, Clone, Copy, PartialEq, Eq, Structural)]
pub struct Options {
    pub units: Units,
    pub lang: Language,
}

impl Default for Options {
    /// The provider's defaults: standard units, English text.
    fn default() -> (r: Self)
        ensures
            r.units is Standard,
            r.lang is English,
    {
        Options { units: Units::Standard, lang: Language::English }
    }
}

/// Whether a forecast period falls in the local day or night.
#[derive(Debug, Clone, Copy, PartialEq, Eq, Structural)]
pub enum PartOfDay {
    Night,
    Day,
}

/// The provider's catalogue of sky conditions.
#[derive(Debug, Clone, Copy, PartialEq, Eq, Structural)]
pub enum WeatherCondition {
    ThunderstormLightRain,
    ThunderstormRain,
    ThunderstormHeavyRain,
    LightThunderstorm,
    Thunderstorm,
    HeavyThunderstorm,
    RaggedThunderstorm,
    ThunderstormLightDrizzle,
    ThunderstormDrizzle,
    ThunderstormHeavyDrizzle,
    LightIntensityDrizzle,
    Drizzle,
    HeavyIntensityDrizzle,
    LightIntensityDrizzleRain,
    DrizzleRain,
    HeavyIntensityDrizzleRain,
    ShowerRainAndDrizzle,
    HeavyShowerRainAndDrizzle,
    ShowerDrizzle,
    LightRain,
    ModerateRain,
    HeavyIntensityRain,
    VeryHeavyRain,
    ExtremeRain,
    FreezingRain,
    LightIntensityShowerRain,
    ShowerRain,
    RaggedShowerRain,
    LightSnow,
    Snow,
    HeavySnow,
    Sleet,
    LightShowerSleet,
    ShowerSleet,
    LightRainAndSnow,
    RainAndSnow,
    LightShowerSnow,
    ShowerSnow,
    HeavyShowerSnow,
    Mist,
    Smoke,
    Haze,
    SandDustWhirls,
    Fog,
    Sand,
    Dust,
    Ash,
    Squall,
    Tornado,
    Clear,
    FewClouds,
    ScatteredClouds,
    BrokenClouds,
    Overcast,
}

/// The numeric code the provider uses for each sky condition.
pub open spec fn condition_code(c: WeatherCondition) -> u32 {
    match c {
        WeatherCondition::ThunderstormLightRain => 200,
        WeatherCondition::ThunderstormRain => 201,
        WeatherCondition::ThunderstormHeavyRain => 202,
        WeatherCondition::LightThunderstorm => 210,
        WeatherCondition::Thunderstorm => 211,
        WeatherCondition::HeavyThunderstorm => 212,
        WeatherCondition::RaggedThunderstorm => 221,
        WeatherCondition::ThunderstormLightDrizzle => 230,
        WeatherCondition::ThunderstormDrizzle => 231,
        WeatherCondition::ThunderstormHeavyDrizzle => 232,
        WeatherCondition::LightIntensityDrizzle => 300,
        WeatherCondition::Drizzle => 301,
        WeatherCondition::HeavyIntensityDrizzle => 302,
        WeatherCondition::LightIntensityDrizzleRain => 310,
        WeatherCondition::DrizzleRain => 311,
        WeatherCondition::HeavyIntensityDrizzleRain => 312,
        WeatherCondition::ShowerRainAndDrizzle => 313,
        WeatherCondition::HeavyShowerRainAndDrizzle => 314,
        WeatherCondition::ShowerDrizzle => 321,
        WeatherCondition::LightRain => 500,
        WeatherCondition::ModerateRain => 501,
        WeatherCondition::HeavyIntensityRain => 502,
        WeatherCondition::VeryHeavyRain => 503,
        WeatherCondition::ExtremeRain => 504,
        WeatherCondition::FreezingRain => 511,
        WeatherCondition::LightIntensityShowerRain => 521,
        WeatherCondition::ShowerRain => 522,
        WeatherCondition::RaggedShowerRain => 531,
        WeatherCondition::LightSnow => 600,
        WeatherCondition::Snow => 601,
        WeatherCondition::HeavySnow => 602,
        WeatherCondition::Sleet => 611,
        WeatherCondition::LightShowerSleet => 612,
        WeatherCondition::ShowerSleet => 613,
        WeatherCondition::LightRainAndSnow => 615,
        WeatherCondition::RainAndSnow => 616,
        WeatherCondition::LightShowerSnow => 620,
        WeatherCondition::ShowerSnow => 621,
        WeatherCondition::HeavyShowerSnow => 622,
        WeatherCondition::Mist => 701,
        WeatherCondition::Smoke => 711,
        WeatherCondition::Haze => 721,
        WeatherCondition::SandDustWhirls => 731,
        WeatherCondition::Fog => 741,
        WeatherCondition::Sand => 751,
        WeatherCondition::Dust => 761,
        WeatherCondition::Ash => 762,
        WeatherCondition::Squall => 771,
        WeatherCondition::Tornado => 7781,
        WeatherCondition::Clear => 800,
        WeatherCondition::FewClouds => 801,
        WeatherCondition::ScatteredClouds => 802,
        WeatherCondition::BrokenClouds => 803,
        WeatherCondition::Overcast => 804,
    }
}

/// The sky condition behind a numeric code, when the code is known.
pub open spec fn condition_from_code(code: u32) -> Option<WeatherCondition> {
    match code {
        200u32 => Option::Some(WeatherCondition::ThunderstormLightRain),
        201u32 => Option::Some(WeatherCondition::ThunderstormRain),
        202u32 => Option::Some(WeatherCondition::ThunderstormHeavyRain),
        210u32 => Option::Some(WeatherCondition::LightThunderstorm),
        211u32 => Option::Some(WeatherCondition::Thunderstorm),
        212u32 => Option::Some(WeatherCondition::HeavyThunderstorm),
        221u32 => Option::Some(WeatherCondition::RaggedThunderstorm),
        230u32 => Option::Some(WeatherCondition::ThunderstormLightDrizzle),
        231u32 => Option::Some(WeatherCondition::ThunderstormDrizzle),
        232u32 => Option::Some(WeatherCondition::ThunderstormHeavyDrizzle),
        300u32 => Option::Some(WeatherCondition::LightIntensityDrizzle),
        301u32 => Option::Some(WeatherCondition::Drizzle),
        302u32 => Option::Some(WeatherCondition::HeavyIntensityDrizzle),
        310u32 => Option::Some(WeatherCondition::LightIntensityDrizzleRain),
        311u32 => Option::Some(WeatherCondition::DrizzleRain),
        312u32 => Option::Some(WeatherCondition::HeavyIntensityDrizzleRain),
        313u32 => Option::Some(WeatherCondition::ShowerRainAndDrizzle),
        314u32 => Option::Some(WeatherCondition::HeavyShowerRainAndDrizzle),
        321u32 => Option::Some(WeatherCondition::ShowerDrizzle),
        500u32 => Option::Some(WeatherCondition::LightRain),
        501u32 => Option::Some(WeatherCondition::ModerateRain),
        502u32 => Option::Some(WeatherCondition::HeavyIntensityRain),
        503u32 => Option::Some(WeatherCondition::VeryHeavyRain),
        504u32 => Option::Some(WeatherCondition::ExtremeRain),
        511u32 => Option::Some(WeatherCondition::FreezingRain),
        521u32 => Option::Some(WeatherCondition::LightIntensityShowerRain),
        522u32 => Option::Some(WeatherCondition::ShowerRain),
        531u32 => Option::Some(WeatherCondition::RaggedShowerRain),
        600u32 => Option::Some(WeatherCondition::LightSnow),
        601u32 => Option::Some(WeatherCondition::Snow),
        602u32 => Option::Some(WeatherCondition::HeavySnow),
        611u32 => Option::Some(WeatherCondition::Sleet),
        612u32 => Option::Some(WeatherCondition::LightShowerSleet),
        613u32 => Option::Some(WeatherCondition::ShowerSleet),
        615u32 => Option::Some(WeatherCondition::LightRainAndSnow),
        616u32 => Option::Some(WeatherCondition::RainAndSnow),
        620u32 => Option::Some(WeatherCondition::LightShowerSnow),
        621u32 => Option::Some(WeatherCondition::ShowerSnow),
        622u32 => Option::Some(WeatherCondition::HeavyShowerSnow),
        701u32 => Option::Some(WeatherCondition::Mist),
        711u32 => Option::Some(WeatherCondition::Smoke),
        721u32 => Option::Some(WeatherCondition::Haze),
        731u32 => Option::Some(WeatherCondition::SandDustWhirls),
        741u32 => Option::Some(WeatherCondition::Fog),
        751u32 => Option::Some(WeatherCondition::Sand),
        761u32 => Option::Some(WeatherCondition::Dust),
        762u32 => Option::Some(WeatherCondition::Ash),
        771u32 => Option::Some(WeatherCondition::Squall),
        7781u32 => Option::Some(WeatherCondition::Tornado),
        800u32 => Option::Some(WeatherCondition::Clear),
        801u32 => Option::Some(WeatherCondition::FewClouds),
        802u32 => Option::Some(WeatherCondition::ScatteredClouds),
        803u32 => Option::Some(WeatherCondition::BrokenClouds),
        804u32 => Option::Some(WeatherCondition::Overcast),
        _ => Option::None,
    }
}

impl WeatherCondition {
    /// The numeric code the provider uses for this condition.
    pub fn code(&self) -> (r: u32)
        ensures
            r == condition_code(*self),
    {
        match self {
            WeatherCondition::ThunderstormLightRain => 200,
            WeatherCondition::ThunderstormRain => 201,
            WeatherCondition::ThunderstormHeavyRain => 202,
            WeatherCondition::LightThunderstorm => 210,
            WeatherCondition::Thunderstorm => 211,
            WeatherCondition::HeavyThunderstorm => 212,
            WeatherCondition::RaggedThunderstorm => 221,
            WeatherCondition::ThunderstormLightDrizzle => 230,
            WeatherCondition::ThunderstormDrizzle => 231,
            WeatherCondition::ThunderstormHeavyDrizzle => 232,
            WeatherCondition::LightIntensityDrizzle => 300,
            WeatherCondition::Drizzle => 301,
            WeatherCondition::HeavyIntensityDrizzle => 302,
            WeatherCondition::LightIntensityDrizzleRain => 310,
            WeatherCondition::DrizzleRain => 311,
            WeatherCondition::HeavyIntensityDrizzleRain => 312,
            WeatherCondition::ShowerRainAndDrizzle => 313,
            WeatherCondition::HeavyShowerRainAndDrizzle => 314,
            WeatherCondition::ShowerDrizzle => 321,
            WeatherCondition::LightRain => 500,
            WeatherCondition::ModerateRain => 501,
            WeatherCondition::HeavyIntensityRain => 502,
            WeatherCondition::VeryHeavyRain => 503,
            WeatherCondition::ExtremeRain => 504,
            WeatherCondition::FreezingRain => 511,
            WeatherCondition::LightIntensityShowerRain => 521,
            WeatherCondition::ShowerRain => 522,
            WeatherCondition::RaggedShowerRain => 531,
            WeatherCondition::LightSnow => 600,
            WeatherCondition::Snow => 601,
            WeatherCondition::HeavySnow => 602,
            WeatherCondition::Sleet => 611,
            WeatherCondition::LightShowerSleet => 612,
            WeatherCondition::ShowerSleet => 613,
            WeatherCondition::LightRainAndSnow => 615,
            WeatherCondition::RainAndSnow => 616,
            WeatherCondition::LightShowerSnow => 620,
            WeatherCondition::ShowerSnow => 621,
            WeatherCondition::HeavyShowerSnow => 622,
            WeatherCondition::Mist => 701,
            WeatherCondition::Smoke => 711,
            WeatherCondition::Haze => 721,
            WeatherCondition::SandDustWhirls => 731,
            WeatherCondition::Fog => 741,
            WeatherCondition::Sand => 751,
            WeatherCondition::Dust => 761,
            WeatherCondition::Ash => 762,
            WeatherCondition::Squall => 771,
            WeatherCondition::Tornado => 7781,
            WeatherCondition::Clear => 800,
            WeatherCondition::FewClouds => 801,
            WeatherCondition::ScatteredClouds => 802,
            WeatherCondition::BrokenClouds => 803,
            WeatherCondition::Overcast => 804,
        }
    }

    /// The condition behind a provider code, or nothing for an unknown code.
    pub fn from_code(code: u32) -> (r: Option<WeatherCondition>)
        ensures
            r == condition_from_code(code),
    {
        match code {
            200u32 => Option::Some(WeatherCondition::ThunderstormLightRain),
            201u32 => Option::Some(WeatherCondition::ThunderstormRain),
            202u32 => Option::Some(WeatherCondition::ThunderstormHeavyRain),
            210u32 => Option::Some(WeatherCondition::LightThunderstorm),
            211u32 => Option::Some(WeatherCondition::Thunderstorm),
            212u32 => Option::Some(WeatherCondition::HeavyThunderstorm),
            221u32 => Option::Some(WeatherCondition::RaggedThunderstorm),
            230u32 => Option::Some(WeatherCondition::ThunderstormLightDrizzle),
            231u32 => Option::Some(WeatherCondition::ThunderstormDrizzle),
            232u32 => Option::Some(WeatherCondition::ThunderstormHeavyDrizzle),
            300u32 => Option::Some(WeatherCondition::LightIntensityDrizzle),
            301u32 => Option::Some(WeatherCondition::Drizzle),
            302u32 => Option::Some(WeatherCondition::HeavyIntensityDrizzle),
            310u32 => Option::Some(WeatherCondition::LightIntensityDrizzleRain),
            311u32 => Option::Some(WeatherCondition::DrizzleRain),
            312u32 => Option::Some(WeatherCondition::HeavyIntensityDrizzleRain),
            313u32 => Option::Some(WeatherCondition::ShowerRainAndDrizzle),
            314u32 => Option::Some(WeatherCondition::HeavyShowerRainAndDrizzle),
            321u32 => Option::Some(WeatherCondition::ShowerDrizzle),
            500u32 => Option::Some(WeatherCondition::LightRain),
            501u32 => Option::Some(WeatherCondition::ModerateRain),
            502u32 => Option::Some(WeatherCondition::HeavyIntensityRain),
            503u32 => Option::Some(WeatherCondition::VeryHeavyRain),
            504u32 => Option::Some(WeatherCondition::ExtremeRain),
            511u32 => Option::Some(WeatherCondition::FreezingRain),
            521u32 => Option::Some(WeatherCondition::LightIntensityShowerRain),
            522u32 => Option::Some(WeatherCondition::ShowerRain),
            531u32 => Option::Some(WeatherCondition::RaggedShowerRain),
            600u32 => Option::Some(WeatherCondition::LightSnow),
            601u32 => Option::Some(WeatherCondition::Snow),
            602u32 => Option::Some(WeatherCondition::HeavySnow),
            611u32 => Option::Some(WeatherCondition::Sleet),
            612u32 => Option::Some(WeatherCondition::LightShowerSleet),
            613u32 => Option::Some(WeatherCondition::ShowerSleet),
            615u32 => Option::Some(WeatherCondition::LightRainAndSnow),
            616u32 => Option::Some(WeatherCondition::RainAndSnow),
            620u32 => Option::Some(WeatherCondition::LightShowerSnow),
            621u32 => Option::Some(WeatherCondition::ShowerSnow),
            622u32 => Option::Some(WeatherCondition::HeavyShowerSnow),
            701u32 => Option::Some(WeatherCondition::Mist),
            711u32 => Option::Some(WeatherCondition::Smoke),
            721u32 => Option::Some(WeatherCondition::Haze),
            731u32 => Option::Some(WeatherCondition::SandDustWhirls),
            741u32 => Option::Some(WeatherCondition::Fog),
            751u32 => Option::Some(WeatherCondition::Sand),
            761u32 => Option::Some(WeatherCondition::Dust),
            762u32 => Option::Some(WeatherCondition::Ash),
            771u32 => Option::Some(WeatherCondition::Squall),
            7781u32 => Option::Some(WeatherCondition::Tornado),
            800u32 => Option::Some(WeatherCondition::Clear),
            801u32 => Option::Some(WeatherCondition::FewClouds),
            802u32 => Option::Some(WeatherCondition::ScatteredClouds),
            803u32 => Option::Some(WeatherCondition::BrokenClouds),
            804u32 => Option::Some(WeatherCondition::Overcast),
            _ => Option::None,
        }
    }
}

/// Numeric condition codes are faithful: decoding a condition's own code
/// gives the condition back.
pub proof fn lemma_condition_code_round_trip(c: WeatherCondition)
    ensures
        condition_from_code(condition_code(c)) == Option::Some(c),
{
}

/// One sky-condition entry of a provider payload, as the provider sends it.
#[derive(Debug)]
pub struct WeatherType {
    pub id: WeatherCondition,
    pub main: String,
    pub description: String,
    pub icon: String,
}

} // verus!

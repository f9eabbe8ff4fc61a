use weathercache::errors::{fetch_error_from_status, FetchError};
use weathercache::user::Units as UserUnits;
use weathercache::nws::{QuantitativeValue, ResourceLocation, WindDirection};
use weathercache::options::{Language, Options, Units, WeatherCondition};
use weathercache::provider::{weather_record_from, ProviderCondition, ProviderWeather};

#[test]
fn provider_units_have_their_query_codes() {
    assert_eq!(Units::Standard.code(), "standard");
    assert_eq!(Units::Metric.code(), "metric");
    assert_eq!(Units::Imperial.code(), "imperial");
    assert_eq!(Units::default(), Units::Standard);
}

#[test]
fn user_units_have_their_stored_names() {
    assert_eq!(UserUnits::Imperial.as_str(), "imperial");
    assert_eq!(UserUnits::Metric.as_str(), "metric");
}

#[test]
fn user_units_round_trip_through_their_stored_names() {
    assert_eq!(UserUnits::parse(UserUnits::Imperial.as_str()), Some(UserUnits::Imperial));
    assert_eq!(UserUnits::parse(UserUnits::Metric.as_str()), Some(UserUnits::Metric));
    assert_eq!(UserUnits::parse("standard"), None);
    assert_eq!(UserUnits::parse(""), None);
}

#[test]
fn the_rate_limit_status_maps_to_the_quota_error() {
    assert_eq!(fetch_error_from_status(429), FetchError::QuotaExceeded);
    assert_eq!(fetch_error_from_status(500), FetchError::TransportError);
    assert_eq!(fetch_error_from_status(404), FetchError::TransportError);
}

#[test]
fn languages_have_their_query_codes() {
    assert_eq!(Language::English.code(), "en");
    assert_eq!(Language::PortuguesBrazil.code(), "pt_br");
    assert_eq!(Language::Farsi.code(), "fa");
    assert_eq!(Language::default(), Language::English);
    let defaults = Options::default();
    assert_eq!(defaults.units, Units::Standard);
    assert_eq!(defaults.lang, Language::English);
}

#[test]
fn condition_codes_round_trip() {
    assert_eq!(WeatherCondition::Clear.code(), 800);
    assert_eq!(WeatherCondition::from_code(800), Some(WeatherCondition::Clear));
    assert_eq!(WeatherCondition::ThunderstormLightRain.code(), 200);
    assert_eq!(
        WeatherCondition::from_code(WeatherCondition::Overcast.code()),
        Some(WeatherCondition::Overcast)
    );
    assert_eq!(WeatherCondition::from_code(999), None);
}

#[test]
fn get_value_prefers_the_reading_then_the_bounds() {
    let q = QuantitativeValue::<i64> {
        value: Some(5),
        max_value: Some(9),
        min_value: Some(1),
        unit_code: "wmoUnit:degC".to_string(),
    };
    assert_eq!(q.get_value(), Some(5));
    let q = QuantitativeValue::<i64> {
        value: None,
        max_value: Some(9),
        min_value: Some(1),
        unit_code: "wmoUnit:degC".to_string(),
    };
    assert_eq!(q.get_value(), Some(9));
    let q = QuantitativeValue::<i64> {
        value: None,
        max_value: None,
        min_value: Some(1),
        unit_code: "wmoUnit:degC".to_string(),
    };
    assert_eq!(q.get_value(), Some(1));
    let q = QuantitativeValue::<i64> {
        value: None,
        max_value: None,
        min_value: None,
        unit_code: "wmoUnit:degC".to_string(),
    };
    assert_eq!(q.get_value(), None);
}

#[test]
fn resource_locations_keep_their_url_text() {
    let loc = ResourceLocation("https://api.weather.gov/points/39,-77".to_string());
    assert_eq!(loc.as_str(), "https://api.weather.gov/points/39,-77");
    let _ = WindDirection::NNE;
}

#[test]
fn mapping_takes_the_first_condition_and_stamps_the_fetch_time() {
    let payload = ProviderWeather {
        conditions: vec![
            ProviderCondition { condition_id: 500, description: "light rain".to_string() },
            ProviderCondition { condition_id: 801, description: "few clouds".to_string() },
        ],
        temperature: 1234,
        feels_like: 1200,
        humidity: 8000,
        pressure: 101300,
        wind_speed: 420,
        cloudiness: 7500,
    };
    let rec = weather_record_from(9, 4242, &payload).unwrap();
    assert_eq!(rec.location_id, 9);
    assert_eq!(rec.observed_at, 4242);
    assert_eq!(rec.condition_id, 500);
    assert_eq!(rec.condition_description, "light rain");
    assert_eq!(rec.temperature, 1234);
}

#[test]
fn mapping_rejects_a_payload_without_conditions() {
    let payload = ProviderWeather {
        conditions: vec![],
        temperature: 0,
        feels_like: 0,
        humidity: 0,
        pressure: 0,
        wind_speed: 0,
        cloudiness: 0,
    };
    assert_eq!(
        weather_record_from(9, 4242, &payload).unwrap_err(),
        FetchError::MalformedResponse
    );
}

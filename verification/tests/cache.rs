use weathercache::cache::{get_or_fetch_forecast, get_or_fetch_weather};
use weathercache::errors::FetchError;
use weathercache::localtime::local_midnight_unix;
use weathercache::provider::{
    ProviderCondition, ProviderForecast, ProviderForecastPeriod, ProviderWeather,
};
use weathercache::records::{ForecastRecord, TrackedLocation, WeatherRecord};
use weathercache::source::{ScriptedForecastSource, ScriptedWeatherSource};
use weathercache::store::Store;

const HOUR: i64 = 3600;

fn location(location_id: i64, time_zone: &str) -> TrackedLocation {
    TrackedLocation {
        location_id,
        latitude_micro: 40_700_000,
        longitude_micro: -74_000_000,
        time_zone: time_zone.to_string(),
    }
}

fn weather_row(location_id: i64, observed_at: i64) -> WeatherRecord {
    WeatherRecord {
        location_id,
        observed_at,
        temperature: 1500,
        feels_like: 1400,
        condition_id: 800,
        condition_description: "clear sky".to_string(),
        humidity: 4000,
        pressure: 101300,
        wind_speed: 310,
        cloudiness: 0,
    }
}

fn forecast_row(location_id: i64, period_start: i64, fetched_at: i64) -> ForecastRecord {
    ForecastRecord {
        location_id,
        period_start,
        fetched_at,
        temperature: 900,
        feels_like: 800,
        condition_id: 600,
        condition_description: "light snow".to_string(),
        humidity: 9000,
        pressure: 100100,
        wind_speed: 700,
        precipitation_probability: 6500,
    }
}

fn weather_payload(temperature: i64) -> ProviderWeather {
    ProviderWeather {
        conditions: vec![ProviderCondition {
            condition_id: 500,
            description: "light rain".to_string(),
        }],
        temperature,
        feels_like: temperature - 100,
        humidity: 8000,
        pressure: 100900,
        wind_speed: 420,
        cloudiness: 7500,
    }
}

fn forecast_payload(period_starts: &[i64]) -> ProviderForecast {
    ProviderForecast {
        periods: period_starts
            .iter()
            .map(|&period_start| ProviderForecastPeriod {
                period_start,
                conditions: vec![ProviderCondition {
                    condition_id: 801,
                    description: "few clouds".to_string(),
                }],
                temperature: 1000,
                feels_like: 950,
                humidity: 7000,
                pressure: 101000,
                wind_speed: 350,
                precipitation_probability: 1000,
            })
            .collect(),
    }
}

#[test]
fn a_fresh_row_is_served_without_any_fetch() {
    let now = 1_000_000 * HOUR;
    let mut store = Store::new();
    store.track_location(location(7, "UTC"));
    store.upsert_weather(&weather_row(7, now - HOUR / 2));
    let mut source = ScriptedWeatherSource::new(vec![Ok(weather_payload(2000))]);
    let rows = get_or_fetch_weather(&mut store, &mut source, 7, now, 4 * HOUR).unwrap();
    assert_eq!(source.call_count(), 0);
    assert_eq!(rows.len(), 1);
    assert_eq!(rows[0].observed_at, now - HOUR / 2);
    assert_eq!(store.weather_table().len(), 1);
}

#[test]
fn only_stale_rows_force_exactly_one_fetch_and_the_fresh_record_back() {
    let now = 1_000_000 * HOUR;
    let window = 4 * HOUR;
    let mut store = Store::new();
    store.track_location(location(7, "UTC"));
    // Both rows are older than now - window: the cache cannot answer.
    store.upsert_weather(&weather_row(7, now - 5 * HOUR));
    store.upsert_weather(&weather_row(7, now - 6 * HOUR));
    let mut source = ScriptedWeatherSource::new(vec![Ok(weather_payload(2000))]);
    let rows = get_or_fetch_weather(&mut store, &mut source, 7, now, window).unwrap();
    assert_eq!(source.call_count(), 1);
    assert_eq!(rows.len(), 1);
    assert_eq!(rows[0].temperature, 2000);
    assert_eq!(rows[0].observed_at, now);
    // The stale rows are never returned and the fresh one is now stored.
    assert_eq!(store.weather_table().len(), 3);
    let newest = store.recent_weather(7, 1);
    assert_eq!(newest[0].temperature, 2000);
}

#[test]
fn the_hourly_tightening_rejects_a_two_hour_old_newest_row() {
    let now = 1_000_000 * HOUR;
    let mut store = Store::new();
    store.track_location(location(7, "UTC"));
    // Within the four-hour window, but the newest row must be under an hour
    // old: expect a refetch.
    store.upsert_weather(&weather_row(7, now - 2 * HOUR));
    let mut source = ScriptedWeatherSource::new(vec![Ok(weather_payload(2000))]);
    let rows = get_or_fetch_weather(&mut store, &mut source, 7, now, 4 * HOUR).unwrap();
    assert_eq!(source.call_count(), 1);
    assert_eq!(rows[0].temperature, 2000);
}

#[test]
fn an_unknown_location_is_not_found_with_zero_fetches_and_zero_writes() {
    let now = 1_000_000 * HOUR;
    let mut store = Store::new();
    store.track_location(location(7, "UTC"));
    let mut source = ScriptedWeatherSource::new(vec![Ok(weather_payload(2000))]);
    let r = get_or_fetch_weather(&mut store, &mut source, 8, now, 4 * HOUR);
    assert_eq!(r.unwrap_err(), FetchError::NotFound);
    assert_eq!(source.call_count(), 0);
    assert_eq!(store.weather_table().len(), 0);

    let mut fsource = ScriptedForecastSource::new(vec![Ok(forecast_payload(&[now]))]);
    let r = get_or_fetch_forecast(&mut store, &mut fsource, 8, now, 40 * HOUR);
    assert_eq!(r.unwrap_err(), FetchError::NotFound);
    assert_eq!(fsource.call_count(), 0);
    assert_eq!(store.forecast_table().len(), 0);
}

#[test]
fn a_failed_miss_propagates_and_stores_nothing() {
    let now = 1_000_000 * HOUR;
    let mut store = Store::new();
    store.track_location(location(7, "UTC"));
    let mut source = ScriptedWeatherSource::new(vec![Err(FetchError::QuotaExceeded)]);
    let r = get_or_fetch_weather(&mut store, &mut source, 7, now, 4 * HOUR);
    assert_eq!(r.unwrap_err(), FetchError::QuotaExceeded);
    assert_eq!(source.call_count(), 1);
    assert_eq!(store.weather_table().len(), 0);
}

#[test]
fn an_unreachable_source_is_a_transport_error() {
    let now = 1_000_000 * HOUR;
    let mut store = Store::new();
    store.track_location(location(7, "UTC"));
    let mut source = ScriptedWeatherSource::new(vec![]);
    let r = get_or_fetch_weather(&mut store, &mut source, 7, now, 4 * HOUR);
    assert_eq!(r.unwrap_err(), FetchError::TransportError);
    assert_eq!(source.call_count(), 1);
}

#[test]
fn a_payload_without_conditions_is_malformed() {
    let now = 1_000_000 * HOUR;
    let mut store = Store::new();
    store.track_location(location(7, "UTC"));
    let mut payload = weather_payload(2000);
    payload.conditions.clear();
    let mut source = ScriptedWeatherSource::new(vec![Ok(payload)]);
    let r = get_or_fetch_weather(&mut store, &mut source, 7, now, 4 * HOUR);
    assert_eq!(r.unwrap_err(), FetchError::MalformedResponse);
    assert_eq!(store.weather_table().len(), 0);
}

#[test]
fn an_unknown_zone_name_fails_resolution_before_any_fetch() {
    let now = 1_000_000 * HOUR;
    let mut store = Store::new();
    store.track_location(location(7, "Neither/Here_Nor_There"));
    let mut source = ScriptedForecastSource::new(vec![Ok(forecast_payload(&[now]))]);
    let r = get_or_fetch_forecast(&mut store, &mut source, 7, now, 40 * HOUR);
    assert_eq!(r.unwrap_err(), FetchError::TimeZoneResolutionError);
    assert_eq!(source.call_count(), 0);
}

#[test]
fn todays_remaining_periods_stay_fresh_however_old_their_fetch() {
    // Local midnight 2024-03-01T00:00 in America/New_York; a period starting
    // 06:00 local, fetched three days earlier, is still served without a
    // refetch: freshness goes by the period, not the fetch age.
    let period_start = 1_709_290_800; // 2024-03-01T06:00-05:00
    let now = 1_709_312_400; // 2024-03-01T12:00-05:00
    let fetched_at = period_start - 3 * 86_400;
    let mut store = Store::new();
    store.track_location(location(7, "America/New_York"));
    store.upsert_forecast(&forecast_row(7, period_start, fetched_at));
    let mut source = ScriptedForecastSource::new(vec![Ok(forecast_payload(&[now]))]);
    let rows = get_or_fetch_forecast(&mut store, &mut source, 7, now, 40 * HOUR).unwrap();
    assert_eq!(source.call_count(), 0);
    assert_eq!(rows.len(), 1);
    assert_eq!(rows[0].period_start, period_start);
    assert_eq!(rows[0].fetched_at, fetched_at);
}

#[test]
fn a_period_before_local_midnight_is_stale_and_refetched() {
    let now = 1_709_312_400; // 2024-03-01T12:00-05:00
    let yesterday_period = 1_709_269_200 - 6 * HOUR; // 2024-02-29T18:00-05:00
    let mut store = Store::new();
    store.track_location(location(7, "America/New_York"));
    store.upsert_forecast(&forecast_row(7, yesterday_period, now - HOUR));
    let mut source = ScriptedForecastSource::new(vec![Ok(forecast_payload(&[
        now + 3 * HOUR,
        now + 6 * HOUR,
    ]))]);
    let rows = get_or_fetch_forecast(&mut store, &mut source, 7, now, 40 * HOUR).unwrap();
    assert_eq!(source.call_count(), 1);
    assert_eq!(rows.len(), 2);
    assert_eq!(rows[0].period_start, now + 3 * HOUR);
    // The fetched periods were upserted next to the stale row.
    assert_eq!(store.forecast_table().len(), 3);
}

#[test]
fn local_midnight_follows_the_zone_database() {
    // 2024-03-01T12:00-05:00 in America/New_York: midnight is 05:00 UTC.
    assert_eq!(
        local_midnight_unix("America/New_York", 1_709_312_400),
        Some(1_709_269_200)
    );
    // In UTC the local day is the Unix day.
    assert_eq!(local_midnight_unix("UTC", 1000), Some(0));
    assert_eq!(local_midnight_unix("not a zone", 1000), None);
}

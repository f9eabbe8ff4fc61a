use weathercache::errors::{FetchError, RefreshError};
use weathercache::provider::{
    ProviderCondition, ProviderForecast, ProviderForecastPeriod, ProviderWeather,
};
use weathercache::records::TrackedLocation;
use weathercache::refresh::{run_forecast_cycle, run_weather_cycle};
use weathercache::source::{ScriptedForecastSource, ScriptedWeatherSource};
use weathercache::store::Store;

fn location(location_id: i64) -> TrackedLocation {
    TrackedLocation {
        location_id,
        latitude_micro: location_id * 1_000_000,
        longitude_micro: -location_id * 1_000_000,
        time_zone: "UTC".to_string(),
    }
}

fn weather_payload(temperature: i64) -> ProviderWeather {
    ProviderWeather {
        conditions: vec![ProviderCondition {
            condition_id: 800,
            description: "clear sky".to_string(),
        }],
        temperature,
        feels_like: temperature,
        humidity: 5000,
        pressure: 101300,
        wind_speed: 200,
        cloudiness: 0,
    }
}

fn forecast_payload(period_starts: &[i64]) -> ProviderForecast {
    ProviderForecast {
        periods: period_starts
            .iter()
            .map(|&period_start| ProviderForecastPeriod {
                period_start,
                conditions: vec![ProviderCondition {
                    condition_id: 801,
                    description: "few clouds".to_string(),
                }],
                temperature: 1000,
                feels_like: 900,
                humidity: 6000,
                pressure: 100700,
                wind_speed: 300,
                precipitation_probability: 2000,
            })
            .collect(),
    }
}

fn store_with_locations(n: i64) -> Store {
    let mut store = Store::new();
    let mut id: i64 = 1;
    while id <= n {
        store.track_location(location(id));
        id += 1;
    }
    store
}

#[test]
fn a_failing_third_location_of_five_commits_nothing() {
    let mut store = store_with_locations(5);
    let mut source = ScriptedWeatherSource::new(vec![
        Ok(weather_payload(100)),
        Ok(weather_payload(200)),
        Err(FetchError::TransportError),
        Ok(weather_payload(400)),
        Ok(weather_payload(500)),
    ]);
    let r = run_weather_cycle(&mut store, &mut source, 1000);
    assert_eq!(r.unwrap_err(), RefreshError::FetchFailed { location_id: 3 });
    // Transactional fail-fast: none of the five locations' records landed.
    assert_eq!(store.weather_table().len(), 0);
    // And no location past the failing one was fetched.
    assert_eq!(source.call_count(), 3);
}

#[test]
fn a_failing_forecast_location_rolls_the_whole_cycle_back() {
    let mut store = store_with_locations(3);
    store.upsert_forecast(
        &weathercache::records::ForecastRecord {
            location_id: 1,
            period_start: 500,
            fetched_at: 1,
            temperature: 0,
            feels_like: 0,
            condition_id: 800,
            condition_description: "clear sky".to_string(),
            humidity: 0,
            pressure: 0,
            wind_speed: 0,
            precipitation_probability: 0,
        },
    );
    let mut source = ScriptedForecastSource::new(vec![
        Ok(forecast_payload(&[1000, 2000])),
        Err(FetchError::QuotaExceeded),
    ]);
    let r = run_forecast_cycle(&mut store, &mut source, 900);
    assert_eq!(r.unwrap_err(), RefreshError::FetchFailed { location_id: 2 });
    // The store still holds exactly what it held before the cycle.
    assert_eq!(store.forecast_table().len(), 1);
    assert_eq!(store.forecast_table()[0].fetched_at, 1);
    assert_eq!(source.call_count(), 2);
}

#[test]
fn a_clean_weather_cycle_upserts_one_observation_per_location() {
    let mut store = store_with_locations(3);
    let mut source = ScriptedWeatherSource::new(vec![
        Ok(weather_payload(100)),
        Ok(weather_payload(200)),
        Ok(weather_payload(300)),
    ]);
    let n = run_weather_cycle(&mut store, &mut source, 7777).unwrap();
    assert_eq!(n, 3);
    assert_eq!(source.call_count(), 3);
    let table = store.weather_table();
    assert_eq!(table.len(), 3);
    assert_eq!(table[0].location_id, 1);
    assert_eq!(table[0].temperature, 100);
    assert_eq!(table[0].observed_at, 7777);
    assert_eq!(table[2].location_id, 3);
    assert_eq!(table[2].temperature, 300);
}

#[test]
fn a_clean_forecast_cycle_upserts_every_period_of_every_location() {
    let mut store = store_with_locations(2);
    let mut source = ScriptedForecastSource::new(vec![
        Ok(forecast_payload(&[1000, 2000, 3000])),
        Ok(forecast_payload(&[1000])),
    ]);
    let n = run_forecast_cycle(&mut store, &mut source, 555).unwrap();
    assert_eq!(n, 2);
    let table = store.forecast_table();
    assert_eq!(table.len(), 4);
    assert!(table.iter().all(|row| row.fetched_at == 555));
    assert_eq!(
        table.iter().filter(|row| row.location_id == 1).count(),
        3
    );
}

#[test]
fn a_malformed_payload_fails_its_location_fast() {
    let mut store = store_with_locations(2);
    let mut source = ScriptedWeatherSource::new(vec![
        Ok(ProviderWeather {
            conditions: vec![],
            temperature: 0,
            feels_like: 0,
            humidity: 0,
            pressure: 0,
            wind_speed: 0,
            cloudiness: 0,
        }),
        Ok(weather_payload(200)),
    ]);
    let r = run_weather_cycle(&mut store, &mut source, 1000);
    assert_eq!(r.unwrap_err(), RefreshError::FetchFailed { location_id: 1 });
    assert_eq!(source.call_count(), 1);
    assert_eq!(store.weather_table().len(), 0);
}

#[test]
fn an_exhausted_source_fails_the_cycle_at_the_first_unserved_location() {
    let mut store = store_with_locations(2);
    let mut source = ScriptedWeatherSource::new(vec![Ok(weather_payload(100))]);
    let r = run_weather_cycle(&mut store, &mut source, 1000);
    assert_eq!(r.unwrap_err(), RefreshError::FetchFailed { location_id: 2 });
    assert_eq!(store.weather_table().len(), 0);
}

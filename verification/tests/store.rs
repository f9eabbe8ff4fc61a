use weathercache::records::{ForecastRecord, TrackedLocation, WeatherRecord};
use weathercache::store::{Store, Transaction};

fn weather_row(location_id: i64, observed_at: i64, temperature: i64) -> WeatherRecord {
    WeatherRecord {
        location_id,
        observed_at,
        temperature,
        feels_like: temperature - 150,
        condition_id: 800,
        condition_description: "clear sky".to_string(),
        humidity: 4000,
        pressure: 101300,
        wind_speed: 310,
        cloudiness: 0,
    }
}

fn forecast_row(location_id: i64, period_start: i64, fetched_at: i64) -> ForecastRecord {
    ForecastRecord {
        location_id,
        period_start,
        fetched_at,
        temperature: 1200,
        feels_like: 1100,
        condition_id: 500,
        condition_description: "light rain".to_string(),
        humidity: 8000,
        pressure: 100800,
        wind_speed: 520,
        precipitation_probability: 4500,
    }
}

#[test]
fn upserting_the_same_key_twice_keeps_one_row_with_the_second_values() {
    let mut store = Store::new();
    let first = weather_row(7, 1000, 1500);
    let mut second = weather_row(7, 1000, 2100);
    second.condition_description = "few clouds".to_string();
    store.upsert_weather(&first);
    store.upsert_weather(&second);
    let table = store.weather_table();
    assert_eq!(table.len(), 1);
    assert_eq!(table[0], second);
}

#[test]
fn upserting_the_same_forecast_key_twice_keeps_the_second_write() {
    let mut store = Store::new();
    let first = forecast_row(7, 5000, 100);
    let second = forecast_row(7, 5000, 200);
    store.upsert_forecast(&first);
    store.upsert_forecast(&second);
    let table = store.forecast_table();
    assert_eq!(table.len(), 1);
    assert_eq!(table[0].fetched_at, 200);
}

#[test]
fn upserts_with_distinct_keys_keep_distinct_rows() {
    let mut store = Store::new();
    store.upsert_weather(&weather_row(7, 1000, 1500));
    store.upsert_weather(&weather_row(7, 2000, 1600));
    store.upsert_weather(&weather_row(8, 1000, 1700));
    assert_eq!(store.weather_table().len(), 3);
}

#[test]
fn recent_weather_is_newest_first_and_bounded() {
    let mut store = Store::new();
    store.upsert_weather(&weather_row(7, 1000, 1));
    store.upsert_weather(&weather_row(7, 3000, 2));
    store.upsert_weather(&weather_row(9, 9000, 3));
    store.upsert_weather(&weather_row(7, 2000, 4));
    let rows = store.recent_weather(7, 2);
    assert_eq!(rows.len(), 2);
    assert_eq!(rows[0].observed_at, 3000);
    assert_eq!(rows[1].observed_at, 2000);
    let all = store.recent_weather(7, 10);
    assert_eq!(all.len(), 3);
    assert_eq!(all[2].observed_at, 1000);
}

#[test]
fn recent_forecasts_are_latest_period_first() {
    let mut store = Store::new();
    store.upsert_forecast(&forecast_row(7, 100, 1));
    store.upsert_forecast(&forecast_row(7, 300, 1));
    store.upsert_forecast(&forecast_row(7, 200, 1));
    let rows = store.recent_forecasts(7, 10);
    assert_eq!(rows.len(), 3);
    assert_eq!(rows[0].period_start, 300);
    assert_eq!(rows[1].period_start, 200);
    assert_eq!(rows[2].period_start, 100);
}

#[test]
fn committing_a_transaction_applies_every_staged_upsert_in_order() {
    let mut store = Store::new();
    let mut txn = Transaction::begin();
    txn.stage_weather(weather_row(7, 1000, 1500));
    txn.stage_weather(weather_row(7, 1000, 1600));
    txn.stage_forecast(forecast_row(7, 5000, 42));
    txn.commit(&mut store);
    assert_eq!(store.weather_table().len(), 1);
    assert_eq!(store.weather_table()[0].temperature, 1600);
    assert_eq!(store.forecast_table().len(), 1);
}

#[test]
fn an_uncommitted_transaction_leaves_the_store_unchanged() {
    let mut store = Store::new();
    let mut txn = Transaction::begin();
    txn.stage_weather(weather_row(7, 1000, 1500));
    drop(txn);
    assert_eq!(store.weather_table().len(), 0);
    assert_eq!(store.forecast_table().len(), 0);
}

#[test]
fn lookup_finds_tracked_locations_and_refuses_others() {
    let mut store = Store::new();
    store.track_location(TrackedLocation {
        location_id: 7,
        latitude_micro: 37_300_000,
        longitude_micro: -121_800_000,
        time_zone: "America/Los_Angeles".to_string(),
    });
    assert!(store.lookup_location(7).is_some());
    assert_eq!(store.lookup_location(7).unwrap().latitude_micro, 37_300_000);
    assert!(store.lookup_location(8).is_none());
    assert_eq!(store.location_list().len(), 1);
}

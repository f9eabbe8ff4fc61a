//! The rows the cache keeps: current-weather observations, forecast
//! periods, and the tracked locations they belong to.

use vstd::prelude::*;

verus! {

/// One current-weather observation. Rows are keyed by the composite
/// `(location_id, observed_at)`; `observed_at` is stamped with the fetch
/// time, not the provider's time. Measurements are fixed-point integers in
/// hundredths of their unit, so fractional provider values survive without
/// floating point.
#[derive(Debug, PartialEq)]
pub struct WeatherRecord {
    pub location_id: i64,
    /// Unix seconds at which the observation was fetched.
    pub observed_at: i64,
    /// Hundredths of a degree.
    pub temperature: i64,
    /// Hundredths of a degree.
    pub feels_like: i64,
    /// The provider's numeric code for the sky condition.
    pub condition_id: i64,
    pub condition_description: String,
    /// Hundredths of a percent.
    pub humidity: i64,
    /// Hundredths of a hectopascal.
    pub pressure: i64,
    /// Hundredths of a speed unit.
    pub wind_speed: i64,
    /// Hundredths of a percent.
    pub cloudiness: i64,
}

impl Clone for WeatherRecord {
    fn clone(&self) -> (r: Self)
        ensures
            r == *self,
    {
        WeatherRecord {
            location_id: self.location_id,
            observed_at: self.observed_at,
            temperature: self.temperature,
            feels_like: self.feels_like,
            condition_id: self.condition_id,
            condition_description: self.condition_description.clone(),
            humidity: self.humidity,
            pressure: self.pressure,
            wind_speed: self.wind_speed,
            cloudiness: self.cloudiness,
        }
    }
}

/// One forecast period. Rows are keyed by `(location_id, period_start)`;
/// `fetched_at` records provenance and is overwritten on upsert, so staleness
/// can be judged by the period itself or by the age of the cached value.
#[derive(Debug, PartialEq)]
pub struct ForecastRecord {
    pub location_id: i64,
    /// Unix seconds at which the forecast period begins (provider time).
    pub period_start: i64,
    /// Unix seconds at which this row was fetched.
    pub fetched_at: i64,
    /// Hundredths of a degree.
    pub temperature: i64,
    /// Hundredths of a degree.
    pub feels_like: i64,
    /// The provider's numeric code for the sky condition.
    pub condition_id: i64,
    pub condition_description: String,
    /// Hundredths of a percent.
    pub humidity: i64,
    /// Hundredths of a hectopascal.
    pub pressure: i64,
    /// Hundredths of a speed unit.
    pub wind_speed: i64,
    /// Hundredths of a percent.
    pub precipitation_probability: i64,
}

impl Clone for ForecastRecord {
    fn clone(&self) -> (r: Self)
        ensures
            r == *self,
    {
        ForecastRecord {
            location_id: self.location_id,
            period_start: self.period_start,
            fetched_at: self.fetched_at,
            temperature: self.temperature,
            feels_like: self.feels_like,
            condition_id: self.condition_id,
            condition_description: self.condition_description.clone(),
            humidity: self.humidity,
            pressure: self.pressure,
            wind_speed: self.wind_speed,
            precipitation_probability: self.precipitation_probability,
        }
    }
}

/// A location the refresher keeps warm: an identifier, coordinates in
/// millionths of a degree, and the IANA name of the location's time zone.
#[derive(Debug, PartialEq)]
pub struct TrackedLocation {
    pub location_id: i64,
    /// Millionths of a degree north.
    pub latitude_micro: i64,
    /// Millionths of a degree east.
    pub longitude_micro: i64,
    /// IANA time-zone identifier, e.g. `America/New_York`.
    pub time_zone: String,
}

impl Clone for TrackedLocation {
    fn clone(&self) -> (r: Self)
        ensures
            r == *self,
    {
        TrackedLocation {
            location_id: self.location_id,
            latitude_micro: self.latitude_micro,
            longitude_micro: self.longitude_micro,
            time_zone: self.time_zone.clone(),
        }
    }
}

} // verus!

//! Provider payloads brought to plain fixed-point values, and their mapping
//! into the records the store keeps.

use crate::errors::FetchError;
use crate::records::{ForecastRecord, WeatherRecord};
use vstd::prelude::*;

verus! {

/// One sky-condition entry of a provider payload. The provider sends a list
/// of these; the first entry is the one recorded.
#[derive(Debug, PartialEq)]
pub struct ProviderCondition {
    /// The provider's numeric condition code.
    pub condition_id: i64,
    pub description: String,
}

impl Clone for ProviderCondition {
    fn clone(&self) -> (r: Self)
        ensures
            r == *self,
    {
        ProviderCondition { condition_id: self.condition_id, description: self.description.clone() }
    }
}

/// A current-weather payload, already brought to plain fixed-point values
/// (hundredths of a unit, as in the records).
#[derive(Debug, PartialEq)]
pub struct ProviderWeather {
    /// Sky conditions; a payload without at least one entry is malformed.
    pub conditions: Vec<ProviderCondition>,
    pub temperature: i64,
    pub feels_like: i64,
    pub humidity: i64,
    pub pressure: i64,
    pub wind_speed: i64,
    pub cloudiness: i64,
}

/// One period of a forecast payload, in plain fixed-point values.
#[derive(Debug, PartialEq)]
pub struct ProviderForecastPeriod {
    /// Unix seconds at which the period begins (provider time).
    pub period_start: i64,
    /// Sky conditions; a period without at least one entry is malformed.
    pub conditions: Vec<ProviderCondition>,
    pub temperature: i64,
    pub feels_like: i64,
    pub humidity: i64,
    pub pressure: i64,
    pub wind_speed: i64,
    pub precipitation_probability: i64,
}

/// A forecast payload: an ordered, bounded list of periods.
#[derive(Debug, PartialEq)]
pub struct ProviderForecast {
    pub periods: Vec<ProviderForecastPeriod>,
}

/// The largest number of forecast periods a single fetch may ask for: eight
/// three-hour periods a day over five days.
pub const FORECAST_PERIOD_LIMIT: u16 = 40;

/// The weather record a well-formed payload maps to, stamped with the fetch
/// time `observed_at`.
pub open spec fn weather_record_spec(
    location_id: i64,
    observed_at: i64,
    p: ProviderWeather,
) -> WeatherRecord {
    WeatherRecord {
        location_id,
        observed_at,
        temperature: p.temperature,
        feels_like: p.feels_like,
        condition_id: p.conditions@[0].condition_id,
        condition_description: p.conditions@[0].description,
        humidity: p.humidity,
        pressure: p.pressure,
        wind_speed: p.wind_speed,
        cloudiness: p.cloudiness,
    }
}

/// The forecast record a well-formed period maps to, with provenance
/// `fetched_at`.
pub open spec fn forecast_record_spec(
    location_id: i64,
    fetched_at: i64,
    q: ProviderForecastPeriod,
) -> ForecastRecord {
    ForecastRecord {
        location_id,
        period_start: q.period_start,
        fetched_at,
        temperature: q.temperature,
        feels_like: q.feels_like,
        condition_id: q.conditions@[0].condition_id,
        condition_description: q.conditions@[0].description,
        humidity: q.humidity,
        pressure: q.pressure,
        wind_speed: q.wind_speed,
        precipitation_probability: q.precipitation_probability,
    }
}

/// Every period of the payload carries at least one sky condition.
pub open spec fn forecast_periods_ok(ps: Seq<ProviderForecastPeriod>) -> bool {
    forall|i: int| 0 <= i < ps.len() ==> (#[trigger] ps[i]).conditions@.len() > 0
}

/// The records a well-formed forecast payload maps to, period by period.
pub open spec fn forecast_records_spec(
    location_id: i64,
    fetched_at: i64,
    ps: Seq<ProviderForecastPeriod>,
) -> Seq<ForecastRecord> {
    ps.map_values(|q: ProviderForecastPeriod| forecast_record_spec(location_id, fetched_at, q))
}

/// Map a current-weather payload into the record to store, stamping it with
/// the fetch time. A payload without any sky condition is malformed and is
/// rejected, exactly then.
pub fn weather_record_from(location_id: i64, observed_at: i64, p: &ProviderWeather) -> (r: Result<
    WeatherRecord,
    FetchError,
>)
    ensures
        p.conditions@.len() == 0 ==> r == Result::<WeatherRecord, FetchError>::Err(
            FetchError::MalformedResponse,
        ),
        p.conditions@.len() > 0 ==> r == Result::<WeatherRecord, FetchError>::Ok(
            weather_record_spec(location_id, observed_at, *p),
        ),
{
    if p.conditions.len() == 0 {
        return Result::Err(FetchError::MalformedResponse);
    }
    let first = &p.conditions[0];
    Result::Ok(
        WeatherRecord {
            location_id,
            observed_at,
            temperature: p.temperature,
            feels_like: p.feels_like,
            condition_id: first.condition_id,
            condition_description: first.description.clone(),
            humidity: p.humidity,
            pressure: p.pressure,
            wind_speed: p.wind_speed,
            cloudiness: p.cloudiness,
        },
    )
}

/// Map a forecast payload into the records to store, one per period, all
/// stamped with the same fetch time. A payload with any period lacking a sky
/// condition is malformed and is rejected whole, exactly then.
pub fn forecast_records_from(location_id: i64, fetched_at: i64, p: &ProviderForecast) -> (r:
    Result<Vec<ForecastRecord>, FetchError>)
    ensures
        match r {
            Result::Ok(v) => forecast_periods_ok(p.periods@) && v@ == forecast_records_spec(
                location_id,
                fetched_at,
                p.periods@,
            ),
            Result::Err(e) => e == FetchError::MalformedResponse && !forecast_periods_ok(
                p.periods@,
            ),
        },
{
    let mut out: Vec<ForecastRecord> = Vec::new();
    let mut i: usize = 0;
    while i < p.periods.len()
        invariant
            0 <= i <= p.periods@.len(),
            out@.len() == i,
            forall|k: int|
                0 <= k < i ==> (#[trigger] p.periods@[k]).conditions@.len() > 0 && out@[k]
                    == forecast_record_spec(location_id, fetched_at, p.periods@[k]),
        decreases p.periods@.len() - i,
    {
        let q = &p.periods[i];
        if q.conditions.len() == 0 {
            return Result::Err(FetchError::MalformedResponse);
        }
        let first = &q.conditions[0];
        out.push(
            ForecastRecord {
                location_id,
                period_start: q.period_start,
                fetched_at,
                temperature: q.temperature,
                feels_like: q.feels_like,
                condition_id: first.condition_id,
                condition_description: first.description.clone(),
                humidity: q.humidity,
                pressure: q.pressure,
                wind_speed: q.wind_speed,
                precipitation_probability: q.precipitation_probability,
            },
        );
        i = i + 1;
    }
    proof {
        assert(out@ =~= forecast_records_spec(location_id, fetched_at, p.periods@));
    }
    Result::Ok(out)
}

} // verus!

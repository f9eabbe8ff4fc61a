//! The bulk refresher: one atomic pass over every tracked location per
//! cycle, committed in full or not at all.

use crate::errors::{FetchError, RefreshError};
use crate::provider::{
    forecast_periods_ok, forecast_records_spec, weather_record_spec, forecast_records_from,
    weather_record_from, ProviderForecast, ProviderWeather,
};
use crate::records::{ForecastRecord, TrackedLocation, WeatherRecord};
use crate::source::{ScriptedForecastSource, ScriptedWeatherSource};
use crate::store::{upsert_forecast_all, upsert_weather_all, Store, Transaction};
use vstd::prelude::*;

verus! {

/// The reply the source will give for the cycle's `i`th fetch: the `i`th
/// scripted one, or a transport error once the script is exhausted.
pub open spec fn weather_reply_at(
    replies: Seq<Result<ProviderWeather, FetchError>>,
    i: int,
) -> Result<ProviderWeather, FetchError> {
    if 0 <= i < replies.len() {
        replies[i]
    } else {
        Result::Err(FetchError::TransportError)
    }
}

/// The cycle's `i`th fetch succeeds with a usable payload.
pub open spec fn weather_reply_ok(
    replies: Seq<Result<ProviderWeather, FetchError>>,
    i: int,
) -> bool {
    weather_reply_at(replies, i) is Ok && weather_reply_at(replies, i)->Ok_0.conditions@.len() > 0
}

/// The records a weather cycle stages when every fetch succeeds: one per
/// tracked location, in enumeration order, all stamped with the cycle's
/// `now`.
pub open spec fn cycle_weather_records(
    locs: Seq<TrackedLocation>,
    replies: Seq<Result<ProviderWeather, FetchError>>,
    now: i64,
) -> Seq<WeatherRecord> {
    Seq::new(
        locs.len(),
        |i: int|
            weather_record_spec(locs[i].location_id, now, weather_reply_at(replies, i)->Ok_0),
    )
}

/// The reply the source will give for the cycle's `i`th fetch: the `i`th
/// scripted one, or a transport error once the script is exhausted.
pub open spec fn forecast_reply_at(
    replies: Seq<Result<ProviderForecast, FetchError>>,
    i: int,
) -> Result<ProviderForecast, FetchError> {
    if 0 <= i < replies.len() {
        replies[i]
    } else {
        Result::Err(FetchError::TransportError)
    }
}

/// The cycle's `i`th fetch succeeds with a usable payload.
pub open spec fn forecast_reply_ok(
    replies: Seq<Result<ProviderForecast, FetchError>>,
    i: int,
) -> bool {
    forecast_reply_at(replies, i) is Ok && forecast_periods_ok(
        forecast_reply_at(replies, i)->Ok_0.periods@,
    )
}

/// The records the first `n` locations of a forecast cycle stage when their
/// fetches succeed: every period of every payload, location by location in
/// enumeration order, all stamped with the cycle's `now`.
pub open spec fn cycle_forecast_records(
    locs: Seq<TrackedLocation>,
    replies: Seq<Result<ProviderForecast, FetchError>>,
    now: i64,
    n: int,
) -> Seq<ForecastRecord>
    decreases n,
{
    if n <= 0 {
        Seq::empty()
    } else {
        cycle_forecast_records(locs, replies, now, n - 1) + forecast_records_spec(
            locs[n - 1].location_id,
            now,
            forecast_reply_at(replies, n - 1)->Ok_0.periods@,
        )
    }
}

/// One bulk current-weather refresh cycle: enumerate the tracked locations,
/// fetch one observation per location, stage every upsert in one
/// transaction, and commit only when every location succeeded.
///
/// The cycle is fail-fast and atomic: the first failing fetch (or unusable
/// payload) aborts it with that location's id, nothing is committed, and no
/// further location is fetched. Nothing is retried within the cycle; the
/// next scheduled cycle is the retry mechanism.
pub fn run_weather_cycle(store: &mut Store, source: &mut ScriptedWeatherSource, now: i64) -> (r:
    Result<usize, RefreshError>)
    requires
        old(store).wf(),
        old(source).calls_made() + old(store).locations_view().len() <= u64::MAX,
    ensures
        final(store).wf(),
        final(store).locations_view() == old(store).locations_view(),
        final(store).forecast_rows() == old(store).forecast_rows(),
        match r {
            Result::Ok(n) => {
                &&& n == old(store).locations_view().len()
                &&& forall|i: int|
                    0 <= i < n as int ==> weather_reply_ok(old(source).pending_replies(), i)
                &&& final(source).calls_made() == old(source).calls_made() + n
                &&& final(store).weather_rows() == upsert_weather_all(
                    old(store).weather_rows(),
                    cycle_weather_records(
                        old(store).locations_view(),
                        old(source).pending_replies(),
                        now,
                    ),
                )
            },
            Result::Err(e) => {
                &&& *final(store) == *old(store)
                &&& exists|i: int|
                    {
                        &&& 0 <= i < old(store).locations_view().len()
                        &&& !(#[trigger] weather_reply_ok(old(source).pending_replies(), i))
                        &&& (forall|j: int|
                            0 <= j < i ==> weather_reply_ok(old(source).pending_replies(), j))
                        &&& e == (RefreshError::FetchFailed {
                            location_id: old(store).locations_view()[i].location_id,
                        })
                        &&& final(source).calls_made() == old(source).calls_made() + i + 1
                    }
            },
        },
{
    let ghost locs = store.locations_view();
    let ghost replies = source.pending_replies();
    let mut txn = Transaction::begin();
    let mut i: usize = 0;
    while i < store.location_list().len()
        invariant
            store.wf(),
            *store == *old(store),
            locs == store.locations_view(),
            replies == old(source).pending_replies(),
            old(source).calls_made() + locs.len() <= u64::MAX,
            0 <= i <= locs.len(),
            txn.staged_forecasts() == Seq::<ForecastRecord>::empty(),
            txn.staged_weather() == cycle_weather_records(locs, replies, now).subrange(
                0,
                i as int,
            ),
            forall|j: int| 0 <= j < i ==> weather_reply_ok(replies, j),
            i as int <= replies.len(),
            source.calls_made() == old(source).calls_made() + i,
            source.pending_replies() == replies.skip(i as int),
        decreases locs.len() - i,
    {
        let location_id = store.location_list()[i].location_id;
        let reply = source.fetch();
        proof {
            if (i as int) < replies.len() {
                assert(replies.skip(i as int)[0] == replies[i as int]);
                assert(source.pending_replies() =~= replies.skip(i as int + 1));
            }
            assert(reply == weather_reply_at(replies, i as int));
        }
        match reply {
            Result::Ok(p) => {
                match weather_record_from(location_id, now, &p) {
                    Result::Ok(rec) => {
                        txn.stage_weather(rec);
                        proof {
                            assert(txn.staged_weather() =~= cycle_weather_records(
                                locs,
                                replies,
                                now,
                            ).subrange(0, i as int + 1));
                        }
                    },
                    Result::Err(_) => {
                        proof {
                            assert(!weather_reply_ok(old(source).pending_replies(), i as int));
                        }
                        return Result::Err(RefreshError::FetchFailed { location_id });
                    },
                }
            },
            Result::Err(_) => {
                proof {
                    assert(!weather_reply_ok(old(source).pending_replies(), i as int));
                }
                return Result::Err(RefreshError::FetchFailed { location_id });
            },
        }
        i = i + 1;
    }
    proof {
        assert(txn.staged_weather() =~= cycle_weather_records(locs, replies, now));
    }
    let n = store.location_list().len();
    txn.commit(store);
    Result::Ok(n)
}

/// One bulk forecast refresh cycle: enumerate the tracked locations, fetch
/// one bounded list of forecast periods per location, stage every period's
/// upsert in one transaction, and commit only when every location succeeded.
///
/// Fail-fast and atomic, exactly as `run_weather_cycle`.
pub fn run_forecast_cycle(store: &mut Store, source: &mut ScriptedForecastSource, now: i64) -> (r:
    Result<usize, RefreshError>)
    requires
        old(store).wf(),
        old(source).calls_made() + old(store).locations_view().len() <= u64::MAX,
    ensures
        final(store).wf(),
        final(store).locations_view() == old(store).locations_view(),
        final(store).weather_rows() == old(store).weather_rows(),
        match r {
            Result::Ok(n) => {
                &&& n == old(store).locations_view().len()
                &&& forall|i: int|
                    0 <= i < n as int ==> forecast_reply_ok(old(source).pending_replies(), i)
                &&& final(source).calls_made() == old(source).calls_made() + n
                &&& final(store).forecast_rows() == upsert_forecast_all(
                    old(store).forecast_rows(),
                    cycle_forecast_records(
                        old(store).locations_view(),
                        old(source).pending_replies(),
                        now,
                        old(store).locations_view().len() as int,
                    ),
                )
            },
            Result::Err(e) => {
                &&& *final(store) == *old(store)
                &&& exists|i: int|
                    {
                        &&& 0 <= i < old(store).locations_view().len()
                        &&& !(#[trigger] forecast_reply_ok(old(source).pending_replies(), i))
                        &&& (forall|j: int|
                            0 <= j < i ==> forecast_reply_ok(old(source).pending_replies(), j))
                        &&& e == (RefreshError::FetchFailed {
                            location_id: old(store).locations_view()[i].location_id,
                        })
                        &&& final(source).calls_made() == old(source).calls_made() + i + 1
                    }
            },
        },
{
    let ghost locs = store.locations_view();
    let ghost replies = source.pending_replies();
    let mut txn = Transaction::begin();
    let mut i: usize = 0;
    while i < store.location_list().len()
        invariant
            store.wf(),
            *store == *old(store),
            locs == store.locations_view(),
            replies == old(source).pending_replies(),
            old(source).calls_made() + locs.len() <= u64::MAX,
            0 <= i <= locs.len(),
            txn.staged_weather() == Seq::<WeatherRecord>::empty(),
            txn.staged_forecasts() == cycle_forecast_records(locs, replies, now, i as int),
            forall|j: int| 0 <= j < i ==> forecast_reply_ok(replies, j),
            i as int <= replies.len(),
            source.calls_made() == old(source).calls_made() + i,
            source.pending_replies() == replies.skip(i as int),
        decreases locs.len() - i,
    {
        let location_id = store.location_list()[i].location_id;
        let reply = source.fetch();
        proof {
            if (i as int) < replies.len() {
                assert(replies.skip(i as int)[0] == replies[i as int]);
                assert(source.pending_replies() =~= replies.skip(i as int + 1));
            }
            assert(reply == forecast_reply_at(replies, i as int));
        }
        match reply {
            Result::Ok(p) => {
                match forecast_records_from(location_id, now, &p) {
                    Result::Ok(recs) => {
                        let ghost staged0 = txn.staged_forecasts();
                        let mut k: usize = 0;
                        while k < recs.len()
                            invariant
                                0 <= k <= recs@.len(),
                                txn.staged_weather() == Seq::<WeatherRecord>::empty(),
                                txn.staged_forecasts() == staged0 + recs@.subrange(0, k as int),
                            decreases recs@.len() - k,
                        {
                            txn.stage_forecast(recs[k].clone());
                            proof {
                                assert(txn.staged_forecasts() =~= staged0 + recs@.subrange(
                                    0,
                                    k as int + 1,
                                ));
                            }
                            k = k + 1;
                        }
                        proof {
                            assert(txn.staged_forecasts() =~= cycle_forecast_records(
                                locs,
                                replies,
                                now,
                                i as int + 1,
                            ));
                        }
                    },
                    Result::Err(_) => {
                        proof {
                            assert(!forecast_reply_ok(old(source).pending_replies(), i as int));
                        }
                        return Result::Err(RefreshError::FetchFailed { location_id });
                    },
                }
            },
            Result::Err(_) => {
                proof {
                    assert(!forecast_reply_ok(old(source).pending_replies(), i as int));
                }
                return Result::Err(RefreshError::FetchFailed { location_id });
            },
        }
        i = i + 1;
    }
    let n = store.location_list().len();
    txn.commit(store);
    Result::Ok(n)
}

} // verus!

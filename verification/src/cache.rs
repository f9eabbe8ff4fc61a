//! The on-demand read path: staleness filters over cached rows and the
//! get-or-fetch decision that serves the cache when it is recent enough and
//! otherwise makes exactly one fetch, stores the answer, and returns it.

use crate::errors::FetchError;
use crate::localtime::{local_midnight_of, local_midnight_unix};
use crate::provider::{
    forecast_periods_ok, forecast_records_spec, weather_record_spec, forecast_records_from,
    weather_record_from,
};
use crate::records::{ForecastRecord, WeatherRecord};
use crate::source::{ScriptedForecastSource, ScriptedWeatherSource};
use crate::store::{
    has_location, location_of, upsert_forecast_all, upsert_weather_seq, same_weather_key, Store,
    Transaction,
};
use vstd::prelude::*;

verus! {

/// How many weather rows the reader considers: one per expected hourly
/// update.
pub const WEATHER_READ_LIMIT: usize = 4;

/// How many forecast rows the reader considers: a full forecast window with
/// margin for the worst case just before midnight.
pub const FORECAST_READ_LIMIT: usize = 200;

/// The weather row standing at `rank` among a location's rows (newest first)
/// is fresh at `now` under window `w`: it lies within `[now - w, now]`, and,
/// since hourly updates are expected, the row `rank` places back may be at
/// most `rank + 1` hours old.
pub open spec fn weather_fresh_at(r: WeatherRecord, rank: int, now: int, w: int) -> bool {
    now - w <= r.observed_at <= now && now - (rank + 1) * 3600 <= r.observed_at
}

/// The fresh rows among the first `n` of `rows` (ordered newest first), in
/// order.
pub open spec fn fresh_weather_prefix(
    rows: Seq<WeatherRecord>,
    now: int,
    w: int,
    n: int,
) -> Seq<WeatherRecord>
    decreases n,
{
    if n <= 0 {
        Seq::empty()
    } else if weather_fresh_at(rows[n - 1], n - 1, now, w) {
        fresh_weather_prefix(rows, now, w, n - 1).push(rows[n - 1])
    } else {
        fresh_weather_prefix(rows, now, w, n - 1)
    }
}

/// The fresh rows of `rows` (ordered newest first), in order.
pub open spec fn fresh_weather_rows(
    rows: Seq<WeatherRecord>,
    now: int,
    w: int,
) -> Seq<WeatherRecord> {
    fresh_weather_prefix(rows, now, w, rows.len() as int)
}

/// A forecast row is fresh when its period starts no earlier than the
/// location's local midnight and no earlier than `now - w`: the remaining
/// periods of the local day stay fresh however long ago they were fetched.
pub open spec fn forecast_fresh(r: ForecastRecord, midnight: int, now: int, w: int) -> bool {
    midnight <= r.period_start && now - w <= r.period_start
}

/// The fresh rows among the first `n` of `rows`, in order.
pub open spec fn fresh_forecast_prefix(
    rows: Seq<ForecastRecord>,
    midnight: int,
    now: int,
    w: int,
    n: int,
) -> Seq<ForecastRecord>
    decreases n,
{
    if n <= 0 {
        Seq::empty()
    } else if forecast_fresh(rows[n - 1], midnight, now, w) {
        fresh_forecast_prefix(rows, midnight, now, w, n - 1).push(rows[n - 1])
    } else {
        fresh_forecast_prefix(rows, midnight, now, w, n - 1)
    }
}

/// The fresh rows of `rows`, in order.
pub open spec fn fresh_forecast_rows(
    rows: Seq<ForecastRecord>,
    midnight: int,
    now: int,
    w: int,
) -> Seq<ForecastRecord> {
    fresh_forecast_prefix(rows, midnight, now, w, rows.len() as int)
}

/// Every row the weather filter keeps comes from the given rows and lies
/// within the staleness window.
pub proof fn lemma_fresh_weather_elements(rows: Seq<WeatherRecord>, now: int, w: int, n: int)
    requires
        0 <= n <= rows.len(),
    ensures
        forall|k: int|
            0 <= k < fresh_weather_prefix(rows, now, w, n).len() ==> rows.contains(
                #[trigger] fresh_weather_prefix(rows, now, w, n)[k],
            ),
        forall|k: int|
            0 <= k < fresh_weather_prefix(rows, now, w, n).len() ==> now - w <= (
            #[trigger] fresh_weather_prefix(rows, now, w, n)[k]).observed_at <= now,
    decreases n,
{
    if n > 0 {
        lemma_fresh_weather_elements(rows, now, w, n - 1);
        if weather_fresh_at(rows[n - 1], n - 1, now, w) {
            assert(rows.contains(rows[n - 1]));
            assert(fresh_weather_prefix(rows, now, w, n) == fresh_weather_prefix(
                rows,
                now,
                w,
                n - 1,
            ).push(rows[n - 1]));
        }
    }
}

/// Every row the forecast filter keeps comes from the given rows, starts no
/// earlier than the local midnight, and lies within the staleness window.
pub proof fn lemma_fresh_forecast_elements(
    rows: Seq<ForecastRecord>,
    midnight: int,
    now: int,
    w: int,
    n: int,
)
    requires
        0 <= n <= rows.len(),
    ensures
        forall|k: int|
            0 <= k < fresh_forecast_prefix(rows, midnight, now, w, n).len() ==> rows.contains(
                #[trigger] fresh_forecast_prefix(rows, midnight, now, w, n)[k],
            ),
        forall|k: int|
            0 <= k < fresh_forecast_prefix(rows, midnight, now, w, n).len() ==> forecast_fresh(
                #[trigger] fresh_forecast_prefix(rows, midnight, now, w, n)[k],
                midnight,
                now,
                w,
            ),
    decreases n,
{
    if n > 0 {
        lemma_fresh_forecast_elements(rows, midnight, now, w, n - 1);
        if forecast_fresh(rows[n - 1], midnight, now, w) {
            assert(rows.contains(rows[n - 1]));
            assert(fresh_forecast_prefix(rows, midnight, now, w, n) == fresh_forecast_prefix(
                rows,
                midnight,
                now,
                w,
                n - 1,
            ).push(rows[n - 1]));
        }
    }
}

/// A fresh newest row keeps the weather filter's result nonempty, with that
/// row at its head.
pub proof fn lemma_fresh_weather_head(rows: Seq<WeatherRecord>, now: int, w: int, n: int)
    requires
        1 <= n <= rows.len(),
        weather_fresh_at(rows[0], 0, now, w),
    ensures
        fresh_weather_prefix(rows, now, w, n).len() > 0,
        fresh_weather_prefix(rows, now, w, n)[0] == rows[0],
    decreases n,
{
    if n == 1 {
        assert(fresh_weather_prefix(rows, now, w, 1) == fresh_weather_prefix(
            rows,
            now,
            w,
            0,
        ).push(rows[0]));
    } else {
        lemma_fresh_weather_head(rows, now, w, n - 1);
        let prev = fresh_weather_prefix(rows, now, w, n - 1);
        if weather_fresh_at(rows[n - 1], n - 1, now, w) {
            assert(fresh_weather_prefix(rows, now, w, n)[0] == prev.push(rows[n - 1])[0]);
        }
    }
}

/// A fresh newest row keeps the forecast filter's result nonempty, with that
/// row at its head.
pub proof fn lemma_fresh_forecast_head(
    rows: Seq<ForecastRecord>,
    midnight: int,
    now: int,
    w: int,
    n: int,
)
    requires
        1 <= n <= rows.len(),
        forecast_fresh(rows[0], midnight, now, w),
    ensures
        fresh_forecast_prefix(rows, midnight, now, w, n).len() > 0,
        fresh_forecast_prefix(rows, midnight, now, w, n)[0] == rows[0],
    decreases n,
{
    if n == 1 {
        assert(fresh_forecast_prefix(rows, midnight, now, w, 1) == fresh_forecast_prefix(
            rows,
            midnight,
            now,
            w,
            0,
        ).push(rows[0]));
    } else {
        lemma_fresh_forecast_head(rows, midnight, now, w, n - 1);
        let prev = fresh_forecast_prefix(rows, midnight, now, w, n - 1);
        if forecast_fresh(rows[n - 1], midnight, now, w) {
            assert(fresh_forecast_prefix(rows, midnight, now, w, n)[0] == prev.push(
                rows[n - 1],
            )[0]);
        }
    }
}

/// Keep the weather rows that are fresh at `now` under `staleness_window`,
/// in order. `rows` is expected newest first, as `Store::recent_weather`
/// serves them.
pub fn filter_fresh_weather(rows: &Vec<WeatherRecord>, now: i64, staleness_window: i64) -> (fresh:
    Vec<WeatherRecord>)
    ensures
        fresh@ == fresh_weather_rows(rows@, now as int, staleness_window as int),
{
    let mut fresh: Vec<WeatherRecord> = Vec::new();
    let mut i: usize = 0;
    while i < rows.len()
        invariant
            0 <= i <= rows@.len(),
            fresh@ == fresh_weather_prefix(rows@, now as int, staleness_window as int, i as int),
        decreases rows@.len() - i,
    {
        let obs = rows[i].observed_at as i128;
        if (now as i128) - (staleness_window as i128) <= obs && obs <= (now as i128) && (
        now as i128) - ((i as i128) + 1) * 3600 <= obs {
            fresh.push(rows[i].clone());
        }
        i = i + 1;
    }
    fresh
}

/// Keep the forecast rows that are fresh for the local day starting at
/// `midnight`, under `staleness_window`, in order.
pub fn filter_fresh_forecasts(
    rows: &Vec<ForecastRecord>,
    midnight: i64,
    now: i64,
    staleness_window: i64,
) -> (fresh: Vec<ForecastRecord>)
    ensures
        fresh@ == fresh_forecast_rows(
            rows@,
            midnight as int,
            now as int,
            staleness_window as int,
        ),
{
    let mut fresh: Vec<ForecastRecord> = Vec::new();
    let mut i: usize = 0;
    while i < rows.len()
        invariant
            0 <= i <= rows@.len(),
            fresh@ == fresh_forecast_prefix(
                rows@,
                midnight as int,
                now as int,
                staleness_window as int,
                i as int,
            ),
        decreases rows@.len() - i,
    {
        let ps = rows[i].period_start as i128;
        if (midnight as i128) <= ps && (now as i128) - (staleness_window as i128) <= ps {
            fresh.push(rows[i].clone());
        }
        i = i + 1;
    }
    fresh
}

/// Serve cached current weather for a location, or fetch, store and return a
/// fresh observation when nothing cached is recent enough.
///
/// The unknown location is refused before anything else: no fetch, no write.
/// A cache hit makes no fetch and no write. A cache miss makes exactly one
/// fetch; when it succeeds the new observation is upserted and returned, and
/// when it fails the error propagates — the reader never falls back to stale
/// rows. Whatever happens, at most one fetch is made.
#[verifier::rlimit(100)]
pub fn get_or_fetch_weather(
    store: &mut Store,
    source: &mut ScriptedWeatherSource,
    location_id: i64,
    now: i64,
    staleness_window: i64,
) -> (r: Result<Vec<WeatherRecord>, FetchError>)
    requires
        old(store).wf(),
        old(source).calls_made() < u64::MAX,
    ensures
        final(store).wf(),
        final(store).forecast_rows() == old(store).forecast_rows(),
        final(store).locations_view() == old(store).locations_view(),
        final(source).calls_made() <= old(source).calls_made() + 1,
        !has_location(old(store).locations_view(), location_id as int) ==> r == Result::<
            Vec<WeatherRecord>,
            FetchError,
        >::Err(FetchError::NotFound) && *final(store) == *old(store) && *final(source) == *old(source),
        match r {
            Result::Ok(rows) => ({
                ||| {
                    &&& *final(store) == *old(store)
                    &&& *final(source) == *old(source)
                    &&& rows@.len() > 0
                    &&& forall|k: int|
                        0 <= k < rows@.len() ==> {
                            &&& old(store).weather_rows().contains(#[trigger] rows@[k])
                            &&& rows@[k].location_id == location_id
                            &&& now - staleness_window <= rows@[k].observed_at <= now
                        }
                }
                ||| {
                    &&& final(source).calls_made() == old(source).calls_made() + 1
                    &&& old(source).pending_replies().len() > 0
                    &&& old(source).pending_replies()[0] is Ok
                    &&& rows@ == seq![
                        weather_record_spec(
                            location_id,
                            now,
                            old(source).pending_replies()[0]->Ok_0,
                        ),
                    ]
                    &&& final(store).weather_rows() == upsert_weather_seq(
                        old(store).weather_rows(),
                        rows@[0],
                    )
                }
            }),
            Result::Err(e) => {
                &&& *final(store) == *old(store)
                &&& (!has_location(old(store).locations_view(), location_id as int) ==> e
                    == FetchError::NotFound && *final(source) == *old(source))
                &&& (has_location(old(store).locations_view(), location_id as int) ==> {
                    &&& final(source).calls_made() == old(source).calls_made() + 1
                    &&& (old(source).pending_replies().len() == 0 ==> e
                        == FetchError::TransportError)
                    &&& (old(source).pending_replies().len() > 0 && old(source).pending_replies()[0] is Err ==> e == old(source).pending_replies()[0]->Err_0)
                    &&& (old(source).pending_replies().len() > 0 && old(source).pending_replies()[0] is Ok ==> e == FetchError::MalformedResponse && old(source).pending_replies()[0]->Ok_0.conditions@.len() == 0)
                })
            },
        },
        // A sufficiently recent newest row forces a cache hit: no fetch, no
        // write, rows served from the store.
        (has_location(old(store).locations_view(), location_id as int) && exists|j: int| {
            &&& 0 <= j < old(store).weather_rows().len()
            &&& (#[trigger] old(store).weather_rows()[j]).location_id == location_id
            &&& weather_fresh_at(old(store).weather_rows()[j], 0, now as int, staleness_window as int)
            &&& forall|k: int|
                0 <= k < old(store).weather_rows().len() && (#[trigger] old(store).weather_rows()[k]).location_id == location_id ==> old(store).weather_rows()[k].observed_at <= old(store).weather_rows()[j].observed_at
        }) ==> r is Ok && *final(store) == *old(store) && *final(source) == *old(source),
        // Only stale rows cached for a known location: exactly one fetch.
        (has_location(old(store).locations_view(), location_id as int) && (forall|j: int|
            0 <= j < old(store).weather_rows().len() && (#[trigger] old(store).weather_rows()[j]).location_id == location_id ==> old(store).weather_rows()[j].observed_at < now - staleness_window)) ==> final(source).calls_made() == old(source).calls_made() + 1,
{
    if store.lookup_location(location_id).is_none() {
        return Result::Err(FetchError::NotFound);
    }
    let cached = store.recent_weather(location_id, WEATHER_READ_LIMIT);
    let fresh = filter_fresh_weather(&cached, now, staleness_window);
    proof {
        lemma_fresh_weather_elements(
            cached@,
            now as int,
            staleness_window as int,
            cached@.len() as int,
        );
    }
    if fresh.len() > 0 {
        proof {
            assert forall|k: int| 0 <= k < fresh@.len() implies {
                &&& store.weather_rows().contains(#[trigger] fresh@[k])
                &&& fresh@[k].location_id == location_id
                &&& now - staleness_window <= fresh@[k].observed_at <= now
            } by {
                assert(cached@.contains(fresh@[k]));
                let i = choose|i: int| 0 <= i < cached@.len() && cached@[i] == fresh@[k];
            }
            let t = store.weather_rows();
            assert(t.contains(fresh@[0]));
            let j0 = choose|j: int| 0 <= j < t.len() && t[j] == fresh@[0];
            assert((#[trigger] t[j0]).location_id == location_id && t[j0].observed_at
                >= now - staleness_window);
        }
        return Result::Ok(fresh);
    }
    proof {
        let t = store.weather_rows();
        if exists|j: int| {
            &&& 0 <= j < t.len()
            &&& (#[trigger] t[j]).location_id == location_id
            &&& weather_fresh_at(t[j], 0, now as int, staleness_window as int)
            &&& forall|k: int|
                0 <= k < t.len() && (#[trigger] t[k]).location_id == location_id
                    ==> t[k].observed_at <= t[j].observed_at
        } {
            let j = choose|j: int| {
                &&& 0 <= j < t.len()
                &&& (#[trigger] t[j]).location_id == location_id
                &&& weather_fresh_at(t[j], 0, now as int, staleness_window as int)
                &&& forall|k: int|
                    0 <= k < t.len() && (#[trigger] t[k]).location_id == location_id
                        ==> t[k].observed_at <= t[j].observed_at
            };
            assert(cached@.len() > 0);
            assert(t.contains(cached@[0]));
            let j0 = choose|i: int| 0 <= i < t.len() && t[i] == cached@[0];
            assert(t[j0].observed_at <= t[j].observed_at);
            assert(t[j].observed_at <= cached@[0].observed_at);
            assert(t[j0].observed_at == t[j].observed_at);
            if j0 != j {
                assert(same_weather_key(t[j0], t[j]));
                assert(false);
            }
            assert(weather_fresh_at(cached@[0], 0, now as int, staleness_window as int));
            lemma_fresh_weather_head(
                cached@,
                now as int,
                staleness_window as int,
                cached@.len() as int,
            );
            assert(false);
        }
    }
    let reply = source.fetch();
    match reply {
        Result::Ok(p) => match weather_record_from(location_id, now, &p) {
            Result::Ok(rec) => {
                store.upsert_weather(&rec);
                let mut out: Vec<WeatherRecord> = Vec::new();
                out.push(rec);
                proof {
                    assert(out@ =~= seq![
                        weather_record_spec(
                            location_id,
                            now,
                            old(source).pending_replies()[0]->Ok_0,
                        ),
                    ]);
                }
                Result::Ok(out)
            },
            Result::Err(e) => Result::Err(e),
        },
        Result::Err(e) => Result::Err(e),
    }
}

/// Serve cached forecast periods for a location, or fetch, store and return
/// fresh ones when nothing cached is recent enough.
///
/// Freshness is judged against the location's local midnight, resolved from
/// its stored time-zone identifier: the remaining periods of the local day
/// are fresh no matter how long ago they were fetched. The unknown location
/// is refused before anything else, an unresolvable zone right after, both
/// without a fetch or a write. A hit makes no fetch and no write; a miss
/// makes exactly one fetch and, on success, upserts every returned period in
/// one transaction. At most one fetch is made.
#[verifier::rlimit(100)]
pub fn get_or_fetch_forecast(
    store: &mut Store,
    source: &mut ScriptedForecastSource,
    location_id: i64,
    now: i64,
    staleness_window: i64,
) -> (r: Result<Vec<ForecastRecord>, FetchError>)
    requires
        old(store).wf(),
        old(source).calls_made() < u64::MAX,
    ensures
        final(store).wf(),
        final(store).weather_rows() == old(store).weather_rows(),
        final(store).locations_view() == old(store).locations_view(),
        final(source).calls_made() <= old(source).calls_made() + 1,
        !has_location(old(store).locations_view(), location_id as int) ==> r == Result::<
            Vec<ForecastRecord>,
            FetchError,
        >::Err(FetchError::NotFound) && *final(store) == *old(store) && *final(source) == *old(source),
        has_location(old(store).locations_view(), location_id as int) && local_midnight_of(
            location_of(old(store).locations_view(), location_id as int).time_zone@,
            now,
        ) is None ==> r == Result::<Vec<ForecastRecord>, FetchError>::Err(
            FetchError::TimeZoneResolutionError,
        ) && *final(store) == *old(store) && *final(source) == *old(source),
        match r {
            Result::Ok(rows) => has_location(old(store).locations_view(), location_id as int)
                && local_midnight_of(
                location_of(old(store).locations_view(), location_id as int).time_zone@,
                now,
            ) is Some && ({
                ||| {
                    &&& *final(store) == *old(store)
                    &&& *final(source) == *old(source)
                    &&& rows@.len() > 0
                    &&& forall|k: int|
                        0 <= k < rows@.len() ==> {
                            &&& old(store).forecast_rows().contains(#[trigger] rows@[k])
                            &&& rows@[k].location_id == location_id
                            &&& forecast_fresh(
                                rows@[k],
                                local_midnight_of(
                                    location_of(
                                        old(store).locations_view(),
                                        location_id as int,
                                    ).time_zone@,
                                    now,
                                )->Some_0 as int,
                                now as int,
                                staleness_window as int,
                            )
                        }
                }
                ||| {
                    &&& final(source).calls_made() == old(source).calls_made() + 1
                    &&& old(source).pending_replies().len() > 0
                    &&& old(source).pending_replies()[0] is Ok
                    &&& forecast_periods_ok(old(source).pending_replies()[0]->Ok_0.periods@)
                    &&& rows@ == forecast_records_spec(
                        location_id,
                        now,
                        old(source).pending_replies()[0]->Ok_0.periods@,
                    )
                    &&& final(store).forecast_rows() == upsert_forecast_all(
                        old(store).forecast_rows(),
                        rows@,
                    )
                }
            }),
            Result::Err(e) => {
                &&& *final(store) == *old(store)
                &&& (!has_location(old(store).locations_view(), location_id as int) ==> e
                    == FetchError::NotFound && *final(source) == *old(source))
                &&& (has_location(old(store).locations_view(), location_id as int)
                    && local_midnight_of(
                    location_of(old(store).locations_view(), location_id as int).time_zone@,
                    now,
                ) is None ==> e == FetchError::TimeZoneResolutionError && *final(source) == *old(source))
                &&& (has_location(old(store).locations_view(), location_id as int)
                    && local_midnight_of(
                    location_of(old(store).locations_view(), location_id as int).time_zone@,
                    now,
                ) is Some ==> {
                    &&& final(source).calls_made() == old(source).calls_made() + 1
                    &&& (old(source).pending_replies().len() == 0 ==> e
                        == FetchError::TransportError)
                    &&& (old(source).pending_replies().len() > 0 && old(
                        source,
                    ).pending_replies()[0] is Err ==> e == old(source).pending_replies()[0]->Err_0)
                    &&& (old(source).pending_replies().len() > 0 && old(
                        source,
                    ).pending_replies()[0] is Ok ==> e == FetchError::MalformedResponse
                        && !forecast_periods_ok(old(source).pending_replies()[0]->Ok_0.periods@))
                })
            },
        },
        // Any fresh cached period for a known, resolvable location forces a
        // hit: no fetch, no write.
        (has_location(old(store).locations_view(), location_id as int) && local_midnight_of(
            location_of(old(store).locations_view(), location_id as int).time_zone@,
            now,
        ) is Some && exists|j: int|
            0 <= j < old(store).forecast_rows().len() && (#[trigger] old(
                store,
            ).forecast_rows()[j]).location_id == location_id && forecast_fresh(
                old(store).forecast_rows()[j],
                local_midnight_of(
                    location_of(old(store).locations_view(), location_id as int).time_zone@,
                    now,
                )->Some_0 as int,
                now as int,
                staleness_window as int,
            )) ==> r is Ok && *final(store) == *old(store) && *final(source) == *old(source),
        // No fresh cached period for a known, resolvable location: exactly
        // one fetch.
        (has_location(old(store).locations_view(), location_id as int) && local_midnight_of(
            location_of(old(store).locations_view(), location_id as int).time_zone@,
            now,
        ) is Some && (forall|j: int|
            0 <= j < old(store).forecast_rows().len() && (#[trigger] old(
                store,
            ).forecast_rows()[j]).location_id == location_id ==> !forecast_fresh(
                old(store).forecast_rows()[j],
                local_midnight_of(
                    location_of(old(store).locations_view(), location_id as int).time_zone@,
                    now,
                )->Some_0 as int,
                now as int,
                staleness_window as int,
            ))) ==> final(source).calls_made() == old(source).calls_made() + 1,
{
    let time_zone: String = match store.lookup_location(location_id) {
        Option::None => {
            return Result::Err(FetchError::NotFound);
        },
        Option::Some(loc) => loc.time_zone.clone(),
    };
    let midnight: i64 = match local_midnight_unix(time_zone.as_str(), now) {
        Option::None => {
            return Result::Err(FetchError::TimeZoneResolutionError);
        },
        Option::Some(m) => m,
    };
    let cached = store.recent_forecasts(location_id, FORECAST_READ_LIMIT);
    let fresh = filter_fresh_forecasts(&cached, midnight, now, staleness_window);
    proof {
        lemma_fresh_forecast_elements(
            cached@,
            midnight as int,
            now as int,
            staleness_window as int,
            cached@.len() as int,
        );
    }
    if fresh.len() > 0 {
        proof {
            assert forall|k: int| 0 <= k < fresh@.len() implies {
                &&& store.forecast_rows().contains(#[trigger] fresh@[k])
                &&& fresh@[k].location_id == location_id
                &&& forecast_fresh(
                    fresh@[k],
                    midnight as int,
                    now as int,
                    staleness_window as int,
                )
            } by {
                assert(cached@.contains(fresh@[k]));
                let i = choose|i: int| 0 <= i < cached@.len() && cached@[i] == fresh@[k];
            }
            let t = store.forecast_rows();
            assert(t.contains(fresh@[0]));
            let j0 = choose|j: int| 0 <= j < t.len() && t[j] == fresh@[0];
            assert((#[trigger] t[j0]).location_id == location_id && forecast_fresh(
                t[j0],
                midnight as int,
                now as int,
                staleness_window as int,
            ));
        }
        return Result::Ok(fresh);
    }
    proof {
        let t = store.forecast_rows();
        if exists|j: int|
            0 <= j < t.len() && (#[trigger] t[j]).location_id == location_id && forecast_fresh(
                t[j],
                midnight as int,
                now as int,
                staleness_window as int,
            ) {
            let j = choose|j: int|
                0 <= j < t.len() && (#[trigger] t[j]).location_id == location_id
                    && forecast_fresh(t[j], midnight as int, now as int, staleness_window as int);
            assert(cached@.len() > 0);
            assert(t[j].period_start <= cached@[0].period_start);
            assert(forecast_fresh(
                cached@[0],
                midnight as int,
                now as int,
                staleness_window as int,
            ));
            lemma_fresh_forecast_head(
                cached@,
                midnight as int,
                now as int,
                staleness_window as int,
                cached@.len() as int,
            );
            assert(false);
        }
    }
    let reply = source.fetch();
    match reply {
        Result::Ok(p) => match forecast_records_from(location_id, now, &p) {
            Result::Ok(recs) => {
                let mut txn = Transaction::begin();
                let mut i: usize = 0;
                while i < recs.len()
                    invariant
                        0 <= i <= recs@.len(),
                        txn.staged_weather() == Seq::<WeatherRecord>::empty(),
                        txn.staged_forecasts() == recs@.subrange(0, i as int),
                    decreases recs@.len() - i,
                {
                    txn.stage_forecast(recs[i].clone());
                    proof {
                        assert(txn.staged_forecasts() =~= recs@.subrange(0, i as int + 1));
                    }
                    i = i + 1;
                }
                proof {
                    assert(txn.staged_forecasts() =~= recs@);
                }
                txn.commit(store);
                Result::Ok(recs)
            },
            Result::Err(e) => Result::Err(e),
        },
        Result::Err(e) => Result::Err(e),
    }
}

} // verus!
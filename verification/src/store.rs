//! The durable store, modelled executably: tables with composite-key
//! upsert-on-conflict semantics, the tracked locations, and transactions
//! that commit wholly or not at all.

use crate::records::{ForecastRecord, TrackedLocation, WeatherRecord};
use vstd::prelude::*;

verus! {

// ---------------------------------------------------------------------------
// Composite keys and upsert-on-conflict semantics, at the specification level
// ---------------------------------------------------------------------------

/// Two weather rows collide exactly when their composite key agrees.
pub open spec fn same_weather_key(a: WeatherRecord, b: WeatherRecord) -> bool {
    a.location_id == b.location_id && a.observed_at == b.observed_at
}

/// Two forecast rows collide exactly when their composite key agrees.
pub open spec fn same_forecast_key(a: ForecastRecord, b: ForecastRecord) -> bool {
    a.location_id == b.location_id && a.period_start == b.period_start
}

/// No two rows of the table share a composite key.
pub open spec fn weather_keys_unique(t: Seq<WeatherRecord>) -> bool {
    forall|i: int, j: int|
        0 <= i < j < t.len() ==> !same_weather_key(#[trigger] t[i], #[trigger] t[j])
}

/// No two rows of the table share a composite key.
pub open spec fn forecast_keys_unique(t: Seq<ForecastRecord>) -> bool {
    forall|i: int, j: int|
        0 <= i < j < t.len() ==> !same_forecast_key(#[trigger] t[i], #[trigger] t[j])
}

/// The table holds a row with `r`'s composite key.
pub open spec fn weather_has_key(t: Seq<WeatherRecord>, r: WeatherRecord) -> bool {
    exists|i: int| 0 <= i < t.len() && same_weather_key(#[trigger] t[i], r)
}

/// The table holds a row with `r`'s composite key.
pub open spec fn forecast_has_key(t: Seq<ForecastRecord>, r: ForecastRecord) -> bool {
    exists|i: int| 0 <= i < t.len() && same_forecast_key(#[trigger] t[i], r)
}

/// Insert `r`, or on composite-key conflict overwrite the colliding row's
/// non-key columns (the whole row, since the key agrees).
pub open spec fn upsert_weather_seq(
    t: Seq<WeatherRecord>,
    r: WeatherRecord,
) -> Seq<WeatherRecord> {
    if weather_has_key(t, r) {
        t.update(choose|i: int| 0 <= i < t.len() && same_weather_key(t[i], r), r)
    } else {
        t.push(r)
    }
}

/// Insert `r`, or on composite-key conflict overwrite the colliding row.
pub open spec fn upsert_forecast_seq(
    t: Seq<ForecastRecord>,
    r: ForecastRecord,
) -> Seq<ForecastRecord> {
    if forecast_has_key(t, r) {
        t.update(choose|i: int| 0 <= i < t.len() && same_forecast_key(t[i], r), r)
    } else {
        t.push(r)
    }
}

/// The table after upserting `rs[0]`, .., `rs[n-1]` in order.
pub open spec fn upsert_weather_prefix(
    t: Seq<WeatherRecord>,
    rs: Seq<WeatherRecord>,
    n: int,
) -> Seq<WeatherRecord>
    decreases n,
{
    if n <= 0 {
        t
    } else {
        upsert_weather_seq(upsert_weather_prefix(t, rs, n - 1), rs[n - 1])
    }
}

/// The table after upserting every row of `rs`, in order.
pub open spec fn upsert_weather_all(
    t: Seq<WeatherRecord>,
    rs: Seq<WeatherRecord>,
) -> Seq<WeatherRecord> {
    upsert_weather_prefix(t, rs, rs.len() as int)
}

/// The table after upserting `rs[0]`, .., `rs[n-1]` in order.
pub open spec fn upsert_forecast_prefix(
    t: Seq<ForecastRecord>,
    rs: Seq<ForecastRecord>,
    n: int,
) -> Seq<ForecastRecord>
    decreases n,
{
    if n <= 0 {
        t
    } else {
        upsert_forecast_seq(upsert_forecast_prefix(t, rs, n - 1), rs[n - 1])
    }
}

/// The table after upserting every row of `rs`, in order.
pub open spec fn upsert_forecast_all(
    t: Seq<ForecastRecord>,
    rs: Seq<ForecastRecord>,
) -> Seq<ForecastRecord> {
    upsert_forecast_prefix(t, rs, rs.len() as int)
}

/// An upsert keeps keys unique and leaves exactly one row carrying the
/// written record's key: the written record itself. Rows with other keys are
/// untouched.
pub proof fn lemma_upsert_weather_single_row(t: Seq<WeatherRecord>, r: WeatherRecord)
    requires
        weather_keys_unique(t),
    ensures
        weather_keys_unique(upsert_weather_seq(t, r)),
        exists|i: int|
            0 <= i < upsert_weather_seq(t, r).len() && #[trigger] upsert_weather_seq(t, r)[i]
                == r,
        forall|i: int|
            0 <= i < upsert_weather_seq(t, r).len() && same_weather_key(
                #[trigger] upsert_weather_seq(t, r)[i],
                r,
            ) ==> upsert_weather_seq(t, r)[i] == r,
{
    let u = upsert_weather_seq(t, r);
    if weather_has_key(t, r) {
        let k = choose|i: int| 0 <= i < t.len() && same_weather_key(t[i], r);
        assert(u[k] == r);
        assert forall|i: int, j: int| 0 <= i < j < u.len() implies !same_weather_key(
            #[trigger] u[i],
            #[trigger] u[j],
        ) by {
            assert(!same_weather_key(t[i], t[j]));
        }
        assert forall|i: int|
            0 <= i < u.len() && same_weather_key(#[trigger] u[i], r) implies u[i] == r by {
            if i != k {
                assert(u[i] == t[i]);
                assert(same_weather_key(t[i], t[k]));
            }
        }
    } else {
        assert(u[t.len() as int] == r);
        assert forall|i: int, j: int| 0 <= i < j < u.len() implies !same_weather_key(
            #[trigger] u[i],
            #[trigger] u[j],
        ) by {
            if j < t.len() {
                assert(!same_weather_key(t[i], t[j]));
            } else {
                assert(!same_weather_key(t[i], r));
            }
        }
    }
}

/// The forecast-table counterpart of `lemma_upsert_weather_single_row`.
pub proof fn lemma_upsert_forecast_single_row(t: Seq<ForecastRecord>, r: ForecastRecord)
    requires
        forecast_keys_unique(t),
    ensures
        forecast_keys_unique(upsert_forecast_seq(t, r)),
        exists|i: int|
            0 <= i < upsert_forecast_seq(t, r).len() && #[trigger] upsert_forecast_seq(t, r)[i]
                == r,
        forall|i: int|
            0 <= i < upsert_forecast_seq(t, r).len() && same_forecast_key(
                #[trigger] upsert_forecast_seq(t, r)[i],
                r,
            ) ==> upsert_forecast_seq(t, r)[i] == r,
{
    let u = upsert_forecast_seq(t, r);
    if forecast_has_key(t, r) {
        let k = choose|i: int| 0 <= i < t.len() && same_forecast_key(t[i], r);
        assert(u[k] == r);
        assert forall|i: int, j: int| 0 <= i < j < u.len() implies !same_forecast_key(
            #[trigger] u[i],
            #[trigger] u[j],
        ) by {
            assert(!same_forecast_key(t[i], t[j]));
        }
        assert forall|i: int|
            0 <= i < u.len() && same_forecast_key(#[trigger] u[i], r) implies u[i] == r by {
            if i != k {
                assert(u[i] == t[i]);
                assert(same_forecast_key(t[i], t[k]));
            }
        }
    } else {
        assert(u[t.len() as int] == r);
        assert forall|i: int, j: int| 0 <= i < j < u.len() implies !same_forecast_key(
            #[trigger] u[i],
            #[trigger] u[j],
        ) by {
            if j < t.len() {
                assert(!same_forecast_key(t[i], t[j]));
            } else {
                assert(!same_forecast_key(t[i], r));
            }
        }
    }
}

/// Upserting is idempotent on a key: writing `r1` and then `r2` with the same
/// composite key leaves the table exactly as writing `r2` alone would; the
/// second write's values win and no duplicate row appears.
pub proof fn lemma_upsert_weather_idempotent(
    t: Seq<WeatherRecord>,
    r1: WeatherRecord,
    r2: WeatherRecord,
)
    requires
        weather_keys_unique(t),
        same_weather_key(r1, r2),
    ensures
        upsert_weather_seq(upsert_weather_seq(t, r1), r2) == upsert_weather_seq(t, r2),
{
    let u1 = upsert_weather_seq(t, r1);
    lemma_upsert_weather_single_row(t, r1);
    if weather_has_key(t, r1) {
        let k = choose|i: int| 0 <= i < t.len() && same_weather_key(t[i], r1);
        assert(same_weather_key(u1[k], r2));
        assert(weather_has_key(u1, r2));
        let k2 = choose|i: int| 0 <= i < u1.len() && same_weather_key(u1[i], r2);
        if k2 != k {
            assert(same_weather_key(u1[k2], u1[k]));
            assert(false);
        }
        assert(same_weather_key(t[k], r2));
        assert(weather_has_key(t, r2));
        let k3 = choose|i: int| 0 <= i < t.len() && same_weather_key(t[i], r2);
        if k3 != k {
            assert(same_weather_key(t[k3], t[k]));
            assert(false);
        }
        assert(upsert_weather_seq(u1, r2) =~= upsert_weather_seq(t, r2));
    } else {
        let n = t.len() as int;
        assert(u1 == t.push(r1));
        assert(same_weather_key(u1[n], r2));
        assert(weather_has_key(u1, r2));
        let k2 = choose|i: int| 0 <= i < u1.len() && same_weather_key(u1[i], r2);
        if k2 != n {
            assert(same_weather_key(t[k2], r1));
            assert(false);
        }
        if weather_has_key(t, r2) {
            let k3 = choose|i: int| 0 <= i < t.len() && same_weather_key(t[i], r2);
            assert(same_weather_key(t[k3], r1));
            assert(false);
        }
        assert(upsert_weather_seq(u1, r2) =~= upsert_weather_seq(t, r2));
    }
}

/// The forecast-table counterpart of `lemma_upsert_weather_idempotent`.
pub proof fn lemma_upsert_forecast_idempotent(
    t: Seq<ForecastRecord>,
    r1: ForecastRecord,
    r2: ForecastRecord,
)
    requires
        forecast_keys_unique(t),
        same_forecast_key(r1, r2),
    ensures
        upsert_forecast_seq(upsert_forecast_seq(t, r1), r2) == upsert_forecast_seq(t, r2),
{
    let u1 = upsert_forecast_seq(t, r1);
    lemma_upsert_forecast_single_row(t, r1);
    if forecast_has_key(t, r1) {
        let k = choose|i: int| 0 <= i < t.len() && same_forecast_key(t[i], r1);
        assert(same_forecast_key(u1[k], r2));
        assert(forecast_has_key(u1, r2));
        let k2 = choose|i: int| 0 <= i < u1.len() && same_forecast_key(u1[i], r2);
        if k2 != k {
            assert(same_forecast_key(u1[k2], u1[k]));
            assert(false);
        }
        assert(same_forecast_key(t[k], r2));
        assert(forecast_has_key(t, r2));
        let k3 = choose|i: int| 0 <= i < t.len() && same_forecast_key(t[i], r2);
        if k3 != k {
            assert(same_forecast_key(t[k3], t[k]));
            assert(false);
        }
        assert(upsert_forecast_seq(u1, r2) =~= upsert_forecast_seq(t, r2));
    } else {
        let n = t.len() as int;
        assert(u1 == t.push(r1));
        assert(same_forecast_key(u1[n], r2));
        assert(forecast_has_key(u1, r2));
        let k2 = choose|i: int| 0 <= i < u1.len() && same_forecast_key(u1[i], r2);
        if k2 != n {
            assert(same_forecast_key(t[k2], r1));
            assert(false);
        }
        if forecast_has_key(t, r2) {
            let k3 = choose|i: int| 0 <= i < t.len() && same_forecast_key(t[i], r2);
            assert(same_forecast_key(t[k3], r1));
            assert(false);
        }
        assert(upsert_forecast_seq(u1, r2) =~= upsert_forecast_seq(t, r2));
    }
}

// ---------------------------------------------------------------------------
// Tracked locations, at the specification level
// ---------------------------------------------------------------------------

/// No two tracked locations share an identifier.
pub open spec fn location_ids_unique(t: Seq<TrackedLocation>) -> bool {
    forall|i: int, j: int|
        0 <= i < j < t.len() ==> (#[trigger] t[i]).location_id != (#[trigger] t[j]).location_id
}

/// Some tracked location carries this identifier.
pub open spec fn has_location(t: Seq<TrackedLocation>, location_id: int) -> bool {
    exists|i: int| 0 <= i < t.len() && (#[trigger] t[i]).location_id == location_id
}

/// The tracked location carrying this identifier (unique when ids are).
pub open spec fn location_of(t: Seq<TrackedLocation>, location_id: int) -> TrackedLocation {
    t[choose|i: int| 0 <= i < t.len() && (#[trigger] t[i]).location_id == location_id]
}

// ---------------------------------------------------------------------------
// The durable store, modelled executably
// ---------------------------------------------------------------------------

/// The durable store: one table of current-weather rows keyed by
/// `(location_id, observed_at)`, one of forecast rows keyed by
/// `(location_id, period_start)`, and the distinct tracked locations.
#[derive(Debug)]
pub struct Store {
    weather: Vec<WeatherRecord>,
    forecasts: Vec<ForecastRecord>,
    locations: Vec<TrackedLocation>,
}

impl Store {
    /// The weather table's rows, in storage order.
    pub closed spec fn weather_rows(&self) -> Seq<WeatherRecord> {
        self.weather@
    }

    /// The forecast table's rows, in storage order.
    pub closed spec fn forecast_rows(&self) -> Seq<ForecastRecord> {
        self.forecasts@
    }

    /// The tracked locations, in enumeration order.
    pub closed spec fn locations_view(&self) -> Seq<TrackedLocation> {
        self.locations@
    }

    /// The store's invariant: both composite keys and the location ids are
    /// unique.
    pub open spec fn wf(&self) -> bool {
        &&& weather_keys_unique(self.weather_rows())
        &&& forecast_keys_unique(self.forecast_rows())
        &&& location_ids_unique(self.locations_view())
    }

    /// An empty store.
    pub fn new() -> (s: Store)
        ensures
            s.wf(),
            s.weather_rows() == Seq::<WeatherRecord>::empty(),
            s.forecast_rows() == Seq::<ForecastRecord>::empty(),
            s.locations_view() == Seq::<TrackedLocation>::empty(),
    {
        Store { weather: Vec::new(), forecasts: Vec::new(), locations: Vec::new() }
    }

    /// Add one location to the tracked set.
    pub fn track_location(&mut self, loc: TrackedLocation)
        requires
            old(self).wf(),
            !has_location(old(self).locations_view(), loc.location_id as int),
        ensures
            final(self).wf(),
            final(self).locations_view() == old(self).locations_view().push(loc),
            final(self).weather_rows() == old(self).weather_rows(),
            final(self).forecast_rows() == old(self).forecast_rows(),
    {
        self.locations.push(loc);
    }

    /// The tracked location with this identifier, if any. Resolving an
    /// unknown identifier is the store's not-found answer.
    pub fn lookup_location(&self, location_id: i64) -> (r: Option<&TrackedLocation>)
        requires
            self.wf(),
        ensures
            match r {
                Option::None => !has_location(self.locations_view(), location_id as int),
                Option::Some(l) => has_location(self.locations_view(), location_id as int) && *l
                    == location_of(self.locations_view(), location_id as int),
            },
    {
        let mut i: usize = 0;
        while i < self.locations.len()
            invariant
                self.wf(),
                0 <= i <= self.locations.len(),
                forall|j: int| 0 <= j < i ==> (#[trigger] self.locations_view()[j]).location_id != location_id,
            decreases self.locations.len() - i,
        {
            if self.locations[i].location_id == location_id {
                proof {
                    let k = choose|k: int|
                        0 <= k < self.locations_view().len() && (#[trigger] self.locations_view()[k]).location_id
                            == location_id;
                    assert(k == i);
                }
                return Option::Some(&self.locations[i]);
            }
            i = i + 1;
        }
        Option::None
    }

    /// Enumerate the distinct tracked locations, in enumeration order.
    pub fn location_list(&self) -> (r: &Vec<TrackedLocation>)
        ensures
            r@ == self.locations_view(),
    {
        &self.locations
    }

    /// The whole weather table, for callers that want to observe it.
    pub fn weather_table(&self) -> (r: &Vec<WeatherRecord>)
        ensures
            r@ == self.weather_rows(),
    {
        &self.weather
    }

    /// The whole forecast table, for callers that want to observe it.
    pub fn forecast_table(&self) -> (r: &Vec<ForecastRecord>)
        ensures
            r@ == self.forecast_rows(),
    {
        &self.forecasts
    }


    /// The most recent weather rows for a location, newest first, at most
    /// `limit` of them. When the location has any row at all and `limit` is
    /// positive, the newest such row leads the result.
    pub fn recent_weather(&self, location_id: i64, limit: usize) -> (rows: Vec<WeatherRecord>)
        ensures
            rows@.len() <= limit,
            forall|k: int|
                0 <= k < rows@.len() ==> (#[trigger] rows@[k]).location_id == location_id
                    && self.weather_rows().contains(rows@[k]),
            forall|k1: int, k2: int|
                0 <= k1 < k2 < rows@.len() ==> (#[trigger] rows@[k1]).observed_at
                    >= (#[trigger] rows@[k2]).observed_at,
            (limit > 0 && exists|j: int|
                0 <= j < self.weather_rows().len() && (#[trigger] self.weather_rows()[j]).location_id
                    == location_id) ==> rows@.len() > 0 && (forall|j: int|
                0 <= j < self.weather_rows().len() && (#[trigger] self.weather_rows()[j]).location_id
                    == location_id ==> self.weather_rows()[j].observed_at
                    <= rows@[0].observed_at),
            limit > 0 ==> forall|j: int|
                0 <= j < self.weather_rows().len() && (#[trigger] self.weather_rows()[j]).location_id
                    == location_id ==> rows@.contains(self.weather_rows()[j]) || (rows@.len()
                    == limit && self.weather_rows()[j].observed_at <= rows@[limit
                    - 1].observed_at),
    {
        let ghost t = self.weather@;
        let mut all: Vec<WeatherRecord> = Vec::new();
        let mut i: usize = 0;
        while i < self.weather.len()
            invariant
                t == self.weather@,
                0 <= i <= t.len(),
                forall|k: int|
                    0 <= k < all@.len() ==> (#[trigger] all@[k]).location_id == location_id
                        && t.contains(all@[k]),
                forall|k1: int, k2: int|
                    0 <= k1 < k2 < all@.len() ==> (#[trigger] all@[k1]).observed_at
                        >= (#[trigger] all@[k2]).observed_at,
                forall|j: int|
                    0 <= j < i && (#[trigger] t[j]).location_id == location_id ==> all@.len() > 0
                        && t[j].observed_at <= all@[0].observed_at,
                forall|j: int|
                    0 <= j < i && (#[trigger] t[j]).location_id == location_id ==> all@.contains(
                        t[j],
                    ),
            decreases t.len() - i,
        {
            if self.weather[i].location_id == location_id {
                let row = self.weather[i].clone();
                let ghost before = all@;
                let mut pos: usize = 0;
                while pos < all.len() && all[pos].observed_at >= row.observed_at
                    invariant
                        before == all@,
                        0 <= pos <= all@.len(),
                        forall|q: int|
                            0 <= q < pos ==> (#[trigger] all@[q]).observed_at >= row.observed_at,
                    decreases all@.len() - pos,
                {
                    pos = pos + 1;
                }
                all.insert(pos, row);
                proof {
                    before.insert_ensures(pos as int, row);
                    assert(t.contains(row)) by {
                        assert(t[i as int] == row);
                    }
                    assert forall|k1: int, k2: int| 0 <= k1 < k2 < all@.len() implies (
                    #[trigger] all@[k1]).observed_at >= (#[trigger] all@[k2]).observed_at by {
                        if k1 == pos {
                            assert(before[k2 - 1].observed_at <= before[pos as int].observed_at);
                        }
                    }
                    assert forall|j: int|
                        0 <= j < i + 1 && (#[trigger] t[j]).location_id
                            == location_id implies all@.contains(t[j]) by {
                        if j == i {
                            assert(all@[pos as int] == t[j]);
                        } else {
                            let k = choose|k: int| 0 <= k < before.len() && before[k] == t[j];
                            if k < pos {
                                assert(all@[k] == t[j]);
                            } else {
                                assert(all@[k + 1] == t[j]);
                            }
                        }
                    }
                }
            }
            i = i + 1;
        }
        let ghost full = all@;
        if all.len() > limit {
            all.truncate(limit);
            proof {
                if limit > 0 {
                    assert forall|j: int|
                        0 <= j < t.len() && (#[trigger] t[j]).location_id
                            == location_id implies all@.contains(t[j]) || (all@.len() == limit
                            && t[j].observed_at <= all@[limit - 1].observed_at) by {
                        assert(full.contains(t[j]));
                        let k = choose|k: int| 0 <= k < full.len() && full[k] == t[j];
                        if k < limit {
                            assert(all@[k] == t[j]);
                            assert(all@.contains(t[j]));
                        } else {
                            assert(full[limit - 1].observed_at >= full[k].observed_at);
                            assert(all@[limit - 1] == full[limit - 1]);
                        }
                    }
                }
            }
        }
        all
    }


    /// The most recent forecast rows for a location, latest period first, at
    /// most `limit` of them. When the location has any row at all and `limit`
    /// is positive, the latest period leads the result.
    pub fn recent_forecasts(&self, location_id: i64, limit: usize) -> (rows: Vec<ForecastRecord>)
        ensures
            rows@.len() <= limit,
            forall|k: int|
                0 <= k < rows@.len() ==> (#[trigger] rows@[k]).location_id == location_id
                    && self.forecast_rows().contains(rows@[k]),
            forall|k1: int, k2: int|
                0 <= k1 < k2 < rows@.len() ==> (#[trigger] rows@[k1]).period_start
                    >= (#[trigger] rows@[k2]).period_start,
            (limit > 0 && exists|j: int|
                0 <= j < self.forecast_rows().len() && (
                #[trigger] self.forecast_rows()[j]).location_id == location_id) ==> rows@.len() > 0
                && (forall|j: int|
                0 <= j < self.forecast_rows().len() && (
                #[trigger] self.forecast_rows()[j]).location_id == location_id
                    ==> self.forecast_rows()[j].period_start <= rows@[0].period_start),
            limit > 0 ==> forall|j: int|
                0 <= j < self.forecast_rows().len() && (
                #[trigger] self.forecast_rows()[j]).location_id == location_id ==> rows@.contains(
                    self.forecast_rows()[j],
                ) || (rows@.len() == limit && self.forecast_rows()[j].period_start
                    <= rows@[limit - 1].period_start),
    {
        let ghost t = self.forecasts@;
        let mut all: Vec<ForecastRecord> = Vec::new();
        let mut i: usize = 0;
        while i < self.forecasts.len()
            invariant
                t == self.forecasts@,
                0 <= i <= t.len(),
                forall|k: int|
                    0 <= k < all@.len() ==> (#[trigger] all@[k]).location_id == location_id
                        && t.contains(all@[k]),
                forall|k1: int, k2: int|
                    0 <= k1 < k2 < all@.len() ==> (#[trigger] all@[k1]).period_start
                        >= (#[trigger] all@[k2]).period_start,
                forall|j: int|
                    0 <= j < i && (#[trigger] t[j]).location_id == location_id ==> all@.len() > 0
                        && t[j].period_start <= all@[0].period_start,
                forall|j: int|
                    0 <= j < i && (#[trigger] t[j]).location_id == location_id ==> all@.contains(
                        t[j],
                    ),
            decreases t.len() - i,
        {
            if self.forecasts[i].location_id == location_id {
                let row = self.forecasts[i].clone();
                let ghost before = all@;
                let mut pos: usize = 0;
                while pos < all.len() && all[pos].period_start >= row.period_start
                    invariant
                        before == all@,
                        0 <= pos <= all@.len(),
                        forall|q: int|
                            0 <= q < pos ==> (#[trigger] all@[q]).period_start >= row.period_start,
                    decreases all@.len() - pos,
                {
                    pos = pos + 1;
                }
                all.insert(pos, row);
                proof {
                    before.insert_ensures(pos as int, row);
                    assert(t.contains(row)) by {
                        assert(t[i as int] == row);
                    }
                    assert forall|k1: int, k2: int| 0 <= k1 < k2 < all@.len() implies (
                    #[trigger] all@[k1]).period_start >= (#[trigger] all@[k2]).period_start by {
                        if k1 == pos {
                            assert(before[k2 - 1].period_start <= before[pos as int].period_start);
                        }
                    }
                    assert forall|j: int|
                        0 <= j < i + 1 && (#[trigger] t[j]).location_id
                            == location_id implies all@.contains(t[j]) by {
                        if j == i {
                            assert(all@[pos as int] == t[j]);
                        } else {
                            let k = choose|k: int| 0 <= k < before.len() && before[k] == t[j];
                            if k < pos {
                                assert(all@[k] == t[j]);
                            } else {
                                assert(all@[k + 1] == t[j]);
                            }
                        }
                    }
                }
            }
            i = i + 1;
        }
        let ghost full = all@;
        if all.len() > limit {
            all.truncate(limit);
            proof {
                if limit > 0 {
                    assert forall|j: int|
                        0 <= j < t.len() && (#[trigger] t[j]).location_id
                            == location_id implies all@.contains(t[j]) || (all@.len() == limit
                            && t[j].period_start <= all@[limit - 1].period_start) by {
                        assert(full.contains(t[j]));
                        let k = choose|k: int| 0 <= k < full.len() && full[k] == t[j];
                        if k < limit {
                            assert(all@[k] == t[j]);
                            assert(all@.contains(t[j]));
                        } else {
                            assert(full[limit - 1].period_start >= full[k].period_start);
                            assert(all@[limit - 1] == full[limit - 1]);
                        }
                    }
                }
            }
        }
        all
    }

    /// Insert the record or, on composite-key conflict, overwrite the row
    /// that holds its key.
    pub fn upsert_weather(&mut self, r: &WeatherRecord)
        requires
            old(self).wf(),
        ensures
            final(self).wf(),
            final(self).weather_rows() == upsert_weather_seq(old(self).weather_rows(), *r),
            final(self).forecast_rows() == old(self).forecast_rows(),
            final(self).locations_view() == old(self).locations_view(),
    {
        let ghost t = self.weather@;
        proof {
            lemma_upsert_weather_single_row(t, *r);
        }
        match weather_key_position(&self.weather, r) {
            Option::Some(i) => {
                proof {
                    let k = choose|k: int| 0 <= k < t.len() && same_weather_key(t[k], *r);
                    if k != i {
                        assert(same_weather_key(t[k], t[i as int]));
                    }
                }
                self.weather.remove(i);
                self.weather.insert(i, r.clone());
                proof {
                    assert(self.weather@ =~= t.update(i as int, *r));
                }
            },
            Option::None => {
                self.weather.push(r.clone());
            },
        }
    }

    /// Insert the record or, on composite-key conflict, overwrite the row
    /// that holds its key.
    pub fn upsert_forecast(&mut self, r: &ForecastRecord)
        requires
            old(self).wf(),
        ensures
            final(self).wf(),
            final(self).forecast_rows() == upsert_forecast_seq(old(self).forecast_rows(), *r),
            final(self).weather_rows() == old(self).weather_rows(),
            final(self).locations_view() == old(self).locations_view(),
    {
        let ghost t = self.forecasts@;
        proof {
            lemma_upsert_forecast_single_row(t, *r);
        }
        match forecast_key_position(&self.forecasts, r) {
            Option::Some(i) => {
                proof {
                    let k = choose|k: int| 0 <= k < t.len() && same_forecast_key(t[k], *r);
                    if k != i {
                        assert(same_forecast_key(t[k], t[i as int]));
                    }
                }
                self.forecasts.remove(i);
                self.forecasts.insert(i, r.clone());
                proof {
                    assert(self.forecasts@ =~= t.update(i as int, *r));
                }
            },
            Option::None => {
                self.forecasts.push(r.clone());
            },
        }
    }
}

/// The index of the row sharing `r`'s composite key, if one exists.
fn weather_key_position(t: &Vec<WeatherRecord>, r: &WeatherRecord) -> (idx: Option<usize>)
    ensures
        match idx {
            Option::None => !weather_has_key(t@, *r),
            Option::Some(i) => 0 <= i < t@.len() && same_weather_key(t@[i as int], *r),
        },
{
    let mut i: usize = 0;
    while i < t.len()
        invariant
            0 <= i <= t@.len(),
            forall|j: int| 0 <= j < i ==> !same_weather_key(#[trigger] t@[j], *r),
        decreases t@.len() - i,
    {
        if t[i].location_id == r.location_id && t[i].observed_at == r.observed_at {
            return Option::Some(i);
        }
        i = i + 1;
    }
    Option::None
}

/// The index of the row sharing `r`'s composite key, if one exists.
fn forecast_key_position(t: &Vec<ForecastRecord>, r: &ForecastRecord) -> (idx: Option<usize>)
    ensures
        match idx {
            Option::None => !forecast_has_key(t@, *r),
            Option::Some(i) => 0 <= i < t@.len() && same_forecast_key(t@[i as int], *r),
        },
{
    let mut i: usize = 0;
    while i < t.len()
        invariant
            0 <= i <= t@.len(),
            forall|j: int| 0 <= j < i ==> !same_forecast_key(#[trigger] t@[j], *r),
        decreases t@.len() - i,
    {
        if t[i].location_id == r.location_id && t[i].period_start == r.period_start {
            return Option::Some(i);
        }
        i = i + 1;
    }
    Option::None
}

/// One atomic unit of work against the store: upserts staged by a refresh
/// cycle, applied all together at commit or not at all. Dropping the
/// transaction without committing is the rollback.
#[derive(Debug)]
pub struct Transaction {
    weather: Vec<WeatherRecord>,
    forecasts: Vec<ForecastRecord>,
}

impl Transaction {
    /// The staged weather upserts, in staging order.
    pub closed spec fn staged_weather(&self) -> Seq<WeatherRecord> {
        self.weather@
    }

    /// The staged forecast upserts, in staging order.
    pub closed spec fn staged_forecasts(&self) -> Seq<ForecastRecord> {
        self.forecasts@
    }

    /// Open a transaction with nothing staged.
    pub fn begin() -> (t: Transaction)
        ensures
            t.staged_weather() == Seq::<WeatherRecord>::empty(),
            t.staged_forecasts() == Seq::<ForecastRecord>::empty(),
    {
        Transaction { weather: Vec::new(), forecasts: Vec::new() }
    }

    /// Stage one weather upsert.
    pub fn stage_weather(&mut self, r: WeatherRecord)
        ensures
            final(self).staged_weather() == old(self).staged_weather().push(r),
            final(self).staged_forecasts() == old(self).staged_forecasts(),
    {
        self.weather.push(r);
    }

    /// Stage one forecast upsert.
    pub fn stage_forecast(&mut self, r: ForecastRecord)
        ensures
            final(self).staged_forecasts() == old(self).staged_forecasts().push(r),
            final(self).staged_weather() == old(self).staged_weather(),
    {
        self.forecasts.push(r);
    }

    /// Apply every staged upsert to the store, in staging order. This is the
    /// only way staged work reaches the store: a cycle that fails never calls
    /// it, and the store then stays exactly as it was.
    pub fn commit(self, store: &mut Store)
        requires
            old(store).wf(),
        ensures
            final(store).wf(),
            final(store).weather_rows() == upsert_weather_all(
                old(store).weather_rows(),
                self.staged_weather(),
            ),
            final(store).forecast_rows() == upsert_forecast_all(
                old(store).forecast_rows(),
                self.staged_forecasts(),
            ),
            final(store).locations_view() == old(store).locations_view(),
    {
        let ghost w0 = store.weather_rows();
        let ghost f0 = store.forecast_rows();
        let mut i: usize = 0;
        while i < self.weather.len()
            invariant
                store.wf(),
                0 <= i <= self.weather@.len(),
                store.weather_rows() == upsert_weather_prefix(w0, self.weather@, i as int),
                store.forecast_rows() == f0,
                store.locations_view() == old(store).locations_view(),
            decreases self.weather@.len() - i,
        {
            store.upsert_weather(&self.weather[i]);
            i = i + 1;
        }
        let mut j: usize = 0;
        while j < self.forecasts.len()
            invariant
                store.wf(),
                0 <= j <= self.forecasts@.len(),
                store.weather_rows() == upsert_weather_all(w0, self.weather@),
                store.forecast_rows() == upsert_forecast_prefix(f0, self.forecasts@, j as int),
                store.locations_view() == old(store).locations_view(),
            decreases self.forecasts@.len() - j,
        {
            store.upsert_forecast(&self.forecasts[j]);
            j = j + 1;
        }
    }
}

} // verus!
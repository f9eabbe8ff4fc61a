//! The error vocabulary: what a single fetch or read can fail with, what a
//! bulk refresh cycle can fail with, and the mapping from the provider's
//! failing HTTP statuses.

use vstd::prelude::*;

verus! {

/// Why an on-demand read or a single fetch failed.
#[derive(Debug, Clone, Copy, PartialEq, Eq, Structural)]
pub enum FetchError {
    /// The provider could not be reached, or the transport timed out.
    TransportError,
    /// The provider refused the call because the request quota is spent.
    QuotaExceeded,
    /// The provider answered with a payload the library cannot use.
    MalformedResponse,
    /// The durable store failed a query or a transaction.
    StoreError,
    /// The requested location is not tracked.
    NotFound,
    /// The location's stored time-zone identifier is unknown.
    TimeZoneResolutionError,
}

/// The status code with which the provider refuses callers that have spent
/// their request quota.
pub const TOO_MANY_REQUESTS_STATUS: u16 = 429;

/// The error kind for a provider answer with a non-success HTTP status: the
/// rate-limit status becomes the distinct quota error, so callers can back
/// off deliberately; every other failing status is a plain request failure.
pub fn fetch_error_from_status(status: u16) -> (r: FetchError)
    ensures
        status == TOO_MANY_REQUESTS_STATUS ==> r == FetchError::QuotaExceeded,
        status != TOO_MANY_REQUESTS_STATUS ==> r == FetchError::TransportError,
{
    if status == TOO_MANY_REQUESTS_STATUS {
        FetchError::QuotaExceeded
    } else {
        FetchError::TransportError
    }
}

/// Why a bulk refresh cycle was abandoned. The cycle is atomic: on any of
/// these, nothing from the cycle reaches the durable store.
#[derive(Debug, Clone, Copy, PartialEq, Eq, Structural)]
pub enum RefreshError {
    /// The tracked locations could not be enumerated.
    EnumerationFailed,
    /// The fetch for one location failed; the cycle stops at the first one.
    FetchFailed { location_id: i64 },
    /// An upsert inside the cycle's transaction failed.
    UpsertFailed { location_id: i64 },
    /// The cycle's transaction could not be committed.
    CommitFailed,
}

} // verus!

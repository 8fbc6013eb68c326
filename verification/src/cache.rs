//! Cache freshness policy: a cached catalog is served only while it is
//! younger than seven days; a missing or seven-day-old entry is expired and
//! forces a remote fetch.

use vstd::prelude::*;

verus! {

/// Length of the cache expiry window in seconds: seven days.
pub const SECS_IN_WEEK: u64 = 60 * 60 * 24 * 7;

/// A cache entry is expired when it is absent (`None`) or when its age has
/// reached the window. The boundary is inclusive: exactly seven days counts
/// as expired.
pub open spec fn spec_expired(age_secs: Option<u64>) -> bool {
    match age_secs {
        Some(age) => age >= SECS_IN_WEEK,
        None => true,
    }
}

/// Where the catalog for this run is taken from.
pub enum FetchSource {
    /// The local cache file is fresh: read it, no network traffic.
    Cache,
    /// The cache is expired or missing: fetch from the remote endpoint.
    Remote,
}

/// Decides whether the cache entry is expired. `age_secs` is the time since
/// the cache file's creation, or `None` where the file does not exist or its
/// metadata could not be read; both are treated as expired, not as an error.
pub fn cache_expired(age_secs: Option<u64>) -> (expired: bool)
    ensures
        expired == spec_expired(age_secs),
{
    match age_secs {
        Some(age) => age >= SECS_IN_WEEK,
        None => true,
    }
}

/// The source the expiry policy assigns to a given cache age.
pub open spec fn spec_fetch_plan(age_secs: Option<u64>) -> FetchSource {
    if spec_expired(age_secs) {
        FetchSource::Remote
    } else {
        FetchSource::Cache
    }
}

/// Plans the run's catalog source from the cache file's age: the cache store
/// exactly when the entry is fresh, the remote endpoint otherwise.
pub fn fetch_plan(age_secs: Option<u64>) -> (plan: FetchSource)
    ensures
        plan == spec_fetch_plan(age_secs),
        plan is Cache <==> !spec_expired(age_secs),
{
    if cache_expired(age_secs) {
        FetchSource::Remote
    } else {
        FetchSource::Cache
    }
}

/// A cache entry younger than seven days is never refetched: the plan for a
/// fresh entry is to read the cache store, so no network call is made.
pub proof fn lemma_fresh_cache_served_locally(age_secs: u64)
    requires
        age_secs < SECS_IN_WEEK,
    ensures
        !spec_expired(Some(age_secs)),
        spec_fetch_plan(Some(age_secs)) is Cache,
{
}

} // verus!

//! The caching rules of the BTC price lookup: when a cached price may be
//! used, and what a failed fetch falls back to. The price itself is carried
//! as an opaque value.

use vstd::prelude::*;
use crate::errors::LightningError;

verus! {

/// How long a fetched price stays fresh, in nanoseconds (two minutes).
pub const CACHE_DURATION_NANOS: u128 = 120_000_000_000;

/// A cached price may be used while the time elapsed since it was fetched is
/// known (the clock did not go backwards) and under two minutes.
pub fn cache_is_fresh(elapsed_nanos: Option<u128>) -> (r: bool)
    ensures
        r <==> (elapsed_nanos matches Some(n) && n < CACHE_DURATION_NANOS),
{
    match elapsed_nanos {
        Some(n) => n < CACHE_DURATION_NANOS,
        None => false,
    }
}

/// The price a lookup answers with once the cache was not fresh: the fetched
/// price; when the fetch failed, the stale cached price if there is one, and
/// otherwise the fetch's error.
pub fn price_after_fetch<T>(fetched: Result<T, LightningError>, stale: Option<T>) -> (r: Result<T, LightningError>)
    ensures
        match fetched {
            Ok(p) => r == Ok::<T, LightningError>(p),
            Err(e) => match stale {
                Some(p) => r == Ok::<T, LightningError>(p),
                None => r == Err::<T, LightningError>(e),
            },
        },
{
    match fetched {
        Ok(p) => Ok(p),
        Err(e) => match stale {
            Some(p) => Ok(p),
            None => Err(e),
        },
    }
}

} // verus!

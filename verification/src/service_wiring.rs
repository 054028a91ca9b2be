//! Decisions the health service makes when it wires itself up: the pause
//! between discovery rounds, the rate limiter of BMC requests, and the
//! names of its endpoint gauges.

use vstd::prelude::*;
use crate::text::{extend_str, string_of};

verus! {

/// The pause between discovery rounds when the configuration sets none:
/// five minutes, in nanoseconds.
pub const DEFAULT_DISCOVERY_PAUSE_NANOS: u128 = 300_000_000_000;

/// The pause between discovery rounds, in nanoseconds: the sensor
/// collectors' rediscovery interval when they are enabled, else five
/// minutes.
pub fn discovery_pause_nanos(rediscover_interval_nanos: Option<u128>) -> (r: u128)
    ensures
        r == match rediscover_interval_nanos {
            Some(n) => n,
            None => 300_000_000_000u128,
        },
{
    match rediscover_interval_nanos {
        Some(n) => n,
        None => DEFAULT_DISCOVERY_PAUSE_NANOS,
    }
}

/// The rate-limit settings of BMC requests.
#[derive(Clone, Copy, Debug, PartialEq, Eq, Structural)]
pub struct RateLimitSettings {
    pub bucket_burst: u64,
    pub bucket_replenish_nanos: u128,
    pub max_jitter_nanos: u128,
}

/// The rate limiter BMC requests go through.
#[derive(Clone, Copy, Debug, PartialEq, Eq, Structural)]
pub enum LimiterChoice {
    /// A token bucket with this burst, replenish interval and maximum jitter.
    Bucket { burst: u64, replenish_nanos: u128, max_jitter_nanos: u128 },
    /// No limit.
    Noop,
}

/// The limiter for the configured rate limit: a token bucket with the
/// configured burst, replenish interval and jitter when rate limiting is
/// enabled, no limit otherwise.
pub fn limiter_choice(rate_limit: Option<RateLimitSettings>) -> (r: LimiterChoice)
    ensures
        rate_limit matches Some(c) ==> r == (LimiterChoice::Bucket {
            burst: c.bucket_burst,
            replenish_nanos: c.bucket_replenish_nanos,
            max_jitter_nanos: c.max_jitter_nanos,
        }),
        rate_limit is None ==> r == LimiterChoice::Noop,
{
    match rate_limit {
        Some(c) => LimiterChoice::Bucket {
            burst: c.bucket_burst,
            replenish_nanos: c.bucket_replenish_nanos,
            max_jitter_nanos: c.max_jitter_nanos,
        },
        None => LimiterChoice::Noop,
    }
}

/// The name of the gauge of active endpoints.
pub fn active_endpoints_gauge_name(prefix: &str) -> (r: String)
    ensures
        r@ == prefix@ + "_active_endpoints"@,
{
    let mut v: Vec<char> = Vec::new();
    extend_str(&mut v, prefix);
    extend_str(&mut v, "_active_endpoints");
    string_of(&v)
}

/// The name of the gauge of endpoints at each discovery stage.
pub fn discovery_endpoints_gauge_name(prefix: &str) -> (r: String)
    ensures
        r@ == prefix@ + "_discovery_endpoints"@,
{
    let mut v: Vec<char> = Vec::new();
    extend_str(&mut v, prefix);
    extend_str(&mut v, "_discovery_endpoints");
    string_of(&v)
}

} // verus!

use vstd::prelude::*;

use leaky_bucket::RateLimiter;

verus! {

/// The token bucket of `leaky_bucket`, held by a `Bucket`.
#[verifier::external_type_specification]
#[verifier::external_body]
pub struct ExRateLimiter(leaky_bucket::RateLimiter);

/// How many glasses of milk a full bucket holds.
pub const MILK_CAPACITY: usize = 5;

/// How often, in milliseconds, one glass of milk flows back into the bucket.
pub const REFILL_INTERVAL_MS: u64 = 1000;

/// Relies on `RateLimiter::builder` with `max`, `initial` and `interval`, then `build`: a limiter
/// that holds at most `max` tokens, starts with `initial` of them, and adds its refill amount
/// (one token by default) every `interval_ms` milliseconds. `interval` panics on a zero
/// interval, and `build` adds the interval to the current instant, so it is kept to a day.
#[verifier::external_body]
fn new_rate_limiter(max: usize, initial: usize, interval_ms: u64) -> RateLimiter
    requires
        0 < interval_ms <= 86_400_000,
{
    RateLimiter::builder()
        .max(max)
        .initial(initial)
        .interval(std::time::Duration::from_millis(interval_ms))
        .build()
}

/// Relies on `RateLimiter::try_acquire`: whether the permits could be taken now, which depends
/// on the time; zero permits are always granted.
#[verifier::external_body]
fn try_acquire(limiter: &RateLimiter, permits: usize) -> (r: bool)
    ensures
        permits == 0 ==> r,
{
    limiter.try_acquire(permits)
}

fn build_rate_limiter() -> RateLimiter {
    new_rate_limiter(MILK_CAPACITY, MILK_CAPACITY, REFILL_INTERVAL_MS)
}

/// A bucket of milk that refills over time, one glass per interval, up to its capacity.
pub struct Bucket {
    rate_limiter: RateLimiter,
}

impl Bucket {
    /// A full bucket.
    pub fn new() -> Bucket {
        Bucket { rate_limiter: build_rate_limiter() }
    }

    /// Takes one glass of milk, where the bucket has one now.
    pub fn get_milk(&self) -> bool {
        try_acquire(&self.rate_limiter, 1)
    }

    /// Fills the bucket up again.
    pub fn refill(&mut self) {
        self.rate_limiter = build_rate_limiter();
    }
}

} // verus!

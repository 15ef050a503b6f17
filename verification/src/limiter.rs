//! Rate limiting of subscription requests: a token bucket per connection.
//! The bucket itself waits on a clock and is the caller's; which quota it
//! gets, if any, is decided here.
use crate::engine::{limiter_enabled, LIMITER_JITTER_MS};
use vstd::prelude::*;

verus! {

/// `governor::Quota`, carried as a value that is not looked into.
#[verifier::external_type_specification]
#[verifier::external_body]
pub struct ExQuota(governor::Quota);

/// `governor::Jitter`, carried as a value that is not looked into.
#[verifier::external_type_specification]
#[verifier::external_body]
pub struct ExJitter(governor::Jitter);

/// The quota of `n` cells in every minute, with bursts of up to `n` cells.
pub uninterp spec fn per_minute_quota(n: u32) -> governor::Quota;

/// The jitter that delays by a random time of at most `max_ms`
/// milliseconds.
pub uninterp spec fn jitter_of(max_ms: u64) -> governor::Jitter;

/// `governor::Quota::per_minute`, which builds a quota from a number of
/// cells that is not zero. The contract names the quota `per_minute_quota`
/// of the number and says nothing more of it; zero, for which no quota
/// exists, is left out.
#[verifier::external_body]
fn quota_per_minute(n: u32) -> (q: governor::Quota)
    requires
        n > 0,
    ensures
        q == per_minute_quota(n),
{
    governor::Quota::per_minute(core::num::NonZeroU32::new(n).unwrap())
}

/// The longest time, in milliseconds, that a jitter can span: what fits
/// into 64 bits as nanoseconds.
pub const MAX_JITTER_MS: u64 = 18_446_744_073_709;

/// `governor::Jitter::up_to`, on a time given in milliseconds. The
/// contract names the jitter `jitter_of` the time and says nothing more of
/// it; a time that does not fit into 64 bits as nanoseconds, on which the
/// crate gives up, is left out.
#[verifier::external_body]
fn jitter_up_to(max_ms: u64) -> (j: governor::Jitter)
    requires
        max_ms <= MAX_JITTER_MS,
    ensures
        j == jitter_of(max_ms),
{
    governor::Jitter::up_to(core::time::Duration::from_millis(max_ms))
}

/// The quota for a connection's subscription requests: that many a minute
/// where a rate is set; none where no rate is set or the rate is zero,
/// which switches limiting off.
pub fn subscription_quota(per_min: Option<u32>) -> (q: Option<governor::Quota>)
    ensures
        q == (match per_min {
            Some(n) => if n > 0 {
                Some(per_minute_quota(n))
            } else {
                None
            },
            None => None,
        }),
        q.is_some() == limiter_enabled(per_min),
{
    match per_min {
        Some(n) => if n > 0 {
            Some(quota_per_minute(n))
        } else {
            None
        },
        None => None,
    }
}

/// The jitter that desynchronizes bursts of admitted requests: up to a
/// tenth of a second.
pub fn subscription_jitter() -> (j: governor::Jitter)
    ensures
        j == jitter_of(LIMITER_JITTER_MS),
{
    jitter_up_to(LIMITER_JITTER_MS)
}

} // verus!

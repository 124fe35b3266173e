//! Per-client admission control: a token bucket for each client identity.

use vstd::prelude::*;

verus! {

/// The keyed token buckets, kept by `governor`'s keyed rate limiter; each
/// identity gets its bucket on first sight and keeps it.
#[verifier::external_body]
pub struct ClientLimiter {
    inner: governor::DefaultKeyedRateLimiter<String>,
}

impl ClientLimiter {
    /// Relies on `governor::Quota::per_minute` and `governor::RateLimiter::keyed`:
    /// buckets of `quota` tokens, refilled over each minute.
    #[verifier::external_body]
    pub(crate) fn per_minute(quota: u32) -> (r: ClientLimiter)
        requires
            quota > 0,
    {
        let burst = std::num::NonZeroU32::new(quota).unwrap();
        ClientLimiter { inner: governor::RateLimiter::keyed(governor::Quota::per_minute(burst)) }
    }

    /// Relies on `governor::RateLimiter::check_key`: takes a token from the
    /// bucket of `identity` if one is there. Whether one is depends on the
    /// clock, so nothing is promised of the answer.
    #[verifier::external_body]
    pub(crate) fn check(&self, identity: &String) -> (r: bool) {
        self.inner.check_key(identity).is_ok()
    }
}

/// The identity a request is limited under: the peer address, or `unknown`.
pub open spec fn identity_of(peer: Option<Seq<char>>) -> Seq<char> {
    match peer {
        Some(p) => p,
        None => "unknown"@,
    }
}

/// The identity a request is limited under.
pub fn client_identity(peer: Option<String>) -> (r: String)
    ensures
        r@ == identity_of(match peer {
            Some(p) => Some(p@),
            None => None,
        }),
{
    match peer {
        Some(p) => p,
        None => String::from_str("unknown"),
    }
}

} // verus!

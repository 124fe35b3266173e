//! The request pipeline's decisions: admission, the cache fast path, the
//! upstream requests to make, and what their answers become.

use vstd::prelude::*;
use crate::cache::{cache_key, fresh_payload, key_of, ResponseCache};
use crate::limiter::ClientLimiter;
use crate::models::{Failure, FailureKind, SheetsApiResponse};
use crate::resolver::upstream_failure;
use crate::resolver::status_or_default;
use crate::text::{percent_encoded, url_encode};
use crate::transform::{process_sheet_data, transform, Record};

verus! {

/// The upstream base address.
pub const UPSTREAM_BASE: &'static str = "https://sheets.googleapis.com/v4/spreadsheets/";

/// The window read when no range is asked for.
pub const DEFAULT_WINDOW: &'static str = "A1:ZZ";

/// The address of a spreadsheet's metadata.
pub fn metadata_url(id: &str, api_key: &str) -> (r: String)
    ensures
        r@ == UPSTREAM_BASE@ + id@ + "?key="@ + api_key@,
{
    let mut u = String::from_str(UPSTREAM_BASE);
    u.append(id);
    u.append("?key=");
    u.append(api_key);
    u
}

/// The address of a range of a spreadsheet's values.
pub fn values_url(id: &str, range: &str, api_key: &str) -> (r: String)
    ensures
        r@ == UPSTREAM_BASE@ + id@ + "/values/"@ + range@ + "?key="@ + api_key@,
{
    let mut u = String::from_str(UPSTREAM_BASE);
    u.append(id);
    u.append("/values/");
    u.append(range);
    u.append("?key=");
    u.append(api_key);
    u
}

/// The upstream range for a resolved title: the escaped title, `!`, then the
/// asked range as given, or the default window.
pub open spec fn range_of(title: Seq<char>, range: Option<Seq<char>>) -> Seq<char> {
    percent_encoded(title) + "!"@ + match range {
        Some(r) => r,
        None => DEFAULT_WINDOW@,
    }
}

/// Builds the upstream range expression.
pub fn values_range(title: &str, range: &Option<String>) -> (r: String)
    ensures
        r@ == range_of(title@, match range {
            Some(g) => Some(g@),
            None => None,
        }),
{
    let mut s = url_encode(title);
    s.append("!");
    match range {
        Some(g) => s.append(g.as_str()),
        None => s.append(DEFAULT_WINDOW),
    }
    s
}

/// The records of an upstream values response, or its upstream error; a
/// response with no grid counts as an empty grid.
pub fn values_rows(resp: &SheetsApiResponse) -> (r: Result<Vec<Record>, Failure>)
    ensures
        match r {
            Ok(rows) => {
                &&& resp.error is None
                &&& forall|i: int| 0 <= i < rows@.len() ==> #[trigger] rows@[i].wf()
                &&& rows@.map_values(|x: Record| x@) == match resp.values {
                    Some(g) => transform(g.deep_view()),
                    None => Seq::empty(),
                }
            },
            Err(f) => {
                &&& resp.error is Some
                &&& f.kind == FailureKind::UpstreamRejected(status_or_default(resp.error->0.status))
                &&& f.message@ == resp.error->0.message@
            },
        },
{
    match &resp.error {
        Some(e) => Err(upstream_failure(e)),
        None => match &resp.values {
            Some(g) => Ok(process_sheet_data(g.as_slice())),
            None => {
                let rows: Vec<Record> = Vec::new();
                assert(rows@.map_values(|x: Record| x@) =~= Seq::empty());
                Ok(rows)
            },
        },
    }
}

/// The outcome of admission and the cache fast path.
pub enum Gate {
    /// The client is over its quota.
    Denied(Failure),
    /// A fresh payload is cached for the request.
    Hit(String),
    /// Nothing fresh is cached: the request goes upstream, and its payload is
    /// to be stored under this key.
    Miss(String),
}

/// The state every request shares: the cache, the limiter and the settings.
pub struct AppState {
    pub cache: ResponseCache,
    pub rate_limiter: ClientLimiter,
    pub google_api_key: String,
    pub cache_ttl_ms: u64,
}

impl AppState {
    /// The cache is well formed.
    pub closed spec fn wf(&self) -> bool {
        self.cache.wf()
    }

    /// What the cache holds: payload and creation time by key.
    pub closed spec fn cached(&self) -> Map<Seq<char>, (Seq<char>, u64)> {
        self.cache@
    }

    /// Fresh state with an empty cache, admitting `rate_limit_per_minute`
    /// requests per client per minute.
    pub fn new(google_api_key: String, cache_ttl_ms: u64, rate_limit_per_minute: u32) -> (r: AppState)
        requires
            rate_limit_per_minute > 0,
        ensures
            r.wf(),
            r.cached() == Map::<Seq<char>, (Seq<char>, u64)>::empty(),
            r.google_api_key == google_api_key,
            r.cache_ttl_ms == cache_ttl_ms,
    {
        AppState {
            cache: ResponseCache::new(),
            rate_limiter: ClientLimiter::per_minute(rate_limit_per_minute),
            google_api_key,
            cache_ttl_ms,
        }
    }

    /// Takes one admission for `identity`, if its bucket has a token.
    pub fn check_client(&self, identity: &String) -> (r: bool) {
        self.rate_limiter.check(identity)
    }

    /// Given whether the client was admitted, decides between refusing,
    /// serving from the cache and going upstream.
    pub fn gate(&self, admitted: bool, id: &str, reference: &str, now: u64) -> (r: Gate)
        requires
            self.wf(),
        ensures
            match r {
                Gate::Denied(f) => !admitted && f.kind == FailureKind::RateLimited,
                Gate::Hit(p) => admitted && fresh_payload(self.cached(), key_of(id@, reference@), now, self.cache_ttl_ms)
                    == Some(p@),
                Gate::Miss(k) => admitted && k@ == key_of(id@, reference@) && fresh_payload(
                    self.cached(),
                    key_of(id@, reference@),
                    now,
                    self.cache_ttl_ms,
                ) is None,
            },
    {
        if !admitted {
            return Gate::Denied(
                Failure {
                    kind: FailureKind::RateLimited,
                    message: String::from_str("Rate limit exceeded. Try again later."),
                },
            );
        }
        let key = cache_key(id, reference);
        match self.cache.lookup_fresh(&key, now, self.cache_ttl_ms) {
            Some(p) => Gate::Hit(p),
            None => Gate::Miss(key),
        }
    }

    /// Admission, then the cache fast path, for a request from `identity`.
    pub fn begin_request(&self, identity: &String, id: &str, reference: &str, now: u64) -> (r: Gate)
        requires
            self.wf(),
        ensures
            match r {
                Gate::Denied(f) => f.kind == FailureKind::RateLimited,
                Gate::Hit(p) => fresh_payload(self.cached(), key_of(id@, reference@), now, self.cache_ttl_ms)
                    == Some(p@),
                Gate::Miss(k) => k@ == key_of(id@, reference@) && fresh_payload(
                    self.cached(),
                    key_of(id@, reference@),
                    now,
                    self.cache_ttl_ms,
                ) is None,
            },
    {
        let admitted = self.check_client(identity);
        self.gate(admitted, id, reference, now)
    }

    /// Stores a computed payload under `key`, made at `now`.
    pub fn store(&mut self, key: String, payload: String, now: u64)
        requires
            old(self).wf(),
        ensures
            final(self).wf(),
            final(self).cached() == old(self).cached().insert(key@, (payload@, now)),
            final(self).google_api_key == old(self).google_api_key,
            final(self).cache_ttl_ms == old(self).cache_ttl_ms,
    {
        self.cache.put(key, payload, now);
    }
}

} // verus!

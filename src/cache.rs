//! The response cache: payloads keyed by request, judged fresh by age.

use vstd::prelude::*;
use crate::assoc::{find_label, labels_distinct, lemma_pairs_map_domain, lemma_pairs_map_update, lemma_value_at, pairs_map};
use crate::models::CacheEntry;

verus! {

/// How long ago `created` was at `now`; a clock that reads earlier than the
/// entry counts as no time at all.
pub open spec fn age(created: u64, now: u64) -> int {
    if now >= created {
        now - created
    } else {
        0
    }
}

/// The payload stored under `key` that is younger than `ttl` at `now`.
pub open spec fn fresh_payload(
    m: Map<Seq<char>, (Seq<char>, u64)>,
    key: Seq<char>,
    now: u64,
    ttl: u64,
) -> Option<Seq<char>> {
    if m.contains_key(key) && age(m[key].1, now) < ttl {
        Some(m[key].0)
    } else {
        None
    }
}

/// The cache key for a spreadsheet and a raw sheet reference.
pub open spec fn key_of(id: Seq<char>, reference: Seq<char>) -> Seq<char> {
    id + "/"@ + reference
}

/// Builds the cache key for a spreadsheet and a raw, unresolved reference.
pub fn cache_key(id: &str, reference: &str) -> (r: String)
    ensures
        r@ == key_of(id@, reference@),
{
    let mut k = String::from_str(id);
    k.append("/");
    k.append(reference);
    k
}

/// Stored payloads, one per key.
pub struct ResponseCache {
    entries: Vec<(String, CacheEntry)>,
}

/// The stored pairs as key, payload and creation time.
pub open spec fn entry_views(s: Seq<(String, CacheEntry)>) -> Seq<(Seq<char>, (Seq<char>, u64))> {
    s.map_values(|p: (String, CacheEntry)| (p.0@, (p.1.data@, p.1.timestamp)))
}

impl View for ResponseCache {
    type V = Map<Seq<char>, (Seq<char>, u64)>;

    closed spec fn view(&self) -> Map<Seq<char>, (Seq<char>, u64)> {
        pairs_map(entry_views(self.entries@))
    }
}

impl ResponseCache {
    /// Keys are distinct among the stored entries.
    pub closed spec fn wf(&self) -> bool {
        labels_distinct(self.entries@)
    }

    /// An empty cache.
    pub fn new() -> (r: ResponseCache)
        ensures
            r.wf(),
            r@ == Map::<Seq<char>, (Seq<char>, u64)>::empty(),
    {
        ResponseCache { entries: Vec::new() }
    }

    /// The entry under `key`, whatever its age.
    pub fn get(&self, key: &String) -> (r: Option<CacheEntry>)
        requires
            self.wf(),
        ensures
            match r {
                Some(e) => self@.contains_key(key@) && self@[key@] == (e.data@, e.timestamp),
                None => !self@.contains_key(key@),
            },
    {
        let ghost v = entry_views(self.entries@);
        proof {
            lemma_pairs_map_domain(v, key@);
        }
        match find_label(&self.entries, key) {
            Some(i) => {
                proof {
                    assert forall|a: int, b: int|
                        0 <= a < v.len() && 0 <= b < v.len() && a != b implies #[trigger] v[a].0
                        != #[trigger] v[b].0 by {
                        assert(self.entries@[a].0@ != self.entries@[b].0@);
                    }
                    lemma_value_at(v, i as int);
                }
                let e = &self.entries[i].1;
                Some(CacheEntry { data: e.data.clone(), timestamp: e.timestamp })
            },
            None => {
                assert forall|i: int| 0 <= i < v.len() implies #[trigger] v[i].0 != key@ by {
                    assert(self.entries@[i].0@ != key@);
                }
                None
            },
        }
    }

    /// Stores `payload` under `key`, made at `now`, replacing any entry there.
    pub fn put(&mut self, key: String, payload: String, now: u64)
        requires
            old(self).wf(),
        ensures
            final(self).wf(),
            final(self)@ == old(self)@.insert(key@, (payload@, now)),
    {
        let ghost before = self.entries@;
        let ghost kv = key@;
        let ghost pv = payload@;
        let entry = CacheEntry { data: payload, timestamp: now };
        match find_label(&self.entries, &key) {
            Some(i) => {
                let ghost v = entry_views(before);
                proof {
                    assert forall|a: int, b: int|
                        0 <= a < v.len() && 0 <= b < v.len() && a != b implies #[trigger] v[a].0
                        != #[trigger] v[b].0 by {
                        assert(before[a].0@ != before[b].0@);
                    }
                    lemma_pairs_map_update(v, i as int, (pv, now));
                }
                self.entries.set(i, (key, entry));
                proof {
                    assert(entry_views(self.entries@) =~= v.update(i as int, (v[i as int].0, (pv, now))));
                    assert forall|a: int, b: int|
                        0 <= a < self.entries@.len() && 0 <= b < self.entries@.len() && a != b implies
                        #[trigger] self.entries@[a].0@ != #[trigger] self.entries@[b].0@ by {
                        assert(before[a].0@ != before[b].0@);
                    }
                }
            },
            None => {
                self.entries.push((key, entry));
                proof {
                    let v = entry_views(self.entries@);
                    assert(v.drop_last() =~= entry_views(before));
                    assert(v.last() == (kv, (pv, now)));
                }
            },
        }
    }

    /// The payload under `key` if it is younger than `ttl` at `now`.
    pub fn lookup_fresh(&self, key: &String, now: u64, ttl: u64) -> (r: Option<String>)
        requires
            self.wf(),
        ensures
            match r {
                Some(p) => fresh_payload(self@, key@, now, ttl) == Some(p@),
                None => fresh_payload(self@, key@, now, ttl) is None,
            },
    {
        match self.get(key) {
            Some(e) => {
                let elapsed: u64 = if now >= e.timestamp { now - e.timestamp } else { 0 };
                if elapsed < ttl {
                    Some(e.data)
                } else {
                    None
                }
            },
            None => None,
        }
    }
}

/// A payload stored at `stored` is served again at any `now` before the TTL
/// has run out, the same characters as stored.
pub proof fn lemma_fresh_hit(
    m: Map<Seq<char>, (Seq<char>, u64)>,
    key: Seq<char>,
    payload: Seq<char>,
    stored: u64,
    now: u64,
    ttl: u64,
)
    requires
        stored <= now,
        now - stored < ttl,
    ensures
        fresh_payload(m.insert(key, (payload, stored)), key, now, ttl) == Some(payload),
{
}

/// Once the TTL has run out, a stored payload is no longer fresh, though it
/// stays in the cache until replaced.
pub proof fn lemma_stale_miss(
    m: Map<Seq<char>, (Seq<char>, u64)>,
    key: Seq<char>,
    payload: Seq<char>,
    stored: u64,
    now: u64,
    ttl: u64,
)
    requires
        stored <= now,
        now - stored >= ttl,
    ensures
        fresh_payload(m.insert(key, (payload, stored)), key, now, ttl) is None,
        m.insert(key, (payload, stored)).contains_key(key),
{
}

} // verus!

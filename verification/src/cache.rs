//! The shared response cache: a capacity-bounded, time-expiring store from a
//! fully-built request URL to the raw body it returned, kept in a `moka`
//! cache behind trusted wrappers. `cache_history` names the most recent body
//! stored per URL over the cache's lifetime: expiry and eviction may drop an
//! entry, so a lookup may miss, but a hit always hands back the last value
//! stored for the key.

use vstd::prelude::*;

verus! {

#[verifier::external_type_specification]
#[verifier::external_body]
#[verifier::reject_recursive_types(K)]
#[verifier::reject_recursive_types(V)]
#[verifier::reject_recursive_types(S)]
pub struct ExMokaCache<K, V, S>(moka::sync::Cache<K, V, S>);

/// The response store's concrete type: request URL to raw body.
pub type BodyCache = moka::sync::Cache<String, String>;

/// The longest time-to-live the store accepts, in seconds: moka's builder
/// refuses lifetimes beyond a thousand years.
pub const MAX_TIME_TO_LIVE_SECS: u64 = 31536000000;

/// The most recent body inserted per URL over the cache's lifetime.
pub uninterp spec fn cache_history(c: BodyCache) -> Map<Seq<char>, Seq<char>>;

/// The history of a cache into which nothing was ever inserted.
pub open spec fn empty_history() -> Map<Seq<char>, Seq<char>> {
    Map::empty()
}

/// Relies on moka::sync::Cache::builder, CacheBuilder::max_capacity,
/// CacheBuilder::time_to_live and CacheBuilder::build: a fresh, empty cache
/// holding at most `max_capacity` entries, each alive for at most
/// `time_to_live_secs` seconds after insertion. The builder panics on a
/// time-to-live over a thousand years; the bound excludes that.
#[verifier::external_body]
pub(crate) fn cache_new(max_capacity: u64, time_to_live_secs: u64) -> (r: BodyCache)
    requires
        time_to_live_secs <= MAX_TIME_TO_LIVE_SECS,
    ensures
        cache_history(r) == empty_history(),
{
    moka::sync::Cache::builder().max_capacity(max_capacity).time_to_live(
        std::time::Duration::from_secs(time_to_live_secs),
    ).build()
}

/// Relies on moka::sync::Cache::get: returns a clone of the entry stored
/// under the key, or `None` when the key is absent, expired or evicted.
/// A hit always carries the most recently inserted value for the key;
/// whether an entry is still live depends on the clock, so a miss is
/// possible for any key.
#[verifier::external_body]
pub(crate) fn cache_get(c: &BodyCache, url: &str) -> (r: Option<String>)
    ensures
        match r {
            Some(body) => cache_history(*c).contains_key(url@) && body@ == cache_history(*c)[url@],
            None => true,
        },
{
    c.get(url)
}

/// Relies on moka::sync::Cache::insert: stores the value under the key,
/// replacing any previous entry for it.
#[verifier::external_body]
pub(crate) fn cache_insert(c: &mut BodyCache, url: &str, body: &str)
    ensures
        cache_history(*final(c)) == cache_history(*old(c)).insert(url@, body@),
{
    c.insert(url.to_string(), body.to_string());
}

} // verus!

//! The store of pending one-time passwords: an expiring `moka` cache from
//! e-mail address to the code last sent there.
use vstd::prelude::*;
use moka::sync::Cache;

verus! {

#[verifier::external_type_specification]
#[verifier::external_body]
#[verifier::reject_recursive_types(K)]
#[verifier::reject_recursive_types(V)]
#[verifier::reject_recursive_types(S)]
pub struct ExCache<K, V, S>(Cache<K, V, S>);

/// The cache type that holds pending codes.
pub type CodeCache = Cache<String, String>;

/// The entries written into a cache and not removed since, by key. An entry
/// of it may still have expired: a read then finds nothing.
pub uninterp spec fn cache_entries(c: Cache<String, String>) -> Map<Seq<char>, Seq<char>>;

/// The time to live, in seconds, that a cache was built with.
pub uninterp spec fn cache_ttl_secs(c: Cache<String, String>) -> nat;

/// The longest time to live that `moka` accepts: 1000 years of 365 days.
pub const MAX_TTL_SECS: u64 = 31_536_000_000;

/// What a read of `key` may give back from a cache holding `entries`: the
/// value last written under the key, or nothing (the key is absent, or its
/// entry has expired).
pub open spec fn read_allowed(
    entries: Map<Seq<char>, Seq<char>>,
    key: Seq<char>,
    r: Option<String>,
) -> bool {
    r matches Some(v) ==> entries.contains_key(key) && entries[key] == v@
}

/// `Cache::builder().time_to_live(..).build()` of `moka::sync`: an empty cache
/// whose entries expire `ttl_secs` seconds after they were inserted. The
/// build panics beyond 1000 years, which `requires` leaves out.
#[verifier::external_body]
fn new_cache(ttl_secs: u64) -> (cache: CodeCache)
    requires
        ttl_secs <= MAX_TTL_SECS,
    ensures
        cache_entries(cache) =~= Map::empty(),
        cache_ttl_secs(cache) == ttl_secs,
{
    Cache::builder().time_to_live(std::time::Duration::from_secs(ttl_secs)).build()
}

/// `moka::sync::Cache::get`: a clone of the value stored under `key`, unless
/// it is absent or expired. Whether an entry has expired depends on the
/// clock, so nothing is promised of when the result is `None`.
#[verifier::external_body]
fn cache_get(c: &Cache<String, String>, key: &str) -> (r: Option<String>)
    ensures
        read_allowed(cache_entries(*c), key@, r),
{
    c.get(key)
}

/// `moka::sync::Cache::insert`: stores `value` under `key`, replacing any
/// earlier value. The method takes `&self`; this wrapper takes `&mut` so that
/// the change is visible to the verifier.
#[verifier::external_body]
fn cache_insert(c: &mut Cache<String, String>, key: String, value: String)
    ensures
        cache_entries(*final(c)) == cache_entries(*old(c)).insert(key@, value@),
        cache_ttl_secs(*final(c)) == cache_ttl_secs(*old(c)),
{
    c.insert(key, value)
}

/// `moka::sync::Cache::remove`: discards the entry of `key`, if any (the
/// removed value that `moka` hands back is dropped). Takes `&mut` for the
/// same reason as `cache_insert`.
#[verifier::external_body]
fn cache_remove(c: &mut Cache<String, String>, key: &str)
    ensures
        cache_entries(*final(c)) == cache_entries(*old(c)).remove(key@),
        cache_ttl_secs(*final(c)) == cache_ttl_secs(*old(c)),
{
    c.remove(key);
}

/// Pending one-time passwords, keyed by e-mail address.
pub struct OtpStore {
    cache: Cache<String, String>,
}

impl View for OtpStore {
    type V = Map<Seq<char>, Seq<char>>;

    /// The code last issued for each address and not yet consumed.
    closed spec fn view(&self) -> Map<Seq<char>, Seq<char>> {
        cache_entries(self.cache)
    }
}

impl OtpStore {
    /// How long, in seconds, a code stays valid.
    pub closed spec fn ttl_secs(&self) -> nat {
        cache_ttl_secs(self.cache)
    }

    /// An empty store whose codes expire `ttl_secs` seconds after issue.
    pub fn new(ttl_secs: u64) -> (s: Self)
        requires
            ttl_secs <= MAX_TTL_SECS,
        ensures
            s@ == Map::<Seq<char>, Seq<char>>::empty(),
            s.ttl_secs() == ttl_secs,
    {
        OtpStore { cache: new_cache(ttl_secs) }
    }

    /// The pending code of `email`, unless there is none or it has expired.
    pub fn pending(&self, email: &str) -> (r: Option<String>)
        ensures
            read_allowed(self@, email@, r),
    {
        cache_get(&self.cache, email)
    }

    /// Records `code` as the pending code of `email`, replacing any earlier one.
    pub fn put(&mut self, email: String, code: String)
        ensures
            final(self)@ == old(self)@.insert(email@, code@),
            final(self).ttl_secs() == old(self).ttl_secs(),
    {
        cache_insert(&mut self.cache, email, code)
    }

    /// Discards the pending code of `email`, if any.
    pub fn discard(&mut self, email: &str)
        ensures
            final(self)@ == old(self)@.remove(email@),
            final(self).ttl_secs() == old(self).ttl_secs(),
    {
        cache_remove(&mut self.cache, email)
    }
}

} // verus!

//! The L1 store: a bounded key-to-value map with per-entry expiry.
//!
//! The map itself is an off-the-shelf concurrent cache; the library models
//! it as the map of the last value written under each key, together with the
//! capacity the cache was built with. The cache may drop entries under
//! capacity pressure, so a lookup of a written key is promised only while
//! the number of written keys stays within the capacity; it never yields a
//! value other than the last one written. Expiry is the library's own logic:
//! each entry carries an absolute deadline in milliseconds, and a lookup at
//! or past the deadline reads as absent.
use vstd::prelude::*;

use crate::codec::CacheResponce;

verus! {

/// One stored entry: the value, and the absolute expiry deadline in
/// milliseconds since the Unix epoch — `None` for an entry that never
/// expires.
#[derive(Clone)]
pub struct CacheEntry {
    pub value: Vec<u8>,
    pub expires_at_ms: Option<u64>,
}

impl View for CacheEntry {
    type V = (Seq<u8>, Option<u64>);

    open spec fn view(&self) -> (Seq<u8>, Option<u64>) {
        (self.value@, self.expires_at_ms)
    }
}

#[verifier::external_type_specification]
#[verifier::external_body]
#[verifier::reject_recursive_types(K)]
#[verifier::reject_recursive_types(V)]
#[verifier::reject_recursive_types(S)]
pub struct ExMokaCache<K, V, S>(moka::sync::Cache<K, V, S>);

/// The last entry written under each key of the cache since it was made.
/// What the cache still holds is at most this map: capacity pressure may
/// drop entries, but never yields a value other than the last one written.
pub uninterp spec fn cache_entries(
    c: moka::sync::Cache<String, CacheEntry>,
) -> Map<Seq<char>, (Seq<u8>, Option<u64>)>;

/// The maximum entry count the cache was built with.
pub uninterp spec fn cache_limit(c: moka::sync::Cache<String, CacheEntry>) -> u64;

/// The model of a store with nothing written yet.
pub open spec fn empty_entries() -> Map<Seq<char>, (Seq<u8>, Option<u64>)> {
    Map::empty()
}

/// Relies on moka's Cache::builder: a cache built with `max_capacity` and
/// the default weigher starts empty and bounds its entry count by
/// `max_capacity`.
#[verifier::external_body]
fn cache_new(max_capacity: u64) -> (c: moka::sync::Cache<String, CacheEntry>)
    ensures
        cache_entries(c) == empty_entries(),
        cache_limit(c) == max_capacity,
{
    moka::sync::Cache::builder().max_capacity(max_capacity).build()
}

/// Relies on moka's Cache::insert: the new value is written to the shared
/// map at once, replacing any earlier value under the same key; entries are
/// only ever dropped by the eviction policy, never altered.
#[verifier::external_body]
fn cache_store(c: &mut moka::sync::Cache<String, CacheEntry>, key: String, entry: CacheEntry)
    ensures
        cache_entries(*final(c)) == cache_entries(*old(c)).insert(key@, entry@),
        cache_limit(*final(c)) == cache_limit(*old(c)),
{
    c.insert(key, entry);
}

/// Relies on moka's Cache::get: it returns a clone of the entry currently
/// held under the key, which is the last one written; a key that was never
/// written is absent; and while the number of written keys stays within the
/// capacity, every written key is held, because moka admits every candidate
/// for which there is room and evicts only under capacity pressure.
#[verifier::external_body]
fn cache_lookup(c: &moka::sync::Cache<String, CacheEntry>, key: &str) -> (r: Option<CacheEntry>)
    ensures
        (match r {
            Option::Some(e) => cache_entries(*c).contains_pair(key@, e@),
            Option::None => true,
        }),
        !cache_entries(*c).dom().contains(key@) ==> r is None,
        cache_entries(*c).len() <= cache_limit(*c) && cache_entries(*c).dom().contains(key@)
            ==> r is Some,
{
    c.get(key)
}

/// Relies on moka's Cache::entry_count: an estimate of the number of live
/// entries, accurate once pending maintenance has run.
#[verifier::external_body]
fn cache_entry_count(c: &moka::sync::Cache<String, CacheEntry>) -> u64 {
    c.entry_count()
}

/// Relies on moka's Cache::run_pending_tasks: it completes the pending
/// maintenance, so that the entry count settles within the capacity bound.
#[verifier::external_body]
fn cache_run_pending_tasks(c: &moka::sync::Cache<String, CacheEntry>) {
    c.run_pending_tasks();
}

/// Relies on std::time::SystemTime::now: the wall clock, read as whole
/// milliseconds since the Unix epoch (zero if the clock reads before it).
#[verifier::external_body]
pub fn now_millis() -> u64 {
    match std::time::SystemTime::now().duration_since(std::time::UNIX_EPOCH) {
        Ok(d) => {
            let ms = d.as_millis();
            if ms > u64::MAX as u128 {
                u64::MAX
            } else {
                ms as u64
            }
        },
        Err(_) => 0,
    }
}

/// True while the entry has not reached its deadline.
pub open spec fn entry_live(e: (Seq<u8>, Option<u64>), now_ms: u64) -> bool {
    match e.1 {
        Option::None => true,
        Option::Some(deadline) => now_ms < deadline,
    }
}

/// What a lookup finds in the model at a given time: the stored value while
/// the key is present and its entry still live, nothing otherwise.
pub open spec fn spec_lookup(
    m: Map<Seq<char>, (Seq<u8>, Option<u64>)>,
    key: Seq<char>,
    now_ms: u64,
) -> Option<Seq<u8>> {
    if m.dom().contains(key) && entry_live(m[key], now_ms) {
        Option::Some(m[key].0)
    } else {
        Option::None
    }
}

/// The absolute deadline of a write with a time-to-live: now plus the
/// time-to-live in milliseconds, saturating at the largest representable
/// instant (which in practice never expires).
pub open spec fn spec_deadline(now_ms: u64, ttl_secs: u64) -> u64 {
    if now_ms + ttl_secs * 1000 > u64::MAX {
        u64::MAX
    } else {
        (now_ms + ttl_secs * 1000) as u64
    }
}

/// The entry a write stores at a given time.
pub open spec fn spec_entry(
    value: Seq<u8>,
    ttl_secs: Option<u64>,
    now_ms: u64,
) -> (Seq<u8>, Option<u64>) {
    match ttl_secs {
        Option::None => (value, Option::None),
        Option::Some(s) => (value, Option::Some(spec_deadline(now_ms, s))),
    }
}

/// The in-process cache tier: a bounded map from string keys to byte
/// values, with optional per-entry expiry.
pub struct L1Cache {
    inner: moka::sync::Cache<String, CacheEntry>,
}

impl View for L1Cache {
    type V = Map<Seq<char>, (Seq<u8>, Option<u64>)>;

    closed spec fn view(&self) -> Map<Seq<char>, (Seq<u8>, Option<u64>)> {
        cache_entries(self.inner)
    }
}

impl L1Cache {
    /// The maximum entry count the store was built with.
    pub closed spec fn capacity(&self) -> u64 {
        cache_limit(self.inner)
    }

    /// Every stored value fits the wire's four-byte length field. Writes
    /// demand this of their input, so it holds of the whole store.
    pub open spec fn wf(&self) -> bool {
        forall|k: Seq<char>| self@.dom().contains(k) ==> (#[trigger] self@[k]).0.len() <= u32::MAX
    }

    /// Makes an empty store that will hold at most `max_capacity` entries.
    pub fn new(max_capacity: u64) -> (c: Self)
        ensures
            c@ == empty_entries(),
            c.capacity() == max_capacity,
            c.wf(),
    {
        let inner = cache_new(max_capacity);
        L1Cache { inner }
    }

    /// Looks a key up as of the given time. The reply is a hit with the
    /// last value written — exact while the written keys fit the capacity —
    /// or a miss; never an acknowledgement or a failure. A key past its
    /// deadline reads as a miss.
    pub fn get_at(&self, key: &str, now_ms: u64) -> (r: CacheResponce)
        requires
            self.wf(),
        ensures
            r is Hit || r is Miss,
            r matches CacheResponce::Hit(v) ==> spec_lookup(self@, key@, now_ms) == Option::Some(
                v@,
            ) && v@.len() <= u32::MAX,
            spec_lookup(self@, key@, now_ms) is None ==> r is Miss,
            self@.len() <= self.capacity() && spec_lookup(self@, key@, now_ms) is Some ==> (
            r matches CacheResponce::Hit(v) && Option::Some(v@) == spec_lookup(
                self@,
                key@,
                now_ms,
            )),
    {
        match cache_lookup(&self.inner, key) {
            Option::Some(entry) => {
                match entry.expires_at_ms {
                    Option::Some(deadline) => {
                        if now_ms < deadline {
                            CacheResponce::Hit(entry.value)
                        } else {
                            CacheResponce::Miss
                        }
                    },
                    Option::None => CacheResponce::Hit(entry.value),
                }
            },
            Option::None => CacheResponce::Miss,
        }
    }

    /// Stores a value under a key as of the given time, replacing any
    /// earlier entry wholesale. A time-to-live becomes an absolute deadline
    /// of now plus that many seconds.
    pub fn set_at(&mut self, key: String, value: Vec<u8>, ttl_secs: Option<u64>, now_ms: u64)
        requires
            old(self).wf(),
            value@.len() <= u32::MAX,
        ensures
            final(self)@ == old(self)@.insert(key@, spec_entry(value@, ttl_secs, now_ms)),
            final(self).capacity() == old(self).capacity(),
            final(self).wf(),
    {
        let expires_at_ms: Option<u64> = match ttl_secs {
            Option::None => Option::None,
            Option::Some(s) => {
                let ttl_ms: u64 = if s > u64::MAX / 1000 {
                    u64::MAX
                } else {
                    s * 1000
                };
                Option::Some(now_ms.saturating_add(ttl_ms))
            },
        };
        cache_store(&mut self.inner, key, CacheEntry { value, expires_at_ms });
        proof {
            assert forall|k: Seq<char>| self@.dom().contains(k) implies (#[trigger] self@[k]).0.len()
                <= u32::MAX by {
                if k != key@ {
                    assert(old(self)@.dom().contains(k));
                }
            }
        }
    }

    /// Looks a key up now. The reply is a hit with the last value written
    /// or a miss, never an acknowledgement or a failure; a key that was
    /// never written is a miss, and a never-expiring key within capacity is
    /// a hit.
    pub fn get(&self, key: &str) -> (r: CacheResponce)
        requires
            self.wf(),
        ensures
            r is Hit || r is Miss,
            r matches CacheResponce::Hit(v) ==> self@.dom().contains(key@) && v@ == self@[key@].0
                && v@.len() <= u32::MAX,
            !self@.dom().contains(key@) ==> r is Miss,
            self@.len() <= self.capacity() && self@.dom().contains(key@) && self@[key@].1 is None
                ==> (r matches CacheResponce::Hit(v) && v@ == self@[key@].0),
    {
        let now_ms = now_millis();
        self.get_at(key, now_ms)
    }

    /// Stores a value under a key now.
    pub fn set(&mut self, key: String, value: Vec<u8>, ttl_secs: Option<u64>)
        requires
            old(self).wf(),
            value@.len() <= u32::MAX,
        ensures
            final(self).capacity() == old(self).capacity(),
            final(self).wf(),
            final(self)@.dom() == old(self)@.dom().insert(key@),
            final(self)@[key@].0 == value@,
            ttl_secs is None <==> final(self)@[key@].1 is None,
            forall|k: Seq<char>|
                k != key@ && old(self)@.dom().contains(k) ==> final(self)@[k] == old(self)@[k]
                    && final(self)@.dom().contains(k),
    {
        let now_ms = now_millis();
        self.set_at(key, value, ttl_secs, now_ms);
    }

    /// How many entries the cache holds: an estimate until pending
    /// maintenance has run.
    pub fn entry_count(&self) -> u64 {
        cache_entry_count(&self.inner)
    }

    /// Completes the cache's pending maintenance, letting the entry count
    /// settle under the capacity bound.
    pub fn run_pending_tasks(&self) {
        cache_run_pending_tasks(&self.inner);
    }
}

/// A write with no expiry is at once readable: looking the key up in the
/// written model yields exactly the value written, at every time.
pub proof fn lemma_set_then_get(
    m: Map<Seq<char>, (Seq<u8>, Option<u64>)>,
    key: Seq<char>,
    value: Seq<u8>,
    now_ms: u64,
)
    ensures
        spec_lookup(m.insert(key, (value, Option::None)), key, now_ms) == Option::Some(value),
{
}

/// Once the time-to-live of a write has elapsed and nothing was written in
/// between, the key reads as absent.
pub proof fn lemma_ttl_expiry(
    m: Map<Seq<char>, (Seq<u8>, Option<u64>)>,
    key: Seq<char>,
    value: Seq<u8>,
    ttl_secs: u64,
    set_ms: u64,
    now_ms: u64,
)
    requires
        now_ms >= set_ms + ttl_secs * 1000,
    ensures
        spec_lookup(
            m.insert(key, spec_entry(value, Option::Some(ttl_secs), set_ms)),
            key,
            now_ms,
        ) is None,
{
}

/// The second of two writes to one key wins: every later lookup behaves as
/// if only the second write had happened.
pub proof fn lemma_last_write_wins(
    m: Map<Seq<char>, (Seq<u8>, Option<u64>)>,
    key: Seq<char>,
    first: (Seq<u8>, Option<u64>),
    second: (Seq<u8>, Option<u64>),
    now_ms: u64,
)
    ensures
        spec_lookup(m.insert(key, first).insert(key, second), key, now_ms) == spec_lookup(
            m.insert(key, second),
            key,
            now_ms,
        ),
{
    assert(m.insert(key, first).insert(key, second) =~= m.insert(key, second));
}

} // verus!

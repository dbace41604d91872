//! The secondary tier's pure half: configuration with its defaults, the
//! prefixed storage key, and the compact update-event payload that a write
//! publishes on the bus.
//!
//! The tier itself is reached over the network by the surrounding program;
//! this module plans each write — which key to store under, which payload to
//! publish — and reads event payloads back, so that what travels is pinned
//! down here and checked once.
use vstd::prelude::*;
use vstd::string::StringExecFns;

verus! {

/// Where the secondary tier keeps a cache entry and where it announces
/// writes: a key prefix and a pub/sub channel name.
pub struct SyncConfig {
    pub key_prefix: String,
    pub channel: String,
}

/// The key under which a cache key is stored in the shared tier: the
/// configured prefix, then the key itself.
pub open spec fn spec_prefixed_key(prefix: Seq<char>, key: Seq<char>) -> Seq<char> {
    prefix + key
}

/// The bytes that announce a write of `key` with `ttl_secs` on the bus; a
/// function of the two alone.
pub uninterp spec fn update_payload(key: Seq<char>, ttl_secs: Option<u64>) -> Seq<u8>;

/// What reading an announcement's bytes yields: the key and time-to-live,
/// or nothing for bytes that are no announcement; a function of the bytes
/// alone.
pub uninterp spec fn update_of(payload: Seq<u8>) -> Option<(Seq<char>, Option<u64>)>;

/// Relies on bincode's encode_to_vec with the standard configuration: the
/// bytes are a function of the key and time-to-live alone, bincode
/// documents that decoding them yields the pair back, and encoding a string
/// and an optional integer this way has no failure path — both of the
/// writers it drives only ever report success, and the standard
/// configuration sets no size limit.
#[verifier::external_body]
pub(crate) fn bincode_encode_update(key: &String, ttl_secs: &Option<u64>) -> (r: Option<Vec<u8>>)
    ensures
        r is Some,
        (match r {
            Option::Some(v) => v@ == update_payload(key@, *ttl_secs) && update_of(v@)
                == Option::Some((key@, *ttl_secs)),
            Option::None => true,
        }),
{
    bincode::encode_to_vec((key, ttl_secs), bincode::config::standard()).ok()
}

/// Relies on bincode's decode_from_slice with the standard configuration:
/// whether the bytes decode, and to what pair, depends on the bytes alone.
#[verifier::external_body]
pub(crate) fn bincode_decode_update(payload: &[u8]) -> (r: Option<(String, Option<u64>)>)
    ensures
        (match r {
            Option::Some(p) => update_of(payload@) == Option::Some((p.0@, p.1)),
            Option::None => update_of(payload@) is None,
        }),
{
    match bincode::decode_from_slice::<(String, Option<u64>), _>(
        payload,
        bincode::config::standard(),
    ) {
        Ok((v, _)) => Some(v),
        Err(_) => None,
    }
}

/// One planned write to the shared tier: the prefixed key to store the
/// value under, the announcement to publish, and the time-to-live to store
/// with.
pub struct SecondarySet {
    pub redis_key: String,
    pub payload: Vec<u8>,
    pub ttl_secs: Option<u64>,
}

impl SyncConfig {
    /// Builds the configuration from optional settings, falling back to the
    /// default prefix and channel.
    pub fn from_settings(key_prefix: Option<String>, channel: Option<String>) -> (c: SyncConfig)
        ensures
            c.key_prefix@ == (match key_prefix {
                Option::Some(p) => p@,
                Option::None => "synapse:cache:"@,
            }),
            c.channel@ == (match channel {
                Option::Some(ch) => ch@,
                Option::None => "synapse:cache_updates"@,
            }),
    {
        let key_prefix = match key_prefix {
            Option::Some(p) => p,
            Option::None => String::from_str("synapse:cache:"),
        };
        let channel = match channel {
            Option::Some(ch) => ch,
            Option::None => String::from_str("synapse:cache_updates"),
        };
        SyncConfig { key_prefix, channel }
    }

    /// The key under which the shared tier stores this cache key.
    pub fn prefixed_key(&self, key: &str) -> (r: String)
        ensures
            r@ == spec_prefixed_key(self.key_prefix@, key@),
    {
        let mut out = self.key_prefix.clone();
        out.append(key);
        out
    }

    /// Plans the write-through for one local write: the prefixed storage
    /// key and the announcement to publish. A plan is always produced: the
    /// payload encoder has no failure path for a key and a time-to-live.
    pub fn plan_set(&self, key: &str, ttl_secs: Option<u64>) -> (r: Option<SecondarySet>)
        ensures
            r is Some,
            (match r {
                Option::Some(p) => p.redis_key@ == spec_prefixed_key(self.key_prefix@, key@)
                    && p.payload@ == update_payload(key@, ttl_secs) && update_of(p.payload@)
                    == Option::Some((key@, ttl_secs)) && p.ttl_secs == ttl_secs,
                Option::None => true,
            }),
    {
        let redis_key = self.prefixed_key(key);
        let key_string = String::from_str(key);
        match bincode_encode_update(&key_string, &ttl_secs) {
            Option::Some(payload) => Option::Some(
                SecondarySet { redis_key, payload, ttl_secs },
            ),
            Option::None => Option::None,
        }
    }
}

} // verus!

//! The subscriber's pure half: reading bus events defensively, applying a
//! peer's write to the local store, and the backoff that paces the
//! reconnect loop.
//!
//! The surrounding program holds the subscription: for each message it calls
//! `parse_update`, fetches the announced key from the shared tier, and hands
//! the result to `apply_update`; after a failed pass it waits
//! `next_backoff_ms` and reconnects.
use vstd::prelude::*;

use crate::secondary::SyncConfig;
use crate::secondary::bincode_decode_update;
use crate::secondary::spec_prefixed_key;
use crate::secondary::update_of;
use crate::store::L1Cache;
use crate::store::spec_entry;

verus! {

/// The first wait after a subscription failure, in milliseconds.
pub const BACKOFF_INITIAL_MS: u64 = 200;

/// The wait between reconnection attempts grows no further than this.
pub const BACKOFF_MAX_MS: u64 = 30000;

/// One announcement from the bus, ready to act on: the prefixed key to
/// fetch from the shared tier, the cache key to store under, and the
/// time-to-live to store with.
pub struct PeerUpdate {
    pub fetch_key: String,
    pub key: String,
    pub ttl_secs: Option<u64>,
}

/// Reads one bus payload defensively: the announced update, or nothing for
/// bytes that do not decode — which the subscriber reports and skips, never
/// failing on them.
pub fn parse_update(config: &SyncConfig, payload: &[u8]) -> (r: Option<PeerUpdate>)
    ensures
        (match r {
            Option::Some(u) => update_of(payload@) == Option::Some((u.key@, u.ttl_secs))
                && u.fetch_key@ == spec_prefixed_key(config.key_prefix@, u.key@),
            Option::None => update_of(payload@) is None,
        }),
{
    match bincode_decode_update(payload) {
        Option::Some((key, ttl_secs)) => {
            let fetch_key = config.prefixed_key(key.as_str());
            Option::Some(PeerUpdate { fetch_key, key, ttl_secs })
        },
        Option::None => Option::None,
    }
}

/// Applies one announcement: when the shared tier held a value for the
/// announced key, it is stored locally under that key with the announced
/// time-to-live, as of the given time; when it held none, nothing changes.
pub fn apply_update(
    store: &mut L1Cache,
    key: String,
    ttl_secs: Option<u64>,
    fetched: Option<Vec<u8>>,
    now_ms: u64,
)
    requires
        old(store).wf(),
        fetched matches Some(v) ==> v@.len() <= u32::MAX,
    ensures
        final(store).wf(),
        final(store).capacity() == old(store).capacity(),
        (match fetched {
            Option::Some(v) => final(store)@ == old(store)@.insert(
                key@,
                spec_entry(v@, ttl_secs, now_ms),
            ),
            Option::None => final(store)@ == old(store)@,
        }),
{
    match fetched {
        Option::Some(value) => store.set_at(key, value, ttl_secs, now_ms),
        Option::None => {},
    }
}

/// The next wait before reconnecting: the least of twice the current wait
/// and the cap after a failed pass, the initial wait again after a clean
/// one.
pub open spec fn spec_next_backoff(current_ms: u64, failed: bool) -> u64 {
    if !failed {
        BACKOFF_INITIAL_MS
    } else if 2 * current_ms >= BACKOFF_MAX_MS {
        BACKOFF_MAX_MS
    } else {
        (2 * current_ms) as u64
    }
}

/// Computes the wait before the next reconnection attempt.
pub fn next_backoff_ms(current_ms: u64, failed: bool) -> (r: u64)
    ensures
        r == spec_next_backoff(current_ms, failed),
{
    if !failed {
        BACKOFF_INITIAL_MS
    } else if current_ms >= BACKOFF_MAX_MS / 2 {
        BACKOFF_MAX_MS
    } else {
        2 * current_ms
    }
}

/// The delay between reconnection attempts grows no faster than doubling
/// and no further than the cap, and a clean pass starts over at the initial
/// wait.
pub proof fn lemma_backoff_growth(current_ms: u64)
    ensures
        spec_next_backoff(current_ms, true) <= 2 * current_ms,
        spec_next_backoff(current_ms, true) <= BACKOFF_MAX_MS,
        spec_next_backoff(current_ms, false) == BACKOFF_INITIAL_MS,
{
}

} // verus!

//! Per-frame dispatch of the server: one request frame in, one reply frame
//! out, plus the write the caller still owes the secondary tier.
//!
//! The surrounding connection task reads frames off the stream, hands each
//! one here together with the current time, sends the reply back, and — when
//! a secondary tier is configured — performs the returned write-through. A
//! frame that does not decode is answered with the stable failure reply and
//! leaves the store untouched, so a connection survives malformed input.
use vstd::prelude::*;
use vstd::utf8::is_ascii_chars;
use vstd::utf8::is_ascii_chars_encode_utf8;
use vstd::string::StringExecFns;

use crate::codec::CacheCommand;
use crate::codec::CacheResponce;
use crate::codec::SpecCommand;
use crate::codec::SpecResponse;
use crate::codec::decode_command;
use crate::codec::encode_response;
use crate::codec::spec_decode_command;
use crate::codec::spec_encode_response;
use crate::store::L1Cache;
use crate::store::spec_entry;
use crate::store::spec_lookup;

verus! {

/// A write the server owes the secondary tier: the same key, value and
/// time-to-live that were just stored locally.
pub struct WriteThrough {
    pub key: String,
    pub value: Vec<u8>,
    pub ttl_secs: Option<u64>,
}

/// Serves one request frame against the store as of the given time:
/// decodes it, applies it, and returns the encoded reply, together with the
/// write to forward when `forward_writes` is set and the frame was a write.
///
/// Every frame gets exactly one reply. A frame that does not decode gets
/// the stable failure reply and changes nothing. A lookup changes nothing
/// and is answered with the held value or a miss — exactly, while the
/// written keys fit the capacity. A write is applied to the store wholesale
/// and acknowledged.
pub fn handle_frame(
    store: &mut L1Cache,
    frame: &[u8],
    now_ms: u64,
    forward_writes: bool,
) -> (out: (Vec<u8>, Option<WriteThrough>))
    requires
        old(store).wf(),
    ensures
        final(store).wf(),
        final(store).capacity() == old(store).capacity(),
        spec_decode_command(frame@) matches Err(_) ==> final(store)@ == old(store)@ && out.1
            is None && out.0@ == spec_encode_response(SpecResponse::Error("Not implemented"@)),
        spec_decode_command(frame@) matches Ok(SpecCommand::Get { key }) ==> {
            &&& final(store)@ == old(store)@
            &&& out.1 is None
            &&& spec_lookup(old(store)@, key, now_ms) is None ==> out.0@ == spec_encode_response(
                SpecResponse::Miss,
            )
            &&& out.0@ == spec_encode_response(SpecResponse::Miss) || (spec_lookup(
                old(store)@,
                key,
                now_ms,
            ) matches Some(v) && out.0@ == spec_encode_response(SpecResponse::Hit(v)))
            &&& (old(store)@.len() <= old(store).capacity() && spec_lookup(
                old(store)@,
                key,
                now_ms,
            ) is Some) ==> out.0@ == spec_encode_response(
                SpecResponse::Hit(spec_lookup(old(store)@, key, now_ms)->Some_0),
            )
        },
        spec_decode_command(frame@) matches Ok(SpecCommand::Put { key, value, ttl_secs }) ==> {
            &&& final(store)@ == old(store)@.insert(key, spec_entry(value, ttl_secs, now_ms))
            &&& out.0@ == spec_encode_response(SpecResponse::Acked)
            &&& forward_writes ==> (out.1 matches Some(w) && w.key@ == key && w.value@ == value
                && w.ttl_secs == ttl_secs)
            &&& !forward_writes ==> out.1 is None
        },
{
    match decode_command(frame) {
        Ok(cmd) => {
            match cmd {
                CacheCommand::Get { key } => {
                    let response = store.get_at(key.as_str(), now_ms);
                    let reply = encode_response(response);
                    (reply, Option::None)
                },
                CacheCommand::Put { key, value, ttl_secs } => {
                    let write_through: Option<WriteThrough> = if forward_writes {
                        Option::Some(
                            WriteThrough {
                                key: key.clone(),
                                value: vstd::slice::slice_to_vec(value.as_slice()),
                                ttl_secs,
                            },
                        )
                    } else {
                        Option::None
                    };
                    store.set_at(key, value, ttl_secs, now_ms);
                    let reply = encode_response(CacheResponce::Acked);
                    (reply, write_through)
                },
            }
        },
        Err(_) => {
            proof {
                reveal_strlit("Not implemented");
                assert(is_ascii_chars("Not implemented"@));
                is_ascii_chars_encode_utf8("Not implemented"@);
            }
            let reply = encode_response(
                CacheResponce::Error(String::from_str("Not implemented")),
            );
            (reply, Option::None)
        },
    }
}

} // verus!

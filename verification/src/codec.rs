//! The wire codec: request and response payloads inside one
//! length-delimited frame.
//!
//! Requests are `OP_GET | key_len (u32 LE) | key` and
//! `OP_SET | key_len (u32 LE) | value_len (u32 LE) | ttl_secs (u64 LE) | key | value`,
//! with a `ttl_secs` of zero standing for "no expiry". Responses are a result
//! code followed, for `Hit` and `Error`, by a length-prefixed payload. The
//! layouts are stated once as spec functions over byte sequences; every
//! encoder and decoder is proved against them.
use vstd::prelude::*;
use vstd::bytes::*;
use vstd::slice::*;
use vstd::string::*;
use vstd::utf8::*;

use crate::OP_GET;
use crate::OP_SET;
use crate::RES_OK;
use crate::RES_HIT;
use crate::RES_MISS;
use crate::RES_ERR;

verus! {

/// A request: look a key up, or store a value under a key with an optional
/// time-to-live in seconds.
#[derive(Debug, Clone)]
pub enum CacheCommand {
    Get { key: String },
    Put { key: String, value: Vec<u8>, ttl_secs: Option<u64> },
}

/// A reply: a write acknowledged, a value found, a key absent or expired, or
/// a failure with a message. (The misspelling of the name is long-standing
/// and kept for compatibility, like the error text `Bad lenghts`.)
#[derive(Debug, Clone)]
pub enum CacheResponce {
    Acked,
    Hit(Vec<u8>),
    Miss,
    Error(String),
}

/// The mathematical form of a request: keys as character sequences, values
/// as byte sequences.
pub enum SpecCommand {
    Get { key: Seq<char> },
    Put { key: Seq<char>, value: Seq<u8>, ttl_secs: Option<u64> },
}

/// The mathematical form of a reply.
pub enum SpecResponse {
    Acked,
    Hit(Seq<u8>),
    Miss,
    Error(Seq<char>),
}

impl View for CacheCommand {
    type V = SpecCommand;

    open spec fn view(&self) -> SpecCommand {
        match self {
            CacheCommand::Get { key } => SpecCommand::Get { key: key@ },
            CacheCommand::Put { key, value, ttl_secs } => SpecCommand::Put {
                key: key@,
                value: value@,
                ttl_secs: *ttl_secs,
            },
        }
    }
}

impl View for CacheResponce {
    type V = SpecResponse;

    open spec fn view(&self) -> SpecResponse {
        match self {
            CacheResponce::Acked => SpecResponse::Acked,
            CacheResponce::Hit(value) => SpecResponse::Hit(value@),
            CacheResponce::Miss => SpecResponse::Miss,
            CacheResponce::Error(msg) => SpecResponse::Error(msg@),
        }
    }
}

/// The `ttl_secs` field as it stands on the wire: zero means "none".
pub open spec fn spec_ttl_raw(ttl_secs: Option<u64>) -> u64 {
    match ttl_secs {
        Option::None => 0,
        Option::Some(s) => s,
    }
}

/// The bytes of a Get request payload for a key already encoded as UTF-8.
pub open spec fn spec_encode_get_request(key_bytes: Seq<u8>) -> Seq<u8> {
    seq![OP_GET] + spec_u32_to_le_bytes(key_bytes.len() as u32) + key_bytes
}

/// The bytes of a Set request payload for a key already encoded as UTF-8.
pub open spec fn spec_encode_set_request(
    key_bytes: Seq<u8>,
    value: Seq<u8>,
    ttl_secs: Option<u64>,
) -> Seq<u8> {
    seq![OP_SET] + spec_u32_to_le_bytes(key_bytes.len() as u32) + spec_u32_to_le_bytes(
        value.len() as u32,
    ) + spec_u64_to_le_bytes(spec_ttl_raw(ttl_secs)) + key_bytes + value
}

/// The bytes of a response payload.
pub open spec fn spec_encode_response(r: SpecResponse) -> Seq<u8> {
    match r {
        SpecResponse::Acked => seq![RES_OK],
        SpecResponse::Miss => seq![RES_MISS],
        SpecResponse::Hit(value) => seq![RES_HIT] + spec_u32_to_le_bytes(value.len() as u32)
            + value,
        SpecResponse::Error(msg) => seq![RES_ERR] + spec_u32_to_le_bytes(
            encode_utf8(msg).len() as u32,
        ) + encode_utf8(msg),
    }
}

/// Builds the wire form of a Get request.
pub fn encode_get(key: &str) -> (out: Vec<u8>)
    requires
        key.spec_bytes().len() <= u32::MAX,
    ensures
        out@ == spec_encode_get_request(key.spec_bytes()),
{
    let key_bytes = key.as_bytes();
    let mut out: Vec<u8> = Vec::new();
    out.push(OP_GET);
    let mut len_bytes = u32_to_le_bytes(key_bytes.len() as u32);
    out.append(&mut len_bytes);
    let mut key_vec = slice_to_vec(key_bytes);
    out.append(&mut key_vec);
    proof {
        assert(out@ =~= spec_encode_get_request(key.spec_bytes()));
    }
    out
}

/// Builds the wire form of a Set request. A `ttl_secs` of `Some(0)` encodes
/// like `None`, as the wire has no separate form for it.
pub fn encode_set(key: &str, value: &[u8], ttl_secs: Option<u64>) -> (out: Vec<u8>)
    requires
        key.spec_bytes().len() <= u32::MAX,
        value@.len() <= u32::MAX,
    ensures
        out@ == spec_encode_set_request(key.spec_bytes(), value@, ttl_secs),
{
    let key_bytes = key.as_bytes();
    let mut out: Vec<u8> = Vec::new();
    out.push(OP_SET);
    let mut key_len_bytes = u32_to_le_bytes(key_bytes.len() as u32);
    out.append(&mut key_len_bytes);
    let mut value_len_bytes = u32_to_le_bytes(value.len() as u32);
    out.append(&mut value_len_bytes);
    let ttl_raw: u64 = match ttl_secs {
        Option::None => 0,
        Option::Some(s) => s,
    };
    let mut ttl_bytes = u64_to_le_bytes(ttl_raw);
    out.append(&mut ttl_bytes);
    let mut key_vec = slice_to_vec(key_bytes);
    out.append(&mut key_vec);
    let mut value_vec = slice_to_vec(value);
    out.append(&mut value_vec);
    proof {
        assert(out@ =~= spec_encode_set_request(key.spec_bytes(), value@, ttl_secs));
    }
    out
}

/// Builds the wire form of a response.
pub fn encode_response(response: CacheResponce) -> (out: Vec<u8>)
    requires
        response@ matches SpecResponse::Hit(v) ==> v.len() <= u32::MAX,
        response@ matches SpecResponse::Error(m) ==> encode_utf8(m).len() <= u32::MAX,
    ensures
        out@ == spec_encode_response(response@),
{
    let ghost r = response@;
    let mut out: Vec<u8> = Vec::new();
    match response {
        CacheResponce::Acked => {
            out.push(RES_OK);
        },
        CacheResponce::Miss => {
            out.push(RES_MISS);
        },
        CacheResponce::Hit(mut value) => {
            out.push(RES_HIT);
            let mut len_bytes = u32_to_le_bytes(value.len() as u32);
            out.append(&mut len_bytes);
            out.append(&mut value);
        },
        CacheResponce::Error(msg) => {
            out.push(RES_ERR);
            let mut msg_bytes = msg.as_str().as_bytes_vec();
            let mut len_bytes = u32_to_le_bytes(msg_bytes.len() as u32);
            out.append(&mut len_bytes);
            out.append(&mut msg_bytes);
        },
    }
    proof {
        assert(out@ =~= spec_encode_response(r));
    }
    out
}

/// The text of the failure that decoding the given (invalid) bytes as UTF-8
/// reports; a function of the bytes alone.
pub uninterp spec fn utf8_error_msg(bytes: Seq<u8>) -> Seq<char>;

/// Relies on String::from_utf8: it succeeds exactly on valid UTF-8 and
/// returns the decoded characters, and its error displays a text that
/// depends on the bytes alone.
#[verifier::external_body]
fn utf8_to_string(bytes: Vec<u8>) -> (r: Result<String, String>)
    ensures
        (match r {
            Result::Ok(s) => valid_utf8(bytes@) && s@ == decode_utf8(bytes@),
            Result::Err(m) => !valid_utf8(bytes@) && m@ == utf8_error_msg(bytes@),
        }),
{
    match String::from_utf8(bytes) {
        Ok(s) => Ok(s),
        Err(e) => Err(format!("{}", e)),
    }
}

/// What decoding one request payload yields: the command, or the error text
/// sent back to the client. Trailing bytes after the declared lengths are
/// ignored.
pub open spec fn spec_decode_command(b: Seq<u8>) -> Result<SpecCommand, Seq<char>> {
    if b.len() == 0 {
        Result::Err("Buf is empty"@)
    } else if b[0] == OP_GET {
        if b.len() < 5 {
            Result::Err("Bad key_len"@)
        } else {
            let key_len = spec_u32_from_le_bytes(b.subrange(1, 5)) as int;
            if b.len() - 5 < key_len {
                Result::Err("Bad key_len"@)
            } else {
                let kb = b.subrange(5, 5 + key_len);
                if valid_utf8(kb) {
                    Result::Ok(SpecCommand::Get { key: decode_utf8(kb) })
                } else {
                    Result::Err("Bad key utf-8: "@ + utf8_error_msg(kb))
                }
            }
        }
    } else if b[0] == OP_SET {
        if b.len() < 17 {
            Result::Err("Bad lenghts"@)
        } else {
            let key_len = spec_u32_from_le_bytes(b.subrange(1, 5)) as int;
            let value_len = spec_u32_from_le_bytes(b.subrange(5, 9)) as int;
            let ttl_raw = spec_u64_from_le_bytes(b.subrange(9, 17));
            if b.len() - 17 < key_len + value_len {
                Result::Err("Bad lenghts"@)
            } else {
                let kb = b.subrange(17, 17 + key_len);
                let vb = b.subrange(17 + key_len, 17 + key_len + value_len);
                if valid_utf8(kb) {
                    Result::Ok(
                        SpecCommand::Put {
                            key: decode_utf8(kb),
                            value: vb,
                            ttl_secs: if ttl_raw == 0 {
                                Option::None
                            } else {
                                Option::Some(ttl_raw)
                            },
                        },
                    )
                } else {
                    Result::Err("Bad key utf-8: "@ + utf8_error_msg(kb))
                }
            }
        }
    } else {
        Result::Err("Unknown op"@)
    }
}

/// Decodes one request payload. Declared lengths that reach past the input
/// are an error, never a read past the end.
pub fn decode_command(buf: &[u8]) -> (r: Result<CacheCommand, String>)
    ensures
        r matches Ok(c) ==> (spec_decode_command(buf@) matches Ok(sc) && c@ == sc),
        r matches Err(m) ==> (spec_decode_command(buf@) matches Err(sm) && m@ == sm),
{
    if buf.len() == 0 {
        return Result::Err(String::from_str("Buf is empty"));
    }
    let op = *slice_index_get(buf, 0);
    if op == OP_GET {
        if buf.len() < 5 {
            return Result::Err(String::from_str("Bad key_len"));
        }
        let key_len = u32_from_le_bytes(slice_subrange(buf, 1, 5)) as usize;
        if key_len > buf.len() - 5 {
            return Result::Err(String::from_str("Bad key_len"));
        }
        let key_bytes = slice_to_vec(slice_subrange(buf, 5, 5 + key_len));
        match utf8_to_string(key_bytes) {
            Ok(key) => Result::Ok(CacheCommand::Get { key }),
            Err(detail) => {
                let mut msg = String::from_str("Bad key utf-8: ");
                msg.append(detail.as_str());
                Result::Err(msg)
            },
        }
    } else if op == OP_SET {
        if buf.len() < 17 {
            return Result::Err(String::from_str("Bad lenghts"));
        }
        let key_len = u32_from_le_bytes(slice_subrange(buf, 1, 5)) as usize;
        let value_len = u32_from_le_bytes(slice_subrange(buf, 5, 9)) as usize;
        let ttl_raw = u64_from_le_bytes(slice_subrange(buf, 9, 17));
        let remaining = buf.len() - 17;
        if key_len > remaining || value_len > remaining - key_len {
            return Result::Err(String::from_str("Bad lenghts"));
        }
        let key_bytes = slice_to_vec(slice_subrange(buf, 17, 17 + key_len));
        let value = slice_to_vec(slice_subrange(buf, 17 + key_len, 17 + key_len + value_len));
        match utf8_to_string(key_bytes) {
            Ok(key) => {
                let ttl_secs = if ttl_raw == 0 {
                    Option::None
                } else {
                    Option::Some(ttl_raw)
                };
                Result::Ok(CacheCommand::Put { key, value, ttl_secs })
            },
            Err(detail) => {
                let mut msg = String::from_str("Bad key utf-8: ");
                msg.append(detail.as_str());
                Result::Err(msg)
            },
        }
    } else {
        Result::Err(String::from_str("Unknown op"))
    }
}

/// What decoding one response payload yields. A truncated payload is an
/// error, never a read past the input; the texts for a bad result code and
/// for a malformed message are the stable ones.
pub open spec fn spec_decode_response(b: Seq<u8>) -> Result<SpecResponse, Seq<char>> {
    if b.len() == 0 {
        Result::Err("Bad length"@)
    } else if b[0] == RES_OK {
        Result::Ok(SpecResponse::Acked)
    } else if b[0] == RES_HIT {
        if b.len() < 5 {
            Result::Err("Bad length"@)
        } else {
            let len = spec_u32_from_le_bytes(b.subrange(1, 5)) as int;
            if b.len() - 5 < len {
                Result::Err("Bad length"@)
            } else {
                Result::Ok(SpecResponse::Hit(b.subrange(5, 5 + len)))
            }
        }
    } else if b[0] == RES_MISS {
        Result::Ok(SpecResponse::Miss)
    } else if b[0] == RES_ERR {
        if b.len() < 5 {
            Result::Err("Bad length"@)
        } else {
            let len = spec_u32_from_le_bytes(b.subrange(1, 5)) as int;
            if b.len() - 5 < len {
                Result::Err("Bad length"@)
            } else {
                let mb = b.subrange(5, 5 + len);
                if valid_utf8(mb) {
                    Result::Ok(SpecResponse::Error(decode_utf8(mb)))
                } else {
                    Result::Err("Bad err utf-8"@)
                }
            }
        }
    } else {
        Result::Err("Unknown result"@)
    }
}

/// Decodes one response payload.
pub fn decode_response(buf: &[u8]) -> (r: Result<CacheResponce, String>)
    ensures
        r matches Ok(c) ==> (spec_decode_response(buf@) matches Ok(sc) && c@ == sc),
        r matches Err(m) ==> (spec_decode_response(buf@) matches Err(sm) && m@ == sm),
{
    if buf.len() == 0 {
        return Result::Err(String::from_str("Bad length"));
    }
    let code = *slice_index_get(buf, 0);
    if code == RES_OK {
        Result::Ok(CacheResponce::Acked)
    } else if code == RES_HIT {
        if buf.len() < 5 {
            return Result::Err(String::from_str("Bad length"));
        }
        let len = u32_from_le_bytes(slice_subrange(buf, 1, 5)) as usize;
        if len > buf.len() - 5 {
            return Result::Err(String::from_str("Bad length"));
        }
        let value = slice_to_vec(slice_subrange(buf, 5, 5 + len));
        Result::Ok(CacheResponce::Hit(value))
    } else if code == RES_MISS {
        Result::Ok(CacheResponce::Miss)
    } else if code == RES_ERR {
        if buf.len() < 5 {
            return Result::Err(String::from_str("Bad length"));
        }
        let len = u32_from_le_bytes(slice_subrange(buf, 1, 5)) as usize;
        if len > buf.len() - 5 {
            return Result::Err(String::from_str("Bad length"));
        }
        let msg_bytes = slice_to_vec(slice_subrange(buf, 5, 5 + len));
        match utf8_to_string(msg_bytes) {
            Ok(msg) => Result::Ok(CacheResponce::Error(msg)),
            Err(_) => Result::Err(String::from_str("Bad err utf-8")),
        }
    } else {
        Result::Err(String::from_str("Unknown result"))
    }
}

/// Reads a reply to a lookup on the client side: the value on a hit, nothing
/// on a miss, and the carried text on a failure. A bare acknowledgement is
/// no answer to a lookup and is reported as a failure.
pub fn response_to_lookup(response: CacheResponce) -> (r: Result<Option<Vec<u8>>, String>)
    ensures
        response@ matches SpecResponse::Hit(v) ==> (r matches Ok(o) && o matches Some(b) && b@
            == v),
        response@ is Miss ==> (r matches Ok(o) && o is None),
        response@ matches SpecResponse::Error(m) ==> (r matches Err(e) && e@ == m),
        response@ is Acked ==> (r matches Err(e) && e@ == "unexpected response"@),
{
    match response {
        CacheResponce::Hit(value) => Result::Ok(Option::Some(value)),
        CacheResponce::Miss => Result::Ok(Option::None),
        CacheResponce::Error(msg) => Result::Err(msg),
        CacheResponce::Acked => Result::Err(String::from_str("unexpected response")),
    }
}

/// Round trip for lookups: decoding an encoded Get request gives the same
/// key back, for every key whose UTF-8 form fits the length field.
pub proof fn lemma_get_request_roundtrip(key: Seq<char>)
    requires
        encode_utf8(key).len() <= u32::MAX,
    ensures
        spec_decode_command(spec_encode_get_request(encode_utf8(key))) == Result::<
            SpecCommand,
            Seq<char>,
        >::Ok(SpecCommand::Get { key }),
{
    let kb = encode_utf8(key);
    let b = spec_encode_get_request(kb);
    lemma_auto_spec_u32_to_from_le_bytes();
    assert(b.subrange(1, 5) =~= spec_u32_to_le_bytes(kb.len() as u32));
    assert(b.subrange(5, 5 + kb.len() as int) =~= kb);
    encode_utf8_valid_utf8(key);
    encode_utf8_decode_utf8(key);
}

/// Round trip for writes: decoding an encoded Set request gives the same
/// key, value and time-to-live back. A time-to-live of `Some(0)` is left
/// out: the wire writes it as zero, which reads back as `None`.
pub proof fn lemma_set_request_roundtrip(key: Seq<char>, value: Seq<u8>, ttl_secs: Option<u64>)
    requires
        encode_utf8(key).len() <= u32::MAX,
        value.len() <= u32::MAX,
        ttl_secs != Option::Some(0u64),
    ensures
        spec_decode_command(spec_encode_set_request(encode_utf8(key), value, ttl_secs)) == Result::<
            SpecCommand,
            Seq<char>,
        >::Ok(SpecCommand::Put { key, value, ttl_secs }),
{
    let kb = encode_utf8(key);
    let b = spec_encode_set_request(kb, value, ttl_secs);
    lemma_auto_spec_u32_to_from_le_bytes();
    lemma_auto_spec_u64_to_from_le_bytes();
    assert(b.subrange(1, 5) =~= spec_u32_to_le_bytes(kb.len() as u32));
    assert(b.subrange(5, 9) =~= spec_u32_to_le_bytes(value.len() as u32));
    assert(b.subrange(9, 17) =~= spec_u64_to_le_bytes(spec_ttl_raw(ttl_secs)));
    assert(b.subrange(17, 17 + kb.len() as int) =~= kb);
    assert(b.subrange(17 + kb.len() as int, 17 + kb.len() as int + value.len() as int) =~= value);
    encode_utf8_valid_utf8(key);
    encode_utf8_decode_utf8(key);
}

/// Round trip for replies: decoding an encoded response gives the same
/// response back, for payloads that fit the length field.
pub proof fn lemma_response_roundtrip(r: SpecResponse)
    requires
        r matches SpecResponse::Hit(v) ==> v.len() <= u32::MAX,
        r matches SpecResponse::Error(m) ==> encode_utf8(m).len() <= u32::MAX,
    ensures
        spec_decode_response(spec_encode_response(r)) == Result::<SpecResponse, Seq<char>>::Ok(r),
{
    let b = spec_encode_response(r);
    lemma_auto_spec_u32_to_from_le_bytes();
    match r {
        SpecResponse::Acked => {
        },
        SpecResponse::Miss => {
        },
        SpecResponse::Hit(v) => {
            assert(b.subrange(1, 5) =~= spec_u32_to_le_bytes(v.len() as u32));
            assert(b.subrange(5, 5 + v.len() as int) =~= v);
        },
        SpecResponse::Error(m) => {
            let mb = encode_utf8(m);
            assert(b.subrange(1, 5) =~= spec_u32_to_le_bytes(mb.len() as u32));
            assert(b.subrange(5, 5 + mb.len() as int) =~= mb);
            encode_utf8_valid_utf8(m);
            encode_utf8_decode_utf8(m);
        },
    }
}

/// A request whose first byte is no known opcode is rejected, whatever
/// follows it.
pub proof fn lemma_unknown_op_rejected(b: Seq<u8>)
    requires
        b.len() > 0,
        b[0] != OP_GET,
        b[0] != OP_SET,
    ensures
        spec_decode_command(b) == Result::<SpecCommand, Seq<char>>::Err("Unknown op"@),
{
}

/// A Get request cut short — too short for its header, or with a declared
/// key length that reaches past the input — is rejected with the stable
/// length error.
pub proof fn lemma_truncated_get_rejected(b: Seq<u8>)
    requires
        b.len() > 0,
        b[0] == OP_GET,
        b.len() < 5 || b.len() - 5 < spec_u32_from_le_bytes(b.subrange(1, 5)),
    ensures
        spec_decode_command(b) == Result::<SpecCommand, Seq<char>>::Err("Bad key_len"@),
{
}

/// A Set request cut short — too short for its header, or with declared
/// key and value lengths that together reach past the input — is rejected
/// with the stable length error.
pub proof fn lemma_truncated_set_rejected(b: Seq<u8>)
    requires
        b.len() > 0,
        b[0] == OP_SET,
        b.len() < 17 || b.len() - 17 < spec_u32_from_le_bytes(b.subrange(1, 5))
            + spec_u32_from_le_bytes(b.subrange(5, 9)),
    ensures
        spec_decode_command(b) == Result::<SpecCommand, Seq<char>>::Err("Bad lenghts"@),
{
}

/// The encoder adds exactly one code byte, plus a four-byte length for the
/// payload-carrying responses: a Hit frame is `5 + value` bytes, an Error
/// frame `5 + message` bytes, and the bare acknowledgement and miss frames
/// one byte.
pub proof fn lemma_response_frame_size(r: SpecResponse)
    ensures
        r matches SpecResponse::Hit(v) ==> spec_encode_response(r).len() == 1 + 4 + v.len(),
        r matches SpecResponse::Error(m) ==> spec_encode_response(r).len() == 1 + 4 + encode_utf8(
            m,
        ).len(),
        (r is Acked || r is Miss) ==> spec_encode_response(r).len() == 1,
{
    lemma_auto_spec_u32_to_from_le_bytes();
}

} // verus!

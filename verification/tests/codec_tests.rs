use synapse::OP_GET;
use synapse::OP_SET;
use synapse::RES_ERR;
use synapse::RES_HIT;
use synapse::RES_MISS;
use synapse::RES_OK;
use synapse::codec::CacheCommand;
use synapse::codec::CacheResponce;
use synapse::codec::decode_command;
use synapse::codec::decode_response;
use synapse::codec::encode_get;
use synapse::codec::encode_response;
use synapse::codec::encode_set;
use synapse::codec::response_to_lookup;

#[test]
fn decode_command_get_ok() {
    let key = "alpha";
    let mut buf: Vec<u8> = Vec::new();
    buf.push(OP_GET);
    buf.extend_from_slice(&(key.len() as u32).to_le_bytes());
    buf.extend_from_slice(key.as_bytes());

    let cmd = decode_command(&buf).expect("decode get");
    assert!(matches!(cmd, CacheCommand::Get { key: k } if k == key));
}

#[test]
fn decode_command_get_ok_wit_utf_8() {
    let key = "@alpha#1!&";
    let mut buf: Vec<u8> = Vec::new();
    buf.push(OP_GET);
    buf.extend_from_slice(&(key.len() as u32).to_le_bytes());
    buf.extend_from_slice(key.as_bytes());

    let cmd = decode_command(&buf).expect("decode get");
    assert!(matches!(cmd, CacheCommand::Get { key: k } if k == key));
}

#[test]
fn decode_command_set_ok_without_ttl() {
    let key = "k1";
    let value = b"value";
    let mut buf: Vec<u8> = Vec::new();
    buf.push(OP_SET);
    buf.extend_from_slice(&(key.len() as u32).to_le_bytes());
    buf.extend_from_slice(&(value.len() as u32).to_le_bytes());
    buf.extend_from_slice(&0u64.to_le_bytes());
    buf.extend_from_slice(key.as_bytes());
    buf.extend_from_slice(value);

    let cmd = decode_command(&buf).expect("decode set");
    assert!(matches!(
        cmd,
        CacheCommand::Put {
            key: k,
            value: v,
            ttl_secs: None,
        } if k == key && v == value
    ));
}

#[test]
fn decode_command_set_ok_with_ttl() {
    let key = "k2";
    let value = b"payload";
    let ttl = 42_u64;
    let mut buf: Vec<u8> = Vec::new();
    buf.push(OP_SET);
    buf.extend_from_slice(&(key.len() as u32).to_le_bytes());
    buf.extend_from_slice(&(value.len() as u32).to_le_bytes());
    buf.extend_from_slice(&ttl.to_le_bytes());
    buf.extend_from_slice(key.as_bytes());
    buf.extend_from_slice(value);

    let cmd = decode_command(&buf).expect("decode set ttl");
    assert!(matches!(
        cmd,
        CacheCommand::Put {
            key: k,
            value: v,
            ttl_secs: Some(t),
        } if k == key && v == value && t == ttl
    ));
}

#[test]
fn decode_command_empty_buf() {
    let err = decode_command(&[]).expect_err("empty buf should error");
    assert_eq!(err, "Buf is empty");
}

#[test]
fn decode_command_bad_key_len() {
    let mut buf: Vec<u8> = Vec::new();
    buf.push(OP_GET);
    buf.extend_from_slice(&10u32.to_le_bytes());
    buf.extend_from_slice(b"abc");

    let err = decode_command(&buf).expect_err("bad key_len should error");
    assert_eq!(err, "Bad key_len");
}

#[test]
fn decode_command_bad_lengths() {
    let mut buf: Vec<u8> = Vec::new();
    buf.push(OP_SET);
    buf.extend_from_slice(&1u32.to_le_bytes());
    buf.extend_from_slice(&5u32.to_le_bytes());
    buf.extend_from_slice(&0u64.to_le_bytes());
    buf.extend_from_slice(b"k");
    buf.extend_from_slice(b"v");

    let err = decode_command(&buf).expect_err("bad lengths should error");
    assert_eq!(err, "Bad lenghts");
}

#[test]
fn decode_command_unknown_op() {
    let buf = [0xFF];
    let err = decode_command(&buf).expect_err("unknown op should error");
    assert_eq!(err, "Unknown op");
}

#[test]
fn encode_response_ok() {
    let out = encode_response(CacheResponce::Acked);
    assert_eq!(out.as_slice(), &[RES_OK]);
}

#[test]
fn encode_response_miss() {
    let out = encode_response(CacheResponce::Miss);
    assert_eq!(out.as_slice(), &[RES_MISS]);
}

#[test]
fn encode_response_hit() {
    let val = b"data".to_vec();
    let out = encode_response(CacheResponce::Hit(val.clone()));

    let mut expected: Vec<u8> = Vec::new();
    expected.push(RES_HIT);
    expected.extend_from_slice(&(val.len() as u32).to_le_bytes());
    expected.extend_from_slice(&val);

    assert_eq!(out, expected);
}

#[test]
fn encode_response_error() {
    let msg = "oops";
    let out = encode_response(CacheResponce::Error(msg.into()));

    let mut expected: Vec<u8> = Vec::new();
    expected.push(RES_ERR);
    expected.extend_from_slice(&(msg.len() as u32).to_le_bytes());
    expected.extend_from_slice(msg.as_bytes());

    assert_eq!(out, expected);
}

#[test]
fn decode_command_multibyte_key() {
    let key = "héllo–キー";
    let mut buf: Vec<u8> = Vec::new();
    buf.push(OP_GET);
    buf.extend_from_slice(&(key.len() as u32).to_le_bytes());
    buf.extend_from_slice(key.as_bytes());

    let cmd = decode_command(&buf).expect("decode multibyte get");
    assert!(matches!(cmd, CacheCommand::Get { key: k } if k == key));
}

#[test]
fn decode_command_bad_key_utf8() {
    let mut buf: Vec<u8> = Vec::new();
    buf.push(OP_GET);
    buf.extend_from_slice(&2u32.to_le_bytes());
    buf.extend_from_slice(&[0xFF, 0xFE]);

    let err = decode_command(&buf).expect_err("invalid utf-8 key should error");
    assert!(err.starts_with("Bad key utf-8: "), "unexpected error: {}", err);
}

#[test]
fn decode_command_ignores_trailing_bytes() {
    let key = "alpha";
    let mut buf: Vec<u8> = Vec::new();
    buf.push(OP_GET);
    buf.extend_from_slice(&(key.len() as u32).to_le_bytes());
    buf.extend_from_slice(key.as_bytes());
    buf.extend_from_slice(b"trailing");

    let cmd = decode_command(&buf).expect("decode get with trailing bytes");
    assert!(matches!(cmd, CacheCommand::Get { key: k } if k == key));
}

#[test]
fn decode_command_set_zero_ttl_means_none() {
    let out = encode_set("k", b"v", Some(0));
    let cmd = decode_command(&out).expect("decode set with zero ttl");
    assert!(matches!(cmd, CacheCommand::Put { ttl_secs: None, .. }));
}

#[test]
fn encode_get_layout() {
    let out = encode_get("ab");
    assert_eq!(out, vec![OP_GET, 2, 0, 0, 0, b'a', b'b']);
}

#[test]
fn encode_set_layout() {
    let out = encode_set("ab", b"xyz", Some(7));
    let mut expected: Vec<u8> = vec![OP_SET, 2, 0, 0, 0, 3, 0, 0, 0];
    expected.extend_from_slice(&7u64.to_le_bytes());
    expected.extend_from_slice(b"abxyz");
    assert_eq!(out, expected);
}

#[test]
fn request_roundtrip_through_decoder() {
    let get = decode_command(&encode_get("alpha")).expect("get roundtrip");
    assert!(matches!(get, CacheCommand::Get { key } if key == "alpha"));

    let set = decode_command(&encode_set("alpha", b"v1", Some(9))).expect("set roundtrip");
    assert!(matches!(
        set,
        CacheCommand::Put { key, value, ttl_secs: Some(9) } if key == "alpha" && value == b"v1"
    ));
}

#[test]
fn response_roundtrip_through_decoder() {
    assert!(matches!(
        decode_response(&encode_response(CacheResponce::Acked)),
        Ok(CacheResponce::Acked)
    ));
    assert!(matches!(
        decode_response(&encode_response(CacheResponce::Miss)),
        Ok(CacheResponce::Miss)
    ));
    assert!(matches!(
        decode_response(&encode_response(CacheResponce::Hit(b"data".to_vec()))),
        Ok(CacheResponce::Hit(v)) if v == b"data"
    ));
    assert!(matches!(
        decode_response(&encode_response(CacheResponce::Error("oops".into()))),
        Ok(CacheResponce::Error(m)) if m == "oops"
    ));
}

#[test]
fn decode_response_unknown_result() {
    let err = decode_response(&[9]).expect_err("unknown result code should error");
    assert_eq!(err, "Unknown result");
}

#[test]
fn decode_response_truncated() {
    assert_eq!(decode_response(&[]).expect_err("empty response"), "Bad length");
    assert_eq!(
        decode_response(&[RES_HIT, 4, 0]).expect_err("short hit header"),
        "Bad length"
    );
    assert_eq!(
        decode_response(&[RES_HIT, 4, 0, 0, 0, b'x']).expect_err("short hit body"),
        "Bad length"
    );
}

#[test]
fn decode_response_bad_error_utf8() {
    let buf = [RES_ERR, 2, 0, 0, 0, 0xFF, 0xFE];
    let err = decode_response(&buf).expect_err("invalid utf-8 message should error");
    assert_eq!(err, "Bad err utf-8");
}

#[test]
fn response_to_lookup_cases() {
    assert_eq!(
        response_to_lookup(CacheResponce::Hit(b"v".to_vec())).unwrap(),
        Some(b"v".to_vec())
    );
    assert_eq!(response_to_lookup(CacheResponce::Miss).unwrap(), None);
    assert_eq!(
        response_to_lookup(CacheResponce::Error("boom".into())).unwrap_err(),
        "boom"
    );
    assert_eq!(
        response_to_lookup(CacheResponce::Acked).unwrap_err(),
        "unexpected response"
    );
}

#[test]
fn decode_command_truncated_get_header() {
    let err = decode_command(&[OP_GET, 1]).expect_err("short get header should error");
    assert_eq!(err, "Bad key_len");
}

#[test]
fn decode_command_truncated_set_header() {
    let err = decode_command(&[OP_SET, 1, 0, 0]).expect_err("short set header should error");
    assert_eq!(err, "Bad lenghts");
}

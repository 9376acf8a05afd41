use cexec::codec::{decode, encode};
use cexec::config::Config;
use cexec::message::{build_peer_id_record, build_wasm_exec_req, verify_message, Message};
use cexec::sig::Identity;

fn nop(payload: &[u8]) -> Message {
    Message::NOP { payload: payload.to_vec() }
}

fn test_config() -> Config {
    let key = pgp::composed::SecretKeyParamsBuilder::default()
        .key_type(pgp::composed::KeyType::Ed25519)
        .can_sign(true)
        .primary_user_id("node <node@localhost>".to_string())
        .build()
        .expect("key params")
        .generate(rand::thread_rng())
        .expect("key generation");
    Config {
        name: b"node-A".to_vec(),
        description: b"test".to_vec(),
        identity_key: Identity::from_key(key),
        pid_broadcast_frequency_secs: 300,
        untrusted_max_cycles: 1222111,
        trusted_max_cycles: 999000111,
    }
}

fn push_blob(wire: &mut Vec<u8>, b: &[u8]) {
    wire.extend_from_slice(&(b.len() as u32).to_be_bytes());
    wire.extend_from_slice(b);
}

#[test]
fn round_trip_nop() {
    let m = nop(b"heartbeat");
    let wire = encode(&m);
    assert_eq!(wire[0], 0x00);
    let back = decode(&wire).expect("decodes");
    match back {
        Message::NOP { payload } => assert_eq!(payload, b"heartbeat".to_vec()),
        _ => panic!("wrong variant"),
    }
    assert!(verify_message(&m));
}

#[test]
fn decode_rejects_trailing_bytes() {
    let m = nop(b"x");
    let mut wire = encode(&m);
    wire.push(0u8);
    assert!(decode(&wire).is_none());
}

#[test]
fn decode_rejects_unknown_tag() {
    assert!(decode(&[0x7f, 0, 0, 0, 0]).is_none());
}

#[test]
fn decode_rejects_truncated_field() {
    let m = nop(b"abcdef");
    let mut wire = encode(&m);
    wire.pop();
    assert!(decode(&wire).is_none());
}

#[test]
fn round_trip_peer_id_record_preserves_validity() {
    let c = test_config();
    let m = build_peer_id_record(&c);
    assert!(verify_message(&m));
    let wire = encode(&m);
    assert_eq!(wire[0], 0x01);
    let back = decode(&wire).expect("decodes");
    assert!(verify_message(&back));
    match (m, back) {
        (
            Message::PEER_ID_REC { pub_key, name, name_sig, description, description_sig },
            Message::PEER_ID_REC {
                pub_key: pub_key2,
                name: name2,
                name_sig: name_sig2,
                description: description2,
                description_sig: description_sig2,
            },
        ) => {
            assert_eq!(pub_key, pub_key2);
            assert_eq!(name, name2);
            assert_eq!(name_sig, name_sig2);
            assert_eq!(description, description2);
            assert_eq!(description_sig, description_sig2);
        },
        _ => panic!("wrong variant"),
    }
}

#[test]
fn round_trip_exec_request() {
    let c = test_config();
    let args = vec![b"a".to_vec(), b"bc".to_vec(), Vec::new()];
    let m = build_wasm_exec_req(&c, b"\0asm\x01\0\0\0", args.clone(), b"req-42");
    assert!(verify_message(&m));
    let wire = encode(&m);
    assert_eq!(wire[0], 0x02);
    let back = decode(&wire).expect("decodes");
    assert!(verify_message(&back));
    match back {
        Message::WASM_EXEC_REQUEST { wasm_binary, arguments, exec_req_id, .. } => {
            assert_eq!(wasm_binary, b"\0asm\x01\0\0\0".to_vec());
            assert_eq!(arguments, args);
            assert_eq!(exec_req_id, b"req-42".to_vec());
        },
        _ => panic!("wrong variant"),
    }
}

#[test]
fn round_trip_invalid_message_stays_invalid() {
    // A record whose name signature is garbage: verification fails on both
    // sides of the round trip.
    let m = Message::PEER_ID_REC {
        pub_key: b"not a key".to_vec(),
        name: b"node-A".to_vec(),
        name_sig: b"bm90IGEgc2ln".to_vec(),
        description: b"d".to_vec(),
        description_sig: b"".to_vec(),
    };
    assert!(!verify_message(&m));
    let wire = encode(&m);
    let back = decode(&wire).expect("decodes");
    assert!(!verify_message(&back));
}

#[test]
fn oversized_exec_req_id_is_rejected_at_decode() {
    // A hand-built WASM_EXEC_REQUEST whose exec_req_id is 300 bytes long.
    let mut wire: Vec<u8> = vec![0x02];
    push_blob(&mut wire, b"key bytes");
    push_blob(&mut wire, b"\0asm\x01\0\0\0");
    push_blob(&mut wire, b"binsig");
    wire.extend_from_slice(&0u32.to_be_bytes()); // empty argument list
    push_blob(&mut wire, b"argsig");
    push_blob(&mut wire, &[b'x'; 300]);
    push_blob(&mut wire, b"idsig");
    assert!(decode(&wire).is_none());

    // The same framing with a 255-byte id decodes.
    let mut wire: Vec<u8> = vec![0x02];
    push_blob(&mut wire, b"key bytes");
    push_blob(&mut wire, b"\0asm\x01\0\0\0");
    push_blob(&mut wire, b"binsig");
    wire.extend_from_slice(&0u32.to_be_bytes());
    push_blob(&mut wire, b"argsig");
    push_blob(&mut wire, &[b'x'; 255]);
    push_blob(&mut wire, b"idsig");
    assert!(decode(&wire).is_some());
}

#[test]
fn oversized_name_is_rejected_at_decode() {
    let mut wire: Vec<u8> = vec![0x01];
    push_blob(&mut wire, b"key bytes");
    push_blob(&mut wire, &[b'n'; 256]);
    push_blob(&mut wire, b"namesig");
    push_blob(&mut wire, b"desc");
    push_blob(&mut wire, b"descsig");
    assert!(decode(&wire).is_none());
}

#[test]
fn round_trip_exec_result() {
    let c = test_config();
    let m = cexec::message::build_wasm_exec_result(&c.identity_key, b"out".to_vec(), b"req-9");
    assert!(verify_message(&m));
    let wire = encode(&m);
    assert_eq!(wire[0], 0x03);
    let back = decode(&wire).expect("decodes");
    assert!(verify_message(&back));
    match back {
        Message::WASM_EXEC_RESULT { wasm_stdout, exec_req_id, .. } => {
            assert_eq!(wasm_stdout, b"out".to_vec());
            assert_eq!(exec_req_id, b"req-9".to_vec());
        },
        _ => panic!("wrong variant"),
    }
}

#[test]
fn round_trip_empty_payload_and_empty_arguments() {
    let back = decode(&encode(&nop(b""))).expect("decodes");
    match back {
        Message::NOP { payload } => assert!(payload.is_empty()),
        _ => panic!("wrong variant"),
    }

    let c = test_config();
    let m = build_wasm_exec_req(&c, b"", Vec::new(), b"");
    let back = decode(&encode(&m)).expect("decodes");
    match back {
        Message::WASM_EXEC_REQUEST { wasm_binary, arguments, exec_req_id, .. } => {
            assert!(wasm_binary.is_empty());
            assert!(arguments.is_empty());
            assert!(exec_req_id.is_empty());
        },
        _ => panic!("wrong variant"),
    }
}

#[test]
fn empty_input_does_not_decode() {
    assert!(decode(&[]).is_none());
}

#[test]
fn wire_bytes_are_tag_then_big_endian_length_prefixes() {
    let wire = encode(&nop(&[0xAB, 0xCD]));
    assert_eq!(wire, vec![0x00, 0, 0, 0, 2, 0xAB, 0xCD]);
}

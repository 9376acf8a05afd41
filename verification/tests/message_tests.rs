use cexec::config::Config;
use cexec::exec::{run_wasm, Outcome};
use cexec::message::{
    build_peer_id_record, build_wasm_exec_req, build_wasm_exec_result, verify_message, Message,
};
use cexec::sig::{check_sig, sign, Identity};

fn test_identity() -> Identity {
    let key = pgp::composed::SecretKeyParamsBuilder::default()
        .key_type(pgp::composed::KeyType::Ed25519)
        .can_sign(true)
        .primary_user_id("node <node@localhost>".to_string())
        .build()
        .expect("key params")
        .generate(rand::thread_rng())
        .expect("key generation");
    Identity::from_key(key)
}

fn test_config(name: &[u8], description: &[u8]) -> Config {
    Config {
        name: name.to_vec(),
        description: description.to_vec(),
        identity_key: test_identity(),
        pid_broadcast_frequency_secs: 300,
        untrusted_max_cycles: 1222111,
        trusted_max_cycles: 999000111,
    }
}

const TEST_WAT: &str = r#"
    (module
     (import "env" "printf" (func $printf (param i32 i32) (result i32)))
     (table 0 funcref)
     (memory $0 1)
     (data (i32.const 16) "Hello, %d args.\n\00")
     (export "memory" (memory $0))
     (export "main" (func $main))
     (func $main (param $0 i32) (param $1 i32) (result i32)
      (local $2 i32)
      (i32.store offset=4
       (i32.const 0)
       (local.tee $2
        (i32.sub
         (i32.load offset=4
          (i32.const 0)
         )
         (i32.const 16)
        )
       )
      )
      (local.set $2
       (local.get $0)
      )
      (drop
       (call $printf
        (i32.const 16)
        (local.get $2)
       )
      )
      (i32.store offset=4
       (i32.const 0)
       (i32.add
        (local.get $2)
        (i32.const 16)
       )
      )
      (i32.add
       (local.get $0)
       (i32.const 1)
      )
     )
    )
  "#;

#[test]
fn test_message_peer_id_record() {
    let c = test_config(b"host", b"");
    let m = build_peer_id_record(&c);

    assert!(matches!(m, Message::PEER_ID_REC { .. }));

    match m {
        Message::PEER_ID_REC { pub_key, name, name_sig, description, description_sig } => {
            assert!(check_sig(&pub_key, &name, &name_sig));
            assert!(check_sig(&pub_key, &description, &description_sig));
        },
        _unk => panic!(),
    }
}

#[test]
fn test_message_wasm_exec_req() {
    let c = test_config(b"host", b"");

    let m = build_wasm_exec_req(&c, TEST_WAT.as_bytes(), vec![], b"abcd1234");

    assert!(matches!(m, Message::WASM_EXEC_REQUEST { .. }));

    match m {
        Message::WASM_EXEC_REQUEST {
            pub_key,
            wasm_binary,
            wasm_binary_sig,
            arguments,
            arguments_sig,
            exec_req_id,
            exec_req_id_sig,
        } => {
            assert!(check_sig(&pub_key, &wasm_binary, &wasm_binary_sig));
            assert!(check_sig(&pub_key, &exec_req_id, &exec_req_id_sig));
            let joined: Vec<u8> = arguments.concat();
            assert!(check_sig(&pub_key, &joined, &arguments_sig));

            {
                // A normal run completes within the untrusted budget.
                let (outcome, _stdout) = run_wasm(c.untrusted_max_cycles, &wasm_binary, &arguments);
                assert!(matches!(outcome, Outcome::Completed { .. }));
            }

            {
                // Limited to 3 instructions the same module is cut off.
                let (outcome, _stdout) = run_wasm(3, &wasm_binary, &arguments);
                assert!(matches!(outcome, Outcome::BudgetExceeded));
            }
        },
        _unk => panic!(),
    }
}

#[test]
fn signature_verifies_under_matching_key() {
    let id = test_identity();
    let payload = b"for all byte payloads";
    let sig = sign(&id, payload);
    assert!(!sig.is_empty());
    assert!(check_sig(id.public_key(), payload, &sig));
}

#[test]
fn signature_fails_under_mutated_payload() {
    let id = test_identity();
    let payload = b"tamper with me".to_vec();
    let sig = sign(&id, &payload);
    assert!(!sig.is_empty());
    for i in 0..payload.len() {
        let mut mutated = payload.clone();
        mutated[i] ^= 0x01;
        assert!(!check_sig(id.public_key(), &mutated, &sig));
    }
}

#[test]
fn signature_fails_under_other_key() {
    let id = test_identity();
    let other = test_identity();
    let payload = b"bound to one identity";
    let sig = sign(&id, payload);
    assert!(!check_sig(other.public_key(), payload, &sig));
}

#[test]
fn empty_signature_never_verifies() {
    let id = test_identity();
    assert!(!check_sig(id.public_key(), b"anything", b""));
}

#[test]
fn peer_id_record_verifies_and_mutation_breaks_it() {
    let c = test_config(b"node-A", b"test");
    let m = build_peer_id_record(&c);
    assert!(verify_message(&m));

    match m {
        Message::PEER_ID_REC { pub_key, name: _, name_sig, description, description_sig } => {
            let tampered = Message::PEER_ID_REC {
                pub_key,
                name: b"node-B".to_vec(),
                name_sig,
                description,
                description_sig,
            };
            assert!(!verify_message(&tampered));
        },
        _ => panic!(),
    }
}

#[test]
fn oversized_name_fails_verification() {
    let c = test_config(&[b'a'; 300], b"test");
    let m = build_peer_id_record(&c);
    assert!(!verify_message(&m));
}

#[test]
fn exec_result_echoes_request_id_with_fresh_signature() {
    let id = test_identity();
    let m = build_wasm_exec_result(&id, b"output bytes".to_vec(), b"req-7");
    assert!(verify_message(&m));
    match m {
        Message::WASM_EXEC_RESULT { exec_req_id, wasm_stdout, .. } => {
            assert_eq!(exec_req_id, b"req-7".to_vec());
            assert_eq!(wasm_stdout, b"output bytes".to_vec());
        },
        _ => panic!(),
    }
}

#[test]
fn request_arguments_signed_over_concatenation() {
    let c = test_config(b"host", b"");
    let args = vec![b"ab".to_vec(), b"cd".to_vec()];
    let m = build_wasm_exec_req(&c, b"\0asm", args, b"id-1");
    assert!(verify_message(&m));
    match m {
        Message::WASM_EXEC_REQUEST { pub_key, arguments_sig, .. } => {
            // The signature covers the concatenation, not the elements.
            assert!(check_sig(&pub_key, b"abcd", &arguments_sig));
            assert!(!check_sig(&pub_key, b"ab", &arguments_sig));
        },
        _ => panic!(),
    }
}

#[test]
fn generated_identity_is_signing_capable() {
    let id = test_identity();
    assert!(id.is_signing_capable());
    assert!(!sign(&id, b"payload").is_empty());
}

use cexec::config::Config;
use cexec::message::{build_wasm_exec_req, verify_message, Message};
use cexec::policy::{handle_request, select_budget};
use cexec::sig::{check_sig, Identity};

fn test_identity() -> Identity {
    let key = pgp::composed::SecretKeyParamsBuilder::default()
        .key_type(pgp::composed::KeyType::Ed25519)
        .can_sign(true)
        .primary_user_id("node <node@localhost>".to_string())
        .build()
        .expect("key params")
        .generate(rand::thread_rng())
        .expect("key generation");
    Identity::from_key(key)
}

fn test_config() -> Config {
    Config {
        name: b"executor".to_vec(),
        description: b"runs modules".to_vec(),
        identity_key: test_identity(),
        pid_broadcast_frequency_secs: 300,
        untrusted_max_cycles: 1222111,
        trusted_max_cycles: 999000111,
    }
}

const PRINTF_WAT: &str = r#"
    (module
     (import "env" "printf" (func $printf (param i32 i32) (result i32)))
     (export "main" (func $main))
     (func $main (param $0 i32) (param $1 i32) (result i32)
      (drop (call $printf (i32.const 7) (i32.const 9)))
      (i32.const 0)
     )
    )
  "#;

#[test]
fn budget_follows_classification() {
    let c = test_config();
    assert_eq!(select_budget(&c, false), 1222111);
    assert_eq!(select_budget(&c, true), 999000111);
}

#[test]
fn verified_request_yields_signed_result() {
    let executor = test_config();
    let requester = test_config();

    let req = build_wasm_exec_req(&requester, PRINTF_WAT.as_bytes(), vec![], b"req-1");
    let res = handle_request(&executor, false, &req).expect("request is verifiable");

    assert!(verify_message(&res));
    match res {
        Message::WASM_EXEC_RESULT {
            pub_key,
            wasm_stdout,
            wasm_stdout_sig,
            exec_req_id,
            exec_req_id_sig,
        } => {
            // Signed by the executor, not the requester.
            assert_eq!(&pub_key, executor.identity_key.public_key());
            assert_eq!(exec_req_id, b"req-1".to_vec());
            assert_eq!(wasm_stdout, b"printf(7, 9)\n".to_vec());
            assert!(check_sig(&pub_key, &wasm_stdout, &wasm_stdout_sig));
            assert!(check_sig(&pub_key, &exec_req_id, &exec_req_id_sig));
        },
        _ => panic!("expected a result message"),
    }
}

#[test]
fn tampered_request_is_never_executed() {
    let executor = test_config();
    let requester = test_config();

    let req = build_wasm_exec_req(&requester, PRINTF_WAT.as_bytes(), vec![], b"req-2");
    match req {
        Message::WASM_EXEC_REQUEST {
            pub_key,
            wasm_binary: _,
            wasm_binary_sig,
            arguments,
            arguments_sig,
            exec_req_id,
            exec_req_id_sig,
        } => {
            // Swap in a different module without re-signing.
            let forged = Message::WASM_EXEC_REQUEST {
                pub_key,
                wasm_binary: b"(module)".to_vec(),
                wasm_binary_sig,
                arguments,
                arguments_sig,
                exec_req_id,
                exec_req_id_sig,
            };
            assert!(!verify_message(&forged));
            assert!(handle_request(&executor, true, &forged).is_none());
        },
        _ => panic!(),
    }
}

#[test]
fn non_request_messages_are_rejected() {
    let executor = test_config();
    let rec = cexec::message::build_peer_id_record(&executor);
    assert!(handle_request(&executor, true, &rec).is_none());
    let nop = Message::NOP { payload: b"hi".to_vec() };
    assert!(handle_request(&executor, false, &nop).is_none());
}

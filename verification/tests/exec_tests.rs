use cexec::exec::{run_wasm, Outcome, TrapReason, MEMORY_CAP_BYTES};

const PRINTF_WAT: &str = r#"
    (module
     (import "env" "printf" (func $printf (param i32 i32) (result i32)))
     (export "main" (func $main))
     (func $main (param $0 i32) (param $1 i32) (result i32)
      (drop (call $printf (i32.const 7) (i32.const 9)))
      (i32.const 0)
     )
    )
  "#;

const ADD_WAT: &str = r#"
    (module
     (export "main" (func $main))
     (func $main (param $0 i32) (param $1 i32) (result i32)
      (i32.add (local.get $0) (i32.const 41))
     )
    )
  "#;

const UNKNOWN_IMPORT_WAT: &str = r#"
    (module
     (import "env" "unknown_fn" (func $u (param i32) (result i32)))
     (export "main" (func $main))
     (func $main (param $0 i32) (param $1 i32) (result i32)
      (i32.const 0)
     )
    )
  "#;

const BIG_MEMORY_WAT: &str = r#"
    (module
     (memory 100)
     (export "main" (func $main))
     (func $main (param $0 i32) (param $1 i32) (result i32)
      (i32.const 0)
     )
    )
  "#;

#[test]
fn budget_cuts_off_and_larger_budget_completes() {
    let wasm = PRINTF_WAT.as_bytes();
    let (outcome, _) = run_wasm(3, wasm, &vec![]);
    assert!(matches!(outcome, Outcome::BudgetExceeded));
    let (outcome, _) = run_wasm(1222111, wasm, &vec![]);
    assert!(matches!(outcome, Outcome::Completed { .. }));
}

#[test]
fn unknown_import_fails_instantiation_regardless_of_budget() {
    let wasm = UNKNOWN_IMPORT_WAT.as_bytes();
    for budget in [3u64, 999000111u64] {
        let (outcome, _) = run_wasm(budget, wasm, &vec![]);
        match outcome {
            Outcome::Trapped { reason: TrapReason::UnknownImport { module, field } } => {
                assert_eq!(module, "env");
                assert_eq!(field, "unknown_fn");
            },
            _ => panic!("expected an unknown-import failure"),
        }
    }
}

#[test]
fn oversized_memory_fails_instantiation() {
    // 100 pages is far over the 24-page cap.
    assert_eq!(MEMORY_CAP_BYTES, 24 * 65536);
    let (outcome, _) = run_wasm(1222111, BIG_MEMORY_WAT.as_bytes(), &vec![]);
    assert!(matches!(
        outcome,
        Outcome::Trapped { reason: TrapReason::MemoryLimitExceeded }
    ));
}

#[test]
fn malformed_module_is_rejected() {
    let (outcome, _) = run_wasm(1222111, b"neither text nor binary", &vec![]);
    assert!(matches!(outcome, Outcome::Trapped { reason: TrapReason::InvalidModule }));
}

#[test]
fn completed_run_returns_exit_code() {
    let args = vec![b"one".to_vec()];
    let (outcome, _) = run_wasm(1222111, ADD_WAT.as_bytes(), &args);
    match outcome {
        Outcome::Completed { exit_code } => assert_eq!(exit_code, 42),
        _ => panic!("expected completion"),
    }
}

#[test]
fn capability_output_is_captured_per_invocation() {
    let (outcome, stdout) = run_wasm(1222111, PRINTF_WAT.as_bytes(), &vec![]);
    assert!(matches!(outcome, Outcome::Completed { .. }));
    assert_eq!(stdout, b"printf(7, 9)\n".to_vec());
}

#[test]
fn binary_module_is_accepted_as_is() {
    let binary = wat::parse_str(ADD_WAT).expect("translates");
    let (outcome, _) = run_wasm(1222111, &binary, &vec![]);
    assert!(matches!(outcome, Outcome::Completed { exit_code: 41 }));
}

const WRONG_TYPE_IMPORT_WAT: &str = r#"
    (module
     (import "env" "printf" (func $printf (param i32) (result i32)))
     (export "main" (func $main))
     (func $main (param $0 i32) (param $1 i32) (result i32)
      (i32.const 0)
     )
    )
  "#;

#[test]
fn wrong_typed_import_is_outside_the_capability_table() {
    let (outcome, _) = run_wasm(1222111, WRONG_TYPE_IMPORT_WAT.as_bytes(), &vec![]);
    match outcome {
        Outcome::Trapped { reason: TrapReason::UnknownImport { module, field } } => {
            assert_eq!(module, "env");
            assert_eq!(field, "printf");
        },
        _ => panic!("expected an unknown-import failure"),
    }
}

use farce_sandbox::outcome::{respond, SandboxError};
use farce_sandbox::problem::Function;
use farce_sandbox::call::{param_args, plan_call, FUEL_BUDGET, PARAM_OFFSET};
use farce_sandbox::vm::run_wasm;

const COUNTER_GUEST: &str = r#"
(module
  (memory (export "memory") 1)
  (data (i32.const 100) "{\"count\":95,\"last\":499}")
  (data (i32.const 16) "\64\00\00\00\17\00\00\00")
  (func (export "run") (result i32) i32.const 16))
"#;

const CUSTOM_GUEST: &str = r#"
(module
  (memory (export "memory") 1)
  (data (i32.const 64) "{\"text\":\"hi\",\"number\":1,\"list\":[]}")
  (data (i32.const 8) "\40\00\00\00\22\00\00\00")
  (func (export "run") (result i32) i32.const 8))
"#;

const BAD_JSON_GUEST: &str = r#"
(module
  (memory (export "memory") 1)
  (data (i32.const 100) "{\"a\":")
  (data (i32.const 16) "\64\00\00\00\05\00\00\00")
  (func (export "run") (result i32) i32.const 16))
"#;

const LOOPING_GUEST: &str = r#"
(module
  (memory (export "memory") 1)
  (func (export "run") (result i32)
    (loop $spin (br $spin))
    i32.const 0))
"#;

const ECHO_GUEST: &str = r#"
(module
  (memory (export "memory") 1)
  (func (export "run") (param $p i32) (param $n i32) (result i32)
    (i32.store (i32.const 1024) (local.get $p))
    (i32.store (i32.const 1028) (local.get $n))
    i32.const 1024))
"#;

const PRINTING_GUEST: &str = r#"
(module
  (import "wasi_snapshot_preview1" "fd_write"
    (func $fd_write (param i32 i32 i32 i32) (result i32)))
  (memory (export "memory") 1)
  (data (i32.const 300) "hi\n")
  (data (i32.const 200) "\2c\01\00\00\03\00\00\00")
  (data (i32.const 100) "null")
  (data (i32.const 16) "\64\00\00\00\04\00\00\00")
  (func (export "run") (result i32)
    (drop (call $fd_write (i32.const 1) (i32.const 200) (i32.const 1) (i32.const 400)))
    i32.const 16))
"#;

const NO_MEMORY_GUEST: &str = r#"
(module
  (func (export "run") (result i32) i32.const 0))
"#;

const BAD_RECORD_GUEST: &str = r#"
(module
  (memory (export "memory") 1)
  (func (export "run") (result i32) i32.const 65535))
"#;

fn json(text: &str) -> serde_json::Value {
    serde_json::from_str(text).unwrap()
}

#[test]
fn nullary_guest_result_is_parsed() {
    let r = run_wasm(COUNTER_GUEST.as_bytes(), Function::Prime, &None, &[]).unwrap();
    assert_eq!(r.out, Some(json(r#"{"count":95,"last":499}"#)));
    assert_eq!(r.log, Some(String::new()));
}

#[test]
fn structured_result_matches_serialized_text() {
    let r = run_wasm(CUSTOM_GUEST.as_bytes(), Function::Arbitrary, &None, &[]).unwrap();
    let out = r.out.unwrap();
    assert_eq!(out, json(r#"{"text":"hi","number":1,"list":[]}"#));
    assert_eq!(out["text"], serde_json::Value::String(String::from("hi")));
    assert_eq!(out["list"].as_array().map(|l| l.len()), Some(0));
}

#[test]
fn endless_guest_runs_out_of_fuel() {
    let r = run_wasm(LOOPING_GUEST.as_bytes(), Function::Arbitrary, &None, &[]);
    assert!(matches!(r, Err(SandboxError::OutOfFuel)));
    let response = respond(r);
    assert_eq!(
        response.log,
        Some(String::from("Instruction maximum exceeded. Aborted execution to avoid DOS."))
    );
    assert!(response.out.is_none());
}

#[test]
fn parameter_is_written_at_offset_zero() {
    let param = Some(String::from("[1,2,3]"));
    let r = run_wasm(ECHO_GUEST.as_bytes(), Function::Param, &param, &[]).unwrap();
    assert_eq!(r.out, Some(json("[1,2,3]")));
}

#[test]
fn parameterised_problem_without_parameter() {
    let r = run_wasm(ECHO_GUEST.as_bytes(), Function::Param, &None, &[]);
    assert!(matches!(r, Err(SandboxError::MissingParameter)));
    let log = respond(r).log.unwrap();
    assert!(log.contains("Param function called without passing a parameter."));
}

#[test]
fn guest_output_suppresses_log() {
    let r = run_wasm(PRINTING_GUEST.as_bytes(), Function::Arbitrary, &None, &[]).unwrap();
    assert_eq!(r.log, None);
    assert_eq!(r.out, Some(serde_json::Value::Null));
}

#[test]
fn module_without_memory_fails_to_load() {
    let r = run_wasm(NO_MEMORY_GUEST.as_bytes(), Function::Prime, &None, &[]);
    assert!(matches!(r, Err(SandboxError::ModuleLoad(_))));
}

#[test]
fn garbage_module_fails_to_load() {
    let r = run_wasm(&[0u8, 1, 2, 3], Function::Decode, &None, &[]);
    assert!(matches!(r, Err(SandboxError::ModuleLoad(_))));
}

#[test]
fn wrong_entry_signature_fails_to_load() {
    let r = run_wasm(COUNTER_GUEST.as_bytes(), Function::Param, &Some(String::from("x")), &[]);
    assert!(matches!(r, Err(SandboxError::ModuleLoad(_))));
}

#[test]
fn record_outside_memory_is_a_decode_error() {
    let r = run_wasm(BAD_RECORD_GUEST.as_bytes(), Function::Arbitrary, &None, &[]);
    match r {
        Err(SandboxError::ResultDecode(m)) => assert_eq!(m, "result record out of memory bounds"),
        _ => panic!("expected a decode error"),
    }
}

#[test]
fn param_args_place_parameter() {
    assert_eq!(param_args(&Some(String::from("aab"))), Ok((0, 3)));
    assert_eq!(param_args(&Some(String::from("é"))), Ok((0, 2)));
    assert_eq!(param_args(&None), Err(SandboxError::MissingParameter));
    assert_eq!(PARAM_OFFSET, 0);
    assert_eq!(FUEL_BUDGET, 500_000);
}

#[test]
fn call_plan_follows_problem() {
    let plan = plan_call(Function::Param, &Some(String::from("aab"))).unwrap();
    assert_eq!(plan.fuel(), 500_000);
    assert_eq!(plan.args(), Some((0, 3)));
    assert_eq!(plan.write(), Some((0, "aab".as_bytes())));
    let plan = plan_call(Function::Prime, &Some(String::from("ignored"))).unwrap();
    assert_eq!(plan.fuel(), FUEL_BUDGET);
    assert_eq!(plan.args(), None);
    assert_eq!(plan.write(), None);
    assert!(matches!(plan_call(Function::Param, &None), Err(SandboxError::MissingParameter)));
}

#[test]
fn guest_receives_arguments() {
    let args = vec![String::from("server"), String::from("x")];
    let r = run_wasm(COUNTER_GUEST.as_bytes(), Function::Prime, &None, &args).unwrap();
    assert_eq!(r.out, Some(json(r#"{"count":95,"last":499}"#)));
}

#[test]
fn invalid_json_is_reported_the_same_each_run() {
    let first = run_wasm(BAD_JSON_GUEST.as_bytes(), Function::Arbitrary, &None, &[]);
    let second = run_wasm(BAD_JSON_GUEST.as_bytes(), Function::Arbitrary, &None, &[]);
    let expected = serde_json::from_str::<serde_json::Value>("{\"a\":").unwrap_err().to_string();
    match (first, second) {
        (Err(SandboxError::ResultDecode(a)), Err(SandboxError::ResultDecode(b))) => {
            assert_eq!(a, expected);
            assert_eq!(a, b);
        }
        _ => panic!("expected decode errors"),
    }
}

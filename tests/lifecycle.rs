use wasm_executor::host::SharedState;
use wasm_executor::lifecycle::{executor, invoke, module_file_name, next_state, ExecError};

fn state(v: &[u8]) -> SharedState {
    SharedState { val: v.to_vec() }
}

const DEPOSIT_NINES: &str = r#"
(module
  (import "env" "set_vec" (func $set (param i32 i32)))
  (memory (export "memory") 1)
  (data (i32.const 0) "\09\09")
  (func (export "start") (call $set (i32.const 0) (i32.const 2))))
"#;

const TRIPLE: &str = r#"
(module
  (import "env" "set_vec" (func $set (param i32 i32)))
  (import "env" "get_vec" (func $get (param i32 i32) (result i32)))
  (memory (export "memory") 1)
  (func (export "start") (local $n i32) (local $i i32)
    (local.set $n (call $get (i32.const 16) (i32.const 100)))
    (block $done
      (loop $next
        (br_if $done (i32.ge_u (local.get $i) (local.get $n)))
        (i32.store8 (i32.add (i32.const 16) (local.get $i))
          (i32.mul (i32.load8_u (i32.add (i32.const 16) (local.get $i))) (i32.const 3)))
        (local.set $i (i32.add (local.get $i) (i32.const 1)))
        (br $next)))
    (call $set (i32.const 16) (local.get $n))))
"#;

const DELIVER_TWO: &str = r#"
(module
  (import "env" "get_vec" (func $get (param i32 i32) (result i32)))
  (memory (export "memory") 1)
  (func (export "start") (drop (call $get (i32.const 0) (i32.const 2)))))
"#;

const UNKNOWN_IMPORT: &str = r#"
(module
  (import "env" "launch_rockets" (func $x (param i32)))
  (memory (export "memory") 1)
  (func (export "start") (call $x (i32.const 1))))
"#;

const GROW_BETWEEN_CALLS: &str = r#"
(module
  (import "env" "set_vec" (func $set (param i32 i32)))
  (import "env" "get_vec" (func $get (param i32 i32) (result i32)))
  (memory (export "memory") 1)
  (func (export "start") (local $n i32)
    (local.set $n (call $get (i32.const 8) (i32.const 64)))
    (drop (memory.grow (i32.const 3)))
    (i32.store8 (i32.const 8) (i32.const 77))
    (call $set (i32.const 8) (local.get $n))))
"#;

const DEPOSIT_THEN_TRAP: &str = r#"
(module
  (import "env" "set_vec" (func $set (param i32 i32)))
  (memory (export "memory") 1)
  (data (i32.const 0) "\05\05\05")
  (func (export "start") (call $set (i32.const 0) (i32.const 3)) unreachable))
"#;

const NO_START: &str = r#"
(module
  (memory (export "memory") 1)
  (func (export "begin")))
"#;

const NO_MEMORY: &str = r#"
(module
  (import "env" "set_vec" (func $set (param i32 i32)))
  (func (export "start") (call $set (i32.const 0) (i32.const 0))))
"#;

#[test]
fn guest_deposit_replaces_state() {
    let r = executor(DEPOSIT_NINES.as_bytes(), state(&[1, 2, 3])).unwrap();
    assert_eq!(r.val, vec![9, 9]);
}

#[test]
fn guest_triples_each_byte() {
    let r = executor(TRIPLE.as_bytes(), state(&[1, 2, 3])).unwrap();
    assert_eq!(r.val, vec![3, 6, 9]);
    let again = executor(TRIPLE.as_bytes(), r).unwrap();
    assert_eq!(again.val, vec![9, 18, 27]);
}

#[test]
fn guest_round_trip_of_empty_state() {
    let r = executor(TRIPLE.as_bytes(), state(&[])).unwrap();
    assert_eq!(r.val, Vec::<u8>::new());
}

#[test]
fn guest_deliver_over_capacity_faults() {
    let prior = state(&[1, 2, 3]);
    let r = executor(DELIVER_TWO.as_bytes(), prior.clone());
    assert!(matches!(r, Err(ExecError::RuntimeFault(_))));
    assert_eq!(next_state(prior, r).val, vec![1, 2, 3]);
}

#[test]
fn guest_deliver_at_exact_capacity_succeeds() {
    let r = executor(DELIVER_TWO.as_bytes(), state(&[4, 5])).unwrap();
    assert_eq!(r.val, vec![4, 5]);
}

#[test]
fn unknown_import_fails_at_instantiation() {
    let r = executor(UNKNOWN_IMPORT.as_bytes(), state(&[1]));
    assert!(matches!(r, Err(ExecError::Instantiation(_))));
}

#[test]
fn deposit_after_memory_growth_succeeds() {
    let r = executor(GROW_BETWEEN_CALLS.as_bytes(), state(&[1, 2, 3])).unwrap();
    assert_eq!(r.val, vec![77, 2, 3]);
}

#[test]
fn trap_leaves_prior_state() {
    let prior = state(&[1, 2, 3]);
    let r = executor(DEPOSIT_THEN_TRAP.as_bytes(), prior.clone());
    assert!(matches!(r, Err(ExecError::RuntimeFault(_))));
    assert_eq!(next_state(prior, r).val, vec![1, 2, 3]);
}

#[test]
fn missing_entry_point_is_reported() {
    let r = executor(NO_START.as_bytes(), state(&[1]));
    assert!(matches!(r, Err(ExecError::EntryPointMissing(_))));
}

#[test]
fn malformed_bytes_fail_to_compile() {
    let r = executor(&[0, 1, 2, 3, 4], state(&[1]));
    assert!(matches!(r, Err(ExecError::Compile(_))));
}

#[test]
fn host_call_without_memory_faults() {
    let r = executor(NO_MEMORY.as_bytes(), state(&[1]));
    assert!(matches!(r, Err(ExecError::RuntimeFault(_))));
}

#[test]
fn next_state_takes_success() {
    let s = next_state(state(&[1]), Ok(state(&[2, 2])));
    assert_eq!(s.val, vec![2, 2]);
}

#[test]
fn file_name_gets_extension() {
    assert_eq!(module_file_name(b"ex5"), b"ex5.wasm".to_vec());
    assert_eq!(module_file_name(b""), b".wasm".to_vec());
    assert_eq!(module_file_name(b"wasm"), b"wasm.wasm".to_vec());
}

#[test]
fn file_name_keeps_extension() {
    assert_eq!(module_file_name(b"ex5.wasm"), b"ex5.wasm".to_vec());
    assert_eq!(module_file_name(b".wasm"), b".wasm".to_vec());
}

const DELIVER_ONE_SHORT: &str = r#"
(module
  (import "env" "get_vec" (func $get (param i32 i32) (result i32)))
  (memory (export "memory") 1)
  (func (export "start") (drop (call $get (i32.const 0) (i32.const 3)))))
"#;

#[test]
fn invoke_keeps_prior_state_after_trap() {
    let prior = state(&[1, 2, 3]);
    let (s, err) = invoke(DEPOSIT_THEN_TRAP.as_bytes(), &prior);
    assert!(matches!(err, Some(ExecError::RuntimeFault(_))));
    assert_eq!(s.val, vec![1, 2, 3]);
}

#[test]
fn invoke_keeps_prior_state_when_capacity_is_one_short() {
    let prior = state(&[1, 2, 3, 4]);
    let (s, err) = invoke(DELIVER_ONE_SHORT.as_bytes(), &prior);
    assert!(matches!(err, Some(ExecError::RuntimeFault(_))));
    assert_eq!(s.val, vec![1, 2, 3, 4]);
}

#[test]
fn invoke_hands_back_new_state_on_success() {
    let prior = state(&[1, 2, 3]);
    let (s, err) = invoke(TRIPLE.as_bytes(), &prior);
    assert!(err.is_none());
    assert_eq!(s.val, vec![3, 6, 9]);
    assert_eq!(prior.val, vec![1, 2, 3]);
}

#[test]
fn invoke_on_unknown_import_never_runs_start() {
    let prior = state(&[8]);
    let (s, err) = invoke(UNKNOWN_IMPORT.as_bytes(), &prior);
    assert!(matches!(err, Some(ExecError::Instantiation(_))));
    assert_eq!(s.val, vec![8]);
}

use mux_contracts::host::Env;
use mux_contracts::test_helpers::{
    advance_ledger, assert_contract_err, assert_contract_ok, assert_event_count, assert_len_at_most,
    assert_len_eq, event_count, set_ledger_sequence, set_ledger_timestamp,
};

#[test]
fn assert_contract_ok_unwraps_success() {
    let result: Result<Result<u32, &str>, Result<&str, &str>> = Ok(Ok(42));
    assert_eq!(assert_contract_ok(result), 42);
}

#[test]
fn assert_contract_err_matches_expected() {
    let result: Result<Result<u32, &str>, Result<&str, &str>> = Err(Ok("cap"));
    assert_contract_err(result, "cap");
}

#[test]
fn assert_len_helpers() {
    assert_len_at_most(64, 64, "accounts");
    assert_len_eq(50, 50, "batch");
}

#[test]
fn assert_contract_ok_returns_owned_values() {
    let result: Result<Result<String, ()>, Result<u8, ()>> = Ok(Ok(String::from("wallet")));
    assert_eq!(assert_contract_ok(result), "wallet");
}

#[test]
fn assert_len_at_most_accepts_strictly_smaller() {
    assert_len_at_most(0, 128, "names");
    assert_len_eq(0, 0, "empty");
}

#[test]
fn advance_ledger_adds_and_saturates() {
    let mut env: Env<u8> = Env::new(String::from("c"));
    advance_ledger(&mut env, 10);
    assert_eq!(env.sequence, 10);
    advance_ledger(&mut env, 5);
    assert_eq!(env.sequence, 15);
    set_ledger_sequence(&mut env, u32::MAX - 1);
    advance_ledger(&mut env, 7);
    assert_eq!(env.sequence, u32::MAX);
}

#[test]
fn ledger_setters_write_their_field_only() {
    let mut env: Env<u8> = Env::new(String::from("c"));
    set_ledger_sequence(&mut env, 42);
    set_ledger_timestamp(&mut env, 1_700_000_000);
    assert_eq!(env.sequence, 42);
    assert_eq!(env.timestamp, 1_700_000_000);
    assert_eq!(event_count(&env), 0);
}

#[test]
fn event_count_follows_publications() {
    let mut env: Env<u8> = Env::new(String::from("c"));
    env.publish(1);
    env.publish(2);
    assert_eq!(event_count(&env), 2);
    assert_event_count(&env, 2);
}

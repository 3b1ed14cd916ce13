//! Ledger and event helpers on the invocation context, and checks on the
//! results of contract calls, as the tests of every contract use them. A call's result is `Ok(Ok(value))` on success, `Ok(Err(c))` when
//! the value could not be decoded, `Err(Ok(e))` for a contract error `e`, and
//! `Err(Err(i))` when the invocation itself failed.
use vstd::prelude::*;
use crate::host::{sat_u32, saturating_add_u32, Env};

verus! {

/// Advance the ledger sequence by `delta`, stopping at `u32::MAX`.
pub fn advance_ledger<Ev>(env: &mut Env<Ev>, delta: u32)
    ensures
        final(env).sequence == sat_u32(old(env).sequence, delta),
        final(env).timestamp == old(env).timestamp,
        final(env).current_contract == old(env).current_contract,
        final(env).authorize_all == old(env).authorize_all,
        final(env).signers == old(env).signers,
        final(env).auths == old(env).auths,
        final(env).events == old(env).events,
{
    env.sequence = saturating_add_u32(env.sequence, delta);
}

/// Set the ledger sequence to `sequence`.
pub fn set_ledger_sequence<Ev>(env: &mut Env<Ev>, sequence: u32)
    ensures
        final(env).sequence == sequence,
        final(env).timestamp == old(env).timestamp,
        final(env).current_contract == old(env).current_contract,
        final(env).authorize_all == old(env).authorize_all,
        final(env).signers == old(env).signers,
        final(env).auths == old(env).auths,
        final(env).events == old(env).events,
{
    env.sequence = sequence;
}

/// Set the ledger close time (Unix seconds) to `timestamp`.
pub fn set_ledger_timestamp<Ev>(env: &mut Env<Ev>, timestamp: u64)
    ensures
        final(env).timestamp == timestamp,
        final(env).sequence == old(env).sequence,
        final(env).current_contract == old(env).current_contract,
        final(env).authorize_all == old(env).authorize_all,
        final(env).signers == old(env).signers,
        final(env).auths == old(env).auths,
        final(env).events == old(env).events,
{
    env.timestamp = timestamp;
}

/// Number of events published so far.
pub fn event_count<Ev>(env: &Env<Ev>) -> (n: u32)
    requires
        env.events@.len() <= u32::MAX,
    ensures
        n == env.events@.len(),
{
    env.events.len() as u32
}

/// Exactly `expected` events were published.
pub fn assert_event_count<Ev>(env: &Env<Ev>, expected: u32)
    requires
        env.events@.len() == expected,
{
}

/// The value of a call that succeeded.
pub fn assert_contract_ok<T, C, E, I>(result: Result<Result<T, C>, Result<E, I>>) -> (value: T)
    requires
        result matches Ok(Ok(_)),
    ensures
        result == Ok::<Result<T, C>, Result<E, I>>(Ok(value)),
{
    match result {
        Ok(Ok(value)) => value,
        _ => vstd::pervasive::unreached(),
    }
}

/// A call that returned the contract error `expected`.
pub fn assert_contract_err<T, C, E, I>(result: Result<Result<T, C>, Result<E, I>>, expected: E)
    requires
        result == Err::<Result<T, C>, Result<E, I>>(Ok(expected)),
{
}

/// A length within its bound.
pub fn assert_len_at_most(actual: u32, max: u32, label: &str)
    requires
        actual <= max,
{
}

/// A length equal to the expected one.
pub fn assert_len_eq(actual: u32, expected: u32, label: &str)
    requires
        actual == expected,
{
}

} // verus!

use mux_contracts::account::{
    AccountEvent, MuxAccount, MuxAccountError, RegistryMeta, Scope, SessionExecutedEvent,
    MAX_DELEGATES,
};
use mux_contracts::host::{Env, Failure};
use mux_contracts::table::Table;

type E = MuxAccountError;
type Out<T> = Result<T, Failure<E>>;

fn s(x: &str) -> String {
    String::from(x)
}

const EXECUTE_TARGET: &str = "execute_target";
const REENTRANT_TARGET: &str = "reentrant_target";

/// Fresh, distinct addresses.
struct Addresses(u32);

impl Addresses {
    fn generate(&mut self) -> String {
        self.0 += 1;
        format!("G{:08}", self.0)
    }
}

fn setup() -> (Env<AccountEvent>, MuxAccount, String) {
    let mut env = Env::new(s("account"));
    env.mock_all_auths();
    (env, MuxAccount::new(), s("owner"))
}

fn setup_initialized() -> (Env<AccountEvent>, MuxAccount, String) {
    let (mut env, mut c, owner) = setup();
    c.initialize(&mut env, owner.clone(), Vec::new()).unwrap();
    (env, c, owner)
}

/// An initialized account whose owner never authorizes anything.
fn setup_without_auth() -> (Env<AccountEvent>, MuxAccount, String) {
    let env = Env::new(s("account"));
    let mut c = MuxAccount::new();
    c.owner = Some(s("owner"));
    c.guardians = Some(Vec::new());
    c.delegates = Some(Table::new());
    c.nonce = Some(0);
    (env, c, s("owner"))
}

fn meta(name: &str, version: &str, description: &str) -> RegistryMeta {
    RegistryMeta { name: s(name), version: s(version), description: s(description) }
}

fn scopes(methods: &[&str]) -> Vec<Scope> {
    methods.iter().map(|m| Scope { method: s(m) }).collect()
}

/// What the host's call of `function` on `target` returns, if it returns.
fn call_target(c: &mut MuxAccount, env: &mut Env<AccountEvent>, target: &str, function: &str, asset: &str) -> u32 {
    if target == EXECUTE_TARGET && function == "ping" {
        7
    } else if target == REENTRANT_TARGET && function == "attack" {
        // The target calls back into the account while the outer call runs;
        // a failed nested invocation leaves the account unchanged.
        let rejected = c.debit_spend(env, s(asset), 50).is_err();
        rejected as u32
    } else {
        panic!("no such contract function");
    }
}

/// `execute` as the host runs it: checks, the call, then the debit.
fn execute(
    c: &mut MuxAccount,
    env: &mut Env<AccountEvent>,
    target: &str,
    function: &str,
    asset: &str,
    spend: i128,
    nonce: u64,
) -> Out<u32> {
    let limit = c.execute(env, &s(asset), spend, nonce)?;
    let value = call_target(c, env, target, function, asset);
    c.finish_execute(env, s(target), s(asset), spend, limit);
    Ok(value)
}

/// `execute_with_session` (sponsored when `sponsor` is given) as the host runs it.
fn execute_session(
    c: &mut MuxAccount,
    env: &mut Env<AccountEvent>,
    key: &str,
    sponsor: Option<&str>,
    target: &str,
    function: &str,
    nonce: u64,
) -> Out<u32> {
    let executed = match sponsor {
        None => c.execute_with_session(env, s(key), s(target), s(function), nonce)?,
        Some(sp) => c.execute_with_session_sponsored(env, s(key), s(sp), s(target), s(function), nonce)?,
    };
    let value = call_target(c, env, &executed.target, &executed.function, "");
    c.finish_session(env, executed);
    Ok(value)
}

fn last_action(env: &Env<AccountEvent>) -> &'static str {
    env.events[env.events.len() - 1].action()
}

fn last_session_payload(env: &Env<AccountEvent>) -> &SessionExecutedEvent {
    match &env.events[env.events.len() - 1] {
        AccountEvent::SessionExecuted(p) => p,
        _ => panic!("last event must be ses_exe"),
    }
}

#[test]
fn test_owner_mutations_reject_missing_authorization() {
    let (mut env, mut c, _owner) = setup_without_auth();
    assert!(c.set_delegate(&mut env, s("delegate"), 1000, true).is_err());
    assert!(c.set_spend_limit(&mut env, s("asset"), 100, 10).is_err());
    assert!(c.unpause(&mut env).is_err());
    assert!(c.set_metadata(&mut env, meta("unauthorized", "1.0.0", "")).is_err());
    assert_eq!(c.delegates(&env).unwrap().len(), 0);
    assert!(c.get_metadata().is_none());
    assert_eq!(env.events.len(), 0);
}

#[test]
fn test_initialize_rejects_missing_owner_authorization() {
    let mut env = Env::new(s("account"));
    let mut c = MuxAccount::new();
    assert!(c.initialize(&mut env, s("owner"), Vec::new()).is_err());
    assert_eq!(c.owner(), Err(E::NotInitialized));
    assert_eq!(env.events.len(), 0);
}

#[test]
fn account_test_initialize_emits_event() {
    let (mut env, mut c, owner) = setup();
    c.initialize(&mut env, owner, Vec::new()).unwrap();
    assert_eq!(env.events.len(), 1);
    assert_eq!(env.events[0].action(), "init");
}

#[test]
fn test_set_delegate_emits_event() {
    let (mut env, mut c, _) = setup_initialized();
    c.set_delegate(&mut env, s("delegate"), 1000, true).unwrap();
    assert_eq!(env.events.len(), 2);
    assert_eq!(env.events[1].action(), "dlg_set");
}

#[test]
fn test_remove_delegate_emits_event() {
    let (mut env, mut c, _) = setup_initialized();
    c.set_delegate(&mut env, s("delegate"), 1000, false).unwrap();
    c.remove_delegate(&mut env, s("delegate")).unwrap();
    assert_eq!(env.events.len(), 3);
    assert_eq!(env.events[2].action(), "dlg_rm");
}

#[test]
fn test_spend_limit_emits_events() {
    let (mut env, mut c, _) = setup_initialized();
    c.set_spend_limit(&mut env, s("asset"), 1000, 100).unwrap();
    c.debit_spend(&mut env, s("asset"), 200).unwrap();
    assert_eq!(env.events.len(), 3);
    assert_eq!(env.events[1].action(), "lmt_set");
    assert_eq!(env.events[2].action(), "debited");
}

#[test]
fn test_delegate_cap_enforced() {
    let (mut env, mut c, _) = setup_initialized();
    let mut a = Addresses(0);
    for _ in 0..64 {
        c.set_delegate(&mut env, a.generate(), 1000, false).unwrap();
    }
    assert!(c.set_delegate(&mut env, a.generate(), 1000, false).is_err());
}

#[test]
fn test_delegate_cap_allows_update() {
    let (mut env, mut c, _) = setup_initialized();
    let mut a = Addresses(0);
    c.set_delegate(&mut env, s("first"), 1000, false).unwrap();
    for _ in 1..64 {
        c.set_delegate(&mut env, a.generate(), 1000, false).unwrap();
    }
    assert!(c.set_delegate(&mut env, s("first"), 2000, true).is_ok());
}

#[test]
fn test_delegate_cap_reclaims_expired_entries() {
    let (mut env, mut c, _) = setup_initialized();
    let mut a = Addresses(0);
    let expiry = env.timestamp + 1;
    for _ in 0..64 {
        c.set_delegate(&mut env, a.generate(), expiry, false).unwrap();
    }
    env.timestamp = expiry;
    assert!(c.set_delegate(&mut env, s("replacement"), expiry + 100, true).is_ok());
    let delegates = c.delegates(&env).unwrap();
    assert_eq!(delegates.len(), 1);
    assert!(delegates.contains_key(&s("replacement")));
}

#[test]
fn account_test_initialize() {
    let (mut env, mut c, owner) = setup();
    assert!(c.initialize(&mut env, owner.clone(), Vec::new()).is_ok());
    assert_eq!(c.owner(), Ok(owner));
}

#[test]
fn account_test_double_initialize_fails() {
    let (mut env, mut c, owner) = setup_initialized();
    assert!(c.initialize(&mut env, owner, Vec::new()).is_err());
}

#[test]
fn test_double_initialize_returns_already_initialized_error() {
    let (mut env, mut c, owner) = setup_initialized();
    assert_eq!(c.initialize(&mut env, owner, Vec::new()), Err(Failure::Contract(E::AlreadyInitialized)));
}

#[test]
fn test_initialize_with_different_owner_returns_already_initialized() {
    let (mut env, mut c, _) = setup_initialized();
    assert_eq!(c.initialize(&mut env, s("other_owner"), Vec::new()), Err(Failure::Contract(E::AlreadyInitialized)));
}

#[test]
fn test_initialize_with_guardians_returns_already_initialized() {
    let (mut env, mut c, owner) = setup();
    c.initialize(&mut env, owner.clone(), vec![s("g1"), s("g2")]).unwrap();
    assert_eq!(c.initialize(&mut env, owner, vec![s("g3")]), Err(Failure::Contract(E::AlreadyInitialized)));
}

#[test]
fn test_set_and_remove_delegate() {
    let (mut env, mut c, _) = setup_initialized();
    c.set_delegate(&mut env, s("delegate"), 1000, true).unwrap();
    assert!(c.delegates(&env).unwrap().contains_key(&s("delegate")));
    c.remove_delegate(&mut env, s("delegate")).unwrap();
    assert!(!c.delegates(&env).unwrap().contains_key(&s("delegate")));
}

#[test]
fn test_get_delegate_returns_active_delegate_info() {
    let (mut env, mut c, _) = setup_initialized();
    c.set_delegate(&mut env, s("delegate"), 1000, true).unwrap();
    let info = c.get_delegate(&env, &s("delegate")).unwrap();
    assert_eq!(info.address, s("delegate"));
    assert!(info.can_spend);
    assert_eq!(info.expires_at, 1000);
}

#[test]
fn test_get_delegate_fails_for_unauthorized_delegate() {
    let (env, c, _) = setup_initialized();
    assert!(c.get_delegate(&env, &s("delegate")).is_err());
}

#[test]
fn test_get_delegate_fails_when_delegate_expired() {
    let (mut env, mut c, _) = setup_initialized();
    let expiry = env.timestamp + 1;
    c.set_delegate(&mut env, s("delegate"), expiry, true).unwrap();
    env.timestamp = expiry;
    assert!(c.get_delegate(&env, &s("delegate")).is_err());
}

#[test]
fn test_delegates_filters_expired_delegates() {
    let (mut env, mut c, _) = setup_initialized();
    let expiry = env.timestamp + 1;
    c.set_delegate(&mut env, s("delegate"), expiry, true).unwrap();
    env.timestamp = expiry;
    assert!(!c.delegates(&env).unwrap().contains_key(&s("delegate")));
}

#[test]
fn test_spend_limit_enforcement() {
    let (mut env, mut c, _) = setup_initialized();
    c.set_spend_limit(&mut env, s("asset"), 1000, 100).unwrap();
    assert!(c.debit_spend(&mut env, s("asset"), 500).is_ok());
    assert!(c.debit_spend(&mut env, s("asset"), 600).is_err());
}

#[test]
fn test_execute_enforces_spend_limit_before_invocation() {
    let (mut env, mut c, _) = setup_initialized();
    c.set_spend_limit(&mut env, s("asset"), 100, 100).unwrap();
    let value = execute(&mut c, &mut env, EXECUTE_TARGET, "ping", "asset", 40, 0).unwrap();
    assert_eq!(value, 7);
    assert!(matches!(
        execute(&mut c, &mut env, EXECUTE_TARGET, "ping", "asset", 70, 1),
        Err(Failure::Contract(E::SpendLimitExceeded))
    ));
}

#[test]
fn test_execute_holds_reentrancy_guard_across_invocation() {
    let (mut env, mut c, _) = setup_initialized();
    c.set_spend_limit(&mut env, s("asset"), 1000, 100).unwrap();
    let value = execute(&mut c, &mut env, REENTRANT_TARGET, "attack", "asset", 50, 0).unwrap();
    assert!(
        value == 1,
        "a reentrant debit_spend call during execute() must be rejected with ReentrancyDetected"
    );
    let recorded = c.spend_limits.get(&s("asset")).unwrap();
    assert_eq!(recorded.spent, 50);
}

#[test]
fn test_execute_spend_limit_rejection_does_not_lock_out_future_calls() {
    let (mut env, mut c, _) = setup_initialized();
    c.set_spend_limit(&mut env, s("asset"), 100, 100).unwrap();
    let rejected = execute(&mut c, &mut env, EXECUTE_TARGET, "ping", "asset", 500, 0);
    assert!(matches!(rejected, Err(Failure::Contract(E::SpendLimitExceeded))));
    let value = execute(&mut c, &mut env, EXECUTE_TARGET, "ping", "asset", 40, 0).unwrap();
    assert_eq!(value, 7);
}

#[test]
fn test_debit_spend_rejection_does_not_lock_out_future_calls() {
    let (mut env, mut c, _) = setup_initialized();
    c.set_spend_limit(&mut env, s("asset"), 100, 100).unwrap();
    assert_eq!(c.debit_spend(&mut env, s("asset"), 500), Err(Failure::Contract(E::SpendLimitExceeded)));
    assert!(c.debit_spend(&mut env, s("asset"), 40).is_ok());
}

#[test]
fn test_execute_rejects_non_positive_spend() {
    let (mut env, mut c, _) = setup_initialized();
    c.set_spend_limit(&mut env, s("asset"), 100, 100).unwrap();
    assert!(matches!(
        execute(&mut c, &mut env, "unregistered", "ping", "asset", 0, 0),
        Err(Failure::Contract(E::InvalidAmount))
    ));
}

#[test]
fn test_spend_limit_invalid_amount() {
    let (mut env, mut c, _) = setup_initialized();
    assert!(c.set_spend_limit(&mut env, s("asset"), 0, 100).is_err());
}

#[test]
fn test_unpause_emits_event() {
    let (mut env, mut c, _) = setup_initialized();
    c.unpause(&mut env).unwrap();
    assert!(env.events.len() >= 2);
    assert_eq!(last_action(&env), "unpaused");
}

#[test]
fn test_pause_emits_event() {
    let (mut env, mut c, _) = setup_initialized();
    c.pause(&mut env).unwrap();
    assert!(env.events.len() >= 2);
    assert_eq!(last_action(&env), "paused");
}

#[test]
fn test_pause_sets_paused_flag() {
    let (mut env, mut c, _) = setup_initialized();
    assert!(!c.is_paused());
    c.pause(&mut env).unwrap();
    assert!(c.is_paused());
}

#[test]
fn test_pause_then_unpause_clears_flag() {
    let (mut env, mut c, _) = setup_initialized();
    c.pause(&mut env).unwrap();
    assert!(c.is_paused());
    c.unpause(&mut env).unwrap();
    assert!(!c.is_paused());
}

#[test]
fn test_pause_blocks_set_delegate() {
    let (mut env, mut c, _) = setup_initialized();
    c.pause(&mut env).unwrap();
    assert_eq!(c.set_delegate(&mut env, s("delegate"), 1000, true), Err(Failure::Contract(E::Unauthorized)));
}

#[test]
fn test_pause_blocks_execute() {
    let (mut env, mut c, _) = setup_initialized();
    c.set_spend_limit(&mut env, s("asset"), 1000, 100).unwrap();
    c.pause(&mut env).unwrap();
    assert!(matches!(
        execute(&mut c, &mut env, EXECUTE_TARGET, "ping", "asset", 10, 0),
        Err(Failure::Contract(E::Unauthorized))
    ));
}

#[test]
fn test_pause_requires_owner_auth() {
    let (mut env, mut c, _) = setup_without_auth();
    assert!(c.pause(&mut env).is_err());
}

#[test]
fn test_execute_with_session_emits_event() {
    let (mut env, mut c, _) = setup_initialized();
    let expires = env.timestamp + 60;
    c.register_session_key(&mut env, s("session_key"), expires, scopes(&["ping"])).unwrap();
    let _ = execute_session(&mut c, &mut env, "session_key", None, EXECUTE_TARGET, "ping", 0);
    assert!(env.events.len() >= 2);
    assert_eq!(last_action(&env), "ses_exe");
}

#[test]
fn test_execute_with_session_dispatches_to_target() {
    let (mut env, mut c, _) = setup_initialized();
    let expires = env.timestamp + 60;
    c.register_session_key(&mut env, s("session_key"), expires, scopes(&["ping"])).unwrap();
    let value = execute_session(&mut c, &mut env, "session_key", None, EXECUTE_TARGET, "ping", 0).unwrap();
    assert_eq!(value, 7, "the target's return value must be forwarded to the caller");
    let payload = last_session_payload(&env);
    assert_eq!(payload.target, s(EXECUTE_TARGET));
    assert_eq!(payload.function, s("ping"));
    assert_eq!(payload.sponsor, None);
}

#[test]
fn test_sponsored_execution_rejects_unknown_sponsor() {
    let (mut env, mut c, _) = setup_initialized();
    let expires = env.timestamp + 60;
    c.register_session_key(&mut env, s("session_key"), expires, scopes(&["ping"])).unwrap();
    assert_eq!(
        execute_session(&mut c, &mut env, "session_key", Some("relayer"), EXECUTE_TARGET, "ping", 0),
        Err(Failure::Contract(E::SponsorNotAuthorized))
    );
}

#[test]
fn test_sponsored_execution_dispatches_and_records_sponsor() {
    let (mut env, mut c, _) = setup_initialized();
    let expires = env.timestamp + 60;
    c.register_session_key(&mut env, s("session_key"), expires, scopes(&["ping"])).unwrap();
    c.set_sponsor(&mut env, s("relayer"), true).unwrap();
    assert!(c.is_sponsor(&s("relayer")));
    let value = execute_session(&mut c, &mut env, "session_key", Some("relayer"), EXECUTE_TARGET, "ping", 0).unwrap();
    assert_eq!(value, 7);
    assert_eq!(last_session_payload(&env).sponsor, Some(s("relayer")));
    c.set_sponsor(&mut env, s("relayer"), false).unwrap();
    assert!(!c.is_sponsor(&s("relayer")));
    assert_eq!(
        execute_session(&mut c, &mut env, "session_key", Some("relayer"), EXECUTE_TARGET, "ping", 1),
        Err(Failure::Contract(E::SponsorNotAuthorized))
    );
}

#[test]
fn test_sponsored_execution_still_enforces_scopes() {
    let (mut env, mut c, _) = setup_initialized();
    let expires = env.timestamp + 60;
    c.register_session_key(&mut env, s("session_key"), expires, scopes(&["pay"])).unwrap();
    c.set_sponsor(&mut env, s("relayer"), true).unwrap();
    assert_eq!(
        execute_session(&mut c, &mut env, "session_key", Some("relayer"), EXECUTE_TARGET, "ping", 0),
        Err(Failure::Contract(E::ScopeNotGranted))
    );
}

#[test]
fn test_nonce_starts_at_zero_and_advances_per_execution() {
    let (mut env, mut c, _) = setup_initialized();
    assert_eq!(c.nonce(), Ok(0), "a fresh account starts at nonce 0");
    c.set_spend_limit(&mut env, s("asset"), 1000, 100).unwrap();
    execute(&mut c, &mut env, EXECUTE_TARGET, "ping", "asset", 10, 0).unwrap();
    assert_eq!(c.nonce(), Ok(1), "execute must advance the nonce");
    let expires = env.timestamp + 60;
    c.register_session_key(&mut env, s("session_key"), expires, scopes(&["ping"])).unwrap();
    execute_session(&mut c, &mut env, "session_key", None, EXECUTE_TARGET, "ping", 1).unwrap();
    assert_eq!(c.nonce(), Ok(2), "session execution must advance the nonce");
    c.set_sponsor(&mut env, s("relayer"), true).unwrap();
    execute_session(&mut c, &mut env, "session_key", Some("relayer"), EXECUTE_TARGET, "ping", 2).unwrap();
    assert_eq!(c.nonce(), Ok(3), "sponsored execution must advance the nonce");
}

#[test]
fn test_execute_with_session_rejects_replayed_nonce() {
    let (mut env, mut c, _) = setup_initialized();
    let expires = env.timestamp + 60;
    c.register_session_key(&mut env, s("session_key"), expires, scopes(&["ping"])).unwrap();
    execute_session(&mut c, &mut env, "session_key", None, EXECUTE_TARGET, "ping", 0).unwrap();
    assert_eq!(
        execute_session(&mut c, &mut env, "session_key", None, EXECUTE_TARGET, "ping", 0),
        Err(Failure::Contract(E::InvalidNonce)),
        "replaying a consumed nonce must fail closed"
    );
    assert_eq!(
        execute_session(&mut c, &mut env, "session_key", None, EXECUTE_TARGET, "ping", 7),
        Err(Failure::Contract(E::InvalidNonce))
    );
    assert_eq!(c.nonce(), Ok(1), "rejected calls must not advance it");
}

#[test]
fn test_rejected_call_does_not_consume_a_nonce() {
    let (mut env, mut c, _) = setup_initialized();
    let expires = env.timestamp + 60;
    c.register_session_key(&mut env, s("session_key"), expires, scopes(&["pay"])).unwrap();
    assert_eq!(
        execute_session(&mut c, &mut env, "session_key", None, EXECUTE_TARGET, "ping", 0),
        Err(Failure::Contract(E::ScopeNotGranted))
    );
    assert_eq!(c.nonce(), Ok(0));
    c.set_spend_limit(&mut env, s("asset"), 100, 100).unwrap();
    assert!(matches!(
        execute(&mut c, &mut env, EXECUTE_TARGET, "ping", "asset", 500, 0),
        Err(Failure::Contract(E::SpendLimitExceeded))
    ));
    assert_eq!(c.nonce(), Ok(0));
}

#[test]
fn test_execute_with_session_rejects_unknown_revoked_and_expired_keys() {
    let (mut env, mut c, _) = setup_initialized();
    assert_eq!(
        execute_session(&mut c, &mut env, "session_key", None, EXECUTE_TARGET, "ping", 0),
        Err(Failure::Contract(E::Unauthorized))
    );
    let expires = env.timestamp + 60;
    c.register_session_key(&mut env, s("session_key"), expires, scopes(&["ping"])).unwrap();
    c.revoke_session_key(&mut env, s("session_key")).unwrap();
    assert_eq!(
        execute_session(&mut c, &mut env, "session_key", None, EXECUTE_TARGET, "ping", 0),
        Err(Failure::Contract(E::Unauthorized))
    );
    let now = env.timestamp;
    c.register_session_key(&mut env, s("session_key"), now, scopes(&["ping"])).unwrap();
    assert_eq!(
        execute_session(&mut c, &mut env, "session_key", None, EXECUTE_TARGET, "ping", 0),
        Err(Failure::Contract(E::Unauthorized))
    );
}

#[test]
fn test_execute_with_session_rejects_empty_scopes() {
    let (mut env, mut c, _) = setup_initialized();
    let expires = env.timestamp + 60;
    c.register_session_key(&mut env, s("session_key"), expires, Vec::new()).unwrap();
    assert_eq!(
        execute_session(&mut c, &mut env, "session_key", None, EXECUTE_TARGET, "ping", 0),
        Err(Failure::Contract(E::Unauthorized)),
        "empty-scope session key must fail closed"
    );
    assert_eq!(env.events.len(), 2, "only the init and sk_reg events may exist");
}

#[test]
fn test_ttl_extended_on_write() {
    let (mut env, mut c, owner) = setup();
    c.initialize(&mut env, owner.clone(), Vec::new()).unwrap();
    assert_eq!(c.owner(), Ok(owner));
}

#[test]
fn test_set_and_get_metadata() {
    let (mut env, mut c, _) = setup_initialized();
    c.set_metadata(&mut env, meta("mux-testnet-acct", "1.0.0", "Account contract for testnet")).unwrap();
    let stored = c.get_metadata().unwrap();
    assert_eq!(stored.name, s("mux-testnet-acct"));
    assert_eq!(stored.version, s("1.0.0"));
    assert_eq!(stored.description, s("Account contract for testnet"));
}

#[test]
fn test_set_metadata_overwrites_previous() {
    let (mut env, mut c, _) = setup_initialized();
    c.set_metadata(&mut env, meta("v1", "1.0.0", "first")).unwrap();
    c.set_metadata(&mut env, meta("v2", "2.0.0", "second")).unwrap();
    assert_eq!(c.get_metadata().unwrap().version, s("2.0.0"));
}

#[test]
fn test_get_metadata_returns_none_when_unset() {
    let (_env, c, _) = setup_initialized();
    assert!(c.get_metadata().is_none());
}

#[test]
fn test_set_metadata_emits_event() {
    let (mut env, mut c, _) = setup_initialized();
    c.set_metadata(&mut env, meta("registry", "1.0.0", "")).unwrap();
    assert_eq!(env.events.len(), 2);
    assert_eq!(env.events[1].action(), "meta_set");
}

#[test]
fn test_set_metadata_before_initialize_fails() {
    let (mut env, mut c, _) = setup();
    assert!(c.set_metadata(&mut env, meta("registry", "1.0.0", "")).is_err());
}

#[test]
fn test_ttl_extended_on_set_delegate() {
    let (mut env, mut c, _) = setup_initialized();
    assert!(c.set_delegate(&mut env, s("delegate"), 1000, true).is_ok());
}

#[test]
fn test_ttl_extended_on_remove_delegate() {
    let (mut env, mut c, _) = setup_initialized();
    c.set_delegate(&mut env, s("delegate"), 1000, false).unwrap();
    assert!(c.remove_delegate(&mut env, s("delegate")).is_ok());
}

#[test]
fn test_ttl_extended_on_set_spend_limit() {
    let (mut env, mut c, _) = setup_initialized();
    assert!(c.set_spend_limit(&mut env, s("asset"), 1000, 100).is_ok());
}

#[test]
fn test_ttl_extended_on_debit_spend() {
    let (mut env, mut c, _) = setup_initialized();
    c.set_spend_limit(&mut env, s("asset"), 1000, 100).unwrap();
    assert!(c.debit_spend(&mut env, s("asset"), 200).is_ok());
}

#[test]
fn test_ttl_extended_on_unpause() {
    let (mut env, mut c, _) = setup_initialized();
    assert!(c.unpause(&mut env).is_ok());
}

#[test]
fn test_ttl_extended_on_execute_with_session() {
    let (mut env, mut c, _) = setup_initialized();
    let expires = env.timestamp + 60;
    c.register_session_key(&mut env, s("session_key"), expires, scopes(&["ping"])).unwrap();
    assert!(execute_session(&mut c, &mut env, "session_key", None, EXECUTE_TARGET, "ping", 0).is_ok());
}

#[test]
fn test_ttl_extended_on_set_metadata() {
    let (mut env, mut c, _) = setup_initialized();
    assert!(c.set_metadata(&mut env, meta("test", "1.0.0", "desc")).is_ok());
}

#[test]
fn account_test_symbol_short_lengths_within_limit() {
    let events = [
        AccountEvent::Init { owner: s("") },
        AccountEvent::Paused,
        AccountEvent::Unpaused,
        AccountEvent::DelegateSet { delegate: s(""), expires_at: 0, can_spend: false },
        AccountEvent::DelegateRemoved { delegate: s("") },
        AccountEvent::LimitSet { asset: s(""), amount: 0, period_ledgers: 0 },
        AccountEvent::Debited { asset: s(""), spend: 0 },
        AccountEvent::Executed { target: s(""), asset: s(""), spend: 0 },
        AccountEvent::SessionKeyRegistered { session_key: s("") },
        AccountEvent::SessionKeyRevoked { session_key: s("") },
        AccountEvent::SessionExecuted(SessionExecutedEvent {
            session_key: s(""),
            target: s(""),
            function: s(""),
            sponsor: None,
        }),
        AccountEvent::MetaSet { name: s("") },
        AccountEvent::SponsorSet { sponsor: s(""), allowed: false },
    ];
    assert!(AccountEvent::topic().len() <= 9);
    for e in events.iter() {
        assert!(e.action().len() <= 9);
    }
}

// ── Further checks of the verified contract ─────────────────────────────────

#[test]
fn spend_period_rolls_over_after_reset_ledger() {
    let (mut env, mut c, _) = setup_initialized();
    c.set_spend_limit(&mut env, s("asset"), 100, 10).unwrap();
    c.debit_spend(&mut env, s("asset"), 100).unwrap();
    assert_eq!(c.debit_spend(&mut env, s("asset"), 1), Err(Failure::Contract(E::SpendLimitExceeded)));
    let reset = c.spend_limits.get(&s("asset")).unwrap().reset_ledger;
    env.sequence = reset;
    assert!(c.debit_spend(&mut env, s("asset"), 100).is_ok());
    assert_eq!(c.spend_limits.get(&s("asset")).unwrap().spent, 100);
}

#[test]
fn debit_without_limit_is_refused() {
    let (mut env, mut c, _) = setup_initialized();
    assert_eq!(c.debit_spend(&mut env, s("gold"), 5), Err(Failure::Contract(E::SpendLimitExceeded)));
    assert_eq!(c.debit_spend(&mut env, s("gold"), -5), Err(Failure::Contract(E::InvalidAmount)));
}

#[test]
fn guard_blocks_second_execution_until_finished() {
    let (mut env, mut c, _) = setup_initialized();
    c.set_spend_limit(&mut env, s("asset"), 1000, 100).unwrap();
    let limit = c.execute(&mut env, &s("asset"), 10, 0).unwrap();
    assert!(c.executing);
    assert_eq!(c.execute(&mut env, &s("asset"), 10, 1).err(), Some(Failure::Contract(E::ReentrancyDetected)));
    c.finish_execute(&mut env, s(EXECUTE_TARGET), s("asset"), 10, limit);
    assert!(!c.executing);
    assert_eq!(last_action(&env), "executed");
    assert_eq!(MAX_DELEGATES, 64);
}

#[test]
fn session_key_validity_and_guardians() {
    let (mut env, mut c, owner) = setup();
    c.initialize(&mut env, owner, vec![s("g1")]).unwrap();
    assert_eq!(c.guardians(), Ok(vec![s("g1")]));
    let expires = env.timestamp + 10;
    c.register_session_key(&mut env, s("k"), expires, scopes(&["pay"])).unwrap();
    assert_eq!(c.is_session_key_valid(&env, &s("k")), Ok(true));
    env.timestamp = expires;
    assert_eq!(c.is_session_key_valid(&env, &s("k")), Ok(false));
    assert_eq!(c.is_session_key_valid(&env, &s("unknown")), Ok(false));
    assert_eq!(E::InvalidNonce.code(), 15);
}

#[test]
fn set_sponsor_is_owner_only() {
    let (mut env, mut c, _) = setup_without_auth();
    assert_eq!(c.set_sponsor(&mut env, s("relayer"), true), Err(Failure::NotAuthorized(s("owner"))));
    assert!(!c.is_sponsor(&s("relayer")));
}

#[test]
fn session_call_record_names_what_was_checked() {
    let (mut env, mut c, _) = setup_initialized();
    let expires = env.timestamp + 60;
    c.register_session_key(&mut env, s("sk"), expires, scopes(&["ping"])).unwrap();
    c.set_sponsor(&mut env, s("relayer"), true).unwrap();
    let direct = c.execute_with_session(&mut env, s("sk"), s("target"), s("ping"), 0).unwrap();
    assert_eq!(direct.session_key, s("sk"));
    assert_eq!(direct.target, s("target"));
    assert_eq!(direct.function, s("ping"));
    assert_eq!(direct.sponsor, None);
    c.finish_session(&mut env, direct);
    let sponsored =
        c.execute_with_session_sponsored(&mut env, s("sk"), s("relayer"), s("target"), s("ping"), 1).unwrap();
    assert_eq!(sponsored.session_key, s("sk"));
    assert_eq!(sponsored.target, s("target"));
    assert_eq!(sponsored.function, s("ping"));
    assert_eq!(sponsored.sponsor, Some(s("relayer")));
}

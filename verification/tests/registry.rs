use mux_contracts::host::{Env, Failure};
use mux_contracts::registry::{MuxRegistry, MuxRegistryError, RegistryEvent, MAX_CONTRACTS};

fn s(x: &str) -> String {
    String::from(x)
}

fn fresh(mock_auths: bool) -> (Env<RegistryEvent>, MuxRegistry) {
    let mut env = Env::new(s("registry"));
    if mock_auths {
        env.mock_all_auths();
    }
    (env, MuxRegistry::new())
}

fn setup() -> (Env<RegistryEvent>, MuxRegistry, String) {
    let (mut env, mut c) = fresh(true);
    c.initialize(&mut env, s("admin")).unwrap();
    (env, c, s("admin"))
}

/// Two-letter base-26 names: "aa" for 0 up to "ex" for 127.
fn two_letter(i: u32) -> String {
    format!("{}{}", (b'a' + (i / 26) as u8) as char, (b'a' + (i % 26) as u8) as char)
}

const REPO: &str = "https://github.com/mux-protocol/mux-contracts";

#[test]
fn registry_test_initialize() {
    let (mut env, mut c) = fresh(true);
    assert!(c.initialize(&mut env, s("admin")).is_ok());
    assert!(c.initialize(&mut env, s("admin")).is_err());
}

#[test]
fn test_register_and_get() {
    let (mut env, mut c, _) = setup();
    c.register(&mut env, s("account"), s("1.0.0")).unwrap();
    assert_eq!(c.get_version(&s("account")), Ok(s("1.0.0")));
    assert!(c.list_contracts().contains(&s("account")));
}

#[test]
fn test_get_unknown_fails() {
    let (_env, c, _) = setup();
    assert_eq!(c.get_version(&s("ghost")), Err(MuxRegistryError::ContractNotFound));
}

#[test]
fn test_register_with_metadata() {
    let (mut env, mut c, _) = setup();
    c.register_with_metadata(
        &mut env,
        s("account"),
        s("2.0.0"),
        s("Account abstraction contract"),
        s("mux-labs"),
        s(REPO),
    )
    .unwrap();
    let meta = c.get_metadata(&s("account")).unwrap();
    assert_eq!(meta.version, s("2.0.0"));
    assert_eq!(meta.description, s("Account abstraction contract"));
    assert_eq!(meta.author, s("mux-labs"));
    assert_eq!(meta.repository, s(REPO));
    assert_eq!(c.get_version(&s("account")), Ok(s("2.0.0")));
    assert!(c.list_contracts().contains(&s("account")));
}

#[test]
fn test_get_metadata_unknown_fails() {
    let (_env, c, _) = setup();
    assert_eq!(c.get_metadata(&s("ghost")).err(), Some(MuxRegistryError::ContractNotFound));
}

#[test]
fn test_get_metadata_on_uninitialized_returns_not_found() {
    let (_env, c) = fresh(false);
    assert_eq!(c.get_metadata(&s("x")).err(), Some(MuxRegistryError::ContractNotFound));
}

#[test]
fn test_get_metadata_missing_after_register_without_metadata() {
    let (mut env, mut c, _) = setup();
    c.register(&mut env, s("bare"), s("1.0.0")).unwrap();
    assert_eq!(c.get_version(&s("bare")), Ok(s("1.0.0")));
    assert_eq!(c.get_metadata(&s("bare")).err(), Some(MuxRegistryError::ContractNotFound));
}

#[test]
fn test_get_metadata_unknown_after_registrations() {
    let (mut env, mut c, _) = setup();
    c.register_with_metadata(&mut env, s("known"), s("1.0.0"), s("Known contract"), s("mux-labs"), s(REPO))
        .unwrap();
    assert_eq!(c.get_metadata(&s("unknown")).err(), Some(MuxRegistryError::ContractNotFound));
    assert!(c.get_metadata(&s("known")).is_ok());
}

#[test]
fn test_metadata_update() {
    let (mut env, mut c, _) = setup();
    c.register_with_metadata(&mut env, s("batcher"), s("1.0.0"), s("Batcher contract"), s("mux-labs"), s(REPO))
        .unwrap();
    c.register_with_metadata(&mut env, s("batcher"), s("1.1.0"), s("Batcher contract"), s("mux-labs"), s(REPO))
        .unwrap();
    assert_eq!(c.get_metadata(&s("batcher")).unwrap().version, s("1.1.0"));
    let count = c.list_contracts().iter().filter(|n| **n == s("batcher")).count();
    assert_eq!(count, 1);
}

#[test]
fn test_too_many_contracts_via_register_with_metadata() {
    let (mut env, mut c, _) = setup();
    for i in 0u32..128 {
        c.register(&mut env, two_letter(i), s("1.0.0")).unwrap();
    }
    let result = c.register_with_metadata(&mut env, s("ey"), s("1.0.0"), s("desc"), s("mux-labs"), s(REPO));
    assert_eq!(result, Err(Failure::Contract(MuxRegistryError::TooManyContracts)));
}

#[test]
fn test_too_many_contracts_via_register() {
    let (mut env, mut c, _) = setup();
    for i in 0u32..128 {
        c.register(&mut env, two_letter(i), s("1.0.0")).unwrap();
    }
    let result = c.register(&mut env, s("ey"), s("1.0.0"));
    assert_eq!(result, Err(Failure::Contract(MuxRegistryError::TooManyContracts)));
}

#[test]
fn test_register_requires_admin_auth() {
    let (mut env, mut c) = fresh(false);
    c.admin = Some(s("admin"));
    let result = c.register(&mut env, s("account"), s("1.0.0"));
    assert!(result.is_err(), "register must be rejected when admin auth is absent");
    assert!(c.get_version(&s("account")).is_err(), "no version must be stored after a rejected register");
    assert_eq!(c.list_contracts().len(), 0, "names list must remain empty after a rejected register");
    assert_eq!(env.events.len(), 0, "no events must be emitted after a rejected register");
}

#[test]
fn test_register_with_metadata_requires_admin_auth() {
    let (mut env, mut c) = fresh(false);
    c.admin = Some(s("admin"));
    let result = c.register_with_metadata(
        &mut env,
        s("batcher"),
        s("1.0.0"),
        s("Batcher contract"),
        s("mux-labs"),
        s(REPO),
    );
    assert!(result.is_err(), "register_with_metadata must be rejected when admin auth is absent");
    assert!(c.get_version(&s("batcher")).is_err());
    assert!(c.get_metadata(&s("batcher")).is_err());
    assert_eq!(c.list_contracts().len(), 0);
    assert_eq!(env.events.len(), 0);
}

#[test]
fn test_register_rejects_non_admin_caller() {
    let (mut env, mut c) = fresh(false);
    c.admin = Some(s("admin"));
    env.sign(s("attacker"));
    let result = c.register(&mut env, s("perm"), s("3.0.0"));
    assert!(result.is_err(), "register must reject a non-admin caller");
    assert!(c.get_version(&s("perm")).is_err());
    assert_eq!(c.list_contracts().len(), 0);
    assert_eq!(env.events.len(), 0);
}

#[test]
fn test_register_with_metadata_rejects_non_admin_caller() {
    let (mut env, mut c) = fresh(false);
    c.admin = Some(s("admin"));
    env.sign(s("attacker"));
    let result = c.register_with_metadata(
        &mut env,
        s("policy"),
        s("2.0.0"),
        s("Policy contract"),
        s("mux-labs"),
        s(REPO),
    );
    assert!(result.is_err(), "register_with_metadata must reject a non-admin caller");
    assert!(c.get_version(&s("policy")).is_err());
    assert!(c.get_metadata(&s("policy")).is_err());
    assert_eq!(c.list_contracts().len(), 0);
    assert_eq!(env.events.len(), 0);
}

#[test]
fn test_unauthorized_register_does_not_affect_other_envs() {
    let (mut env_auth, mut c_auth, _) = setup();
    c_auth.register(&mut env_auth, s("account"), s("1.0.0")).unwrap();
    assert_eq!(c_auth.list_contracts().len(), 1);

    let (mut env_unauth, mut c_unauth) = fresh(false);
    c_unauth.admin = Some(s("admin2"));
    assert!(c_unauth.register(&mut env_unauth, s("batcher"), s("1.0.0")).is_err());
    assert_eq!(c_unauth.list_contracts().len(), 0);

    assert_eq!(c_auth.list_contracts().len(), 1);
    assert!(c_auth.get_version(&s("account")).is_ok());
}

#[test]
fn test_symbol_short_lengths_within_limit() {
    let events = [
        RegistryEvent::Init { admin: s("") },
        RegistryEvent::Registered { name: s(""), version: s("") },
        RegistryEvent::RegisteredWithMetadata { name: s(""), version: s("") },
    ];
    assert!(RegistryEvent::topic().len() <= 9);
    for e in events.iter() {
        assert!(e.action().len() <= 9);
    }
}

#[test]
fn test_initialize_emits_init_event() {
    let (mut env, mut c) = fresh(true);
    c.initialize(&mut env, s("admin")).unwrap();
    assert_eq!(env.events.len(), 1, "expected exactly 1 event after initialize");
    assert_eq!(RegistryEvent::topic(), "mux_reg");
    assert_eq!(env.events[0].action(), "init");
}

#[test]
fn test_register_emits_reg_event() {
    let (mut env, mut c, _) = setup();
    c.register(&mut env, s("account"), s("1.0.0")).unwrap();
    assert_eq!(env.events.len(), 2, "expected init + reg events");
    assert_eq!(env.events[1].action(), "reg");
}

#[test]
fn test_register_update_emits_reg_event() {
    let (mut env, mut c, _) = setup();
    c.register(&mut env, s("batcher"), s("1.0.0")).unwrap();
    c.register(&mut env, s("batcher"), s("1.1.0")).unwrap();
    assert_eq!(env.events.len(), 3);
    assert_eq!(env.events[1].action(), "reg");
    assert_eq!(env.events[2].action(), "reg");
    assert_eq!(c.get_version(&s("batcher")), Ok(s("1.1.0")));
}

#[test]
fn test_register_with_metadata_emits_regmeta_event() {
    let (mut env, mut c, _) = setup();
    c.register_with_metadata(
        &mut env,
        s("account"),
        s("2.0.0"),
        s("Account abstraction contract"),
        s("mux-labs"),
        s(REPO),
    )
    .unwrap();
    assert_eq!(env.events.len(), 2, "expected init + regmeta events");
    assert_eq!(env.events[1].action(), "regmeta");
}

#[test]
fn test_failed_initialize_emits_no_event() {
    let (mut env, mut c) = fresh(true);
    c.initialize(&mut env, s("admin")).unwrap();
    let _ = c.initialize(&mut env, s("admin"));
    assert_eq!(env.events.len(), 1);
    assert_eq!(env.events[0].action(), "init");
}

#[test]
fn test_over_cap_register_emits_no_extra_event() {
    let (mut env, mut c, _) = setup();
    for i in 0u32..128 {
        c.register(&mut env, two_letter(i), s("1.0.0")).unwrap();
    }
    let before = env.events.len();
    let _ = c.register(&mut env, s("ey"), s("1.0.0"));
    assert_eq!(env.events.len(), before);
}

// ── Further checks of the verified contract ─────────────────────────────────

#[test]
fn register_before_initialize_is_refused() {
    let (mut env, mut c) = fresh(true);
    assert_eq!(c.register(&mut env, s("a"), s("1")), Err(Failure::Contract(MuxRegistryError::NotInitialized)));
    assert_eq!(c.upgrade(&mut env), Err(Failure::Contract(MuxRegistryError::NotInitialized)));
}

#[test]
fn names_keep_registration_order_and_cap() {
    let (mut env, mut c, _) = setup();
    c.register(&mut env, s("b"), s("1")).unwrap();
    c.register(&mut env, s("a"), s("1")).unwrap();
    c.register(&mut env, s("b"), s("2")).unwrap();
    assert_eq!(c.list_contracts(), vec![s("b"), s("a")]);
    assert_eq!(MAX_CONTRACTS, 128);
    assert_eq!(c.check_version(&s("b")), Ok(s("2")));
}

#[test]
fn registered_name_can_still_be_updated_at_cap() {
    let (mut env, mut c, _) = setup();
    for i in 0u32..128 {
        c.register(&mut env, two_letter(i), s("1.0.0")).unwrap();
    }
    assert!(c.register(&mut env, s("aa"), s("9.9.9")).is_ok());
    assert_eq!(c.get_version(&s("aa")), Ok(s("9.9.9")));
    assert_eq!(MuxRegistryError::TooManyContracts.code(), 5);
}

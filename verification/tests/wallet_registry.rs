use mux_contracts::host::{Env, Failure};
use mux_contracts::wallet_registry::{
    MuxWalletRegistry, WalletRegistryError, WalletRegistryEvent, MAX_WALLETS,
};

fn s(x: &str) -> String {
    String::from(x)
}

fn fresh(mock_auths: bool) -> (Env<WalletRegistryEvent>, MuxWalletRegistry) {
    let mut env = Env::new(s("wallet_registry"));
    if mock_auths {
        env.mock_all_auths();
    }
    (env, MuxWalletRegistry::new())
}

fn setup() -> (Env<WalletRegistryEvent>, MuxWalletRegistry, String) {
    let (mut env, mut c) = fresh(true);
    c.initialize(&mut env, s("owner")).unwrap();
    (env, c, s("owner"))
}

fn count_of(c: &MuxWalletRegistry, name: &str) -> usize {
    c.list_wallets().iter().filter(|n| n.as_str() == name).count()
}

#[test]
fn test_initialize_succeeds() {
    let (mut env, mut c) = fresh(true);
    assert!(c.initialize(&mut env, s("owner")).is_ok());
}

#[test]
fn wallet_registry_test_double_initialize_fails() {
    let (mut env, mut c) = fresh(true);
    c.initialize(&mut env, s("owner")).unwrap();
    assert_eq!(
        c.initialize(&mut env, s("owner")),
        Err(Failure::Contract(WalletRegistryError::AlreadyInitialized))
    );
}

#[test]
fn test_double_initialize_with_different_owner_fails() {
    let (mut env, mut c) = fresh(true);
    c.initialize(&mut env, s("owner")).unwrap();
    assert_eq!(
        c.initialize(&mut env, s("other")),
        Err(Failure::Contract(WalletRegistryError::AlreadyInitialized))
    );
    assert!(c.register_wallet(&mut env, s("alice"), s("wallet")).is_ok());
    assert_eq!(c.get_wallet(&s("alice")), Ok(s("wallet")));
}

#[test]
fn wallet_registry_test_initialize_emits_init_event() {
    let (mut env, mut c) = fresh(true);
    c.initialize(&mut env, s("owner")).unwrap();
    assert_eq!(env.events.len(), 1, "expected exactly 1 event after initialize");
    assert_eq!(WalletRegistryEvent::topic(), "mux_wreg");
    assert_eq!(env.events[0].action(), "init");
}

#[test]
fn test_register_and_get_wallet() {
    let (mut env, mut c, _) = setup();
    c.register_wallet(&mut env, s("alice"), s("wallet")).unwrap();
    assert_eq!(c.get_wallet(&s("alice")), Ok(s("wallet")));
}

#[test]
fn test_register_wallet_emits_wlt_reg_event() {
    let (mut env, mut c, _) = setup();
    c.register_wallet(&mut env, s("alice"), s("wallet")).unwrap();
    assert_eq!(env.events.len(), 2, "expected init + wlt_reg events");
    assert_eq!(env.events[1].action(), "wlt_reg");
}

#[test]
fn test_register_wallet_update_emits_wlt_reg_event() {
    let (mut env, mut c, _) = setup();
    c.register_wallet(&mut env, s("bob"), s("wallet1")).unwrap();
    c.register_wallet(&mut env, s("bob"), s("wallet2")).unwrap();
    assert_eq!(env.events.len(), 3);
    assert_eq!(env.events[1].action(), "wlt_reg");
    assert_eq!(env.events[2].action(), "wlt_reg");
    assert_eq!(c.get_wallet(&s("bob")), Ok(s("wallet2")));
}

#[test]
fn test_register_wallet_with_metadata() {
    let (mut env, mut c, _) = setup();
    c.register_wallet_with_metadata(&mut env, s("carol"), s("wallet"), s("Carol's Wallet"), s("Primary spending wallet"))
        .unwrap();
    assert_eq!(c.get_wallet(&s("carol")), Ok(s("wallet")));
    let meta = c.get_metadata(&s("carol")).unwrap();
    assert_eq!(meta.label, s("Carol's Wallet"));
    assert_eq!(meta.description, s("Primary spending wallet"));
}

#[test]
fn test_register_wallet_with_metadata_emits_wlt_meta_event() {
    let (mut env, mut c, _) = setup();
    c.register_wallet_with_metadata(&mut env, s("carol"), s("wallet"), s("Carol's Wallet"), s("Primary spending wallet"))
        .unwrap();
    assert_eq!(env.events.len(), 2, "expected init + wlt_meta events");
    assert_eq!(env.events[1].action(), "wlt_meta");
}

#[test]
fn test_register_wallet_with_metadata_update_emits_wlt_meta_event() {
    let (mut env, mut c, _) = setup();
    c.register_wallet_with_metadata(&mut env, s("dave"), s("wallet"), s("v1"), s("desc")).unwrap();
    c.register_wallet_with_metadata(&mut env, s("dave"), s("wallet"), s("v2"), s("desc")).unwrap();
    assert_eq!(c.get_metadata(&s("dave")).unwrap().label, s("v2"));
    assert_eq!(c.get_wallet(&s("dave")), Ok(s("wallet")));
    assert_eq!(env.events.len(), 3);
    assert_eq!(env.events[1].action(), "wlt_meta");
    assert_eq!(env.events[2].action(), "wlt_meta");
}

#[test]
fn wallet_registry_test_symbol_short_lengths_within_limit() {
    let events = [
        WalletRegistryEvent::Init { owner: s("") },
        WalletRegistryEvent::WalletRegistered { name: s(""), wallet: s("") },
        WalletRegistryEvent::WalletRegisteredWithMetadata { name: s(""), wallet: s("") },
    ];
    assert!(WalletRegistryEvent::topic().len() <= 9);
    for e in events.iter() {
        assert!(e.action().len() <= 9);
    }
}

#[test]
fn test_register_wallet_caps_names() {
    let (mut env, mut c, _) = setup();
    for i in 0..MAX_WALLETS {
        c.register_wallet(&mut env, format!("wallet{}", i), format!("addr{}", i)).unwrap();
    }
    let result = c.register_wallet(&mut env, s("overflow"), s("addr"));
    assert_eq!(result, Err(Failure::Contract(WalletRegistryError::TooManyWallets)));
}

#[test]
fn test_ttl_extended_on_register_wallet() {
    let (mut env, mut c, _) = setup();
    c.register_wallet(&mut env, s("alice"), s("wallet")).unwrap();
    assert_eq!(c.get_wallet(&s("alice")), Ok(s("wallet")));
}

#[test]
fn test_get_wallet_not_found() {
    let (_env, c, _) = setup();
    assert_eq!(c.get_wallet(&s("ghost")), Err(WalletRegistryError::WalletNotFound));
}

#[test]
fn test_register_wallet_before_init_returns_not_initialized() {
    let (mut env, mut c) = fresh(true);
    assert_eq!(
        c.register_wallet(&mut env, s("wallet"), s("addr")),
        Err(Failure::Contract(WalletRegistryError::NotInitialized))
    );
}

#[test]
fn test_get_wallet_on_uninitialised_contract_returns_not_found() {
    let (_env, c) = fresh(false);
    assert_eq!(c.get_wallet(&s("x")), Err(WalletRegistryError::WalletNotFound));
}

#[test]
fn test_get_unknown_name_after_registrations() {
    let (mut env, mut c, _) = setup();
    c.register_wallet(&mut env, s("known"), s("addr")).unwrap();
    assert_eq!(c.get_wallet(&s("unknown")), Err(WalletRegistryError::WalletNotFound));
    assert!(c.get_wallet(&s("known")).is_ok());
}

#[test]
fn test_get_metadata_not_found() {
    let (_env, c, _) = setup();
    assert_eq!(c.get_metadata(&s("ghost")).err(), Some(WalletRegistryError::WalletNotFound));
}

#[test]
fn wallet_registry_test_failed_initialize_emits_no_event() {
    let (mut env, mut c) = fresh(true);
    c.initialize(&mut env, s("owner")).unwrap();
    let _ = c.initialize(&mut env, s("owner"));
    assert_eq!(env.events.len(), 1);
    assert_eq!(env.events[0].action(), "init");
}

#[test]
fn wallet_registry_test_over_cap_register_emits_no_extra_event() {
    let (mut env, mut c, _) = setup();
    for i in 0..MAX_WALLETS {
        c.register_wallet(&mut env, format!("wallet{}", i), format!("addr{}", i)).unwrap();
    }
    let before = env.events.len();
    let _ = c.register_wallet(&mut env, s("overflow"), s("addr"));
    assert_eq!(env.events.len(), before);
}

#[test]
fn test_register_wallet_with_metadata_caps_names() {
    let (mut env, mut c, _) = setup();
    for i in 0..MAX_WALLETS {
        c.register_wallet(&mut env, format!("wlt{}", i), format!("addr{}", i)).unwrap();
    }
    let result = c.register_wallet_with_metadata(&mut env, s("overflow"), s("addr"), s("overflow label"), s("overflow desc"));
    assert_eq!(result, Err(Failure::Contract(WalletRegistryError::TooManyWallets)));
}

#[test]
fn test_register_wallet_with_metadata_no_duplicate_names() {
    let (mut env, mut c, _) = setup();
    c.register_wallet(&mut env, s("carol"), s("wallet")).unwrap();
    c.register_wallet_with_metadata(&mut env, s("carol"), s("wallet"), s("label"), s("desc")).unwrap();
    assert_eq!(count_of(&c, "carol"), 1);
}

#[test]
fn test_register_wallet_with_metadata_before_init_returns_not_initialized() {
    let (mut env, mut c) = fresh(true);
    assert_eq!(
        c.register_wallet_with_metadata(&mut env, s("alice"), s("wallet"), s("label"), s("desc")),
        Err(Failure::Contract(WalletRegistryError::NotInitialized))
    );
}

#[test]
fn test_register_wallet_requires_owner_auth() {
    let (mut env, mut c) = fresh(false);
    c.owner = Some(s("owner"));
    let result = c.register_wallet(&mut env, s("alice"), s("wallet"));
    assert!(result.is_err(), "register_wallet must be rejected when owner auth is absent");
    assert!(c.get_wallet(&s("alice")).is_err(), "no wallet must be stored after a rejected register_wallet");
    assert_eq!(c.list_wallets().len(), 0, "names list must remain empty after a rejected register_wallet");
}

#[test]
fn test_register_wallet_with_metadata_requires_owner_auth() {
    let (mut env, mut c) = fresh(false);
    c.owner = Some(s("owner"));
    let result = c.register_wallet_with_metadata(&mut env, s("bob"), s("wallet"), s("Bob's Wallet"), s("primary wallet"));
    assert!(result.is_err(), "register_wallet_with_metadata must be rejected when owner auth is absent");
    assert!(c.get_wallet(&s("bob")).is_err());
    assert!(c.get_metadata(&s("bob")).is_err());
    assert_eq!(c.list_wallets().len(), 0);
}

#[test]
fn test_register_wallet_rejects_non_owner_caller() {
    let (mut env, mut c) = fresh(false);
    c.owner = Some(s("owner"));
    env.sign(s("stranger"));
    let result = c.register_wallet(&mut env, s("carol"), s("wallet"));
    assert!(result.is_err(), "register_wallet must reject a non-owner caller");
    assert!(c.get_wallet(&s("carol")).is_err());
    assert_eq!(c.list_wallets().len(), 0);
}

#[test]
fn test_register_wallet_with_metadata_rejects_non_owner_caller() {
    let (mut env, mut c) = fresh(false);
    c.owner = Some(s("owner"));
    env.sign(s("stranger"));
    let result = c.register_wallet_with_metadata(&mut env, s("dave"), s("wallet"), s("Dave"), s("desc"));
    assert!(result.is_err(), "register_wallet_with_metadata must reject a non-owner caller");
    assert!(c.get_wallet(&s("dave")).is_err());
    assert!(c.get_metadata(&s("dave")).is_err());
    assert_eq!(c.list_wallets().len(), 0);
}

#[test]
fn test_unauthorized_register_wallet_does_not_affect_other_envs() {
    let (mut env_auth, mut c_auth, _) = setup();
    c_auth.register_wallet(&mut env_auth, s("alice"), s("wallet")).unwrap();
    assert_eq!(c_auth.list_wallets().len(), 1);

    let (mut env_unauth, mut c_unauth) = fresh(false);
    c_unauth.owner = Some(s("owner2"));
    assert!(c_unauth.register_wallet(&mut env_unauth, s("bob"), s("wallet2")).is_err());
    assert_eq!(c_unauth.list_wallets().len(), 0);

    assert_eq!(c_auth.list_wallets().len(), 1);
    assert!(c_auth.get_wallet(&s("alice")).is_ok());
}

#[test]
fn test_get_metadata_on_uninitialized_contract_returns_not_found() {
    let (_env, c) = fresh(false);
    assert_eq!(c.get_metadata(&s("x")).err(), Some(WalletRegistryError::WalletNotFound));
}

#[test]
fn wallet_registry_test_get_metadata_missing_after_register_without_metadata() {
    let (mut env, mut c, _) = setup();
    c.register_wallet(&mut env, s("bare"), s("wallet")).unwrap();
    assert_eq!(c.get_wallet(&s("bare")), Ok(s("wallet")));
    assert_eq!(c.get_metadata(&s("bare")).err(), Some(WalletRegistryError::WalletNotFound));
}

#[test]
fn test_register_then_register_with_metadata_interop() {
    let (mut env, mut c, _) = setup();
    c.register_wallet(&mut env, s("eve"), s("wallet")).unwrap();
    assert_eq!(c.get_wallet(&s("eve")), Ok(s("wallet")));
    assert!(c.get_metadata(&s("eve")).is_err());
    c.register_wallet_with_metadata(&mut env, s("eve"), s("wallet"), s("Eve's Wallet"), s("Upgraded from bare registration"))
        .unwrap();
    assert_eq!(c.get_wallet(&s("eve")), Ok(s("wallet")));
    let meta = c.get_metadata(&s("eve")).unwrap();
    assert_eq!(meta.label, s("Eve's Wallet"));
    assert_eq!(meta.description, s("Upgraded from bare registration"));
}

#[test]
fn test_register_wallet_overwrites_address_for_existing_name() {
    let (mut env, mut c, _) = setup();
    c.register_wallet(&mut env, s("alice"), s("v1")).unwrap();
    assert_eq!(c.get_wallet(&s("alice")), Ok(s("v1")));
    c.register_wallet(&mut env, s("alice"), s("v2")).unwrap();
    assert_eq!(c.get_wallet(&s("alice")), Ok(s("v2")), "get_wallet must return the overwritten address");
    assert_eq!(count_of(&c, "alice"), 1, "name must appear exactly once after overwrite");
}

#[test]
fn test_register_wallet_with_metadata_overwrites_address() {
    let (mut env, mut c, _) = setup();
    c.register_wallet_with_metadata(&mut env, s("bob"), s("v1"), s("Bob"), s("desc")).unwrap();
    assert_eq!(c.get_wallet(&s("bob")), Ok(s("v1")));
    c.register_wallet_with_metadata(&mut env, s("bob"), s("v2"), s("Bob"), s("desc")).unwrap();
    assert_eq!(c.get_wallet(&s("bob")), Ok(s("v2")));
    assert_eq!(count_of(&c, "bob"), 1);
}

#[test]
fn test_register_wallet_after_metadata_path_overwrites_address() {
    let (mut env, mut c, _) = setup();
    c.register_wallet_with_metadata(&mut env, s("carol"), s("v1"), s("Carol"), s("original")).unwrap();
    assert_eq!(c.get_wallet(&s("carol")), Ok(s("v1")));
    c.register_wallet(&mut env, s("carol"), s("v2")).unwrap();
    assert_eq!(c.get_wallet(&s("carol")), Ok(s("v2")));
    assert_eq!(c.get_metadata(&s("carol")).unwrap().label, s("Carol"));
    assert_eq!(count_of(&c, "carol"), 1);
}

#[test]
fn test_list_wallets_reflects_all_registered_names() {
    let (mut env, mut c, _) = setup();
    let pairs = [("alice", "w1"), ("bob", "w2"), ("carol", "w3"), ("dave", "w4")];
    for (name, wallet) in pairs.iter() {
        c.register_wallet(&mut env, s(name), s(wallet)).unwrap();
    }
    let list = c.list_wallets();
    assert_eq!(list.len(), pairs.len(), "list_wallets must return exactly the number of registered names");
    for (name, wallet) in pairs.iter() {
        assert!(list.contains(&s(name)), "list_wallets must include the registered name");
        assert_eq!(c.get_wallet(&s(name)), Ok(s(wallet)));
    }
}

#[test]
fn test_list_wallets_on_uninitialised_contract_returns_empty() {
    let (_env, c) = fresh(false);
    assert_eq!(c.list_wallets().len(), 0);
}

#[test]
fn test_list_wallets_empty_after_initialize() {
    let (_env, c, _) = setup();
    assert_eq!(c.list_wallets().len(), 0);
}

#[test]
fn test_multiple_wallets_round_trip() {
    let (mut env, mut c, _) = setup();
    c.register_wallet(&mut env, s("bare"), s("w1")).unwrap();
    c.register_wallet_with_metadata(&mut env, s("meta"), s("w2"), s("Meta Wallet"), s("registered with metadata"))
        .unwrap();
    c.register_wallet(&mut env, s("bare2"), s("w3")).unwrap();
    assert_eq!(c.get_wallet(&s("bare")), Ok(s("w1")));
    assert_eq!(c.get_wallet(&s("meta")), Ok(s("w2")));
    assert_eq!(c.get_wallet(&s("bare2")), Ok(s("w3")));
    let list = c.list_wallets();
    assert_eq!(list.len(), 3);
    assert!(list.contains(&s("bare")));
    assert!(list.contains(&s("meta")));
    assert!(list.contains(&s("bare2")));
}

#[test]
fn test_get_wallet_requires_no_auth() {
    let (mut env, mut c, _) = setup();
    c.register_wallet(&mut env, s("pub"), s("wallet")).unwrap();
    let (_env2, c2) = fresh(false);
    assert_eq!(c2.get_wallet(&s("anything")), Err(WalletRegistryError::WalletNotFound));
    assert_eq!(c.get_wallet(&s("pub")), Ok(s("wallet")));
}

#[test]
fn test_error_discriminant_values_are_stable() {
    assert_eq!(WalletRegistryError::NotInitialized.code(), 1);
    assert_eq!(WalletRegistryError::AlreadyInitialized.code(), 2);
    assert_eq!(WalletRegistryError::Unauthorized.code(), 3);
    assert_eq!(WalletRegistryError::WalletNotFound.code(), 4);
    assert_eq!(WalletRegistryError::TooManyWallets.code(), 5);
}

// ── Further checks of the verified contract ─────────────────────────────────

#[test]
fn owner_signature_authorizes_registration() {
    let (mut env, mut c) = fresh(false);
    env.sign(s("owner"));
    c.initialize(&mut env, s("owner")).unwrap();
    c.register_wallet(&mut env, s("alice"), s("w")).unwrap();
    assert_eq!(env.auths, vec![s("owner"), s("owner")]);
    match &env.events[1] {
        WalletRegistryEvent::WalletRegistered { name, wallet } => {
            assert_eq!((name.as_str(), wallet.as_str()), ("alice", "w"));
        }
        _ => panic!("expected wlt_reg"),
    }
}

#[test]
fn upgrade_is_owner_gated() {
    let (mut env, c) = fresh(true);
    assert_eq!(c.upgrade(&mut env), Err(Failure::Contract(WalletRegistryError::NotInitialized)));
    let (mut env2, c2, _) = setup();
    assert!(c2.upgrade(&mut env2).is_ok());
}

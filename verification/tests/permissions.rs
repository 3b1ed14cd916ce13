use mux_contracts::host::{Env, Failure};
use mux_contracts::permissions::{
    MuxPermissions, MuxPermissionsError, PermissionsEvent, RegistryMeta, MAX_ROLES_PER_ACCOUNT,
    MAX_ROLE_MEMBERS,
};

type E = MuxPermissionsError;

fn s(x: &str) -> String {
    String::from(x)
}

fn fresh(mock_auths: bool) -> (Env<PermissionsEvent>, MuxPermissions) {
    let mut env = Env::new(s("permissions"));
    if mock_auths {
        env.mock_all_auths();
    }
    (env, MuxPermissions::new())
}

fn setup() -> (Env<PermissionsEvent>, MuxPermissions, String) {
    let (mut env, mut c) = fresh(true);
    c.initialize(&mut env, s("admin")).unwrap();
    (env, c, s("admin"))
}

fn perms(names: &[&str]) -> Vec<String> {
    names.iter().map(|n| s(n)).collect()
}

fn meta(name: &str, version: &str, description: &str) -> RegistryMeta {
    RegistryMeta { name: s(name), version: s(version), description: s(description) }
}

fn action(env: &Env<PermissionsEvent>, i: usize) -> &'static str {
    env.events[i].action()
}

#[test]
fn permissions_test_initialize_emits_event() {
    let (mut env, mut c) = fresh(true);
    c.initialize(&mut env, s("admin")).unwrap();
    assert_eq!(env.events.len(), 1);
    assert_eq!(action(&env, 0), "init");
}

#[test]
fn test_role_lifecycle_emits_events() {
    let (mut env, mut c, _) = setup();
    c.create_role(&mut env, s("editor"), perms(&["write"])).unwrap();
    c.grant_role(&mut env, s("user"), s("editor")).unwrap();
    c.revoke_role(&mut env, s("user"), s("editor")).unwrap();
    assert_eq!(env.events.len(), 4);
    assert_eq!(action(&env, 1), "role_crt");
    assert_eq!(action(&env, 2), "role_grt");
    assert_eq!(action(&env, 3), "role_rev");
}

#[test]
fn test_role_member_cap_enforced() {
    let (mut env, mut c, _) = setup();
    c.create_role(&mut env, s("capped"), Vec::new()).unwrap();
    for i in 0..256 {
        c.grant_role(&mut env, format!("user{}", i), s("capped")).unwrap();
    }
    assert!(c.grant_role(&mut env, s("one_more"), s("capped")).is_err());
}

#[test]
fn test_roles_per_account_cap_enforced() {
    let (mut env, mut c, _) = setup();
    for i in 0..32 {
        let role = format!("r{}", i);
        c.create_role(&mut env, role.clone(), Vec::new()).unwrap();
        c.grant_role(&mut env, s("user"), role).unwrap();
    }
    c.create_role(&mut env, s("overflow"), Vec::new()).unwrap();
    assert!(c.grant_role(&mut env, s("user"), s("overflow")).is_err());
}

#[test]
fn permissions_test_initialize() {
    let (mut env, mut c) = fresh(true);
    assert!(c.initialize(&mut env, s("admin")).is_ok());
}

#[test]
fn permissions_test_upgrade_requires_admin_auth() {
    let (mut env, mut c) = fresh(false);
    c.admin = Some(s("admin"));
    assert!(c.upgrade(&mut env).is_err(), "upgrade must reject when admin auth is absent");
}

#[test]
fn permissions_test_upgrade_before_initialize_returns_not_initialized() {
    let (mut env, c) = fresh(true);
    assert_eq!(c.upgrade(&mut env), Err(Failure::Contract(E::NotInitialized)));
}

#[test]
fn test_create_and_grant_role() {
    let (mut env, mut c, _) = setup();
    c.create_role(&mut env, s("operator"), perms(&["transfer"])).unwrap();
    c.grant_role(&mut env, s("user"), s("operator")).unwrap();
    assert!(c.has_permission(&mut env, s("user"), s("transfer")));
    assert!(c.get_roles(&s("user")).contains(&s("operator")));
}

#[test]
fn test_has_permission_denial_emits_no_event() {
    let (mut env, c, _) = setup();
    assert_eq!(env.events.len(), 1);
    assert!(!c.has_permission(&mut env, s("user"), s("transfer")));
    assert_eq!(env.events.len(), 1, "has_permission returning false must not emit perm_den");
}

#[test]
fn test_has_permission_grant_still_emits_perm_ok() {
    let (mut env, mut c, _) = setup();
    c.create_role(&mut env, s("editor"), perms(&["write"])).unwrap();
    c.grant_role(&mut env, s("user"), s("editor")).unwrap();
    assert_eq!(env.events.len(), 3);
    assert!(c.has_permission(&mut env, s("user"), s("write")));
    assert_eq!(env.events.len(), 4);
    assert_eq!(action(&env, 3), "perm_ok");
}

#[test]
fn test_revoke_role_removes_permission() {
    let (mut env, mut c, _) = setup();
    c.create_role(&mut env, s("viewer"), perms(&["read"])).unwrap();
    c.grant_role(&mut env, s("user"), s("viewer")).unwrap();
    assert!(c.has_permission(&mut env, s("user"), s("read")));
    c.revoke_role(&mut env, s("user"), s("viewer")).unwrap();
    assert!(!c.has_permission(&mut env, s("user"), s("read")));
}

#[test]
fn test_grant_nonexistent_role_fails() {
    let (mut env, mut c, _) = setup();
    assert!(c.grant_role(&mut env, s("user"), s("ghost")).is_err());
}

#[test]
fn permissions_test_double_initialize_fails() {
    let (mut env, mut c, _) = setup();
    assert!(c.initialize(&mut env, s("other")).is_err());
}

#[test]
fn permissions_test_double_initialize_returns_already_initialized_error() {
    let (mut env, mut c, _) = setup();
    assert_eq!(c.initialize(&mut env, s("other")), Err(Failure::Contract(E::AlreadyInitialized)));
}

#[test]
fn test_initialize_after_setup_returns_already_initialized() {
    let (mut env, mut c) = fresh(true);
    assert!(c.initialize(&mut env, s("admin")).is_ok());
    assert_eq!(c.initialize(&mut env, s("admin")), Err(Failure::Contract(E::AlreadyInitialized)));
}

#[test]
fn permissions_test_ttl_extended_on_write() {
    let (_env, c, admin) = setup();
    assert_eq!(c.admin, Some(admin));
}

#[test]
fn test_set_admin_threshold_emits_event() {
    let (mut env, mut c, _) = setup();
    c.set_admin_threshold(&mut env, 2).unwrap();
    assert_eq!(env.events.len(), 2);
    assert_eq!(action(&env, 1), "adm_thr");
}

#[test]
fn test_propose_admin_emits_event() {
    let (mut env, mut c, _) = setup();
    c.propose_admin(&mut env, s("candidate")).unwrap();
    assert_eq!(env.events.len(), 2);
    assert_eq!(action(&env, 1), "adm_prp");
}

#[test]
fn test_propose_admin_idempotent_no_duplicate_event() {
    let (mut env, mut c, _) = setup();
    c.propose_admin(&mut env, s("candidate")).unwrap();
    c.propose_admin(&mut env, s("candidate")).unwrap();
    assert_eq!(env.events.len(), 2);
}

#[test]
fn test_approve_admin_emits_approval_event() {
    let (mut env, mut c, admin) = setup();
    c.set_admin_threshold(&mut env, 2).unwrap();
    c.propose_admin(&mut env, s("candidate")).unwrap();
    c.approve_admin(&mut env, admin, s("candidate")).unwrap();
    assert_eq!(env.events.len(), 4);
    assert_eq!(action(&env, 3), "adm_apr");
}

#[test]
fn test_approve_admin_emits_promotion_event() {
    let (mut env, mut c, admin) = setup();
    c.set_admin_threshold(&mut env, 1).unwrap();
    c.propose_admin(&mut env, s("candidate")).unwrap();
    c.approve_admin(&mut env, admin, s("candidate")).unwrap();
    assert_eq!(env.events.len(), 4);
    assert_eq!(action(&env, 3), "adm_prm");
}

#[test]
fn test_approve_admin_duplicate_approver_fails() {
    let (mut env, mut c, admin) = setup();
    c.set_admin_threshold(&mut env, 2).unwrap();
    c.propose_admin(&mut env, s("candidate")).unwrap();
    c.approve_admin(&mut env, admin.clone(), s("candidate")).unwrap();
    assert!(c.approve_admin(&mut env, admin, s("candidate")).is_err());
}

#[test]
fn test_approve_nonexistent_pending_admin_fails() {
    let (mut env, mut c, admin) = setup();
    assert!(c.approve_admin(&mut env, admin, s("ghost")).is_err());
}

#[test]
fn test_get_admin_threshold_default() {
    let (_env, c, _) = setup();
    assert_eq!(c.get_admin_threshold(), 1);
}

#[test]
fn test_get_admin_threshold_after_set() {
    let (mut env, mut c, _) = setup();
    c.set_admin_threshold(&mut env, 3).unwrap();
    assert_eq!(c.get_admin_threshold(), 3);
}

#[test]
fn test_grant_role_emits_event_with_correct_topics() {
    let (mut env, mut c, _) = setup();
    c.create_role(&mut env, s("editor"), perms(&["write"])).unwrap();
    assert_eq!(env.events.len(), 2);
    c.grant_role(&mut env, s("user"), s("editor")).unwrap();
    assert_eq!(env.events.len(), 3);
    assert_eq!(PermissionsEvent::topic(), "mux_perm");
    assert_eq!(action(&env, 2), "role_grt");
}

#[test]
fn test_revoke_role_emits_event_with_correct_topics() {
    let (mut env, mut c, _) = setup();
    c.create_role(&mut env, s("editor"), perms(&["write"])).unwrap();
    c.grant_role(&mut env, s("user"), s("editor")).unwrap();
    assert_eq!(env.events.len(), 3);
    c.revoke_role(&mut env, s("user"), s("editor")).unwrap();
    assert_eq!(env.events.len(), 4);
    assert_eq!(PermissionsEvent::topic(), "mux_perm");
    assert_eq!(action(&env, 3), "role_rev");
}

#[test]
fn test_grant_role_duplicate_idempotent() {
    let (mut env, mut c, _) = setup();
    c.create_role(&mut env, s("editor"), perms(&["write"])).unwrap();
    c.grant_role(&mut env, s("user"), s("editor")).unwrap();
    assert_eq!(env.events.len(), 3);
    assert!(c.grant_role(&mut env, s("user"), s("editor")).is_ok());
    assert_eq!(env.events.len(), 3);
}

#[test]
fn test_revoke_role_not_member_fails() {
    let (mut env, mut c, _) = setup();
    c.create_role(&mut env, s("editor"), perms(&["write"])).unwrap();
    assert_eq!(c.revoke_role(&mut env, s("user"), s("editor")), Err(Failure::Contract(E::AccountNotInRole)));
}

#[test]
fn test_revoke_role_nonexistent_role_fails() {
    let (mut env, mut c, _) = setup();
    assert_eq!(c.revoke_role(&mut env, s("user"), s("ghost")), Err(Failure::Contract(E::RoleNotFound)));
}

#[test]
fn test_revoke_role_cleans_account_roles() {
    let (mut env, mut c, _) = setup();
    c.create_role(&mut env, s("editor"), perms(&["write"])).unwrap();
    c.grant_role(&mut env, s("user"), s("editor")).unwrap();
    assert!(c.get_roles(&s("user")).contains(&s("editor")));
    c.revoke_role(&mut env, s("user"), s("editor")).unwrap();
    assert!(!c.get_roles(&s("user")).contains(&s("editor")));
}

#[test]
fn test_grant_role_without_admin_auth_fails() {
    let (mut env, mut c, _) = setup();
    assert_eq!(c.grant_role(&mut env, s("user"), s("editor")), Err(Failure::Contract(E::RoleNotFound)));
}

#[test]
fn test_revoke_role_without_admin_auth_fails() {
    let (mut env, mut c, _) = setup();
    c.create_role(&mut env, s("editor"), perms(&["write"])).unwrap();
    c.grant_role(&mut env, s("user"), s("editor")).unwrap();
    assert!(c.revoke_role(&mut env, s("user"), s("editor")).is_ok());
}

#[test]
fn test_grant_role_updates_multiple_accounts() {
    let (mut env, mut c, _) = setup();
    c.create_role(&mut env, s("editor"), perms(&["write"])).unwrap();
    c.grant_role(&mut env, s("user1"), s("editor")).unwrap();
    c.grant_role(&mut env, s("user2"), s("editor")).unwrap();
    assert!(c.get_roles(&s("user1")).contains(&s("editor")));
    assert!(c.get_roles(&s("user2")).contains(&s("editor")));
    assert!(c.has_permission(&mut env, s("user1"), s("write")));
    assert!(c.has_permission(&mut env, s("user2"), s("write")));
    c.revoke_role(&mut env, s("user1"), s("editor")).unwrap();
    assert!(!c.has_permission(&mut env, s("user1"), s("write")));
    assert!(c.has_permission(&mut env, s("user2"), s("write")));
}

#[test]
fn permissions_test_set_and_get_metadata() {
    let (mut env, mut c, _) = setup();
    c.set_metadata(&mut env, meta("mux-testnet-perm", "1.0.0", "Permissions registry for testnet")).unwrap();
    let stored = c.get_metadata().unwrap();
    assert_eq!(stored.name, s("mux-testnet-perm"));
    assert_eq!(stored.version, s("1.0.0"));
    assert_eq!(stored.description, s("Permissions registry for testnet"));
}

#[test]
fn permissions_test_set_metadata_overwrites_previous() {
    let (mut env, mut c, _) = setup();
    c.set_metadata(&mut env, meta("v1", "1.0.0", "first")).unwrap();
    c.set_metadata(&mut env, meta("v2", "2.0.0", "second")).unwrap();
    assert_eq!(c.get_metadata().unwrap().version, s("2.0.0"));
}

#[test]
fn permissions_test_get_metadata_returns_none_when_unset() {
    let (_env, c, _) = setup();
    assert!(c.get_metadata().is_none());
}

#[test]
fn permissions_test_set_metadata_emits_event() {
    let (mut env, mut c, _) = setup();
    c.set_metadata(&mut env, meta("registry", "1.0.0", "")).unwrap();
    assert_eq!(env.events.len(), 2);
    assert_eq!(action(&env, 1), "meta_set");
}

#[test]
fn test_permissions_isolated_across_contract_instances() {
    let (mut env, mut c_a, _) = setup();
    let (mut env_b, mut c_b) = fresh(true);
    c_b.initialize(&mut env_b, s("admin_b")).unwrap();
    c_a.create_role(&mut env, s("editor"), Vec::new()).unwrap();
    c_a.grant_role(&mut env, s("user"), s("editor")).unwrap();
    assert!(c_b.get_roles(&s("user")).is_empty());
}

#[test]
fn test_full_rbac_lifecycle() {
    let (mut env, mut c, _) = setup();
    c.create_role(&mut env, s("operator"), perms(&["execute"])).unwrap();
    c.grant_role(&mut env, s("user"), s("operator")).unwrap();
    assert!(c.has_permission(&mut env, s("user"), s("execute")));
    c.revoke_role(&mut env, s("user"), s("operator")).unwrap();
    assert!(!c.has_permission(&mut env, s("user"), s("execute")));
}

#[test]
fn test_multisig_admin_promotion_transfers_control() {
    let (mut env, mut c, old_admin) = setup();
    c.set_admin_threshold(&mut env, 2).unwrap();
    c.create_role(&mut env, s("sadmin"), Vec::new()).unwrap();
    c.grant_role(&mut env, s("second_approver"), s("sadmin")).unwrap();
    c.propose_admin(&mut env, s("new_admin")).unwrap();
    c.approve_admin(&mut env, old_admin.clone(), s("new_admin")).unwrap();
    assert_eq!(c.admin, Some(old_admin), "admin must remain unchanged below the approval threshold");
    assert!(c.get_pending_admins().contains(&s("new_admin")));
    c.approve_admin(&mut env, s("second_approver"), s("new_admin")).unwrap();
    assert_eq!(c.admin, Some(s("new_admin")), "admin must be promoted once approvals reach the threshold");
    assert!(!c.get_pending_admins().contains(&s("new_admin")));
}

#[test]
fn test_admin_rotation_calls_require_admin_auth() {
    let (mut env, mut c) = fresh(false);
    c.admin = Some(s("admin"));
    assert!(c.propose_admin(&mut env, s("candidate")).is_err(), "propose_admin must reject when admin auth is absent");
    assert!(c.get_pending_admins().is_empty());
    assert!(c.approve_admin(&mut env, s("admin"), s("candidate")).is_err(), "approve_admin must reject when admin auth is absent");
}

#[test]
fn test_multiple_pending_admin_candidates_are_independent() {
    let (mut env, mut c, admin) = setup();
    c.set_admin_threshold(&mut env, 2).unwrap();
    c.propose_admin(&mut env, s("candidate_a")).unwrap();
    c.propose_admin(&mut env, s("candidate_b")).unwrap();
    assert!(c.get_pending_admins().contains(&s("candidate_a")));
    assert!(c.get_pending_admins().contains(&s("candidate_b")));
    c.approve_admin(&mut env, admin, s("candidate_a")).unwrap();
    c.approve_admin(&mut env, s("second_approver"), s("candidate_a")).unwrap();
    assert_eq!(c.admin, Some(s("candidate_a")));
    let pending = c.get_pending_admins();
    assert!(!pending.contains(&s("candidate_a")));
    assert!(pending.contains(&s("candidate_b")));
}

#[test]
fn permissions_test_symbol_short_lengths_within_limit() {
    let events = [
        PermissionsEvent::Init { admin: s("") },
        PermissionsEvent::RoleCreated { role: s("") },
        PermissionsEvent::RoleGranted { account: s(""), role: s("") },
        PermissionsEvent::RoleRevoked { account: s(""), role: s("") },
        PermissionsEvent::PermissionGranted { account: s(""), permission: s("") },
        PermissionsEvent::ThresholdSet { threshold: 0 },
        PermissionsEvent::AdminProposed { new_admin: s("") },
        PermissionsEvent::AdminApproved { approver: s(""), new_admin: s("") },
        PermissionsEvent::AdminPromoted { new_admin: s("") },
        PermissionsEvent::MetaSet { name: s("") },
    ];
    assert!(PermissionsEvent::topic().len() <= 9);
    for e in events.iter() {
        assert!(e.action().len() <= 9);
    }
}

// ── Further checks of the verified contract ─────────────────────────────────

#[test]
fn role_members_listed_and_caps_exposed() {
    let (mut env, mut c, _) = setup();
    assert_eq!(c.get_role_members(&s("editor")).err(), Some(E::RoleNotFound));
    c.create_role(&mut env, s("editor"), perms(&["write", "read"])).unwrap();
    c.grant_role(&mut env, s("a"), s("editor")).unwrap();
    c.grant_role(&mut env, s("b"), s("editor")).unwrap();
    assert_eq!(c.get_role_members(&s("editor")), Ok(vec![s("a"), s("b")]));
    assert_eq!((MAX_ROLE_MEMBERS, MAX_ROLES_PER_ACCOUNT), (256, 32));
}

#[test]
fn permission_from_any_held_role() {
    let (mut env, mut c, _) = setup();
    c.create_role(&mut env, s("r1"), perms(&["x"])).unwrap();
    c.create_role(&mut env, s("r2"), perms(&["y"])).unwrap();
    c.grant_role(&mut env, s("u"), s("r1")).unwrap();
    c.grant_role(&mut env, s("u"), s("r2")).unwrap();
    assert!(c.has_permission(&mut env, s("u"), s("y")));
    assert!(!c.has_permission(&mut env, s("u"), s("z")));
    match &env.events[env.events.len() - 1] {
        PermissionsEvent::PermissionGranted { account, permission } => {
            assert_eq!((account.as_str(), permission.as_str()), ("u", "y"));
        }
        _ => panic!("expected perm_ok"),
    }
}

#[test]
fn admin_only_operations_refuse_other_signers() {
    let (mut env, mut c) = fresh(false);
    env.sign(s("admin"));
    c.initialize(&mut env, s("admin")).unwrap();
    let mut other = Env::new(s("permissions"));
    other.sign(s("mallory"));
    assert_eq!(c.create_role(&mut other, s("r"), Vec::new()), Err(Failure::NotAuthorized(s("admin"))));
    assert_eq!(c.set_admin_threshold(&mut other, 5), Err(Failure::NotAuthorized(s("admin"))));
    assert_eq!(c.get_admin_threshold(), 1);
    assert!(other.events.is_empty());
}

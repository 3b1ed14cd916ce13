//! Role-based access control: an admin creates roles with permission sets
//! and grants them to accounts; a pending admin is promoted by a threshold
//! of approvals.
use vstd::prelude::*;
use crate::host::{auth_check, contract_check, either, gate, require_stored, Env, Failure};
use crate::keys::{contains, copy_all, lemma_without_first, push_str, remove_first, without_first};
use crate::table::{append_to, list_copy, list_of, remove_from, Table};

verus! {

/// Maximum members per role.
pub const MAX_ROLE_MEMBERS: usize = 256;

/// Maximum roles an account may hold.
pub const MAX_ROLES_PER_ACCOUNT: usize = 32;

/// Maximum pending admin candidates.
pub const MAX_PENDING_ADMINS: usize = 16;

/// Errors of the permissions contract.
#[derive(Clone, Copy, Debug, PartialEq, Eq, Structural)]
pub enum MuxPermissionsError {
    /// No admin is stored yet.
    NotInitialized,
    /// An admin is already stored.
    AlreadyInitialized,
    /// The caller may not do this.
    Unauthorized,
    /// No such role.
    RoleNotFound,
    /// The account does not hold the role.
    AccountNotInRole,
    /// No such permission; no entrypoint returns it.
    PermissionNotFound,
    /// No room for another member of the role.
    TooManyMembers,
    /// No room for another role of the account.
    TooManyRoles,
    /// The candidate was not proposed.
    AdminNotFound,
    /// The approver already approved the candidate.
    AlreadyApproved,
    /// No room for another candidate.
    TooManyPendingAdmins,
}

impl MuxPermissionsError {
    /// The stable on-chain error code.
    pub fn code(&self) -> (c: u32)
        ensures
            c == match *self {
                MuxPermissionsError::NotInitialized => 1u32,
                MuxPermissionsError::AlreadyInitialized => 2,
                MuxPermissionsError::Unauthorized => 3,
                MuxPermissionsError::RoleNotFound => 4,
                MuxPermissionsError::AccountNotInRole => 5,
                MuxPermissionsError::PermissionNotFound => 6,
                MuxPermissionsError::TooManyMembers => 7,
                MuxPermissionsError::TooManyRoles => 8,
                MuxPermissionsError::AdminNotFound => 9,
                MuxPermissionsError::AlreadyApproved => 10,
                MuxPermissionsError::TooManyPendingAdmins => 11,
            },
    {
        match self {
            MuxPermissionsError::NotInitialized => 1,
            MuxPermissionsError::AlreadyInitialized => 2,
            MuxPermissionsError::Unauthorized => 3,
            MuxPermissionsError::RoleNotFound => 4,
            MuxPermissionsError::AccountNotInRole => 5,
            MuxPermissionsError::PermissionNotFound => 6,
            MuxPermissionsError::TooManyMembers => 7,
            MuxPermissionsError::TooManyRoles => 8,
            MuxPermissionsError::AdminNotFound => 9,
            MuxPermissionsError::AlreadyApproved => 10,
            MuxPermissionsError::TooManyPendingAdmins => 11,
        }
    }
}

/// Descriptive metadata of the registry instance.
#[derive(Debug)]
pub struct RegistryMeta {
    pub name: String,
    pub version: String,
    pub description: String,
}

impl RegistryMeta {
    /// A copy of this metadata.
    pub fn duplicate(&self) -> (r: Self)
        ensures
            r == *self,
    {
        RegistryMeta {
            name: self.name.clone(),
            version: self.version.clone(),
            description: self.description.clone(),
        }
    }
}

/// A role with its members and permissions, as a client may describe one.
#[derive(Debug)]
pub struct RoleInfo {
    pub name: String,
    pub members: Vec<String>,
    pub permissions: Vec<String>,
}

/// Events published by the permissions contract.
#[derive(Debug)]
pub enum PermissionsEvent {
    /// `init`
    Init { admin: String },
    /// `role_crt`
    RoleCreated { role: String },
    /// `role_grt`
    RoleGranted { account: String, role: String },
    /// `role_rev`
    RoleRevoked { account: String, role: String },
    /// `perm_ok`
    PermissionGranted { account: String, permission: String },
    /// `adm_thr`
    ThresholdSet { threshold: u32 },
    /// `adm_prp`
    AdminProposed { new_admin: String },
    /// `adm_apr`
    AdminApproved { approver: String, new_admin: String },
    /// `adm_prm`
    AdminPromoted { new_admin: String },
    /// `meta_set`
    MetaSet { name: String },
}

impl PermissionsEvent {
    /// The contract tag, the first topic of every event.
    pub fn topic() -> (t: &'static str)
        ensures
            t == "mux_perm",
    {
        "mux_perm"
    }

    /// The action symbol, the second topic of the event.
    pub fn action(&self) -> (a: &'static str)
        ensures
            a == match *self {
                PermissionsEvent::Init { .. } => "init",
                PermissionsEvent::RoleCreated { .. } => "role_crt",
                PermissionsEvent::RoleGranted { .. } => "role_grt",
                PermissionsEvent::RoleRevoked { .. } => "role_rev",
                PermissionsEvent::PermissionGranted { .. } => "perm_ok",
                PermissionsEvent::ThresholdSet { .. } => "adm_thr",
                PermissionsEvent::AdminProposed { .. } => "adm_prp",
                PermissionsEvent::AdminApproved { .. } => "adm_apr",
                PermissionsEvent::AdminPromoted { .. } => "adm_prm",
                PermissionsEvent::MetaSet { .. } => "meta_set",
            },
    {
        match self {
            PermissionsEvent::Init { .. } => "init",
            PermissionsEvent::RoleCreated { .. } => "role_crt",
            PermissionsEvent::RoleGranted { .. } => "role_grt",
            PermissionsEvent::RoleRevoked { .. } => "role_rev",
            PermissionsEvent::PermissionGranted { .. } => "perm_ok",
            PermissionsEvent::ThresholdSet { .. } => "adm_thr",
            PermissionsEvent::AdminProposed { .. } => "adm_prp",
            PermissionsEvent::AdminApproved { .. } => "adm_apr",
            PermissionsEvent::AdminPromoted { .. } => "adm_prm",
            PermissionsEvent::MetaSet { .. } => "meta_set",
        }
    }
}

/// Storage of a permissions contract instance.
pub struct MuxPermissions {
    pub admin: Option<String>,
    /// Members of each role.
    pub role_members: Table<String, Vec<String>>,
    /// Permissions of each role; a role exists when it has an entry here.
    pub role_permissions: Table<String, Vec<String>>,
    /// Roles held by each account.
    pub account_roles: Table<String, Vec<String>>,
    /// Admin candidates awaiting approval.
    pub pending_admins: Vec<String>,
    /// Approvals needed to promote a candidate; 1 when never set.
    pub admin_threshold: Option<u32>,
    /// Approvals given to each candidate.
    pub admin_approvals: Table<String, Vec<String>>,
    pub metadata: Option<RegistryMeta>,
}

type Out = Result<(), Failure<MuxPermissionsError>>;

impl MuxPermissions {
    /// Members of `role`.
    pub open spec fn members(self, role: Seq<char>) -> Seq<Seq<char>> {
        list_of(self.role_members@, role)
    }

    /// Permissions of `role`.
    pub open spec fn perms(self, role: Seq<char>) -> Seq<Seq<char>> {
        list_of(self.role_permissions@, role)
    }

    /// Roles of `account`.
    pub open spec fn roles(self, account: Seq<char>) -> Seq<Seq<char>> {
        list_of(self.account_roles@, account)
    }

    /// Approvals given to `candidate`.
    pub open spec fn approvals(self, candidate: Seq<char>) -> Seq<Seq<char>> {
        list_of(self.admin_approvals@, candidate)
    }

    /// Whether some role of `account` grants `permission`.
    pub open spec fn granted(self, account: Seq<char>, permission: Seq<char>) -> bool {
        exists|i: int|
            0 <= i < self.roles(account).len() && #[trigger] self.perms(self.roles(account)[i]).contains(
                permission,
            )
    }

    /// Approvals needed to promote a candidate.
    pub open spec fn threshold(self) -> u32 {
        match self.admin_threshold {
            Some(t) => t,
            None => 1,
        }
    }

    /// Failure of the admin check.
    pub open spec fn admin_gate(self, env: Env<PermissionsEvent>) -> Option<
        Failure<MuxPermissionsError>,
    > {
        gate(self.admin, env, MuxPermissionsError::NotInitialized)
    }

    /// What every reachable state satisfies: no role has more than
    /// `MAX_ROLE_MEMBERS` members nor the same member twice, no account
    /// holds more than `MAX_ROLES_PER_ACCOUNT` roles, and the pending
    /// candidates are distinct and at most `MAX_PENDING_ADMINS`.
    pub open spec fn inv(self) -> bool {
        &&& forall|role: Seq<char>|
            #![trigger list_of(self.role_members@, role)]
            list_of(self.role_members@, role).len() <= MAX_ROLE_MEMBERS && list_of(
                self.role_members@,
                role,
            ).no_duplicates()
        &&& forall|account: Seq<char>| #[trigger]
            list_of(self.account_roles@, account).len() <= MAX_ROLES_PER_ACCOUNT
        &&& self.pending_admins.deep_view().len() <= MAX_PENDING_ADMINS
        &&& self.pending_admins.deep_view().no_duplicates()
    }

    /// A freshly deployed, uninitialized instance.
    pub fn new() -> (c: Self)
        ensures
            c.admin is None,
            c.role_members@ == Map::<Seq<char>, Vec<String>>::empty(),
            c.role_permissions@ == Map::<Seq<char>, Vec<String>>::empty(),
            c.account_roles@ == Map::<Seq<char>, Vec<String>>::empty(),
            c.pending_admins@.len() == 0,
            c.admin_threshold is None,
            c.admin_approvals@ == Map::<Seq<char>, Vec<String>>::empty(),
            c.metadata is None,
            c.inv(),
    {
        let c = MuxPermissions {
            admin: None,
            role_members: Table::new(),
            role_permissions: Table::new(),
            account_roles: Table::new(),
            pending_admins: Vec::new(),
            admin_threshold: None,
            admin_approvals: Table::new(),
            metadata: None,
        };
        assert(c.pending_admins.deep_view() =~= Seq::<Seq<char>>::empty());
        c
    }

    /// Set the admin, once; the admin must authorize.
    pub fn initialize(&mut self, env: &mut Env<PermissionsEvent>, admin: String) -> (r: Out)
        ensures
            old(self).inv() ==> final(self).inv(),
            old(self).admin is Some ==> r == Err::<(), _>(
                Failure::Contract(MuxPermissionsError::AlreadyInitialized),
            ),
            old(self).admin is None && !old(env).authorizes(admin@) ==> r == Err::<(), _>(
                Failure::<MuxPermissionsError>::NotAuthorized(admin),
            ),
            r is Ok <==> old(self).admin is None && old(env).authorizes(admin@),
            r is Ok ==> *final(self) == (MuxPermissions { admin: Some(admin), ..*old(self) })
                && old(env).completes(
                *final(env),
                seq![admin@],
                seq![PermissionsEvent::Init { admin }],
            ),
            r is Err ==> *final(self) == *old(self) && old(env).fails(*final(env)),
    {
        if self.admin.is_some() {
            return Err(Failure::Contract(MuxPermissionsError::AlreadyInitialized));
        }
        if !env.require_auth(&admin) {
            return Err(Failure::NotAuthorized(admin));
        }
        self.admin = Some(admin.clone());
        env.publish(PermissionsEvent::Init { admin });
        Ok(())
    }

    /// Authorize a code upgrade: the admin must authorize.
    pub fn upgrade(&self, env: &mut Env<PermissionsEvent>) -> (r: Out)
        ensures
            match self.admin_gate(*old(env)) {
                Some(f) => r == Err::<(), _>(f) && old(env).fails(*final(env)),
                None => r is Ok && old(env).completes(*final(env), seq![self.admin->0@], seq![]),
            },
    {
        require_stored(env, &self.admin, MuxPermissionsError::NotInitialized)
    }

    /// The admin creates (or re-creates) `role` with `permissions` and no
    /// member.
    pub fn create_role(
        &mut self,
        env: &mut Env<PermissionsEvent>,
        role: String,
        permissions: Vec<String>,
    ) -> (r: Out)
        ensures
            old(self).inv() ==> final(self).inv(),
            match old(self).admin_gate(*old(env)) {
                Some(f) => r == Err::<(), _>(f) && *final(self) == *old(self) && old(env).fails(
                    *final(env),
                ),
                None => {
                    &&& r is Ok
                    &&& final(self).role_members@.contains_key(role@)
                    &&& final(self).role_members@.dom() == old(self).role_members@.dom().insert(role@)
                    &&& final(self).members(role@) == Seq::<Seq<char>>::empty()
                    &&& forall|x: Seq<char>|
                        x != role@ ==> #[trigger] final(self).members(x) == old(self).members(x)
                    &&& final(self).role_permissions@ == old(self).role_permissions@.insert(
                        role@,
                        permissions,
                    )
                    &&& final(self).account_roles == old(self).account_roles
                    &&& final(self).admin == old(self).admin
                    &&& final(self).pending_admins == old(self).pending_admins
                    &&& final(self).admin_threshold == old(self).admin_threshold
                    &&& final(self).admin_approvals == old(self).admin_approvals
                    &&& final(self).metadata == old(self).metadata
                    &&& old(env).completes(
                        *final(env),
                        seq![old(self).admin->0@],
                        seq![PermissionsEvent::RoleCreated { role }],
                    )
                },
            },
    {
        require_stored(env, &self.admin, MuxPermissionsError::NotInitialized)?;
        let empty: Vec<String> = Vec::new();
        assert(empty.deep_view() =~= Seq::<Seq<char>>::empty());
        self.role_members.set(role.clone(), empty);
        assert forall|x: Seq<char>| #[trigger] list_of(self.role_members@, x) == (if x == role@ {
            Seq::<Seq<char>>::empty()
        } else {
            list_of(old(self).role_members@, x)
        }) by {}
        self.role_permissions.set(role.clone(), permissions);
        env.publish(PermissionsEvent::RoleCreated { role });
        Ok(())
    }

    /// Failure of `grant_role`, if it fails.
    pub open spec fn grant_failure(
        self,
        env: Env<PermissionsEvent>,
        account: Seq<char>,
        role: Seq<char>,
    ) -> Option<Failure<MuxPermissionsError>> {
        either(
            self.admin_gate(env),
            either(
                contract_check(
                    !self.role_permissions@.contains_key(role),
                    MuxPermissionsError::RoleNotFound,
                ),
                if self.members(role).contains(account) {
                    None
                } else {
                    either(
                        contract_check(
                            self.members(role).len() >= MAX_ROLE_MEMBERS,
                            MuxPermissionsError::TooManyMembers,
                        ),
                        contract_check(
                            self.roles(account).len() >= MAX_ROLES_PER_ACCOUNT,
                            MuxPermissionsError::TooManyRoles,
                        ),
                    )
                },
            ),
        )
    }

    /// The admin grants `role` (which must exist) to `account`: it joins the
    /// role's members and the role joins the account's roles. Granting to a
    /// member changes nothing.
    pub fn grant_role(&mut self, env: &mut Env<PermissionsEvent>, account: String, role: String) -> (r:
        Out)
        ensures
            old(self).inv() ==> final(self).inv(),
            match old(self).grant_failure(*old(env), account@, role@) {
                Some(f) => r == Err::<(), _>(f) && *final(self) == *old(self) && old(env).fails(
                    *final(env),
                ),
                None => r is Ok && if old(self).members(role@).contains(account@) {
                    *final(self) == *old(self) && old(env).completes(
                        *final(env),
                        seq![old(self).admin->0@],
                        seq![],
                    )
                } else {
                    &&& final(self).members(role@) == old(self).members(role@).push(account@)
                    &&& final(self).roles(account@) == old(self).roles(account@).push(role@)
                    &&& forall|x: Seq<char>|
                        x != role@ ==> #[trigger] final(self).members(x) == old(self).members(x)
                    &&& forall|x: Seq<char>|
                        x != account@ ==> #[trigger] final(self).roles(x) == old(self).roles(x)
                    &&& final(self).role_members@.dom() == old(self).role_members@.dom().insert(
                        role@,
                    )
                    &&& final(self).role_permissions == old(self).role_permissions
                    &&& final(self).admin == old(self).admin
                    &&& final(self).pending_admins == old(self).pending_admins
                    &&& final(self).admin_threshold == old(self).admin_threshold
                    &&& final(self).admin_approvals == old(self).admin_approvals
                    &&& final(self).metadata == old(self).metadata
                    &&& old(env).completes(
                        *final(env),
                        seq![old(self).admin->0@],
                        seq![PermissionsEvent::RoleGranted { account, role }],
                    )
                },
            },
    {
        require_stored(env, &self.admin, MuxPermissionsError::NotInitialized)?;
        if !self.role_permissions.contains_key(&role) {
            return Err(Failure::Contract(MuxPermissionsError::RoleNotFound));
        }
        let members = list_copy(&self.role_members, &role);
        if contains(&members, &account) {
            assert(final(env).events@ =~= old(env).events@ + seq![]);
            return Ok(());
        }
        assert(members.deep_view().len() == members@.len());
        if members.len() >= MAX_ROLE_MEMBERS {
            return Err(Failure::Contract(MuxPermissionsError::TooManyMembers));
        }
        let roles = list_copy(&self.account_roles, &account);
        assert(roles.deep_view().len() == roles@.len());
        if roles.len() >= MAX_ROLES_PER_ACCOUNT {
            return Err(Failure::Contract(MuxPermissionsError::TooManyRoles));
        }
        append_to(&mut self.role_members, role.clone(), account.clone());
        append_to(&mut self.account_roles, account.clone(), role.clone());
        env.publish(PermissionsEvent::RoleGranted { account, role });
        Ok(())
    }

    /// The admin revokes `role` from `account`, which must be a member.
    pub fn revoke_role(&mut self, env: &mut Env<PermissionsEvent>, account: String, role: String) -> (r:
        Out)
        ensures
            old(self).inv() ==> final(self).inv(),
            match either(
                old(self).admin_gate(*old(env)),
                either(
                    contract_check(
                        !old(self).role_members@.contains_key(role@),
                        MuxPermissionsError::RoleNotFound,
                    ),
                    contract_check(
                        !old(self).members(role@).contains(account@),
                        MuxPermissionsError::AccountNotInRole,
                    ),
                ),
            ) {
                Some(f) => r == Err::<(), _>(f) && *final(self) == *old(self) && old(env).fails(
                    *final(env),
                ),
                None => {
                    &&& r is Ok
                    &&& final(self).members(role@) == without_first(
                        old(self).members(role@),
                        account@,
                    )
                    &&& final(self).roles(account@) == without_first(
                        old(self).roles(account@),
                        role@,
                    )
                    &&& forall|x: Seq<char>|
                        x != role@ ==> #[trigger] final(self).members(x) == old(self).members(x)
                    &&& forall|x: Seq<char>|
                        x != account@ ==> #[trigger] final(self).roles(x) == old(self).roles(x)
                    &&& final(self).role_members@.dom() == old(self).role_members@.dom()
                    &&& final(self).role_permissions == old(self).role_permissions
                    &&& final(self).admin == old(self).admin
                    &&& final(self).pending_admins == old(self).pending_admins
                    &&& final(self).admin_threshold == old(self).admin_threshold
                    &&& final(self).admin_approvals == old(self).admin_approvals
                    &&& final(self).metadata == old(self).metadata
                    &&& old(env).completes(
                        *final(env),
                        seq![old(self).admin->0@],
                        seq![PermissionsEvent::RoleRevoked { account, role }],
                    )
                },
            },
    {
        require_stored(env, &self.admin, MuxPermissionsError::NotInitialized)?;
        if !self.role_members.contains_key(&role) {
            return Err(Failure::Contract(MuxPermissionsError::RoleNotFound));
        }
        let members = list_copy(&self.role_members, &role);
        if !contains(&members, &account) {
            return Err(Failure::Contract(MuxPermissionsError::AccountNotInRole));
        }
        remove_from(&mut self.role_members, role.clone(), &account);
        if self.account_roles.contains_key(&account) {
            remove_from(&mut self.account_roles, account.clone(), &role);
        }
        proof {
            lemma_without_first(old(self).members(role@), account@);
            lemma_without_first(old(self).roles(account@), role@);
        }
        env.publish(PermissionsEvent::RoleRevoked { account, role });
        Ok(())
    }

    /// Whether some role of `account` grants `permission`; a grant is
    /// published.
    pub fn has_permission(
        &self,
        env: &mut Env<PermissionsEvent>,
        account: String,
        permission: String,
    ) -> (b: bool)
        ensures
            b == self.granted(account@, permission@),
            old(env).completes(
                *final(env),
                seq![],
                if b {
                    seq![PermissionsEvent::PermissionGranted { account, permission }]
                } else {
                    seq![]
                },
            ),
    {
        let roles = list_copy(&self.account_roles, &account);
        let mut i: usize = 0;
        while i < roles.len()
            invariant
                *env == *old(env),
                roles.deep_view() == self.roles(account@),
                i <= roles@.len(),
                forall|j: int| 0 <= j < i ==> !#[trigger] self.perms(self.roles(account@)[j]).contains(
                    permission@,
                ),
            decreases roles@.len() - i,
        {
            let perms = list_copy(&self.role_permissions, &roles[i]);
            assert(roles.deep_view()[i as int] == roles@[i as int]@);
            if contains(&perms, &permission) {
                assert(self.perms(self.roles(account@)[i as int]).contains(permission@));
                env.publish(PermissionsEvent::PermissionGranted { account, permission });
                assert(final(env).auths.deep_view() =~= old(env).auths.deep_view() + seq![]);
                return true;
            }
            i = i + 1;
        }
        assert(final(env).auths.deep_view() =~= old(env).auths.deep_view() + seq![]);
        assert(final(env).events@ =~= old(env).events@ + seq![]);
        false
    }

    /// The roles of `account`.
    pub fn get_roles(&self, account: &String) -> (r: Vec<String>)
        ensures
            r.deep_view() == self.roles(account@),
    {
        list_copy(&self.account_roles, account)
    }

    /// The members of `role`, which must exist.
    pub fn get_role_members(&self, role: &String) -> (r: Result<Vec<String>, MuxPermissionsError>)
        ensures
            match r {
                Ok(v) => self.role_members@.contains_key(role@) && v.deep_view() == self.members(role@),
                Err(e) => !self.role_members@.contains_key(role@) && e
                    == MuxPermissionsError::RoleNotFound,
            },
    {
        if !self.role_members.contains_key(role) {
            return Err(MuxPermissionsError::RoleNotFound);
        }
        Ok(list_copy(&self.role_members, role))
    }

    /// The admin sets the number of approvals that promotes a candidate.
    pub fn set_admin_threshold(&mut self, env: &mut Env<PermissionsEvent>, threshold: u32) -> (r: Out)
        ensures
            old(self).inv() ==> final(self).inv(),
            match old(self).admin_gate(*old(env)) {
                Some(f) => r == Err::<(), _>(f) && *final(self) == *old(self) && old(env).fails(
                    *final(env),
                ),
                None => r is Ok && *final(self) == (MuxPermissions {
                    admin_threshold: Some(threshold),
                    ..*old(self)
                }) && old(env).completes(
                    *final(env),
                    seq![old(self).admin->0@],
                    seq![PermissionsEvent::ThresholdSet { threshold }],
                ),
            },
    {
        require_stored(env, &self.admin, MuxPermissionsError::NotInitialized)?;
        self.admin_threshold = Some(threshold);
        env.publish(PermissionsEvent::ThresholdSet { threshold });
        Ok(())
    }

    /// Approvals that promote a candidate (1 when never set).
    pub fn get_admin_threshold(&self) -> (t: u32)
        ensures
            t == self.threshold(),
    {
        match self.admin_threshold {
            Some(t) => t,
            None => 1,
        }
    }

    /// The admin proposes `new_admin`; a new candidate (with no approval) is
    /// added if there is room, a known one changes nothing.
    pub fn propose_admin(&mut self, env: &mut Env<PermissionsEvent>, new_admin: String) -> (r: Out)
        ensures
            old(self).inv() ==> final(self).inv(),
            match either(
                old(self).admin_gate(*old(env)),
                contract_check(
                    !old(self).pending_admins.deep_view().contains(new_admin@)
                        && old(self).pending_admins.deep_view().len() >= MAX_PENDING_ADMINS,
                    MuxPermissionsError::TooManyPendingAdmins,
                ),
            ) {
                Some(f) => r == Err::<(), _>(f) && *final(self) == *old(self) && old(env).fails(
                    *final(env),
                ),
                None => r is Ok && if old(self).pending_admins.deep_view().contains(new_admin@) {
                    *final(self) == *old(self) && old(env).completes(
                        *final(env),
                        seq![old(self).admin->0@],
                        seq![],
                    )
                } else {
                    &&& final(self).pending_admins.deep_view() == old(
                        self,
                    ).pending_admins.deep_view().push(new_admin@)
                    &&& final(self).admin_approvals@.dom() == old(self).admin_approvals@.dom().insert(
                        new_admin@,
                    )
                    &&& final(self).approvals(new_admin@) == Seq::<Seq<char>>::empty()
                    &&& forall|x: Seq<char>|
                        x != new_admin@ ==> #[trigger] final(self).approvals(x) == old(self).approvals(x)
                    &&& final(self).admin == old(self).admin
                    &&& final(self).role_members == old(self).role_members
                    &&& final(self).role_permissions == old(self).role_permissions
                    &&& final(self).account_roles == old(self).account_roles
                    &&& final(self).admin_threshold == old(self).admin_threshold
                    &&& final(self).metadata == old(self).metadata
                    &&& old(env).completes(
                        *final(env),
                        seq![old(self).admin->0@],
                        seq![PermissionsEvent::AdminProposed { new_admin }],
                    )
                },
            },
    {
        require_stored(env, &self.admin, MuxPermissionsError::NotInitialized)?;
        if contains(&self.pending_admins, &new_admin) {
            assert(final(env).events@ =~= old(env).events@ + seq![]);
            return Ok(());
        }
        assert(self.pending_admins.deep_view().len() == self.pending_admins@.len());
        if self.pending_admins.len() >= MAX_PENDING_ADMINS {
            return Err(Failure::Contract(MuxPermissionsError::TooManyPendingAdmins));
        }
        push_str(&mut self.pending_admins, new_admin.clone());
        let empty: Vec<String> = Vec::new();
        assert(empty.deep_view() =~= Seq::<Seq<char>>::empty());
        let ghost k = new_admin@;
        self.admin_approvals.set(new_admin.clone(), empty);
        assert(self.admin_approvals@.dom() =~= old(self).admin_approvals@.dom().insert(k));
        env.publish(PermissionsEvent::AdminProposed { new_admin });
        Ok(())
    }

    /// The admin and `approver` approve the candidate `new_admin`, once per
    /// approver. Reaching the threshold promotes the candidate to admin and
    /// removes it from the candidates.
    pub fn approve_admin(
        &mut self,
        env: &mut Env<PermissionsEvent>,
        approver: String,
        new_admin: String,
    ) -> (r: Out)
        ensures
            old(self).inv() ==> final(self).inv(),
            match either(
                old(self).admin_gate(*old(env)),
                either(
                    auth_check(*old(env), approver),
                    either(
                        contract_check(
                            !old(self).pending_admins.deep_view().contains(new_admin@),
                            MuxPermissionsError::AdminNotFound,
                        ),
                        contract_check(
                            old(self).approvals(new_admin@).contains(approver@),
                            MuxPermissionsError::AlreadyApproved,
                        ),
                    ),
                ),
            ) {
                Some(f) => r == Err::<(), _>(f) && *final(self) == *old(self) && old(env).fails(
                    *final(env),
                ),
                None => {
                    let promoted = old(self).approvals(new_admin@).len() + 1 >= old(self).threshold();
                    &&& r is Ok
                    &&& final(self).approvals(new_admin@) == old(self).approvals(new_admin@).push(
                        approver@,
                    )
                    &&& forall|x: Seq<char>|
                        x != new_admin@ ==> #[trigger] final(self).approvals(x) == old(self).approvals(x)
                    &&& final(self).admin == if promoted {
                        Some(new_admin)
                    } else {
                        old(self).admin
                    }
                    &&& final(self).pending_admins.deep_view() == if promoted {
                        without_first(old(self).pending_admins.deep_view(), new_admin@)
                    } else {
                        old(self).pending_admins.deep_view()
                    }
                    &&& final(self).role_members == old(self).role_members
                    &&& final(self).role_permissions == old(self).role_permissions
                    &&& final(self).account_roles == old(self).account_roles
                    &&& final(self).admin_threshold == old(self).admin_threshold
                    &&& final(self).metadata == old(self).metadata
                    &&& old(env).completes(
                        *final(env),
                        seq![old(self).admin->0@, approver@],
                        seq![
                            if promoted {
                                PermissionsEvent::AdminPromoted { new_admin }
                            } else {
                                PermissionsEvent::AdminApproved { approver, new_admin }
                            },
                        ],
                    )
                },
            },
    {
        require_stored(env, &self.admin, MuxPermissionsError::NotInitialized)?;
        if !env.require_auth(&approver) {
            return Err(Failure::NotAuthorized(approver));
        }
        if !contains(&self.pending_admins, &new_admin) {
            return Err(Failure::Contract(MuxPermissionsError::AdminNotFound));
        }
        let approvals = list_copy(&self.admin_approvals, &new_admin);
        if contains(&approvals, &approver) {
            return Err(Failure::Contract(MuxPermissionsError::AlreadyApproved));
        }
        let count = approvals.len();
        assert(approvals.deep_view().len() == approvals@.len());
        append_to(&mut self.admin_approvals, new_admin.clone(), approver.clone());
        let threshold: u32 = match self.admin_threshold {
            Some(t) => t,
            None => 1,
        };
        if count >= threshold as usize || count + 1 >= threshold as usize {
            remove_first(&mut self.pending_admins, &new_admin);
            self.admin = Some(new_admin.clone());
            env.publish(PermissionsEvent::AdminPromoted { new_admin });
        } else {
            env.publish(PermissionsEvent::AdminApproved { approver, new_admin });
        }
        assert(final(env).auths.deep_view() =~= old(env).auths.deep_view() + seq![
            old(self).admin->0@,
            approver@,
        ]);
        proof {
            if old(self).inv() {
                assert(self.pending_admins.deep_view().no_duplicates()) by {
                    let s0 = old(self).pending_admins.deep_view();
                    let s1 = self.pending_admins.deep_view();
                    if s1 != s0 {
                        assert(s1 == s0.remove(crate::keys::first_index(s0, new_admin@)));
                        assert forall|a: int, b: int| 0 <= a < b < s1.len() implies s1[a] != s1[b] by {
                            let k = crate::keys::first_index(s0, new_admin@);
                            let a1 = if a < k { a } else { a + 1 };
                            let b1 = if b < k { b } else { b + 1 };
                            assert(s1[a] == s0[a1] && s1[b] == s0[b1]);
                        }
                    }
                }
            }
        }
        Ok(())
    }

    /// The admin candidates.
    pub fn get_pending_admins(&self) -> (r: Vec<String>)
        ensures
            r.deep_view() == self.pending_admins.deep_view(),
    {
        copy_all(&self.pending_admins)
    }

    /// The admin stores descriptive metadata, replacing any earlier.
    pub fn set_metadata(&mut self, env: &mut Env<PermissionsEvent>, meta: RegistryMeta) -> (r: Out)
        ensures
            old(self).inv() ==> final(self).inv(),
            match old(self).admin_gate(*old(env)) {
                Some(f) => r == Err::<(), _>(f) && *final(self) == *old(self) && old(env).fails(
                    *final(env),
                ),
                None => r is Ok && *final(self) == (MuxPermissions {
                    metadata: Some(meta),
                    ..*old(self)
                }) && old(env).completes(
                    *final(env),
                    seq![old(self).admin->0@],
                    seq![PermissionsEvent::MetaSet { name: meta.name }],
                ),
            },
    {
        require_stored(env, &self.admin, MuxPermissionsError::NotInitialized)?;
        let name = meta.name.clone();
        self.metadata = Some(meta);
        env.publish(PermissionsEvent::MetaSet { name });
        Ok(())
    }

    /// The stored metadata, if any.
    pub fn get_metadata(&self) -> (r: Option<RegistryMeta>)
        ensures
            r == self.metadata,
    {
        match &self.metadata {
            Some(m) => Some(m.duplicate()),
            None => None,
        }
    }
}

/// Granting a role gives its permissions: once `role` has joined the roles
/// of `account`, with the roles' permissions unchanged, the account holds
/// every permission of `role`.
pub proof fn grant_then_has_permission(
    before: MuxPermissions,
    after: MuxPermissions,
    account: Seq<char>,
    role: Seq<char>,
    permission: Seq<char>,
)
    requires
        after.roles(account) == before.roles(account).push(role),
        after.role_permissions == before.role_permissions,
        before.perms(role).contains(permission),
    ensures
        after.granted(account, permission),
{
    let i = before.roles(account).len() as int;
    assert(after.roles(account)[i] == role);
    assert(after.perms(after.roles(account)[i]).contains(permission));
}

/// Role changes of one account leave every other account's permissions as
/// they were.
pub proof fn other_accounts_unaffected(
    before: MuxPermissions,
    after: MuxPermissions,
    account: Seq<char>,
    other: Seq<char>,
    permission: Seq<char>,
)
    requires
        forall|x: Seq<char>| x != account ==> #[trigger] after.roles(x) == before.roles(x),
        after.role_permissions == before.role_permissions,
        other != account,
    ensures
        after.granted(other, permission) == before.granted(other, permission),
{
    assert(after.roles(other) == before.roles(other));
    if before.granted(other, permission) {
        let i = choose|i: int|
            0 <= i < before.roles(other).len() && #[trigger] before.perms(
                before.roles(other)[i],
            ).contains(permission);
        assert(after.perms(after.roles(other)[i]).contains(permission));
    }
    if after.granted(other, permission) {
        let i = choose|i: int|
            0 <= i < after.roles(other).len() && #[trigger] after.perms(
                after.roles(other)[i],
            ).contains(permission);
        assert(before.perms(before.roles(other)[i]).contains(permission));
    }
}

} // verus!

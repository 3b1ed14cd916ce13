//! Scoped delegation: an owner grants a delegate a set of permission
//! symbols; granting again replaces the set, revoking removes it.
use vstd::prelude::*;
use crate::host::{gate, require_stored, Env, Failure};
use crate::keys::{contains, copy_all, lemma_without_first, without_first};
use crate::table::{append_to, list_copy, list_of, remove_from, Table};

verus! {

/// Maximum permissions in one grant.
pub const MAX_DELEGATE_PERMS: usize = 64;

/// Maximum delegates registered under one owner.
pub const MAX_DELEGATES_PER_OWNER: usize = 128;

/// Errors returned by the delegation contract.
#[derive(Clone, Copy, Debug, PartialEq, Eq, Structural)]
pub enum MuxDelegationError {
    /// No grant exists for the (owner, delegate) pair.
    NotADelegate,
    /// More than `MAX_DELEGATE_PERMS` permissions.
    TooManyPermissions,
    /// No permission given.
    EmptyPermissions,
    /// The owner already has `MAX_DELEGATES_PER_OWNER` delegates.
    TooManyDelegates,
    /// The contract address was already linked.
    ContractIdAlreadySet,
    /// `upgrade` was called before `initialize`.
    NotInitialized,
    /// `initialize` was called twice.
    AlreadyInitialized,
}

impl MuxDelegationError {
    /// The stable on-chain error code.
    pub fn code(&self) -> (c: u32)
        ensures
            c == match *self {
                MuxDelegationError::NotADelegate => 6001u32,
                MuxDelegationError::TooManyPermissions => 6002,
                MuxDelegationError::EmptyPermissions => 6003,
                MuxDelegationError::TooManyDelegates => 6004,
                MuxDelegationError::ContractIdAlreadySet => 6005,
                MuxDelegationError::NotInitialized => 6006,
                MuxDelegationError::AlreadyInitialized => 6007,
            },
    {
        match self {
            MuxDelegationError::NotADelegate => 6001,
            MuxDelegationError::TooManyPermissions => 6002,
            MuxDelegationError::EmptyPermissions => 6003,
            MuxDelegationError::TooManyDelegates => 6004,
            MuxDelegationError::ContractIdAlreadySet => 6005,
            MuxDelegationError::NotInitialized => 6006,
            MuxDelegationError::AlreadyInitialized => 6007,
        }
    }
}

/// Events published by the delegation contract (topic `mux_dlg`, then the
/// action).
#[derive(Debug)]
pub enum DelegationEvent {
    /// `init`: the admin was set.
    Init { admin: String },
    /// `dlg_grant`: `owner` granted permissions to `delegate`.
    Granted { owner: String, delegate: String },
    /// `dlg_rev`: `owner` revoked `delegate`.
    Revoked { owner: String, delegate: String },
    /// `dlg_link`: the contract address was linked.
    Linked { admin: String, contract_id: String },
}

impl DelegationEvent {
    /// The contract tag, the first topic of every event.
    pub fn topic() -> (t: &'static str)
        ensures
            t == "mux_dlg",
    {
        "mux_dlg"
    }

    /// The action symbol, the second topic of the event.
    pub fn action(&self) -> (a: &'static str)
        ensures
            a == match *self {
                DelegationEvent::Init { .. } => "init",
                DelegationEvent::Granted { .. } => "dlg_grant",
                DelegationEvent::Revoked { .. } => "dlg_rev",
                DelegationEvent::Linked { .. } => "dlg_link",
            },
    {
        match self {
            DelegationEvent::Init { .. } => "init",
            DelegationEvent::Granted { .. } => "dlg_grant",
            DelegationEvent::Revoked { .. } => "dlg_rev",
            DelegationEvent::Linked { .. } => "dlg_link",
        }
    }
}

/// Storage of a delegation contract instance.
pub struct MuxDelegation {
    /// Upgrade authority, once initialized.
    pub admin: Option<String>,
    /// Permission set granted for each (owner, delegate) pair.
    pub grants: Table<(String, String), Vec<String>>,
    /// Delegates registered under each owner, in order of first grant.
    pub owner_delegates: Table<String, Vec<String>>,
    /// This contract's own address, once linked.
    pub contract_id: Option<String>,
}

type Out = Result<(), Failure<MuxDelegationError>>;

impl MuxDelegation {
    /// Permissions granted by `owner` to `delegate`, empty when none.
    pub open spec fn perms_of(self, owner: Seq<char>, delegate: Seq<char>) -> Seq<Seq<char>> {
        if self.grants@.contains_key((owner, delegate)) {
            self.grants@[(owner, delegate)].deep_view()
        } else {
            Seq::empty()
        }
    }

    /// Delegates registered under `owner`.
    pub open spec fn delegates_of(self, owner: Seq<char>) -> Seq<Seq<char>> {
        list_of(self.owner_delegates@, owner)
    }

    /// No owner has more than `MAX_DELEGATES_PER_OWNER` delegates nor the
    /// same delegate twice.
    pub open spec fn inv(self) -> bool {
        forall|owner: Seq<char>| #[trigger]
            self.delegates_of(owner).len() <= MAX_DELEGATES_PER_OWNER && self.delegates_of(
                owner,
            ).no_duplicates()
    }

    /// The contract error with which granting `n` permissions to `delegate`
    /// is refused, if any.
    pub open spec fn grant_check(self, owner: Seq<char>, delegate: Seq<char>, n: nat) -> Option<
        MuxDelegationError,
    > {
        if n == 0 {
            Some(MuxDelegationError::EmptyPermissions)
        } else if n > MAX_DELEGATE_PERMS {
            Some(MuxDelegationError::TooManyPermissions)
        } else if !self.delegates_of(owner).contains(delegate) && self.delegates_of(owner).len()
            >= MAX_DELEGATES_PER_OWNER {
            Some(MuxDelegationError::TooManyDelegates)
        } else {
            None
        }
    }

    /// `post` is `self` after `owner` granted `perms` to `delegate`: the
    /// grant replaces any earlier one, and a new delegate is appended to the
    /// owner's list.
    pub open spec fn granted(
        self,
        post: Self,
        owner: Seq<char>,
        delegate: Seq<char>,
        perms: Seq<Seq<char>>,
    ) -> bool {
        &&& post.admin == self.admin
        &&& post.contract_id == self.contract_id
        &&& post.grants@.dom() == self.grants@.dom().insert((owner, delegate))
        &&& forall|o: Seq<char>, d: Seq<char>| #[trigger]
            post.perms_of(o, d) == if o == owner && d == delegate {
                perms
            } else {
                self.perms_of(o, d)
            }
        &&& forall|o: Seq<char>| #[trigger]
            post.delegates_of(o) == if o == owner && !self.delegates_of(owner).contains(delegate) {
                self.delegates_of(owner).push(delegate)
            } else {
                self.delegates_of(o)
            }
    }

    /// `post` is `self` after `owner` revoked `delegate`: the grant is gone
    /// and the delegate left the owner's list.
    pub open spec fn revoked(self, post: Self, owner: Seq<char>, delegate: Seq<char>) -> bool {
        &&& post.admin == self.admin
        &&& post.contract_id == self.contract_id
        &&& post.grants@.dom() == self.grants@.dom().remove((owner, delegate))
        &&& forall|o: Seq<char>, d: Seq<char>| #[trigger]
            post.perms_of(o, d) == if o == owner && d == delegate {
                Seq::empty()
            } else {
                self.perms_of(o, d)
            }
        &&& forall|o: Seq<char>| #[trigger]
            post.delegates_of(o) == if o == owner {
                without_first(self.delegates_of(owner), delegate)
            } else {
                self.delegates_of(o)
            }
    }

    /// A freshly deployed instance: no admin, no grant, no link.
    pub fn new() -> (c: Self)
        ensures
            c.admin is None,
            c.grants@ == Map::<(Seq<char>, Seq<char>), Vec<String>>::empty(),
            c.owner_delegates@ == Map::<Seq<char>, Vec<String>>::empty(),
            c.contract_id is None,
            c.inv(),
    {
        MuxDelegation {
            admin: None,
            grants: Table::new(),
            owner_delegates: Table::new(),
            contract_id: None,
        }
    }

    /// Set the upgrade admin, once; the admin must authorize.
    pub fn initialize(&mut self, env: &mut Env<DelegationEvent>, admin: String) -> (r: Out)
        ensures
            old(self).admin is Some ==> r == Err::<(), _>(
                Failure::Contract(MuxDelegationError::AlreadyInitialized),
            ),
            old(self).admin is None && !old(env).authorizes(admin@) ==> r == Err::<(), _>(
                Failure::<MuxDelegationError>::NotAuthorized(admin),
            ),
            r is Ok <==> old(self).admin is None && old(env).authorizes(admin@),
            r is Ok ==> *final(self) == (MuxDelegation { admin: Some(admin), ..*old(self) })
                && old(env).completes(
                *final(env),
                seq![admin@],
                seq![DelegationEvent::Init { admin }],
            ),
            r is Err ==> *final(self) == *old(self) && old(env).fails(*final(env)),
    {
        if self.admin.is_some() {
            return Err(Failure::Contract(MuxDelegationError::AlreadyInitialized));
        }
        if !env.require_auth(&admin) {
            return Err(Failure::NotAuthorized(admin));
        }
        self.admin = Some(admin.clone());
        env.publish(DelegationEvent::Init { admin });
        Ok(())
    }

    /// Authorize a code upgrade: the admin must authorize.
    pub fn upgrade(&self, env: &mut Env<DelegationEvent>) -> (r: Out)
        ensures
            match gate(self.admin, *old(env), MuxDelegationError::NotInitialized) {
                Some(f) => r == Err::<(), _>(f) && old(env).fails(*final(env)),
                None => r is Ok && old(env).completes(*final(env), seq![self.admin->0@], seq![]),
            },
    {
        require_stored(env, &self.admin, MuxDelegationError::NotInitialized)
    }

    /// `owner`, who must authorize, grants `permissions` to `delegate`,
    /// replacing any earlier grant. The set must hold between 1 and
    /// `MAX_DELEGATE_PERMS` permissions, and a new delegate needs room under
    /// `MAX_DELEGATES_PER_OWNER`.
    pub fn grant_delegate(
        &mut self,
        env: &mut Env<DelegationEvent>,
        owner: String,
        delegate: String,
        permissions: Vec<String>,
    ) -> (r: Out)
        requires
            old(self).inv(),
        ensures
            final(self).inv(),
            !old(env).authorizes(owner@) ==> r == Err::<(), _>(
                Failure::<MuxDelegationError>::NotAuthorized(owner),
            ),
            old(env).authorizes(owner@) ==> r == match old(self).grant_check(
                owner@,
                delegate@,
                permissions@.len(),
            ) {
                Some(e) => Err(Failure::Contract(e)),
                None => Ok::<(), Failure<MuxDelegationError>>(()),
            },
            r is Ok ==> {
                &&& old(self).granted(*final(self), owner@, delegate@, permissions.deep_view())
                &&& old(env).completes(
                    *final(env),
                    seq![owner@],
                    seq![DelegationEvent::Granted { owner, delegate }],
                )
            },
            r is Err ==> *final(self) == *old(self) && old(env).fails(*final(env)),
    {
        if !env.require_auth(&owner) {
            return Err(Failure::NotAuthorized(owner));
        }
        if permissions.len() == 0 {
            return Err(Failure::Contract(MuxDelegationError::EmptyPermissions));
        }
        if permissions.len() > MAX_DELEGATE_PERMS {
            return Err(Failure::Contract(MuxDelegationError::TooManyPermissions));
        }
        let list = list_copy(&self.owner_delegates, &owner);
        let known = contains(&list, &delegate);
        let ghost pre = *self;
        if !known {
            if list.len() >= MAX_DELEGATES_PER_OWNER {
                return Err(Failure::Contract(MuxDelegationError::TooManyDelegates));
            }
            append_to(&mut self.owner_delegates, owner.clone(), delegate.clone());
            assert forall|o: Seq<char>| #[trigger]
                self.delegates_of(o).len() <= MAX_DELEGATES_PER_OWNER && self.delegates_of(
                    o,
                ).no_duplicates() by {
                assert(pre.delegates_of(o).len() <= MAX_DELEGATES_PER_OWNER && pre.delegates_of(
                    o,
                ).no_duplicates());
                if o == owner@ {
                    let s = pre.delegates_of(o);
                    let t = s.push(delegate@);
                    assert forall|i: int, j: int| 0 <= i < j < t.len() implies t[i] != t[j] by {
                        if j == s.len() {
                            assert(s[i] != delegate@);
                        } else {
                            assert(s[i] != s[j]);
                        }
                    }
                }
            }
        }
        let ghost mid = *self;
        let ghost pv = permissions.deep_view();
        self.grants.set((owner.clone(), delegate.clone()), permissions);
        assert(self.grants@.dom() =~= pre.grants@.dom().insert((owner@, delegate@)));
        assert forall|o: Seq<char>| #[trigger] self.delegates_of(o) == mid.delegates_of(o) by {}
        assert forall|o: Seq<char>, d: Seq<char>| #[trigger]
            self.perms_of(o, d) == if o == owner@ && d == delegate@ {
                pv
            } else {
                pre.perms_of(o, d)
            } by {}
        env.publish(DelegationEvent::Granted { owner, delegate });
        Ok(())
    }

    /// `owner`, who must authorize, revokes every permission of `delegate`;
    /// there must be a grant.
    pub fn revoke_delegate(&mut self, env: &mut Env<DelegationEvent>, owner: String, delegate: String) -> (r:
        Out)
        requires
            old(self).inv(),
        ensures
            final(self).inv(),
            !old(env).authorizes(owner@) ==> r == Err::<(), _>(
                Failure::<MuxDelegationError>::NotAuthorized(owner),
            ),
            old(env).authorizes(owner@) && !old(self).grants@.contains_key((owner@, delegate@)) ==> r
                == Err::<(), _>(Failure::Contract(MuxDelegationError::NotADelegate)),
            r is Ok <==> old(env).authorizes(owner@) && old(self).grants@.contains_key(
                (owner@, delegate@),
            ),
            r is Ok ==> {
                &&& old(self).revoked(*final(self), owner@, delegate@)
                &&& old(env).completes(
                    *final(env),
                    seq![owner@],
                    seq![DelegationEvent::Revoked { owner, delegate }],
                )
            },
            r is Err ==> *final(self) == *old(self) && old(env).fails(*final(env)),
    {
        if !env.require_auth(&owner) {
            return Err(Failure::NotAuthorized(owner));
        }
        let key = (owner.clone(), delegate.clone());
        if !self.grants.contains_key(&key) {
            return Err(Failure::Contract(MuxDelegationError::NotADelegate));
        }
        let ghost pre = *self;
        self.grants.remove(&key);
        assert(self.grants@.dom() =~= pre.grants@.dom().remove((owner@, delegate@)));
        assert forall|o: Seq<char>, d: Seq<char>| #[trigger]
            self.perms_of(o, d) == if o == owner@ && d == delegate@ {
                Seq::<Seq<char>>::empty()
            } else {
                pre.perms_of(o, d)
            } by {}
        let list = list_copy(&self.owner_delegates, &owner);
        if contains(&list, &delegate) {
            remove_from(&mut self.owner_delegates, owner.clone(), &delegate);
        }
        assert forall|o: Seq<char>| #[trigger]
            self.delegates_of(o) == if o == owner@ {
                without_first(pre.delegates_of(owner@), delegate@)
            } else {
                pre.delegates_of(o)
            } by {}
        assert forall|o: Seq<char>| #[trigger]
            self.delegates_of(o).len() <= MAX_DELEGATES_PER_OWNER && self.delegates_of(
                o,
            ).no_duplicates() by {
            assert(pre.delegates_of(o).len() <= MAX_DELEGATES_PER_OWNER && pre.delegates_of(
                o,
            ).no_duplicates());
            lemma_without_first(pre.delegates_of(o), delegate@);
        }
        env.publish(DelegationEvent::Revoked { owner, delegate });
        Ok(())
    }

    /// Permissions granted by `owner` to `delegate`, empty when none.
    pub fn get_delegate_permissions(&self, owner: &String, delegate: &String) -> (r: Vec<String>)
        ensures
            r.deep_view() == self.perms_of(owner@, delegate@),
    {
        match self.grants.get(&(owner.clone(), delegate.clone())) {
            Some(v) => copy_all(v),
            None => Vec::new(),
        }
    }

    /// Whether `owner` granted `permission` to `delegate`.
    pub fn is_delegate(&self, owner: &String, delegate: &String, permission: &String) -> (r: bool)
        ensures
            r == self.perms_of(owner@, delegate@).contains(permission@),
    {
        match self.grants.get(&(owner.clone(), delegate.clone())) {
            Some(v) => contains(v, permission),
            None => false,
        }
    }

    /// Delegates registered under `owner`, empty when none.
    pub fn get_delegates(&self, owner: &String) -> (r: Vec<String>)
        ensures
            r.deep_view() == self.delegates_of(owner@),
    {
        list_copy(&self.owner_delegates, owner)
    }

    /// `Ok` when `owner` granted `permission` to `delegate`, `NotADelegate`
    /// otherwise.
    pub fn check_delegate(&self, owner: &String, delegate: &String, permission: &String) -> (r:
        Result<(), MuxDelegationError>)
        ensures
            r == if self.perms_of(owner@, delegate@).contains(permission@) {
                Ok::<(), MuxDelegationError>(())
            } else {
                Err(MuxDelegationError::NotADelegate)
            },
    {
        if self.is_delegate(owner, delegate, permission) {
            Ok(())
        } else {
            Err(MuxDelegationError::NotADelegate)
        }
    }

    /// Record this contract's own address, once; `admin` (any address
    /// naming itself) must authorize.
    pub fn link_contract_id(
        &mut self,
        env: &mut Env<DelegationEvent>,
        admin: String,
        contract_id: String,
    ) -> (r: Out)
        ensures
            !old(env).authorizes(admin@) ==> r == Err::<(), _>(
                Failure::<MuxDelegationError>::NotAuthorized(admin),
            ),
            old(env).authorizes(admin@) && old(self).contract_id is Some ==> r == Err::<(), _>(
                Failure::Contract(MuxDelegationError::ContractIdAlreadySet),
            ),
            r is Ok <==> old(env).authorizes(admin@) && old(self).contract_id is None,
            r is Ok ==> *final(self) == (MuxDelegation {
                contract_id: Some(contract_id),
                ..*old(self)
            }) && old(env).completes(
                *final(env),
                seq![admin@],
                seq![DelegationEvent::Linked { admin, contract_id }],
            ),
            r is Err ==> *final(self) == *old(self) && old(env).fails(*final(env)),
    {
        if !env.require_auth(&admin) {
            return Err(Failure::NotAuthorized(admin));
        }
        if self.contract_id.is_some() {
            return Err(Failure::Contract(MuxDelegationError::ContractIdAlreadySet));
        }
        self.contract_id = Some(contract_id.clone());
        env.publish(DelegationEvent::Linked { admin, contract_id });
        Ok(())
    }

    /// The linked contract address, if any.
    pub fn get_contract_id(&self) -> (r: Option<String>)
        ensures
            r == self.contract_id,
    {
        self.contract_id.clone()
    }
}

/// A grant is what is read back: right after `owner` grants `perms` to
/// `delegate`, the delegate holds exactly `perms` (earlier grants are
/// replaced, not merged), is listed under the owner, and no other pair
/// changed.
pub proof fn grant_then_read(
    before: MuxDelegation,
    after: MuxDelegation,
    owner: Seq<char>,
    delegate: Seq<char>,
    perms: Seq<Seq<char>>,
)
    requires
        before.granted(after, owner, delegate, perms),
    ensures
        after.perms_of(owner, delegate) == perms,
        forall|p: Seq<char>| #[trigger]
            after.perms_of(owner, delegate).contains(p) <==> perms.contains(p),
        after.delegates_of(owner).contains(delegate),
        forall|o: Seq<char>, d: Seq<char>|
            !(o == owner && d == delegate) ==> #[trigger] after.perms_of(o, d) == before.perms_of(o, d),
{
    assert(after.perms_of(owner, delegate) == perms);
    if !before.delegates_of(owner).contains(delegate) {
        assert(after.delegates_of(owner) == before.delegates_of(owner).push(delegate));
        assert(after.delegates_of(owner)[before.delegates_of(owner).len() as int] == delegate);
    } else {
        assert(after.delegates_of(owner) == before.delegates_of(owner));
    }
}

/// Revoking removes everything: right after `owner` revokes `delegate`, no
/// permission of the delegate is held and, when the owner's delegates were
/// free of repeats, the delegate is no longer listed.
pub proof fn revoke_then_read(
    before: MuxDelegation,
    after: MuxDelegation,
    owner: Seq<char>,
    delegate: Seq<char>,
)
    requires
        before.inv(),
        before.revoked(after, owner, delegate),
    ensures
        forall|p: Seq<char>| !(#[trigger] after.perms_of(owner, delegate).contains(p)),
        !after.delegates_of(owner).contains(delegate),
{
    assert(after.perms_of(owner, delegate) == Seq::<Seq<char>>::empty());
    assert(before.delegates_of(owner).no_duplicates());
    lemma_without_first(before.delegates_of(owner), delegate);
    assert(after.delegates_of(owner) == without_first(before.delegates_of(owner), delegate));
}

} // verus!

//! Account factory: registers account instances under their owner, with
//! optional metadata, and counts them across all owners.
use vstd::prelude::*;
use crate::host::{gate, require_stored, Env, Failure};
use crate::keys::contains;
use crate::table::{append_to, list_copy, list_of, Table};

verus! {

/// Maximum accounts registered under one owner.
pub const MAX_ACCOUNTS_PER_OWNER: u32 = 64;

/// Maximum byte length of a metadata version string.
pub const MAX_VERSION_LENGTH: usize = 32;

/// Maximum byte length of a metadata description.
pub const MAX_DESCRIPTION_LENGTH: usize = 256;

/// Maximum byte length of a metadata author.
pub const MAX_AUTHOR_LENGTH: usize = 64;

/// Errors returned by the account factory.
#[derive(Clone, Copy, Debug, PartialEq, Eq, Structural)]
pub enum MuxAccountFactoryError {
    /// The caller is not allowed to do this.
    Unauthorized,
    /// The account address equals the owner.
    InvalidAccount,
    /// The owner already has `MAX_ACCOUNTS_PER_OWNER` accounts.
    TooManyAccounts,
    /// No metadata is stored for the (owner, account) pair.
    MetadataNotFound,
    /// A metadata string is longer than its limit.
    MetadataTooLarge,
    /// `upgrade` was called before `initialize`.
    NotInitialized,
    /// `initialize` was called twice.
    AlreadyInitialized,
}

impl MuxAccountFactoryError {
    /// The stable on-chain error code.
    pub fn code(&self) -> (c: u32)
        ensures
            c == match *self {
                MuxAccountFactoryError::Unauthorized => 1u32,
                MuxAccountFactoryError::InvalidAccount => 2,
                MuxAccountFactoryError::TooManyAccounts => 3,
                MuxAccountFactoryError::MetadataNotFound => 4,
                MuxAccountFactoryError::MetadataTooLarge => 5,
                MuxAccountFactoryError::NotInitialized => 6,
                MuxAccountFactoryError::AlreadyInitialized => 7,
            },
    {
        match self {
            MuxAccountFactoryError::Unauthorized => 1,
            MuxAccountFactoryError::InvalidAccount => 2,
            MuxAccountFactoryError::TooManyAccounts => 3,
            MuxAccountFactoryError::MetadataNotFound => 4,
            MuxAccountFactoryError::MetadataTooLarge => 5,
            MuxAccountFactoryError::NotInitialized => 6,
            MuxAccountFactoryError::AlreadyInitialized => 7,
        }
    }
}

/// Metadata of a registered account.
#[derive(Debug)]
pub struct AccountMetadata {
    /// Semantic version string, such as "1.2.0".
    pub version: String,
    /// Short description of the account.
    pub description: String,
    /// Author or team identifier.
    pub author: String,
}

impl AccountMetadata {
    /// A copy of this metadata.
    pub fn duplicate(&self) -> (r: Self)
        ensures
            r == *self,
    {
        AccountMetadata {
            version: self.version.clone(),
            description: self.description.clone(),
            author: self.author.clone(),
        }
    }
}

/// Events published by the factory (topic `mux_fac`, then the action).
#[derive(Debug)]
pub enum FactoryEvent {
    /// `deployed`: `account` was registered (or re-registered) for `owner`.
    Deployed { owner: String, account: String },
    /// `meta_set`: metadata was stored for (`owner`, `account`).
    MetaSet { owner: String, account: String, version: String },
}

impl FactoryEvent {
    /// The contract tag, the first topic of every event.
    pub fn topic() -> (t: &'static str)
        ensures
            t == "mux_fac",
    {
        "mux_fac"
    }

    /// The action symbol, the second topic of the event.
    pub fn action(&self) -> (a: &'static str)
        ensures
            a == match *self {
                FactoryEvent::Deployed { .. } => "deployed",
                FactoryEvent::MetaSet { .. } => "meta_set",
            },
    {
        match self {
            FactoryEvent::Deployed { .. } => "deployed",
            FactoryEvent::MetaSet { .. } => "meta_set",
        }
    }
}

/// Length in bytes of the UTF-8 encoding of `s`.
pub open spec fn byte_len(s: Seq<char>) -> usize {
    vstd::utf8::encode_utf8(s).len() as usize
}

/// Whether the three metadata strings are within their byte limits.
pub open spec fn metadata_fits(version: Seq<char>, description: Seq<char>, author: Seq<char>) -> bool {
    &&& byte_len(version) <= MAX_VERSION_LENGTH
    &&& byte_len(description) <= MAX_DESCRIPTION_LENGTH
    &&& byte_len(author) <= MAX_AUTHOR_LENGTH
}

fn str_len(s: &String) -> (n: usize)
    ensures
        n == byte_len(s@),
{
    s.as_str().len()
}

/// Check the metadata byte limits.
fn validate_metadata(version: &String, description: &String, author: &String) -> (r: Result<
    (),
    MuxAccountFactoryError,
>)
    ensures
        r is Ok <==> metadata_fits(version@, description@, author@),
        r is Err ==> r == Err::<(), _>(MuxAccountFactoryError::MetadataTooLarge),
{
    if str_len(version) > MAX_VERSION_LENGTH || str_len(description) > MAX_DESCRIPTION_LENGTH
        || str_len(author) > MAX_AUTHOR_LENGTH {
        return Err(MuxAccountFactoryError::MetadataTooLarge);
    }
    Ok(())
}

/// Storage of a factory instance.
pub struct MuxAccountFactory {
    /// Upgrade authority, once initialized.
    pub admin: Option<String>,
    /// Accounts registered under each owner, in registration order.
    pub accounts: Table<String, Vec<String>>,
    /// Accounts registered across all owners.
    pub account_count: u64,
    /// Metadata keyed by (owner, account).
    pub metadata: Table<(String, String), AccountMetadata>,
}

type Out<T> = Result<T, Failure<MuxAccountFactoryError>>;

impl MuxAccountFactory {
    /// Accounts registered under `owner`.
    pub open spec fn owned(self, owner: Seq<char>) -> Seq<Seq<char>> {
        list_of(self.accounts@, owner)
    }

    /// No owner has more than `MAX_ACCOUNTS_PER_OWNER` accounts, nor the
    /// same account twice.
    pub open spec fn inv(self) -> bool {
        forall|owner: Seq<char>| #[trigger]
            self.owned(owner).len() <= MAX_ACCOUNTS_PER_OWNER && self.owned(owner).no_duplicates()
    }

    /// The contract error with which registering `account` under `owner`
    /// is refused, if any.
    pub open spec fn deploy_check(self, owner: Seq<char>, account: Seq<char>) -> Option<
        MuxAccountFactoryError,
    > {
        if account == owner {
            Some(MuxAccountFactoryError::InvalidAccount)
        } else if !self.owned(owner).contains(account) && self.owned(owner).len()
            >= MAX_ACCOUNTS_PER_OWNER {
            Some(MuxAccountFactoryError::TooManyAccounts)
        } else {
            None
        }
    }

    /// As [`Self::deploy_check`], then the metadata limits.
    pub open spec fn deploy_meta_check(
        self,
        owner: Seq<char>,
        account: Seq<char>,
        version: Seq<char>,
        description: Seq<char>,
        author: Seq<char>,
    ) -> Option<MuxAccountFactoryError> {
        if self.deploy_check(owner, account) is Some {
            self.deploy_check(owner, account)
        } else if !metadata_fits(version, description, author) {
            Some(MuxAccountFactoryError::MetadataTooLarge)
        } else {
            None
        }
    }

    /// What a dry run of registering `account` under `owner` returns.
    pub open spec fn simulate_outcome(self, owner: String, account: String) -> Result<
        String,
        MuxAccountFactoryError,
    > {
        match self.deploy_check(owner@, account@) {
            Some(e) => Err(e),
            None => Ok(account),
        }
    }

    /// What registering `account` under `owner` returns in context `env`.
    pub open spec fn deploy_outcome(self, env: Env<FactoryEvent>, owner: String, account: String) -> Out<
        String,
    > {
        if !env.authorizes(owner@) {
            Err(Failure::NotAuthorized(owner))
        } else {
            match self.deploy_check(owner@, account@) {
                Some(e) => Err(Failure::Contract(e)),
                None => Ok(account),
            }
        }
    }

    /// `post` is `self` with `account` registered under `owner`: appended
    /// and counted when new, unchanged otherwise.
    pub open spec fn registered(self, post: Self, owner: Seq<char>, account: Seq<char>) -> bool {
        &&& post.admin == self.admin
        &&& forall|o: Seq<char>| #[trigger]
            post.owned(o) == if o == owner && !self.owned(owner).contains(account) {
                self.owned(owner).push(account)
            } else {
                self.owned(o)
            }
        &&& post.account_count == if self.owned(owner).contains(account) {
            self.account_count as int
        } else {
            self.account_count + 1
        }
    }

    /// A freshly deployed factory: no admin, no account.
    pub fn new() -> (c: Self)
        ensures
            c.admin is None,
            c.accounts@ == Map::<Seq<char>, Vec<String>>::empty(),
            c.account_count == 0,
            c.metadata@ == Map::<(Seq<char>, Seq<char>), AccountMetadata>::empty(),
            c.inv(),
    {
        MuxAccountFactory {
            admin: None,
            accounts: Table::new(),
            account_count: 0,
            metadata: Table::new(),
        }
    }

    /// Set the upgrade admin, once; the admin must authorize.
    pub fn initialize(&mut self, env: &mut Env<FactoryEvent>, admin: String) -> (r: Out<()>)
        ensures
            old(self).admin is Some ==> r == Err::<(), _>(
                Failure::Contract(MuxAccountFactoryError::AlreadyInitialized),
            ),
            old(self).admin is None && !old(env).authorizes(admin@) ==> r == Err::<(), _>(
                Failure::<MuxAccountFactoryError>::NotAuthorized(admin),
            ),
            r is Ok <==> old(self).admin is None && old(env).authorizes(admin@),
            r is Ok ==> *final(self) == (MuxAccountFactory { admin: Some(admin), ..*old(self) })
                && old(env).completes(*final(env), seq![admin@], seq![]),
            r is Err ==> *final(self) == *old(self) && old(env).fails(*final(env)),
    {
        if self.admin.is_some() {
            return Err(Failure::Contract(MuxAccountFactoryError::AlreadyInitialized));
        }
        if !env.require_auth(&admin) {
            return Err(Failure::NotAuthorized(admin));
        }
        self.admin = Some(admin);
        assert(final(env).events@ =~= old(env).events@ + seq![]);
        Ok(())
    }

    /// Authorize a code upgrade: the admin must authorize.
    pub fn upgrade(&self, env: &mut Env<FactoryEvent>) -> (r: Out<()>)
        ensures
            match gate(self.admin, *old(env), MuxAccountFactoryError::NotInitialized) {
                Some(f) => r == Err::<(), _>(f) && old(env).fails(*final(env)),
                None => r is Ok && old(env).completes(*final(env), seq![self.admin->0@], seq![]),
            },
    {
        require_stored(env, &self.admin, MuxAccountFactoryError::NotInitialized)
    }

    /// Whether `account` is registered under `owner`, refusing a new one
    /// when the owner is at the cap.
    fn load_accounts_for_deploy(&self, owner: &String, account: &String) -> (r: Result<
        bool,
        MuxAccountFactoryError,
    >)
        requires
            owner@ != account@,
        ensures
            match self.deploy_check(owner@, account@) {
                Some(e) => r == Err::<bool, _>(e),
                None => r == Ok::<_, MuxAccountFactoryError>(self.owned(owner@).contains(account@)),
            },
    {
        let list = list_copy(&self.accounts, owner);
        let already = contains(&list, account);
        if !already && list.len() >= 64 {
            return Err(MuxAccountFactoryError::TooManyAccounts);
        }
        Ok(already)
    }

    /// Append `account` to `owner`'s list and count it, unless it is there.
    fn register(&mut self, owner: &String, account: &String, already: bool)
        requires
            already == old(self).owned(owner@).contains(account@),
            old(self).deploy_check(owner@, account@) is None,
            old(self).inv(),
            already || old(self).account_count < u64::MAX,
        ensures
            old(self).registered(*final(self), owner@, account@),
            final(self).metadata == old(self).metadata,
            final(self).inv(),
    {
        if !already {
            append_to(&mut self.accounts, owner.clone(), account.clone());
            self.account_count = self.account_count + 1;
            assert forall|o: Seq<char>| #[trigger]
                final(self).owned(o).len() <= MAX_ACCOUNTS_PER_OWNER && final(self).owned(
                    o,
                ).no_duplicates() by {
                assert(old(self).owned(o).len() <= MAX_ACCOUNTS_PER_OWNER && old(self).owned(
                    o,
                ).no_duplicates());
                if o == owner@ {
                    let s = old(self).owned(o);
                    let t = s.push(account@);
                    assert forall|i: int, j: int| 0 <= i < j < t.len() implies t[i] != t[j] by {
                        if j == s.len() {
                            assert(s[i] != account@);
                        } else {
                            assert(s[i] != s[j]);
                        }
                    }
                }
            }
        }
    }

    /// Register `account` under `owner`, who must authorize; the account
    /// must differ from the owner and the owner must be under the cap unless
    /// the account is already registered, in which case nothing changes but
    /// the event. Publishes `deployed` and returns the account.
    pub fn deploy_account(&mut self, env: &mut Env<FactoryEvent>, owner: String, account: String) -> (r:
        Out<String>)
        requires
            old(self).inv(),
            old(self).account_count < u64::MAX,
        ensures
            r == old(self).deploy_outcome(*old(env), owner, account),
            final(self).inv(),
            r is Ok ==> {
                &&& old(self).registered(*final(self), owner@, account@)
                &&& final(self).metadata == old(self).metadata
                &&& old(env).completes(
                    *final(env),
                    seq![owner@],
                    seq![FactoryEvent::Deployed { owner, account }],
                )
            },
            r is Err ==> *final(self) == *old(self) && old(env).fails(*final(env)),
    {
        if !env.require_auth(&owner) {
            return Err(Failure::NotAuthorized(owner));
        }
        if account == owner {
            return Err(Failure::Contract(MuxAccountFactoryError::InvalidAccount));
        }
        let already = match self.load_accounts_for_deploy(&owner, &account) {
            Ok(a) => a,
            Err(e) => {
                return Err(Failure::Contract(e));
            },
        };
        self.register(&owner, &account, already);
        env.publish(FactoryEvent::Deployed { owner, account: account.clone() });
        Ok(account)
    }

    /// Registered accounts of `owner`, empty when there are none.
    pub fn get_accounts(&self, owner: &String) -> (r: Vec<String>)
        ensures
            r.deep_view() == self.owned(owner@),
    {
        list_copy(&self.accounts, owner)
    }

    /// Accounts registered across all owners.
    pub fn account_count(&self) -> (n: u64)
        ensures
            n == self.account_count,
    {
        self.account_count
    }

    /// As [`Self::deploy_account`], and the metadata strings must be within
    /// their byte limits; the metadata is then stored (replacing any) and
    /// `meta_set` published after `deployed`.
    pub fn deploy_account_with_metadata(
        &mut self,
        env: &mut Env<FactoryEvent>,
        owner: String,
        account: String,
        version: String,
        description: String,
        author: String,
    ) -> (r: Out<String>)
        requires
            old(self).inv(),
            old(self).account_count < u64::MAX,
        ensures
            !old(env).authorizes(owner@) ==> r == Err::<String, _>(
                Failure::<MuxAccountFactoryError>::NotAuthorized(owner),
            ),
            old(env).authorizes(owner@) ==> r == match old(self).deploy_meta_check(
                owner@,
                account@,
                version@,
                description@,
                author@,
            ) {
                Some(e) => Err(Failure::Contract(e)),
                None => Ok::<_, Failure<MuxAccountFactoryError>>(account),
            },
            final(self).inv(),
            r is Ok ==> {
                &&& old(self).registered(*final(self), owner@, account@)
                &&& final(self).metadata@ == old(self).metadata@.insert(
                    (owner@, account@),
                    AccountMetadata { version, description, author },
                )
                &&& old(env).completes(
                    *final(env),
                    seq![owner@],
                    seq![
                        FactoryEvent::Deployed { owner, account },
                        FactoryEvent::MetaSet { owner, account, version },
                    ],
                )
            },
            r is Err ==> *final(self) == *old(self) && old(env).fails(*final(env)),
    {
        if !env.require_auth(&owner) {
            return Err(Failure::NotAuthorized(owner));
        }
        if account == owner {
            return Err(Failure::Contract(MuxAccountFactoryError::InvalidAccount));
        }
        let already = match self.load_accounts_for_deploy(&owner, &account) {
            Ok(a) => a,
            Err(e) => {
                return Err(Failure::Contract(e));
            },
        };
        if let Err(e) = validate_metadata(&version, &description, &author) {
            return Err(Failure::Contract(e));
        }
        self.register(&owner, &account, already);
        let ghost mid = *self;
        let meta = AccountMetadata { version: version.clone(), description, author };
        self.metadata.set((owner.clone(), account.clone()), meta);
        assert forall|o: Seq<char>| #[trigger] self.owned(o) == mid.owned(o) by {}
        let deployed = FactoryEvent::Deployed { owner: owner.clone(), account: account.clone() };
        let meta_set = FactoryEvent::MetaSet { owner, account: account.clone(), version };
        let ghost published = seq![deployed, meta_set];
        env.publish(deployed);
        env.publish(meta_set);
        assert(env.events@ =~= old(env).events@ + published);
        Ok(account)
    }

    /// Metadata stored for (`owner`, `account`).
    pub fn get_account_metadata(&self, owner: &String, account: &String) -> (r: Result<
        AccountMetadata,
        MuxAccountFactoryError,
    >)
        ensures
            match r {
                Ok(m) => self.metadata@.contains_key((owner@, account@)) && m == self.metadata@[(
                    owner@,
                    account@,
                )],
                Err(e) => !self.metadata@.contains_key((owner@, account@)) && e
                    == MuxAccountFactoryError::MetadataNotFound,
            },
    {
        match self.metadata.get(&(owner.clone(), account.clone())) {
            Some(m) => Ok(m.duplicate()),
            None => Err(MuxAccountFactoryError::MetadataNotFound),
        }
    }

    /// Dry run of [`Self::deploy_account`]: the same checks (but for the
    /// owner's authorization), nothing stored, nothing published.
    pub fn simulate_deploy(&self, owner: &String, account: String) -> (r: Result<
        String,
        MuxAccountFactoryError,
    >)
        ensures
            r == self.simulate_outcome(*owner, account),
    {
        if account == *owner {
            return Err(MuxAccountFactoryError::InvalidAccount);
        }
        match self.load_accounts_for_deploy(owner, &account) {
            Ok(_) => Ok(account),
            Err(e) => Err(e),
        }
    }

    /// Dry run of [`Self::deploy_account_with_metadata`].
    pub fn simulate_deploy_with_metadata(
        &self,
        owner: &String,
        account: String,
        version: &String,
        description: &String,
        author: &String,
    ) -> (r: Result<String, MuxAccountFactoryError>)
        ensures
            r == match self.deploy_meta_check(owner@, account@, version@, description@, author@) {
                Some(e) => Err(e),
                None => Ok::<_, MuxAccountFactoryError>(account),
            },
    {
        if account == *owner {
            return Err(MuxAccountFactoryError::InvalidAccount);
        }
        if let Err(e) = self.load_accounts_for_deploy(owner, &account) {
            return Err(e);
        }
        validate_metadata(version, description, author)?;
        Ok(account)
    }

    /// The per-owner account cap.
    pub fn max_accounts_per_owner() -> (n: u32)
        ensures
            n == MAX_ACCOUNTS_PER_OWNER,
    {
        MAX_ACCOUNTS_PER_OWNER
    }
}

/// A dry run predicts the deployment: when the owner authorizes, deploying
/// returns what simulating returned, its error as the contract's error.
pub proof fn simulate_predicts_deploy(
    f: MuxAccountFactory,
    env: Env<FactoryEvent>,
    owner: String,
    account: String,
)
    requires
        env.authorizes(owner@),
    ensures
        f.deploy_outcome(env, owner, account) == match f.simulate_outcome(owner, account) {
            Ok(a) => Ok(a),
            Err(e) => Err(Failure::Contract(e)),
        },
{
}

/// Registering is idempotent: registering an account that is already
/// registered under the owner changes neither the owner's accounts nor the
/// global count, and registering it twice in a row gives the state of
/// registering it once.
pub proof fn register_idempotent(
    a: MuxAccountFactory,
    b: MuxAccountFactory,
    c: MuxAccountFactory,
    owner: Seq<char>,
    account: Seq<char>,
)
    requires
        a.registered(b, owner, account),
        b.registered(c, owner, account),
    ensures
        forall|o: Seq<char>| #[trigger] c.owned(o) == b.owned(o),
        c.account_count == b.account_count,
        b.owned(owner).contains(account),
{
    if !a.owned(owner).contains(account) {
        assert(b.owned(owner) == a.owned(owner).push(account));
        assert(b.owned(owner)[a.owned(owner).len() as int] == account);
    } else {
        assert(b.owned(owner) == a.owned(owner));
    }
}

} // verus!

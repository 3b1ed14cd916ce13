//! Account abstraction: an owner, time-limited delegates, per-asset spend
//! limits with rolling periods, scoped session keys, a replay nonce and a
//! reentrancy guard around outgoing calls.
use vstd::prelude::*;
use crate::host::{
    auth_check, contract_check, either, gate, require_stored, sat_u32, sat_u64,
    saturating_add_u32, saturating_add_u64, Env, Failure,
};
use crate::keys::{contains, copy_all, push_str, remove_first, without_first};
use crate::table::Table;

verus! {

/// Maximum number of delegates.
pub const MAX_DELEGATES: usize = 64;

/// Maximum number of session keys per owner.
pub const MAX_SESSION_KEYS: usize = 32;

/// Errors of the account contract.
#[derive(Clone, Copy, Debug, PartialEq, Eq, Structural)]
pub enum MuxAccountError {
    /// No owner is stored yet.
    NotInitialized,
    /// An owner is already stored.
    AlreadyInitialized,
    /// The account is paused, the caller may not do this, or the session
    /// key is unknown, revoked, expired or without scopes.
    Unauthorized,
    /// No such delegate.
    DelegateNotFound,
    /// The delegate's grant has expired.
    DelegateExpired,
    /// No limit is set for the asset, or the spend would pass the limit of
    /// its period.
    SpendLimitExceeded,
    /// The amount is not positive.
    InvalidAmount,
    /// The period is zero.
    InvalidPeriod,
    /// No room for another unexpired delegate.
    TooManyDelegates,
    /// An outgoing call is already in progress.
    ReentrancyDetected,
    /// The running total would overflow.
    ArithmeticOverflow,
    /// No room for another session key.
    TooManySessionKeys,
    /// The session key's scopes do not name the method.
    ScopeNotGranted,
    /// The relayer is not on the sponsor allowlist.
    SponsorNotAuthorized,
    /// The nonce is not the expected one.
    InvalidNonce,
}

impl MuxAccountError {
    /// The stable on-chain error code.
    pub fn code(&self) -> (c: u32)
        ensures
            c == match *self {
                MuxAccountError::NotInitialized => 1u32,
                MuxAccountError::AlreadyInitialized => 2,
                MuxAccountError::Unauthorized => 3,
                MuxAccountError::DelegateNotFound => 4,
                MuxAccountError::DelegateExpired => 5,
                MuxAccountError::SpendLimitExceeded => 6,
                MuxAccountError::InvalidAmount => 7,
                MuxAccountError::InvalidPeriod => 8,
                MuxAccountError::TooManyDelegates => 9,
                MuxAccountError::ReentrancyDetected => 10,
                MuxAccountError::ArithmeticOverflow => 11,
                MuxAccountError::TooManySessionKeys => 12,
                MuxAccountError::ScopeNotGranted => 13,
                MuxAccountError::SponsorNotAuthorized => 14,
                MuxAccountError::InvalidNonce => 15,
            },
    {
        match self {
            MuxAccountError::NotInitialized => 1,
            MuxAccountError::AlreadyInitialized => 2,
            MuxAccountError::Unauthorized => 3,
            MuxAccountError::DelegateNotFound => 4,
            MuxAccountError::DelegateExpired => 5,
            MuxAccountError::SpendLimitExceeded => 6,
            MuxAccountError::InvalidAmount => 7,
            MuxAccountError::InvalidPeriod => 8,
            MuxAccountError::TooManyDelegates => 9,
            MuxAccountError::ReentrancyDetected => 10,
            MuxAccountError::ArithmeticOverflow => 11,
            MuxAccountError::TooManySessionKeys => 12,
            MuxAccountError::ScopeNotGranted => 13,
            MuxAccountError::SponsorNotAuthorized => 14,
            MuxAccountError::InvalidNonce => 15,
        }
    }
}

/// Descriptive metadata of the account instance.
#[derive(Debug)]
pub struct RegistryMeta {
    pub name: String,
    pub version: String,
    pub description: String,
}

impl RegistryMeta {
    /// A copy of this metadata.
    pub fn duplicate(&self) -> (r: Self)
        ensures
            r == *self,
    {
        RegistryMeta {
            name: self.name.clone(),
            version: self.version.clone(),
            description: self.description.clone(),
        }
    }
}

/// A per-asset spend limit over a rolling period of ledgers.
#[derive(Debug)]
pub struct SpendLimit {
    pub asset: String,
    /// Maximum spend per period.
    pub amount: i128,
    /// Period length in ledgers.
    pub period_ledgers: u32,
    /// Spent in the current period.
    pub spent: i128,
    /// Ledger at which the current period ends.
    pub reset_ledger: u32,
}

impl SpendLimit {
    /// A copy of this limit.
    pub fn duplicate(&self) -> (r: Self)
        ensures
            r == *self,
    {
        SpendLimit {
            asset: self.asset.clone(),
            amount: self.amount,
            period_ledgers: self.period_ledgers,
            spent: self.spent,
            reset_ledger: self.reset_ledger,
        }
    }
}

/// A delegate: valid until `expires_at` (Unix seconds).
#[derive(Debug)]
pub struct DelegateInfo {
    pub address: String,
    pub expires_at: u64,
    pub can_spend: bool,
}

impl DelegateInfo {
    /// A copy of this record.
    pub fn duplicate(&self) -> (r: Self)
        ensures
            r == *self,
    {
        DelegateInfo {
            address: self.address.clone(),
            expires_at: self.expires_at,
            can_spend: self.can_spend,
        }
    }
}

/// A capability of a session key: the method it may invoke.
#[derive(Debug)]
pub struct Scope {
    pub method: String,
}

/// A session key's grant.
#[derive(Debug)]
pub struct SessionKeyRecord {
    /// Unix time from which the key is expired.
    pub expires_at: u64,
    /// Methods the key may invoke.
    pub scopes: Vec<Scope>,
    pub revoked: bool,
}

/// The methods named by `scopes`.
pub open spec fn methods(scopes: Seq<Scope>) -> Seq<Seq<char>> {
    Seq::new(scopes.len(), |i: int| scopes[i].method@)
}

/// The value of a [`SessionKeyRecord`].
#[verifier::ext_equal]
pub struct SessionView {
    pub expires_at: u64,
    pub methods: Seq<Seq<char>>,
    pub revoked: bool,
}

impl View for SessionKeyRecord {
    type V = SessionView;

    open spec fn view(&self) -> SessionView {
        SessionView {
            expires_at: self.expires_at,
            methods: methods(self.scopes@),
            revoked: self.revoked,
        }
    }
}

fn copy_scopes(scopes: &Vec<Scope>) -> (r: Vec<Scope>)
    ensures
        methods(r@) == methods(scopes@),
{
    let mut r: Vec<Scope> = Vec::new();
    let mut i: usize = 0;
    while i < scopes.len()
        invariant
            i <= scopes@.len(),
            r@.len() == i,
            forall|j: int| 0 <= j < i ==> r@[j].method@ == scopes@[j].method@,
        decreases scopes@.len() - i,
    {
        r.push(Scope { method: scopes[i].method.clone() });
        i = i + 1;
    }
    assert(methods(r@) =~= methods(scopes@));
    r
}

/// Audit payload of a session execution.
#[derive(Debug)]
pub struct SessionExecutedEvent {
    pub session_key: String,
    pub target: String,
    pub function: String,
    /// The relayer that paid, for a sponsored call.
    pub sponsor: Option<String>,
}

/// Events published by the account contract.
#[derive(Debug)]
pub enum AccountEvent {
    /// `init`
    Init { owner: String },
    /// `paused`
    Paused,
    /// `unpaused`
    Unpaused,
    /// `dlg_set`
    DelegateSet { delegate: String, expires_at: u64, can_spend: bool },
    /// `dlg_rm`
    DelegateRemoved { delegate: String },
    /// `lmt_set`
    LimitSet { asset: String, amount: i128, period_ledgers: u32 },
    /// `debited`
    Debited { asset: String, spend: i128 },
    /// `executed`
    Executed { target: String, asset: String, spend: i128 },
    /// `sk_reg`
    SessionKeyRegistered { session_key: String },
    /// `sk_rev`
    SessionKeyRevoked { session_key: String },
    /// `ses_exe`
    SessionExecuted(SessionExecutedEvent),
    /// `meta_set`
    MetaSet { name: String },
    /// `spn_set`
    SponsorSet { sponsor: String, allowed: bool },
}

impl AccountEvent {
    /// The contract tag, the first topic of every event.
    pub fn topic() -> (t: &'static str)
        ensures
            t == "mux_acct",
    {
        "mux_acct"
    }

    /// The action symbol, the second topic of the event.
    pub fn action(&self) -> (a: &'static str)
        ensures
            a == match *self {
                AccountEvent::Init { .. } => "init",
                AccountEvent::Paused { .. } => "paused",
                AccountEvent::Unpaused { .. } => "unpaused",
                AccountEvent::DelegateSet { .. } => "dlg_set",
                AccountEvent::DelegateRemoved { .. } => "dlg_rm",
                AccountEvent::LimitSet { .. } => "lmt_set",
                AccountEvent::Debited { .. } => "debited",
                AccountEvent::Executed { .. } => "executed",
                AccountEvent::SessionKeyRegistered { .. } => "sk_reg",
                AccountEvent::SessionKeyRevoked { .. } => "sk_rev",
                AccountEvent::SessionExecuted { .. } => "ses_exe",
                AccountEvent::MetaSet { .. } => "meta_set",
                AccountEvent::SponsorSet { .. } => "spn_set",
            },
    {
        match self {
            AccountEvent::Init { .. } => "init",
            AccountEvent::Paused { .. } => "paused",
            AccountEvent::Unpaused { .. } => "unpaused",
            AccountEvent::DelegateSet { .. } => "dlg_set",
            AccountEvent::DelegateRemoved { .. } => "dlg_rm",
            AccountEvent::LimitSet { .. } => "lmt_set",
            AccountEvent::Debited { .. } => "debited",
            AccountEvent::Executed { .. } => "executed",
            AccountEvent::SessionKeyRegistered { .. } => "sk_reg",
            AccountEvent::SessionKeyRevoked { .. } => "sk_rev",
            AccountEvent::SessionExecuted { .. } => "ses_exe",
            AccountEvent::MetaSet { .. } => "meta_set",
            AccountEvent::SponsorSet { .. } => "spn_set",
        }
    }
}

/// Storage of an account contract instance.
pub struct MuxAccount {
    pub owner: Option<String>,
    pub guardians: Option<Vec<String>>,
    /// Delegates by address; present once initialized.
    pub delegates: Option<Table<String, DelegateInfo>>,
    /// Spend limits by asset.
    pub spend_limits: Table<String, SpendLimit>,
    /// The nonce the next execution must carry; present once initialized.
    pub nonce: Option<u64>,
    /// Session keys by (owner, key).
    pub session_keys: Table<(String, String), SessionKeyRecord>,
    /// Registered session keys, per owner.
    pub session_index: Table<String, Vec<String>>,
    pub paused: bool,
    /// Reentrancy guard: set while an outgoing call is in progress.
    pub executing: bool,
    pub metadata: Option<RegistryMeta>,
    /// Relayers allowed to sponsor session calls.
    pub sponsors: Table<String, bool>,
}

type Out = Result<(), Failure<MuxAccountError>>;

/// `m` without the delegates expired at `now`.
pub open spec fn unexpired(m: Map<Seq<char>, DelegateInfo>, now: u64) -> Map<Seq<char>, DelegateInfo> {
    Map::new(|k: Seq<char>| m.contains_key(k) && now < m[k].expires_at, |k: Seq<char>| m[k])
}

/// The delegates of `t` not expired at `now`, in the same order.
pub fn unexpired_delegates(t: &Table<String, DelegateInfo>, now: u64) -> (r: Table<String, DelegateInfo>)
    ensures
        r@ == unexpired(t@, now),
{
    let n = t.len();
    let mut r: Table<String, DelegateInfo> = Table::new();
    let mut i: usize = 0;
    while i < n
        invariant
            n == t.key_seq().len(),
            t.key_seq().no_duplicates(),
            forall|k: Seq<char>| #[trigger] t@.dom().contains(k) <==> t.key_seq().contains(k),
            i <= n,
            r@ == Map::new(
                |k: Seq<char>| t.key_seq().take(i as int).contains(k) && now < t@[k].expires_at,
                |k: Seq<char>| t@[k],
            ),
        decreases n - i,
    {
        let (k, v) = t.entry_at(i);
        let ghost prev = r@;
        if now < v.expires_at {
            r.set(k.clone(), v.duplicate());
        }
        proof {
            let ks = t.key_seq();
            let t0 = ks.take(i as int);
            let t1 = ks.take(i + 1);
            assert(t1 =~= t0.push(ks[i as int]));
            if t0.contains(ks[i as int]) {
                let j = choose|j: int| 0 <= j < t0.len() && t0[j] == ks[i as int];
                assert(ks[j] == ks[i as int]);
            }
            assert forall|x: Seq<char>| t1.contains(x) <==> (t0.contains(x) || x == ks[i as int]) by {
                if t1.contains(x) {
                    let j = choose|j: int| 0 <= j < t1.len() && t1[j] == x;
                    if j < i {
                        assert(t0[j] == x);
                    }
                }
                if t0.contains(x) {
                    let j = choose|j: int| 0 <= j < t0.len() && t0[j] == x;
                    assert(t1[j] == x);
                }
                if x == ks[i as int] {
                    assert(t1[i as int] == x);
                }
            }
            assert(r@ =~= Map::new(
                |k: Seq<char>| t.key_seq().take(i + 1).contains(k) && now < t@[k].expires_at,
                |k: Seq<char>| t@[k],
            ));
        }
        i = i + 1;
    }
    proof {
        assert(t.key_seq().take(n as int) =~= t.key_seq());
        assert(r@ =~= unexpired(t@, now));
    }
    r
}

/// `l` at ledger `now`: a period that has ended restarts, empty.
pub open spec fn rolled(l: SpendLimit, now: u32) -> SpendLimit {
    if now >= l.reset_ledger {
        SpendLimit { spent: 0, reset_ledger: sat_u32(now, l.period_ledgers), ..l }
    } else {
        l
    }
}

/// The limit record after spending `spend` of the asset limited by `l` at
/// ledger `now`, or why the spend is refused.
pub open spec fn spend_result(l: Option<SpendLimit>, spend: i128, now: u32) -> Result<
    SpendLimit,
    MuxAccountError,
> {
    if spend <= 0 {
        Err(MuxAccountError::InvalidAmount)
    } else if l is None {
        Err(MuxAccountError::SpendLimitExceeded)
    } else {
        let r = rolled(l->0, now);
        if r.spent + spend > i128::MAX || r.spent + spend < i128::MIN {
            Err(MuxAccountError::ArithmeticOverflow)
        } else if r.spent + spend > r.amount {
            Err(MuxAccountError::SpendLimitExceeded)
        } else {
            Ok(SpendLimit { spent: (r.spent + spend) as i128, ..r })
        }
    }
}

/// A `Result` error as an optional failure.
pub open spec fn err_check<T>(r: Result<T, MuxAccountError>) -> Option<Failure<MuxAccountError>> {
    match r {
        Ok(_) => None,
        Err(e) => Some(Failure::Contract(e)),
    }
}

/// A well-formed limit: a positive amount, a spent amount between 0 and
/// it, and a non-empty period.
pub open spec fn limit_ok(l: SpendLimit) -> bool {
    &&& 0 < l.amount
    &&& 0 <= l.spent <= l.amount
    &&& l.period_ledgers > 0
}

impl MuxAccount {
    /// What every reachable state satisfies: at most `MAX_DELEGATES`
    /// delegates, every spend limit well formed (nothing spent beyond the
    /// limit in a period), at most `MAX_SESSION_KEYS` indexed session keys.
    pub open spec fn inv(self) -> bool {
        &&& self.delegate_map().dom().finite()
        &&& self.delegate_map().len() <= MAX_DELEGATES
        &&& forall|a: Seq<char>| #[trigger]
            self.spend_limits@.contains_key(a) ==> limit_ok(self.spend_limits@[a])
        &&& self.session_list().len() <= MAX_SESSION_KEYS
        &&& self.owner is None ==> self.session_index@ == Map::<Seq<char>, Vec<String>>::empty()
    }

    /// Failure of the owner check.
    pub open spec fn owner_gate(self, env: Env<AccountEvent>) -> Option<Failure<MuxAccountError>> {
        gate(self.owner, env, MuxAccountError::NotInitialized)
    }

    /// Failure of the not-paused check.
    pub open spec fn pause_check(self) -> Option<Failure<MuxAccountError>> {
        contract_check(self.paused, MuxAccountError::Unauthorized)
    }

    /// Failure of the reentrancy guard.
    pub open spec fn guard_check(self) -> Option<Failure<MuxAccountError>> {
        contract_check(self.executing, MuxAccountError::ReentrancyDetected)
    }

    /// The delegates (none before initialization).
    pub open spec fn delegate_map(self) -> Map<Seq<char>, DelegateInfo> {
        match self.delegates {
            Some(t) => t@,
            None => Map::empty(),
        }
    }

    /// The stored limit for `asset`.
    pub open spec fn limit_of(self, asset: Seq<char>) -> Option<SpendLimit> {
        if self.spend_limits@.contains_key(asset) {
            Some(self.spend_limits@[asset])
        } else {
            None
        }
    }

    /// Failure of the nonce check for `nonce`.
    pub open spec fn nonce_check(self, nonce: u64) -> Option<Failure<MuxAccountError>> {
        match self.nonce {
            None => Some(Failure::Contract(MuxAccountError::NotInitialized)),
            Some(n) => contract_check(n != nonce, MuxAccountError::InvalidNonce),
        }
    }

    /// The stored nonce after one use.
    pub open spec fn next_nonce(self) -> Option<u64> {
        Some(sat_u64(self.nonce->0, 1))
    }

    /// The session key record of `key` under the stored owner, if any.
    pub open spec fn session(self, key: Seq<char>) -> Option<SessionView> {
        if self.owner is Some && self.session_keys@.contains_key((self.owner->0@, key)) {
            Some(self.session_keys@[(self.owner->0@, key)]@)
        } else {
            None
        }
    }

    /// The session keys indexed under the stored owner.
    pub open spec fn session_list(self) -> Seq<Seq<char>> {
        if self.owner is Some && self.session_index@.contains_key(self.owner->0@) {
            self.session_index@[self.owner->0@].deep_view()
        } else {
            Seq::empty()
        }
    }

    /// Why `key` may not call `function` at time `now`, if it may not.
    pub open spec fn session_check(self, key: Seq<char>, function: Seq<char>, now: u64) -> Option<
        Failure<MuxAccountError>,
    > {
        if self.owner is None {
            Some(Failure::Contract(MuxAccountError::NotInitialized))
        } else if self.session(key) is None {
            Some(Failure::Contract(MuxAccountError::Unauthorized))
        } else {
            let rec = self.session(key)->0;
            if rec.revoked || now >= rec.expires_at || rec.methods.len() == 0 {
                Some(Failure::Contract(MuxAccountError::Unauthorized))
            } else if !rec.methods.contains(function) {
                Some(Failure::Contract(MuxAccountError::ScopeNotGranted))
            } else {
                None
            }
        }
    }

    /// Whether `sponsor` is on the relayer allowlist.
    pub open spec fn sponsor_allowed(self, sponsor: Seq<char>) -> bool {
        self.sponsors@.contains_key(sponsor) && self.sponsors@[sponsor]
    }

    /// The delegates after reclaiming expired ones for a new `delegate`.
    pub open spec fn reclaimed(self, delegate: Seq<char>, now: u64) -> Map<Seq<char>, DelegateInfo> {
        if self.delegate_map().contains_key(delegate) {
            self.delegate_map()
        } else {
            unexpired(self.delegate_map(), now)
        }
    }

    /// Owner, guardians, session state, pause flag and metadata are those of `o`.
    pub open spec fn keeps_setup(self, o: Self) -> bool {
        &&& self.owner == o.owner
        &&& self.guardians == o.guardians
        &&& self.session_keys == o.session_keys
        &&& self.session_index == o.session_index
        &&& self.sponsors == o.sponsors
        &&& self.paused == o.paused
        &&& self.metadata == o.metadata
    }

    /// A freshly deployed, uninitialized instance.
    pub fn new() -> (c: Self)
        ensures
            c.owner is None,
            c.guardians is None,
            c.delegates is None,
            c.nonce is None,
            !c.paused,
            !c.executing,
            c.metadata is None,
            c.spend_limits@ == Map::<Seq<char>, SpendLimit>::empty(),
            c.session_keys@ == Map::<(Seq<char>, Seq<char>), SessionKeyRecord>::empty(),
            c.session_index@ == Map::<Seq<char>, Vec<String>>::empty(),
            c.sponsors@ == Map::<Seq<char>, bool>::empty(),
            c.inv(),
    {
        MuxAccount {
            owner: None,
            guardians: None,
            delegates: None,
            spend_limits: Table::new(),
            nonce: None,
            session_keys: Table::new(),
            session_index: Table::new(),
            paused: false,
            executing: false,
            metadata: None,
            sponsors: Table::new(),
        }
    }

    /// Set owner and guardians, once; the owner must authorize. Starts with
    /// no delegate and nonce 0.
    pub fn initialize(&mut self, env: &mut Env<AccountEvent>, owner: String, guardians: Vec<String>) -> (r:
        Out)
        ensures
            old(self).inv() ==> final(self).inv(),
            old(self).owner is Some ==> r == Err::<(), _>(
                Failure::Contract(MuxAccountError::AlreadyInitialized),
            ),
            old(self).owner is None && !old(env).authorizes(owner@) ==> r == Err::<(), _>(
                Failure::<MuxAccountError>::NotAuthorized(owner),
            ),
            r is Ok <==> old(self).owner is None && old(env).authorizes(owner@),
            r is Ok ==> {
                &&& final(self).owner == Some(owner)
                &&& final(self).guardians == Some(guardians)
                &&& final(self).delegates is Some
                &&& final(self).delegate_map() == Map::<Seq<char>, DelegateInfo>::empty()
                &&& final(self).nonce == Some(0u64)
                &&& final(self).spend_limits == old(self).spend_limits
                &&& final(self).session_keys == old(self).session_keys
                &&& final(self).session_index == old(self).session_index
                &&& final(self).sponsors == old(self).sponsors
                &&& final(self).paused == old(self).paused
                &&& final(self).executing == old(self).executing
                &&& final(self).metadata == old(self).metadata
                &&& old(env).completes(*final(env), seq![owner@], seq![AccountEvent::Init { owner }])
            },
            r is Err ==> *final(self) == *old(self) && old(env).fails(*final(env)),
    {
        if self.owner.is_some() {
            return Err(Failure::Contract(MuxAccountError::AlreadyInitialized));
        }
        if !env.require_auth(&owner) {
            return Err(Failure::NotAuthorized(owner));
        }
        self.owner = Some(owner.clone());
        self.guardians = Some(guardians);
        self.delegates = Some(Table::new());
        self.nonce = Some(0);
        env.publish(AccountEvent::Init { owner });
        Ok(())
    }

    /// The owner suspends the entrypoints that check the pause flag.
    pub fn pause(&mut self, env: &mut Env<AccountEvent>) -> (r: Out)
        ensures
            old(self).inv() ==> final(self).inv(),
            match old(self).owner_gate(*old(env)) {
                Some(f) => r == Err::<(), _>(f) && *final(self) == *old(self) && old(env).fails(
                    *final(env),
                ),
                None => {
                    &&& r is Ok
                    &&& final(self).paused
                    &&& *final(self) == (MuxAccount { paused: true, ..*old(self) })
                    &&& old(env).completes(
                        *final(env),
                        seq![old(self).owner->0@],
                        seq![AccountEvent::Paused],
                    )
                },
            },
    {
        require_stored(env, &self.owner, MuxAccountError::NotInitialized)?;
        self.paused = true;
        env.publish(AccountEvent::Paused);
        Ok(())
    }

    /// The owner lifts the pause.
    pub fn unpause(&mut self, env: &mut Env<AccountEvent>) -> (r: Out)
        ensures
            old(self).inv() ==> final(self).inv(),
            match old(self).owner_gate(*old(env)) {
                Some(f) => r == Err::<(), _>(f) && *final(self) == *old(self) && old(env).fails(
                    *final(env),
                ),
                None => {
                    &&& r is Ok
                    &&& !final(self).paused
                    &&& *final(self) == (MuxAccount { paused: false, ..*old(self) })
                    &&& old(env).completes(
                        *final(env),
                        seq![old(self).owner->0@],
                        seq![AccountEvent::Unpaused],
                    )
                },
            },
    {
        require_stored(env, &self.owner, MuxAccountError::NotInitialized)?;
        self.paused = false;
        env.publish(AccountEvent::Unpaused);
        Ok(())
    }

    /// Whether the account is paused.
    pub fn is_paused(&self) -> (b: bool)
        ensures
            b == self.paused,
    {
        self.paused
    }

    /// Failure of `set_delegate` for `delegate`, if it fails.
    pub open spec fn set_delegate_failure(self, env: Env<AccountEvent>, delegate: Seq<char>) -> Option<
        Failure<MuxAccountError>,
    > {
        either(
            self.pause_check(),
            either(
                self.owner_gate(env),
                either(
                    contract_check(self.delegates is None, MuxAccountError::NotInitialized),
                    contract_check(
                        !self.reclaimed(delegate, env.timestamp).contains_key(delegate)
                            && self.reclaimed(delegate, env.timestamp).len() >= MAX_DELEGATES,
                        MuxAccountError::TooManyDelegates,
                    ),
                ),
            ),
        )
    }

    /// The owner adds or updates a delegate. Adding a new one first drops the
    /// expired delegates, then requires room under the cap.
    pub fn set_delegate(
        &mut self,
        env: &mut Env<AccountEvent>,
        delegate: String,
        expires_at: u64,
        can_spend: bool,
    ) -> (r: Out)
        ensures
            old(self).inv() ==> final(self).inv(),
            match old(self).set_delegate_failure(*old(env), delegate@) {
                Some(f) => r == Err::<(), _>(f) && *final(self) == *old(self) && old(env).fails(
                    *final(env),
                ),
                None => {
                    &&& r is Ok
                    &&& final(self).delegates is Some
                    &&& final(self).delegate_map() == old(self).reclaimed(
                        delegate@,
                        old(env).timestamp,
                    ).insert(delegate@, DelegateInfo { address: delegate, expires_at, can_spend })
                    &&& final(self).keeps_setup(*old(self))
                    &&& final(self).spend_limits == old(self).spend_limits
                    &&& final(self).nonce == old(self).nonce
                    &&& final(self).executing == old(self).executing
                    &&& old(env).completes(
                        *final(env),
                        seq![old(self).owner->0@],
                        seq![AccountEvent::DelegateSet { delegate, expires_at, can_spend }],
                    )
                },
            },
    {
        if self.paused {
            return Err(Failure::Contract(MuxAccountError::Unauthorized));
        }
        require_stored(env, &self.owner, MuxAccountError::NotInitialized)?;
        let mut table = match &self.delegates {
            None => {
                return Err(Failure::Contract(MuxAccountError::NotInitialized));
            },
            Some(t) => {
                if t.contains_key(&delegate) {
                    None
                } else {
                    let fresh = unexpired_delegates(t, env.timestamp);
                    if fresh.len() >= MAX_DELEGATES {
                        return Err(Failure::Contract(MuxAccountError::TooManyDelegates));
                    }
                    Some(fresh)
                }
            },
        };
        let info = DelegateInfo { address: delegate.clone(), expires_at, can_spend };
        match table.take() {
            Some(mut fresh) => {
                fresh.set(delegate.clone(), info);
                self.delegates = Some(fresh);
            },
            None => {
                let mut t = self.delegates.take().unwrap();
                t.set(delegate.clone(), info);
                self.delegates = Some(t);
            },
        }
        env.publish(AccountEvent::DelegateSet { delegate, expires_at, can_spend });
        Ok(())
    }

    /// The owner removes a delegate.
    pub fn remove_delegate(&mut self, env: &mut Env<AccountEvent>, delegate: String) -> (r: Out)
        ensures
            old(self).inv() ==> final(self).inv(),
            match either(
                old(self).pause_check(),
                either(
                    old(self).owner_gate(*old(env)),
                    either(
                        contract_check(
                            old(self).delegates is None,
                            MuxAccountError::NotInitialized,
                        ),
                        contract_check(
                            !old(self).delegate_map().contains_key(delegate@),
                            MuxAccountError::DelegateNotFound,
                        ),
                    ),
                ),
            ) {
                Some(f) => r == Err::<(), _>(f) && *final(self) == *old(self) && old(env).fails(
                    *final(env),
                ),
                None => {
                    &&& r is Ok
                    &&& final(self).delegates is Some
                    &&& final(self).delegate_map() == old(self).delegate_map().remove(delegate@)
                    &&& final(self).keeps_setup(*old(self))
                    &&& final(self).spend_limits == old(self).spend_limits
                    &&& final(self).nonce == old(self).nonce
                    &&& final(self).executing == old(self).executing
                    &&& old(env).completes(
                        *final(env),
                        seq![old(self).owner->0@],
                        seq![AccountEvent::DelegateRemoved { delegate }],
                    )
                },
            },
    {
        if self.paused {
            return Err(Failure::Contract(MuxAccountError::Unauthorized));
        }
        require_stored(env, &self.owner, MuxAccountError::NotInitialized)?;
        match &self.delegates {
            None => {
                return Err(Failure::Contract(MuxAccountError::NotInitialized));
            },
            Some(t) => if !t.contains_key(&delegate) {
                return Err(Failure::Contract(MuxAccountError::DelegateNotFound));
            },
        }
        let mut t = self.delegates.take().unwrap();
        t.remove(&delegate);
        self.delegates = Some(t);
        env.publish(AccountEvent::DelegateRemoved { delegate });
        Ok(())
    }

    /// The owner sets the limit for `asset`: `amount` per `period_ledgers`
    /// ledgers, starting an empty period now.
    pub fn set_spend_limit(
        &mut self,
        env: &mut Env<AccountEvent>,
        asset: String,
        amount: i128,
        period_ledgers: u32,
    ) -> (r: Out)
        ensures
            old(self).inv() ==> final(self).inv(),
            match either(
                old(self).pause_check(),
                either(
                    old(self).owner_gate(*old(env)),
                    either(
                        contract_check(amount <= 0, MuxAccountError::InvalidAmount),
                        contract_check(period_ledgers == 0, MuxAccountError::InvalidPeriod),
                    ),
                ),
            ) {
                Some(f) => r == Err::<(), _>(f) && *final(self) == *old(self) && old(env).fails(
                    *final(env),
                ),
                None => {
                    &&& r is Ok
                    &&& final(self).spend_limits@ == old(self).spend_limits@.insert(
                        asset@,
                        SpendLimit {
                            asset,
                            amount,
                            period_ledgers,
                            spent: 0,
                            reset_ledger: sat_u32(old(env).sequence, period_ledgers),
                        },
                    )
                    &&& final(self).keeps_setup(*old(self))
                    &&& final(self).delegates == old(self).delegates
                    &&& final(self).nonce == old(self).nonce
                    &&& final(self).executing == old(self).executing
                    &&& old(env).completes(
                        *final(env),
                        seq![old(self).owner->0@],
                        seq![AccountEvent::LimitSet { asset, amount, period_ledgers }],
                    )
                },
            },
    {
        if self.paused {
            return Err(Failure::Contract(MuxAccountError::Unauthorized));
        }
        require_stored(env, &self.owner, MuxAccountError::NotInitialized)?;
        if amount <= 0 {
            return Err(Failure::Contract(MuxAccountError::InvalidAmount));
        }
        if period_ledgers == 0 {
            return Err(Failure::Contract(MuxAccountError::InvalidPeriod));
        }
        let limit = SpendLimit {
            asset: asset.clone(),
            amount,
            period_ledgers,
            spent: 0,
            reset_ledger: saturating_add_u32(env.sequence, period_ledgers),
        };
        self.spend_limits.set(asset.clone(), limit);
        env.publish(AccountEvent::LimitSet { asset, amount, period_ledgers });
        Ok(())
    }

    /// The limit record for `asset` after spending `spend` now (see
    /// [`spend_result`]); storage is not written.
    fn compute_spend(&self, asset: &String, spend: i128, now: u32) -> (r: Result<
        SpendLimit,
        MuxAccountError,
    >)
        ensures
            r == spend_result(self.limit_of(asset@), spend, now),
    {
        if spend <= 0 {
            return Err(MuxAccountError::InvalidAmount);
        }
        let mut limit = match self.spend_limits.get(asset) {
            None => {
                return Err(MuxAccountError::SpendLimitExceeded);
            },
            Some(l) => l.duplicate(),
        };
        if now >= limit.reset_ledger {
            limit.spent = 0;
            limit.reset_ledger = saturating_add_u32(now, limit.period_ledgers);
        }
        let new_spent = match limit.spent.checked_add(spend) {
            None => {
                return Err(MuxAccountError::ArithmeticOverflow);
            },
            Some(v) => v,
        };
        if new_spent > limit.amount {
            return Err(MuxAccountError::SpendLimitExceeded);
        }
        limit.spent = new_spent;
        Ok(limit)
    }

    /// Debit `spend` of `asset` against its limit. The account contract
    /// itself must authorize, and no outgoing call may be in progress.
    pub fn debit_spend(&mut self, env: &mut Env<AccountEvent>, asset: String, spend: i128) -> (r: Out)
        ensures
            old(self).inv() ==> final(self).inv(),
            match either(
                old(self).pause_check(),
                either(
                    auth_check(*old(env), old(env).current_contract),
                    either(
                        old(self).guard_check(),
                        err_check(spend_result(old(self).limit_of(asset@), spend, old(env).sequence)),
                    ),
                ),
            ) {
                Some(f) => r == Err::<(), _>(f) && *final(self) == *old(self) && old(env).fails(
                    *final(env),
                ),
                None => {
                    &&& r is Ok
                    &&& final(self).spend_limits@ == old(self).spend_limits@.insert(
                        asset@,
                        spend_result(old(self).limit_of(asset@), spend, old(env).sequence)->Ok_0,
                    )
                    &&& !final(self).executing
                    &&& final(self).keeps_setup(*old(self))
                    &&& final(self).delegates == old(self).delegates
                    &&& final(self).nonce == old(self).nonce
                    &&& old(env).completes(
                        *final(env),
                        seq![old(env).current_contract@],
                        seq![AccountEvent::Debited { asset, spend }],
                    )
                },
            },
    {
        if self.paused {
            return Err(Failure::Contract(MuxAccountError::Unauthorized));
        }
        let me = env.current_contract.clone();
        if !env.require_auth(&me) {
            return Err(Failure::NotAuthorized(me));
        }
        if self.executing {
            return Err(Failure::Contract(MuxAccountError::ReentrancyDetected));
        }
        let limit = match self.compute_spend(&asset, spend, env.sequence) {
            Err(e) => {
                return Err(Failure::Contract(e));
            },
            Ok(l) => l,
        };
        self.spend_limits.set(asset.clone(), limit);
        env.publish(AccountEvent::Debited { asset, spend });
        Ok(())
    }

    /// First half of `execute`: the owner starts a call of `target` that
    /// spends `spend` of `asset`, with the expected `nonce`. The spend is
    /// checked, the nonce consumed and the reentrancy guard taken; the new
    /// limit record is returned, to be stored by [`Self::finish_execute`]
    /// once the call has returned.
    pub fn execute(
        &mut self,
        env: &mut Env<AccountEvent>,
        asset: &String,
        spend: i128,
        nonce: u64,
    ) -> (r: Result<SpendLimit, Failure<MuxAccountError>>)
        ensures
            old(self).inv() && r is Ok ==> limit_ok(r->Ok_0),
            old(self).inv() ==> final(self).inv(),
            match either(
                old(self).pause_check(),
                either(
                    old(self).owner_gate(*old(env)),
                    either(
                        old(self).guard_check(),
                        either(
                            err_check(
                                spend_result(old(self).limit_of(asset@), spend, old(env).sequence),
                            ),
                            old(self).nonce_check(nonce),
                        ),
                    ),
                ),
            ) {
                Some(f) => r == Err::<SpendLimit, _>(f) && *final(self) == *old(self) && old(
                    env,
                ).fails(*final(env)),
                None => {
                    &&& r == Ok::<_, Failure<MuxAccountError>>(
                        spend_result(old(self).limit_of(asset@), spend, old(env).sequence)->Ok_0,
                    )
                    &&& final(self).executing
                    &&& final(self).nonce == old(self).next_nonce()
                    &&& final(self).spend_limits == old(self).spend_limits
                    &&& final(self).keeps_setup(*old(self))
                    &&& final(self).delegates == old(self).delegates
                    &&& old(env).completes(*final(env), seq![old(self).owner->0@], seq![])
                },
            },
    {
        if self.paused {
            return Err(Failure::Contract(MuxAccountError::Unauthorized));
        }
        require_stored(env, &self.owner, MuxAccountError::NotInitialized)?;
        if self.executing {
            return Err(Failure::Contract(MuxAccountError::ReentrancyDetected));
        }
        let limit = match self.compute_spend(asset, spend, env.sequence) {
            Err(e) => {
                return Err(Failure::Contract(e));
            },
            Ok(l) => l,
        };
        self.consume_nonce(nonce)?;
        self.executing = true;
        Ok(limit)
    }

    fn consume_nonce(&mut self, nonce: u64) -> (r: Out)
        ensures
            match old(self).nonce_check(nonce) {
                Some(f) => r == Err::<(), _>(f) && *final(self) == *old(self),
                None => r is Ok && *final(self) == (MuxAccount {
                    nonce: old(self).next_nonce(),
                    ..*old(self)
                }),
            },
    {
        match self.nonce {
            None => Err(Failure::Contract(MuxAccountError::NotInitialized)),
            Some(n) => {
                if n != nonce {
                    return Err(Failure::Contract(MuxAccountError::InvalidNonce));
                }
                self.nonce = Some(saturating_add_u64(n, 1));
                Ok(())
            },
        }
    }

    /// Second half of `execute`, once the call of `target` has returned:
    /// store the debited `limit` of `asset`, which is the record that
    /// [`Self::execute`] returned for `asset` and `spend`, release the guard
    /// and publish.
    pub fn finish_execute(
        &mut self,
        env: &mut Env<AccountEvent>,
        target: String,
        asset: String,
        spend: i128,
        limit: SpendLimit,
    )
        requires
            spend_result(old(self).limit_of(asset@), spend, old(env).sequence) is Ok,
            limit == spend_result(old(self).limit_of(asset@), spend, old(env).sequence)->Ok_0,
        ensures
            old(self).inv() ==> final(self).inv(),
            final(self).spend_limits@ == old(self).spend_limits@.insert(asset@, limit),
            !final(self).executing,
            final(self).keeps_setup(*old(self)),
            final(self).delegates == old(self).delegates,
            final(self).nonce == old(self).nonce,
            old(env).completes(
                *final(env),
                seq![],
                seq![AccountEvent::Executed { target, asset, spend }],
            ),
    {
        self.spend_limits.set(asset.clone(), limit);
        self.executing = false;
        env.publish(AccountEvent::Executed { target, asset, spend });
        assert(final(env).auths.deep_view() =~= old(env).auths.deep_view() + seq![]);
    }

    /// The current owner.
    pub fn owner(&self) -> (r: Result<String, MuxAccountError>)
        ensures
            match self.owner {
                Some(o) => r == Ok::<String, MuxAccountError>(o),
                None => r == Err::<String, _>(MuxAccountError::NotInitialized),
            },
    {
        match &self.owner {
            Some(o) => Ok(o.clone()),
            None => Err(MuxAccountError::NotInitialized),
        }
    }

    /// The delegates not expired at the ledger time of `env`.
    pub fn delegates(&self, env: &Env<AccountEvent>) -> (r: Result<
        Table<String, DelegateInfo>,
        MuxAccountError,
    >)
        ensures
            match r {
                Ok(t) => self.delegates is Some && t@ == unexpired(self.delegate_map(), env.timestamp),
                Err(e) => self.delegates is None && e == MuxAccountError::NotInitialized,
            },
    {
        match &self.delegates {
            None => Err(MuxAccountError::NotInitialized),
            Some(t) => Ok(unexpired_delegates(t, env.timestamp)),
        }
    }

    /// The record of `delegate`, if it is registered and not expired.
    pub fn get_delegate(&self, env: &Env<AccountEvent>, delegate: &String) -> (r: Result<
        DelegateInfo,
        MuxAccountError,
    >)
        ensures
            self.delegates is None ==> r == Err::<DelegateInfo, _>(MuxAccountError::NotInitialized),
            self.delegates is Some && !self.delegate_map().contains_key(delegate@) ==> r == Err::<
                DelegateInfo,
                _,
            >(MuxAccountError::DelegateNotFound),
            self.delegates is Some && self.delegate_map().contains_key(delegate@) ==> r == if env.timestamp
                >= self.delegate_map()[delegate@].expires_at {
                Err::<DelegateInfo, _>(MuxAccountError::DelegateExpired)
            } else {
                Ok(self.delegate_map()[delegate@])
            },
    {
        match &self.delegates {
            None => Err(MuxAccountError::NotInitialized),
            Some(t) => match t.get(delegate) {
                None => Err(MuxAccountError::DelegateNotFound),
                Some(info) => if env.timestamp >= info.expires_at {
                    Err(MuxAccountError::DelegateExpired)
                } else {
                    Ok(info.duplicate())
                },
            },
        }
    }

    /// The guardian set.
    pub fn guardians(&self) -> (r: Result<Vec<String>, MuxAccountError>)
        ensures
            match r {
                Ok(g) => self.guardians is Some && g.deep_view() == self.guardians->0.deep_view(),
                Err(e) => self.guardians is None && e == MuxAccountError::NotInitialized,
            },
    {
        match &self.guardians {
            Some(g) => Ok(copy_all(g)),
            None => Err(MuxAccountError::NotInitialized),
        }
    }

    /// The nonce the next execution must carry.
    pub fn nonce(&self) -> (r: Result<u64, MuxAccountError>)
        ensures
            match self.nonce {
                Some(n) => r == Ok::<u64, MuxAccountError>(n),
                None => r == Err::<u64, _>(MuxAccountError::NotInitialized),
            },
    {
        match self.nonce {
            Some(n) => Ok(n),
            None => Err(MuxAccountError::NotInitialized),
        }
    }

    /// The owner registers (or replaces) `session_key`, allowed to call the
    /// methods of `scopes` until `expires_at`. A new key needs room under the
    /// per-owner cap and is appended to the owner's index.
    pub fn register_session_key(
        &mut self,
        env: &mut Env<AccountEvent>,
        session_key: String,
        expires_at: u64,
        scopes: Vec<Scope>,
    ) -> (r: Out)
        ensures
            old(self).inv() ==> final(self).inv(),
            match either(
                old(self).pause_check(),
                either(
                    old(self).owner_gate(*old(env)),
                    contract_check(
                        old(self).session(session_key@) is None && old(self).session_list().len()
                            >= MAX_SESSION_KEYS,
                        MuxAccountError::TooManySessionKeys,
                    ),
                ),
            ) {
                Some(f) => r == Err::<(), _>(f) && *final(self) == *old(self) && old(env).fails(
                    *final(env),
                ),
                None => {
                    &&& r is Ok
                    &&& final(self).session(session_key@) == Some(
                        SessionView { expires_at, methods: methods(scopes@), revoked: false },
                    )
                    &&& forall|k: Seq<char>|
                        k != session_key@ ==> #[trigger] final(self).session(k) == old(self).session(k)
                    &&& final(self).session_list() == if old(self).session(session_key@) is None {
                        old(self).session_list().push(session_key@)
                    } else {
                        old(self).session_list()
                    }
                    &&& final(self).owner == old(self).owner
                    &&& final(self).guardians == old(self).guardians
                    &&& final(self).sponsors == old(self).sponsors
                    &&& final(self).paused == old(self).paused
                    &&& final(self).metadata == old(self).metadata
                    &&& final(self).delegates == old(self).delegates
                    &&& final(self).spend_limits == old(self).spend_limits
                    &&& final(self).nonce == old(self).nonce
                    &&& final(self).executing == old(self).executing
                    &&& old(env).completes(
                        *final(env),
                        seq![old(self).owner->0@],
                        seq![AccountEvent::SessionKeyRegistered { session_key }],
                    )
                },
            },
    {
        if self.paused {
            return Err(Failure::Contract(MuxAccountError::Unauthorized));
        }
        require_stored(env, &self.owner, MuxAccountError::NotInitialized)?;
        let owner = self.owner.as_ref().unwrap().clone();
        let key = (owner.clone(), session_key.clone());
        if !self.session_keys.contains_key(&key) {
            let mut index = match self.session_index.get(&owner) {
                Some(v) => copy_all(v),
                None => Vec::new(),
            };
            assert(index.deep_view() =~= old(self).session_list());
            if index.len() >= MAX_SESSION_KEYS {
                return Err(Failure::Contract(MuxAccountError::TooManySessionKeys));
            }
            push_str(&mut index, session_key.clone());
            self.session_index.set(owner.clone(), index);
        }
        self.session_keys.set(key, SessionKeyRecord { expires_at, scopes, revoked: false });
        env.publish(AccountEvent::SessionKeyRegistered { session_key });
        Ok(())
    }

    /// The owner revokes `session_key`: its record is kept, marked revoked,
    /// and it leaves the owner's index.
    pub fn revoke_session_key(&mut self, env: &mut Env<AccountEvent>, session_key: String) -> (r: Out)
        ensures
            old(self).inv() ==> final(self).inv(),
            match either(
                old(self).pause_check(),
                either(
                    old(self).owner_gate(*old(env)),
                    contract_check(
                        old(self).session(session_key@) is None,
                        MuxAccountError::Unauthorized,
                    ),
                ),
            ) {
                Some(f) => r == Err::<(), _>(f) && *final(self) == *old(self) && old(env).fails(
                    *final(env),
                ),
                None => {
                    &&& r is Ok
                    &&& final(self).session(session_key@) == Some(
                        SessionView { revoked: true, ..old(self).session(session_key@)->0 },
                    )
                    &&& forall|k: Seq<char>|
                        k != session_key@ ==> #[trigger] final(self).session(k) == old(self).session(k)
                    &&& final(self).session_list() == without_first(
                        old(self).session_list(),
                        session_key@,
                    )
                    &&& final(self).owner == old(self).owner
                    &&& final(self).guardians == old(self).guardians
                    &&& final(self).sponsors == old(self).sponsors
                    &&& final(self).paused == old(self).paused
                    &&& final(self).metadata == old(self).metadata
                    &&& final(self).delegates == old(self).delegates
                    &&& final(self).spend_limits == old(self).spend_limits
                    &&& final(self).nonce == old(self).nonce
                    &&& final(self).executing == old(self).executing
                    &&& old(env).completes(
                        *final(env),
                        seq![old(self).owner->0@],
                        seq![AccountEvent::SessionKeyRevoked { session_key }],
                    )
                },
            },
    {
        if self.paused {
            return Err(Failure::Contract(MuxAccountError::Unauthorized));
        }
        require_stored(env, &self.owner, MuxAccountError::NotInitialized)?;
        let owner = self.owner.as_ref().unwrap().clone();
        let key = (owner.clone(), session_key.clone());
        let record = match self.session_keys.get(&key) {
            None => {
                return Err(Failure::Contract(MuxAccountError::Unauthorized));
            },
            Some(rec) => SessionKeyRecord {
                expires_at: rec.expires_at,
                scopes: copy_scopes(&rec.scopes),
                revoked: true,
            },
        };
        self.session_keys.set(key, record);
        let index = match self.session_index.get(&owner) {
            Some(v) => Some(copy_all(v)),
            None => None,
        };
        if let Some(mut list) = index {
            if remove_first(&mut list, &session_key) {
                self.session_index.set(owner, list);
            }
        }
        env.publish(AccountEvent::SessionKeyRevoked { session_key });
        Ok(())
    }

    /// Whether `session_key` is registered, not revoked and not expired now.
    pub fn is_session_key_valid(&self, env: &Env<AccountEvent>, session_key: &String) -> (r: Result<
        bool,
        MuxAccountError,
    >)
        ensures
            self.owner is None ==> r == Err::<bool, _>(MuxAccountError::NotInitialized),
            self.owner is Some ==> r == Ok::<bool, MuxAccountError>(
                match self.session(session_key@) {
                    Some(rec) => !rec.revoked && env.timestamp < rec.expires_at,
                    None => false,
                },
            ),
    {
        let owner = match &self.owner {
            None => {
                return Err(MuxAccountError::NotInitialized);
            },
            Some(o) => o.clone(),
        };
        match self.session_keys.get(&(owner, session_key.clone())) {
            Some(rec) => Ok(!rec.revoked && env.timestamp < rec.expires_at),
            None => Ok(false),
        }
    }

    fn check_session(&self, env: &Env<AccountEvent>, session_key: &String, function: &String) -> (r:
        Out)
        ensures
            match self.session_check(session_key@, function@, env.timestamp) {
                Some(f) => r == Err::<(), _>(f),
                None => r is Ok,
            },
    {
        let owner = match &self.owner {
            None => {
                return Err(Failure::Contract(MuxAccountError::NotInitialized));
            },
            Some(o) => o.clone(),
        };
        let rec = match self.session_keys.get(&(owner, session_key.clone())) {
            None => {
                return Err(Failure::Contract(MuxAccountError::Unauthorized));
            },
            Some(rec) => rec,
        };
        if rec.revoked || env.timestamp >= rec.expires_at || rec.scopes.len() == 0 {
            return Err(Failure::Contract(MuxAccountError::Unauthorized));
        }
        assert(self.session(session_key@) == Some(rec@));
        let mut i: usize = 0;
        while i < rec.scopes.len()
            invariant
                self.session(session_key@) == Some(rec@),
                !rec.revoked && env.timestamp < rec.expires_at && rec.scopes@.len() > 0,
                i <= rec.scopes@.len(),
                forall|j: int| 0 <= j < i ==> rec.scopes@[j].method@ != function@,
            decreases rec.scopes@.len() - i,
        {
            if rec.scopes[i].method == *function {
                assert(methods(rec.scopes@)[i as int] == function@);
                assert(methods(rec.scopes@).contains(function@));
                assert(self.session(session_key@) == Some(rec@));
                return Ok(());
            }
            i = i + 1;
        }
        assert(!methods(rec.scopes@).contains(function@)) by {
            if methods(rec.scopes@).contains(function@) {
                let j = choose|j: int| 0 <= j < methods(rec.scopes@).len() && methods(rec.scopes@)[j] == function@;
                assert(rec.scopes@[j].method@ == function@);
            }
        }
        Err(Failure::Contract(MuxAccountError::ScopeNotGranted))
    }

    /// First half of `execute_with_session`: `session_key` starts a call of
    /// `function`, which its scopes must name, with the expected `nonce`. The
    /// nonce is consumed and the reentrancy guard taken until
    /// [`Self::finish_session`]; the audit payload of the call of `function`
    /// on `target`, with no sponsor, is returned for it.
    pub fn execute_with_session(
        &mut self,
        env: &mut Env<AccountEvent>,
        session_key: String,
        target: String,
        function: String,
        nonce: u64,
    ) -> (r: Result<SessionExecutedEvent, Failure<MuxAccountError>>)
        ensures
            old(self).inv() ==> final(self).inv(),
            match either(
                old(self).pause_check(),
                either(
                    auth_check(*old(env), session_key),
                    either(
                        old(self).session_check(session_key@, function@, old(env).timestamp),
                        either(old(self).nonce_check(nonce), old(self).guard_check()),
                    ),
                ),
            ) {
                Some(f) => r == Err::<SessionExecutedEvent, _>(f) && *final(self) == *old(self) && old(env).fails(
                    *final(env),
                ),
                None => {
                    &&& r == Ok::<_, Failure<MuxAccountError>>(
                        SessionExecutedEvent { session_key, target, function, sponsor: None },
                    )
                    &&& *final(self) == (MuxAccount {
                        nonce: old(self).next_nonce(),
                        executing: true,
                        ..*old(self)
                    })
                    &&& old(env).completes(*final(env), seq![session_key@], seq![])
                },
            },
    {
        if self.paused {
            return Err(Failure::Contract(MuxAccountError::Unauthorized));
        }
        if !env.require_auth(&session_key) {
            return Err(Failure::NotAuthorized(session_key));
        }
        match self.start_session(env, &session_key, &function, nonce) {
            Err(f) => Err(f),
            Ok(()) => Ok(SessionExecutedEvent { session_key, target, function, sponsor: None }),
        }
    }

    fn start_session(
        &mut self,
        env: &Env<AccountEvent>,
        session_key: &String,
        function: &String,
        nonce: u64,
    ) -> (r: Out)
        ensures
            match either(
                old(self).session_check(session_key@, function@, env.timestamp),
                either(old(self).nonce_check(nonce), old(self).guard_check()),
            ) {
                Some(f) => r == Err::<(), _>(f) && *final(self) == *old(self),
                None => r is Ok && *final(self) == (MuxAccount {
                    nonce: old(self).next_nonce(),
                    executing: true,
                    ..*old(self)
                }),
            },
    {
        self.check_session(env, session_key, function)?;
        match self.nonce {
            None => {
                return Err(Failure::Contract(MuxAccountError::NotInitialized));
            },
            Some(n) => if n != nonce {
                return Err(Failure::Contract(MuxAccountError::InvalidNonce));
            },
        }
        if self.executing {
            return Err(Failure::Contract(MuxAccountError::ReentrancyDetected));
        }
        self.consume_nonce(nonce)?;
        self.executing = true;
        Ok(())
    }

    /// First half of `execute_with_session_sponsored`: as
    /// [`Self::execute_with_session`], submitted and paid for by `sponsor`,
    /// which must authorize and be on the relayer allowlist. The returned
    /// audit payload names `sponsor`.
    pub fn execute_with_session_sponsored(
        &mut self,
        env: &mut Env<AccountEvent>,
        session_key: String,
        sponsor: String,
        target: String,
        function: String,
        nonce: u64,
    ) -> (r: Result<SessionExecutedEvent, Failure<MuxAccountError>>)
        ensures
            old(self).inv() ==> final(self).inv(),
            match either(
                old(self).pause_check(),
                either(
                    auth_check(*old(env), sponsor),
                    either(
                        contract_check(
                            !old(self).sponsor_allowed(sponsor@),
                            MuxAccountError::SponsorNotAuthorized,
                        ),
                        either(
                            auth_check(*old(env), session_key),
                            either(
                                old(self).session_check(
                                    session_key@,
                                    function@,
                                    old(env).timestamp,
                                ),
                                either(old(self).nonce_check(nonce), old(self).guard_check()),
                            ),
                        ),
                    ),
                ),
            ) {
                Some(f) => r == Err::<SessionExecutedEvent, _>(f) && *final(self) == *old(self) && old(env).fails(
                    *final(env),
                ),
                None => {
                    &&& r == Ok::<_, Failure<MuxAccountError>>(
                        SessionExecutedEvent { session_key, target, function, sponsor: Some(sponsor) },
                    )
                    &&& *final(self) == (MuxAccount {
                        nonce: old(self).next_nonce(),
                        executing: true,
                        ..*old(self)
                    })
                    &&& old(env).completes(*final(env), seq![sponsor@, session_key@], seq![])
                },
            },
    {
        if self.paused {
            return Err(Failure::Contract(MuxAccountError::Unauthorized));
        }
        if !env.require_auth(&sponsor) {
            return Err(Failure::NotAuthorized(sponsor));
        }
        let allowed = match self.sponsors.get(&sponsor) {
            Some(b) => *b,
            None => false,
        };
        if !allowed {
            return Err(Failure::Contract(MuxAccountError::SponsorNotAuthorized));
        }
        if !env.require_auth(&session_key) {
            return Err(Failure::NotAuthorized(session_key));
        }
        let r = self.start_session(env, &session_key, &function, nonce);
        assert(final(env).auths.deep_view() =~= old(env).auths.deep_view() + seq![
            sponsor@,
            session_key@,
        ]);
        match r {
            Err(f) => Err(f),
            Ok(()) => Ok(SessionExecutedEvent { session_key, target, function, sponsor: Some(sponsor) }),
        }
    }

    /// Second half of a session execution, once the call has returned:
    /// release the guard and publish the audit payload.
    pub fn finish_session(&mut self, env: &mut Env<AccountEvent>, executed: SessionExecutedEvent)
        ensures
            old(self).inv() ==> final(self).inv(),
            *final(self) == (MuxAccount { executing: false, ..*old(self) }),
            old(env).completes(*final(env), seq![], seq![AccountEvent::SessionExecuted(executed)]),
    {
        self.executing = false;
        env.publish(AccountEvent::SessionExecuted(executed));
        assert(final(env).auths.deep_view() =~= old(env).auths.deep_view() + seq![]);
    }

    /// The owner stores descriptive metadata, replacing any earlier.
    pub fn set_metadata(&mut self, env: &mut Env<AccountEvent>, meta: RegistryMeta) -> (r: Out)
        ensures
            old(self).inv() ==> final(self).inv(),
            match old(self).owner_gate(*old(env)) {
                Some(f) => r == Err::<(), _>(f) && *final(self) == *old(self) && old(env).fails(
                    *final(env),
                ),
                None => {
                    &&& r is Ok
                    &&& *final(self) == (MuxAccount { metadata: Some(meta), ..*old(self) })
                    &&& old(env).completes(
                        *final(env),
                        seq![old(self).owner->0@],
                        seq![AccountEvent::MetaSet { name: meta.name }],
                    )
                },
            },
    {
        require_stored(env, &self.owner, MuxAccountError::NotInitialized)?;
        let name = meta.name.clone();
        self.metadata = Some(meta);
        env.publish(AccountEvent::MetaSet { name });
        Ok(())
    }

    /// The owner adds `sponsor` to the relayer allowlist, or removes it
    /// (`allowed` false); refused while paused.
    pub fn set_sponsor(&mut self, env: &mut Env<AccountEvent>, sponsor: String, allowed: bool) -> (r:
        Out)
        ensures
            old(self).inv() ==> final(self).inv(),
            match either(old(self).pause_check(), old(self).owner_gate(*old(env))) {
                Some(f) => r == Err::<(), _>(f) && *final(self) == *old(self) && old(env).fails(
                    *final(env),
                ),
                None => {
                    &&& r is Ok
                    &&& final(self).sponsors@ == old(self).sponsors@.insert(sponsor@, allowed)
                    &&& final(self).owner == old(self).owner
                    &&& final(self).guardians == old(self).guardians
                    &&& final(self).delegates == old(self).delegates
                    &&& final(self).spend_limits == old(self).spend_limits
                    &&& final(self).nonce == old(self).nonce
                    &&& final(self).session_keys == old(self).session_keys
                    &&& final(self).session_index == old(self).session_index
                    &&& final(self).paused == old(self).paused
                    &&& final(self).executing == old(self).executing
                    &&& final(self).metadata == old(self).metadata
                    &&& old(env).completes(
                        *final(env),
                        seq![old(self).owner->0@],
                        seq![AccountEvent::SponsorSet { sponsor, allowed }],
                    )
                },
            },
    {
        if self.paused {
            return Err(Failure::Contract(MuxAccountError::Unauthorized));
        }
        require_stored(env, &self.owner, MuxAccountError::NotInitialized)?;
        self.sponsors.set(sponsor.clone(), allowed);
        env.publish(AccountEvent::SponsorSet { sponsor, allowed });
        Ok(())
    }

    /// Whether `sponsor` is on the relayer allowlist.
    pub fn is_sponsor(&self, sponsor: &String) -> (b: bool)
        ensures
            b == self.sponsor_allowed(sponsor@),
    {
        match self.sponsors.get(sponsor) {
            Some(a) => *a,
            None => false,
        }
    }

    /// The stored metadata, if any.
    pub fn get_metadata(&self) -> (r: Option<RegistryMeta>)
        ensures
            r == self.metadata,
    {
        match &self.metadata {
            Some(m) => Some(m.duplicate()),
            None => None,
        }
    }
}

/// A spend in a period that has ended opens the next one: the stored record
/// holds this spend alone, keeps its asset, amount and period length, and its
/// period ends `period_ledgers` after `now` (at `u32::MAX` at the latest), so
/// strictly after `now` unless the ledger is already at `u32::MAX`.
pub proof fn spend_after_period_opens_next(l: SpendLimit, spend: i128, now: u32)
    requires
        limit_ok(l),
        now >= l.reset_ledger,
        spend_result(Some(l), spend, now) is Ok,
    ensures
        ({
            let n = spend_result(Some(l), spend, now)->Ok_0;
            &&& n.spent == spend
            &&& 0 < spend <= l.amount
            &&& n.reset_ledger == if now + l.period_ledgers > u32::MAX {
                u32::MAX as int
            } else {
                now + l.period_ledgers
            }
            &&& now < u32::MAX ==> n.reset_ledger > now
            &&& n.asset == l.asset
            &&& n.amount == l.amount
            &&& n.period_ledgers == l.period_ledgers
        }),
{
}

/// Within a period, spends add up: a spend accepted before the period ends
/// adds exactly `spend` to what was spent, keeps the period's end, and the
/// total stays within the amount.
pub proof fn spend_within_period_accumulates(l: SpendLimit, spend: i128, now: u32)
    requires
        limit_ok(l),
        now < l.reset_ledger,
        spend_result(Some(l), spend, now) is Ok,
    ensures
        ({
            let n = spend_result(Some(l), spend, now)->Ok_0;
            &&& n.spent == l.spent + spend
            &&& n.spent <= n.amount
            &&& n.reset_ledger == l.reset_ledger
            &&& n.asset == l.asset
            &&& n.amount == l.amount
            &&& n.period_ledgers == l.period_ledgers
        }),
{
}

/// Within a period, a spend is accepted exactly when it is positive and what
/// was already spent plus it stays within the amount.
pub proof fn spend_within_period_accepted_iff(l: SpendLimit, spend: i128, now: u32)
    requires
        limit_ok(l),
        now < l.reset_ledger,
    ensures
        (spend_result(Some(l), spend, now) is Ok) <==> (0 < spend && l.spent + spend <= l.amount),
{
}

/// Two spends accepted one after the other at the same ledger never exceed
/// the amount together (with what the period had already spent, when it has
/// not ended): the second spend sees the first.
pub proof fn same_ledger_spends_bounded(l: SpendLimit, first: i128, second: i128, now: u32)
    requires
        limit_ok(l),
        now < u32::MAX,
        spend_result(Some(l), first, now) is Ok,
        spend_result(Some(spend_result(Some(l), first, now)->Ok_0), second, now) is Ok,
    ensures
        now >= l.reset_ledger ==> first + second <= l.amount,
        now < l.reset_ledger ==> l.spent + first + second <= l.amount,
{
}

/// The record after a series of spend attempts, the `i`-th of `spends[i]` at
/// ledger `nows[i]`; a refused attempt leaves the record as it was.
pub open spec fn after_spends(l: SpendLimit, spends: Seq<i128>, nows: Seq<u32>) -> SpendLimit
    decreases spends.len(),
{
    if spends.len() == 0 || nows.len() == 0 {
        l
    } else {
        let m = after_spends(l, spends.drop_last(), nows.drop_last());
        match spend_result(Some(m), spends.last(), nows.last()) {
            Ok(n) => n,
            Err(_) => m,
        }
    }
}

/// The sum of the attempts of [`after_spends`] that were accepted.
pub open spec fn accepted_total(l: SpendLimit, spends: Seq<i128>, nows: Seq<u32>) -> int
    decreases spends.len(),
{
    if spends.len() == 0 || nows.len() == 0 {
        0
    } else {
        let m = after_spends(l, spends.drop_last(), nows.drop_last());
        accepted_total(l, spends.drop_last(), nows.drop_last()) + if spend_result(
            Some(m),
            spends.last(),
            nows.last(),
        ) is Ok {
            spends.last() as int
        } else {
            0
        }
    }
}

/// Within one period the accepted spends never exceed the amount: after any
/// series of attempts made before the period ends, what is stored as spent is
/// what was spent before plus every accepted spend, the period's end is
/// unchanged, and that total is at most the amount.
pub proof fn period_spends_bounded(l: SpendLimit, spends: Seq<i128>, nows: Seq<u32>)
    requires
        limit_ok(l),
        spends.len() == nows.len(),
        forall|i: int| 0 <= i < nows.len() ==> #[trigger] nows[i] < l.reset_ledger,
    ensures
        after_spends(l, spends, nows).spent == l.spent + accepted_total(l, spends, nows),
        l.spent + accepted_total(l, spends, nows) <= l.amount,
        after_spends(l, spends, nows).reset_ledger == l.reset_ledger,
        after_spends(l, spends, nows).amount == l.amount,
        limit_ok(after_spends(l, spends, nows)),
    decreases spends.len(),
{
    if spends.len() > 0 {
        let sp = spends.drop_last();
        let ns = nows.drop_last();
        assert forall|i: int| 0 <= i < ns.len() implies #[trigger] ns[i] < l.reset_ledger by {
            assert(ns[i] == nows[i]);
        }
        period_spends_bounded(l, sp, ns);
        assert(nows.last() == nows[nows.len() - 1]);
        let m = after_spends(l, sp, ns);
        if spend_result(Some(m), spends.last(), nows.last()) is Ok {
            spend_within_period_accumulates(m, spends.last(), nows.last());
        }
    }
}

/// A usable session key (registered under the owner, not revoked, not
/// expired, with some scope) may call exactly the methods that one of its
/// scopes names, whichever position that scope has; any other method is
/// refused as not granted.
pub proof fn session_scopes_grant_listed_methods(
    c: MuxAccount,
    key: Seq<char>,
    function: Seq<char>,
    now: u64,
)
    requires
        c.owner is Some,
        c.session_keys@.contains_key((c.owner->0@, key)),
        !c.session_keys@[(c.owner->0@, key)].revoked,
        now < c.session_keys@[(c.owner->0@, key)].expires_at,
        c.session_keys@[(c.owner->0@, key)].scopes@.len() > 0,
    ensures
        ({
            let scopes = c.session_keys@[(c.owner->0@, key)].scopes@;
            &&& (c.session_check(key, function, now) is None) <==> exists|i: int|
                0 <= i < scopes.len() && #[trigger] scopes[i].method@ == function
            &&& c.session_check(key, function, now) is Some ==> c.session_check(key, function, now)
                == Some(Failure::Contract(MuxAccountError::ScopeNotGranted))
        }),
{
    let scopes = c.session_keys@[(c.owner->0@, key)].scopes@;
    let ms = methods(scopes);
    assert(c.session(key) == Some(c.session_keys@[(c.owner->0@, key)]@));
    if exists|i: int| 0 <= i < scopes.len() && #[trigger] scopes[i].method@ == function {
        let i = choose|i: int| 0 <= i < scopes.len() && #[trigger] scopes[i].method@ == function;
        assert(ms[i] == function);
    }
    if ms.contains(function) {
        let j = choose|j: int| 0 <= j < ms.len() && ms[j] == function;
        assert(scopes[j].method@ == function);
    }
}

} // verus!

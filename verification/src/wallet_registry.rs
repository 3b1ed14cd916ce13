//! Named wallet registry: the owner records a wallet address (and optionally
//! metadata) under each name; anyone reads them back.
use vstd::prelude::*;
use crate::host::{gate, require_stored, Env, Failure};
use crate::keys::{contains, copy_all, lemma_push_contains, push_str};
use crate::table::Table;

verus! {

/// Maximum number of registered wallet names.
pub const MAX_WALLETS: usize = 128;

/// Errors returned by the registry.
#[derive(Clone, Copy, Debug, PartialEq, Eq, Structural)]
pub enum WalletRegistryError {
    /// The registry has not been initialized.
    NotInitialized,
    /// The registry was already initialized.
    AlreadyInitialized,
    /// The caller is not the owner.
    Unauthorized,
    /// Nothing is registered under the name.
    WalletNotFound,
    /// `MAX_WALLETS` names are already registered.
    TooManyWallets,
}

impl WalletRegistryError {
    /// The stable on-chain error code.
    pub fn code(&self) -> (c: u32)
        ensures
            c == match *self {
                WalletRegistryError::NotInitialized => 1u32,
                WalletRegistryError::AlreadyInitialized => 2,
                WalletRegistryError::Unauthorized => 3,
                WalletRegistryError::WalletNotFound => 4,
                WalletRegistryError::TooManyWallets => 5,
            },
    {
        match self {
            WalletRegistryError::NotInitialized => 1,
            WalletRegistryError::AlreadyInitialized => 2,
            WalletRegistryError::Unauthorized => 3,
            WalletRegistryError::WalletNotFound => 4,
            WalletRegistryError::TooManyWallets => 5,
        }
    }
}

/// Metadata of a registered wallet.
#[derive(Debug)]
pub struct WalletMetadata {
    /// Display label.
    pub label: String,
    /// Short description.
    pub description: String,
}

impl WalletMetadata {
    /// A copy of this metadata.
    pub fn duplicate(&self) -> (r: Self)
        ensures
            r == *self,
    {
        WalletMetadata { label: self.label.clone(), description: self.description.clone() }
    }
}

/// Events published by the wallet registry (topic `mux_wreg`, then the
/// action).
#[derive(Debug)]
pub enum WalletRegistryEvent {
    /// `init`: the owner was set.
    Init { owner: String },
    /// `wlt_reg`: a wallet was registered.
    WalletRegistered { name: String, wallet: String },
    /// `wlt_meta`: a wallet was registered with metadata.
    WalletRegisteredWithMetadata { name: String, wallet: String },
}

impl WalletRegistryEvent {
    /// The contract tag, the first topic of every event.
    pub fn topic() -> (t: &'static str)
        ensures
            t == "mux_wreg",
    {
        "mux_wreg"
    }

    /// The action symbol, the second topic of the event.
    pub fn action(&self) -> (a: &'static str)
        ensures
            a == match *self {
                WalletRegistryEvent::Init { .. } => "init",
                WalletRegistryEvent::WalletRegistered { .. } => "wlt_reg",
                WalletRegistryEvent::WalletRegisteredWithMetadata { .. } => "wlt_meta",
            },
    {
        match self {
            WalletRegistryEvent::Init { .. } => "init",
            WalletRegistryEvent::WalletRegistered { .. } => "wlt_reg",
            WalletRegistryEvent::WalletRegisteredWithMetadata { .. } => "wlt_meta",
        }
    }
}

/// Storage of a wallet registry instance.
pub struct MuxWalletRegistry {
    /// The owner, once initialized.
    pub owner: Option<String>,
    /// Registered names, in order of first registration.
    pub names: Vec<String>,
    /// Wallet registered under each name.
    pub wallets: Table<String, String>,
    /// Metadata registered under each name, if any.
    pub metadata: Table<String, WalletMetadata>,
}

type Out = Result<(), Failure<WalletRegistryError>>;

impl MuxWalletRegistry {
    /// The names are distinct, at most `MAX_WALLETS`, none before
    /// initialization, and exactly the names that have a wallet; every
    /// name with metadata is registered.
    pub open spec fn inv(self) -> bool {
        &&& self.owner is None ==> self.names@.len() == 0
        &&& self.names.deep_view().len() <= MAX_WALLETS
        &&& self.names.deep_view().no_duplicates()
        &&& forall|n: Seq<char>| #[trigger]
            self.wallets@.contains_key(n) <==> self.names.deep_view().contains(n)
        &&& forall|n: Seq<char>| #[trigger]
            self.metadata@.contains_key(n) ==> self.names.deep_view().contains(n)
    }

    /// Failure of the owner check.
    pub open spec fn owner_gate(self, env: Env<WalletRegistryEvent>) -> Option<Failure<WalletRegistryError>> {
        gate(self.owner, env, WalletRegistryError::NotInitialized)
    }

    /// The failure with which registering `name` is refused, if any.
    pub open spec fn register_check(self, env: Env<WalletRegistryEvent>, name: Seq<char>) -> Option<
        Failure<WalletRegistryError>,
    > {
        if self.owner_gate(env) is Some {
            self.owner_gate(env)
        } else if !self.names.deep_view().contains(name) && self.names.deep_view().len()
            >= MAX_WALLETS {
            Some(Failure::Contract(WalletRegistryError::TooManyWallets))
        } else {
            None
        }
    }

    /// `name`'s list entry after registering it: appended when new.
    pub open spec fn names_after(self, name: Seq<char>) -> Seq<Seq<char>> {
        if self.names.deep_view().contains(name) {
            self.names.deep_view()
        } else {
            self.names.deep_view().push(name)
        }
    }

    /// A freshly deployed registry: nothing registered.
    pub fn new() -> (c: Self)
        ensures
            c.owner is None,
            c.names@.len() == 0,
            c.wallets@ == Map::<Seq<char>, String>::empty(),
            c.metadata@ == Map::<Seq<char>, WalletMetadata>::empty(),
            c.inv(),
    {
        let c = MuxWalletRegistry {
            owner: None,
            names: Vec::new(),
            wallets: Table::new(),
            metadata: Table::new(),
        };
        assert(c.names.deep_view() =~= Seq::<Seq<char>>::empty());
        c
    }

    /// Set the owner, once; the owner must authorize.
    pub fn initialize(&mut self, env: &mut Env<WalletRegistryEvent>, owner: String) -> (r: Out)
        requires
            old(self).inv(),
        ensures
            final(self).inv(),
            old(self).owner is Some ==> r == Err::<(), _>(
                Failure::Contract(WalletRegistryError::AlreadyInitialized),
            ),
            old(self).owner is None && !old(env).authorizes(owner@) ==> r == Err::<(), _>(
                Failure::<WalletRegistryError>::NotAuthorized(owner),
            ),
            r is Ok <==> old(self).owner is None && old(env).authorizes(owner@),
            r is Ok ==> {
                &&& *final(self) == (MuxWalletRegistry { owner: Some(owner), ..*old(self) })
                &&& final(self).names@.len() == 0
                &&& old(env).completes(
                    *final(env),
                    seq![owner@],
                    seq![WalletRegistryEvent::Init { owner }],
                )
            },
            r is Err ==> *final(self) == *old(self) && old(env).fails(*final(env)),
    {
        if self.owner.is_some() {
            return Err(Failure::Contract(WalletRegistryError::AlreadyInitialized));
        }
        if !env.require_auth(&owner) {
            return Err(Failure::NotAuthorized(owner));
        }
        // Nothing can be registered before initialization: the list of
        // names is still empty.
        self.owner = Some(owner.clone());
        env.publish(WalletRegistryEvent::Init { owner });
        Ok(())
    }

    /// Authorize a code upgrade: the owner must authorize.
    pub fn upgrade(&self, env: &mut Env<WalletRegistryEvent>) -> (r: Out)
        ensures
            match self.owner_gate(*old(env)) {
                Some(f) => r == Err::<(), _>(f) && old(env).fails(*final(env)),
                None => r is Ok && old(env).completes(*final(env), seq![self.owner->0@], seq![]),
            },
    {
        require_stored(env, &self.owner, WalletRegistryError::NotInitialized)
    }

    /// Add `name` to the list unless it is there, refusing a new name when
    /// the list is full.
    fn add_name(&mut self, name: &String) -> (r: Result<(), WalletRegistryError>)
        requires
            old(self).inv(),
        ensures
            !old(self).names.deep_view().contains(name@) && old(self).names.deep_view().len()
                >= MAX_WALLETS ==> r == Err::<(), _>(WalletRegistryError::TooManyWallets)
                && *final(self) == *old(self),
            r is Ok <==> old(self).names.deep_view().contains(name@) || old(
                self,
            ).names.deep_view().len() < MAX_WALLETS,
            r is Ok ==> {
                &&& final(self).names.deep_view() == old(self).names_after(name@)
                &&& final(self).names.deep_view().len() <= MAX_WALLETS
                &&& final(self).names.deep_view().no_duplicates()
                &&& final(self).owner == old(self).owner
                &&& final(self).wallets == old(self).wallets
                &&& final(self).metadata == old(self).metadata
            },
    {
        if contains(&self.names, name) {
            return Ok(());
        }
        if self.names.len() >= MAX_WALLETS {
            return Err(WalletRegistryError::TooManyWallets);
        }
        let ghost s = self.names.deep_view();
        push_str(&mut self.names, name.clone());
        assert forall|i: int, j: int|
            0 <= i < j < s.push(name@).len() implies s.push(name@)[i] != s.push(name@)[j] by {
            if j == s.len() {
                assert(s[i] != name@);
            } else {
                assert(s[i] != s[j]);
            }
        }
        Ok(())
    }

    /// The owner registers (or updates) `wallet` under `name`. A new name
    /// needs room under `MAX_WALLETS`.
    pub fn register_wallet(&mut self, env: &mut Env<WalletRegistryEvent>, name: String, wallet: String) -> (r:
        Out)
        requires
            old(self).inv(),
        ensures
            final(self).inv(),
            match old(self).register_check(*old(env), name@) {
                Some(f) => r == Err::<(), _>(f) && *final(self) == *old(self) && old(env).fails(
                    *final(env),
                ),
                None => {
                    &&& r is Ok
                    &&& final(self).owner == old(self).owner
                    &&& final(self).names.deep_view() == old(self).names_after(name@)
                    &&& final(self).wallets@ == old(self).wallets@.insert(name@, wallet)
                    &&& final(self).metadata == old(self).metadata
                    &&& old(env).completes(
                        *final(env),
                        seq![old(self).owner->0@],
                        seq![WalletRegistryEvent::WalletRegistered { name, wallet }],
                    )
                },
            },
    {
        require_stored(env, &self.owner, WalletRegistryError::NotInitialized)?;
        if let Err(e) = self.add_name(&name) {
            assert(old(env).fails(*env));
            return Err(Failure::Contract(e));
        }
        self.wallets.set(name.clone(), wallet.clone());
        assert forall|n: Seq<char>| #[trigger]
            self.wallets@.contains_key(n) <==> self.names.deep_view().contains(n) by {
            lemma_push_contains(old(self).names.deep_view(), name@, n);
            assert(old(self).wallets@.contains_key(n) <==> old(self).names.deep_view().contains(
                n,
            ));
        }
        assert forall|n: Seq<char>| #[trigger]
            self.metadata@.contains_key(n) implies self.names.deep_view().contains(n) by {
            lemma_push_contains(old(self).names.deep_view(), name@, n);
            assert(old(self).names.deep_view().contains(n));
        }
        env.publish(WalletRegistryEvent::WalletRegistered { name, wallet });
        Ok(())
    }

    /// As [`Self::register_wallet`], and stores the metadata under `name`,
    /// replacing any.
    pub fn register_wallet_with_metadata(
        &mut self,
        env: &mut Env<WalletRegistryEvent>,
        name: String,
        wallet: String,
        label: String,
        description: String,
    ) -> (r: Out)
        requires
            old(self).inv(),
        ensures
            final(self).inv(),
            match old(self).register_check(*old(env), name@) {
                Some(f) => r == Err::<(), _>(f) && *final(self) == *old(self) && old(env).fails(
                    *final(env),
                ),
                None => {
                    &&& r is Ok
                    &&& final(self).owner == old(self).owner
                    &&& final(self).names.deep_view() == old(self).names_after(name@)
                    &&& final(self).wallets@ == old(self).wallets@.insert(name@, wallet)
                    &&& final(self).metadata@ == old(self).metadata@.insert(
                        name@,
                        WalletMetadata { label, description },
                    )
                    &&& old(env).completes(
                        *final(env),
                        seq![old(self).owner->0@],
                        seq![WalletRegistryEvent::WalletRegisteredWithMetadata { name, wallet }],
                    )
                },
            },
    {
        require_stored(env, &self.owner, WalletRegistryError::NotInitialized)?;
        if let Err(e) = self.add_name(&name) {
            assert(old(env).fails(*env));
            return Err(Failure::Contract(e));
        }
        self.wallets.set(name.clone(), wallet.clone());
        let meta = WalletMetadata { label, description };
        self.metadata.set(name.clone(), meta);
        assert forall|n: Seq<char>| #[trigger]
            self.wallets@.contains_key(n) <==> self.names.deep_view().contains(n) by {
            lemma_push_contains(old(self).names.deep_view(), name@, n);
            assert(old(self).wallets@.contains_key(n) <==> old(self).names.deep_view().contains(
                n,
            ));
        }
        assert forall|n: Seq<char>| #[trigger]
            self.metadata@.contains_key(n) implies self.names.deep_view().contains(n) by {
            lemma_push_contains(old(self).names.deep_view(), name@, n);
            if n != name@ {
                assert(old(self).names.deep_view().contains(n));
            }
        }
        env.publish(WalletRegistryEvent::WalletRegisteredWithMetadata { name, wallet });
        Ok(())
    }

    /// The wallet registered under `name`.
    pub fn get_wallet(&self, name: &String) -> (r: Result<String, WalletRegistryError>)
        ensures
            match r {
                Ok(v) => self.wallets@.contains_key(name@) && v == self.wallets@[name@],
                Err(e) => !self.wallets@.contains_key(name@) && e
                    == WalletRegistryError::WalletNotFound,
            },
    {
        match self.wallets.get(name) {
            Some(v) => Ok(v.clone()),
            None => Err(WalletRegistryError::WalletNotFound),
        }
    }

    /// The metadata registered under `name`.
    pub fn get_metadata(&self, name: &String) -> (r: Result<WalletMetadata, WalletRegistryError>)
        ensures
            match r {
                Ok(m) => self.metadata@.contains_key(name@) && m == self.metadata@[name@],
                Err(e) => !self.metadata@.contains_key(name@) && e
                    == WalletRegistryError::WalletNotFound,
            },
    {
        match self.metadata.get(name) {
            Some(m) => Ok(m.duplicate()),
            None => Err(WalletRegistryError::WalletNotFound),
        }
    }

    /// Registered names, in order of first registration.
    pub fn list_wallets(&self) -> (r: Vec<String>)
        ensures
            r.deep_view() == self.names.deep_view(),
    {
        copy_all(&self.names)
    }
}

/// A registration is what is read back: right after `name` is registered
/// with `wallet`, looking `name` up gives `wallet`, `name` is listed, and
/// every other name keeps its wallet.
pub proof fn register_then_read(
    before: MuxWalletRegistry,
    after: MuxWalletRegistry,
    name: Seq<char>,
    wallet: String,
)
    requires
        after.wallets@ == before.wallets@.insert(name, wallet),
        after.names.deep_view() == before.names_after(name),
    ensures
        after.wallets@.contains_key(name),
        after.wallets@[name] == wallet,
        after.names.deep_view().contains(name),
        forall|n: Seq<char>| n != name ==> #[trigger] after.wallets@.get(n) == before.wallets@.get(n),
{
    if !before.names.deep_view().contains(name) {
        assert(after.names.deep_view()[before.names.deep_view().len() as int] == name);
    }
}

/// A name is listed exactly when a wallet is registered under it.
pub proof fn listed_iff_registered(r: MuxWalletRegistry, name: Seq<char>)
    requires
        r.inv(),
    ensures
        r.names.deep_view().contains(name) <==> r.wallets@.contains_key(name),
{
}

} // verus!

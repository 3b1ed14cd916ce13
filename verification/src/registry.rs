//! Contract version registry: the admin records a version (and optionally
//! metadata) under each component name; anyone reads them back.
use vstd::prelude::*;
use crate::host::{gate, require_stored, Env, Failure};
use crate::keys::{contains, copy_all, lemma_push_contains, push_str};
use crate::table::Table;

verus! {

/// Maximum number of registered names.
pub const MAX_CONTRACTS: usize = 128;

/// Errors returned by the registry.
#[derive(Clone, Copy, Debug, PartialEq, Eq, Structural)]
pub enum MuxRegistryError {
    /// The registry has not been initialized.
    NotInitialized,
    /// The registry was already initialized.
    AlreadyInitialized,
    /// The caller is not the admin.
    Unauthorized,
    /// Nothing is registered under the name.
    ContractNotFound,
    /// `MAX_CONTRACTS` names are already registered.
    TooManyContracts,
}

impl MuxRegistryError {
    /// The stable on-chain error code.
    pub fn code(&self) -> (c: u32)
        ensures
            c == match *self {
                MuxRegistryError::NotInitialized => 1u32,
                MuxRegistryError::AlreadyInitialized => 2,
                MuxRegistryError::Unauthorized => 3,
                MuxRegistryError::ContractNotFound => 4,
                MuxRegistryError::TooManyContracts => 5,
            },
    {
        match self {
            MuxRegistryError::NotInitialized => 1,
            MuxRegistryError::AlreadyInitialized => 2,
            MuxRegistryError::Unauthorized => 3,
            MuxRegistryError::ContractNotFound => 4,
            MuxRegistryError::TooManyContracts => 5,
        }
    }
}

/// Metadata of a registered component.
#[derive(Debug)]
pub struct ContractMetadata {
    /// Version string.
    pub version: String,
    /// Short description.
    pub description: String,
    /// Author or team.
    pub author: String,
    /// Source repository.
    pub repository: String,
}

impl ContractMetadata {
    /// A copy of this metadata.
    pub fn duplicate(&self) -> (r: Self)
        ensures
            r == *self,
    {
        ContractMetadata {
            version: self.version.clone(),
            description: self.description.clone(),
            author: self.author.clone(),
            repository: self.repository.clone(),
        }
    }
}

/// Events published by the registry (topic `mux_reg`, then the action).
#[derive(Debug)]
pub enum RegistryEvent {
    /// `init`: the admin was set.
    Init { admin: String },
    /// `reg`: a version was registered.
    Registered { name: String, version: String },
    /// `regmeta`: a version was registered with metadata.
    RegisteredWithMetadata { name: String, version: String },
}

impl RegistryEvent {
    /// The contract tag, the first topic of every event.
    pub fn topic() -> (t: &'static str)
        ensures
            t == "mux_reg",
    {
        "mux_reg"
    }

    /// The action symbol, the second topic of the event.
    pub fn action(&self) -> (a: &'static str)
        ensures
            a == match *self {
                RegistryEvent::Init { .. } => "init",
                RegistryEvent::Registered { .. } => "reg",
                RegistryEvent::RegisteredWithMetadata { .. } => "regmeta",
            },
    {
        match self {
            RegistryEvent::Init { .. } => "init",
            RegistryEvent::Registered { .. } => "reg",
            RegistryEvent::RegisteredWithMetadata { .. } => "regmeta",
        }
    }
}

/// Storage of a registry instance.
pub struct MuxRegistry {
    /// The admin, once initialized.
    pub admin: Option<String>,
    /// Registered names, in order of first registration.
    pub names: Vec<String>,
    /// Version registered under each name.
    pub versions: Table<String, String>,
    /// Metadata registered under each name, if any.
    pub metadata: Table<String, ContractMetadata>,
}

type Out = Result<(), Failure<MuxRegistryError>>;

impl MuxRegistry {
    /// The names are distinct, at most `MAX_CONTRACTS`, none before
    /// initialization, and exactly the names that have a version; every
    /// name with metadata is registered.
    pub open spec fn inv(self) -> bool {
        &&& self.admin is None ==> self.names@.len() == 0
        &&& self.names.deep_view().len() <= MAX_CONTRACTS
        &&& self.names.deep_view().no_duplicates()
        &&& forall|n: Seq<char>| #[trigger]
            self.versions@.contains_key(n) <==> self.names.deep_view().contains(n)
        &&& forall|n: Seq<char>| #[trigger]
            self.metadata@.contains_key(n) ==> self.names.deep_view().contains(n)
    }

    /// Failure of the admin check.
    pub open spec fn admin_gate(self, env: Env<RegistryEvent>) -> Option<Failure<MuxRegistryError>> {
        gate(self.admin, env, MuxRegistryError::NotInitialized)
    }

    /// The failure with which registering `name` is refused, if any.
    pub open spec fn register_check(self, env: Env<RegistryEvent>, name: Seq<char>) -> Option<
        Failure<MuxRegistryError>,
    > {
        if self.admin_gate(env) is Some {
            self.admin_gate(env)
        } else if !self.names.deep_view().contains(name) && self.names.deep_view().len()
            >= MAX_CONTRACTS {
            Some(Failure::Contract(MuxRegistryError::TooManyContracts))
        } else {
            None
        }
    }

    /// `name`'s list entry after registering it: appended when new.
    pub open spec fn names_after(self, name: Seq<char>) -> Seq<Seq<char>> {
        if self.names.deep_view().contains(name) {
            self.names.deep_view()
        } else {
            self.names.deep_view().push(name)
        }
    }

    /// A freshly deployed registry: nothing registered.
    pub fn new() -> (c: Self)
        ensures
            c.admin is None,
            c.names@.len() == 0,
            c.versions@ == Map::<Seq<char>, String>::empty(),
            c.metadata@ == Map::<Seq<char>, ContractMetadata>::empty(),
            c.inv(),
    {
        let c = MuxRegistry {
            admin: None,
            names: Vec::new(),
            versions: Table::new(),
            metadata: Table::new(),
        };
        assert(c.names.deep_view() =~= Seq::<Seq<char>>::empty());
        c
    }

    /// Set the admin, once; the admin must authorize.
    pub fn initialize(&mut self, env: &mut Env<RegistryEvent>, admin: String) -> (r: Out)
        requires
            old(self).inv(),
        ensures
            final(self).inv(),
            old(self).admin is Some ==> r == Err::<(), _>(
                Failure::Contract(MuxRegistryError::AlreadyInitialized),
            ),
            old(self).admin is None && !old(env).authorizes(admin@) ==> r == Err::<(), _>(
                Failure::<MuxRegistryError>::NotAuthorized(admin),
            ),
            r is Ok <==> old(self).admin is None && old(env).authorizes(admin@),
            r is Ok ==> {
                &&& *final(self) == (MuxRegistry { admin: Some(admin), ..*old(self) })
                &&& final(self).names@.len() == 0
                &&& old(env).completes(
                    *final(env),
                    seq![admin@],
                    seq![RegistryEvent::Init { admin }],
                )
            },
            r is Err ==> *final(self) == *old(self) && old(env).fails(*final(env)),
    {
        if self.admin.is_some() {
            return Err(Failure::Contract(MuxRegistryError::AlreadyInitialized));
        }
        if !env.require_auth(&admin) {
            return Err(Failure::NotAuthorized(admin));
        }
        // Nothing can be registered before initialization: the list of
        // names is still empty.
        self.admin = Some(admin.clone());
        env.publish(RegistryEvent::Init { admin });
        Ok(())
    }

    /// Authorize a code upgrade: the admin must authorize.
    pub fn upgrade(&self, env: &mut Env<RegistryEvent>) -> (r: Out)
        ensures
            match self.admin_gate(*old(env)) {
                Some(f) => r == Err::<(), _>(f) && old(env).fails(*final(env)),
                None => r is Ok && old(env).completes(*final(env), seq![self.admin->0@], seq![]),
            },
    {
        require_stored(env, &self.admin, MuxRegistryError::NotInitialized)
    }

    /// Add `name` to the list unless it is there, refusing a new name when
    /// the list is full.
    fn add_name(&mut self, name: &String) -> (r: Result<(), MuxRegistryError>)
        requires
            old(self).inv(),
        ensures
            !old(self).names.deep_view().contains(name@) && old(self).names.deep_view().len()
                >= MAX_CONTRACTS ==> r == Err::<(), _>(MuxRegistryError::TooManyContracts)
                && *final(self) == *old(self),
            r is Ok <==> old(self).names.deep_view().contains(name@) || old(
                self,
            ).names.deep_view().len() < MAX_CONTRACTS,
            r is Ok ==> {
                &&& final(self).names.deep_view() == old(self).names_after(name@)
                &&& final(self).names.deep_view().len() <= MAX_CONTRACTS
                &&& final(self).names.deep_view().no_duplicates()
                &&& final(self).admin == old(self).admin
                &&& final(self).versions == old(self).versions
                &&& final(self).metadata == old(self).metadata
            },
    {
        if contains(&self.names, name) {
            return Ok(());
        }
        if self.names.len() >= MAX_CONTRACTS {
            return Err(MuxRegistryError::TooManyContracts);
        }
        let ghost s = self.names.deep_view();
        push_str(&mut self.names, name.clone());
        assert forall|i: int, j: int|
            0 <= i < j < s.push(name@).len() implies s.push(name@)[i] != s.push(name@)[j] by {
            if j == s.len() {
                assert(s[i] != name@);
            } else {
                assert(s[i] != s[j]);
            }
        }
        Ok(())
    }

    /// The admin registers (or updates) `version` under `name`. A new name
    /// needs room under `MAX_CONTRACTS`.
    pub fn register(&mut self, env: &mut Env<RegistryEvent>, name: String, version: String) -> (r:
        Out)
        requires
            old(self).inv(),
        ensures
            final(self).inv(),
            match old(self).register_check(*old(env), name@) {
                Some(f) => r == Err::<(), _>(f) && *final(self) == *old(self) && old(env).fails(
                    *final(env),
                ),
                None => {
                    &&& r is Ok
                    &&& final(self).admin == old(self).admin
                    &&& final(self).names.deep_view() == old(self).names_after(name@)
                    &&& final(self).versions@ == old(self).versions@.insert(name@, version)
                    &&& final(self).metadata == old(self).metadata
                    &&& old(env).completes(
                        *final(env),
                        seq![old(self).admin->0@],
                        seq![RegistryEvent::Registered { name, version }],
                    )
                },
            },
    {
        require_stored(env, &self.admin, MuxRegistryError::NotInitialized)?;
        if let Err(e) = self.add_name(&name) {
            assert(old(env).fails(*env));
            return Err(Failure::Contract(e));
        }
        self.versions.set(name.clone(), version.clone());
        assert forall|n: Seq<char>| #[trigger]
            self.versions@.contains_key(n) <==> self.names.deep_view().contains(n) by {
            lemma_push_contains(old(self).names.deep_view(), name@, n);
            assert(old(self).versions@.contains_key(n) <==> old(self).names.deep_view().contains(
                n,
            ));
        }
        assert forall|n: Seq<char>| #[trigger]
            self.metadata@.contains_key(n) implies self.names.deep_view().contains(n) by {
            lemma_push_contains(old(self).names.deep_view(), name@, n);
            assert(old(self).names.deep_view().contains(n));
        }
        env.publish(RegistryEvent::Registered { name, version });
        Ok(())
    }

    /// As [`Self::register`], and stores the metadata (whose version is
    /// `version`) under `name`, replacing any.
    pub fn register_with_metadata(
        &mut self,
        env: &mut Env<RegistryEvent>,
        name: String,
        version: String,
        description: String,
        author: String,
        repository: String,
    ) -> (r: Out)
        requires
            old(self).inv(),
        ensures
            final(self).inv(),
            match old(self).register_check(*old(env), name@) {
                Some(f) => r == Err::<(), _>(f) && *final(self) == *old(self) && old(env).fails(
                    *final(env),
                ),
                None => {
                    &&& r is Ok
                    &&& final(self).admin == old(self).admin
                    &&& final(self).names.deep_view() == old(self).names_after(name@)
                    &&& final(self).versions@ == old(self).versions@.insert(name@, version)
                    &&& final(self).metadata@ == old(self).metadata@.insert(
                        name@,
                        ContractMetadata { version, description, author, repository },
                    )
                    &&& old(env).completes(
                        *final(env),
                        seq![old(self).admin->0@],
                        seq![RegistryEvent::RegisteredWithMetadata { name, version }],
                    )
                },
            },
    {
        require_stored(env, &self.admin, MuxRegistryError::NotInitialized)?;
        if let Err(e) = self.add_name(&name) {
            assert(old(env).fails(*env));
            return Err(Failure::Contract(e));
        }
        self.versions.set(name.clone(), version.clone());
        let meta = ContractMetadata { version: version.clone(), description, author, repository };
        self.metadata.set(name.clone(), meta);
        assert forall|n: Seq<char>| #[trigger]
            self.versions@.contains_key(n) <==> self.names.deep_view().contains(n) by {
            lemma_push_contains(old(self).names.deep_view(), name@, n);
            assert(old(self).versions@.contains_key(n) <==> old(self).names.deep_view().contains(
                n,
            ));
        }
        assert forall|n: Seq<char>| #[trigger]
            self.metadata@.contains_key(n) implies self.names.deep_view().contains(n) by {
            lemma_push_contains(old(self).names.deep_view(), name@, n);
            if n != name@ {
                assert(old(self).names.deep_view().contains(n));
            }
        }
        env.publish(RegistryEvent::RegisteredWithMetadata { name, version });
        Ok(())
    }

    /// The version registered under `name`.
    pub fn get_version(&self, name: &String) -> (r: Result<String, MuxRegistryError>)
        ensures
            match r {
                Ok(v) => self.versions@.contains_key(name@) && v == self.versions@[name@],
                Err(e) => !self.versions@.contains_key(name@) && e
                    == MuxRegistryError::ContractNotFound,
            },
    {
        match self.versions.get(name) {
            Some(v) => Ok(v.clone()),
            None => Err(MuxRegistryError::ContractNotFound),
        }
    }

    /// Dry-run lookup: the same answer as [`Self::get_version`].
    pub fn check_version(&self, name: &String) -> (r: Result<String, MuxRegistryError>)
        ensures
            match r {
                Ok(v) => self.versions@.contains_key(name@) && v == self.versions@[name@],
                Err(e) => !self.versions@.contains_key(name@) && e
                    == MuxRegistryError::ContractNotFound,
            },
    {
        self.get_version(name)
    }

    /// The metadata registered under `name`.
    pub fn get_metadata(&self, name: &String) -> (r: Result<ContractMetadata, MuxRegistryError>)
        ensures
            match r {
                Ok(m) => self.metadata@.contains_key(name@) && m == self.metadata@[name@],
                Err(e) => !self.metadata@.contains_key(name@) && e
                    == MuxRegistryError::ContractNotFound,
            },
    {
        match self.metadata.get(name) {
            Some(m) => Ok(m.duplicate()),
            None => Err(MuxRegistryError::ContractNotFound),
        }
    }

    /// Registered names, in order of first registration.
    pub fn list_contracts(&self) -> (r: Vec<String>)
        ensures
            r.deep_view() == self.names.deep_view(),
    {
        copy_all(&self.names)
    }
}

/// A registration is what is read back: right after `name` is registered
/// with `version`, looking `name` up gives `version`, `name` is listed, and
/// every other name keeps its version.
pub proof fn register_then_read(
    before: MuxRegistry,
    after: MuxRegistry,
    name: Seq<char>,
    version: String,
)
    requires
        after.versions@ == before.versions@.insert(name, version),
        after.names.deep_view() == before.names_after(name),
    ensures
        after.versions@.contains_key(name),
        after.versions@[name] == version,
        after.names.deep_view().contains(name),
        forall|n: Seq<char>| n != name ==> #[trigger] after.versions@.get(n) == before.versions@.get(n),
{
    if !before.names.deep_view().contains(name) {
        assert(after.names.deep_view()[before.names.deep_view().len() as int] == name);
    }
}

/// A name is listed exactly when a version is registered under it.
pub proof fn listed_iff_registered(r: MuxRegistry, name: Seq<char>)
    requires
        r.inv(),
    ensures
        r.names.deep_view().contains(name) <==> r.versions@.contains_key(name),
{
}

} // verus!

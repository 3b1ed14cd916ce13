//! The invocation context that every contract entrypoint receives: ledger
//! state, the authorization entries of the invocation, and the logs of
//! demanded authorizations and published events.
use vstd::prelude::*;

verus! {

/// Why an invocation did not complete normally.
#[derive(Clone, Debug, PartialEq, Eq)]
pub enum Failure<E> {
    /// The contract returned one of its own error codes.
    Contract(E),
    /// `require_auth` was demanded of an address that did not authorize
    /// the invocation; the host aborts the invocation.
    NotAuthorized(String),
    /// The host trapped (a host-level panic), aborting the invocation.
    Trap,
}

/// Outcome of demanding the authorization of a stored principal `who`
/// (owner or admin): `missing` when none is stored, `NotAuthorized` when it
/// did not authorize, `None` when the invocation may go on.
pub open spec fn gate<E, Ev>(who: Option<String>, env: Env<Ev>, missing: E) -> Option<Failure<E>> {
    match who {
        None => Some(Failure::Contract(missing)),
        Some(a) => if env.authorizes(a@) {
            None
        } else {
            Some(Failure::NotAuthorized(a))
        },
    }
}

/// Demand the authorization of the stored principal `who` (see [`gate`]).
pub fn require_stored<E, Ev>(env: &mut Env<Ev>, who: &Option<String>, missing: E) -> (r: Result<
    (),
    Failure<E>,
>)
    ensures
        match gate(*who, *old(env), missing) {
            Some(f) => r == Err::<(), _>(f) && old(env).fails(*final(env)),
            None => r is Ok && old(env).completes(*final(env), seq![who->0@], seq![]),
        },
{
    match who {
        None => Err(Failure::Contract(missing)),
        Some(a) => {
            if env.require_auth(a) {
                assert(final(env).events@ =~= old(env).events@ + seq![]);
                Ok(())
            } else {
                Err(Failure::NotAuthorized(a.clone()))
            }
        },
    }
}

/// The context of an invocation, and what it has produced so far.
pub struct Env<Ev> {
    /// Current ledger sequence number.
    pub sequence: u32,
    /// Current ledger close time (Unix seconds).
    pub timestamp: u64,
    /// Address of the contract being invoked.
    pub current_contract: String,
    /// When set, every `require_auth` succeeds.
    pub authorize_all: bool,
    /// Addresses that signed the invocation.
    pub signers: Vec<String>,
    /// Every address whose authorization was demanded (and granted), in order.
    pub auths: Vec<String>,
    /// Every event published by completed invocations, in order.
    pub events: Vec<Ev>,
}

impl<Ev> Env<Ev> {
    /// Whether `who` has authorized the current invocation.
    pub open spec fn authorizes(&self, who: Seq<char>) -> bool {
        self.authorize_all || self.signers.deep_view().contains(who)
    }

    /// `post` differs from `self` only in the logs, and the logs grew by
    /// exactly `auths` and `events`.
    pub open spec fn completes(self, post: Self, auths: Seq<Seq<char>>, events: Seq<Ev>) -> bool {
        &&& self.same_setting(post)
        &&& post.auths.deep_view() == self.auths.deep_view() + auths
        &&& post.events@ == self.events@ + events
    }

    /// `post` is `self` after a failed invocation: nothing was published.
    pub open spec fn fails(self, post: Self) -> bool {
        &&& self.same_setting(post)
        &&& post.events@ == self.events@
    }

    /// `post` is `self` after a failed invocation that had published
    /// `events` before it failed; the host keeps them, marked as coming from
    /// a failed call, and nothing else changed.
    pub open spec fn fails_with(self, post: Self, events: Seq<Ev>) -> bool {
        &&& self.same_setting(post)
        &&& post.events@ == self.events@ + events
    }

    /// Ledger, contract and authorization entries are the same in both.
    pub open spec fn same_setting(self, post: Self) -> bool {
        &&& post.sequence == self.sequence
        &&& post.timestamp == self.timestamp
        &&& post.current_contract@ == self.current_contract@
        &&& post.authorize_all == self.authorize_all
        &&& post.signers.deep_view() == self.signers.deep_view()
    }

    /// A fresh context for invoking `contract` at ledger 0, time 0, with no
    /// signer.
    pub fn new(contract: String) -> (env: Self)
        ensures
            env.sequence == 0,
            env.timestamp == 0,
            env.current_contract@ == contract@,
            !env.authorize_all,
            env.signers@.len() == 0,
            env.auths@.len() == 0,
            env.events@.len() == 0,
    {
        Env {
            sequence: 0,
            timestamp: 0,
            current_contract: contract,
            authorize_all: false,
            signers: Vec::new(),
            auths: Vec::new(),
            events: Vec::new(),
        }
    }

    /// Let every `require_auth` succeed from now on.
    pub fn mock_all_auths(&mut self)
        ensures
            final(self).authorize_all,
            final(self).sequence == old(self).sequence,
            final(self).timestamp == old(self).timestamp,
            final(self).current_contract == old(self).current_contract,
            final(self).signers == old(self).signers,
            final(self).auths == old(self).auths,
            final(self).events == old(self).events,
    {
        self.authorize_all = true;
    }

    /// Record that `who` signed the invocation.
    pub fn sign(&mut self, who: String)
        ensures
            final(self).signers.deep_view() == old(self).signers.deep_view().push(who@),
            final(self).authorize_all == old(self).authorize_all,
            final(self).sequence == old(self).sequence,
            final(self).timestamp == old(self).timestamp,
            final(self).current_contract == old(self).current_contract,
            final(self).auths == old(self).auths,
            final(self).events == old(self).events,
    {
        self.signers.push(who);
        assert(final(self).signers.deep_view() =~= old(self).signers.deep_view().push(who@));
    }

    /// Demand the authorization of `who`: succeeds, and is logged, exactly
    /// when `who` has authorized the invocation.
    pub fn require_auth(&mut self, who: &String) -> (ok: bool)
        ensures
            ok == old(self).authorizes(who@),
            old(self).same_setting(*final(self)),
            final(self).events == old(self).events,
            final(self).auths.deep_view() == if ok {
                old(self).auths.deep_view() + seq![who@]
            } else {
                old(self).auths.deep_view()
            },
    {
        let ok = self.authorize_all || crate::keys::contains(&self.signers, who);
        if ok {
            self.auths.push(who.clone());
            assert(self.auths.deep_view() =~= old(self).auths.deep_view() + seq![who@]);
        }
        ok
    }

    /// Publish `ev`.
    pub fn publish(&mut self, ev: Ev)
        ensures
            final(self).events@ == old(self).events@ + seq![ev],
            old(self).same_setting(*final(self)),
            final(self).auths == old(self).auths,
    {
        self.events.push(ev);
        assert(self.events@ =~= old(self).events@ + seq![ev]);
    }
}

} // verus!

verus! {

/// `a + b`, capped at `u32::MAX`.
pub open spec fn sat_u32(a: u32, b: u32) -> u32 {
    if a + b > u32::MAX {
        u32::MAX
    } else {
        (a + b) as u32
    }
}

/// `a + b`, capped at `u32::MAX` (Rust's `u32::saturating_add`).
pub fn saturating_add_u32(a: u32, b: u32) -> (r: u32)
    ensures
        r == sat_u32(a, b),
{
    match a.checked_add(b) {
        Some(s) => s,
        None => u32::MAX,
    }
}

/// `a + b`, capped at `u64::MAX`.
pub open spec fn sat_u64(a: u64, b: u64) -> u64 {
    if a + b > u64::MAX {
        u64::MAX
    } else {
        (a + b) as u64
    }
}

/// `a + b`, capped at `u64::MAX` (Rust's `u64::saturating_add`).
pub fn saturating_add_u64(a: u64, b: u64) -> (r: u64)
    ensures
        r == sat_u64(a, b),
{
    match a.checked_add(b) {
        Some(s) => s,
        None => u64::MAX,
    }
}

} // verus!

verus! {

/// The first failure of two checks made in order.
pub open spec fn either<T>(first: Option<T>, second: Option<T>) -> Option<T> {
    if first is Some {
        first
    } else {
        second
    }
}

/// The failure of demanding the authorization of `who`, if it did not
/// authorize.
pub open spec fn auth_check<E, Ev>(env: Env<Ev>, who: String) -> Option<Failure<E>> {
    if env.authorizes(who@) {
        None
    } else {
        Some(Failure::NotAuthorized(who))
    }
}

/// A contract error as an optional failure.
pub open spec fn contract_check<E>(cond: bool, e: E) -> Option<Failure<E>> {
    if cond {
        Some(Failure::Contract(e))
    } else {
        None
    }
}

} // verus!

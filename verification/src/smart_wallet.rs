//! A minimal smart wallet: an owner is recorded, and only the owner may
//! execute a payload.
use vstd::prelude::*;
use crate::host::{Env, Failure};

verus! {

/// Storage of a smart wallet instance.
pub struct SmartWallet {
    /// The owner, once set.
    pub owner: Option<String>,
}

impl SmartWallet {
    /// A freshly deployed wallet: no owner.
    pub fn new() -> (w: Self)
        ensures
            w.owner is None,
    {
        SmartWallet { owner: None }
    }

    /// Record `owner`, who must authorize; a later call replaces it.
    pub fn init<Ev>(&mut self, env: &mut Env<Ev>, owner: String) -> (r: Result<(), Failure<()>>)
        ensures
            old(env).authorizes(owner@) ==> r is Ok && final(self).owner == Some(owner)
                && old(env).completes(*final(env), seq![owner@], seq![]),
            !old(env).authorizes(owner@) ==> r == Err::<(), _>(Failure::<()>::NotAuthorized(owner))
                && *final(self) == *old(self) && old(env).fails(*final(env)),
    {
        if !env.require_auth(&owner) {
            return Err(Failure::NotAuthorized(owner));
        }
        self.owner = Some(owner);
        assert(final(env).events@ =~= old(env).events@ + seq![]);
        Ok(())
    }

    /// Execute `payload` against `target`: the stored owner must authorize;
    /// without an owner the host traps.
    pub fn execute<Ev>(&self, env: &mut Env<Ev>, target: &String, payload: &Vec<u8>) -> (r: Result<
        (),
        Failure<()>,
    >)
        ensures
            match self.owner {
                None => r == Err::<(), _>(Failure::<()>::Trap) && old(env).fails(*final(env)),
                Some(o) => if old(env).authorizes(o@) {
                    r is Ok && old(env).completes(*final(env), seq![o@], seq![])
                } else {
                    r == Err::<(), _>(Failure::<()>::NotAuthorized(o)) && old(env).fails(
                        *final(env),
                    )
                },
            },
    {
        match &self.owner {
            None => Err(Failure::Trap),
            Some(o) => {
                if !env.require_auth(o) {
                    return Err(Failure::NotAuthorized(o.clone()));
                }
                assert(final(env).events@ =~= old(env).events@ + seq![]);
                Ok(())
            },
        }
    }
}

} // verus!

//! Placeholder wallet factory: until contract creation is available, the
//! deployed wallet's address is the owner's own.
use vstd::prelude::*;
use crate::host::{Env, Failure};

verus! {

/// The stub factory; it keeps no storage.
pub struct WalletFactoryStub;

impl WalletFactoryStub {
    /// "Deploy" a wallet for `owner`, who must authorize: the owner's
    /// address is returned; `salt` is not used.
    pub fn deploy_wallet<Ev>(env: &mut Env<Ev>, owner: String, salt: &[u8; 32]) -> (r: Result<
        String,
        Failure<()>,
    >)
        ensures
            old(env).authorizes(owner@) ==> r == Ok::<String, Failure<()>>(owner) && old(
                env,
            ).completes(*final(env), seq![owner@], seq![]),
            !old(env).authorizes(owner@) ==> r == Err::<String, _>(
                Failure::<()>::NotAuthorized(owner),
            ) && old(env).fails(*final(env)),
    {
        if !env.require_auth(&owner) {
            return Err(Failure::NotAuthorized(owner));
        }
        assert(final(env).events@ =~= old(env).events@ + seq![]);
        Ok(owner)
    }
}

} // verus!

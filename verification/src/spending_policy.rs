//! Spending-policy enforcement: per (account, asset) spend limits, set by an
//! admin and checked by anyone.
use vstd::prelude::*;
use crate::host::{gate, require_stored, Env, Failure};
use crate::table::Table;

verus! {

/// Errors returned by the spending-policy contract.
#[derive(Clone, Copy, Debug, PartialEq, Eq, Structural)]
pub enum SpendingPolicyError {
    /// The contract has not been initialized.
    NotInitialized,
    /// The contract was already initialized.
    AlreadyInitialized,
    /// The caller is not authorized to perform the requested action.
    Unauthorized,
    /// No spend policy exists for the requested account/asset pair.
    PolicyNotFound,
    /// The requested spend exceeds the configured policy limit.
    SpendLimitExceeded,
    /// The provided input is invalid (for example a non-positive limit).
    InvalidInput,
}

impl SpendingPolicyError {
    /// The stable on-chain error code.
    pub fn code(&self) -> (c: u32)
        ensures
            c == match *self {
                SpendingPolicyError::NotInitialized => 1u32,
                SpendingPolicyError::AlreadyInitialized => 2,
                SpendingPolicyError::Unauthorized => 3,
                SpendingPolicyError::PolicyNotFound => 4,
                SpendingPolicyError::SpendLimitExceeded => 5,
                SpendingPolicyError::InvalidInput => 6,
            },
    {
        match self {
            SpendingPolicyError::NotInitialized => 1,
            SpendingPolicyError::AlreadyInitialized => 2,
            SpendingPolicyError::Unauthorized => 3,
            SpendingPolicyError::PolicyNotFound => 4,
            SpendingPolicyError::SpendLimitExceeded => 5,
            SpendingPolicyError::InvalidInput => 6,
        }
    }
}

/// A spend policy: the maximum spendable amount for an asset.
#[derive(Debug)]
pub struct SpendLimit {
    /// Asset the policy applies to.
    pub asset: String,
    /// Maximum amount that may be spent for the asset.
    pub limit: i128,
}

impl SpendLimit {
    /// A copy of this policy.
    pub fn duplicate(&self) -> (r: Self)
        ensures
            r == *self,
    {
        SpendLimit { asset: self.asset.clone(), limit: self.limit }
    }
}

/// Events published by the spending-policy contract.
#[derive(Debug)]
pub enum SpendingPolicyEvent {
    /// `init`: the admin was set.
    Init { admin: String },
    /// `lmt_set`: a policy was created or replaced.
    LimitSet { account: String, asset: String, limit: i128 },
}

impl SpendingPolicyEvent {
    /// The contract tag, the first topic of every event.
    pub fn topic() -> (t: &'static str)
        ensures
            t == "mux_spend",
    {
        "mux_spend"
    }

    /// The action symbol, the second topic of the event.
    pub fn action(&self) -> (a: &'static str)
        ensures
            a == match *self {
                SpendingPolicyEvent::Init { .. } => "init",
                SpendingPolicyEvent::LimitSet { .. } => "lmt_set",
            },
    {
        match self {
            SpendingPolicyEvent::Init { .. } => "init",
            SpendingPolicyEvent::LimitSet { .. } => "lmt_set",
        }
    }
}

/// Storage of a spending-policy contract instance.
pub struct MuxSpendingPolicy {
    /// The admin allowed to manage policies, once initialized.
    pub admin: Option<String>,
    /// Policies keyed by (account, asset).
    pub policies: Table<(String, String), SpendLimit>,
}

impl MuxSpendingPolicy {
    /// A freshly deployed instance: no admin, no policy.
    pub fn new() -> (c: Self)
        ensures
            c.admin is None,
            c.policies@ == Map::<(Seq<char>, Seq<char>), SpendLimit>::empty(),
    {
        MuxSpendingPolicy { admin: None, policies: Table::new() }
    }

    /// Set the admin, once; the admin must authorize.
    pub fn initialize(&mut self, env: &mut Env<SpendingPolicyEvent>, admin: String) -> (r: Result<
        (),
        Failure<SpendingPolicyError>,
    >)
        ensures
            old(self).admin is Some ==> r == Err::<(), _>(
                Failure::Contract(SpendingPolicyError::AlreadyInitialized),
            ),
            old(self).admin is None && !old(env).authorizes(admin@) ==> r == Err::<(), _>(
                Failure::<SpendingPolicyError>::NotAuthorized(admin),
            ),
            r is Ok <==> old(self).admin is None && old(env).authorizes(admin@),
            r is Ok ==> {
                &&& final(self).admin == Some(admin)
                &&& final(self).policies == old(self).policies
                &&& old(env).completes(
                    *final(env),
                    seq![admin@],
                    seq![SpendingPolicyEvent::Init { admin }],
                )
            },
            r is Err ==> *final(self) == *old(self) && old(env).fails(*final(env)),
    {
        if self.admin.is_some() {
            return Err(Failure::Contract(SpendingPolicyError::AlreadyInitialized));
        }
        if !env.require_auth(&admin) {
            return Err(Failure::NotAuthorized(admin));
        }
        self.admin = Some(admin.clone());
        env.publish(SpendingPolicyEvent::Init { admin });
        Ok(())
    }

    /// Set or replace the limit for (`account`, `asset`). Admin only; the
    /// limit must be positive.
    pub fn set_policy(
        &mut self,
        env: &mut Env<SpendingPolicyEvent>,
        account: String,
        asset: String,
        limit: i128,
    ) -> (r: Result<(), Failure<SpendingPolicyError>>)
        ensures
            gate(old(self).admin, *old(env), SpendingPolicyError::NotInitialized) matches Some(f)
                ==> r == Err::<(), _>(f),
            gate(old(self).admin, *old(env), SpendingPolicyError::NotInitialized) is None && limit
                <= 0 ==> r == Err::<(), _>(Failure::Contract(SpendingPolicyError::InvalidInput)),
            r is Ok <==> gate(old(self).admin, *old(env), SpendingPolicyError::NotInitialized) is None
                && limit > 0,
            r is Ok ==> {
                &&& final(self).admin == old(self).admin
                &&& final(self).policies@ == old(self).policies@.insert(
                    (account@, asset@),
                    SpendLimit { asset, limit },
                )
                &&& old(env).completes(
                    *final(env),
                    seq![old(self).admin->0@],
                    seq![SpendingPolicyEvent::LimitSet { account, asset, limit }],
                )
            },
            r is Err ==> *final(self) == *old(self) && old(env).fails(*final(env)),
    {
        require_stored(env, &self.admin, SpendingPolicyError::NotInitialized)?;
        if limit <= 0 {
            return Err(Failure::Contract(SpendingPolicyError::InvalidInput));
        }
        let policy = SpendLimit { asset: asset.clone(), limit };
        self.policies.set((account.clone(), asset.clone()), policy);
        env.publish(SpendingPolicyEvent::LimitSet { account, asset, limit });
        Ok(())
    }

    /// The policy for (`account`, `asset`).
    pub fn get_policy(&self, account: &String, asset: &String) -> (r: Result<
        SpendLimit,
        SpendingPolicyError,
    >)
        ensures
            match r {
                Ok(p) => self.policies@.contains_key((account@, asset@)) && p == self.policies@[(
                    account@,
                    asset@,
                )],
                Err(e) => !self.policies@.contains_key((account@, asset@)) && e
                    == SpendingPolicyError::PolicyNotFound,
            },
    {
        match self.policies.get(&(account.clone(), asset.clone())) {
            Some(p) => Ok(p.duplicate()),
            None => Err(SpendingPolicyError::PolicyNotFound),
        }
    }

    /// The verdict on spending `amount` from `account` in `asset`.
    pub open spec fn spend_verdict(self, account: Seq<char>, asset: Seq<char>, amount: i128) -> Result<
        (),
        SpendingPolicyError,
    > {
        if amount < 0 {
            Err(SpendingPolicyError::InvalidInput)
        } else if self.admin is None {
            Err(SpendingPolicyError::NotInitialized)
        } else if !self.policies@.contains_key((account, asset)) {
            Err(SpendingPolicyError::PolicyNotFound)
        } else if amount > self.policies@[(account, asset)].limit {
            Err(SpendingPolicyError::SpendLimitExceeded)
        } else {
            Ok(())
        }
    }

    /// Whether `amount` may be spent from `account` in `asset`: a negative
    /// amount is refused first, then an uninitialized contract; otherwise `Ok`
    /// exactly when a policy exists and `amount` is within its limit.
    pub fn check_spend(&self, account: &String, asset: &String, amount: i128) -> (r: Result<
        (),
        SpendingPolicyError,
    >)
        ensures
            r == self.spend_verdict(account@, asset@, amount),
    {
        if amount < 0 {
            return Err(SpendingPolicyError::InvalidInput);
        }
        if self.admin.is_none() {
            return Err(SpendingPolicyError::NotInitialized);
        }
        match self.policies.get(&(account.clone(), asset.clone())) {
            None => Err(SpendingPolicyError::PolicyNotFound),
            Some(p) => if amount > p.limit {
                Err(SpendingPolicyError::SpendLimitExceeded)
            } else {
                Ok(())
            },
        }
    }
}

/// A check follows the policy last set: once initialized, right after the
/// limit of (`account`, `asset`) is set to `limit`, spending `amount` there is
/// accepted exactly when `0 <= amount <= limit`, refused as over the limit
/// above it, and refused as invalid below zero.
pub proof fn set_then_check(
    before: MuxSpendingPolicy,
    after: MuxSpendingPolicy,
    account: Seq<char>,
    asset: Seq<char>,
    policy: SpendLimit,
    amount: i128,
)
    requires
        after.admin is Some,
        after.policies@ == before.policies@.insert((account, asset), policy),
    ensures
        after.spend_verdict(account, asset, amount) == if amount < 0 {
            Err(SpendingPolicyError::InvalidInput)
        } else if amount > policy.limit {
            Err(SpendingPolicyError::SpendLimitExceeded)
        } else {
            Ok(())
        },
{
}

/// Policies are kept apart: setting the limit of one (account, asset) pair
/// leaves the verdict on every other pair as it was.
pub proof fn set_keeps_other_pairs(
    before: MuxSpendingPolicy,
    after: MuxSpendingPolicy,
    account: Seq<char>,
    asset: Seq<char>,
    policy: SpendLimit,
    other_account: Seq<char>,
    other_asset: Seq<char>,
    amount: i128,
)
    requires
        after.admin == before.admin,
        after.policies@ == before.policies@.insert((account, asset), policy),
        (other_account, other_asset) != (account, asset),
    ensures
        after.spend_verdict(other_account, other_asset, amount) == before.spend_verdict(
            other_account,
            other_asset,
            amount,
        ),
{
}

} // verus!

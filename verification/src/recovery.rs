//! Guardian-initiated account recovery with a mandatory timelock and an
//! M-of-N guardian quorum. The owner may cancel a pending recovery at any
//! time; the owner together with a guardian may execute it at once.
use vstd::prelude::*;
use crate::host::{gate, require_stored, sat_u32, saturating_add_u32, Env, Failure};
use crate::keys::{contains, copy_all, push_str, remove_first, without_first};

verus! {

/// Ledgers that must pass between `initiate_recovery` and
/// `execute_recovery` (about 24 hours at 5-second ledgers).
pub const RECOVERY_TIMELOCK: u32 = 17_280;

/// Ledgers after initiation during which a recovery may still be executed
/// (about 7 days).
pub const RECOVERY_EXPIRY: u32 = 120_960;

/// Maximum number of guardians.
pub const MAX_GUARDIANS: usize = 16;

/// Lifecycle state of a recovery request.
#[derive(Clone, Copy, Debug, PartialEq, Eq, Structural)]
pub enum RecoveryStatus {
    /// No active recovery request (`None` on chain; renamed, as `None` is a
    /// word of the prelude).
    NoRecovery,
    /// Initiated; may be approved, cancelled or executed.
    Pending,
    /// Executed: ownership was transferred. Terminal.
    Executed,
    /// Cancelled by the owner. Terminal.
    Cancelled,
}

/// Errors of the recovery contract.
#[derive(Clone, Copy, Debug, PartialEq, Eq, Structural)]
pub enum RecoveryError {
    /// No owner is stored yet.
    NotInitialized,
    /// An owner is already stored.
    AlreadyInitialized,
    /// The caller may not do this.
    Unauthorized,
    /// A recovery that has not expired is pending.
    RecoveryAlreadyPending,
    /// No recovery is pending.
    NoActiveRecovery,
    /// The timelock of the pending recovery has not passed.
    TimelockNotExpired,
    /// The guardian set would exceed `MAX_GUARDIANS`.
    TooManyGuardians,
    /// The guardian is already registered.
    GuardianAlreadyExists,
    /// No such guardian.
    GuardianNotFound,
    /// The last guardian cannot be removed.
    MinGuardiansRequired,
    /// The pending recovery has expired.
    RecoveryExpired,
    /// The pending recovery lacks approvals.
    QuorumNotReached,
    /// The guardian already approved the pending recovery.
    DuplicateApproval,
    /// The quorum is zero or exceeds the guardians.
    InvalidQuorumThreshold,
    /// The registry named in `set_registry` did not answer `list_contracts`.
    RegistryNotFound,
}

impl RecoveryError {
    /// The stable on-chain error code.
    pub fn code(&self) -> (c: u32)
        ensures
            c == match *self {
                RecoveryError::NotInitialized => 1u32,
                RecoveryError::AlreadyInitialized => 2,
                RecoveryError::Unauthorized => 3,
                RecoveryError::RecoveryAlreadyPending => 4,
                RecoveryError::NoActiveRecovery => 5,
                RecoveryError::TimelockNotExpired => 6,
                RecoveryError::TooManyGuardians => 7,
                RecoveryError::GuardianAlreadyExists => 8,
                RecoveryError::GuardianNotFound => 9,
                RecoveryError::MinGuardiansRequired => 10,
                RecoveryError::RecoveryExpired => 11,
                RecoveryError::QuorumNotReached => 12,
                RecoveryError::DuplicateApproval => 13,
                RecoveryError::InvalidQuorumThreshold => 14,
                RecoveryError::RegistryNotFound => 15,
            },
    {
        match self {
            RecoveryError::NotInitialized => 1,
            RecoveryError::AlreadyInitialized => 2,
            RecoveryError::Unauthorized => 3,
            RecoveryError::RecoveryAlreadyPending => 4,
            RecoveryError::NoActiveRecovery => 5,
            RecoveryError::TimelockNotExpired => 6,
            RecoveryError::TooManyGuardians => 7,
            RecoveryError::GuardianAlreadyExists => 8,
            RecoveryError::GuardianNotFound => 9,
            RecoveryError::MinGuardiansRequired => 10,
            RecoveryError::RecoveryExpired => 11,
            RecoveryError::QuorumNotReached => 12,
            RecoveryError::DuplicateApproval => 13,
            RecoveryError::InvalidQuorumThreshold => 14,
            RecoveryError::RegistryNotFound => 15,
        }
    }
}

/// A recovery request.
#[derive(Debug)]
pub struct RecoveryRequest {
    /// The proposed new owner.
    pub new_owner: String,
    /// Ledger at which the request was initiated.
    pub initiated_at: u32,
    /// Earliest ledger at which it may be executed.
    pub executable_at: u32,
    /// Ledger from which it can no longer be executed.
    pub expires_at: u32,
    /// Lifecycle state.
    pub status: RecoveryStatus,
    /// Guardians who approved it, the initiator first.
    pub approvals: Vec<String>,
}

/// The value of a [`RecoveryRequest`].
#[verifier::ext_equal]
pub struct RequestView {
    pub new_owner: Seq<char>,
    pub initiated_at: u32,
    pub executable_at: u32,
    pub expires_at: u32,
    pub status: RecoveryStatus,
    pub approvals: Seq<Seq<char>>,
}

impl View for RecoveryRequest {
    type V = RequestView;

    open spec fn view(&self) -> RequestView {
        RequestView {
            new_owner: self.new_owner@,
            initiated_at: self.initiated_at,
            executable_at: self.executable_at,
            expires_at: self.expires_at,
            status: self.status,
            approvals: self.approvals.deep_view(),
        }
    }
}

impl RecoveryRequest {
    /// A copy of this request.
    pub fn duplicate(&self) -> (r: Self)
        ensures
            r@ == self@,
    {
        RecoveryRequest {
            new_owner: self.new_owner.clone(),
            initiated_at: self.initiated_at,
            executable_at: self.executable_at,
            expires_at: self.expires_at,
            status: self.status,
            approvals: copy_all(&self.approvals),
        }
    }
}

/// Events published by the recovery contract.
#[derive(Debug)]
pub enum RecoveryEvent {
    /// `init`
    Init { owner: String },
    /// `rec_init`
    Initiated {
        guardian: String,
        new_owner: String,
        initiated_at: u32,
        executable_at: u32,
        expires_at: u32,
    },
    /// `rec_appr`
    Approved { guardian: String, approval_count: u32 },
    /// `rec_exec`
    Executed { guardian: String, new_owner: String },
    /// `rec_adm`
    AdminExecuted { new_owner: String },
    /// `rec_cncl`
    Cancelled,
    /// `grd_add`
    GuardianAdded { guardian: String },
    /// `grd_rm`
    GuardianRemoved { guardian: String },
    /// `qrm_set`
    QuorumSet { threshold: u32 },
    /// `reg_link`
    RegistryLinked { registry_id: String },
}

impl RecoveryEvent {
    /// The contract tag, the first topic of every event.
    pub fn topic() -> (t: &'static str)
        ensures
            t == "mux_recv",
    {
        "mux_recv"
    }

    /// The action symbol, the second topic of the event.
    pub fn action(&self) -> (a: &'static str)
        ensures
            a == match *self {
                RecoveryEvent::Init { .. } => "init",
                RecoveryEvent::Initiated { .. } => "rec_init",
                RecoveryEvent::Approved { .. } => "rec_appr",
                RecoveryEvent::Executed { .. } => "rec_exec",
                RecoveryEvent::AdminExecuted { .. } => "rec_adm",
                RecoveryEvent::Cancelled { .. } => "rec_cncl",
                RecoveryEvent::GuardianAdded { .. } => "grd_add",
                RecoveryEvent::GuardianRemoved { .. } => "grd_rm",
                RecoveryEvent::QuorumSet { .. } => "qrm_set",
                RecoveryEvent::RegistryLinked { .. } => "reg_link",
            },
    {
        match self {
            RecoveryEvent::Init { .. } => "init",
            RecoveryEvent::Initiated { .. } => "rec_init",
            RecoveryEvent::Approved { .. } => "rec_appr",
            RecoveryEvent::Executed { .. } => "rec_exec",
            RecoveryEvent::AdminExecuted { .. } => "rec_adm",
            RecoveryEvent::Cancelled { .. } => "rec_cncl",
            RecoveryEvent::GuardianAdded { .. } => "grd_add",
            RecoveryEvent::GuardianRemoved { .. } => "grd_rm",
            RecoveryEvent::QuorumSet { .. } => "qrm_set",
            RecoveryEvent::RegistryLinked { .. } => "reg_link",
        }
    }
}

/// Storage of a recovery contract instance.
pub struct MuxRecovery {
    /// Current owner, once initialized.
    pub owner: Option<String>,
    /// Guardian set, once initialized.
    pub guardians: Option<Vec<String>>,
    /// The single recovery request, if one was ever initiated.
    pub recovery: Option<RecoveryRequest>,
    /// Linked registry contract.
    pub registry_id: Option<String>,
    /// Approvals required to execute; 1 when never stored.
    pub quorum_threshold: Option<u32>,
}

type Out = Result<(), Failure<RecoveryError>>;



impl MuxRecovery {
    /// The guardian set as a sequence (empty before initialization).
    pub open spec fn guardian_seq(self) -> Seq<Seq<char>> {
        match self.guardians {
            Some(g) => g.deep_view(),
            None => Seq::empty(),
        }
    }

    /// Whether `g` is a registered guardian.
    pub open spec fn is_guardian(self, g: Seq<char>) -> bool {
        self.guardian_seq().contains(g)
    }

    /// Error of the guardian-membership check for `g`, if any.
    pub open spec fn guardian_check(self, g: Seq<char>) -> Option<RecoveryError> {
        if self.guardians is None {
            Some(RecoveryError::NotInitialized)
        } else if !self.is_guardian(g) {
            Some(RecoveryError::Unauthorized)
        } else {
            None
        }
    }

    /// Whether a recovery is pending.
    pub open spec fn is_pending(self) -> bool {
        self.recovery matches Some(r) && r.status == RecoveryStatus::Pending
    }

    /// The pending request (meaningful when `is_pending`).
    pub open spec fn request(self) -> RequestView {
        self.recovery->0@
    }

    /// Approvals required to execute.
    pub open spec fn threshold(self) -> u32 {
        match self.quorum_threshold {
            Some(t) => t,
            None => 1,
        }
    }

    /// What every reachable state satisfies: owner and guardians are set
    /// together, and a request's deadlines are its initiation ledger plus the
    /// timelock and the expiry, and its approvals are distinct and begin with
    /// the initiator.
    pub open spec fn inv(self) -> bool {
        &&& (self.owner is Some <==> self.guardians is Some)
        &&& self.recovery is Some ==> {
            let q = self.request();
            &&& q.executable_at == sat_u32(q.initiated_at, RECOVERY_TIMELOCK)
            &&& q.expires_at == sat_u32(q.initiated_at, RECOVERY_EXPIRY)
            &&& q.approvals.len() >= 1
            &&& q.approvals.no_duplicates()
        }
    }

    /// Everything but the recovery request is as in `other`.
    pub open spec fn same_but_request(self, other: Self) -> bool {
        &&& self.owner == other.owner
        &&& self.guardians == other.guardians
        &&& self.registry_id == other.registry_id
        &&& self.quorum_threshold == other.quorum_threshold
    }

    /// A freshly deployed, uninitialized instance.
    pub fn new() -> (c: Self)
        ensures
            c.owner is None,
            c.guardians is None,
            c.recovery is None,
            c.registry_id is None,
            c.quorum_threshold is None,
            c.inv(),
    {
        MuxRecovery {
            owner: None,
            guardians: None,
            recovery: None,
            registry_id: None,
            quorum_threshold: None,
        }
    }

    fn check_guardian(&self, g: &String) -> (r: Result<(), RecoveryError>)
        ensures
            match self.guardian_check(g@) {
                Some(e) => r == Err::<(), _>(e),
                None => r is Ok,
            },
    {
        match &self.guardians {
            None => Err(RecoveryError::NotInitialized),
            Some(gs) => if contains(gs, g) {
                Ok(())
            } else {
                Err(RecoveryError::Unauthorized)
            },
        }
    }

    /// Set owner, guardians and quorum, once. The quorum must be between 1
    /// and the number of guardians; the owner must authorize.
    pub fn initialize(
        &mut self,
        env: &mut Env<RecoveryEvent>,
        owner: String,
        guardians: Vec<String>,
        quorum_threshold: u32,
    ) -> (r: Out)
        ensures
            old(self).inv() ==> final(self).inv(),
            old(self).owner is Some ==> r == Err::<(), _>(
                Failure::Contract(RecoveryError::AlreadyInitialized),
            ),
            old(self).owner is None && (quorum_threshold == 0 || quorum_threshold
                > guardians@.len()) ==> r == Err::<(), _>(
                Failure::Contract(RecoveryError::InvalidQuorumThreshold),
            ),
            old(self).owner is None && 1 <= quorum_threshold <= guardians@.len() && !old(
                env,
            ).authorizes(owner@) ==> r == Err::<(), _>(
                Failure::<RecoveryError>::NotAuthorized(owner),
            ),
            r is Ok <==> old(self).owner is None && 1 <= quorum_threshold <= guardians@.len() && old(
                env,
            ).authorizes(owner@),
            r is Ok ==> {
                &&& final(self).owner == Some(owner)
                &&& final(self).guardians == Some(guardians)
                &&& final(self).quorum_threshold == Some(quorum_threshold)
                &&& final(self).recovery == old(self).recovery
                &&& final(self).registry_id == old(self).registry_id
                &&& old(env).completes(
                    *final(env),
                    seq![owner@],
                    seq![RecoveryEvent::Init { owner }],
                )
            },
            r is Err ==> *final(self) == *old(self) && old(env).fails(*final(env)),
    {
        if self.owner.is_some() {
            return Err(Failure::Contract(RecoveryError::AlreadyInitialized));
        }
        if quorum_threshold == 0 || quorum_threshold as usize > guardians.len() {
            return Err(Failure::Contract(RecoveryError::InvalidQuorumThreshold));
        }
        if !env.require_auth(&owner) {
            return Err(Failure::NotAuthorized(owner));
        }
        self.owner = Some(owner.clone());
        self.guardians = Some(guardians);
        self.quorum_threshold = Some(quorum_threshold);
        env.publish(RecoveryEvent::Init { owner });
        Ok(())
    }

    /// Authorize a code upgrade: the owner must authorize. The WASM swap
    /// itself is the host's.
    pub fn upgrade(&self, env: &mut Env<RecoveryEvent>) -> (r: Out)
        ensures
            match gate(self.owner, *old(env), RecoveryError::NotInitialized) {
                Some(f) => r == Err::<(), _>(f) && old(env).fails(*final(env)),
                None => r is Ok && old(env).completes(
                    *final(env),
                    seq![self.owner->0@],
                    seq![],
                ),
            },
    {
        require_stored(env, &self.owner, RecoveryError::NotInitialized)
    }

    /// A registered `guardian` opens a recovery toward `new_owner`, unless a
    /// non-expired one is pending. The guardian's approval is the first.
    pub fn initiate_recovery(
        &mut self,
        env: &mut Env<RecoveryEvent>,
        guardian: String,
        new_owner: String,
    ) -> (r: Out)
        ensures
            old(self).inv() ==> final(self).inv(),
            !old(env).authorizes(guardian@) ==> r == Err::<(), _>(
                Failure::<RecoveryError>::NotAuthorized(guardian),
            ),
            old(env).authorizes(guardian@) && old(self).guardian_check(guardian@) is Some ==> r
                == Err::<(), _>(Failure::Contract(old(self).guardian_check(guardian@)->0)),
            old(env).authorizes(guardian@) && old(self).guardian_check(guardian@) is None && old(
                self,
            ).is_pending() && old(env).sequence < old(self).request().expires_at ==> r == Err::<
                (),
                _,
            >(Failure::Contract(RecoveryError::RecoveryAlreadyPending)),
            r is Ok <==> old(env).authorizes(guardian@) && old(self).guardian_check(guardian@) is None
                && !(old(self).is_pending() && old(env).sequence < old(self).request().expires_at),
            r is Ok ==> {
                let at = old(env).sequence;
                &&& final(self).same_but_request(*old(self))
                &&& final(self).recovery matches Some(q) && q@ == RequestView {
                    new_owner: new_owner@,
                    initiated_at: at,
                    executable_at: sat_u32(at, RECOVERY_TIMELOCK),
                    expires_at: sat_u32(at, RECOVERY_EXPIRY),
                    status: RecoveryStatus::Pending,
                    approvals: seq![guardian@],
                }
                &&& old(env).completes(
                    *final(env),
                    seq![guardian@],
                    seq![
                        RecoveryEvent::Initiated {
                            guardian,
                            new_owner,
                            initiated_at: at,
                            executable_at: sat_u32(at, RECOVERY_TIMELOCK),
                            expires_at: sat_u32(at, RECOVERY_EXPIRY),
                        },
                    ],
                )
            },
            r is Err ==> *final(self) == *old(self) && old(env).fails(*final(env)),
    {
        if !env.require_auth(&guardian) {
            return Err(Failure::NotAuthorized(guardian));
        }
        if let Err(e) = self.check_guardian(&guardian) {
            return Err(Failure::Contract(e));
        }
        if let Some(req) = &self.recovery {
            if req.status == RecoveryStatus::Pending && env.sequence < req.expires_at {
                return Err(Failure::Contract(RecoveryError::RecoveryAlreadyPending));
            }
        }
        let initiated_at = env.sequence;
        let executable_at = saturating_add_u32(initiated_at, RECOVERY_TIMELOCK);
        let expires_at = saturating_add_u32(initiated_at, RECOVERY_EXPIRY);
        let mut approvals: Vec<String> = Vec::new();
        push_str(&mut approvals, guardian.clone());
        assert(approvals.deep_view() =~= seq![guardian@]);
        self.recovery = Some(
            RecoveryRequest {
                new_owner: new_owner.clone(),
                initiated_at,
                executable_at,
                expires_at,
                status: RecoveryStatus::Pending,
                approvals,
            },
        );
        env.publish(
            RecoveryEvent::Initiated { guardian, new_owner, initiated_at, executable_at, expires_at },
        );
        Ok(())
    }

    /// A registered guardian adds its approval to the pending recovery, at
    /// most once.
    pub fn approve_recovery(&mut self, env: &mut Env<RecoveryEvent>, guardian: String) -> (r: Out)
        ensures
            old(self).inv() ==> final(self).inv(),
            !old(env).authorizes(guardian@) ==> r == Err::<(), _>(
                Failure::<RecoveryError>::NotAuthorized(guardian),
            ),
            old(env).authorizes(guardian@) && old(self).guardian_check(guardian@) is Some ==> r
                == Err::<(), _>(Failure::Contract(old(self).guardian_check(guardian@)->0)),
            old(env).authorizes(guardian@) && old(self).guardian_check(guardian@) is None && !old(
                self,
            ).is_pending() ==> r == Err::<(), _>(
                Failure::Contract(RecoveryError::NoActiveRecovery),
            ),
            old(env).authorizes(guardian@) && old(self).guardian_check(guardian@) is None && old(
                self,
            ).is_pending() && old(self).request().approvals.contains(guardian@) ==> r == Err::<
                (),
                _,
            >(Failure::Contract(RecoveryError::DuplicateApproval)),
            old(env).authorizes(guardian@) && old(self).guardian_check(guardian@) is None && old(
                self,
            ).is_pending() && !old(self).request().approvals.contains(guardian@) && old(
                self,
            ).request().approvals.len() >= u32::MAX ==> r == Err::<(), _>(
                Failure::<RecoveryError>::Trap,
            ),
            r is Ok <==> old(env).authorizes(guardian@) && old(self).guardian_check(guardian@) is None
                && old(self).is_pending() && !old(self).request().approvals.contains(guardian@)
                && old(self).request().approvals.len() < u32::MAX,
            r is Ok ==> {
                let n = old(self).request().approvals.len() + 1;
                &&& final(self).same_but_request(*old(self))
                &&& final(self).is_pending()
                &&& final(self).request() == RequestView {
                    approvals: old(self).request().approvals.push(guardian@),
                    ..old(self).request()
                }
                &&& n <= u32::MAX
                &&& old(env).completes(
                    *final(env),
                    seq![guardian@],
                    seq![RecoveryEvent::Approved { guardian, approval_count: n as u32 }],
                )
            },
            r is Err ==> *final(self) == *old(self) && old(env).fails(*final(env)),
    {
        if !env.require_auth(&guardian) {
            return Err(Failure::NotAuthorized(guardian));
        }
        if let Err(e) = self.check_guardian(&guardian) {
            return Err(Failure::Contract(e));
        }
        let mut req = match &self.recovery {
            Some(q) => if q.status == RecoveryStatus::Pending {
                q.duplicate()
            } else {
                return Err(Failure::Contract(RecoveryError::NoActiveRecovery));
            },
            None => {
                return Err(Failure::Contract(RecoveryError::NoActiveRecovery));
            },
        };
        if contains(&req.approvals, &guardian) {
            return Err(Failure::Contract(RecoveryError::DuplicateApproval));
        }
        if req.approvals.len() >= u32::MAX as usize {
            // The host counts a Vec's entries in a u32.
            return Err(Failure::Trap);
        }
        let ghost before = req@;
        let approval_count = (req.approvals.len() + 1) as u32;
        assert(req.approvals.deep_view().len() == req.approvals@.len());
        push_str(&mut req.approvals, guardian.clone());
        assert(req@ =~= RequestView { approvals: before.approvals.push(guardian@), ..before });
        assert(approval_count == before.approvals.len() + 1);
        self.recovery = Some(req);
        env.publish(RecoveryEvent::Approved { guardian, approval_count });
        Ok(())
    }

    /// The owner cancels the pending recovery.
    pub fn cancel_recovery(&mut self, env: &mut Env<RecoveryEvent>) -> (r: Out)
        ensures
            old(self).inv() ==> final(self).inv(),
            gate(old(self).owner, *old(env), RecoveryError::NotInitialized) is Some ==> r == Err::<
                (),
                _,
            >(gate(old(self).owner, *old(env), RecoveryError::NotInitialized)->0),
            gate(old(self).owner, *old(env), RecoveryError::NotInitialized) is None && !old(
                self,
            ).is_pending() ==> r == Err::<(), _>(
                Failure::Contract(RecoveryError::NoActiveRecovery),
            ),
            r is Ok <==> gate(old(self).owner, *old(env), RecoveryError::NotInitialized) is None
                && old(self).is_pending(),
            r is Ok ==> {
                &&& final(self).same_but_request(*old(self))
                &&& final(self).recovery is Some
                &&& final(self).request() == RequestView {
                    status: RecoveryStatus::Cancelled,
                    ..old(self).request()
                }
                &&& old(env).completes(
                    *final(env),
                    seq![old(self).owner->0@],
                    seq![RecoveryEvent::Cancelled],
                )
            },
            r is Err ==> *final(self) == *old(self) && old(env).fails(*final(env)),
    {
        require_stored(env, &self.owner, RecoveryError::NotInitialized)?;
        let mut req = self.pending_copy()?;
        let ghost before = req@;
        req.status = RecoveryStatus::Cancelled;
        assert(req@ =~= RequestView { status: RecoveryStatus::Cancelled, ..before });
        self.recovery = Some(req);
        env.publish(RecoveryEvent::Cancelled);
        Ok(())
    }

    fn pending_copy(&self) -> (r: Result<RecoveryRequest, Failure<RecoveryError>>)
        ensures
            match r {
                Ok(q) => self.is_pending() && q@ == self.request(),
                Err(f) => !self.is_pending() && f == Failure::Contract(
                    RecoveryError::NoActiveRecovery,
                ),
            },
    {
        match &self.recovery {
            Some(q) => if q.status == RecoveryStatus::Pending {
                Ok(q.duplicate())
            } else {
                Err(Failure::Contract(RecoveryError::NoActiveRecovery))
            },
            None => Err(Failure::Contract(RecoveryError::NoActiveRecovery)),
        }
    }

    /// A registered guardian executes the pending recovery once the timelock
    /// has passed, before it expires, and with a quorum of approvals:
    /// ownership moves to the request's new owner.
    pub fn execute_recovery(&mut self, env: &mut Env<RecoveryEvent>, guardian: String) -> (r: Out)
        ensures
            r is Ok && old(self).inv() ==> sat_u32(old(self).request().initiated_at, RECOVERY_TIMELOCK)
                <= old(env).sequence < sat_u32(old(self).request().initiated_at, RECOVERY_EXPIRY),
            old(self).inv() ==> final(self).inv(),
            !old(env).authorizes(guardian@) ==> r == Err::<(), _>(
                Failure::<RecoveryError>::NotAuthorized(guardian),
            ),
            old(env).authorizes(guardian@) && old(self).guardian_check(guardian@) is Some ==> r
                == Err::<(), _>(Failure::Contract(old(self).guardian_check(guardian@)->0)),
            old(env).authorizes(guardian@) && old(self).guardian_check(guardian@) is None && !old(
                self,
            ).is_pending() ==> r == Err::<(), _>(
                Failure::Contract(RecoveryError::NoActiveRecovery),
            ),
            old(env).authorizes(guardian@) && old(self).guardian_check(guardian@) is None && old(
                self,
            ).is_pending() ==> {
                let q = old(self).request();
                let now = old(env).sequence;
                &&& now < q.executable_at ==> r == Err::<(), _>(
                    Failure::Contract(RecoveryError::TimelockNotExpired),
                )
                &&& q.executable_at <= now && q.expires_at <= now ==> r == Err::<(), _>(
                    Failure::Contract(RecoveryError::RecoveryExpired),
                )
                &&& q.executable_at <= now < q.expires_at && q.approvals.len() < old(
                    self,
                ).threshold() ==> r == Err::<(), _>(
                    Failure::Contract(RecoveryError::QuorumNotReached),
                )
            },
            r is Ok <==> old(env).authorizes(guardian@) && old(self).guardian_check(guardian@) is None
                && old(self).is_pending() && old(self).request().executable_at <= old(env).sequence
                < old(self).request().expires_at && old(self).request().approvals.len() >= old(
                self,
            ).threshold(),
            r is Ok ==> {
                &&& final(self).owner == Some(old(self).recovery->0.new_owner)
                &&& final(self).guardians == old(self).guardians
                &&& final(self).registry_id == old(self).registry_id
                &&& final(self).quorum_threshold == old(self).quorum_threshold
                &&& final(self).recovery is Some
                &&& final(self).request() == RequestView {
                    status: RecoveryStatus::Executed,
                    ..old(self).request()
                }
                &&& old(env).completes(
                    *final(env),
                    seq![guardian@],
                    seq![
                        RecoveryEvent::Executed {
                            guardian,
                            new_owner: old(self).recovery->0.new_owner,
                        },
                    ],
                )
            },
            r is Err ==> *final(self) == *old(self) && old(env).fails(*final(env)),
    {
        if !env.require_auth(&guardian) {
            return Err(Failure::NotAuthorized(guardian));
        }
        if let Err(e) = self.check_guardian(&guardian) {
            return Err(Failure::Contract(e));
        }
        let mut req = self.pending_copy()?;
        if env.sequence < req.executable_at {
            return Err(Failure::Contract(RecoveryError::TimelockNotExpired));
        }
        if env.sequence >= req.expires_at {
            return Err(Failure::Contract(RecoveryError::RecoveryExpired));
        }
        let threshold: u32 = match self.quorum_threshold {
            Some(t) => t,
            None => 1,
        };
        if req.approvals.len() < threshold as usize {
            return Err(Failure::Contract(RecoveryError::QuorumNotReached));
        }
        let ghost before = req@;
        let new_owner = match &self.recovery {
            Some(q) => q.new_owner.clone(),
            None => req.new_owner.clone(),
        };
        req.status = RecoveryStatus::Executed;
        assert(req@ =~= RequestView { status: RecoveryStatus::Executed, ..before });
        self.owner = Some(new_owner.clone());
        self.recovery = Some(req);
        env.publish(RecoveryEvent::Executed { guardian, new_owner });
        Ok(())
    }

    /// The owner, with a registered guardian co-signing, executes the
    /// pending recovery at once, without the timelock.
    pub fn approve_recovery_admin(&mut self, env: &mut Env<RecoveryEvent>, co_guardian: String) -> (r:
        Out)
        ensures
            old(self).inv() ==> final(self).inv(),
            gate(old(self).owner, *old(env), RecoveryError::NotInitialized) is Some ==> r == Err::<
                (),
                _,
            >(gate(old(self).owner, *old(env), RecoveryError::NotInitialized)->0),
            gate(old(self).owner, *old(env), RecoveryError::NotInitialized) is None && !old(
                env,
            ).authorizes(co_guardian@) ==> r == Err::<(), _>(
                Failure::<RecoveryError>::NotAuthorized(co_guardian),
            ),
            gate(old(self).owner, *old(env), RecoveryError::NotInitialized) is None && old(
                env,
            ).authorizes(co_guardian@) && old(self).guardian_check(co_guardian@) is Some ==> r
                == Err::<(), _>(Failure::Contract(old(self).guardian_check(co_guardian@)->0)),
            gate(old(self).owner, *old(env), RecoveryError::NotInitialized) is None && old(
                env,
            ).authorizes(co_guardian@) && old(self).guardian_check(co_guardian@) is None && !old(
                self,
            ).is_pending() ==> r == Err::<(), _>(
                Failure::Contract(RecoveryError::NoActiveRecovery),
            ),
            r is Ok <==> gate(old(self).owner, *old(env), RecoveryError::NotInitialized) is None
                && old(env).authorizes(co_guardian@) && old(self).guardian_check(co_guardian@) is None
                && old(self).is_pending(),
            r is Ok ==> {
                &&& final(self).owner == Some(old(self).recovery->0.new_owner)
                &&& final(self).guardians == old(self).guardians
                &&& final(self).registry_id == old(self).registry_id
                &&& final(self).quorum_threshold == old(self).quorum_threshold
                &&& final(self).recovery is Some
                &&& final(self).request() == RequestView {
                    status: RecoveryStatus::Executed,
                    ..old(self).request()
                }
                &&& old(env).completes(
                    *final(env),
                    seq![old(self).owner->0@, co_guardian@],
                    seq![RecoveryEvent::AdminExecuted { new_owner: old(self).recovery->0.new_owner }],
                )
            },
            r is Err ==> *final(self) == *old(self) && old(env).fails(*final(env)),
    {
        require_stored(env, &self.owner, RecoveryError::NotInitialized)?;
        if !env.require_auth(&co_guardian) {
            return Err(Failure::NotAuthorized(co_guardian));
        }
        if let Err(e) = self.check_guardian(&co_guardian) {
            return Err(Failure::Contract(e));
        }
        let mut req = self.pending_copy()?;
        let ghost before = req@;
        let new_owner = match &self.recovery {
            Some(q) => q.new_owner.clone(),
            None => req.new_owner.clone(),
        };
        req.status = RecoveryStatus::Executed;
        assert(req@ =~= RequestView { status: RecoveryStatus::Executed, ..before });
        self.owner = Some(new_owner.clone());
        self.recovery = Some(req);
        env.publish(RecoveryEvent::AdminExecuted { new_owner });
        assert(final(env).auths.deep_view() =~= old(env).auths.deep_view() + seq![
            old(self).owner->0@,
            co_guardian@,
        ]);
        Ok(())
    }

    /// The owner adds a guardian (at most 16, no repeats).
    pub fn add_guardian(&mut self, env: &mut Env<RecoveryEvent>, guardian: String) -> (r: Out)
        ensures
            old(self).inv() ==> final(self).inv(),
            gate(old(self).owner, *old(env), RecoveryError::NotInitialized) is Some ==> r == Err::<
                (),
                _,
            >(gate(old(self).owner, *old(env), RecoveryError::NotInitialized)->0),
            gate(old(self).owner, *old(env), RecoveryError::NotInitialized) is None ==> {
                &&& old(self).guardians is None ==> r == Err::<(), _>(
                    Failure::Contract(RecoveryError::NotInitialized),
                )
                &&& old(self).guardians is Some && old(self).is_guardian(guardian@) ==> r == Err::<
                    (),
                    _,
                >(Failure::Contract(RecoveryError::GuardianAlreadyExists))
                &&& old(self).guardians is Some && !old(self).is_guardian(guardian@) && old(
                    self,
                ).guardian_seq().len() >= MAX_GUARDIANS ==> r == Err::<(), _>(
                    Failure::Contract(RecoveryError::TooManyGuardians),
                )
            },
            r is Ok <==> gate(old(self).owner, *old(env), RecoveryError::NotInitialized) is None
                && old(self).guardians is Some && !old(self).is_guardian(guardian@) && old(
                self,
            ).guardian_seq().len() < MAX_GUARDIANS,
            r is Ok ==> {
                &&& final(self).guardians is Some
                &&& final(self).guardian_seq() == old(self).guardian_seq().push(guardian@)
                &&& final(self).owner == old(self).owner
                &&& final(self).recovery == old(self).recovery
                &&& final(self).registry_id == old(self).registry_id
                &&& final(self).quorum_threshold == old(self).quorum_threshold
                &&& old(env).completes(
                    *final(env),
                    seq![old(self).owner->0@],
                    seq![RecoveryEvent::GuardianAdded { guardian }],
                )
            },
            r is Err ==> *final(self) == *old(self) && old(env).fails(*final(env)),
    {
        require_stored(env, &self.owner, RecoveryError::NotInitialized)?;
        let mut gs = match &self.guardians {
            None => {
                return Err(Failure::Contract(RecoveryError::NotInitialized));
            },
            Some(g) => copy_all(g),
        };
        if contains(&gs, &guardian) {
            return Err(Failure::Contract(RecoveryError::GuardianAlreadyExists));
        }
        if gs.len() >= MAX_GUARDIANS {
            return Err(Failure::Contract(RecoveryError::TooManyGuardians));
        }
        push_str(&mut gs, guardian.clone());
        self.guardians = Some(gs);
        env.publish(RecoveryEvent::GuardianAdded { guardian });
        Ok(())
    }

    /// The owner removes a guardian; at least one must remain.
    pub fn remove_guardian(&mut self, env: &mut Env<RecoveryEvent>, guardian: String) -> (r: Out)
        ensures
            old(self).inv() ==> final(self).inv(),
            gate(old(self).owner, *old(env), RecoveryError::NotInitialized) is Some ==> r == Err::<
                (),
                _,
            >(gate(old(self).owner, *old(env), RecoveryError::NotInitialized)->0),
            gate(old(self).owner, *old(env), RecoveryError::NotInitialized) is None ==> {
                &&& old(self).guardians is None ==> r == Err::<(), _>(
                    Failure::Contract(RecoveryError::NotInitialized),
                )
                &&& old(self).guardians is Some && !old(self).is_guardian(guardian@) ==> r == Err::<
                    (),
                    _,
                >(Failure::Contract(RecoveryError::GuardianNotFound))
                &&& old(self).guardians is Some && old(self).is_guardian(guardian@) && old(
                    self,
                ).guardian_seq().len() <= 1 ==> r == Err::<(), _>(
                    Failure::Contract(RecoveryError::MinGuardiansRequired),
                )
            },
            r is Ok <==> gate(old(self).owner, *old(env), RecoveryError::NotInitialized) is None
                && old(self).guardians is Some && old(self).is_guardian(guardian@) && old(
                self,
            ).guardian_seq().len() > 1,
            r is Ok ==> {
                &&& final(self).guardians is Some
                &&& final(self).guardian_seq() == without_first(old(self).guardian_seq(), guardian@)
                &&& final(self).owner == old(self).owner
                &&& final(self).recovery == old(self).recovery
                &&& final(self).registry_id == old(self).registry_id
                &&& final(self).quorum_threshold == old(self).quorum_threshold
                &&& old(env).completes(
                    *final(env),
                    seq![old(self).owner->0@],
                    seq![RecoveryEvent::GuardianRemoved { guardian }],
                )
            },
            r is Err ==> *final(self) == *old(self) && old(env).fails(*final(env)),
    {
        require_stored(env, &self.owner, RecoveryError::NotInitialized)?;
        let mut gs = match &self.guardians {
            None => {
                return Err(Failure::Contract(RecoveryError::NotInitialized));
            },
            Some(g) => copy_all(g),
        };
        if !contains(&gs, &guardian) {
            return Err(Failure::Contract(RecoveryError::GuardianNotFound));
        }
        assert(gs.deep_view().len() == gs@.len());
        if gs.len() <= 1 {
            return Err(Failure::Contract(RecoveryError::MinGuardiansRequired));
        }
        remove_first(&mut gs, &guardian);
        self.guardians = Some(gs);
        env.publish(RecoveryEvent::GuardianRemoved { guardian });
        Ok(())
    }

    /// The current owner.
    pub fn owner(&self) -> (r: Result<String, RecoveryError>)
        ensures
            match self.owner {
                Some(o) => r == Ok::<String, RecoveryError>(o),
                None => r == Err::<String, _>(RecoveryError::NotInitialized),
            },
    {
        match &self.owner {
            Some(o) => Ok(o.clone()),
            None => Err(RecoveryError::NotInitialized),
        }
    }

    /// The guardian set.
    pub fn guardians(&self) -> (r: Result<Vec<String>, RecoveryError>)
        ensures
            match r {
                Ok(g) => self.guardians is Some && g.deep_view() == self.guardian_seq(),
                Err(e) => self.guardians is None && e == RecoveryError::NotInitialized,
            },
    {
        match &self.guardians {
            Some(g) => Ok(copy_all(g)),
            None => Err(RecoveryError::NotInitialized),
        }
    }

    /// Status of the recovery request (`NoRecovery` when none was initiated).
    pub fn recovery_status(&self) -> (s: RecoveryStatus)
        ensures
            s == match self.recovery {
                Some(q) => q.status,
                None => RecoveryStatus::NoRecovery,
            },
    {
        match &self.recovery {
            Some(q) => q.status,
            None => RecoveryStatus::NoRecovery,
        }
    }

    /// The recovery request, if one was ever initiated.
    pub fn recovery_request(&self) -> (r: Option<RecoveryRequest>)
        ensures
            r is Some == self.recovery is Some,
            r is Some ==> r->0@ == self.recovery->0@,
    {
        match &self.recovery {
            Some(q) => Some(q.duplicate()),
            None => None,
        }
    }

    /// Link a registry contract. `owner` must be the stored owner and must
    /// authorize; `registry_responds` is whether the registry answered a
    /// `list_contracts` call, which the caller makes.
    pub fn set_registry(
        &mut self,
        env: &mut Env<RecoveryEvent>,
        owner: String,
        registry_id: String,
        registry_responds: bool,
    ) -> (r: Out)
        ensures
            old(self).inv() ==> final(self).inv(),
            old(self).owner is None ==> r == Err::<(), _>(
                Failure::Contract(RecoveryError::NotInitialized),
            ),
            old(self).owner matches Some(o) && o@ != owner@ ==> r == Err::<(), _>(
                Failure::Contract(RecoveryError::Unauthorized),
            ),
            old(self).owner matches Some(o) && o@ == owner@ && !old(env).authorizes(owner@) ==> r
                == Err::<(), _>(Failure::<RecoveryError>::NotAuthorized(owner)),
            old(self).owner matches Some(o) && o@ == owner@ && old(env).authorizes(owner@)
                && !registry_responds ==> r == Err::<(), _>(
                Failure::Contract(RecoveryError::RegistryNotFound),
            ),
            r is Ok <==> (old(self).owner matches Some(o) && o@ == owner@ && old(env).authorizes(
                owner@,
            ) && registry_responds),
            r is Ok ==> {
                &&& final(self).registry_id == Some(registry_id)
                &&& final(self).owner == old(self).owner
                &&& final(self).guardians == old(self).guardians
                &&& final(self).recovery == old(self).recovery
                &&& final(self).quorum_threshold == old(self).quorum_threshold
                &&& old(env).completes(
                    *final(env),
                    seq![owner@],
                    seq![RecoveryEvent::RegistryLinked { registry_id }],
                )
            },
            r is Err ==> *final(self) == *old(self) && old(env).fails(*final(env)),
    {
        match &self.owner {
            None => {
                return Err(Failure::Contract(RecoveryError::NotInitialized));
            },
            Some(o) => if *o != owner {
                return Err(Failure::Contract(RecoveryError::Unauthorized));
            },
        }
        if !env.require_auth(&owner) {
            return Err(Failure::NotAuthorized(owner));
        }
        if !registry_responds {
            return Err(Failure::Contract(RecoveryError::RegistryNotFound));
        }
        self.registry_id = Some(registry_id.clone());
        env.publish(RecoveryEvent::RegistryLinked { registry_id });
        Ok(())
    }

    /// The linked registry, if any.
    pub fn registry_id(&self) -> (r: Option<String>)
        ensures
            r == self.registry_id,
    {
        match &self.registry_id {
            Some(id) => Some(id.clone()),
            None => None,
        }
    }

    /// Approvals required to execute a recovery (1 when never stored).
    pub fn quorum_threshold(&self) -> (t: u32)
        ensures
            t == self.threshold(),
    {
        match self.quorum_threshold {
            Some(t) => t,
            None => 1,
        }
    }

    /// The owner sets the quorum, between 1 and the number of guardians.
    pub fn set_quorum_threshold(&mut self, env: &mut Env<RecoveryEvent>, threshold: u32) -> (r: Out)
        ensures
            old(self).inv() ==> final(self).inv(),
            gate(old(self).owner, *old(env), RecoveryError::NotInitialized) is Some ==> r == Err::<
                (),
                _,
            >(gate(old(self).owner, *old(env), RecoveryError::NotInitialized)->0),
            gate(old(self).owner, *old(env), RecoveryError::NotInitialized) is None ==> {
                &&& old(self).guardians is None ==> r == Err::<(), _>(
                    Failure::Contract(RecoveryError::NotInitialized),
                )
                &&& old(self).guardians is Some && (threshold == 0 || threshold > old(
                    self,
                ).guardian_seq().len()) ==> r == Err::<(), _>(
                    Failure::Contract(RecoveryError::InvalidQuorumThreshold),
                )
            },
            r is Ok <==> gate(old(self).owner, *old(env), RecoveryError::NotInitialized) is None
                && old(self).guardians is Some && 1 <= threshold <= old(self).guardian_seq().len(),
            r is Ok ==> {
                &&& final(self).quorum_threshold == Some(threshold)
                &&& final(self).owner == old(self).owner
                &&& final(self).guardians == old(self).guardians
                &&& final(self).recovery == old(self).recovery
                &&& final(self).registry_id == old(self).registry_id
                &&& old(env).completes(
                    *final(env),
                    seq![old(self).owner->0@],
                    seq![RecoveryEvent::QuorumSet { threshold }],
                )
            },
            r is Err ==> *final(self) == *old(self) && old(env).fails(*final(env)),
    {
        require_stored(env, &self.owner, RecoveryError::NotInitialized)?;
        let n = match &self.guardians {
            None => {
                return Err(Failure::Contract(RecoveryError::NotInitialized));
            },
            Some(g) => g.len(),
        };
        if threshold == 0 || threshold as usize > n {
            return Err(Failure::Contract(RecoveryError::InvalidQuorumThreshold));
        }
        self.quorum_threshold = Some(threshold);
        env.publish(RecoveryEvent::QuorumSet { threshold });
        Ok(())
    }
}

} // verus!

//! Multi-operation batching: a caller submits up to `MAX_BATCH_SIZE`
//! cross-contract calls, each either required to succeed or allowed to fail.
//!
//! The calls themselves are made by the host between the steps below:
//! [`MuxBatcher::execute_batch`] starts a batch, [`MuxBatcher::record_outcome`]
//! takes the outcome of each call in order, and [`MuxBatcher::finish_batch`]
//! closes it.
use vstd::prelude::*;
use crate::host::{gate, require_stored, Env, Failure};

verus! {

/// Maximum operations allowed in a single batch.
pub const MAX_BATCH_SIZE: u32 = 50;

/// Base fee (in stroops) charged per operation in a batch.
pub const FEE_PER_OP: u32 = 100;

/// Errors returned by the batcher contract.
#[derive(Clone, Copy, Debug, PartialEq, Eq, Structural)]
pub enum MuxBatcherError {
    /// The batch holds no operation.
    EmptyBatch,
    /// The batch holds more than `MAX_BATCH_SIZE` operations.
    BatchTooLarge,
    /// An operation marked `require_success` failed.
    RequiredOperationFailed,
    /// The caller is not allowed to do this.
    Unauthorized,
    /// A batch is already running on this instance.
    ReentrancyDetected,
    /// Registry metadata was already recorded.
    MetadataAlreadySet,
    /// The contract has not been initialized.
    NotInitialized,
    /// The contract was already initialized.
    AlreadyInitialized,
}

impl MuxBatcherError {
    /// The stable on-chain error code.
    pub fn code(&self) -> (c: u32)
        ensures
            c == match *self {
                MuxBatcherError::EmptyBatch => 1u32,
                MuxBatcherError::BatchTooLarge => 2,
                MuxBatcherError::RequiredOperationFailed => 3,
                MuxBatcherError::Unauthorized => 4,
                MuxBatcherError::ReentrancyDetected => 5,
                MuxBatcherError::MetadataAlreadySet => 6,
                MuxBatcherError::NotInitialized => 7,
                MuxBatcherError::AlreadyInitialized => 8,
            },
    {
        match self {
            MuxBatcherError::EmptyBatch => 1,
            MuxBatcherError::BatchTooLarge => 2,
            MuxBatcherError::RequiredOperationFailed => 3,
            MuxBatcherError::Unauthorized => 4,
            MuxBatcherError::ReentrancyDetected => 5,
            MuxBatcherError::MetadataAlreadySet => 6,
            MuxBatcherError::NotInitialized => 7,
            MuxBatcherError::AlreadyInitialized => 8,
        }
    }
}

/// The intent of a batched operation; informational only, execution does
/// not depend on it.
#[derive(Clone, Copy, Debug, PartialEq, Eq, Structural)]
pub enum BatchOperationKind {
    /// A generic cross-contract call.
    Invoke,
    /// An asset transfer.
    Transfer,
    /// An allowance or approval.
    Approve,
}

/// One call of a batch. The call's arguments are forwarded verbatim by the
/// host and take no part in the batching rules.
#[derive(Debug)]
pub struct Operation {
    /// Contract to invoke.
    pub target: String,
    /// Function to call on `target`.
    pub fn_name: String,
    /// When set, a failure of this call aborts the whole batch.
    pub require_success: bool,
    /// What the call is for.
    pub kind: BatchOperationKind,
}

/// The outcome of a completed batch.
#[derive(Debug)]
pub struct BatchResult {
    /// Operations that completed without error.
    pub success_count: u32,
    /// Operations that failed without `require_success`.
    pub failure_count: u32,
    /// Reserved for per-operation error detail; always empty.
    pub errors: Vec<Vec<u8>>,
}

/// Registry metadata of a batcher instance.
#[derive(Debug)]
pub struct BatcherMeta {
    /// Short description of the contract.
    pub description: String,
    /// Author or team identifier.
    pub author: String,
}

impl BatcherMeta {
    /// A copy of this metadata.
    pub fn duplicate(&self) -> (r: Self)
        ensures
            r == *self,
    {
        BatcherMeta { description: self.description.clone(), author: self.author.clone() }
    }
}

/// Events published by the batcher (topic `mux_bat`, then the action).
#[derive(Debug)]
pub enum BatcherEvent {
    /// `init`: the admin was set.
    Init { admin: String },
    /// `bat_start`: a batch of `count` operations passed the size checks.
    Start { caller: String, count: u32 },
    /// `bat_abort`: a required operation failed.
    Abort { caller: String },
    /// `executed`: a batch completed.
    Executed { caller: String, success_count: u32, failure_count: u32 },
    /// `bat_ok`: every operation of a completed batch succeeded.
    AllOk { caller: String, success_count: u32 },
    /// `sim_done`: a batch was simulated.
    SimDone { caller: String, success_count: u32 },
}

impl BatcherEvent {
    /// The contract tag, the first topic of every event.
    pub fn topic() -> (t: &'static str)
        ensures
            t == "mux_bat",
    {
        "mux_bat"
    }

    /// The action symbol, the second topic of the event.
    pub fn action(&self) -> (a: &'static str)
        ensures
            a == match *self {
                BatcherEvent::Init { .. } => "init",
                BatcherEvent::Start { .. } => "bat_start",
                BatcherEvent::Abort { .. } => "bat_abort",
                BatcherEvent::Executed { .. } => "executed",
                BatcherEvent::AllOk { .. } => "bat_ok",
                BatcherEvent::SimDone { .. } => "sim_done",
            },
    {
        match self {
            BatcherEvent::Init { .. } => "init",
            BatcherEvent::Start { .. } => "bat_start",
            BatcherEvent::Abort { .. } => "bat_abort",
            BatcherEvent::Executed { .. } => "executed",
            BatcherEvent::AllOk { .. } => "bat_ok",
            BatcherEvent::SimDone { .. } => "sim_done",
        }
    }
}

/// Successes and failures among `outcomes`.
pub open spec fn tally(outcomes: Seq<bool>) -> (nat, nat)
    decreases outcomes.len(),
{
    if outcomes.len() == 0 {
        (0, 0)
    } else {
        let (s, f) = tally(outcomes.drop_last());
        if outcomes.last() {
            (s + 1, f)
        } else {
            (s, f + 1)
        }
    }
}

/// Every call succeeded: the tally is all successes.
pub proof fn lemma_tally_all_succeed(outcomes: Seq<bool>)
    requires
        forall|i: int| 0 <= i < outcomes.len() ==> outcomes[i],
    ensures
        tally(outcomes) == (outcomes.len(), 0nat),
    decreases outcomes.len(),
{
    if outcomes.len() > 0 {
        lemma_tally_all_succeed(outcomes.drop_last());
    }
}

/// Successes and failures add up to the number of outcomes.
pub proof fn lemma_tally_total(outcomes: Seq<bool>)
    ensures
        tally(outcomes).0 + tally(outcomes).1 == outcomes.len(),
    decreases outcomes.len(),
{
    if outcomes.len() > 0 {
        lemma_tally_total(outcomes.drop_last());
    }
}

/// A batch between its start and its end.
pub struct BatchRun {
    /// Who submitted the batch.
    pub caller: String,
    /// `require_success` of each operation, in order.
    pub required: Vec<bool>,
    /// Outcomes recorded so far.
    pub outcomes: Ghost<Seq<bool>>,
    /// Operations that succeeded so far.
    pub success_count: u32,
    /// Operations that failed, without `require_success`, so far.
    pub failure_count: u32,
}

impl BatchRun {
    /// The counts are the tally of the recorded outcomes, no required
    /// operation has failed, and the batch is within the size limit.
    pub open spec fn wf(self) -> bool {
        &&& self.required@.len() <= MAX_BATCH_SIZE
        &&& self.outcomes@.len() <= self.required@.len()
        &&& self.success_count == tally(self.outcomes@).0
        &&& self.failure_count == tally(self.outcomes@).1
        &&& forall|i: int| 0 <= i < self.outcomes@.len() ==> self.outcomes@[i] || !self.required@[i]
    }

    /// Operations whose outcome was recorded.
    pub fn done(&self) -> (n: usize)
        requires
            self.wf(),
        ensures
            n == self.outcomes@.len(),
    {
        proof {
            lemma_tally_total(self.outcomes@);
        }
        (self.success_count + self.failure_count) as usize
    }

    /// The operation to call next: the one at the position of the first
    /// outcome not yet recorded. As each call's outcome is recorded before the
    /// next call is named, the operations are called once each, in order.
    pub fn next_call<'a, T>(&self, ops: &'a Vec<T>) -> (op: &'a T)
        requires
            self.wf(),
            self.outcomes@.len() < self.required@.len(),
            ops@.len() == self.required@.len(),
        ensures
            *op == ops@[self.outcomes@.len() as int],
    {
        let i = self.done();
        &ops[i]
    }

    /// Number of operations in the batch.
    pub fn total(&self) -> (n: usize)
        ensures
            n == self.required@.len(),
    {
        self.required.len()
    }
}

/// Storage of a batcher contract instance.
pub struct MuxBatcher {
    /// Upgrade authority, once initialized.
    pub admin: Option<String>,
    /// Registry metadata, once set.
    pub meta: Option<BatcherMeta>,
    /// Reentrancy guard: set while a batch runs.
    pub executing: bool,
}

impl MuxBatcher {
    /// Failure of the size checks on a batch of `n` operations.
    pub open spec fn size_check(n: nat) -> Option<Failure<MuxBatcherError>> {
        if n == 0 {
            Some(Failure::Contract(MuxBatcherError::EmptyBatch))
        } else if n > MAX_BATCH_SIZE {
            Some(Failure::Contract(MuxBatcherError::BatchTooLarge))
        } else {
            None
        }
    }

    /// Failure of the admin check.
    pub open spec fn admin_gate(self, env: Env<BatcherEvent>) -> Option<Failure<MuxBatcherError>> {
        gate(self.admin, env, MuxBatcherError::NotInitialized)
    }

    /// A freshly deployed instance: no admin, no metadata, no batch running.
    pub fn new() -> (c: Self)
        ensures
            c.admin is None,
            c.meta is None,
            !c.executing,
    {
        MuxBatcher { admin: None, meta: None, executing: false }
    }

    /// Set the upgrade admin, once; the admin must authorize.
    pub fn initialize(&mut self, env: &mut Env<BatcherEvent>, admin: String) -> (r: Result<
        (),
        Failure<MuxBatcherError>,
    >)
        ensures
            old(self).admin is Some ==> r == Err::<(), _>(
                Failure::Contract(MuxBatcherError::AlreadyInitialized),
            ),
            old(self).admin is None && !old(env).authorizes(admin@) ==> r == Err::<(), _>(
                Failure::<MuxBatcherError>::NotAuthorized(admin),
            ),
            r is Ok <==> old(self).admin is None && old(env).authorizes(admin@),
            r is Ok ==> {
                &&& *final(self) == (MuxBatcher { admin: Some(admin), ..*old(self) })
                &&& old(env).completes(
                    *final(env),
                    seq![admin@],
                    seq![BatcherEvent::Init { admin }],
                )
            },
            r is Err ==> *final(self) == *old(self) && old(env).fails(*final(env)),
    {
        if self.admin.is_some() {
            return Err(Failure::Contract(MuxBatcherError::AlreadyInitialized));
        }
        if !env.require_auth(&admin) {
            return Err(Failure::NotAuthorized(admin));
        }
        self.admin = Some(admin.clone());
        env.publish(BatcherEvent::Init { admin });
        Ok(())
    }

    /// Authorize a code upgrade: the admin must authorize.
    pub fn upgrade(&self, env: &mut Env<BatcherEvent>) -> (r: Result<(), Failure<MuxBatcherError>>)
        ensures
            match self.admin_gate(*old(env)) {
                Some(f) => r == Err::<(), _>(f) && old(env).fails(*final(env)),
                None => r is Ok && old(env).completes(*final(env), seq![self.admin->0@], seq![]),
            },
    {
        require_stored(env, &self.admin, MuxBatcherError::NotInitialized)
    }

    /// Start a batch of `ops` for `caller`, who must authorize. An empty or
    /// oversized batch is refused before anything is published; otherwise
    /// `bat_start` is published, a batch already running is refused, and the
    /// guard is taken. The host then makes the calls in order, handing each
    /// outcome to [`Self::record_outcome`].
    pub fn execute_batch(
        &mut self,
        env: &mut Env<BatcherEvent>,
        caller: String,
        ops: &Vec<Operation>,
    ) -> (r: Result<BatchRun, Failure<MuxBatcherError>>)
        ensures
            !old(env).authorizes(caller@) ==> r == Err::<BatchRun, _>(
                Failure::<MuxBatcherError>::NotAuthorized(caller),
            ) && old(env).fails(*final(env)),
            old(env).authorizes(caller@) && Self::size_check(ops@.len()) is Some ==> r
                == Err::<BatchRun, _>(Self::size_check(ops@.len())->0) && old(env).fails(
                *final(env),
            ),
            old(env).authorizes(caller@) && Self::size_check(ops@.len()) is None && old(
                self,
            ).executing ==> r == Err::<BatchRun, _>(
                Failure::Contract(MuxBatcherError::ReentrancyDetected),
            ) && old(env).fails_with(
                *final(env),
                seq![BatcherEvent::Start { caller, count: ops@.len() as u32 }],
            ),
            r is Ok <==> old(env).authorizes(caller@) && Self::size_check(ops@.len()) is None
                && !old(self).executing,
            r is Err ==> *final(self) == *old(self),
            r matches Ok(run) ==> {
                &&& run.wf()
                &&& run.caller == caller
                &&& run.required@.len() == ops@.len()
                &&& forall|i: int| 0 <= i < ops@.len() ==> run.required@[i] == ops@[i].require_success
                &&& run.outcomes@.len() == 0
                &&& *final(self) == (MuxBatcher { executing: true, ..*old(self) })
                &&& old(env).completes(
                    *final(env),
                    seq![caller@],
                    seq![BatcherEvent::Start { caller, count: ops@.len() as u32 }],
                )
            },
    {
        if !env.require_auth(&caller) {
            return Err(Failure::NotAuthorized(caller));
        }
        let n = ops.len();
        if n == 0 {
            return Err(Failure::Contract(MuxBatcherError::EmptyBatch));
        }
        if n > 50 {
            return Err(Failure::Contract(MuxBatcherError::BatchTooLarge));
        }
        let count = n as u32;
        env.publish(BatcherEvent::Start { caller: caller.clone(), count });
        if self.executing {
            return Err(Failure::Contract(MuxBatcherError::ReentrancyDetected));
        }
        self.executing = true;
        let mut required: Vec<bool> = Vec::new();
        let mut i: usize = 0;
        while i < n
            invariant
                n == ops@.len(),
                i <= n,
                required@.len() == i,
                forall|j: int| 0 <= j < i ==> required@[j] == ops@[j].require_success,
            decreases n - i,
        {
            required.push(ops[i].require_success);
            i = i + 1;
        }
        Ok(BatchRun {
            caller,
            required,
            outcomes: Ghost(Seq::empty()),
            success_count: 0,
            failure_count: 0,
        })
    }

    /// Submit a batch on behalf of the invoking contract itself.
    pub fn submit_batch(&mut self, env: &mut Env<BatcherEvent>, ops: &Vec<Operation>) -> (r: Result<
        BatchRun,
        Failure<MuxBatcherError>,
    >)
        ensures
            ({
                let caller = old(env).current_contract;
                &&& !old(env).authorizes(caller@) ==> r == Err::<BatchRun, _>(
                    Failure::<MuxBatcherError>::NotAuthorized(caller),
                ) && old(env).fails(*final(env))
                &&& old(env).authorizes(caller@) && Self::size_check(ops@.len()) is Some ==> r
                    == Err::<BatchRun, _>(Self::size_check(ops@.len())->0) && old(env).fails(
                    *final(env),
                )
                &&& old(env).authorizes(caller@) && Self::size_check(ops@.len()) is None && old(
                    self,
                ).executing ==> r == Err::<BatchRun, _>(
                    Failure::Contract(MuxBatcherError::ReentrancyDetected),
                ) && old(env).fails_with(
                    *final(env),
                    seq![BatcherEvent::Start { caller, count: ops@.len() as u32 }],
                )
                &&& r is Ok <==> old(env).authorizes(caller@) && Self::size_check(ops@.len()) is None
                    && !old(self).executing
                &&& r is Err ==> *final(self) == *old(self)
                &&& r matches Ok(run) ==> {
                    &&& run.wf()
                    &&& run.caller@ == caller@
                    &&& run.required@.len() == ops@.len()
                    &&& forall|i: int|
                        0 <= i < ops@.len() ==> run.required@[i] == ops@[i].require_success
                    &&& run.outcomes@.len() == 0
                    &&& *final(self) == (MuxBatcher { executing: true, ..*old(self) })
                    &&& old(env).completes(
                        *final(env),
                        seq![caller@],
                        seq![BatcherEvent::Start { caller, count: ops@.len() as u32 }],
                    )
                }
            }),
    {
        let caller = env.current_contract.clone();
        self.execute_batch(env, caller, ops)
    }

    /// Record whether the next operation of `run` succeeded. A failure of a
    /// required operation ends the batch: the guard is released, `bat_abort`
    /// is published and `RequiredOperationFailed` returned; any other
    /// outcome is counted.
    pub fn record_outcome(
        &mut self,
        env: &mut Env<BatcherEvent>,
        run: &mut BatchRun,
        succeeded: bool,
    ) -> (r: Result<(), Failure<MuxBatcherError>>)
        requires
            old(run).wf(),
            old(run).outcomes@.len() < old(run).required@.len(),
        ensures
            ({
                let required = old(run).required@[old(run).outcomes@.len() as int];
                if !succeeded && required {
                    &&& r == Err::<(), _>(Failure::Contract(MuxBatcherError::RequiredOperationFailed))
                    &&& *final(self) == (MuxBatcher { executing: false, ..*old(self) })
                    &&& old(env).completes(
                        *final(env),
                        seq![],
                        seq![BatcherEvent::Abort { caller: old(run).caller }],
                    )
                } else {
                    &&& r is Ok
                    &&& final(run).wf()
                    &&& final(run).caller == old(run).caller
                    &&& final(run).required == old(run).required
                    &&& final(run).outcomes@ == old(run).outcomes@.push(succeeded)
                    &&& *final(self) == *old(self)
                    &&& *final(env) == *old(env)
                }
            }),
    {
        let ghost k = run.outcomes@.len();
        proof {
            lemma_tally_total(run.outcomes@);
        }
        let i = (run.success_count + run.failure_count) as usize;
        let required = run.required[i];
        if !succeeded && required {
            self.executing = false;
            env.publish(BatcherEvent::Abort { caller: run.caller.clone() });
            assert(final(env).auths.deep_view() =~= old(env).auths.deep_view() + seq![]);
            return Err(Failure::Contract(MuxBatcherError::RequiredOperationFailed));
        }
        if succeeded {
            run.success_count = run.success_count + 1;
        } else {
            run.failure_count = run.failure_count + 1;
        }
        proof {
            let o = run.outcomes@.push(succeeded);
            assert(o.drop_last() =~= run.outcomes@);
            run.outcomes = Ghost(o);
        }
        Ok(())
    }

    /// Close a batch whose every outcome was recorded: release the guard,
    /// publish `executed`, and `bat_ok` when nothing failed.
    pub fn finish_batch(&mut self, env: &mut Env<BatcherEvent>, run: BatchRun) -> (r: BatchResult)
        requires
            run.wf(),
            run.outcomes@.len() == run.required@.len(),
        ensures
            r.success_count == tally(run.outcomes@).0,
            r.failure_count == tally(run.outcomes@).1,
            r.success_count + r.failure_count == run.required@.len(),
            r.errors@.len() == 0,
            *final(self) == (MuxBatcher { executing: false, ..*old(self) }),
            old(env).completes(
                *final(env),
                seq![],
                if r.failure_count == 0 {
                    seq![
                        BatcherEvent::Executed {
                            caller: run.caller,
                            success_count: r.success_count,
                            failure_count: 0,
                        },
                        BatcherEvent::AllOk { caller: run.caller, success_count: r.success_count },
                    ]
                } else {
                    seq![
                        BatcherEvent::Executed {
                            caller: run.caller,
                            success_count: r.success_count,
                            failure_count: r.failure_count,
                        },
                    ]
                },
            ),
    {
        proof {
            lemma_tally_total(run.outcomes@);
        }
        self.executing = false;
        let s = run.success_count;
        let f = run.failure_count;
        env.publish(
            BatcherEvent::Executed { caller: run.caller.clone(), success_count: s, failure_count: f },
        );
        if f == 0 {
            env.publish(BatcherEvent::AllOk { caller: run.caller, success_count: s });
        }
        assert(final(env).auths.deep_view() =~= old(env).auths.deep_view() + seq![]);
        assert(final(env).events@ =~= old(env).events@ + (if f == 0 {
            seq![
                BatcherEvent::Executed { caller: run.caller, success_count: s, failure_count: 0 },
                BatcherEvent::AllOk { caller: run.caller, success_count: s },
            ]
        } else {
            seq![BatcherEvent::Executed { caller: run.caller, success_count: s, failure_count: f }]
        }));
        BatchResult { success_count: s, failure_count: f, errors: Vec::new() }
    }

    /// The maximum number of operations in one batch.
    pub fn max_batch_size() -> (n: u32)
        ensures
            n == MAX_BATCH_SIZE,
    {
        MAX_BATCH_SIZE
    }

    /// The fee for a batch of `op_count` operations: `FEE_PER_OP` each.
    pub fn estimate_fees(op_count: u32) -> (r: Result<u32, MuxBatcherError>)
        ensures
            op_count == 0 ==> r == Err::<u32, _>(MuxBatcherError::EmptyBatch),
            op_count > MAX_BATCH_SIZE ==> r == Err::<u32, _>(MuxBatcherError::BatchTooLarge),
            1 <= op_count <= MAX_BATCH_SIZE ==> r == Ok::<_, MuxBatcherError>(
                (op_count * FEE_PER_OP) as u32,
            ),
    {
        if op_count == 0 {
            return Err(MuxBatcherError::EmptyBatch);
        }
        if op_count > MAX_BATCH_SIZE {
            return Err(MuxBatcherError::BatchTooLarge);
        }
        Ok(op_count * FEE_PER_OP)
    }

    /// Record the registry metadata, once; the admin must authorize first.
    pub fn set_registry_metadata(
        &mut self,
        env: &mut Env<BatcherEvent>,
        description: String,
        author: String,
    ) -> (r: Result<(), Failure<MuxBatcherError>>)
        ensures
            old(self).admin_gate(*old(env)) matches Some(f) ==> r == Err::<(), _>(f),
            old(self).admin_gate(*old(env)) is None && old(self).meta is Some ==> r == Err::<(), _>(
                Failure::Contract(MuxBatcherError::MetadataAlreadySet),
            ),
            r is Ok <==> old(self).admin_gate(*old(env)) is None && old(self).meta is None,
            r is Ok ==> {
                &&& *final(self) == (MuxBatcher {
                    meta: Some(BatcherMeta { description, author }),
                    ..*old(self)
                })
                &&& old(env).completes(*final(env), seq![old(self).admin->0@], seq![])
            },
            r is Err ==> *final(self) == *old(self) && old(env).fails(*final(env)),
    {
        require_stored(env, &self.admin, MuxBatcherError::NotInitialized)?;
        if self.meta.is_some() {
            return Err(Failure::Contract(MuxBatcherError::MetadataAlreadySet));
        }
        self.meta = Some(BatcherMeta { description, author });
        Ok(())
    }

    /// The registry metadata, if set.
    pub fn get_registry_metadata(&self) -> (r: Option<BatcherMeta>)
        ensures
            r == self.meta,
    {
        match &self.meta {
            Some(m) => Some(m.duplicate()),
            None => None,
        }
    }

    /// Check a batch without running it: `caller` must authorize, the size
    /// checks apply, every operation is counted as a success and `sim_done`
    /// is published. Nothing is stored.
    pub fn simulate_batch(
        &self,
        env: &mut Env<BatcherEvent>,
        caller: String,
        ops: &Vec<Operation>,
    ) -> (r: Result<BatchResult, Failure<MuxBatcherError>>)
        ensures
            !old(env).authorizes(caller@) ==> r == Err::<BatchResult, _>(
                Failure::<MuxBatcherError>::NotAuthorized(caller),
            ),
            old(env).authorizes(caller@) && Self::size_check(ops@.len()) is Some ==> r
                == Err::<BatchResult, _>(Self::size_check(ops@.len())->0),
            r is Ok <==> old(env).authorizes(caller@) && Self::size_check(ops@.len()) is None,
            r is Err ==> old(env).fails(*final(env)),
            r matches Ok(res) ==> {
                &&& res.success_count == ops@.len()
                &&& res.failure_count == 0
                &&& res.errors@.len() == 0
                &&& old(env).completes(
                    *final(env),
                    seq![caller@],
                    seq![BatcherEvent::SimDone { caller, success_count: ops@.len() as u32 }],
                )
            },
    {
        if !env.require_auth(&caller) {
            return Err(Failure::NotAuthorized(caller));
        }
        let n = ops.len();
        if n == 0 {
            return Err(Failure::Contract(MuxBatcherError::EmptyBatch));
        }
        if n > 50 {
            return Err(Failure::Contract(MuxBatcherError::BatchTooLarge));
        }
        let count = n as u32;
        env.publish(BatcherEvent::SimDone { caller, success_count: count });
        Ok(BatchResult { success_count: count, failure_count: 0, errors: Vec::new() })
    }
}

/// A simulation predicts the counts of a batch whose every call succeeds:
/// a completed run with only successes tallies one success per operation
/// and no failure, which is what `simulate_batch` reports.
pub proof fn simulate_matches_successful_run(run: BatchRun)
    requires
        run.wf(),
        run.outcomes@.len() == run.required@.len(),
        forall|i: int| 0 <= i < run.outcomes@.len() ==> run.outcomes@[i],
    ensures
        tally(run.outcomes@) == (run.required@.len(), 0nat),
{
    lemma_tally_all_succeed(run.outcomes@);
}

} // verus!

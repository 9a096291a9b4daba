//! The keeper registry's state and the state transitions of its entry points.
//!
//! Each entry point checks its inputs in a fixed order and either rejects
//! the call with the first failing check, leaving the state untouched, or
//! moves to a new state and names the token movement (if any) its host must
//! make. Task ids start at 1 and task `id` is stored at position `id - 1`.
use vstd::prelude::*;
use crate::types::{
    Address, BatchTaskParams, KeeperBalance, KeeperError, LedgerInfo, Task, TaskStatus, TaskType,
    TaskView, Transfer, VerifierReply, BPS_DENOMINATOR, DEFAULT_FEE_BPS,
    KEEPER_VERIFIER_INTERFACE_VERSION, MAX_BATCH_READ, MAX_BATCH_SIZE, MAX_CALLDATA_LEN,
    MAX_LOCK_LEDGERS, MAX_PROOF_LEN, MIN_LOCK_LEDGERS, MIN_TTL_LEDGERS, VERSION,
};
use crate::rules::{
    lemma_fee_within_reward, lock_expired, required_ttl_ledgers, spec_fee, spec_lock_expired,
    spec_required_ttl_ledgers, spec_split_reward, split_reward,
};
use crate::ledger::{
    balances_map, credit_sum, lemma_balances_map_absent, lemma_balances_map_index,
    lemma_balances_map_key, lemma_balances_push, lemma_balances_update, lemma_escrow_append,
    lemma_escrow_update, escrow_of, is_open, open_escrow, unique_keepers,
};

verus! {

/// The whole state of a registry.
pub struct KeeperRegistry {
    admin: Option<Address>,
    reward_token: Option<Address>,
    fee_bps: u32,
    paused: bool,
    min_reward: i128,
    fees_accrued: i128,
    tasks: Vec<Task>,
    balances: Vec<KeeperBalance>,
}

/// The mathematical value of a registry.
pub struct RegistryView {
    pub admin: Option<Address>,
    pub reward_token: Option<Address>,
    pub fee_bps: u32,
    pub paused: bool,
    pub min_reward: i128,
    pub fees_accrued: i128,
    /// Task `id` is `tasks[id - 1]`.
    pub tasks: Seq<TaskView>,
    /// Withdrawable balance of every keeper ever credited.
    pub balances: Map<Address, i128>,
    /// Sum of all withdrawable balances.
    pub credited_total: int,
}

impl View for KeeperRegistry {
    type V = RegistryView;

    closed spec fn view(&self) -> RegistryView {
        RegistryView {
            admin: self.admin,
            reward_token: self.reward_token,
            fee_bps: self.fee_bps,
            paused: self.paused,
            min_reward: self.min_reward,
            fees_accrued: self.fees_accrued,
            tasks: self.tasks@.map_values(|t: Task| t@),
            balances: balances_map(self.balances@),
            credited_total: credit_sum(self.balances@),
        }
    }
}

/// Net change, for the registry, of its reward-token holdings made by `t`.
pub open spec fn inflow(t: Transfer) -> int {
    match t {
        Transfer::Deposit { amount, .. } => amount as int,
        Transfer::Payout { amount, .. } => -(amount as int),
    }
}

/// A task as registered: pending, unclaimed.
pub open spec fn new_task_view(
    owner: Address,
    task_type: TaskType,
    calldata: Seq<u8>,
    reward: i128,
    deadline: u64,
    ttl_ledgers: u32,
    lock_ledgers: u32,
    verifier: Option<Address>,
) -> TaskView {
    TaskView {
        owner,
        task_type,
        calldata,
        reward,
        deadline,
        ttl_ledgers,
        status: TaskStatus::Pending,
        claimer: None,
        claim_ledger: None,
        lock_ledgers,
        verifier,
    }
}

/// A batch entry as registered for `owner`.
pub open spec fn batch_task_view(owner: Address, p: BatchTaskParams) -> TaskView {
    new_task_view(
        owner,
        p.task_type,
        p.calldata@,
        p.reward,
        p.deadline,
        p.ttl_ledgers,
        p.lock_ledgers,
        None,
    )
}

/// Whether a task is in a final state (executed, cancelled or expired).
pub open spec fn is_settled(t: TaskView) -> bool {
    t.status == TaskStatus::Executed || t.status == TaskStatus::Cancelled || t.status
        == TaskStatus::Expired
}

impl RegistryView {
    /// The state invariant every reachable registry satisfies.
    pub open spec fn valid(self) -> bool {
        &&& self.tasks.len() <= u64::MAX
        &&& self.fee_bps <= BPS_DENOMINATOR
        &&& self.min_reward >= 0
        &&& self.fees_accrued >= 0
        &&& forall|k: Address| #[trigger] self.balances.contains_key(k) ==> self.balances[k] >= 0
        &&& forall|i: int| 0 <= i < self.tasks.len() ==> #[trigger] self.tasks[i].reward > 0
        &&& forall|i: int|
            0 <= i < self.tasks.len() && #[trigger] self.tasks[i].status == TaskStatus::Claimed
                ==> self.tasks[i].claimer is Some && self.tasks[i].claim_ledger is Some
        &&& self.admin is None ==> {
            &&& self.reward_token is None
            &&& self.fee_bps == DEFAULT_FEE_BPS
            &&& !self.paused
            &&& self.min_reward == 0
            &&& self.fees_accrued == 0
            &&& self.tasks.len() == 0
            &&& self.balances.is_empty()
        }
    }

    /// Whether task `id` exists.
    pub open spec fn has_task(self, id: u64) -> bool {
        1 <= id <= self.tasks.len()
    }

    /// Task `id`.
    pub open spec fn task(self, id: u64) -> TaskView {
        self.tasks[id - 1]
    }

    /// A keeper's withdrawable balance (0 if never credited).
    pub open spec fn balance_of(self, keeper: Address) -> i128 {
        if self.balances.contains_key(keeper) {
            self.balances[keeper]
        } else {
            0
        }
    }

    /// Everything the registry owes: escrow of open tasks, keeper balances
    /// and accrued protocol fees.
    pub open spec fn liabilities(self) -> int {
        open_escrow(self.tasks) + self.credited_total + self.fees_accrued
    }

    /// This state with task `id` replaced by `t`.
    pub open spec fn with_task(self, id: u64, t: TaskView) -> RegistryView {
        RegistryView { tasks: self.tasks.update(id - 1, t), ..self }
    }

    /// The first failing check of an admin-only call by `caller`.
    pub open spec fn admin_error(self, caller: Address) -> Option<KeeperError> {
        match self.admin {
            None => Some(KeeperError::NotInitialized),
            Some(a) => if a != caller {
                Some(KeeperError::Unauthorized)
            } else {
                None
            },
        }
    }

    /// `ContractPaused` while the registry is paused.
    pub open spec fn pause_error(self) -> Option<KeeperError> {
        if self.paused {
            Some(KeeperError::ContractPaused)
        } else {
            None
        }
    }

    /// The first failing check of one task's registration parameters.
    pub open spec fn entry_error(
        self,
        reward: i128,
        deadline: u64,
        calldata_len: nat,
        ttl_ledgers: u32,
        lock_ledgers: u32,
        now: u64,
    ) -> Option<KeeperError> {
        if reward <= 0 {
            Some(KeeperError::InvalidReward)
        } else if reward < self.min_reward {
            Some(KeeperError::InvalidReward)
        } else if deadline <= now {
            Some(KeeperError::DeadlinePassed)
        } else if calldata_len > MAX_CALLDATA_LEN {
            Some(KeeperError::CalldataTooLarge)
        } else if !(MIN_LOCK_LEDGERS <= lock_ledgers <= MAX_LOCK_LEDGERS) {
            Some(KeeperError::InvalidTaskParams)
        } else if ttl_ledgers < MIN_TTL_LEDGERS {
            Some(KeeperError::InvalidTaskParams)
        } else if self.reward_token is None {
            Some(KeeperError::NotInitialized)
        } else if ttl_ledgers < spec_required_ttl_ledgers(deadline, now) {
            Some(KeeperError::TtlTooShort)
        } else {
            None
        }
    }

    /// The first failing check of `register_task`.
    pub open spec fn register_error(
        self,
        reward: i128,
        deadline: u64,
        calldata_len: nat,
        ttl_ledgers: u32,
        lock_ledgers: u32,
        now: u64,
    ) -> Option<KeeperError> {
        if self.paused {
            Some(KeeperError::ContractPaused)
        } else {
            self.entry_error(reward, deadline, calldata_len, ttl_ledgers, lock_ledgers, now)
        }
    }

    /// Checks every entry of a batch in order, adding up their rewards; the
    /// first failing entry check or total overflow, or the total.
    pub open spec fn batch_scan(self, ps: Seq<BatchTaskParams>, now: u64) -> Result<int, KeeperError>
        decreases ps.len(),
    {
        if ps.len() == 0 {
            Ok(0)
        } else {
            match self.batch_scan(ps.drop_last(), now) {
                Err(e) => Err(e),
                Ok(total) => {
                    let p = ps.last();
                    match self.entry_error(
                        p.reward,
                        p.deadline,
                        p.calldata@.len(),
                        p.ttl_ledgers,
                        p.lock_ledgers,
                        now,
                    ) {
                        Some(e) => Err(e),
                        None => if total + p.reward > i128::MAX {
                            Err(KeeperError::ArithmeticOverflow)
                        } else {
                            Ok(total + p.reward)
                        },
                    }
                },
            }
        }
    }

    /// The first failing check of `batch_register_tasks`.
    pub open spec fn batch_error(
        self,
        ps: Seq<BatchTaskParams>,
        max_total_reward: i128,
        now: u64,
    ) -> Option<KeeperError> {
        if self.paused {
            Some(KeeperError::ContractPaused)
        } else if ps.len() == 0 {
            Some(KeeperError::EmptyBatch)
        } else if ps.len() > MAX_BATCH_SIZE {
            Some(KeeperError::BatchTooLarge)
        } else if max_total_reward <= 0 {
            Some(KeeperError::InvalidReward)
        } else {
            match self.batch_scan(ps, now) {
                Err(e) => Some(e),
                Ok(total) => if total > max_total_reward {
                    Some(KeeperError::BatchRewardCeilingExceeded)
                } else {
                    None
                },
            }
        }
    }

    /// The first failing check of an owner's call on task `id` that is
    /// allowed while the task is pending or claimed (`increase_reward`,
    /// `extend_deadline`), once the call-specific checks before it passed.
    pub open spec fn owner_open_task_error(self, owner: Address, id: u64) -> Option<KeeperError> {
        if !self.has_task(id) {
            Some(KeeperError::TaskNotFound)
        } else if self.task(id).owner != owner {
            Some(KeeperError::NotTaskOwner)
        } else if !(self.task(id).status == TaskStatus::Pending || self.task(id).status
            == TaskStatus::Claimed) {
            Some(KeeperError::InvalidTaskStatus)
        } else {
            None
        }
    }

    /// The first failing check of `increase_reward`.
    pub open spec fn increase_error(self, owner: Address, id: u64, additional: i128) -> Option<KeeperError> {
        if self.paused {
            Some(KeeperError::ContractPaused)
        } else if additional <= 0 {
            Some(KeeperError::InvalidReward)
        } else if self.owner_open_task_error(owner, id) is Some {
            self.owner_open_task_error(owner, id)
        } else if self.reward_token is None {
            Some(KeeperError::NotInitialized)
        } else {
            None
        }
    }

    /// The first failing check of `extend_deadline`.
    pub open spec fn extend_error(self, owner: Address, id: u64, new_deadline: u64, now: u64) -> Option<KeeperError> {
        if self.paused {
            Some(KeeperError::ContractPaused)
        } else if self.owner_open_task_error(owner, id) is Some {
            self.owner_open_task_error(owner, id)
        } else if new_deadline <= self.task(id).deadline {
            Some(KeeperError::DeadlinePassed)
        } else if self.task(id).ttl_ledgers < spec_required_ttl_ledgers(new_deadline, now) {
            Some(KeeperError::TtlTooShort)
        } else {
            None
        }
    }

    /// The first failing check of `update_verifier`.
    pub open spec fn update_verifier_error(self, owner: Address, id: u64) -> Option<KeeperError> {
        if self.paused {
            Some(KeeperError::ContractPaused)
        } else if !self.has_task(id) {
            Some(KeeperError::TaskNotFound)
        } else if self.task(id).owner != owner {
            Some(KeeperError::NotTaskOwner)
        } else if self.task(id).status != TaskStatus::Pending {
            Some(KeeperError::InvalidTaskStatus)
        } else {
            None
        }
    }

    /// Whether task `id` may be claimed at `ledger` (pause aside): it exists,
    /// its deadline is ahead, and it is pending or its claim has lapsed.
    pub open spec fn claimable(self, id: u64, ledger: LedgerInfo) -> bool {
        &&& self.has_task(id)
        &&& ledger.timestamp < self.task(id).deadline
        &&& (self.task(id).status == TaskStatus::Pending || (self.task(id).status
            == TaskStatus::Claimed && spec_lock_expired(
            self.task(id).claim_ledger,
            self.task(id).lock_ledgers,
            ledger.sequence,
        )))
    }

    /// The first failing check of `claim_task`.
    pub open spec fn claim_error(self, id: u64, ledger: LedgerInfo) -> Option<KeeperError> {
        if self.paused {
            Some(KeeperError::ContractPaused)
        } else if !self.has_task(id) {
            Some(KeeperError::TaskNotFound)
        } else if ledger.timestamp >= self.task(id).deadline {
            Some(KeeperError::DeadlinePassed)
        } else if self.task(id).status == TaskStatus::Pending {
            None
        } else if self.task(id).status == TaskStatus::Claimed {
            if !spec_lock_expired(
                self.task(id).claim_ledger,
                self.task(id).lock_ledgers,
                ledger.sequence,
            ) {
                Some(KeeperError::LockPeriodActive)
            } else {
                None
            }
        } else {
            Some(KeeperError::InvalidTaskStatus)
        }
    }

    /// The checks of `execute_task` made before the verifier is consulted:
    /// the first failing one, or the task's verifier (if any).
    pub open spec fn execution_gate(
        self,
        keeper: Address,
        id: u64,
        proof_len: nat,
        now: u64,
    ) -> Result<Option<Address>, KeeperError> {
        if self.paused {
            Err(KeeperError::ContractPaused)
        } else if proof_len > MAX_PROOF_LEN {
            Err(KeeperError::ProofTooLarge)
        } else if !self.has_task(id) {
            Err(KeeperError::TaskNotFound)
        } else if self.task(id).status != TaskStatus::Claimed {
            Err(KeeperError::InvalidTaskStatus)
        } else if self.task(id).claimer != Some(keeper) {
            Err(KeeperError::NotTaskClaimer)
        } else if now >= self.task(id).deadline {
            Err(KeeperError::DeadlinePassed)
        } else {
            Ok(self.task(id).verifier)
        }
    }

    /// What `execute_task` decides once the verifier (if any) answered:
    /// the keeper's net credit and the protocol fee, or the first failure.
    pub open spec fn execution_outcome(
        self,
        keeper: Address,
        id: u64,
        proof_len: nat,
        now: u64,
        reply: Option<VerifierReply>,
    ) -> Result<(i128, i128), KeeperError> {
        match self.execution_gate(keeper, id, proof_len, now) {
            Err(e) => Err(e),
            Ok(verifier) => if verifier is Some && reply.unwrap().interface_version
                != KEEPER_VERIFIER_INTERFACE_VERSION {
                Err(KeeperError::IncompatibleVerifierInterface)
            } else if verifier is Some && !reply.unwrap().approved {
                Err(KeeperError::VerificationFailed)
            } else {
                match spec_split_reward(self.task(id).reward, self.fee_bps) {
                    Err(e) => Err(e),
                    Ok((net, fee)) => if self.balance_of(keeper) + net > i128::MAX {
                        Err(KeeperError::ArithmeticOverflow)
                    } else if fee != 0 && self.fees_accrued + fee > i128::MAX {
                        Err(KeeperError::ArithmeticOverflow)
                    } else {
                        Ok((net, fee))
                    },
                }
            },
        }
    }

    /// The first failing check of `cancel_task`.
    pub open spec fn cancel_error(self, owner: Address, id: u64, ledger: LedgerInfo) -> Option<KeeperError> {
        if !self.has_task(id) {
            Some(KeeperError::TaskNotFound)
        } else if self.task(id).owner != owner {
            Some(KeeperError::NotTaskOwner)
        } else if self.task(id).status == TaskStatus::Claimed && !spec_lock_expired(
            self.task(id).claim_ledger,
            self.task(id).lock_ledgers,
            ledger.sequence,
        ) {
            Some(KeeperError::LockPeriodActive)
        } else if !(self.task(id).status == TaskStatus::Pending || self.task(id).status
            == TaskStatus::Claimed) {
            Some(KeeperError::InvalidTaskStatus)
        } else if self.reward_token is None {
            Some(KeeperError::NotInitialized)
        } else {
            None
        }
    }

    /// The first failing check of `expire_task`.
    pub open spec fn expire_error(self, id: u64, ledger: LedgerInfo) -> Option<KeeperError> {
        if !self.has_task(id) {
            Some(KeeperError::TaskNotFound)
        } else if !(self.task(id).status == TaskStatus::Pending || self.task(id).status
            == TaskStatus::Claimed) {
            Some(KeeperError::InvalidTaskStatus)
        } else if ledger.timestamp < self.task(id).deadline {
            Some(KeeperError::DeadlineNotPassed)
        } else if self.reward_token is None {
            Some(KeeperError::NotInitialized)
        } else {
            None
        }
    }

    /// The first failing check of `withdraw_rewards`.
    pub open spec fn withdraw_error(self, keeper: Address) -> Option<KeeperError> {
        if self.balance_of(keeper) <= 0 {
            Some(KeeperError::NoRewardsAvailable)
        } else if self.reward_token is None {
            Some(KeeperError::NotInitialized)
        } else {
            None
        }
    }

    /// The first failing check of `sweep_fees`.
    pub open spec fn sweep_error(self, admin: Address, amount: i128) -> Option<KeeperError> {
        if self.admin_error(admin) is Some {
            self.admin_error(admin)
        } else if amount <= 0 {
            Some(KeeperError::InvalidReward)
        } else if amount > self.fees_accrued {
            Some(KeeperError::NoRewardsAvailable)
        } else if self.reward_token is None {
            Some(KeeperError::NotInitialized)
        } else {
            None
        }
    }

    /// How a state may evolve: no task ever disappears, and a settled task
    /// never changes again.
    pub open spec fn evolves_to(self, next: RegistryView) -> bool {
        &&& self.tasks.len() <= next.tasks.len()
        &&& forall|i: int|
            0 <= i < self.tasks.len() && is_settled(#[trigger] self.tasks[i]) ==> next.tasks[i]
                == self.tasks[i]
    }
}

impl KeeperRegistry {
    /// The representation invariant of the stored balances.
    pub closed spec fn inv(&self) -> bool {
        unique_keepers(self.balances@)
    }

    /// The invariant of every registry built by this module's operations.
    pub open spec fn wf(&self) -> bool {
        &&& self.inv()
        &&& self@.valid()
    }

    /// A registry that has not been initialized yet.
    pub fn new() -> (r: KeeperRegistry)
        ensures
            r.wf(),
            r@.admin is None,
            r@.reward_token is None,
            r@.fee_bps == DEFAULT_FEE_BPS,
            !r@.paused,
            r@.min_reward == 0,
            r@.fees_accrued == 0,
            r@.tasks.len() == 0,
            r@.balances.is_empty(),
            r@.credited_total == 0,
    {
        let r = KeeperRegistry {
            admin: None,
            reward_token: None,
            fee_bps: DEFAULT_FEE_BPS,
            paused: false,
            min_reward: 0,
            fees_accrued: 0,
            tasks: Vec::new(),
            balances: Vec::new(),
        };
        assert(r@.tasks =~= Seq::<TaskView>::empty());
        assert(r@.balances =~= Map::<Address, i128>::empty());
        r
    }

    /// The position of task `id`, if it exists.
    fn task_index(&self, task_id: u64) -> (r: Option<usize>)
        requires
            self.wf(),
        ensures
            match r {
                Some(i) => {
                    &&& self@.has_task(task_id)
                    &&& i == task_id - 1
                    &&& i < self.tasks@.len()
                    &&& self@.task(task_id) == self.tasks@[i as int]@
                },
                None => !self@.has_task(task_id),
            },
    {
        proof {
            assert(self@.tasks.len() == self.tasks@.len());
        }
        let len = self.tasks.len() as u64;
        if 1 <= task_id && task_id <= len {
            Some((task_id - 1) as usize)
        } else {
            None
        }
    }

    /// The entry holding `keeper`'s balance, if any.
    fn find_balance(&self, keeper: Address) -> (r: Option<usize>)
        ensures
            match r {
                Some(i) => i < self.balances@.len() && self.balances@[i as int].keeper == keeper,
                None => forall|i: int|
                    0 <= i < self.balances@.len() ==> self.balances@[i].keeper != keeper,
            },
    {
        let mut i: usize = 0;
        while i < self.balances.len()
            invariant
                i <= self.balances@.len(),
                forall|j: int| 0 <= j < i ==> self.balances@[j].keeper != keeper,
            decreases self.balances@.len() - i,
        {
            if self.balances[i].keeper == keeper {
                return Some(i);
            }
            i = i + 1;
        }
        None
    }

    /// `keeper`'s balance as stored.
    fn stored_balance(&self, keeper: Address) -> (r: i128)
        requires
            self.wf(),
        ensures
            r == self@.balance_of(keeper),
    {
        match self.find_balance(keeper) {
            Some(i) => {
                proof {
                    lemma_balances_map_index(self.balances@, i as int);
                }
                self.balances[i].amount
            },
            None => {
                proof {
                    lemma_balances_map_absent(self.balances@, keeper);
                }
                0
            },
        }
    }

    /// Sets `keeper`'s balance to `amount`.
    fn store_balance(&mut self, keeper: Address, amount: i128)
        requires
            old(self).inv(),
        ensures
            final(self).inv(),
            final(self)@ == (RegistryView {
                balances: old(self)@.balances.insert(keeper, amount),
                credited_total: old(self)@.credited_total - old(self)@.balance_of(keeper) + amount,
                ..old(self)@
            }),
    {
        match self.find_balance(keeper) {
            Some(i) => {
                proof {
                    lemma_balances_map_index(self.balances@, i as int);
                    lemma_balances_update(self.balances@, i as int, amount);
                }
                self.balances.set(i, KeeperBalance { keeper, amount });
            },
            None => {
                proof {
                    lemma_balances_map_absent(self.balances@, keeper);
                    lemma_balances_push(self.balances@, keeper, amount);
                }
                self.balances.push(KeeperBalance { keeper, amount });
            },
        }
    }
}


/// A check outcome as a call result.
pub open spec fn checked(e: Option<KeeperError>) -> Result<(), KeeperError> {
    match e {
        Some(err) => Err(err),
        None => Ok(()),
    }
}

/// The view of an optional task.
pub open spec fn opt_view(o: Option<Task>) -> Option<TaskView> {
    match o {
        Some(t) => Some(t@),
        None => None,
    }
}

impl RegistryView {
    /// Task `id`, if it exists.
    pub open spec fn lookup(self, id: u64) -> Option<TaskView> {
        if self.has_task(id) {
            Some(self.task(id))
        } else {
            None
        }
    }

    /// Whether `next` holds the same task escrow and keeper credit as this
    /// state (what administrative calls must never touch).
    pub open spec fn isolated(self, next: RegistryView) -> bool {
        &&& next.tasks == self.tasks
        &&& next.balances == self.balances
        &&& next.credited_total == self.credited_total
    }
}

impl KeeperRegistry {
    /// Checks that `caller` is the configured admin.
    fn require_admin(&self, caller: Address) -> (r: Result<(), KeeperError>)
        ensures
            r == checked(self@.admin_error(caller)),
    {
        match self.admin {
            None => Err(KeeperError::NotInitialized),
            Some(a) => if a != caller {
                Err(KeeperError::Unauthorized)
            } else {
                Ok(())
            },
        }
    }

    /// Checks that the registry is not paused.
    pub fn require_not_paused(&self) -> (r: Result<(), KeeperError>)
        ensures
            r == checked(self@.pause_error()),
    {
        if self.paused {
            Err(KeeperError::ContractPaused)
        } else {
            Ok(())
        }
    }

    /// One-time configuration: sets the admin, the reward token and the fee,
    /// and leaves the registry unpaused.
    pub fn initialize(&mut self, admin: Address, reward_token: Address, fee_bps: u32) -> (r: Result<(), KeeperError>)
        requires
            old(self).wf(),
        ensures
            final(self).wf(),
            old(self)@.evolves_to(final(self)@),
            match r {
                Ok(()) => {
                    &&& old(self)@.admin is None
                    &&& fee_bps <= BPS_DENOMINATOR
                    &&& final(self)@ == (RegistryView {
                        admin: Some(admin),
                        reward_token: Some(reward_token),
                        fee_bps,
                        paused: false,
                        ..old(self)@
                    })
                },
                Err(e) => {
                    &&& e == (if old(self)@.admin is Some {
                        KeeperError::AlreadyInitialized
                    } else {
                        KeeperError::InvalidFeeBps
                    })
                    &&& (old(self)@.admin is Some || fee_bps > BPS_DENOMINATOR)
                    &&& final(self)@ == old(self)@
                },
            },
            r is Ok ==> old(self)@.isolated(final(self)@),
    {
        if self.admin.is_some() {
            return Err(KeeperError::AlreadyInitialized);
        }
        if fee_bps > BPS_DENOMINATOR {
            return Err(KeeperError::InvalidFeeBps);
        }
        self.admin = Some(admin);
        self.reward_token = Some(reward_token);
        self.fee_bps = fee_bps;
        self.paused = false;
        Ok(())
    }

    /// Admin: stops the entry points that open new exposure.
    pub fn pause(&mut self, admin: Address) -> (r: Result<(), KeeperError>)
        requires
            old(self).wf(),
        ensures
            final(self).wf(),
            old(self)@.evolves_to(final(self)@),
            old(self)@.isolated(final(self)@),
            r == checked(old(self)@.admin_error(admin)),
            final(self)@ == (if r is Ok {
                RegistryView { paused: true, ..old(self)@ }
            } else {
                old(self)@
            }),
    {
        self.require_admin(admin)?;
        self.paused = true;
        Ok(())
    }

    /// Admin: lifts a pause.
    pub fn unpause(&mut self, admin: Address) -> (r: Result<(), KeeperError>)
        requires
            old(self).wf(),
        ensures
            final(self).wf(),
            old(self)@.evolves_to(final(self)@),
            old(self)@.isolated(final(self)@),
            r == checked(old(self)@.admin_error(admin)),
            final(self)@ == (if r is Ok {
                RegistryView { paused: false, ..old(self)@ }
            } else {
                old(self)@
            }),
    {
        self.require_admin(admin)?;
        self.paused = false;
        Ok(())
    }

    /// Admin: sets the protocol fee for executions from now on.
    pub fn set_fee_bps(&mut self, admin: Address, new_bps: u32) -> (r: Result<(), KeeperError>)
        requires
            old(self).wf(),
        ensures
            final(self).wf(),
            old(self)@.evolves_to(final(self)@),
            old(self)@.isolated(final(self)@),
            r == checked(if old(self)@.admin_error(admin) is Some {
                old(self)@.admin_error(admin)
            } else if new_bps > BPS_DENOMINATOR {
                Some(KeeperError::InvalidFeeBps)
            } else {
                None
            }),
            final(self)@ == (if r is Ok {
                RegistryView { fee_bps: new_bps, ..old(self)@ }
            } else {
                old(self)@
            }),
    {
        self.require_admin(admin)?;
        if new_bps > BPS_DENOMINATOR {
            return Err(KeeperError::InvalidFeeBps);
        }
        self.fee_bps = new_bps;
        Ok(())
    }

    /// Admin: sets the smallest reward future registrations must carry.
    pub fn set_min_reward(&mut self, admin: Address, min_reward: i128) -> (r: Result<(), KeeperError>)
        requires
            old(self).wf(),
        ensures
            final(self).wf(),
            old(self)@.evolves_to(final(self)@),
            old(self)@.isolated(final(self)@),
            r == checked(if old(self)@.admin_error(admin) is Some {
                old(self)@.admin_error(admin)
            } else if min_reward < 0 {
                Some(KeeperError::InvalidReward)
            } else {
                None
            }),
            final(self)@ == (if r is Ok {
                RegistryView { min_reward, ..old(self)@ }
            } else {
                old(self)@
            }),
    {
        self.require_admin(admin)?;
        if min_reward < 0 {
            return Err(KeeperError::InvalidReward);
        }
        self.min_reward = min_reward;
        Ok(())
    }

    /// Admin: hands the admin role to `new_admin` (whose consent the host
    /// obtains).
    pub fn transfer_admin(&mut self, admin: Address, new_admin: Address) -> (r: Result<(), KeeperError>)
        requires
            old(self).wf(),
        ensures
            final(self).wf(),
            old(self)@.evolves_to(final(self)@),
            old(self)@.isolated(final(self)@),
            r == checked(old(self)@.admin_error(admin)),
            final(self)@ == (if r is Ok {
                RegistryView { admin: Some(new_admin), ..old(self)@ }
            } else {
                old(self)@
            }),
    {
        self.require_admin(admin)?;
        self.admin = Some(new_admin);
        Ok(())
    }

    /// Admin: authorises replacing the contract code; the registry's state
    /// is kept as it is.
    pub fn upgrade(&self, admin: Address) -> (r: Result<(), KeeperError>)
        ensures
            r == checked(self@.admin_error(admin)),
    {
        self.require_admin(admin)
    }

    /// Admin: moves `amount` of the accrued protocol fees to `treasury`.
    pub fn sweep_fees(&mut self, admin: Address, treasury: Address, amount: i128) -> (r: Result<Transfer, KeeperError>)
        requires
            old(self).wf(),
        ensures
            final(self).wf(),
            old(self)@.evolves_to(final(self)@),
            old(self)@.isolated(final(self)@),
            match r {
                Ok(t) => {
                    &&& old(self)@.sweep_error(admin, amount) is None
                    &&& t == Transfer::Payout { to: treasury, amount }
                    &&& final(self)@ == (RegistryView {
                        fees_accrued: (old(self)@.fees_accrued - amount) as i128,
                        ..old(self)@
                    })
                    &&& final(self)@.liabilities() == old(self)@.liabilities() + inflow(t)
                },
                Err(e) => old(self)@.sweep_error(admin, amount) == Some(e) && final(self)@ == old(
                    self,
                )@,
            },
    {
        self.require_admin(admin)?;
        if amount <= 0 {
            return Err(KeeperError::InvalidReward);
        }
        if amount > self.fees_accrued {
            return Err(KeeperError::NoRewardsAvailable);
        }
        if self.reward_token.is_none() {
            return Err(KeeperError::NotInitialized);
        }
        self.fees_accrued = self.fees_accrued - amount;
        Ok(Transfer::Payout { to: treasury, amount })
    }

    /// Protocol fees accrued and awaiting a sweep.
    pub fn fees_accrued(&self) -> (r: i128)
        ensures
            r == self@.fees_accrued,
    {
        self.fees_accrued
    }

    /// Task `task_id`.
    pub fn get_task(&self, task_id: u64) -> (r: Result<Task, KeeperError>)
        requires
            self.wf(),
        ensures
            match r {
                Ok(t) => self@.lookup(task_id) == Some(t@),
                Err(e) => self@.lookup(task_id) is None && e == KeeperError::TaskNotFound,
            },
    {
        match self.task_index(task_id) {
            Some(i) => {
                Ok(self.tasks[i].duplicate())
            },
            None => Err(KeeperError::TaskNotFound),
        }
    }

    /// Task `task_id` if it exists.
    fn lookup_task(&self, task_id: u64) -> (r: Option<Task>)
        requires
            self.wf(),
        ensures
            opt_view(r) == self@.lookup(task_id),
    {
        match self.get_task(task_id) {
            Ok(t) => Some(t),
            Err(_) => None,
        }
    }

    /// Reads up to `MAX_BATCH_READ` tasks at once; entry `i` of the result
    /// is task `ids[i]`, or `None` where no such task exists.
    pub fn get_tasks(&self, ids: &Vec<u64>) -> (r: Result<Vec<Option<Task>>, KeeperError>)
        requires
            self.wf(),
        ensures
            match r {
                Ok(out) => {
                    &&& ids.len() <= MAX_BATCH_READ
                    &&& out.len() == ids.len()
                    &&& forall|i: int|
                        0 <= i < ids.len() ==> opt_view(#[trigger] out@[i]) == self@.lookup(
                            ids@[i],
                        )
                },
                Err(e) => ids.len() > MAX_BATCH_READ && e == KeeperError::BatchTooLarge,
            },
    {
        if ids.len() > MAX_BATCH_READ as usize {
            return Err(KeeperError::BatchTooLarge);
        }
        let mut out: Vec<Option<Task>> = Vec::new();
        let mut i: usize = 0;
        while i < ids.len()
            invariant
                self.wf(),
                i <= ids.len(),
                out.len() == i,
                forall|j: int| 0 <= j < i ==> opt_view(#[trigger] out@[j]) == self@.lookup(ids@[j]),
            decreases ids.len() - i,
        {
            let t = self.lookup_task(ids[i]);
            out.push(t);
            i = i + 1;
        }
        Ok(out)
    }

    /// Reads the `count` tasks `from, from + 1, ..., from + count - 1`.
    pub fn get_tasks_range(&self, from: u64, count: u32) -> (r: Result<Vec<Option<Task>>, KeeperError>)
        requires
            self.wf(),
        ensures
            match r {
                Ok(out) => {
                    &&& count <= MAX_BATCH_READ
                    &&& (count == 0 || from + count - 1 <= u64::MAX)
                    &&& out.len() == count
                    &&& forall|i: int|
                        0 <= i < count ==> opt_view(#[trigger] out@[i]) == self@.lookup(
                            (from + i) as u64,
                        )
                },
                Err(e) => e == (if count > MAX_BATCH_READ {
                    KeeperError::BatchTooLarge
                } else {
                    KeeperError::ArithmeticOverflow
                }) && (count > MAX_BATCH_READ || (count > 0 && from + count - 1 > u64::MAX)),
            },
    {
        if count > MAX_BATCH_READ {
            return Err(KeeperError::BatchTooLarge);
        }
        if count > 0 {
            if from.checked_add(count as u64 - 1).is_none() {
                return Err(KeeperError::ArithmeticOverflow);
            }
        }
        let mut out: Vec<Option<Task>> = Vec::new();
        let mut i: u32 = 0;
        while i < count
            invariant
                self.wf(),
                i <= count,
                count == 0 || from + count - 1 <= u64::MAX,
                out.len() == i,
                forall|j: int| 0 <= j < i ==> opt_view(#[trigger] out@[j]) == self@.lookup(
                    (from + j) as u64,
                ),
            decreases count - i,
        {
            let t = self.lookup_task(from + i as u64);
            out.push(t);
            i = i + 1;
        }
        Ok(out)
    }

    /// Number of tasks ever registered (the id of the latest task).
    pub fn task_count(&self) -> (r: u64)
        requires
            self.wf(),
        ensures
            r == self@.tasks.len(),
    {
        self.tasks.len() as u64
    }

    /// A keeper's withdrawable balance (0 if never credited).
    pub fn keeper_balance(&self, keeper: Address) -> (r: i128)
        requires
            self.wf(),
        ensures
            r == self@.balance_of(keeper),
    {
        self.stored_balance(keeper)
    }

    /// The configured admin, if any.
    pub fn admin(&self) -> (r: Option<Address>)
        ensures
            r == self@.admin,
    {
        self.admin
    }

    /// The protocol fee the registry applies to executions.
    pub fn get_fee_bps(&self) -> (r: u32)
        ensures
            r == self@.fee_bps,
    {
        self.fee_bps
    }

    /// Whether the registry is paused.
    pub fn is_paused(&self) -> (r: bool)
        ensures
            r == self@.paused,
    {
        self.paused
    }

    /// The configured reward token, if any.
    pub fn reward_token_address(&self) -> (r: Option<Address>)
        ensures
            r == self@.reward_token,
    {
        self.reward_token
    }

    /// Smallest reward a new task may carry.
    pub fn min_reward(&self) -> (r: i128)
        ensures
            r == self@.min_reward,
    {
        self.min_reward
    }

    /// Version of the registry logic.
    pub fn version(&self) -> (r: u32)
        ensures
            r == VERSION,
    {
        VERSION
    }

    /// Largest batch `batch_register_tasks` accepts.
    pub fn max_batch_size(&self) -> (r: u32)
        ensures
            r == MAX_BATCH_SIZE,
    {
        MAX_BATCH_SIZE
    }

    /// Whether task `task_id` can be claimed at `ledger` (pause aside): it
    /// exists, its deadline has not passed, and it is pending or its claim
    /// has lapsed.
    pub fn is_claimable(&self, task_id: u64, ledger: LedgerInfo) -> (r: bool)
        requires
            self.wf(),
        ensures
            r == self@.claimable(task_id, ledger),
    {
        match self.task_index(task_id) {
            None => false,
            Some(i) => {
                let task = &self.tasks[i];
                if ledger.timestamp >= task.deadline {
                    return false;
                }
                match task.status {
                    TaskStatus::Pending => true,
                    TaskStatus::Claimed => lock_expired(
                        task.claim_ledger,
                        task.lock_ledgers,
                        ledger.sequence,
                    ),
                    _ => false,
                }
            },
        }
    }
}


/// Sum of the rewards of a list of batch entries.
pub open spec fn batch_rewards(ps: Seq<BatchTaskParams>) -> int
    decreases ps.len(),
{
    if ps.len() == 0 {
        0
    } else {
        batch_rewards(ps.drop_last()) + ps.last().reward
    }
}

/// The tasks a batch registers for `owner`, in input order.
pub open spec fn batch_tasks(owner: Address, ps: Seq<BatchTaskParams>) -> Seq<TaskView> {
    ps.map_values(|p: BatchTaskParams| batch_task_view(owner, p))
}

/// The ids `first, first + 1, ..., first + n - 1`.
pub open spec fn id_range(first: int, n: nat) -> Seq<u64> {
    Seq::new(n, |k: int| (first + k) as u64)
}

/// Once a prefix of a batch fails its checks, the whole batch fails the
/// same way.
pub proof fn lemma_batch_scan_error_extends(
    v: RegistryView,
    ps: Seq<BatchTaskParams>,
    i: int,
    now: u64,
)
    requires
        0 <= i <= ps.len(),
        v.batch_scan(ps.take(i), now) is Err,
    ensures
        v.batch_scan(ps, now) == v.batch_scan(ps.take(i), now),
    decreases ps.len() - i,
{
    if i < ps.len() {
        assert(ps.take(i + 1).drop_last() =~= ps.take(i));
        lemma_batch_scan_error_extends(v, ps, i + 1, now);
    } else {
        assert(ps.take(i) =~= ps);
    }
}

/// A batch that passes its scan has every entry passing its checks, and
/// its total is the sum of its rewards.
pub proof fn lemma_batch_scan_ok(v: RegistryView, ps: Seq<BatchTaskParams>, now: u64)
    requires
        v.batch_scan(ps, now) is Ok,
    ensures
        v.batch_scan(ps, now) == Ok::<int, KeeperError>(batch_rewards(ps)),
        forall|k: int|
            0 <= k < ps.len() ==> v.entry_error(
                #[trigger] ps[k].reward,
                ps[k].deadline,
                ps[k].calldata@.len(),
                ps[k].ttl_ledgers,
                ps[k].lock_ledgers,
                now,
            ) is None,
    decreases ps.len(),
{
    if ps.len() > 0 {
        lemma_batch_scan_ok(v, ps.drop_last(), now);
        assert forall|k: int| 0 <= k < ps.len() implies v.entry_error(
            #[trigger] ps[k].reward,
            ps[k].deadline,
            ps[k].calldata@.len(),
            ps[k].ttl_ledgers,
            ps[k].lock_ledgers,
            now,
        ) is None by {
            if k < ps.len() - 1 {
                assert(ps.drop_last()[k] == ps[k]);
            }
        }
    }
}

/// The escrow of a batch's tasks is the sum of its rewards.
pub proof fn lemma_batch_escrow(owner: Address, ps: Seq<BatchTaskParams>)
    ensures
        open_escrow(batch_tasks(owner, ps)) == batch_rewards(ps),
    decreases ps.len(),
{
    if ps.len() > 0 {
        lemma_batch_escrow(owner, ps.drop_last());
        assert(batch_tasks(owner, ps).drop_last() =~= batch_tasks(owner, ps.drop_last()));
    }
}

impl KeeperRegistry {
    /// Replaces task `task_id` (at position `i`) by `t`.
    fn replace_task(&mut self, task_id: u64, i: usize, t: Task)
        requires
            old(self).inv(),
            i < old(self).tasks@.len(),
            i == task_id - 1,
        ensures
            final(self).inv(),
            final(self)@ == old(self)@.with_task(task_id, t@),
            open_escrow(final(self)@.tasks) == open_escrow(old(self)@.tasks) - escrow_of(
                old(self)@.task(task_id),
            ) + escrow_of(t@),
    {
        proof {
            assert(old(self)@.tasks.len() == old(self).tasks@.len());
            lemma_escrow_update(old(self)@.tasks, i as int, t@);
        }
        let ghost tv = t@;
        self.tasks.set(i, t);
        proof {
            assert(self@.tasks =~= old(self)@.tasks.update(i as int, tv));
        }
    }

    /// Appends `t` as the newest task.
    fn append_task(&mut self, t: Task)
        requires
            old(self).inv(),
        ensures
            final(self).inv(),
            final(self)@ == (RegistryView { tasks: old(self)@.tasks.push(t@), ..old(self)@ }),
            open_escrow(final(self)@.tasks) == open_escrow(old(self)@.tasks) + escrow_of(t@),
    {
        let ghost tv = t@;
        self.tasks.push(t);
        proof {
            assert(self@.tasks =~= old(self)@.tasks.push(tv));
            assert(self@.tasks.drop_last() =~= old(self)@.tasks);
        }
    }

    /// Checks one task's registration parameters.
    fn check_entry(
        &self,
        reward: i128,
        deadline: u64,
        calldata_len: usize,
        ttl_ledgers: u32,
        lock_ledgers: u32,
        now: u64,
    ) -> (r: Result<(), KeeperError>)
        ensures
            r == checked(
                self@.entry_error(reward, deadline, calldata_len as nat, ttl_ledgers, lock_ledgers, now),
            ),
    {
        if reward <= 0 {
            return Err(KeeperError::InvalidReward);
        }
        if reward < self.min_reward {
            return Err(KeeperError::InvalidReward);
        }
        if deadline <= now {
            return Err(KeeperError::DeadlinePassed);
        }
        if calldata_len > MAX_CALLDATA_LEN as usize {
            return Err(KeeperError::CalldataTooLarge);
        }
        if !(MIN_LOCK_LEDGERS <= lock_ledgers && lock_ledgers <= MAX_LOCK_LEDGERS) {
            return Err(KeeperError::InvalidTaskParams);
        }
        if ttl_ledgers < MIN_TTL_LEDGERS {
            return Err(KeeperError::InvalidTaskParams);
        }
        if self.reward_token.is_none() {
            return Err(KeeperError::NotInitialized);
        }
        if (ttl_ledgers as u64) < required_ttl_ledgers(deadline, now) {
            return Err(KeeperError::TtlTooShort);
        }
        Ok(())
    }

    /// Posts a funded task owned by `owner`. On success the task gets the
    /// next id, starts pending, and `reward` is to be escrowed from `owner`.
    pub fn register_task(
        &mut self,
        owner: Address,
        task_type: TaskType,
        calldata: Vec<u8>,
        reward: i128,
        deadline: u64,
        ttl_ledgers: u32,
        lock_ledgers: u32,
        verifier: Option<Address>,
        ledger: LedgerInfo,
    ) -> (r: Result<(u64, Transfer), KeeperError>)
        requires
            old(self).wf(),
            old(self)@.register_error(
                reward,
                deadline,
                calldata@.len(),
                ttl_ledgers,
                lock_ledgers,
                ledger.timestamp,
            ) is None ==> old(self)@.tasks.len() < u64::MAX,
        ensures
            final(self).wf(),
            old(self)@.evolves_to(final(self)@),
            match r {
                Ok((id, t)) => {
                    &&& old(self)@.register_error(
                        reward,
                        deadline,
                        calldata@.len(),
                        ttl_ledgers,
                        lock_ledgers,
                        ledger.timestamp,
                    ) is None
                    &&& id == old(self)@.tasks.len() + 1
                    &&& t == Transfer::Deposit { from: owner, amount: reward }
                    &&& final(self)@ == (RegistryView {
                        tasks: old(self)@.tasks.push(
                            new_task_view(
                                owner,
                                task_type,
                                calldata@,
                                reward,
                                deadline,
                                ttl_ledgers,
                                lock_ledgers,
                                verifier,
                            ),
                        ),
                        ..old(self)@
                    })
                    &&& final(self)@.liabilities() == old(self)@.liabilities() + inflow(t)
                },
                Err(e) => {
                    &&& old(self)@.register_error(
                        reward,
                        deadline,
                        calldata@.len(),
                        ttl_ledgers,
                        lock_ledgers,
                        ledger.timestamp,
                    ) == Some(e)
                    &&& final(self)@ == old(self)@
                },
            },
    {
        self.require_not_paused()?;
        self.check_entry(
            reward,
            deadline,
            calldata.len(),
            ttl_ledgers,
            lock_ledgers,
            ledger.timestamp,
        )?;
        let task_id = self.tasks.len() as u64 + 1;
        let task = Task {
            owner,
            task_type,
            calldata,
            reward,
            deadline,
            ttl_ledgers,
            status: TaskStatus::Pending,
            claimer: None,
            claim_ledger: None,
            lock_ledgers,
            verifier,
        };
        self.append_task(task);
        Ok((task_id, Transfer::Deposit { from: owner, amount: reward }))
    }

    /// Registers every entry of `tasks` for `owner` in one call, or none of
    /// them. On success the entries get consecutive ids in input order and
    /// the sum of their rewards is to be escrowed from `owner` at once.
    pub fn batch_register_tasks(
        &mut self,
        owner: Address,
        tasks: Vec<BatchTaskParams>,
        max_total_reward: i128,
        ledger: LedgerInfo,
    ) -> (r: Result<(Vec<u64>, Transfer), KeeperError>)
        requires
            old(self).wf(),
            old(self)@.batch_error(tasks@, max_total_reward, ledger.timestamp) is None
                ==> old(self)@.tasks.len() + tasks@.len() <= u64::MAX,
        ensures
            final(self).wf(),
            old(self)@.evolves_to(final(self)@),
            match r {
                Ok((ids, t)) => {
                    &&& old(self)@.batch_error(tasks@, max_total_reward, ledger.timestamp) is None
                    &&& old(self)@.batch_scan(tasks@, ledger.timestamp) == Ok::<int, KeeperError>(batch_rewards(tasks@))
                    &&& ids@ == id_range(old(self)@.tasks.len() + 1int, tasks@.len())
                    &&& t == Transfer::Deposit { from: owner, amount: batch_rewards(tasks@) as i128 }
                    &&& final(self)@ == (RegistryView {
                        tasks: old(self)@.tasks + batch_tasks(owner, tasks@),
                        ..old(self)@
                    })
                    &&& final(self)@.liabilities() == old(self)@.liabilities() + inflow(t)
                },
                Err(e) => {
                    &&& old(self)@.batch_error(tasks@, max_total_reward, ledger.timestamp) == Some(e)
                    &&& final(self)@ == old(self)@
                },
            },
    {
        self.require_not_paused()?;
        let n = tasks.len();
        if n == 0 {
            return Err(KeeperError::EmptyBatch);
        }
        if n > MAX_BATCH_SIZE as usize {
            return Err(KeeperError::BatchTooLarge);
        }
        if max_total_reward <= 0 {
            return Err(KeeperError::InvalidReward);
        }
        let now = ledger.timestamp;
        let mut total: i128 = 0;
        let mut i: usize = 0;
        proof {
            assert(tasks@.take(0) =~= Seq::<BatchTaskParams>::empty());
        }
        while i < n
            invariant
                self.wf(),
                n == tasks@.len(),
                i <= n,
                !self@.paused,
                self@ == old(self)@,
                now == ledger.timestamp,
                0 < n <= MAX_BATCH_SIZE,
                max_total_reward > 0,
                self@.batch_scan(tasks@.take(i as int), now) == Ok::<int, KeeperError>(total as int),
                total == batch_rewards(tasks@.take(i as int)),
            decreases n - i,
        {
            let p = &tasks[i];
            proof {
                assert(tasks@.take(i + 1).drop_last() =~= tasks@.take(i as int));
                assert(tasks@.take(i + 1).last() == tasks@[i as int]);
            }
            match self.check_entry(
                p.reward,
                p.deadline,
                p.calldata.len(),
                p.ttl_ledgers,
                p.lock_ledgers,
                now,
            ) {
                Err(e) => {
                    proof {
                        assert(self@.batch_scan(tasks@.take(i + 1), now) == Err::<int, KeeperError>(e));
                        lemma_batch_scan_error_extends(self@, tasks@, i + 1, now);
                        assert(self@.batch_error(tasks@, max_total_reward, now) == Some(e));
                    }
                    return Err(e);
                },
                Ok(()) => {},
            }
            total = match total.checked_add(p.reward) {
                Some(t) => t,
                None => {
                    proof {
                        assert(self@.batch_scan(tasks@.take(i + 1), now) == Err::<int, KeeperError>(
                            KeeperError::ArithmeticOverflow,
                        ));
                        lemma_batch_scan_error_extends(self@, tasks@, i + 1, now);
                    }
                    return Err(KeeperError::ArithmeticOverflow);
                },
            };
            i = i + 1;
        }
        proof {
            assert(tasks@.take(n as int) =~= tasks@);
        }
        if total > max_total_reward {
            return Err(KeeperError::BatchRewardCeilingExceeded);
        }
        let ghost old_view = self@;
        let first = self.tasks.len() as u64 + 1;
        let mut ids: Vec<u64> = Vec::new();
        let mut j: usize = 0;
        proof {
            assert(tasks@.take(0) =~= Seq::<BatchTaskParams>::empty());
            assert(old_view.tasks + batch_tasks(owner, tasks@.take(0)) =~= old_view.tasks);
            assert(ids@ =~= id_range(first as int, 0));
            lemma_batch_escrow(owner, tasks@);
            lemma_batch_scan_ok(old_view, tasks@, now);
        }
        while j < n
            invariant
                self.inv(),
                n == tasks@.len(),
                j <= n,
                first == old_view.tasks.len() + 1,
                old_view.tasks.len() + n <= u64::MAX,
                old_view.valid(),
                old_view.reward_token is Some,
                old_view.batch_scan(tasks@, now) == Ok::<int, KeeperError>(total as int),
                forall|k: int|
                    0 <= k < n ==> old_view.entry_error(
                        #[trigger] tasks@[k].reward,
                        tasks@[k].deadline,
                        tasks@[k].calldata@.len(),
                        tasks@[k].ttl_ledgers,
                        tasks@[k].lock_ledgers,
                        now,
                    ) is None,
                self@ == (RegistryView {
                    tasks: old_view.tasks + batch_tasks(owner, tasks@.take(j as int)),
                    ..old_view
                }),
                ids@ == id_range(first as int, j as nat),
            decreases n - j,
        {
            let p = &tasks[j];
            let task = Task {
                owner,
                task_type: p.task_type,
                calldata: p.calldata.clone(),
                reward: p.reward,
                deadline: p.deadline,
                ttl_ledgers: p.ttl_ledgers,
                status: TaskStatus::Pending,
                claimer: None,
                claim_ledger: None,
                lock_ledgers: p.lock_ledgers,
                verifier: None,
            };
            proof {
                assert(task.calldata@ =~= p.calldata@);
                assert(task@ == batch_task_view(owner, tasks@[j as int]));
                assert(batch_tasks(owner, tasks@.take(j + 1)) =~= batch_tasks(
                    owner,
                    tasks@.take(j as int),
                ).push(task@));
            }
            self.append_task(task);
            ids.push(first + j as u64);
            proof {
                assert(self@.tasks =~= old_view.tasks + batch_tasks(owner, tasks@.take(j + 1)));
                assert(ids@ =~= id_range(first as int, (j + 1) as nat));
            }
            j = j + 1;
        }
        proof {
            assert(tasks@.take(n as int) =~= tasks@);
            lemma_escrow_append(old_view.tasks, batch_tasks(owner, tasks@));
            assert forall|i: int| 0 <= i < self@.tasks.len() implies #[trigger] self@.tasks[i].reward
                > 0 by {
                if i >= old_view.tasks.len() {
                    let k = i - old_view.tasks.len();
                    assert(self@.tasks[i] == batch_task_view(owner, tasks@[k]));
                }
            }
        }
        Ok((ids, Transfer::Deposit { from: owner, amount: total }))
    }
}


impl KeeperRegistry {
    /// Owner tops up the reward of a pending or claimed task; `additional`
    /// is to be escrowed from `owner`.
    pub fn increase_reward(&mut self, owner: Address, task_id: u64, additional: i128) -> (r: Result<Transfer, KeeperError>)
        requires
            old(self).wf(),
            old(self)@.increase_error(owner, task_id, additional) is None ==> old(self)@.task(
                task_id,
            ).reward + additional <= i128::MAX,
        ensures
            final(self).wf(),
            old(self)@.evolves_to(final(self)@),
            match r {
                Ok(t) => {
                    &&& old(self)@.increase_error(owner, task_id, additional) is None
                    &&& t == Transfer::Deposit { from: owner, amount: additional }
                    &&& final(self)@ == old(self)@.with_task(
                        task_id,
                        TaskView {
                            reward: (old(self)@.task(task_id).reward + additional) as i128,
                            ..old(self)@.task(task_id)
                        },
                    )
                    &&& final(self)@.liabilities() == old(self)@.liabilities() + inflow(t)
                },
                Err(e) => old(self)@.increase_error(owner, task_id, additional) == Some(e)
                    && final(self)@ == old(self)@,
            },
    {
        self.require_not_paused()?;
        if additional <= 0 {
            return Err(KeeperError::InvalidReward);
        }
        let i = match self.task_index(task_id) {
            Some(i) => i,
            None => {
                return Err(KeeperError::TaskNotFound);
            },
        };
        let mut task = self.tasks[i].duplicate();
        if task.owner != owner {
            return Err(KeeperError::NotTaskOwner);
        }
        match task.status {
            TaskStatus::Pending | TaskStatus::Claimed => {},
            _ => {
                return Err(KeeperError::InvalidTaskStatus);
            },
        }
        if self.reward_token.is_none() {
            return Err(KeeperError::NotInitialized);
        }
        task.reward = task.reward + additional;
        self.replace_task(task_id, i, task);
        Ok(Transfer::Deposit { from: owner, amount: additional })
    }

    /// Owner pushes out the deadline of a pending or claimed task; the
    /// task's storage lifetime must still cover the new deadline.
    pub fn extend_deadline(&mut self, owner: Address, task_id: u64, new_deadline: u64, ledger: LedgerInfo) -> (r: Result<(), KeeperError>)
        requires
            old(self).wf(),
        ensures
            final(self).wf(),
            old(self)@.evolves_to(final(self)@),
            final(self)@.liabilities() == old(self)@.liabilities(),
            r == checked(old(self)@.extend_error(owner, task_id, new_deadline, ledger.timestamp)),
            final(self)@ == (if r is Ok {
                old(self)@.with_task(
                    task_id,
                    TaskView { deadline: new_deadline, ..old(self)@.task(task_id) },
                )
            } else {
                old(self)@
            }),
    {
        self.require_not_paused()?;
        let i = match self.task_index(task_id) {
            Some(i) => i,
            None => {
                return Err(KeeperError::TaskNotFound);
            },
        };
        let mut task = self.tasks[i].duplicate();
        if task.owner != owner {
            return Err(KeeperError::NotTaskOwner);
        }
        match task.status {
            TaskStatus::Pending | TaskStatus::Claimed => {},
            _ => {
                return Err(KeeperError::InvalidTaskStatus);
            },
        }
        if new_deadline <= task.deadline {
            return Err(KeeperError::DeadlinePassed);
        }
        if (task.ttl_ledgers as u64) < required_ttl_ledgers(new_deadline, ledger.timestamp) {
            return Err(KeeperError::TtlTooShort);
        }
        task.deadline = new_deadline;
        self.replace_task(task_id, i, task);
        Ok(())
    }

    /// Owner attaches, replaces or removes the verifier of a pending task.
    pub fn update_verifier(&mut self, owner: Address, task_id: u64, new_verifier: Option<Address>) -> (r: Result<(), KeeperError>)
        requires
            old(self).wf(),
        ensures
            final(self).wf(),
            old(self)@.evolves_to(final(self)@),
            final(self)@.liabilities() == old(self)@.liabilities(),
            r == checked(old(self)@.update_verifier_error(owner, task_id)),
            final(self)@ == (if r is Ok {
                old(self)@.with_task(
                    task_id,
                    TaskView { verifier: new_verifier, ..old(self)@.task(task_id) },
                )
            } else {
                old(self)@
            }),
    {
        self.require_not_paused()?;
        let i = match self.task_index(task_id) {
            Some(i) => i,
            None => {
                return Err(KeeperError::TaskNotFound);
            },
        };
        let mut task = self.tasks[i].duplicate();
        if task.owner != owner {
            return Err(KeeperError::NotTaskOwner);
        }
        if task.status != TaskStatus::Pending {
            return Err(KeeperError::InvalidTaskStatus);
        }
        task.verifier = new_verifier;
        self.replace_task(task_id, i, task);
        Ok(())
    }

    /// A keeper claims a task: a pending task, or a claimed one whose lock
    /// window has lapsed, before its deadline.
    pub fn claim_task(&mut self, keeper: Address, task_id: u64, ledger: LedgerInfo) -> (r: Result<(), KeeperError>)
        requires
            old(self).wf(),
        ensures
            final(self).wf(),
            old(self)@.evolves_to(final(self)@),
            final(self)@.liabilities() == old(self)@.liabilities(),
            r == checked(old(self)@.claim_error(task_id, ledger)),
            final(self)@ == (if r is Ok {
                old(self)@.with_task(
                    task_id,
                    TaskView {
                        status: TaskStatus::Claimed,
                        claimer: Some(keeper),
                        claim_ledger: Some(ledger.sequence),
                        ..old(self)@.task(task_id)
                    },
                )
            } else {
                old(self)@
            }),
    {
        self.require_not_paused()?;
        let i = match self.task_index(task_id) {
            Some(i) => i,
            None => {
                return Err(KeeperError::TaskNotFound);
            },
        };
        let mut task = self.tasks[i].duplicate();
        if ledger.timestamp >= task.deadline {
            return Err(KeeperError::DeadlinePassed);
        }
        match task.status {
            TaskStatus::Pending => {},
            TaskStatus::Claimed => {
                if !lock_expired(task.claim_ledger, task.lock_ledgers, ledger.sequence) {
                    return Err(KeeperError::LockPeriodActive);
                }
            },
            _ => {
                return Err(KeeperError::InvalidTaskStatus);
            },
        }
        task.status = TaskStatus::Claimed;
        task.claimer = Some(keeper);
        task.claim_ledger = Some(ledger.sequence);
        self.replace_task(task_id, i, task);
        Ok(())
    }

    /// The checks of `execute_task` made before a verifier is consulted: on
    /// success, the verifier the host must ask (if any).
    pub fn execution_verifier(&self, keeper: Address, task_id: u64, proof: &Vec<u8>, ledger: LedgerInfo) -> (r: Result<Option<Address>, KeeperError>)
        requires
            self.wf(),
        ensures
            r == self@.execution_gate(keeper, task_id, proof@.len(), ledger.timestamp),
    {
        self.require_not_paused()?;
        if proof.len() > MAX_PROOF_LEN as usize {
            return Err(KeeperError::ProofTooLarge);
        }
        let i = match self.task_index(task_id) {
            Some(i) => i,
            None => {
                return Err(KeeperError::TaskNotFound);
            },
        };
        let task = &self.tasks[i];
        if task.status != TaskStatus::Claimed {
            return Err(KeeperError::InvalidTaskStatus);
        }
        if task.claimer != Some(keeper) {
            return Err(KeeperError::NotTaskClaimer);
        }
        if ledger.timestamp >= task.deadline {
            return Err(KeeperError::DeadlinePassed);
        }
        Ok(task.verifier)
    }

    /// The claiming keeper reports the task done. Where the task has a
    /// verifier, `reply` is what that verifier answered; a wrong interface
    /// version or a rejection fails the call. On success the task is
    /// executed, the keeper is credited the reward net of the protocol fee
    /// (returned), and the fee accrues to the protocol.
    pub fn execute_task(
        &mut self,
        keeper: Address,
        task_id: u64,
        proof: &Vec<u8>,
        ledger: LedgerInfo,
        reply: Option<VerifierReply>,
    ) -> (r: Result<i128, KeeperError>)
        requires
            old(self).wf(),
            old(self)@.execution_gate(keeper, task_id, proof@.len(), ledger.timestamp) matches Ok(
                Some(_),
            ) ==> reply is Some,
        ensures
            final(self).wf(),
            old(self)@.evolves_to(final(self)@),
            final(self)@.liabilities() == old(self)@.liabilities(),
            match old(self)@.execution_outcome(
                keeper,
                task_id,
                proof@.len(),
                ledger.timestamp,
                reply,
            ) {
                Ok((net, fee)) => {
                    &&& r == Ok::<i128, KeeperError>(net)
                    &&& final(self)@ == (RegistryView {
                        tasks: old(self)@.tasks.update(
                            task_id - 1,
                            TaskView { status: TaskStatus::Executed, ..old(self)@.task(task_id) },
                        ),
                        balances: old(self)@.balances.insert(
                            keeper,
                            (old(self)@.balance_of(keeper) + net) as i128,
                        ),
                        credited_total: old(self)@.credited_total + net,
                        fees_accrued: (old(self)@.fees_accrued + fee) as i128,
                        ..old(self)@
                    })
                },
                Err(e) => r == Err::<i128, KeeperError>(e) && final(self)@ == old(self)@,
            },
    {
        let verifier = self.execution_verifier(keeper, task_id, proof, ledger)?;
        if verifier.is_some() {
            let answer = reply.unwrap();
            if answer.interface_version != KEEPER_VERIFIER_INTERFACE_VERSION {
                return Err(KeeperError::IncompatibleVerifierInterface);
            }
            if !answer.approved {
                return Err(KeeperError::VerificationFailed);
            }
        }
        let i = match self.task_index(task_id) {
            Some(i) => i,
            None => {
                return Err(KeeperError::TaskNotFound);
            },
        };
        let mut task = self.tasks[i].duplicate();
        proof {
            assert(task@ == old(self)@.task(task_id));
            lemma_fee_within_reward(task.reward, self.fee_bps);
        }
        let (keeper_net, fee) = split_reward(task.reward, self.fee_bps)?;
        let current = self.stored_balance(keeper);
        let credited = match current.checked_add(keeper_net) {
            Some(c) => c,
            None => {
                return Err(KeeperError::ArithmeticOverflow);
            },
        };
        let accrued = if fee == 0 {
            self.fees_accrued
        } else {
            match self.fees_accrued.checked_add(fee) {
                Some(a) => a,
                None => {
                    return Err(KeeperError::ArithmeticOverflow);
                },
            }
        };
        let ghost before = self@;
        self.store_balance(keeper, credited);
        self.fees_accrued = accrued;
        task.status = TaskStatus::Executed;
        self.replace_task(task_id, i, task);
        proof {
            assert(self@.balances == before.balances.insert(keeper, credited));
        }
        Ok(keeper_net)
    }

    /// Owner takes back a pending task, or a claimed one whose lock window
    /// has lapsed; the escrow is to be refunded to the owner.
    pub fn cancel_task(&mut self, owner: Address, task_id: u64, ledger: LedgerInfo) -> (r: Result<Transfer, KeeperError>)
        requires
            old(self).wf(),
        ensures
            final(self).wf(),
            old(self)@.evolves_to(final(self)@),
            match r {
                Ok(t) => {
                    &&& old(self)@.cancel_error(owner, task_id, ledger) is None
                    &&& t == Transfer::Payout { to: owner, amount: old(self)@.task(task_id).reward }
                    &&& final(self)@ == old(self)@.with_task(
                        task_id,
                        TaskView { status: TaskStatus::Cancelled, ..old(self)@.task(task_id) },
                    )
                    &&& final(self)@.liabilities() == old(self)@.liabilities() + inflow(t)
                },
                Err(e) => old(self)@.cancel_error(owner, task_id, ledger) == Some(e)
                    && final(self)@ == old(self)@,
            },
    {
        let i = match self.task_index(task_id) {
            Some(i) => i,
            None => {
                return Err(KeeperError::TaskNotFound);
            },
        };
        let mut task = self.tasks[i].duplicate();
        if task.owner != owner {
            return Err(KeeperError::NotTaskOwner);
        }
        match task.status {
            TaskStatus::Pending => {},
            TaskStatus::Claimed => {
                if !lock_expired(task.claim_ledger, task.lock_ledgers, ledger.sequence) {
                    return Err(KeeperError::LockPeriodActive);
                }
            },
            _ => {
                return Err(KeeperError::InvalidTaskStatus);
            },
        }
        if self.reward_token.is_none() {
            return Err(KeeperError::NotInitialized);
        }
        let refund = task.reward;
        task.status = TaskStatus::Cancelled;
        self.replace_task(task_id, i, task);
        Ok(Transfer::Payout { to: owner, amount: refund })
    }

    /// Anyone expires a pending or claimed task whose deadline has passed;
    /// the escrow is to be refunded to the task's owner.
    pub fn expire_task(&mut self, task_id: u64, ledger: LedgerInfo) -> (r: Result<Transfer, KeeperError>)
        requires
            old(self).wf(),
        ensures
            final(self).wf(),
            old(self)@.evolves_to(final(self)@),
            match r {
                Ok(t) => {
                    &&& old(self)@.expire_error(task_id, ledger) is None
                    &&& t == Transfer::Payout {
                        to: old(self)@.task(task_id).owner,
                        amount: old(self)@.task(task_id).reward,
                    }
                    &&& final(self)@ == old(self)@.with_task(
                        task_id,
                        TaskView { status: TaskStatus::Expired, ..old(self)@.task(task_id) },
                    )
                    &&& final(self)@.liabilities() == old(self)@.liabilities() + inflow(t)
                },
                Err(e) => old(self)@.expire_error(task_id, ledger) == Some(e) && final(self)@
                    == old(self)@,
            },
    {
        let i = match self.task_index(task_id) {
            Some(i) => i,
            None => {
                return Err(KeeperError::TaskNotFound);
            },
        };
        let mut task = self.tasks[i].duplicate();
        match task.status {
            TaskStatus::Pending | TaskStatus::Claimed => {},
            _ => {
                return Err(KeeperError::InvalidTaskStatus);
            },
        }
        if ledger.timestamp < task.deadline {
            return Err(KeeperError::DeadlineNotPassed);
        }
        if self.reward_token.is_none() {
            return Err(KeeperError::NotInitialized);
        }
        let refund = task.reward;
        let owner = task.owner;
        task.status = TaskStatus::Expired;
        self.replace_task(task_id, i, task);
        Ok(Transfer::Payout { to: owner, amount: refund })
    }

    /// A keeper withdraws its whole balance (returned); the balance drops to
    /// zero and the amount is to be paid out to the keeper.
    pub fn withdraw_rewards(&mut self, keeper: Address) -> (r: Result<(i128, Transfer), KeeperError>)
        requires
            old(self).wf(),
        ensures
            final(self).wf(),
            old(self)@.evolves_to(final(self)@),
            match r {
                Ok((amount, t)) => {
                    &&& old(self)@.withdraw_error(keeper) is None
                    &&& amount == old(self)@.balance_of(keeper)
                    &&& t == Transfer::Payout { to: keeper, amount }
                    &&& final(self)@ == (RegistryView {
                        balances: old(self)@.balances.insert(keeper, 0),
                        credited_total: old(self)@.credited_total - amount,
                        ..old(self)@
                    })
                    &&& final(self)@.liabilities() == old(self)@.liabilities() + inflow(t)
                },
                Err(e) => old(self)@.withdraw_error(keeper) == Some(e) && final(self)@ == old(
                    self,
                )@,
            },
    {
        let balance = self.stored_balance(keeper);
        if balance <= 0 {
            return Err(KeeperError::NoRewardsAvailable);
        }
        if self.reward_token.is_none() {
            return Err(KeeperError::NotInitialized);
        }
        self.store_balance(keeper, 0);
        Ok((balance, Transfer::Payout { to: keeper, amount: balance }))
    }
}


/// The total of a list of non-negative balances is non-negative.
proof fn lemma_credit_sum_nonneg(s: Seq<KeeperBalance>)
    requires
        forall|i: int| 0 <= i < s.len() ==> #[trigger] s[i].amount >= 0,
    ensures
        credit_sum(s) >= 0,
    decreases s.len(),
{
    if s.len() > 0 {
        assert forall|i: int| 0 <= i < s.drop_last().len() implies #[trigger] s.drop_last()[i].amount
            >= 0 by {
            assert(s.drop_last()[i] == s[i]);
        }
        lemma_credit_sum_nonneg(s.drop_last());
    }
}

impl KeeperRegistry {
    /// The keeper credit of a well-formed registry is non-negative.
    pub proof fn lemma_credit_nonneg(&self)
        requires
            self.wf(),
        ensures
            self@.credited_total >= 0,
    {
        let s = self.balances@;
        assert forall|i: int| 0 <= i < s.len() implies #[trigger] s[i].amount >= 0 by {
            lemma_balances_map_index(s, i);
            assert(self@.balances.contains_key(s[i].keeper));
        }
        lemma_credit_sum_nonneg(s);
    }
}

/// The stored form of a registry: every field as a plain value, as a host
/// keeps it between calls.
pub struct RegistryParts {
    pub admin: Option<Address>,
    pub reward_token: Option<Address>,
    pub fee_bps: u32,
    pub paused: bool,
    pub min_reward: i128,
    pub fees_accrued: i128,
    /// Task `id` is `tasks[id - 1]`.
    pub tasks: Vec<Task>,
    /// One entry per credited keeper.
    pub balances: Vec<KeeperBalance>,
}

/// The registry state that stored parts describe.
pub open spec fn parts_view(p: RegistryParts) -> RegistryView {
    RegistryView {
        admin: p.admin,
        reward_token: p.reward_token,
        fee_bps: p.fee_bps,
        paused: p.paused,
        min_reward: p.min_reward,
        fees_accrued: p.fees_accrued,
        tasks: p.tasks@.map_values(|t: Task| t@),
        balances: balances_map(p.balances@),
        credited_total: credit_sum(p.balances@),
    }
}

/// Whether stored parts describe a registry its operations can reach: no
/// keeper listed twice and the state invariant.
pub open spec fn parts_ok(p: RegistryParts) -> bool {
    unique_keepers(p.balances@) && parts_view(p).valid()
}

/// Whether a stored task can occur: a positive reward, and its claimer and
/// claim ledger recorded when it is claimed.
pub open spec fn task_ok(t: Task) -> bool {
    &&& t.reward > 0
    &&& t.status == TaskStatus::Claimed ==> t.claimer is Some && t.claim_ledger is Some
}

/// Whether every stored task can occur.
fn tasks_ok(tasks: &Vec<Task>) -> (r: bool)
    ensures
        r == (forall|i: int| 0 <= i < tasks@.len() ==> task_ok(#[trigger] tasks@[i])),
{
    let mut i: usize = 0;
    while i < tasks.len()
        invariant
            i <= tasks@.len(),
            forall|j: int| 0 <= j < i ==> task_ok(#[trigger] tasks@[j]),
        decreases tasks@.len() - i,
    {
        let t = &tasks[i];
        if t.reward <= 0 {
            return false;
        }
        if t.status == TaskStatus::Claimed && (t.claimer.is_none() || t.claim_ledger.is_none()) {
            return false;
        }
        assert(task_ok(tasks@[i as int]));
        i = i + 1;
    }
    true
}

/// Whether no balance is negative and no keeper is listed twice.
fn balances_ok(balances: &Vec<KeeperBalance>) -> (r: bool)
    ensures
        r == (unique_keepers(balances@) && forall|i: int|
            0 <= i < balances@.len() ==> #[trigger] balances@[i].amount >= 0),
{
    let mut i: usize = 0;
    while i < balances.len()
        invariant
            i <= balances@.len(),
            forall|a: int, b: int| 0 <= a < b < balances@.len() && a < i ==> balances@[a].keeper
                != balances@[b].keeper,
            forall|a: int| 0 <= a < i ==> #[trigger] balances@[a].amount >= 0,
        decreases balances@.len() - i,
    {
        if balances[i].amount < 0 {
            return false;
        }
        let mut j: usize = i + 1;
        while j < balances.len()
            invariant
                i < balances@.len(),
                i + 1 <= j <= balances@.len(),
                forall|b: int| i < b < j ==> balances@[i as int].keeper != #[trigger] balances@[b].keeper,
            decreases balances@.len() - j,
        {
            if balances[i].keeper == balances[j].keeper {
                return false;
            }
            j = j + 1;
        }
        i = i + 1;
    }
    true
}

impl KeeperRegistry {
    /// Rebuilds a registry from stored parts, or `None` when the parts
    /// describe no reachable registry (a keeper listed twice, or a broken
    /// invariant).
    pub fn from_parts(parts: RegistryParts) -> (r: Option<KeeperRegistry>)
        ensures
            r is Some <==> parts_ok(parts),
            r matches Some(reg) ==> reg.wf() && reg@ == parts_view(parts),
    {
        let ghost pv = parts_view(parts);
        let ghost ps = parts;
        let scalars_ok = parts.fee_bps <= BPS_DENOMINATOR && parts.min_reward >= 0
            && parts.fees_accrued >= 0;
        let unset_ok = match parts.admin {
            Some(_) => true,
            None => parts.reward_token.is_none() && parts.fee_bps == DEFAULT_FEE_BPS
                && !parts.paused && parts.min_reward == 0 && parts.fees_accrued == 0
                && parts.tasks.len() == 0 && parts.balances.len() == 0,
        };
        let n_tasks = parts.tasks.len();
        let t_ok = tasks_ok(&parts.tasks);
        let b_ok = balances_ok(&parts.balances);
        proof {
            assert(pv.tasks.len() == ps.tasks@.len());
            assert(n_tasks as int <= u64::MAX);
            assert(forall|i: int| 0 <= i < ps.tasks@.len() ==> #[trigger] pv.tasks[i] == ps.tasks@[i]@);
            if unique_keepers(ps.balances@) {
                if b_ok {
                    assert forall|k: Address| #[trigger] pv.balances.contains_key(k) implies pv.balances[k]
                        >= 0 by {
                        lemma_balances_map_key(ps.balances@, k);
                        let i = choose|i: int| 0 <= i < ps.balances@.len() && ps.balances@[i].keeper == k;
                        lemma_balances_map_index(ps.balances@, i);
                    }
                } else {
                    let i = choose|i: int| 0 <= i < ps.balances@.len() && !(#[trigger] ps.balances@[i].amount >= 0);
                    lemma_balances_map_index(ps.balances@, i);
                    assert(pv.balances.contains_key(ps.balances@[i].keeper));
                }
            }
            if ps.balances@.len() == 0 {
                assert(pv.balances =~= Map::<Address, i128>::empty());
            } else {
                assert(pv.balances.contains_key(ps.balances@.last().keeper));
            }
            if !t_ok {
                let i = choose|i: int| 0 <= i < ps.tasks@.len() && !task_ok(#[trigger] ps.tasks@[i]);
                assert(pv.tasks[i] == ps.tasks@[i]@);
                assert(pv.tasks[i].reward == ps.tasks@[i].reward);
                assert(pv.tasks[i].status == ps.tasks@[i].status);
                assert(!pv.valid());
            }
        }
        if scalars_ok && unset_ok && t_ok && b_ok {
            let r = KeeperRegistry {
                admin: parts.admin,
                reward_token: parts.reward_token,
                fee_bps: parts.fee_bps,
                paused: parts.paused,
                min_reward: parts.min_reward,
                fees_accrued: parts.fees_accrued,
                tasks: parts.tasks,
                balances: parts.balances,
            };
            Some(r)
        } else {
            None
        }
    }

    /// The stored form of this registry.
    pub fn into_parts(self) -> (p: RegistryParts)
        requires
            self.wf(),
        ensures
            parts_ok(p),
            parts_view(p) == self@,
    {
        RegistryParts {
            admin: self.admin,
            reward_token: self.reward_token,
            fee_bps: self.fee_bps,
            paused: self.paused,
            min_reward: self.min_reward,
            fees_accrued: self.fees_accrued,
            tasks: self.tasks,
            balances: self.balances,
        }
    }
}

} // verus!

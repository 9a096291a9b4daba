//! Domain types of the keeper registry: accounts, tasks, their lifecycle
//! states, the error codes, and the protocol constants.
use vstd::prelude::*;

verus! {

/// An account known to the registry (task owner, keeper, admin, token,
/// verifier or treasury). The registry only ever compares accounts for
/// equality, so an account is an opaque identifier.
#[derive(Clone, Copy, PartialEq, Eq, Structural, Debug, Hash)]
pub struct Address(pub u64);

/// The kind of automation a task represents.
#[derive(Clone, Copy, PartialEq, Eq, Structural, Debug)]
pub enum TaskType {
    Liquidation,
    OraclePricePush,
    FundingRateUpdate,
    LiquidityRebalance,
    TtlExtension,
    Custom,
}

/// Lifecycle state of a task.
///
/// ```text
/// PENDING ──claim──▶ CLAIMED ──execute──▶ EXECUTED
///    │                  │
///  cancel             expire (deadline passed)
///    ▼                  ▼
/// CANCELLED          EXPIRED
/// ```
#[derive(Clone, Copy, PartialEq, Eq, Structural, Debug)]
pub enum TaskStatus {
    Pending,
    Claimed,
    Executed,
    Cancelled,
    Expired,
}

/// Every error the registry can report. The numeric codes are those of the
/// declaration order, starting at 1.
#[derive(Clone, Copy, PartialEq, Eq, Structural, Debug)]
pub enum KeeperError {
    AlreadyInitialized,
    Unauthorized,
    ContractPaused,
    TaskNotFound,
    InvalidTaskStatus,
    DeadlinePassed,
    DeadlineNotPassed,
    InvalidReward,
    LockPeriodActive,
    InvalidFeeBps,
    NotTaskOwner,
    NotTaskClaimer,
    NoRewardsAvailable,
    /// `proof` passed to `execute_task` exceeded `MAX_PROOF_LEN`.
    ProofTooLarge,
    /// A call needing configured state reached a registry that is not
    /// configured.
    NotInitialized,
    /// `ttl_ledgers` does not cover the task's deadline plus the margin.
    TtlTooShort,
    /// `calldata` exceeds `MAX_CALLDATA_LEN`.
    CalldataTooLarge,
    /// `lock_ledgers` or `ttl_ledgers` outside their bounds.
    InvalidTaskParams,
    /// The task's verifier rejected the proof.
    VerificationFailed,
    /// An arithmetic operation would overflow.
    ArithmeticOverflow,
    /// The verifier reported an interface version other than
    /// `KEEPER_VERIFIER_INTERFACE_VERSION`.
    IncompatibleVerifierInterface,
    /// A batch exceeded its size bound.
    BatchTooLarge,
    /// A batch registration was given no entries.
    EmptyBatch,
    /// The rewards of a batch add up to more than the caller's ceiling.
    BatchRewardCeilingExceeded,
}

impl KeeperError {
    /// The contract error code of each error: its position in the
    /// declaration, starting at 1.
    pub open spec fn spec_code(self) -> u32 {
        match self {
            KeeperError::AlreadyInitialized => 1,
            KeeperError::Unauthorized => 2,
            KeeperError::ContractPaused => 3,
            KeeperError::TaskNotFound => 4,
            KeeperError::InvalidTaskStatus => 5,
            KeeperError::DeadlinePassed => 6,
            KeeperError::DeadlineNotPassed => 7,
            KeeperError::InvalidReward => 8,
            KeeperError::LockPeriodActive => 9,
            KeeperError::InvalidFeeBps => 10,
            KeeperError::NotTaskOwner => 11,
            KeeperError::NotTaskClaimer => 12,
            KeeperError::NoRewardsAvailable => 13,
            KeeperError::ProofTooLarge => 14,
            KeeperError::NotInitialized => 15,
            KeeperError::TtlTooShort => 16,
            KeeperError::CalldataTooLarge => 17,
            KeeperError::InvalidTaskParams => 18,
            KeeperError::VerificationFailed => 19,
            KeeperError::ArithmeticOverflow => 20,
            KeeperError::IncompatibleVerifierInterface => 21,
            KeeperError::BatchTooLarge => 22,
            KeeperError::EmptyBatch => 23,
            KeeperError::BatchRewardCeilingExceeded => 24,
        }
    }

    /// The contract error code of this error.
    pub fn code(&self) -> (r: u32)
        ensures
            r == self.spec_code(),
            1 <= r <= 24,
    {
        match self {
            KeeperError::AlreadyInitialized => 1,
            KeeperError::Unauthorized => 2,
            KeeperError::ContractPaused => 3,
            KeeperError::TaskNotFound => 4,
            KeeperError::InvalidTaskStatus => 5,
            KeeperError::DeadlinePassed => 6,
            KeeperError::DeadlineNotPassed => 7,
            KeeperError::InvalidReward => 8,
            KeeperError::LockPeriodActive => 9,
            KeeperError::InvalidFeeBps => 10,
            KeeperError::NotTaskOwner => 11,
            KeeperError::NotTaskClaimer => 12,
            KeeperError::NoRewardsAvailable => 13,
            KeeperError::ProofTooLarge => 14,
            KeeperError::NotInitialized => 15,
            KeeperError::TtlTooShort => 16,
            KeeperError::CalldataTooLarge => 17,
            KeeperError::InvalidTaskParams => 18,
            KeeperError::VerificationFailed => 19,
            KeeperError::ArithmeticOverflow => 20,
            KeeperError::IncompatibleVerifierInterface => 21,
            KeeperError::BatchTooLarge => 22,
            KeeperError::EmptyBatch => 23,
            KeeperError::BatchRewardCeilingExceeded => 24,
        }
    }
}

/// Full task record.
#[derive(Clone, PartialEq, Eq, Debug)]
pub struct Task {
    /// Account that registered and funded the task.
    pub owner: Address,
    pub task_type: TaskType,
    /// Bytes the keeper uses to form the target call off-chain.
    pub calldata: Vec<u8>,
    /// Reward held in escrow for the task.
    pub reward: i128,
    /// Unix timestamp (seconds) after which the task may be expired.
    pub deadline: u64,
    /// Storage lifetime of the task entry, in ledgers.
    pub ttl_ledgers: u32,
    pub status: TaskStatus,
    /// Set when a keeper claims the task.
    pub claimer: Option<Address>,
    /// Ledger sequence at claim time.
    pub claim_ledger: Option<u32>,
    /// Ledgers the claimer holds exclusive rights before re-claim.
    pub lock_ledgers: u32,
    /// Optional proof-verification contract.
    pub verifier: Option<Address>,
}

/// The mathematical value of a [`Task`]: its calldata as a sequence.
pub struct TaskView {
    pub owner: Address,
    pub task_type: TaskType,
    pub calldata: Seq<u8>,
    pub reward: i128,
    pub deadline: u64,
    pub ttl_ledgers: u32,
    pub status: TaskStatus,
    pub claimer: Option<Address>,
    pub claim_ledger: Option<u32>,
    pub lock_ledgers: u32,
    pub verifier: Option<Address>,
}

impl View for Task {
    type V = TaskView;

    open spec fn view(&self) -> TaskView {
        TaskView {
            owner: self.owner,
            task_type: self.task_type,
            calldata: self.calldata@,
            reward: self.reward,
            deadline: self.deadline,
            ttl_ledgers: self.ttl_ledgers,
            status: self.status,
            claimer: self.claimer,
            claim_ledger: self.claim_ledger,
            lock_ledgers: self.lock_ledgers,
            verifier: self.verifier,
        }
    }
}

impl Task {
    /// A task equal to this one.
    pub fn duplicate(&self) -> (r: Task)
        ensures
            r@ == self@,
    {
        let calldata = self.calldata.clone();
        assert(calldata@ =~= self.calldata@);
        Task {
            owner: self.owner,
            task_type: self.task_type,
            calldata,
            reward: self.reward,
            deadline: self.deadline,
            ttl_ledgers: self.ttl_ledgers,
            status: self.status,
            claimer: self.claimer,
            claim_ledger: self.claim_ledger,
            lock_ledgers: self.lock_ledgers,
            verifier: self.verifier,
        }
    }
}

/// One entry of a batch registration. Every task of a batch is owned by the
/// single account that authorises the batch and carries no verifier.
#[derive(Clone, PartialEq, Eq, Debug)]
pub struct BatchTaskParams {
    pub task_type: TaskType,
    pub calldata: Vec<u8>,
    pub reward: i128,
    pub deadline: u64,
    pub ttl_ledgers: u32,
    pub lock_ledgers: u32,
}

/// The current ledger as the registry sees it.
#[derive(Clone, Copy, PartialEq, Eq, Structural, Debug)]
pub struct LedgerInfo {
    /// Unix time of the ledger close, in seconds.
    pub timestamp: u64,
    /// Ledger sequence number.
    pub sequence: u32,
}

/// A token movement that a successful registry call asks its host to make
/// with the reward token. A deposit moves funds from an account into the
/// registry (made before the new state is stored); a payout moves funds out
/// of the registry to an account (made after the new state is stored).
#[derive(Clone, Copy, PartialEq, Eq, Structural, Debug)]
pub enum Transfer {
    Deposit { from: Address, amount: i128 },
    Payout { to: Address, amount: i128 },
}

/// The answer of a task's verifier, as reported by its host.
#[derive(Clone, Copy, PartialEq, Eq, Structural, Debug)]
pub struct VerifierReply {
    /// What the verifier's `interface_version` returned.
    pub interface_version: u32,
    /// What the verifier's `verify` returned.
    pub approved: bool,
}

/// A keeper's withdrawable balance entry.
#[derive(Clone, Copy, PartialEq, Eq, Structural, Debug)]
pub struct KeeperBalance {
    pub keeper: Address,
    pub amount: i128,
}

/// Version of the registry logic.
pub const VERSION: u32 = 3;

/// Maximum `calldata` length, in bytes.
pub const MAX_CALLDATA_LEN: u32 = 1024;

/// Maximum length, in bytes, of the proof accepted by `execute_task`.
pub const MAX_PROOF_LEN: u32 = 256;

/// Maximum number of ids a single batch read accepts.
pub const MAX_BATCH_READ: u32 = 50;

/// Maximum number of entries of one batch registration.
pub const MAX_BATCH_SIZE: u32 = 32;

/// The same bound as [`MAX_BATCH_SIZE`], under the name the batch fuzzing
/// helpers use.
pub const MAX_BATCH_ENTRIES: u32 = 32;

/// Shortest lock window a task may be registered with (about a minute).
pub const MIN_LOCK_LEDGERS: u32 = 12;

/// Longest lock window a task may be registered with (about a day).
pub const MAX_LOCK_LEDGERS: u32 = 17_280;

/// Shortest storage lifetime a task may be registered with.
pub const MIN_TTL_LEDGERS: u32 = 1_000;

/// Approximate seconds per ledger, used to convert a deadline into ledgers.
pub const SECONDS_PER_LEDGER: u64 = 5;

/// Ledgers kept beyond a task's deadline.
pub const TTL_SAFETY_MARGIN_LEDGERS: u32 = 17_280;

/// Fee applied while no fee has been configured.
pub const DEFAULT_FEE_BPS: u32 = 0;

/// Basis points in one whole.
pub const BPS_DENOMINATOR: u32 = 10_000;

/// Calling-convention version a task verifier must report.
pub const KEEPER_VERIFIER_INTERFACE_VERSION: u32 = 1;

/// Ledgers of instance-storage lifetime requested on each mutating call.
pub const INSTANCE_BUMP_LEDGERS: u32 = 100_000;

/// Instance lifetime is renewed once fewer than this many ledgers remain.
pub const INSTANCE_BUMP_THRESHOLD: u32 = 50_000;

/// Ledgers of lifetime requested for a keeper balance entry when credited.
pub const KEEPER_BALANCE_BUMP_LEDGERS: u32 = 100_000;

/// A keeper balance entry is renewed once fewer than this many ledgers remain.
pub const KEEPER_BALANCE_BUMP_THRESHOLD: u32 = 50_000;

} // verus!

use std::collections::HashMap;

use keeper_registry::registry::KeeperRegistry;
use keeper_registry::rules::split_reward;
use keeper_registry::types::{
    Address, BatchTaskParams, KeeperError, LedgerInfo, Task, TaskStatus, TaskType, Transfer,
    MAX_BATCH_READ, MAX_BATCH_SIZE, MAX_CALLDATA_LEN, MAX_LOCK_LEDGERS, MAX_PROOF_LEN,
    MIN_LOCK_LEDGERS, MIN_TTL_LEDGERS,
};

/// Storage lifetime that covers a deadline one hour out plus the safety
/// margin (3_600 / 5 + 17_280 = 18_000 ledgers are required).
const DEFAULT_TTL_LEDGERS: u32 = 20_000;

/// A registry together with the reward token's balances and the ledger it
/// runs on. Every `Transfer` a call asks for is carried out on the token
/// balances, as the contract host does.
struct Setup {
    registry: KeeperRegistry,
    ledger: LedgerInfo,
    tokens: HashMap<Address, i128>,
    next_address: u64,
    registry_address: Address,
    admin: Address,
    token_id: Address,
}

impl Setup {
    /// A registry that `initialize` has never touched.
    fn uninitialized() -> Setup {
        let mut s = Setup {
            registry: KeeperRegistry::new(),
            ledger: LedgerInfo { timestamp: 0, sequence: 0 },
            tokens: HashMap::new(),
            next_address: 1,
            registry_address: Address(0),
            admin: Address(0),
            token_id: Address(0),
        };
        s.registry_address = s.generate();
        s.admin = s.generate();
        s.token_id = s.generate();
        s
    }

    /// An initialized registry (3% fee) whose admin holds `minted` tokens.
    fn with_mint(minted: i128) -> Setup {
        let mut s = Setup::uninitialized();
        s.mint(s.admin, minted);
        let (admin, token) = (s.admin, s.token_id);
        s.registry.initialize(admin, token, 300).unwrap();
        s
    }

    fn new() -> Setup {
        Setup::with_mint(10_000_000)
    }

    fn generate(&mut self) -> Address {
        let a = Address(self.next_address);
        self.next_address += 1;
        a
    }

    fn mint(&mut self, to: Address, amount: i128) {
        *self.tokens.entry(to).or_insert(0) += amount;
    }

    fn balance(&self, who: Address) -> i128 {
        *self.tokens.get(&who).unwrap_or(&0)
    }

    fn move_funds(&mut self, from: Address, to: Address, amount: i128) {
        assert!(self.balance(from) >= amount, "insufficient token balance");
        *self.tokens.entry(from).or_insert(0) -= amount;
        *self.tokens.entry(to).or_insert(0) += amount;
    }

    fn settle(&mut self, transfer: Transfer) {
        let registry = self.registry_address;
        match transfer {
            Transfer::Deposit { from, amount } => self.move_funds(from, registry, amount),
            Transfer::Payout { to, amount } => self.move_funds(registry, to, amount),
        }
    }

    fn now(&self) -> u64 {
        self.ledger.timestamp
    }

    fn advance(&mut self, ledgers: u32, seconds: u64) {
        self.ledger.sequence += ledgers;
        self.ledger.timestamp += seconds;
    }

    fn goto_ledger(&mut self, target: u32) {
        let current = self.ledger.sequence;
        self.advance(target - current, 0);
    }

    #[allow(clippy::too_many_arguments)]
    fn register_task(
        &mut self,
        owner: Address,
        task_type: TaskType,
        calldata: &[u8],
        reward: i128,
        deadline: u64,
        ttl_ledgers: u32,
        lock_ledgers: u32,
    ) -> Result<u64, KeeperError> {
        let ledger = self.ledger;
        let (id, transfer) = self.registry.register_task(
            owner,
            task_type,
            calldata.to_vec(),
            reward,
            deadline,
            ttl_ledgers,
            lock_ledgers,
            None,
            ledger,
        )?;
        self.settle(transfer);
        Ok(id)
    }

    fn batch_register(
        &mut self,
        owner: Address,
        tasks: Vec<BatchTaskParams>,
        max_total_reward: i128,
    ) -> Result<Vec<u64>, KeeperError> {
        let ledger = self.ledger;
        let (ids, transfer) =
            self.registry.batch_register_tasks(owner, tasks, max_total_reward, ledger)?;
        self.settle(transfer);
        Ok(ids)
    }

    fn increase_reward(&mut self, owner: Address, id: u64, additional: i128) -> Result<(), KeeperError> {
        let transfer = self.registry.increase_reward(owner, id, additional)?;
        self.settle(transfer);
        Ok(())
    }

    fn extend_deadline(&mut self, owner: Address, id: u64, new_deadline: u64) -> Result<(), KeeperError> {
        let ledger = self.ledger;
        self.registry.extend_deadline(owner, id, new_deadline, ledger)
    }

    fn claim(&mut self, keeper: Address, id: u64) -> Result<(), KeeperError> {
        let ledger = self.ledger;
        self.registry.claim_task(keeper, id, ledger)
    }

    fn execute(&mut self, keeper: Address, id: u64, proof: &[u8]) -> Result<i128, KeeperError> {
        let ledger = self.ledger;
        self.registry.execute_task(keeper, id, &proof.to_vec(), ledger, None)
    }

    fn cancel(&mut self, owner: Address, id: u64) -> Result<(), KeeperError> {
        let ledger = self.ledger;
        let transfer = self.registry.cancel_task(owner, id, ledger)?;
        self.settle(transfer);
        Ok(())
    }

    fn expire(&mut self, id: u64) -> Result<(), KeeperError> {
        let ledger = self.ledger;
        let transfer = self.registry.expire_task(id, ledger)?;
        self.settle(transfer);
        Ok(())
    }

    fn withdraw(&mut self, keeper: Address) -> Result<i128, KeeperError> {
        let (amount, transfer) = self.registry.withdraw_rewards(keeper)?;
        self.settle(transfer);
        Ok(amount)
    }

    fn sweep(&mut self, admin: Address, treasury: Address, amount: i128) -> Result<(), KeeperError> {
        let transfer = self.registry.sweep_fees(admin, treasury, amount)?;
        self.settle(transfer);
        Ok(())
    }

    fn is_claimable(&self, id: u64) -> bool {
        self.registry.is_claimable(id, self.ledger)
    }

    fn task(&self, id: u64) -> Task {
        self.registry.get_task(id).unwrap()
    }

    fn registry_balance(&self) -> i128 {
        self.balance(self.registry_address)
    }
}

fn calldata() -> Vec<u8> {
    b"liquidate:position:42".to_vec()
}

/// Registers a standard 1-hour task funded by the admin.
fn register_default_task(s: &mut Setup) -> u64 {
    register_reward_task(s, 1_000_000)
}

fn register_reward_task(s: &mut Setup, reward: i128) -> u64 {
    let deadline = s.now() + 3_600;
    let admin = s.admin;
    s.register_task(
        admin,
        TaskType::Liquidation,
        &calldata(),
        reward,
        deadline,
        DEFAULT_TTL_LEDGERS,
        120,
    )
    .unwrap()
}

/// Drives a full register → claim → execute cycle and returns the keeper.
fn executed_task_keeper(s: &mut Setup) -> Address {
    let keeper = s.generate();
    let id = register_default_task(s);
    s.claim(keeper, id).unwrap();
    s.execute(keeper, id, b"proof").unwrap();
    keeper
}

/// Registers a task with `lock_ledgers`, claims it as `keeper`, and returns
/// the id and the first ledger at which the lock has lapsed.
fn claim_with_lock(s: &mut Setup, keeper: Address, lock_ledgers: u32) -> (u64, u32) {
    let deadline = s.now() + 3_600;
    let admin = s.admin;
    let id = s
        .register_task(
            admin,
            TaskType::Liquidation,
            &calldata(),
            1_000_000,
            deadline,
            DEFAULT_TTL_LEDGERS,
            lock_ledgers,
        )
        .unwrap();
    s.claim(keeper, id).unwrap();
    let claim_ledger = s.task(id).claim_ledger.unwrap();
    (id, claim_ledger + lock_ledgers)
}

fn batch_entry(s: &Setup, reward: i128) -> BatchTaskParams {
    BatchTaskParams {
        task_type: TaskType::Liquidation,
        calldata: calldata(),
        reward,
        deadline: s.now() + 3_600,
        ttl_ledgers: DEFAULT_TTL_LEDGERS,
        lock_ledgers: 120,
    }
}

fn batch_of(s: &Setup, n: u32, reward: i128) -> Vec<BatchTaskParams> {
    (0..n).map(|_| batch_entry(s, reward)).collect()
}

// ── end to end ──────────────────────────────────────────────────────────────

fn multi_keeper_end_to_end_conserves_funds() {
    let mut s = Setup::new();
    let k1 = s.generate();
    let k2 = s.generate();

    let t_exec = register_default_task(&mut s);
    let t_expire = register_default_task(&mut s);
    let t_cancel = register_default_task(&mut s);
    assert_eq!(s.registry_balance(), 3_000_000);

    s.claim(k1, t_exec).unwrap();
    s.execute(k1, t_exec, b"p1").unwrap();

    s.claim(k2, t_expire).unwrap();
    let admin = s.admin;
    s.cancel(admin, t_cancel).unwrap();

    s.advance(200, 3_601);
    s.expire(t_expire).unwrap();

    assert_eq!(s.withdraw(k1), Ok(970_000));
    let treasury = s.generate();
    s.sweep(admin, treasury, 30_000).unwrap();

    assert_eq!(s.registry_balance(), 0);
    assert_eq!(s.balance(k1), 970_000);
    assert_eq!(s.balance(treasury), 30_000);
    assert_eq!(s.registry.fees_accrued(), 0);
}

#[test]
fn test_test_multi_keeper_end_to_end_conserves_funds() {
    multi_keeper_end_to_end_conserves_funds();
}

#[test]
fn integration_test_multi_keeper_end_to_end_conserves_funds() {
    multi_keeper_end_to_end_conserves_funds();
}

// ── split_reward ────────────────────────────────────────────────────────────

#[test]
fn test_split_reward_invariants() {
    let rewards = [1i128, 2, 7, 100, 999, 1_000_000, 7_777_777, i128::from(u64::MAX)];
    let fee_rates = [0u32, 1, 3, 250, 300, 1_000, 5_000, 9_999, 10_000];
    for &reward in &rewards {
        for &bps in &fee_rates {
            let (keeper_net, fee) = split_reward(reward, bps).expect("split should succeed");
            assert_eq!(keeper_net + fee, reward, "reward={reward} bps={bps}");
            assert!(keeper_net >= 0 && fee >= 0, "reward={reward} bps={bps}");
            assert!(fee <= reward, "reward={reward} bps={bps}");
            assert_eq!(fee, reward * bps as i128 / 10_000, "reward={reward} bps={bps}");
        }
    }
}

#[test]
fn test_split_reward_extreme_value_returns_overflow_error() {
    let extreme_reward = i128::MAX / 9_999;
    assert_eq!(split_reward(extreme_reward, 10_000), Err(KeeperError::ArithmeticOverflow));
}

#[test]
fn test_split_reward_max_safe_value_succeeds() {
    let safe_reward = i128::MAX / 10_000;
    let result = split_reward(safe_reward, 300);
    assert!(result.is_ok());
    let (keeper_net, fee) = result.unwrap();
    assert_eq!(keeper_net + fee, safe_reward);
}

#[test]
fn test_split_reward_with_zero_fee_never_overflows() {
    let result = split_reward(i128::MAX, 0);
    assert!(result.is_ok());
    let (keeper_net, fee) = result.unwrap();
    assert_eq!(keeper_net, i128::MAX);
    assert_eq!(fee, 0);
}

// ── initialize ──────────────────────────────────────────────────────────────

#[test]
fn test_version_is_exposed() {
    let s = Setup::new();
    assert_eq!(s.registry.version(), 3u32);
}

#[test]
fn test_initialize_sets_state() {
    let mut s = Setup::uninitialized();
    let (admin, token) = (s.admin, s.token_id);
    s.registry.initialize(admin, token, 300).unwrap();

    assert_eq!(s.registry.admin(), Some(admin));
    assert_eq!(s.registry.get_fee_bps(), 300u32);
    assert!(!s.registry.is_paused());
    assert_eq!(s.registry.reward_token_address(), Some(token));
    assert_eq!(s.registry.task_count(), 0u64);
}

#[test]
fn test_initialize_twice_fails() {
    let mut s = Setup::uninitialized();
    let (admin, token) = (s.admin, s.token_id);
    s.registry.initialize(admin, token, 300).unwrap();
    assert_eq!(s.registry.initialize(admin, token, 300), Err(KeeperError::AlreadyInitialized));
}

#[test]
fn test_initialize_fee_over_10000_fails() {
    let mut s = Setup::uninitialized();
    let (admin, token) = (s.admin, s.token_id);
    assert_eq!(s.registry.initialize(admin, token, 10_001), Err(KeeperError::InvalidFeeBps));
}

// ── register_task ───────────────────────────────────────────────────────────

#[test]
fn test_register_task_success() {
    let mut s = Setup::with_mint(5_000_000);
    let deadline = s.now() + 3_600;
    let admin = s.admin;
    let task_id = s
        .register_task(admin, TaskType::Liquidation, &calldata(), 1_000_000, deadline, DEFAULT_TTL_LEDGERS, 120)
        .unwrap();

    assert_eq!(task_id, 1u64);
    assert_eq!(s.registry.task_count(), 1u64);
    let task = s.task(1);
    assert_eq!(task.owner, admin);
    assert_eq!(task.status, TaskStatus::Pending);
    assert_eq!(task.reward, 1_000_000);
    assert_eq!(task.deadline, deadline);
    assert!(task.claimer.is_none());
}

#[test]
fn test_register_task_escrows_reward() {
    let mut s = Setup::with_mint(5_000_000);
    let admin = s.admin;
    let owner_before = s.balance(admin);
    let deadline = s.now() + 3_600;
    s.register_task(admin, TaskType::Custom, &calldata(), 1_000_000, deadline, DEFAULT_TTL_LEDGERS, 120)
        .unwrap();
    assert_eq!(s.balance(admin), owner_before - 1_000_000);
    assert_eq!(s.registry_balance(), 1_000_000);
}

#[test]
fn test_register_task_zero_reward_fails() {
    let mut s = Setup::with_mint(0);
    let admin = s.admin;
    let deadline = s.now() + 3_600;
    assert_eq!(
        s.register_task(admin, TaskType::Custom, &calldata(), 0, deadline, DEFAULT_TTL_LEDGERS, 120),
        Err(KeeperError::InvalidReward)
    );
}

#[test]
fn test_register_task_past_deadline_fails() {
    let mut s = Setup::with_mint(0);
    let admin = s.admin;
    let past = s.now().saturating_sub(1);
    assert_eq!(
        s.register_task(admin, TaskType::Custom, &calldata(), 1_000_000, past, DEFAULT_TTL_LEDGERS, 120),
        Err(KeeperError::DeadlinePassed)
    );
}

#[test]
fn test_register_increments_task_counter() {
    let mut s = Setup::new();
    let admin = s.admin;
    let deadline = s.now() + 3_600;
    for expected_id in 1u64..=3 {
        let id = s
            .register_task(admin, TaskType::TtlExtension, &calldata(), 100_000, deadline, DEFAULT_TTL_LEDGERS, 60)
            .unwrap();
        assert_eq!(id, expected_id);
    }
    assert_eq!(s.registry.task_count(), 3u64);
}

#[test]
fn test_register_task_ttl_shorter_than_deadline_fails() {
    let mut s = Setup::with_mint(5_000_000);
    let admin = s.admin;
    let deadline = s.now() + 2_592_000;
    assert_eq!(
        s.register_task(admin, TaskType::Liquidation, &calldata(), 1_000_000, deadline, 17_280, 120),
        Err(KeeperError::TtlTooShort)
    );
    assert_eq!(s.registry.task_count(), 0u64);
}

#[test]
fn test_register_task_with_max_calldata_succeeds() {
    let mut s = Setup::with_mint(5_000_000);
    let admin = s.admin;
    let deadline = s.now() + 3_600;
    let max_calldata = vec![0u8; MAX_CALLDATA_LEN as usize];
    let id = s
        .register_task(admin, TaskType::Custom, &max_calldata, 1_000_000, deadline, DEFAULT_TTL_LEDGERS, 120)
        .unwrap();
    assert_eq!(s.task(id).calldata.len(), MAX_CALLDATA_LEN as usize);
}

#[test]
fn test_register_task_over_max_calldata_fails() {
    let mut s = Setup::with_mint(0);
    let admin = s.admin;
    let deadline = s.now() + 3_600;
    let oversized = vec![0u8; MAX_CALLDATA_LEN as usize + 1];
    assert_eq!(
        s.register_task(admin, TaskType::Custom, &oversized, 1_000_000, deadline, DEFAULT_TTL_LEDGERS, 120),
        Err(KeeperError::CalldataTooLarge)
    );
    assert_eq!(s.registry.task_count(), 0u64);
}

#[test]
fn test_register_task_ttl_covering_deadline_succeeds() {
    let mut s = Setup::new();
    let id = register_default_task(&mut s);
    assert_eq!(s.task(id).status, TaskStatus::Pending);
}

#[test]
fn test_extend_deadline_ttl_too_short_fails() {
    let mut s = Setup::new();
    let id = register_default_task(&mut s);
    let old = s.task(id).deadline;
    let admin = s.admin;
    assert_eq!(s.extend_deadline(admin, id, old + 1_000_000), Err(KeeperError::TtlTooShort));
    assert_eq!(s.task(id).deadline, old);
}

#[test]
fn test_expire_task_succeeds_past_old_ttl_boundary() {
    let mut s = Setup::new();
    let keeper = s.generate();
    let admin = s.admin;
    let before = s.balance(admin);
    let deadline = s.now() + 172_800;
    let required = 172_800 / 5 + 17_280;
    let id = s
        .register_task(admin, TaskType::Liquidation, &calldata(), 1_000_000, deadline, required as u32, 120)
        .unwrap();
    s.claim(keeper, id).unwrap();
    s.advance(40_000, 172_801);
    s.expire(id).unwrap();
    assert_eq!(s.balance(admin), before);
    assert_eq!(s.task(id).status, TaskStatus::Expired);
}

#[test]
fn test_register_task_with_empty_calldata_succeeds() {
    let mut s = Setup::with_mint(5_000_000);
    let admin = s.admin;
    let deadline = s.now() + 3_600;
    let id = s
        .register_task(admin, TaskType::TtlExtension, &[], 1_000_000, deadline, DEFAULT_TTL_LEDGERS, 120)
        .unwrap();
    assert_eq!(s.task(id).calldata.len(), 0);
}

#[test]
fn test_register_task_lock_ledgers_below_min_fails() {
    let mut s = Setup::new();
    let admin = s.admin;
    let deadline = s.now() + 3_600;
    assert_eq!(
        s.register_task(admin, TaskType::Custom, &calldata(), 1_000_000, deadline, DEFAULT_TTL_LEDGERS, MIN_LOCK_LEDGERS - 1),
        Err(KeeperError::InvalidTaskParams)
    );
}

#[test]
fn test_register_task_lock_ledgers_at_min_succeeds() {
    let mut s = Setup::new();
    let admin = s.admin;
    let deadline = s.now() + 3_600;
    let id = s
        .register_task(admin, TaskType::Custom, &calldata(), 1_000_000, deadline, DEFAULT_TTL_LEDGERS, MIN_LOCK_LEDGERS)
        .unwrap();
    assert_eq!(s.task(id).lock_ledgers, MIN_LOCK_LEDGERS);
}

#[test]
fn test_register_task_lock_ledgers_above_max_fails() {
    let mut s = Setup::new();
    let admin = s.admin;
    let deadline = s.now() + 3_600;
    assert_eq!(
        s.register_task(admin, TaskType::Custom, &calldata(), 1_000_000, deadline, DEFAULT_TTL_LEDGERS, MAX_LOCK_LEDGERS + 1),
        Err(KeeperError::InvalidTaskParams)
    );
}

#[test]
fn test_register_task_lock_ledgers_at_max_succeeds() {
    let mut s = Setup::new();
    let admin = s.admin;
    let deadline = s.now() + 3_600;
    let id = s
        .register_task(admin, TaskType::Custom, &calldata(), 1_000_000, deadline, DEFAULT_TTL_LEDGERS, MAX_LOCK_LEDGERS)
        .unwrap();
    assert_eq!(s.task(id).lock_ledgers, MAX_LOCK_LEDGERS);
}

#[test]
fn test_register_task_ttl_ledgers_below_min_fails() {
    let mut s = Setup::new();
    let admin = s.admin;
    let deadline = s.now() + 3_600;
    assert_eq!(
        s.register_task(admin, TaskType::Custom, &calldata(), 1_000_000, deadline, MIN_TTL_LEDGERS - 1, 120),
        Err(KeeperError::InvalidTaskParams)
    );
}

// ── batch_register_tasks ────────────────────────────────────────────────────

fn batch_registers_all_and_returns_ids_in_order() {
    let mut s = Setup::new();
    let tasks = batch_of(&s, 3, 1_000_000);
    let admin = s.admin;
    let ids = s.batch_register(admin, tasks, 3_000_000).unwrap();

    assert_eq!(ids.len(), 3);
    assert_eq!(ids[1], ids[0] + 1);
    assert_eq!(ids[2], ids[1] + 1);
    for &id in &ids {
        let task = s.task(id);
        assert_eq!(task.owner, admin);
        assert_eq!(task.status, TaskStatus::Pending);
        assert_eq!(task.reward, 1_000_000);
    }
    assert_eq!(s.registry_balance(), 3_000_000);
    assert_eq!(s.registry.task_count(), 3);
}

#[test]
fn test_test_batch_register_registers_all_and_returns_ids_in_order() {
    batch_registers_all_and_returns_ids_in_order();
}

#[test]
fn batch_test_batch_register_registers_all_and_returns_ids_in_order() {
    batch_registers_all_and_returns_ids_in_order();
}

fn batch_ceiling_rejects_whole_batch() {
    let mut s = Setup::new();
    let tasks = batch_of(&s, 3, 1_000_000);
    let admin = s.admin;
    assert_eq!(
        s.batch_register(admin, tasks, 2_999_999),
        Err(KeeperError::BatchRewardCeilingExceeded)
    );
    assert_eq!(s.registry_balance(), 0);
    assert_eq!(s.registry.task_count(), 0);
}

#[test]
fn test_test_batch_register_max_total_reward_ceiling_rejects_whole_batch() {
    batch_ceiling_rejects_whole_batch();
}

#[test]
fn batch_test_batch_register_max_total_reward_ceiling_rejects_whole_batch() {
    batch_ceiling_rejects_whole_batch();
}

fn batch_accepts_ceiling_set_to_exact_sum() {
    let mut s = Setup::new();
    let tasks = batch_of(&s, 2, 1_000_000);
    let admin = s.admin;
    let ids = s.batch_register(admin, tasks, 2_000_000).unwrap();
    assert_eq!(ids.len(), 2);
}

#[test]
fn test_test_batch_register_accepts_ceiling_set_to_exact_sum() {
    batch_accepts_ceiling_set_to_exact_sum();
}

#[test]
fn batch_test_batch_register_accepts_ceiling_set_to_exact_sum() {
    batch_accepts_ceiling_set_to_exact_sum();
}

fn batch_rejects_batch_over_max_size() {
    let mut s = Setup::new();
    let tasks = batch_of(&s, MAX_BATCH_SIZE + 1, 1);
    let admin = s.admin;
    assert_eq!(s.batch_register(admin, tasks, i128::MAX), Err(KeeperError::BatchTooLarge));
    assert_eq!(s.registry_balance(), 0);
    assert_eq!(s.registry.task_count(), 0);
}

#[test]
fn test_test_batch_register_rejects_batch_over_max_size() {
    batch_rejects_batch_over_max_size();
}

#[test]
fn batch_test_batch_register_rejects_batch_over_max_size() {
    batch_rejects_batch_over_max_size();
}

fn batch_accepts_exactly_max_batch_size() {
    let mut s = Setup::new();
    let tasks = batch_of(&s, MAX_BATCH_SIZE, 1);
    let admin = s.admin;
    let ids = s.batch_register(admin, tasks, MAX_BATCH_SIZE as i128).unwrap();
    assert_eq!(ids.len(), MAX_BATCH_SIZE as usize);
}

#[test]
fn test_test_batch_register_accepts_exactly_max_batch_size() {
    batch_accepts_exactly_max_batch_size();
}

#[test]
fn batch_test_batch_register_accepts_exactly_max_batch_size() {
    batch_accepts_exactly_max_batch_size();
}

fn batch_max_batch_size_view_matches_constant() {
    let s = Setup::new();
    assert_eq!(s.registry.max_batch_size(), MAX_BATCH_SIZE);
}

#[test]
fn test_test_batch_register_max_batch_size_view_matches_constant() {
    batch_max_batch_size_view_matches_constant();
}

#[test]
fn batch_test_batch_register_max_batch_size_view_matches_constant() {
    batch_max_batch_size_view_matches_constant();
}

fn batch_rejects_empty_batch() {
    let mut s = Setup::new();
    let admin = s.admin;
    assert_eq!(s.batch_register(admin, Vec::new(), 1_000_000), Err(KeeperError::EmptyBatch));
}

#[test]
fn test_test_batch_register_rejects_empty_batch() {
    batch_rejects_empty_batch();
}

#[test]
fn batch_test_batch_register_rejects_empty_batch() {
    batch_rejects_empty_batch();
}

fn batch_rejects_non_positive_ceiling() {
    let mut s = Setup::new();
    let tasks = batch_of(&s, 1, 1_000_000);
    let admin = s.admin;
    assert_eq!(s.batch_register(admin, tasks, 0), Err(KeeperError::InvalidReward));
}

#[test]
fn test_test_batch_register_rejects_non_positive_ceiling() {
    batch_rejects_non_positive_ceiling();
}

#[test]
fn batch_test_batch_register_rejects_non_positive_ceiling() {
    batch_rejects_non_positive_ceiling();
}

fn batch_one_bad_entry_rejects_entire_batch() {
    let mut s = Setup::new();
    let good = batch_entry(&s, 1_000_000);
    let cases: Vec<(BatchTaskParams, KeeperError)> = vec![
        (BatchTaskParams { reward: 0, ..good.clone() }, KeeperError::InvalidReward),
        (BatchTaskParams { deadline: s.now(), ..good.clone() }, KeeperError::DeadlinePassed),
        (
            BatchTaskParams { calldata: vec![0u8; (MAX_CALLDATA_LEN + 1) as usize], ..good.clone() },
            KeeperError::CalldataTooLarge,
        ),
        (BatchTaskParams { lock_ledgers: MIN_LOCK_LEDGERS - 1, ..good.clone() }, KeeperError::InvalidTaskParams),
        (BatchTaskParams { lock_ledgers: MAX_LOCK_LEDGERS + 1, ..good.clone() }, KeeperError::InvalidTaskParams),
        (BatchTaskParams { ttl_ledgers: MIN_TTL_LEDGERS - 1, ..good.clone() }, KeeperError::InvalidTaskParams),
        (
            BatchTaskParams { ttl_ledgers: 17_280, deadline: s.now() + 2_592_000, ..good.clone() },
            KeeperError::TtlTooShort,
        ),
    ];
    let admin = s.admin;
    for (bad, expected) in cases {
        let tasks = vec![good.clone(), bad];
        assert_eq!(s.batch_register(admin, tasks, i128::MAX), Err(expected));
        assert_eq!(s.registry_balance(), 0);
        assert_eq!(s.registry.task_count(), 0);
    }
}

#[test]
fn test_test_batch_register_one_bad_entry_rejects_entire_batch() {
    batch_one_bad_entry_rejects_entire_batch();
}

#[test]
fn batch_test_batch_register_one_bad_entry_rejects_entire_batch() {
    batch_one_bad_entry_rejects_entire_batch();
}

fn batch_respects_min_reward_floor() {
    let mut s = Setup::new();
    let admin = s.admin;
    s.registry.set_min_reward(admin, 500_000).unwrap();
    let tasks = vec![batch_entry(&s, 500_000), batch_entry(&s, 499_999)];
    assert_eq!(s.batch_register(admin, tasks, i128::MAX), Err(KeeperError::InvalidReward));
    assert_eq!(s.registry.task_count(), 0);
}

#[test]
fn test_test_batch_register_respects_min_reward_floor() {
    batch_respects_min_reward_floor();
}

#[test]
fn batch_test_batch_register_respects_min_reward_floor() {
    batch_respects_min_reward_floor();
}

fn batch_blocked_while_paused() {
    let mut s = Setup::new();
    let admin = s.admin;
    s.registry.pause(admin).unwrap();
    let tasks = batch_of(&s, 2, 1_000_000);
    assert_eq!(s.batch_register(admin, tasks, 2_000_000), Err(KeeperError::ContractPaused));
}

#[test]
fn test_test_batch_register_blocked_while_paused() {
    batch_blocked_while_paused();
}

#[test]
fn batch_test_batch_register_blocked_while_paused() {
    batch_blocked_while_paused();
}

fn batch_registered_task_completes_normal_lifecycle() {
    let mut s = Setup::new();
    let keeper = s.generate();
    let admin = s.admin;
    let tasks = batch_of(&s, 2, 1_000_000);
    let ids = s.batch_register(admin, tasks, 2_000_000).unwrap();
    let (executed_id, cancelled_id) = (ids[0], ids[1]);

    s.claim(keeper, executed_id).unwrap();
    s.execute(keeper, executed_id, b"proof").unwrap();
    let (net, fee) = split_reward(1_000_000, 300).unwrap();
    assert_eq!(s.registry.keeper_balance(keeper), net);
    assert_eq!(s.registry.fees_accrued(), fee);

    s.cancel(admin, cancelled_id).unwrap();
    assert_eq!(s.task(cancelled_id).status, TaskStatus::Cancelled);
    assert_eq!(s.registry_balance(), 1_000_000);
}

#[test]
fn test_test_batch_registered_task_completes_normal_lifecycle() {
    batch_registered_task_completes_normal_lifecycle();
}

#[test]
fn batch_test_batch_registered_task_completes_normal_lifecycle() {
    batch_registered_task_completes_normal_lifecycle();
}

fn batch_tasks_are_all_owned_by_the_authorizing_owner() {
    let mut s = Setup::new();
    let other = s.generate();
    let admin = s.admin;
    let tasks = batch_of(&s, 3, 1_000_000);
    let ids = s.batch_register(admin, tasks, 3_000_000).unwrap();
    for &id in &ids {
        assert_eq!(s.task(id).owner, admin);
    }
    assert_eq!(s.cancel(other, ids[0]), Err(KeeperError::NotTaskOwner));
}

#[test]
fn test_test_batch_register_tasks_are_all_owned_by_the_authorizing_owner() {
    batch_tasks_are_all_owned_by_the_authorizing_owner();
}

#[test]
fn batch_test_batch_register_tasks_are_all_owned_by_the_authorizing_owner() {
    batch_tasks_are_all_owned_by_the_authorizing_owner();
}

// ── increase_reward / extend_deadline / claim ───────────────────────────────

fn increase_reward_escrows_and_raises_bounty() {
    let mut s = Setup::new();
    let id = register_default_task(&mut s);
    let contract_before = s.registry_balance();
    let admin = s.admin;
    s.increase_reward(admin, id, 500_000).unwrap();
    assert_eq!(s.task(id).reward, 1_500_000);
    assert_eq!(s.registry_balance(), contract_before + 500_000);
}

#[test]
fn test_test_increase_reward_escrows_and_raises_bounty() {
    increase_reward_escrows_and_raises_bounty();
}

#[test]
fn placeholders_test_increase_reward_escrows_and_raises_bounty() {
    increase_reward_escrows_and_raises_bounty();
}

fn increase_reward_by_non_owner_fails() {
    let mut s = Setup::new();
    let stranger = s.generate();
    let id = register_default_task(&mut s);
    assert_eq!(s.increase_reward(stranger, id, 1), Err(KeeperError::NotTaskOwner));
}

#[test]
fn test_test_increase_reward_by_non_owner_fails() {
    increase_reward_by_non_owner_fails();
}

#[test]
fn placeholders_test_increase_reward_by_non_owner_fails() {
    increase_reward_by_non_owner_fails();
}

fn extend_deadline_pushes_it_out() {
    let mut s = Setup::new();
    let id = register_default_task(&mut s);
    let old = s.task(id).deadline;
    let admin = s.admin;
    s.extend_deadline(admin, id, old + 7_200).unwrap();
    assert_eq!(s.task(id).deadline, old + 7_200);
}

#[test]
fn test_test_extend_deadline_pushes_it_out() {
    extend_deadline_pushes_it_out();
}

#[test]
fn placeholders_test_extend_deadline_pushes_it_out() {
    extend_deadline_pushes_it_out();
}

fn extend_deadline_backwards_fails() {
    let mut s = Setup::new();
    let id = register_default_task(&mut s);
    let old = s.task(id).deadline;
    let admin = s.admin;
    assert_eq!(s.extend_deadline(admin, id, old), Err(KeeperError::DeadlinePassed));
}

#[test]
fn test_test_extend_deadline_backwards_fails() {
    extend_deadline_backwards_fails();
}

#[test]
fn placeholders_test_extend_deadline_backwards_fails() {
    extend_deadline_backwards_fails();
}

fn extend_deadline_blocked_while_paused() {
    let mut s = Setup::new();
    let id = register_default_task(&mut s);
    let old_deadline = s.task(id).deadline;
    let admin = s.admin;
    s.registry.pause(admin).unwrap();
    assert!(s.registry.is_paused());
    assert_eq!(s.extend_deadline(admin, id, old_deadline + 7_200), Err(KeeperError::ContractPaused));
    assert_eq!(s.task(id).deadline, old_deadline);
}

#[test]
fn test_test_extend_deadline_blocked_while_paused() {
    extend_deadline_blocked_while_paused();
}

#[test]
fn placeholders_test_extend_deadline_blocked_while_paused() {
    extend_deadline_blocked_while_paused();
}

fn extend_deadline_succeeds_after_unpause() {
    let mut s = Setup::new();
    let id = register_default_task(&mut s);
    let old_deadline = s.task(id).deadline;
    let admin = s.admin;
    s.registry.pause(admin).unwrap();
    s.registry.unpause(admin).unwrap();
    assert!(!s.registry.is_paused());
    s.extend_deadline(admin, id, old_deadline + 7_200).unwrap();
    assert_eq!(s.task(id).deadline, old_deadline + 7_200);
}

#[test]
fn test_test_extend_deadline_succeeds_after_unpause() {
    extend_deadline_succeeds_after_unpause();
}

#[test]
fn placeholders_test_extend_deadline_succeeds_after_unpause() {
    extend_deadline_succeeds_after_unpause();
}

fn is_claimable_lifecycle() {
    let mut s = Setup::new();
    let keeper = s.generate();
    let id = register_default_task(&mut s);
    assert!(s.is_claimable(id));
    s.claim(keeper, id).unwrap();
    assert!(!s.is_claimable(id));
    s.advance(121, 60);
    assert!(s.is_claimable(id));
    s.advance(1, 3_601);
    assert!(!s.is_claimable(id));
    assert!(!s.is_claimable(999));
}

#[test]
fn test_test_is_claimable_lifecycle() {
    is_claimable_lifecycle();
}

#[test]
fn placeholders_test_is_claimable_lifecycle() {
    is_claimable_lifecycle();
}

fn claim_pending_task() {
    let mut s = Setup::new();
    let keeper = s.generate();
    let id = register_default_task(&mut s);
    s.claim(keeper, id).unwrap();
    let task = s.task(id);
    assert_eq!(task.status, TaskStatus::Claimed);
    assert_eq!(task.claimer, Some(keeper));
    assert!(task.claim_ledger.is_some());
}

#[test]
fn test_test_claim_pending_task() {
    claim_pending_task();
}

#[test]
fn placeholders_test_claim_pending_task() {
    claim_pending_task();
}

fn claim_locked_task_by_second_keeper_fails() {
    let mut s = Setup::new();
    let first = s.generate();
    let second = s.generate();
    let id = register_default_task(&mut s);
    s.claim(first, id).unwrap();
    assert_eq!(s.claim(second, id), Err(KeeperError::LockPeriodActive));
}

#[test]
fn test_test_claim_locked_task_by_second_keeper_fails() {
    claim_locked_task_by_second_keeper_fails();
}

#[test]
fn placeholders_test_claim_locked_task_by_second_keeper_fails() {
    claim_locked_task_by_second_keeper_fails();
}

fn reclaim_after_lock_window_elapses() {
    let mut s = Setup::new();
    let first = s.generate();
    let second = s.generate();
    let id = register_default_task(&mut s);
    s.claim(first, id).unwrap();
    s.advance(121, 60);
    s.claim(second, id).unwrap();
    assert_eq!(s.task(id).claimer, Some(second));
}

#[test]
fn test_test_reclaim_after_lock_window_elapses() {
    reclaim_after_lock_window_elapses();
}

#[test]
fn placeholders_test_reclaim_after_lock_window_elapses() {
    reclaim_after_lock_window_elapses();
}

#[test]
fn test_lock_boundary_unlock_at_minus_one_is_still_locked() {
    let mut s = Setup::new();
    let first = s.generate();
    let second = s.generate();
    let (id, unlock_at) = claim_with_lock(&mut s, first, MIN_LOCK_LEDGERS);
    s.goto_ledger(unlock_at - 1);
    assert!(!s.is_claimable(id));
    assert_eq!(s.claim(second, id), Err(KeeperError::LockPeriodActive));
}

#[test]
fn test_lock_boundary_at_unlock_at_is_reclaimable() {
    let mut s = Setup::new();
    let first = s.generate();
    let second = s.generate();
    let (id, unlock_at) = claim_with_lock(&mut s, first, MIN_LOCK_LEDGERS);
    s.goto_ledger(unlock_at);
    assert!(s.is_claimable(id));
    s.claim(second, id).unwrap();
    let task = s.task(id);
    assert_eq!(task.claimer, Some(second));
    assert_eq!(task.claim_ledger, Some(unlock_at));
}

#[test]
fn test_lock_boundary_unlock_at_plus_one_is_reclaimable() {
    let mut s = Setup::new();
    let first = s.generate();
    let second = s.generate();
    let (id, unlock_at) = claim_with_lock(&mut s, first, MIN_LOCK_LEDGERS);
    s.goto_ledger(unlock_at + 1);
    assert!(s.is_claimable(id));
    s.claim(second, id).unwrap();
    assert_eq!(s.task(id).claimer, Some(second));
}

#[test]
fn test_lock_window_extending_past_deadline_is_blocked_by_deadline_first() {
    let mut s = Setup::new();
    let first = s.generate();
    let second = s.generate();
    let admin = s.admin;
    let deadline = s.now() + 10;
    let id = s
        .register_task(admin, TaskType::Liquidation, &calldata(), 1_000_000, deadline, DEFAULT_TTL_LEDGERS, 1_000)
        .unwrap();
    s.claim(first, id).unwrap();
    s.advance(1, 11);
    assert!(s.now() >= deadline);
    assert!(!s.is_claimable(id));
    assert_eq!(s.claim(second, id), Err(KeeperError::DeadlinePassed));
}

#[test]
fn test_claim_past_deadline_fails() {
    let mut s = Setup::new();
    let keeper = s.generate();
    let id = register_default_task(&mut s);
    s.advance(1, 3_601);
    assert_eq!(s.claim(keeper, id), Err(KeeperError::DeadlinePassed));
}

#[test]
fn test_claim_unknown_task_fails() {
    let mut s = Setup::new();
    let keeper = s.generate();
    assert_eq!(s.claim(keeper, 999), Err(KeeperError::TaskNotFound));
}

// ── execute_task ────────────────────────────────────────────────────────────

#[test]
fn test_execute_task_credits_keeper_net_of_fee() {
    let mut s = Setup::new();
    let keeper = s.generate();
    let id = register_default_task(&mut s);
    s.claim(keeper, id).unwrap();
    s.execute(keeper, id, b"proof").unwrap();
    assert_eq!(s.registry.keeper_balance(keeper), 970_000);
    assert_eq!(s.task(id).status, TaskStatus::Executed);
}

#[test]
fn test_get_fee_bps_matches_applied_fee_after_set_fee_bps() {
    let mut s = Setup::new();
    let admin = s.admin;
    s.registry.set_fee_bps(admin, 750).unwrap();
    let keeper = s.generate();
    let id = register_default_task(&mut s);
    let reported_fee_bps = s.registry.get_fee_bps();
    s.claim(keeper, id).unwrap();
    s.execute(keeper, id, b"proof").unwrap();
    let (expected_net, _) = split_reward(1_000_000, reported_fee_bps).unwrap();
    assert_eq!(s.registry.keeper_balance(keeper), expected_net);
    assert_eq!(reported_fee_bps, 750u32);
}

#[test]
fn test_execute_task_over_max_proof_len_fails() {
    let mut s = Setup::new();
    let keeper = s.generate();
    let id = register_default_task(&mut s);
    s.claim(keeper, id).unwrap();
    let oversized = vec![0u8; (MAX_PROOF_LEN + 1) as usize];
    assert_eq!(s.execute(keeper, id, &oversized), Err(KeeperError::ProofTooLarge));
    assert_eq!(s.task(id).status, TaskStatus::Claimed);
    let at_limit = vec![0u8; MAX_PROOF_LEN as usize];
    s.execute(keeper, id, &at_limit).unwrap();
    assert_eq!(s.task(id).status, TaskStatus::Executed);
}

#[test]
fn test_execute_by_non_claimer_fails() {
    let mut s = Setup::new();
    let keeper = s.generate();
    let stranger = s.generate();
    let id = register_default_task(&mut s);
    s.claim(keeper, id).unwrap();
    assert_eq!(s.execute(stranger, id, b"x"), Err(KeeperError::NotTaskClaimer));
}

#[test]
fn test_execute_unclaimed_task_fails() {
    let mut s = Setup::new();
    let keeper = s.generate();
    let id = register_default_task(&mut s);
    assert_eq!(s.execute(keeper, id, b"x"), Err(KeeperError::InvalidTaskStatus));
}

#[test]
fn test_execute_twice_fails() {
    let mut s = Setup::new();
    let keeper = s.generate();
    let id = register_default_task(&mut s);
    s.claim(keeper, id).unwrap();
    s.execute(keeper, id, b"p").unwrap();
    assert_eq!(s.execute(keeper, id, b"p"), Err(KeeperError::InvalidTaskStatus));
}

#[test]
fn test_execute_past_deadline_fails() {
    let mut s = Setup::new();
    let keeper = s.generate();
    let id = register_default_task(&mut s);
    s.claim(keeper, id).unwrap();
    s.advance(1, 3_601);
    assert_eq!(s.execute(keeper, id, b"p"), Err(KeeperError::DeadlinePassed));
}

// ── cancel_task / expire_task ───────────────────────────────────────────────

#[test]
fn test_cancel_pending_task_refunds_owner() {
    let mut s = Setup::new();
    let admin = s.admin;
    let before = s.balance(admin);
    let id = register_default_task(&mut s);
    assert_eq!(s.balance(admin), before - 1_000_000);
    s.cancel(admin, id).unwrap();
    assert_eq!(s.balance(admin), before);
    assert_eq!(s.task(id).status, TaskStatus::Cancelled);
}

#[test]
fn test_cancel_by_non_owner_fails() {
    let mut s = Setup::new();
    let stranger = s.generate();
    let id = register_default_task(&mut s);
    assert_eq!(s.cancel(stranger, id), Err(KeeperError::NotTaskOwner));
}

#[test]
fn test_cancel_claimed_task_while_lock_active_fails() {
    let mut s = Setup::new();
    let keeper = s.generate();
    let id = register_default_task(&mut s);
    s.claim(keeper, id).unwrap();
    s.advance(100, 0);
    let admin = s.admin;
    assert_eq!(s.cancel(admin, id), Err(KeeperError::LockPeriodActive));
}

#[test]
fn test_cancel_claimed_task_after_lock_lapsed_succeeds() {
    let mut s = Setup::new();
    let keeper = s.generate();
    let admin = s.admin;
    let before = s.balance(admin);
    let id = register_default_task(&mut s);
    s.claim(keeper, id).unwrap();
    s.advance(120, 0);
    s.cancel(admin, id).unwrap();
    assert_eq!(s.balance(admin), before);
    assert_eq!(s.task(id).status, TaskStatus::Cancelled);
}

#[test]
fn test_cancel_claimed_task_boundary_unlock_at_minus_one_fails() {
    let mut s = Setup::new();
    let keeper = s.generate();
    let (id, unlock_at) = claim_with_lock(&mut s, keeper, 12);
    s.goto_ledger(unlock_at - 1);
    let admin = s.admin;
    assert_eq!(s.cancel(admin, id), Err(KeeperError::LockPeriodActive));
}

#[test]
fn test_cancel_claimed_task_boundary_at_unlock_at_succeeds() {
    let mut s = Setup::new();
    let keeper = s.generate();
    let admin = s.admin;
    let before = s.balance(admin);
    let (id, unlock_at) = claim_with_lock(&mut s, keeper, 12);
    s.goto_ledger(unlock_at);
    s.cancel(admin, id).unwrap();
    assert_eq!(s.balance(admin), before);
    assert_eq!(s.task(id).status, TaskStatus::Cancelled);
}

#[test]
fn test_cancel_claimed_task_boundary_unlock_at_plus_one_succeeds() {
    let mut s = Setup::new();
    let keeper = s.generate();
    let admin = s.admin;
    let before = s.balance(admin);
    let (id, unlock_at) = claim_with_lock(&mut s, keeper, 12);
    s.goto_ledger(unlock_at + 1);
    s.cancel(admin, id).unwrap();
    assert_eq!(s.balance(admin), before);
    assert_eq!(s.task(id).status, TaskStatus::Cancelled);
}

#[test]
fn test_expire_after_deadline_refunds_owner() {
    let mut s = Setup::new();
    let keeper = s.generate();
    let admin = s.admin;
    let before = s.balance(admin);
    let id = register_default_task(&mut s);
    s.claim(keeper, id).unwrap();
    s.advance(1, 3_601);
    s.expire(id).unwrap();
    assert_eq!(s.balance(admin), before);
    assert_eq!(s.task(id).status, TaskStatus::Expired);
}

#[test]
fn test_expire_before_deadline_fails() {
    let mut s = Setup::new();
    let id = register_default_task(&mut s);
    assert_eq!(s.expire(id), Err(KeeperError::DeadlineNotPassed));
}

#[test]
fn test_expire_executed_task_fails() {
    let mut s = Setup::new();
    let keeper = s.generate();
    let id = register_default_task(&mut s);
    s.claim(keeper, id).unwrap();
    s.execute(keeper, id, b"p").unwrap();
    s.advance(1, 3_601);
    assert_eq!(s.expire(id), Err(KeeperError::InvalidTaskStatus));
}

/// A reward token whose refund transfer calls back into `expire_task` for
/// the same task before moving any funds. The outer call has already stored
/// `Expired`, so the nested call is refused and only one refund is paid.
fn expire_task_reentrancy_pays_refund_exactly_once() {
    let mut s = Setup::with_mint(5_000_000);
    let admin = s.admin;
    let deadline = s.now() + 3_600;
    let task_id = s
        .register_task(admin, TaskType::Custom, &calldata(), 1_000_000, deadline, DEFAULT_TTL_LEDGERS, 120)
        .unwrap();
    assert_eq!(s.balance(admin), 4_000_000);
    assert_eq!(s.registry_balance(), 1_000_000);

    s.advance(1, 3_601);
    let ledger = s.ledger;
    let refund = s.registry.expire_task(task_id, ledger).unwrap();
    // The token's transfer re-enters the registry.
    let reentrant = s.registry.expire_task(task_id, ledger);
    if let Ok(second_refund) = reentrant {
        s.settle(second_refund);
    }
    s.settle(refund);

    assert!(reentrant.is_err(), "the re-entrant expire_task call must not succeed");
    assert_eq!(reentrant, Err(KeeperError::InvalidTaskStatus));
    assert_eq!(s.balance(admin), 5_000_000);
    assert_eq!(s.registry_balance(), 0);
    assert_eq!(s.task(task_id).status, TaskStatus::Expired);
}

#[test]
fn test_test_expire_task_reentrancy_pays_refund_exactly_once() {
    expire_task_reentrancy_pays_refund_exactly_once();
}

#[test]
fn expire_test_expire_task_reentrancy_pays_refund_exactly_once() {
    expire_task_reentrancy_pays_refund_exactly_once();
}

fn expire_twice_fails_with_invalid_status_and_pays_refund_once() {
    let mut s = Setup::new();
    let admin = s.admin;
    let before = s.balance(admin);
    let id = register_default_task(&mut s);
    s.advance(1, 3_601);
    s.expire(id).unwrap();
    assert_eq!(s.balance(admin), before);
    assert_eq!(s.expire(id), Err(KeeperError::InvalidTaskStatus));
    assert_eq!(s.balance(admin), before);
    assert_eq!(s.registry_balance(), 0);
}

#[test]
fn test_test_expire_twice_fails_with_invalid_status_and_pays_refund_once() {
    expire_twice_fails_with_invalid_status_and_pays_refund_once();
}

#[test]
fn expire_test_expire_twice_fails_with_invalid_status_and_pays_refund_once() {
    expire_twice_fails_with_invalid_status_and_pays_refund_once();
}

/// A reward token whose refund transfer to the owner calls back into
/// `cancel_task` for the same task. The outer call has already stored
/// `Cancelled`, so the nested call is refused and one refund is paid.
fn cancel_task_rejects_reentrant_refund() {
    let mut s = Setup::with_mint(10_000_000);
    let admin = s.admin;
    let deadline = s.now() + 3_600;
    let task_id = s
        .register_task(admin, TaskType::Liquidation, &calldata(), 1_000_000, deadline, DEFAULT_TTL_LEDGERS, 120)
        .unwrap();
    assert_eq!(s.balance(admin), 9_000_000);
    assert_eq!(s.registry_balance(), 1_000_000);

    let ledger = s.ledger;
    let refund = s.registry.cancel_task(admin, task_id, ledger).unwrap();
    let reentrant = s.registry.cancel_task(admin, task_id, ledger);
    let mut refund_count = 1;
    if let Ok(second_refund) = reentrant {
        refund_count += 1;
        s.settle(second_refund);
    }
    s.settle(refund);

    assert!(reentrant.is_err());
    assert_eq!(reentrant.unwrap_err().code(), KeeperError::InvalidTaskStatus.code());
    assert_eq!(refund_count, 1);
    assert_eq!(s.task(task_id).status, TaskStatus::Cancelled);
    assert_eq!(s.balance(admin), 10_000_000);
    assert_eq!(s.registry_balance(), 0);
}

#[test]
fn test_test_cancel_task_rejects_reentrant_refund() {
    cancel_task_rejects_reentrant_refund();
}

#[test]
fn cancel_test_cancel_task_rejects_reentrant_refund() {
    cancel_task_rejects_reentrant_refund();
}

// ── withdraw_rewards / sweep_fees ───────────────────────────────────────────

fn withdraw_transfers_balance_and_zeroes_it() {
    let mut s = Setup::new();
    let keeper = executed_task_keeper(&mut s);
    assert_eq!(s.balance(keeper), 0);
    let withdrawn = s.withdraw(keeper).unwrap();
    assert_eq!(withdrawn, 970_000);
    assert_eq!(s.balance(keeper), 970_000);
    assert_eq!(s.registry.keeper_balance(keeper), 0);
}

#[test]
fn test_test_withdraw_transfers_balance_and_zeroes_it() {
    withdraw_transfers_balance_and_zeroes_it();
}

#[test]
fn withdraw_test_withdraw_transfers_balance_and_zeroes_it() {
    withdraw_transfers_balance_and_zeroes_it();
}

fn keeper_balance_accumulates_across_tasks_and_withdraws_as_one_sum() {
    let mut s = Setup::new();
    let fee_bps = s.registry.get_fee_bps();
    let keeper1 = s.generate();
    let keeper2 = s.generate();
    let keeper1_rewards = [850_003i128, 623_777, 1_234_567];
    let keeper2_rewards = [111_113i128, 777_779];
    let mut keeper1_balance = 0i128;
    let mut keeper2_balance = 0i128;
    let mut expected_fees = 0i128;

    for (i, &reward1) in keeper1_rewards.iter().enumerate() {
        let id1 = register_reward_task(&mut s, reward1);
        s.claim(keeper1, id1).unwrap();
        s.execute(keeper1, id1, b"proof").unwrap();
        let (net1, fee1) = split_reward(reward1, fee_bps).unwrap();
        keeper1_balance += net1;
        expected_fees += fee1;
        assert_eq!(s.registry.keeper_balance(keeper1), keeper1_balance);
        assert_eq!(s.registry.keeper_balance(keeper2), keeper2_balance);

        if let Some(&reward2) = keeper2_rewards.get(i) {
            let id2 = register_reward_task(&mut s, reward2);
            s.claim(keeper2, id2).unwrap();
            s.execute(keeper2, id2, b"proof").unwrap();
            let (net2, fee2) = split_reward(reward2, fee_bps).unwrap();
            keeper2_balance += net2;
            expected_fees += fee2;
            assert_eq!(s.registry.keeper_balance(keeper2), keeper2_balance);
            assert_eq!(s.registry.keeper_balance(keeper1), keeper1_balance);
        }
    }
    assert!(keeper1_rewards.iter().any(|&r| r.checked_mul(fee_bps as i128).unwrap() % 10_000 != 0));
    assert_eq!(s.registry.fees_accrued(), expected_fees);

    assert_eq!(s.balance(keeper1), 0);
    let withdrawn = s.withdraw(keeper1).unwrap();
    assert_eq!(withdrawn, keeper1_balance);
    assert_eq!(s.balance(keeper1), keeper1_balance);
    assert_eq!(s.registry.keeper_balance(keeper1), 0);
    assert_eq!(s.registry.keeper_balance(keeper2), keeper2_balance);
    assert_eq!(s.balance(keeper2), 0);
}

#[test]
fn test_test_keeper_balance_accumulates_across_tasks_and_withdraws_as_one_sum() {
    keeper_balance_accumulates_across_tasks_and_withdraws_as_one_sum();
}

#[test]
fn withdraw_test_keeper_balance_accumulates_across_tasks_and_withdraws_as_one_sum() {
    keeper_balance_accumulates_across_tasks_and_withdraws_as_one_sum();
}

fn withdraw_with_no_balance_fails() {
    let mut s = Setup::new();
    let keeper = s.generate();
    assert_eq!(s.withdraw(keeper), Err(KeeperError::NoRewardsAvailable));
}

#[test]
fn test_test_withdraw_with_no_balance_fails() {
    withdraw_with_no_balance_fails();
}

#[test]
fn withdraw_test_withdraw_with_no_balance_fails() {
    withdraw_with_no_balance_fails();
}

fn double_withdraw_fails() {
    let mut s = Setup::new();
    let keeper = executed_task_keeper(&mut s);
    s.withdraw(keeper).unwrap();
    assert_eq!(s.withdraw(keeper), Err(KeeperError::NoRewardsAvailable));
}

#[test]
fn test_test_double_withdraw_fails() {
    double_withdraw_fails();
}

#[test]
fn withdraw_test_double_withdraw_fails() {
    double_withdraw_fails();
}

fn execute_accrues_protocol_fee() {
    let mut s = Setup::new();
    let _ = executed_task_keeper(&mut s);
    assert_eq!(s.registry.fees_accrued(), 30_000);
}

#[test]
fn test_test_execute_accrues_protocol_fee() {
    execute_accrues_protocol_fee();
}

#[test]
fn withdraw_test_execute_accrues_protocol_fee() {
    execute_accrues_protocol_fee();
}

fn sweep_fees_to_treasury() {
    let mut s = Setup::new();
    let _ = executed_task_keeper(&mut s);
    let treasury = s.generate();
    let admin = s.admin;
    s.sweep(admin, treasury, 30_000).unwrap();
    assert_eq!(s.balance(treasury), 30_000);
    assert_eq!(s.registry.fees_accrued(), 0);
}

#[test]
fn test_test_sweep_fees_to_treasury() {
    sweep_fees_to_treasury();
}

#[test]
fn withdraw_test_sweep_fees_to_treasury() {
    sweep_fees_to_treasury();
}

fn sweep_more_than_accrued_fails() {
    let mut s = Setup::new();
    let _ = executed_task_keeper(&mut s);
    let treasury = s.generate();
    let admin = s.admin;
    assert_eq!(s.sweep(admin, treasury, 30_001), Err(KeeperError::NoRewardsAvailable));
}

#[test]
fn test_test_sweep_more_than_accrued_fails() {
    sweep_more_than_accrued_fails();
}

#[test]
fn withdraw_test_sweep_more_than_accrued_fails() {
    sweep_more_than_accrued_fails();
}

fn sweep_by_non_admin_fails() {
    let mut s = Setup::new();
    let _ = executed_task_keeper(&mut s);
    let stranger = s.generate();
    let treasury = s.generate();
    assert_eq!(s.sweep(stranger, treasury, 1), Err(KeeperError::Unauthorized));
}

#[test]
fn test_test_sweep_by_non_admin_fails() {
    sweep_by_non_admin_fails();
}

#[test]
fn withdraw_test_sweep_by_non_admin_fails() {
    sweep_by_non_admin_fails();
}

fn sweep_zero_amount_fails() {
    let mut s = Setup::new();
    let _ = executed_task_keeper(&mut s);
    let treasury = s.generate();
    let admin = s.admin;
    assert_eq!(s.sweep(admin, treasury, 0), Err(KeeperError::InvalidReward));
    assert_eq!(s.registry.fees_accrued(), 30_000);
}

#[test]
fn test_test_sweep_zero_amount_fails() {
    sweep_zero_amount_fails();
}

#[test]
fn withdraw_test_sweep_zero_amount_fails() {
    sweep_zero_amount_fails();
}

fn sweep_negative_amount_fails() {
    let mut s = Setup::new();
    let _ = executed_task_keeper(&mut s);
    let treasury = s.generate();
    let admin = s.admin;
    assert_eq!(s.sweep(admin, treasury, -1), Err(KeeperError::InvalidReward));
    assert_eq!(s.registry.fees_accrued(), 30_000);
}

#[test]
fn test_test_sweep_negative_amount_fails() {
    sweep_negative_amount_fails();
}

#[test]
fn withdraw_test_sweep_negative_amount_fails() {
    sweep_negative_amount_fails();
}

fn sweep_with_nothing_accrued_fails() {
    let mut s = Setup::new();
    let treasury = s.generate();
    let admin = s.admin;
    assert_eq!(s.registry.fees_accrued(), 0);
    assert_eq!(s.sweep(admin, treasury, 1), Err(KeeperError::NoRewardsAvailable));
}

#[test]
fn test_test_sweep_with_nothing_accrued_fails() {
    sweep_with_nothing_accrued_fails();
}

#[test]
fn withdraw_test_sweep_with_nothing_accrued_fails() {
    sweep_with_nothing_accrued_fails();
}

fn sweep_partial_sequence_conserves_remainder() {
    let mut s = Setup::new();
    let treasury = s.generate();
    let admin = s.admin;
    let untouched_task_id = register_default_task(&mut s);
    let keeper = executed_task_keeper(&mut s);
    assert_eq!(s.registry.fees_accrued(), 30_000);

    let parts = [12_000i128, 9_000, 9_000];
    let mut swept_so_far = 0i128;
    for &part in parts.iter() {
        s.sweep(admin, treasury, part).unwrap();
        swept_so_far += part;
        assert_eq!(s.registry.fees_accrued(), 30_000 - swept_so_far);
        assert_eq!(s.balance(treasury), swept_so_far);
    }
    assert_eq!(s.registry.fees_accrued(), 0);
    assert_eq!(s.sweep(admin, treasury, 1), Err(KeeperError::NoRewardsAvailable));
    assert_eq!(s.task(untouched_task_id).reward, 1_000_000);
    assert_eq!(s.task(untouched_task_id).status, TaskStatus::Pending);
    assert_eq!(s.registry.keeper_balance(keeper), 970_000);
}

#[test]
fn test_test_sweep_partial_sequence_conserves_remainder_and_leaves_other_balances_untouched() {
    sweep_partial_sequence_conserves_remainder();
}

#[test]
fn withdraw_test_sweep_partial_sequence_conserves_remainder_and_leaves_other_balances_untouched() {
    sweep_partial_sequence_conserves_remainder();
}

// ── admin controls ──────────────────────────────────────────────────────────

#[test]
fn test_pause_blocks_registration_but_allows_withdraw() {
    let mut s = Setup::new();
    let keeper = executed_task_keeper(&mut s);
    let admin = s.admin;
    s.registry.pause(admin).unwrap();
    assert!(s.registry.is_paused());
    let deadline = s.now() + 3_600;
    assert_eq!(
        s.register_task(admin, TaskType::Custom, &calldata(), 100_000, deadline, DEFAULT_TTL_LEDGERS, 60),
        Err(KeeperError::ContractPaused)
    );
    assert_eq!(s.withdraw(keeper), Ok(970_000));
}

#[test]
fn test_unpause_restores_registration() {
    let mut s = Setup::new();
    let admin = s.admin;
    s.registry.pause(admin).unwrap();
    s.registry.unpause(admin).unwrap();
    assert!(!s.registry.is_paused());
    let id = register_default_task(&mut s);
    assert_eq!(s.task(id).status, TaskStatus::Pending);
}

#[test]
fn test_pause_by_non_admin_fails() {
    let mut s = Setup::new();
    let stranger = s.generate();
    assert_eq!(s.registry.pause(stranger), Err(KeeperError::Unauthorized));
}

#[test]
fn test_pause_policy_matrix_entry_point_by_entry_point() {
    let mut s = Setup::new();
    let admin = s.admin;
    let claim_target_id = register_default_task(&mut s);
    let increase_target_id = register_default_task(&mut s);
    let cancel_target_id = register_default_task(&mut s);
    let extend_target_id = register_default_task(&mut s);
    let short_deadline = s.now() + 100;
    let expire_target_id = s
        .register_task(admin, TaskType::Liquidation, &calldata(), 1_000_000, short_deadline, DEFAULT_TTL_LEDGERS, 120)
        .unwrap();
    let claimed_keeper = s.generate();
    let claimed_task_id = register_default_task(&mut s);
    s.claim(claimed_keeper, claimed_task_id).unwrap();
    let paid_keeper = executed_task_keeper(&mut s);

    s.registry.pause(admin).unwrap();
    assert!(s.registry.is_paused());

    let deadline = s.now() + 3_600;
    assert_eq!(
        s.register_task(admin, TaskType::Custom, &calldata(), 100_000, deadline, DEFAULT_TTL_LEDGERS, 60),
        Err(KeeperError::ContractPaused)
    );

    let someone = s.generate();
    assert_eq!(s.claim(someone, claim_target_id), Err(KeeperError::ContractPaused));
    assert_eq!(s.task(claim_target_id).status, TaskStatus::Pending);

    assert_eq!(s.execute(claimed_keeper, claimed_task_id, b"p"), Err(KeeperError::ContractPaused));
    assert_eq!(s.task(claimed_task_id).status, TaskStatus::Claimed);

    assert_eq!(s.increase_reward(admin, increase_target_id, 1), Err(KeeperError::ContractPaused));
    assert_eq!(s.task(increase_target_id).reward, 1_000_000);

    let old_deadline = s.task(extend_target_id).deadline;
    assert_eq!(
        s.extend_deadline(admin, extend_target_id, old_deadline + 3_600),
        Err(KeeperError::ContractPaused)
    );
    assert_eq!(s.task(extend_target_id).deadline, old_deadline);

    let admin_before_cancel = s.balance(admin);
    s.cancel(admin, cancel_target_id).unwrap();
    assert_eq!(s.task(cancel_target_id).status, TaskStatus::Cancelled);
    assert_eq!(s.balance(admin), admin_before_cancel + 1_000_000);

    s.advance(5, 101);
    let admin_before_expire = s.balance(admin);
    s.expire(expire_target_id).unwrap();
    assert_eq!(s.task(expire_target_id).status, TaskStatus::Expired);
    assert_eq!(s.balance(admin), admin_before_expire + 1_000_000);

    assert_eq!(s.balance(paid_keeper), 0);
    assert_eq!(s.withdraw(paid_keeper), Ok(970_000));
    assert_eq!(s.balance(paid_keeper), 970_000);
    assert_eq!(s.registry.keeper_balance(paid_keeper), 0);

    assert!(s.registry.is_paused());
    assert_eq!(s.registry.fees_accrued(), 30_000);
    assert!(s.registry.task_count() >= 6);
    assert_eq!(s.registry.admin(), Some(admin));
    assert_eq!(s.registry.get_fee_bps(), 300u32);

    s.registry.unpause(admin).unwrap();
    assert!(!s.registry.is_paused());

    let new_id = register_default_task(&mut s);
    assert_eq!(s.task(new_id).status, TaskStatus::Pending);

    let claimer = s.generate();
    s.claim(claimer, claim_target_id).unwrap();
    assert_eq!(s.task(claim_target_id).status, TaskStatus::Claimed);

    s.execute(claimed_keeper, claimed_task_id, b"proof").unwrap();
    assert_eq!(s.task(claimed_task_id).status, TaskStatus::Executed);

    s.increase_reward(admin, increase_target_id, 1).unwrap();
    assert_eq!(s.task(increase_target_id).reward, 1_000_001);
}

#[test]
fn test_set_fee_bps_affects_future_executions() {
    let mut s = Setup::new();
    let admin = s.admin;
    s.registry.set_fee_bps(admin, 1_000).unwrap();
    assert_eq!(s.registry.get_fee_bps(), 1_000u32);
    let keeper = s.generate();
    let id = register_default_task(&mut s);
    s.claim(keeper, id).unwrap();
    s.execute(keeper, id, b"p").unwrap();
    assert_eq!(s.registry.keeper_balance(keeper), 900_000);
    assert_eq!(s.registry.fees_accrued(), 100_000);
}

#[test]
fn test_min_reward_defaults_to_zero() {
    let s = Setup::new();
    assert_eq!(s.registry.min_reward(), 0);
}

#[test]
fn test_set_min_reward_rejects_below_floor() {
    let mut s = Setup::new();
    let admin = s.admin;
    s.registry.set_min_reward(admin, 500_000).unwrap();
    assert_eq!(s.registry.min_reward(), 500_000);
    let deadline = s.now() + 3_600;
    assert_eq!(
        s.register_task(admin, TaskType::Custom, &calldata(), 499_999, deadline, DEFAULT_TTL_LEDGERS, 60),
        Err(KeeperError::InvalidReward)
    );
    let id = s
        .register_task(admin, TaskType::Custom, &calldata(), 500_000, deadline, DEFAULT_TTL_LEDGERS, 60)
        .unwrap();
    assert_eq!(id, 1u64);
}

#[test]
fn test_set_min_reward_by_non_admin_fails() {
    let mut s = Setup::new();
    let stranger = s.generate();
    assert_eq!(s.registry.set_min_reward(stranger, 1), Err(KeeperError::Unauthorized));
}

#[test]
fn test_set_fee_over_max_fails() {
    let mut s = Setup::new();
    let admin = s.admin;
    assert_eq!(s.registry.set_fee_bps(admin, 10_001), Err(KeeperError::InvalidFeeBps));
}

#[test]
fn test_transfer_admin_moves_control() {
    let mut s = Setup::new();
    let admin = s.admin;
    let new_admin = s.generate();
    s.registry.transfer_admin(admin, new_admin).unwrap();
    assert_eq!(s.registry.admin(), Some(new_admin));
    assert_eq!(s.registry.pause(admin), Err(KeeperError::Unauthorized));
    s.registry.pause(new_admin).unwrap();
    assert!(s.registry.is_paused());
}

fn upgrade_by_non_admin_fails() {
    let mut s = Setup::new();
    let stranger = s.generate();
    assert_eq!(s.registry.upgrade(stranger), Err(KeeperError::Unauthorized));
}

#[test]
fn test_test_upgrade_by_non_admin_fails() {
    upgrade_by_non_admin_fails();
}

#[test]
fn ttl_test_upgrade_by_non_admin_fails() {
    upgrade_by_non_admin_fails();
}

// ── calls before initialize ─────────────────────────────────────────────────

#[test]
fn test_register_task_before_init_fails() {
    let mut s = Setup::uninitialized();
    let owner = s.generate();
    let deadline = s.now() + 3_600;
    assert_eq!(
        s.register_task(owner, TaskType::Custom, &calldata(), 1_000_000, deadline, 17_280, 120),
        Err(KeeperError::NotInitialized)
    );
}

#[test]
fn test_withdraw_rewards_before_init_fails() {
    let mut s = Setup::uninitialized();
    let keeper = s.generate();
    assert_eq!(s.withdraw(keeper), Err(KeeperError::NoRewardsAvailable));
}

#[test]
fn test_pause_before_init_fails() {
    let mut s = Setup::uninitialized();
    let caller = s.generate();
    assert_eq!(s.registry.pause(caller), Err(KeeperError::NotInitialized));
}

#[test]
fn test_unpause_before_init_fails() {
    let mut s = Setup::uninitialized();
    let caller = s.generate();
    assert_eq!(s.registry.unpause(caller), Err(KeeperError::NotInitialized));
}

#[test]
fn test_set_fee_bps_before_init_fails() {
    let mut s = Setup::uninitialized();
    let caller = s.generate();
    assert_eq!(s.registry.set_fee_bps(caller, 500), Err(KeeperError::NotInitialized));
}

#[test]
fn test_set_min_reward_before_init_fails() {
    let mut s = Setup::uninitialized();
    let caller = s.generate();
    assert_eq!(s.registry.set_min_reward(caller, 1), Err(KeeperError::NotInitialized));
}

#[test]
fn test_transfer_admin_before_init_fails() {
    let mut s = Setup::uninitialized();
    let caller = s.generate();
    let new_admin = s.generate();
    assert_eq!(s.registry.transfer_admin(caller, new_admin), Err(KeeperError::NotInitialized));
}

#[test]
fn test_upgrade_before_init_fails() {
    let mut s = Setup::uninitialized();
    let caller = s.generate();
    assert_eq!(s.registry.upgrade(caller), Err(KeeperError::NotInitialized));
}

#[test]
fn test_sweep_fees_before_init_fails() {
    let mut s = Setup::uninitialized();
    let caller = s.generate();
    let treasury = s.generate();
    assert_eq!(s.sweep(caller, treasury, 1), Err(KeeperError::NotInitialized));
}

#[test]
fn test_require_admin_distinguishes_not_initialized_from_wrong_caller() {
    let mut u = Setup::uninitialized();
    let caller = u.generate();
    assert_eq!(u.registry.pause(caller), Err(KeeperError::NotInitialized));

    let mut s = Setup::new();
    let stranger = s.generate();
    assert_eq!(s.registry.pause(stranger), Err(KeeperError::Unauthorized));
}

// ── batch reads ─────────────────────────────────────────────────────────────

fn register_n_tasks(s: &mut Setup, n: u32) -> Vec<u64> {
    (0..n).map(|_| register_reward_task(s, 1_000)).collect()
}

#[test]
fn test_get_tasks_full_batch_returns_every_task() {
    let mut s = Setup::new();
    let ids = register_n_tasks(&mut s, MAX_BATCH_READ);
    let tasks = s.registry.get_tasks(&ids).unwrap();
    assert_eq!(tasks.len(), MAX_BATCH_READ as usize);
    for (i, &id) in ids.iter().enumerate() {
        assert_eq!(tasks[i], Some(s.task(id)));
    }
}

#[test]
fn test_get_tasks_returns_none_for_missing_ids_without_failing() {
    let mut s = Setup::new();
    let live = register_n_tasks(&mut s, 3);
    let (a, b, c) = (live[0], live[1], live[2]);
    let requested = vec![a, 9_999u64, b, 0u64, c];
    let tasks = s.registry.get_tasks(&requested).unwrap();
    assert_eq!(tasks.len(), 5);
    assert_eq!(tasks[0], Some(s.task(a)));
    assert_eq!(tasks[1], None);
    assert_eq!(tasks[2], Some(s.task(b)));
    assert_eq!(tasks[3], None);
    assert_eq!(tasks[4], Some(s.task(c)));
}

#[test]
fn test_get_tasks_empty_input_returns_empty() {
    let mut s = Setup::new();
    register_default_task(&mut s);
    let tasks = s.registry.get_tasks(&Vec::new()).unwrap();
    assert_eq!(tasks.len(), 0);
}

#[test]
fn test_get_tasks_over_limit_fails() {
    let s = Setup::new();
    let ids: Vec<u64> = (1..=(MAX_BATCH_READ as u64 + 1)).collect();
    assert_eq!(ids.len(), MAX_BATCH_READ as usize + 1);
    assert_eq!(s.registry.get_tasks(&ids), Err(KeeperError::BatchTooLarge));
}

#[test]
fn test_get_tasks_duplicate_ids_resolved_independently() {
    let mut s = Setup::new();
    let id = register_default_task(&mut s);
    let tasks = s.registry.get_tasks(&vec![id, id, id]).unwrap();
    assert_eq!(tasks.len(), 3);
    let expected = Some(s.task(id));
    for t in &tasks {
        assert_eq!(*t, expected);
    }
}

#[test]
fn test_get_tasks_on_uninitialized_registry_returns_all_none() {
    let s = Setup::uninitialized();
    let tasks = s.registry.get_tasks(&vec![1u64, 2u64]).unwrap();
    assert_eq!(tasks.len(), 2);
    assert_eq!(tasks[0], None);
    assert_eq!(tasks[1], None);
}

#[test]
fn test_get_tasks_range_scans_contiguous_ids() {
    let mut s = Setup::new();
    let ids = register_n_tasks(&mut s, 5);
    let ranged = s.registry.get_tasks_range(ids[0], 5).unwrap();
    let listed = s.registry.get_tasks(&ids).unwrap();
    assert_eq!(ranged, listed);
    assert_eq!(ranged.len(), 5);
    for t in &ranged {
        assert!(t.is_some());
    }
}

#[test]
fn test_get_tasks_range_returns_none_past_the_last_allocated_id() {
    let mut s = Setup::new();
    register_n_tasks(&mut s, 2);
    assert_eq!(s.registry.task_count(), 2u64);
    let tasks = s.registry.get_tasks_range(1, 4).unwrap();
    assert_eq!(tasks.len(), 4);
    assert!(tasks[0].is_some());
    assert!(tasks[1].is_some());
    assert_eq!(tasks[2], None);
    assert_eq!(tasks[3], None);
}

#[test]
fn test_get_tasks_range_zero_count_returns_empty() {
    let mut s = Setup::new();
    register_default_task(&mut s);
    assert_eq!(s.registry.get_tasks_range(1, 0).unwrap().len(), 0);
}

#[test]
fn test_get_tasks_range_at_limit_succeeds_and_over_limit_fails() {
    let mut s = Setup::new();
    register_n_tasks(&mut s, 3);
    let at_limit = s.registry.get_tasks_range(1, MAX_BATCH_READ).unwrap();
    assert_eq!(at_limit.len(), MAX_BATCH_READ as usize);
    assert_eq!(s.registry.get_tasks_range(1, MAX_BATCH_READ + 1), Err(KeeperError::BatchTooLarge));
}

#[test]
fn test_get_tasks_range_wrapping_past_u64_max_fails() {
    let mut s = Setup::new();
    register_default_task(&mut s);
    assert_eq!(s.registry.get_tasks_range(u64::MAX, 2), Err(KeeperError::ArithmeticOverflow));
    let edge = s.registry.get_tasks_range(u64::MAX - 1, 2).unwrap();
    assert_eq!(edge.len(), 2);
    assert_eq!(edge[0], None);
    assert_eq!(edge[1], None);
}

#[test]
fn test_batch_reads_reflect_lifecycle_transitions() {
    let mut s = Setup::new();
    let ids = register_n_tasks(&mut s, 2);
    let claimed_id = ids[0];
    let keeper = s.generate();
    s.claim(keeper, claimed_id).unwrap();
    let tasks = s.registry.get_tasks(&ids).unwrap();
    assert_eq!(tasks[0].as_ref().unwrap().status, TaskStatus::Claimed);
    assert_eq!(tasks[0].as_ref().unwrap().claimer, Some(keeper));
    assert_eq!(tasks[1].as_ref().unwrap().status, TaskStatus::Pending);
    assert_eq!(tasks[1].as_ref().unwrap().claimer, None);
}

#[test]
fn test_batch_reads_work_while_paused() {
    let mut s = Setup::new();
    let ids = register_n_tasks(&mut s, 2);
    let admin = s.admin;
    s.registry.pause(admin).unwrap();
    assert_eq!(s.registry.get_tasks(&ids).unwrap().len(), 2);
    assert_eq!(s.registry.get_tasks_range(1, 2).unwrap().len(), 2);
}

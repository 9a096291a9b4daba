//! Properties of the registry as a whole, proved from the contracts of its
//! entry points.
use vstd::prelude::*;
use crate::types::{Address, KeeperError, LedgerInfo, TaskStatus, BPS_DENOMINATOR};
use crate::rules::{spec_fee, spec_lock_expired, spec_split_reward, spec_unlock_at};
use crate::ledger::{
    balances_map, credit_sum, escrow_of, is_open, lemma_balances_map_index, open_escrow,
    unique_keepers,
};
use crate::registry::{is_settled, KeeperRegistry, RegistryView};

verus! {

/// Reward split: for a positive reward and a fee of at most 100%, the split
/// fails only when `reward * fee_bps` leaves `i128`; otherwise keeper net
/// and fee add up to the reward exactly, the fee lies between zero and the
/// reward, it is rounded down (the protocol collects at most the nominal
/// rate and less than one unit below it), and it is non-zero exactly when
/// `reward * fee_bps` reaches one whole basis-point denominator.
pub proof fn law_split_reward(reward: i128, fee_bps: u32)
    requires
        reward > 0,
        fee_bps <= BPS_DENOMINATOR,
    ensures
        spec_split_reward(reward, fee_bps) is Err <==> reward * fee_bps > i128::MAX,
        spec_split_reward(reward, fee_bps) matches Ok((net, fee)) ==> {
            &&& net + fee == reward
            &&& 0 <= fee <= reward
            &&& 0 <= net <= reward
            &&& fee * 10_000 <= reward * fee_bps < (fee + 1) * 10_000
            &&& (fee > 0 <==> reward * fee_bps >= 10_000)
        },
{
    assert(0 <= reward * fee_bps <= reward * 10_000) by (nonlinear_arith)
        requires
            reward > 0,
            fee_bps <= 10_000,
    ;
    let p = reward * fee_bps;
    assert(spec_fee(reward, fee_bps) == p / 10_000);
    assert(p / 10_000 <= reward) by (nonlinear_arith)
        requires
            0 <= p <= reward * 10_000,
    ;
    assert((p / 10_000) * 10_000 <= p < (p / 10_000 + 1) * 10_000) by (nonlinear_arith)
        requires
            p >= 0,
    ;
}

/// A zero fee never fails the split, whatever the reward: the keeper gets
/// all of it.
pub proof fn law_zero_fee_split(reward: i128)
    ensures
        spec_split_reward(reward, 0) == Ok::<(i128, i128), KeeperError>((reward, 0)),
{
}

/// The lock window: with no overflow a claim lapses exactly at
/// `claimed_at + lock_ledgers` (inclusive); when that sum overflows the
/// window saturates at `u32::MAX`, so an enormous window never looks lapsed
/// before the last ledger.
pub proof fn law_lock_window(claimed_at: u32, lock_ledgers: u32, current: u32)
    ensures
        claimed_at + lock_ledgers <= u32::MAX ==> (spec_lock_expired(
            Some(claimed_at),
            lock_ledgers,
            current,
        ) <==> current >= claimed_at + lock_ledgers),
        claimed_at + lock_ledgers > u32::MAX ==> {
            &&& spec_unlock_at(claimed_at, lock_ledgers) == u32::MAX
            &&& (spec_lock_expired(Some(claimed_at), lock_ledgers, current) <==> current
                == u32::MAX)
        },
        spec_lock_expired(None, lock_ledgers, current),
{
}

/// `is_claimable` predicts `claim_task`: on an unpaused registry a task is
/// claimable exactly when claiming it succeeds.
pub proof fn law_claimable_iff_claim_succeeds(v: RegistryView, task_id: u64, ledger: LedgerInfo)
    requires
        !v.paused,
    ensures
        v.claimable(task_id, ledger) <==> v.claim_error(task_id, ledger) is None,
{
}

/// The pause policy: while paused, every entry point that opens new
/// exposure (registering, batch registering, topping up, extending a
/// deadline, changing a verifier, claiming, executing) is refused with
/// `ContractPaused`, and the calls that only return value to its owners
/// (cancelling, expiring, withdrawing) behave exactly as when unpaused.
pub proof fn law_pause_policy(
    v: RegistryView,
    caller: Address,
    task_id: u64,
    amount: i128,
    deadline: u64,
    calldata_len: nat,
    ttl_ledgers: u32,
    lock_ledgers: u32,
    ps: Seq<crate::types::BatchTaskParams>,
    proof_len: nat,
    ledger: LedgerInfo,
)
    requires
        v.paused,
    ensures
        v.register_error(amount, deadline, calldata_len, ttl_ledgers, lock_ledgers, ledger.timestamp)
            == Some(KeeperError::ContractPaused),
        v.batch_error(ps, amount, ledger.timestamp) == Some(KeeperError::ContractPaused),
        v.increase_error(caller, task_id, amount) == Some(KeeperError::ContractPaused),
        v.extend_error(caller, task_id, deadline, ledger.timestamp) == Some(
            KeeperError::ContractPaused,
        ),
        v.update_verifier_error(caller, task_id) == Some(KeeperError::ContractPaused),
        v.claim_error(task_id, ledger) == Some(KeeperError::ContractPaused),
        v.execution_gate(caller, task_id, proof_len, ledger.timestamp) == Err::<
            Option<Address>,
            KeeperError,
        >(KeeperError::ContractPaused),
        v.cancel_error(caller, task_id, ledger) == (RegistryView { paused: false, ..v }).cancel_error(
            caller,
            task_id,
            ledger,
        ),
        v.expire_error(task_id, ledger) == (RegistryView { paused: false, ..v }).expire_error(
            task_id,
            ledger,
        ),
        v.withdraw_error(caller) == (RegistryView { paused: false, ..v }).withdraw_error(caller),
{
}

/// Withdrawal liveness: a keeper with a positive balance can always
/// withdraw it while a reward token is configured, paused or not.
pub proof fn law_withdraw_always_open(v: RegistryView, keeper: Address)
    requires
        v.balance_of(keeper) > 0,
        v.reward_token is Some,
    ensures
        v.withdraw_error(keeper) is None,
{
}

/// Single payout: a task in a final state is refused by every entry point
/// that could pay it out, credit it, or change it.
pub proof fn law_settled_task_is_final(
    v: RegistryView,
    caller: Address,
    task_id: u64,
    amount: i128,
    deadline: u64,
    proof_len: nat,
    ledger: LedgerInfo,
)
    requires
        v.has_task(task_id),
        is_settled(v.task(task_id)),
    ensures
        v.claim_error(task_id, ledger) is Some,
        v.execution_gate(caller, task_id, proof_len, ledger.timestamp) is Err,
        v.cancel_error(caller, task_id, ledger) is Some,
        v.expire_error(task_id, ledger) is Some,
        v.increase_error(caller, task_id, amount) is Some,
        v.extend_error(caller, task_id, deadline, ledger.timestamp) is Some,
        v.update_verifier_error(caller, task_id) is Some,
{
}

/// Escrow recoverability: while a reward token is configured, the escrow of
/// an open task can always be returned to its owner, paused or not: by
/// anyone's expiry once the deadline has passed, and by the owner's cancel
/// while the task is pending or once its claim's lock has lapsed.
pub proof fn law_escrow_recoverable(v: RegistryView, task_id: u64, ledger: LedgerInfo)
    requires
        v.has_task(task_id),
        is_open(v.task(task_id)),
        v.reward_token is Some,
    ensures
        ledger.timestamp >= v.task(task_id).deadline ==> v.expire_error(task_id, ledger) is None,
        (v.task(task_id).status == TaskStatus::Pending || spec_lock_expired(
            v.task(task_id).claim_ledger,
            v.task(task_id).lock_ledgers,
            ledger.sequence,
        )) ==> v.cancel_error(v.task(task_id).owner, task_id, ledger) is None,
{
}

/// Task ids are never reused: after any sequence of calls, the id the next
/// registration hands out (one past the last task) names no task that
/// existed before, and every task that existed keeps its id.
pub proof fn law_task_ids_fresh(earlier: RegistryView, later: RegistryView, id: u64)
    requires
        earlier.evolves_to(later),
        id == later.tasks.len() + 1,
    ensures
        !earlier.has_task(id),
        forall|old_id: u64| earlier.has_task(old_id) ==> #[trigger] later.has_task(old_id),
{
}

/// Deadline extensions keep the storage margin: an extension of an existing
/// task succeeds only if the task's `ttl_ledgers` covers the ledgers until
/// the new deadline (five seconds each, rounded down) plus the 17_280-ledger
/// safety margin; and on an unpaused registry the owner's extension of a
/// pending or claimed task to a later deadline that its `ttl_ledgers` covers
/// in that way succeeds.
pub proof fn law_extend_deadline_keeps_ttl_margin(
    v: RegistryView,
    owner: Address,
    task_id: u64,
    new_deadline: u64,
    now: u64,
)
    requires
        v.has_task(task_id),
    ensures
        v.extend_error(owner, task_id, new_deadline, now) is None ==> v.task(task_id).ttl_ledgers
            >= (if new_deadline >= now { new_deadline - now } else { 0int }) / 5 + 17_280,
        ({
            &&& !v.paused
            &&& v.task(task_id).owner == owner
            &&& (v.task(task_id).status == TaskStatus::Pending || v.task(task_id).status
                == TaskStatus::Claimed)
            &&& new_deadline > v.task(task_id).deadline
            &&& v.task(task_id).ttl_ledgers >= (if new_deadline >= now {
                new_deadline - now
            } else {
                0int
            }) / 5 + 17_280
        }) ==> v.extend_error(owner, task_id, new_deadline, now) is None,
{
}

/// Top-ups are open while a task is open: on an unpaused registry with a
/// reward token, the owner's positive top-up of a pending or claimed task
/// succeeds; and any successful top-up was by the task's owner, of a
/// positive amount, on a pending or claimed task.
pub proof fn law_increase_reward_open_task(v: RegistryView, owner: Address, task_id: u64, additional: i128)
    requires
        v.has_task(task_id),
    ensures
        ({
            &&& !v.paused
            &&& v.reward_token is Some
            &&& additional > 0
            &&& v.task(task_id).owner == owner
            &&& (v.task(task_id).status == TaskStatus::Pending || v.task(task_id).status
                == TaskStatus::Claimed)
        }) ==> v.increase_error(owner, task_id, additional) is None,
        v.increase_error(owner, task_id, additional) is None ==> {
            &&& !v.paused
            &&& additional > 0
            &&& v.task(task_id).owner == owner
            &&& (v.task(task_id).status == TaskStatus::Pending || v.task(task_id).status
                == TaskStatus::Claimed)
        },
{
}

/// The way states evolve composes: over any sequence of calls no task
/// disappears and a settled task never changes.
pub proof fn law_evolution_composes(a: RegistryView, b: RegistryView, c: RegistryView)
    requires
        a.evolves_to(b),
        b.evolves_to(c),
    ensures
        a.evolves_to(c),
{
    assert forall|i: int| 0 <= i < a.tasks.len() && is_settled(#[trigger] a.tasks[i]) implies c.tasks[i]
        == a.tasks[i] by {
        assert(b.tasks[i] == a.tasks[i]);
    }
}

/// Solvency step: if the registry holds at least what it owes, then after
/// a call whose obligations moved by exactly the tokens it moved, it still
/// holds at least what it owes.
pub proof fn law_solvency_step(before: RegistryView, after: RegistryView, held: int, moved: int)
    requires
        held >= before.liabilities(),
        after.liabilities() == before.liabilities() + moved,
    ensures
        held + moved >= after.liabilities(),
{
}

proof fn lemma_escrow_nonneg(s: Seq<crate::types::TaskView>)
    requires
        forall|i: int| 0 <= i < s.len() ==> #[trigger] s[i].reward > 0,
    ensures
        open_escrow(s) >= 0,
    decreases s.len(),
{
    if s.len() > 0 {
        assert forall|i: int| 0 <= i < s.drop_last().len() implies #[trigger] s.drop_last()[i].reward
            > 0 by {
            assert(s.drop_last()[i] == s[i]);
        }
        lemma_escrow_nonneg(s.drop_last());
        assert(s.last().reward > 0);
    }
}

/// A registry never owes a negative amount: open escrow, keeper credit and
/// accrued fees are each non-negative. Together with the conservation
/// clause of every entry point and a fresh registry owing nothing, the
/// registry's token holdings always cover everything it owes.
pub proof fn law_obligations_nonnegative(r: &KeeperRegistry)
    requires
        r.wf(),
    ensures
        open_escrow(r@.tasks) >= 0,
        r@.credited_total >= 0,
        r@.fees_accrued >= 0,
        r@.liabilities() >= 0,
{
    lemma_escrow_nonneg(r@.tasks);
    r.lemma_credit_nonneg();
}

} // verus!

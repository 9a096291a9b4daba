//! The registry's arithmetic: the reward split, the lock window and the
//! storage lifetime a deadline needs.
use vstd::prelude::*;
use crate::types::{KeeperError, BPS_DENOMINATOR, SECONDS_PER_LEDGER, TTL_SAFETY_MARGIN_LEDGERS};

verus! {

/// Integer division truncating toward zero, as Rust's `/` does, for a
/// positive divisor.
pub open spec fn trunc_div(x: int, d: int) -> int
    recommends
        d > 0,
{
    if x >= 0 {
        x / d
    } else {
        -((-x) / d)
    }
}

/// Whether `x` fits in an `i128`.
pub open spec fn fits_i128(x: int) -> bool {
    i128::MIN <= x <= i128::MAX
}

/// The protocol fee taken from `reward` at `fee_bps`: the product truncated
/// toward zero, in basis points.
pub open spec fn spec_fee(reward: i128, fee_bps: u32) -> int {
    trunc_div(reward * fee_bps, BPS_DENOMINATOR as int)
}

/// What [`split_reward`] returns: `(keeper_net, protocol_fee)`, or
/// `ArithmeticOverflow` when the product or the difference leaves `i128`.
pub open spec fn spec_split_reward(reward: i128, fee_bps: u32) -> Result<(i128, i128), KeeperError> {
    if !fits_i128(reward * fee_bps) {
        Err(KeeperError::ArithmeticOverflow)
    } else if !fits_i128(reward - spec_fee(reward, fee_bps)) {
        Err(KeeperError::ArithmeticOverflow)
    } else {
        Ok(((reward - spec_fee(reward, fee_bps)) as i128, spec_fee(reward, fee_bps) as i128))
    }
}

/// Splits `reward` into `(keeper_net, protocol_fee)`. The fee is
/// `reward * fee_bps / 10_000` truncated toward zero and the keeper receives
/// the remainder, so `keeper_net + protocol_fee == reward` always.
pub fn split_reward(reward: i128, fee_bps: u32) -> (r: Result<(i128, i128), KeeperError>)
    ensures
        r == spec_split_reward(reward, fee_bps),
        r matches Ok((net, fee)) ==> net + fee == reward,
{
    let rate = fee_bps as i128;
    let product = match reward.checked_mul(rate) {
        Some(p) => p,
        None => {
            return Err(KeeperError::ArithmeticOverflow);
        },
    };
    let fee = match product.checked_div(10_000) {
        Some(f) => f,
        None => {
            return Err(KeeperError::ArithmeticOverflow);
        },
    };
    assert(fee == spec_fee(reward, fee_bps)) by (nonlinear_arith)
        requires
            product == reward * fee_bps,
            fee == (if product == 0 {
                0
            } else if product > 0 {
                product as int / 10_000
            } else {
                ((product * -1) / 10_000) * -1
            }),
    ;
    let net = match reward.checked_sub(fee) {
        Some(n) => n,
        None => {
            return Err(KeeperError::ArithmeticOverflow);
        },
    };
    Ok((net, fee))
}

/// The ledger at which a claim made at `claimed_at` stops being exclusive.
pub open spec fn spec_unlock_at(claimed_at: u32, lock_ledgers: u32) -> u32 {
    if claimed_at + lock_ledgers > u32::MAX {
        u32::MAX
    } else {
        (claimed_at + lock_ledgers) as u32
    }
}

/// Whether a claim recorded at `claim_ledger` with window `lock_ledgers` has
/// lapsed at ledger `current`. The boundary is inclusive; a task without a
/// recorded claim ledger holds no lock.
pub open spec fn spec_lock_expired(claim_ledger: Option<u32>, lock_ledgers: u32, current: u32) -> bool {
    match claim_ledger {
        Some(claimed_at) => current >= spec_unlock_at(claimed_at, lock_ledgers),
        None => true,
    }
}

/// True once a claimed task's exclusive lock window has elapsed, so any
/// keeper may re-claim it (or its owner cancel it).
pub fn lock_expired(claim_ledger: Option<u32>, lock_ledgers: u32, current: u32) -> (r: bool)
    ensures
        r == spec_lock_expired(claim_ledger, lock_ledgers, current),
{
    match claim_ledger {
        Some(claimed_at) => {
            let unlock_at = claimed_at.saturating_add(lock_ledgers);
            current >= unlock_at
        },
        None => true,
    }
}

/// Minimum `ttl_ledgers` a task with `deadline` needs at time `now`: the
/// ledgers until the deadline (at five seconds per ledger, rounded down) plus
/// a safety margin.
pub open spec fn spec_required_ttl_ledgers(deadline: u64, now: u64) -> int {
    (if deadline >= now { deadline - now } else { 0int }) / (SECONDS_PER_LEDGER as int)
        + TTL_SAFETY_MARGIN_LEDGERS as int
}

/// Minimum `ttl_ledgers` a task with `deadline` must be stored with at `now`
/// so its entry cannot be evicted while the escrow it guards is live.
pub fn required_ttl_ledgers(deadline: u64, now: u64) -> (r: u64)
    ensures
        r == spec_required_ttl_ledgers(deadline, now),
{
    let seconds_until_deadline = deadline.saturating_sub(now);
    let ledgers_until_deadline = seconds_until_deadline / SECONDS_PER_LEDGER;
    ledgers_until_deadline + TTL_SAFETY_MARGIN_LEDGERS as u64
}


/// For a non-negative reward and a fee of at most 100%, the fee is between
/// zero and the reward, so the keeper's net is non-negative too.
pub proof fn lemma_fee_within_reward(reward: i128, fee_bps: u32)
    requires
        reward >= 0,
        fee_bps <= BPS_DENOMINATOR,
    ensures
        0 <= spec_fee(reward, fee_bps) <= reward,
{
    assert(0 <= reward * fee_bps <= reward * 10_000) by (nonlinear_arith)
        requires
            reward >= 0,
            fee_bps <= 10_000,
    ;
    assert((reward * fee_bps) / 10_000 <= reward) by (nonlinear_arith)
        requires
            0 <= reward * fee_bps <= reward * 10_000,
    ;
}

} // verus!

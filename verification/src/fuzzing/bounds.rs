//! Boundary-biased values for single-task registration and the reference
//! model of the lock-window comparison.
use vstd::prelude::*;
use crate::types::{MAX_CALLDATA_LEN, MAX_LOCK_LEDGERS, MIN_LOCK_LEDGERS, MIN_TTL_LEDGERS};
use crate::rules::{spec_lock_expired, spec_unlock_at};

verus! {

/// Reference model of the lock-window comparison: the lock has lapsed once
/// the current ledger reaches `claimed_at + lock_ledgers`, saturating at
/// `u32::MAX`.
pub fn lock_expired_reference(claimed_at: u32, lock_ledgers: u32, current_ledger: u32) -> (r: bool)
    ensures
        r == spec_lock_expired(Some(claimed_at), lock_ledgers, current_ledger),
{
    current_ledger >= claimed_at.saturating_add(lock_ledgers)
}

/// Evaluates the lock-expiry invariant on one input: when the window sum
/// overflows, the unlock ledger saturates at `u32::MAX` and the lock does
/// not look lapsed before it; and in every case the reference agrees with
/// the direct comparison. Returns whether every check held, which it always
/// does.
pub fn assert_lock_expiry_invariant(claimed_at: u32, lock_ledgers: u32, current_ledger: u32) -> (holds: bool)
    ensures
        holds,
{
    let unlock_at = claimed_at.saturating_add(lock_ledgers);
    let expired = lock_expired_reference(claimed_at, lock_ledgers, current_ledger);
    let mut holds = true;
    if claimed_at.checked_add(lock_ledgers).is_none() {
        holds = holds && unlock_at == u32::MAX;
        if current_ledger < u32::MAX {
            holds = holds && !expired;
        }
    }
    holds = holds && (expired == (current_ledger >= unlock_at));
    holds
}

/// A lock window concentrated on the documented bounds, from `seed % 8`.
pub open spec fn spec_boundary_biased_lock(seed: u32) -> u32 {
    let k = seed % 8;
    if k == 0 {
        0
    } else if k == 1 {
        (MIN_LOCK_LEDGERS - 1) as u32
    } else if k == 2 {
        MIN_LOCK_LEDGERS
    } else if k == 3 {
        (MIN_LOCK_LEDGERS + 1) as u32
    } else if k == 4 {
        (MAX_LOCK_LEDGERS - 1) as u32
    } else if k == 5 {
        MAX_LOCK_LEDGERS
    } else if k == 6 {
        (MAX_LOCK_LEDGERS + 1) as u32
    } else {
        u32::MAX
    }
}

/// A lock window concentrated on the documented bounds.
pub fn boundary_biased_lock(seed: u32) -> (r: u32)
    ensures
        r == spec_boundary_biased_lock(seed),
{
    match seed % 8 {
        0 => 0,
        1 => MIN_LOCK_LEDGERS - 1,
        2 => MIN_LOCK_LEDGERS,
        3 => MIN_LOCK_LEDGERS + 1,
        4 => MAX_LOCK_LEDGERS - 1,
        5 => MAX_LOCK_LEDGERS,
        6 => MAX_LOCK_LEDGERS + 1,
        _ => u32::MAX,
    }
}

/// A storage lifetime concentrated on the documented floor, from `seed % 8`.
pub open spec fn spec_boundary_biased_ttl(seed: u32) -> u32 {
    let k = seed % 8;
    if k == 0 {
        0
    } else if k == 1 {
        (MIN_TTL_LEDGERS - 1) as u32
    } else if k == 2 {
        MIN_TTL_LEDGERS
    } else if k == 3 {
        (MIN_TTL_LEDGERS + 1) as u32
    } else if k == 4 {
        (MIN_TTL_LEDGERS + 2) as u32
    } else if k == 5 {
        u32::MAX
    } else if k == 6 {
        (MIN_TTL_LEDGERS + seed % 1_000) as u32
    } else if seed >= MIN_TTL_LEDGERS {
        seed
    } else {
        MIN_TTL_LEDGERS
    }
}

/// A storage lifetime concentrated on the documented floor.
pub fn boundary_biased_ttl(seed: u32) -> (r: u32)
    ensures
        r == spec_boundary_biased_ttl(seed),
{
    match seed % 8 {
        0 => 0,
        1 => MIN_TTL_LEDGERS - 1,
        2 => MIN_TTL_LEDGERS,
        3 => MIN_TTL_LEDGERS + 1,
        4 => MIN_TTL_LEDGERS + 2,
        5 => u32::MAX,
        6 => MIN_TTL_LEDGERS + (seed % 1_000),
        _ => if seed >= MIN_TTL_LEDGERS {
            seed
        } else {
            MIN_TTL_LEDGERS
        },
    }
}

/// A calldata length concentrated on `MAX_CALLDATA_LEN`, from `seed % 10`.
pub open spec fn spec_boundary_biased_calldata_len(seed: u32) -> u32 {
    let max = MAX_CALLDATA_LEN as int;
    let s = seed as int;
    let k = seed % 10;
    (if k == 0 {
        0
    } else if k == 1 {
        1
    } else if k == 2 {
        max - 1
    } else if k == 3 {
        max
    } else if k == 4 {
        max + 1
    } else if k == 5 {
        max + 64
    } else if k == 6 {
        max * 2
    } else if k == 7 {
        s % max
    } else if k == 8 {
        max + s % 256
    } else {
        let r = s % (max * 2 + 1);
        if r >= 1 {
            r
        } else {
            1
        }
    }) as u32
}

/// A calldata length concentrated on `MAX_CALLDATA_LEN`: empty, one byte,
/// just under, at, just over, modestly over, twice, and scattered values.
pub fn boundary_biased_calldata_len(seed: u32) -> (r: u32)
    ensures
        r == spec_boundary_biased_calldata_len(seed),
{
    let max = MAX_CALLDATA_LEN;
    match seed % 10 {
        0 => 0,
        1 => 1,
        2 => max.saturating_sub(1),
        3 => max,
        4 => max.saturating_add(1),
        5 => max.saturating_add(64),
        6 => max * 2,
        7 => seed % max,
        8 => max.saturating_add(seed % 256),
        _ => {
            let r = seed % (max * 2 + 1);
            if r >= 1 {
                r
            } else {
                1
            }
        },
    }
}

} // verus!

//! Boundary-biased batch registrations and an independent prediction of
//! their outcome from the documented rules.
use vstd::prelude::*;
use crate::types::{
    BatchTaskParams, KeeperError, TaskType, MAX_BATCH_ENTRIES, MAX_BATCH_SIZE, MAX_LOCK_LEDGERS,
    MIN_LOCK_LEDGERS, MIN_TTL_LEDGERS,
};
use crate::rules::spec_required_ttl_ledgers;
use crate::registry::RegistryView;

verus! {

/// Largest batch the generator builds: twice the accepted size, so the size
/// bound is crossed often.
pub const MAX_GENERATED_ENTRIES: u32 = 64;

/// Per-entry seeds, one byte each.
#[derive(Debug, Clone, Copy, Default, PartialEq, Eq, Structural)]
pub struct EntrySeed {
    pub reward: u8,
    pub deadline: u8,
    pub ttl: u8,
    pub lock: u8,
}

/// The reward an entry seed stands for, from `seed % 6`.
pub open spec fn spec_biased_reward(seed: u8) -> i128 {
    let k = seed % 6;
    if k == 0 {
        0
    } else if k == 1 {
        -1i128
    } else if k == 2 {
        1
    } else if k == 3 {
        i128::MAX
    } else if k == 4 {
        1_000
    } else {
        (seed + 1) as i128
    }
}

/// A reward biased toward the validity boundaries: zero and negative
/// (rejected), the smallest positive, `i128::MAX` (overflows when summed),
/// and ordinary values.
pub fn biased_reward(seed: u8) -> (r: i128)
    ensures
        r == spec_biased_reward(seed),
{
    match seed % 6 {
        0 => 0,
        1 => -1,
        2 => 1,
        3 => i128::MAX,
        4 => 1_000,
        _ => seed as i128 + 1,
    }
}

/// The lock window an entry seed stands for, from `seed % 7`.
pub open spec fn spec_biased_lock(seed: u8) -> u32 {
    let k = seed % 7;
    if k == 0 {
        0
    } else if k == 1 {
        (MIN_LOCK_LEDGERS - 1) as u32
    } else if k == 2 {
        MIN_LOCK_LEDGERS
    } else if k == 3 {
        MAX_LOCK_LEDGERS
    } else if k == 4 {
        (MAX_LOCK_LEDGERS + 1) as u32
    } else if k == 5 {
        u32::MAX
    } else {
        (MIN_LOCK_LEDGERS + seed) as u32
    }
}

/// A lock window biased toward its bounds.
pub fn biased_lock(seed: u8) -> (r: u32)
    ensures
        r == spec_biased_lock(seed),
{
    match seed % 7 {
        0 => 0,
        1 => MIN_LOCK_LEDGERS - 1,
        2 => MIN_LOCK_LEDGERS,
        3 => MAX_LOCK_LEDGERS,
        4 => MAX_LOCK_LEDGERS + 1,
        5 => u32::MAX,
        _ => MIN_LOCK_LEDGERS + seed as u32,
    }
}

/// The storage lifetime an entry seed stands for, from `seed % 7`.
pub open spec fn spec_biased_ttl(seed: u8) -> u32 {
    let k = seed % 7;
    if k == 0 {
        0
    } else if k == 1 {
        (MIN_TTL_LEDGERS - 1) as u32
    } else if k == 2 {
        MIN_TTL_LEDGERS
    } else if k == 3 {
        (MIN_TTL_LEDGERS + 1) as u32
    } else if k == 4 {
        u32::MAX
    } else if k == 5 {
        20_000
    } else {
        (MIN_TTL_LEDGERS + seed * 100) as u32
    }
}

/// A storage lifetime biased toward its floor.
pub fn biased_ttl(seed: u8) -> (r: u32)
    ensures
        r == spec_biased_ttl(seed),
{
    match seed % 7 {
        0 => 0,
        1 => MIN_TTL_LEDGERS - 1,
        2 => MIN_TTL_LEDGERS,
        3 => MIN_TTL_LEDGERS + 1,
        4 => u32::MAX,
        5 => 20_000,
        _ => MIN_TTL_LEDGERS + seed as u32 * 100,
    }
}

/// Seconds past now an entry seed stands for, from `seed % 5`.
pub open spec fn spec_biased_deadline_offset(seed: u8) -> u64 {
    let k = seed % 5;
    if k == 0 {
        0
    } else if k == 1 {
        1
    } else if k == 2 {
        3_600
    } else if k == 3 {
        86_400
    } else {
        (seed * 60) as u64
    }
}

/// Seconds past now for an entry's deadline; zero means already passed.
pub fn biased_deadline_offset(seed: u8) -> (r: u64)
    ensures
        r == spec_biased_deadline_offset(seed),
{
    match seed % 5 {
        0 => 0,
        1 => 1,
        2 => 3_600,
        3 => 86_400,
        _ => seed as u64 * 60,
    }
}

/// The reward ceiling a seed selects, from `seed % 4`: unbounded, exactly
/// the total, one below it, or a fixed multiple of the seed (the last also
/// whenever the total overflowed).
pub open spec fn spec_ceiling_for(seed: u8, total: i128, overflowed: bool) -> i128 {
    let k = seed % 4;
    if k == 0 {
        i128::MAX
    } else if k == 1 && !overflowed {
        total
    } else if k == 2 && !overflowed {
        if total == i128::MIN {
            total
        } else {
            (total - 1) as i128
        }
    } else {
        (seed * 1_000) as i128
    }
}

/// The reward ceiling a seed selects for a batch with the given total.
pub fn ceiling_for(seed: u8, total: i128, overflowed: bool) -> (r: i128)
    ensures
        r == spec_ceiling_for(seed, total, overflowed),
{
    let k = seed % 4;
    if k == 0 {
        i128::MAX
    } else if k == 1 && !overflowed {
        total
    } else if k == 2 && !overflowed {
        if total == i128::MIN {
            total
        } else {
            total - 1
        }
    } else {
        seed as i128 * 1_000
    }
}

/// The deadline an entry seed stands for at `now`.
pub open spec fn seed_deadline(now: u64, s: EntrySeed) -> int {
    now + spec_biased_deadline_offset(s.deadline)
}

/// The documented rejection of one entry, if any.
pub open spec fn predict_entry(now: u64, s: EntrySeed) -> Option<KeeperError> {
    let reward = spec_biased_reward(s.reward);
    let deadline = seed_deadline(now, s);
    let ttl = spec_biased_ttl(s.ttl);
    let lock = spec_biased_lock(s.lock);
    if reward <= 0 {
        Some(KeeperError::InvalidReward)
    } else if deadline <= now {
        Some(KeeperError::DeadlinePassed)
    } else if !(MIN_LOCK_LEDGERS <= lock <= MAX_LOCK_LEDGERS) {
        Some(KeeperError::InvalidTaskParams)
    } else if ttl < MIN_TTL_LEDGERS {
        Some(KeeperError::InvalidTaskParams)
    } else if ttl < spec_required_ttl_ledgers(deadline as u64, now) {
        Some(KeeperError::TtlTooShort)
    } else {
        None
    }
}

/// Entries in order: the first predicted rejection, or the total reward.
pub open spec fn predict_scan(now: u64, es: Seq<EntrySeed>) -> Result<int, KeeperError>
    decreases es.len(),
{
    if es.len() == 0 {
        Ok(0)
    } else {
        match predict_scan(now, es.drop_last()) {
            Err(e) => Err(e),
            Ok(total) => match predict_entry(now, es.last()) {
                Some(e) => Err(e),
                None => if total + spec_biased_reward(es.last().reward) > i128::MAX {
                    Err(KeeperError::ArithmeticOverflow)
                } else {
                    Ok(total + spec_biased_reward(es.last().reward))
                },
            },
        }
    }
}

/// Whether the prediction reaches an entry whose deadline leaves `u64`.
pub open spec fn predict_overflows(now: u64, es: Seq<EntrySeed>) -> bool
    decreases es.len(),
{
    if es.len() == 0 {
        false
    } else {
        predict_overflows(now, es.drop_last()) || (predict_scan(now, es.drop_last()) is Ok
            && seed_deadline(now, es.last()) > u64::MAX)
    }
}

/// The predicted outcome of a batch: the size bound, then each entry in
/// order, then the ceiling.
pub open spec fn spec_predict(now: u64, es: Seq<EntrySeed>, ceiling: i128) -> Option<KeeperError> {
    if (es.len() as u32) > MAX_BATCH_ENTRIES {
        Some(KeeperError::BatchTooLarge)
    } else {
        match predict_scan(now, es) {
            Err(e) => Some(e),
            Ok(total) => if total > ceiling {
                Some(KeeperError::BatchRewardCeilingExceeded)
            } else {
                None
            },
        }
    }
}

/// Computes, from the documented rules alone, what registering the batch
/// the seeds stand for must return at `now`.
pub fn predict(now: u64, entries: &[EntrySeed], ceiling: i128) -> (r: Option<KeeperError>)
    requires
        !predict_overflows(now, entries@),
    ensures
        r == spec_predict(now, entries@, ceiling),
{
    if #[verifier::truncate] (entries.len() as u32) > MAX_BATCH_ENTRIES {
        return Some(KeeperError::BatchTooLarge);
    }
    let mut total: i128 = 0;
    let mut i: usize = 0;
    proof {
        assert(entries@.take(0) =~= Seq::<EntrySeed>::empty());
        lemma_no_overflow_prefix(now, entries@, entries@.len() as int);
        assert(entries@.take(entries@.len() as int) =~= entries@);
    }
    while i < entries.len()
        invariant
            i <= entries@.len(),
            (entries@.len() as u32) <= MAX_BATCH_ENTRIES,
            !predict_overflows(now, entries@),
            predict_scan(now, entries@.take(i as int)) == Ok::<int, KeeperError>(total as int),
        decreases entries@.len() - i,
    {
        let seed = entries[i];
        proof {
            assert(entries@.take(i + 1).drop_last() =~= entries@.take(i as int));
            assert(entries@.take(i + 1).last() == seed);
            lemma_no_overflow_prefix(now, entries@, i + 1);
        }
        let reward = biased_reward(seed.reward);
        let deadline = now + biased_deadline_offset(seed.deadline);
        let ttl = biased_ttl(seed.ttl);
        let lock = biased_lock(seed.lock);
        if reward <= 0 {
            proof {
                lemma_predict_error_extends(now, entries@, i + 1);
            }
            return Some(KeeperError::InvalidReward);
        }
        if deadline <= now {
            proof {
                lemma_predict_error_extends(now, entries@, i + 1);
            }
            return Some(KeeperError::DeadlinePassed);
        }
        if !(MIN_LOCK_LEDGERS <= lock && lock <= MAX_LOCK_LEDGERS) {
            proof {
                lemma_predict_error_extends(now, entries@, i + 1);
            }
            return Some(KeeperError::InvalidTaskParams);
        }
        if ttl < MIN_TTL_LEDGERS {
            proof {
                lemma_predict_error_extends(now, entries@, i + 1);
            }
            return Some(KeeperError::InvalidTaskParams);
        }
        let required = deadline.saturating_sub(now) / 5 + 17_280;
        if (ttl as u64) < required {
            proof {
                lemma_predict_error_extends(now, entries@, i + 1);
            }
            return Some(KeeperError::TtlTooShort);
        }
        total = match total.checked_add(reward) {
            Some(sum) => sum,
            None => {
                proof {
                    lemma_predict_error_extends(now, entries@, i + 1);
                }
                return Some(KeeperError::ArithmeticOverflow);
            },
        };
        i = i + 1;
    }
    proof {
        assert(entries@.take(entries@.len() as int) =~= entries@);
    }
    if total > ceiling {
        return Some(KeeperError::BatchRewardCeilingExceeded);
    }
    None
}

/// Once a prefix of the seeds is rejected, the whole list is rejected the
/// same way.
pub proof fn lemma_predict_error_extends(now: u64, es: Seq<EntrySeed>, i: int)
    requires
        0 <= i <= es.len(),
        predict_scan(now, es.take(i)) is Err,
    ensures
        predict_scan(now, es) == predict_scan(now, es.take(i)),
    decreases es.len() - i,
{
    if i < es.len() {
        assert(es.take(i + 1).drop_last() =~= es.take(i));
        lemma_predict_error_extends(now, es, i + 1);
    } else {
        assert(es.take(i) =~= es);
    }
}

/// A list whose prediction never overflows has prefixes that never
/// overflow, and where a prefix passes, the next entry's deadline fits.
pub proof fn lemma_no_overflow_prefix(now: u64, es: Seq<EntrySeed>, i: int)
    requires
        0 <= i <= es.len(),
        !predict_overflows(now, es),
    ensures
        !predict_overflows(now, es.take(i)),
        i > 0 && predict_scan(now, es.take(i - 1)) is Ok ==> seed_deadline(now, es[i - 1])
            <= u64::MAX,
    decreases es.len() - i,
{
    if i < es.len() {
        assert(es.take(i + 1).drop_last() =~= es.take(i));
        lemma_no_overflow_prefix(now, es, i + 1);
        if i > 0 {
            assert(es.take(i).drop_last() =~= es.take(i - 1));
            assert(es.take(i).last() == es[i - 1]);
        }
    } else {
        assert(es.take(i) =~= es);
        if i > 0 {
            assert(es.drop_last() =~= es.take(i - 1));
        }
    }
}

/// The calldata every generated entry carries: `b"fuzz-batch"`.
pub open spec fn fuzz_calldata() -> Seq<u8> {
    seq![102u8, 117u8, 122u8, 122u8, 45u8, 98u8, 97u8, 116u8, 99u8, 104u8]
}

/// Whether `p` is the batch entry seed `s` stands for at `now`.
pub open spec fn params_match_seed(p: BatchTaskParams, s: EntrySeed, now: u64) -> bool {
    &&& p.task_type == TaskType::Liquidation
    &&& p.calldata@ == fuzz_calldata()
    &&& p.reward == spec_biased_reward(s.reward)
    &&& p.deadline == seed_deadline(now, s)
    &&& p.ttl_ledgers == spec_biased_ttl(s.ttl)
    &&& p.lock_ledgers == spec_biased_lock(s.lock)
}

/// Running total of the seeds' rewards, skipping (and flagging) any reward
/// that would overflow it.
pub open spec fn build_total(es: Seq<EntrySeed>) -> (int, bool)
    decreases es.len(),
{
    if es.len() == 0 {
        (0, false)
    } else {
        let (t, o) = build_total(es.drop_last());
        let r = spec_biased_reward(es.last().reward);
        if i128::MIN <= t + r <= i128::MAX {
            (t + r, o)
        } else {
            (t, true)
        }
    }
}

/// Builds the batch entries the seeds stand for at `now`, with the batch
/// total and whether that total overflowed.
pub fn build_params(entries: &[EntrySeed], now: u64) -> (r: (Vec<BatchTaskParams>, i128, bool))
    requires
        forall|k: int| 0 <= k < entries@.len() ==> seed_deadline(now, #[trigger] entries@[k])
            <= u64::MAX,
    ensures
        r.0@.len() == entries@.len(),
        forall|k: int| 0 <= k < entries@.len() ==> params_match_seed(#[trigger] r.0@[k], entries@[k], now),
        (r.1 as int, r.2) == build_total(entries@),
{
    let mut params: Vec<BatchTaskParams> = Vec::new();
    let mut total: i128 = 0;
    let mut overflowed = false;
    let mut i: usize = 0;
    proof {
        assert(entries@.take(0) =~= Seq::<EntrySeed>::empty());
    }
    while i < entries.len()
        invariant
            i <= entries@.len(),
            forall|k: int| 0 <= k < entries@.len() ==> seed_deadline(now, #[trigger] entries@[k])
                <= u64::MAX,
            params@.len() == i,
            forall|k: int| 0 <= k < i ==> params_match_seed(#[trigger] params@[k], entries@[k], now),
            (total as int, overflowed) == build_total(entries@.take(i as int)),
        decreases entries@.len() - i,
    {
        let seed = entries[i];
        proof {
            assert(entries@.take(i + 1).drop_last() =~= entries@.take(i as int));
            assert(entries@.take(i + 1).last() == seed);
        }
        let reward = biased_reward(seed.reward);
        let calldata: Vec<u8> = vec![102u8, 117u8, 122u8, 122u8, 45u8, 98u8, 97u8, 116u8, 99u8, 104u8];
        proof {
            assert(calldata@ =~= fuzz_calldata());
        }
        params.push(
            BatchTaskParams {
                task_type: TaskType::Liquidation,
                calldata,
                reward,
                deadline: now + biased_deadline_offset(seed.deadline),
                ttl_ledgers: biased_ttl(seed.ttl),
                lock_ledgers: biased_lock(seed.lock),
            },
        );
        match total.checked_add(reward) {
            Some(sum) => {
                total = sum;
            },
            None => {
                overflowed = true;
            },
        }
        i = i + 1;
    }
    proof {
        assert(entries@.take(entries@.len() as int) =~= entries@);
    }
    (params, total, overflowed)
}

/// The byte at `i`, or zero past the end.
pub open spec fn byte_or_zero(s: Seq<u8>, i: int) -> u8 {
    if 0 <= i < s.len() {
        s[i]
    } else {
        0
    }
}

/// The entry seed stored at position `i` of an input.
pub open spec fn seed_at(s: Seq<u8>, i: int) -> EntrySeed {
    EntrySeed {
        reward: byte_or_zero(s, 2 + i * 4),
        deadline: byte_or_zero(s, 2 + i * 4 + 1),
        ttl: byte_or_zero(s, 2 + i * 4 + 2),
        lock: byte_or_zero(s, 2 + i * 4 + 3),
    }
}

fn byte_or_zero_at(bytes: &[u8], i: usize) -> (r: u8)
    ensures
        r == byte_or_zero(bytes@, i as int),
{
    if i < bytes.len() {
        bytes[i]
    } else {
        0
    }
}

/// Decodes an input: byte 0 picks the entry count (modulo 65), byte 1 the
/// ceiling seed, and each entry takes four bytes from byte 2 on. Missing
/// bytes read as zero. Writes the entries to the front of `out` and returns
/// their count with the ceiling seed.
pub fn decode(bytes: &[u8], out: &mut [EntrySeed; 64]) -> (r: (usize, u8))
    ensures
        r.0 == byte_or_zero(bytes@, 0) % 65,
        r.1 == byte_or_zero(bytes@, 1),
        forall|i: int| 0 <= i < r.0 ==> #[trigger] final(out)@[i] == seed_at(bytes@, i),
        forall|i: int| r.0 <= i < 64 ==> #[trigger] final(out)@[i] == old(out)@[i],
{
    let count_seed = byte_or_zero_at(bytes, 0);
    let ceiling_seed = byte_or_zero_at(bytes, 1);
    let count = (count_seed % 65) as usize;
    let mut i: usize = 0;
    while i < count
        invariant
            count <= 64,
            i <= count,
            final(out)@.len() == 64,
            forall|j: int| 0 <= j < i ==> #[trigger] out@[j] == seed_at(bytes@, j),
            forall|j: int| i <= j < 64 ==> #[trigger] out@[j] == old(out)@[j],
        decreases count - i,
    {
        let base = 2 + i * 4;
        let seed = EntrySeed {
            reward: byte_or_zero_at(bytes, base),
            deadline: byte_or_zero_at(bytes, base + 1),
            ttl: byte_or_zero_at(bytes, base + 2),
            lock: byte_or_zero_at(bytes, base + 3),
        };
        out[i] = seed;
        i = i + 1;
    }
    (count, ceiling_seed)
}

/// One decoded input: the entry seeds (the first `count` are used) and the
/// ceiling seed.
pub struct BatchInput {
    pub entries: [EntrySeed; 64],
    pub count: usize,
    pub ceiling_seed: u8,
}

/// Decodes an input as [`decode`] does, starting from all-zero entries.
pub fn decode_input(bytes: &[u8]) -> (r: BatchInput)
    ensures
        r.count == byte_or_zero(bytes@, 0) % 65,
        r.ceiling_seed == byte_or_zero(bytes@, 1),
        forall|i: int| 0 <= i < r.count ==> #[trigger] r.entries@[i] == seed_at(bytes@, i),
        forall|i: int| r.count <= i < 64 ==> #[trigger] r.entries@[i] == (EntrySeed {
            reward: 0,
            deadline: 0,
            ttl: 0,
            lock: 0,
        }),
{
    let zero = EntrySeed { reward: 0, deadline: 0, ttl: 0, lock: 0 };
    let mut entries = [zero; 64];
    proof {
        assert(forall|i: int| 0 <= i < 64 ==> #[trigger] entries@[i] == zero);
    }
    let (count, ceiling_seed) = decode(bytes, &mut entries);
    BatchInput { entries, count, ceiling_seed }
}

/// The prediction and the registry agree on the batch seen entry by entry:
/// for a registry that is configured, unpaused, and whose minimum reward is
/// at most one, registering the entries the seeds stand for fails exactly
/// as predicted (or succeeds exactly when none is predicted).
pub proof fn law_predict_matches_registry(
    v: RegistryView,
    now: u64,
    es: Seq<EntrySeed>,
    ps: Seq<BatchTaskParams>,
    ceiling: i128,
)
    requires
        !v.paused,
        v.reward_token is Some,
        v.min_reward <= 1,
        es.len() > 0,
        es.len() <= u32::MAX,
        ceiling > 0,
        ps.len() == es.len(),
        forall|k: int| 0 <= k < es.len() ==> params_match_seed(#[trigger] ps[k], es[k], now),
    ensures
        spec_predict(now, es, ceiling) == v.batch_error(ps, ceiling, now),
{
    lemma_scans_agree(v, now, es, ps);
}

/// Entry by entry, the prediction's scan and the registry's scan agree.
pub proof fn lemma_scans_agree(v: RegistryView, now: u64, es: Seq<EntrySeed>, ps: Seq<BatchTaskParams>)
    requires
        v.reward_token is Some,
        v.min_reward <= 1,
        ps.len() == es.len(),
        forall|k: int| 0 <= k < es.len() ==> params_match_seed(#[trigger] ps[k], es[k], now),
    ensures
        predict_scan(now, es) == v.batch_scan(ps, now),
    decreases es.len(),
{
    if es.len() > 0 {
        let es1 = es.drop_last();
        let ps1 = ps.drop_last();
        assert forall|k: int| 0 <= k < es1.len() implies params_match_seed(
            #[trigger] ps1[k],
            es1[k],
            now,
        ) by {
            assert(ps1[k] == ps[k]);
            assert(es1[k] == es[k]);
        }
        lemma_scans_agree(v, now, es1, ps1);
        assert(params_match_seed(ps[es.len() - 1], es[es.len() - 1], now));
    }
}

} // verus!

//! Boundary seeds for execution inputs: a reward, a fee rate and a proof
//! length category, and their byte encoding.
use vstd::prelude::*;
use crate::bytes::{i128_to_le_bytes, le_bytes, twos_complement, u32_to_le_bytes};

verus! {

/// The largest fee rate, in basis points.
pub const FEE_BPS_MAX: u32 = 10_000;

/// Length of the fixed proof content every seed encodes.
pub const PROOF_CONTENT_LEN: usize = 8;

/// The proof length a selector picks, from `selector % 5`: just under the
/// limit, at it, just over it, a value up to the limit, or further over it.
pub open spec fn spec_proof_len_for(selector: u8, extra: u32, max_len: usize) -> int {
    let k = selector % 5;
    if k == 0 {
        if max_len >= 1 {
            max_len - 1
        } else {
            0
        }
    } else if k == 1 {
        max_len as int
    } else if k == 2 {
        max_len + 1
    } else if k == 3 {
        (extra as int) % (max_len + 1)
    } else {
        max_len + 2 + (extra as int) % 4_096
    }
}

/// The proof length a selector picks for a limit of `max_len` bytes.
pub fn proof_len_for(selector: u8, extra: u32, max_len: usize) -> (r: usize)
    requires
        selector % 5 == 2 || selector % 5 == 3 ==> max_len + 1 <= usize::MAX,
        selector % 5 == 4 ==> max_len + 2 + extra % 4_096 <= usize::MAX,
    ensures
        r == spec_proof_len_for(selector, extra, max_len),
{
    match selector % 5 {
        0 => max_len.saturating_sub(1),
        1 => max_len,
        2 => max_len + 1,
        3 => (extra as usize) % (max_len + 1),
        _ => max_len + 2 + (extra as usize % 4_096),
    }
}

/// The encoded proof content: eight `(continue, byte)` pairs, then a stop.
pub open spec fn proof_content_encoding() -> Seq<u8> {
    seq![1u8, 0xABu8, 1u8, 0xACu8, 1u8, 0xADu8, 1u8, 0xAEu8, 1u8, 0xAFu8, 1u8, 0xB0u8, 1u8, 0xB1u8, 1u8, 0xB2u8, 0u8]
}

/// The bytes of an execution seed: the reward (16 little-endian bytes), the
/// fee rate (4), the selector (1), the extra value (4), then the proof
/// content.
pub open spec fn spec_encode(reward: i128, fee_bps: u32, selector: u8, extra: u32) -> Seq<u8> {
    le_bytes(twos_complement(reward), 16) + le_bytes(fee_bps as nat, 4) + seq![selector] + le_bytes(
        extra as nat,
        4,
    ) + proof_content_encoding()
}

/// Encodes an execution seed.
pub fn encode(reward: i128, fee_bps: u32, selector: u8, extra: u32) -> (r: Vec<u8>)
    ensures
        r@ == spec_encode(reward, fee_bps, selector, extra),
{
    let mut bytes: Vec<u8> = i128_to_le_bytes(reward);
    let fee = u32_to_le_bytes(fee_bps);
    let mut k: usize = 0;
    let ghost start = bytes@;
    while k < fee.len()
        invariant
            k <= fee@.len(),
            bytes@ == start + fee@.subrange(0, k as int),
        decreases fee@.len() - k,
    {
        bytes.push(fee[k]);
        k = k + 1;
        assert(bytes@ =~= start + fee@.subrange(0, k as int));
    }
    assert(fee@.subrange(0, fee@.len() as int) =~= fee@);
    bytes.push(selector);
    let more = u32_to_le_bytes(extra);
    let ghost start2 = bytes@;
    let mut j: usize = 0;
    while j < more.len()
        invariant
            j <= more@.len(),
            bytes@ == start2 + more@.subrange(0, j as int),
        decreases more@.len() - j,
    {
        bytes.push(more[j]);
        j = j + 1;
        assert(bytes@ =~= start2 + more@.subrange(0, j as int));
    }
    assert(more@.subrange(0, more@.len() as int) =~= more@);
    let ghost start3 = bytes@;
    let mut i: usize = 0;
    while i < PROOF_CONTENT_LEN
        invariant
            i <= PROOF_CONTENT_LEN,
            bytes@ == start3 + proof_content_encoding().subrange(0, 2 * i as int),
        decreases PROOF_CONTENT_LEN - i,
    {
        bytes.push(1);
        bytes.push(0xABu8.wrapping_add(i as u8));
        i = i + 1;
        assert(bytes@ =~= start3 + proof_content_encoding().subrange(0, 2 * i as int));
    }
    bytes.push(0);
    assert(bytes@ =~= spec_encode(reward, fee_bps, selector, extra));
    bytes
}

/// One named execution seed.
pub struct Seed {
    pub name: &'static str,
    pub reward: i128,
    pub fee_bps: u32,
    pub selector: u8,
    pub extra: u32,
}

/// The execution seeds: the proof-length boundaries (under, at, over, far
/// over, empty), the fee-rate boundaries (zero, the maximum, one over) and
/// the smallest and a large reward.
pub fn seeds() -> (r: Vec<Seed>)
    ensures
        r@.len() == 10,
        r@[0].reward == 1_000_000 && r@[0].fee_bps == 500 && r@[0].selector == 0 && r@[0].extra == 0,
        r@[1].reward == 1_000_000 && r@[1].fee_bps == 500 && r@[1].selector == 1 && r@[1].extra == 0,
        r@[2].reward == 1_000_000 && r@[2].fee_bps == 500 && r@[2].selector == 2 && r@[2].extra == 0,
        r@[3].reward == 1_000_000 && r@[3].fee_bps == 500 && r@[3].selector == 4 && r@[3].extra == 100,
        r@[4].reward == 1_000_000 && r@[4].fee_bps == 500 && r@[4].selector == 3 && r@[4].extra == 0,
        r@[5].reward == 1_000_000 && r@[5].fee_bps == 0 && r@[5].selector == 3 && r@[5].extra == 32,
        r@[6].reward == 1_000_000 && r@[6].fee_bps == FEE_BPS_MAX && r@[6].selector == 3
            && r@[6].extra == 32,
        r@[7].reward == 1_000_000 && r@[7].fee_bps == FEE_BPS_MAX + 1 && r@[7].selector == 3
            && r@[7].extra == 32,
        r@[8].reward == 1 && r@[8].fee_bps == 500 && r@[8].selector == 3 && r@[8].extra == 32,
        r@[9].reward == 999_999_999 && r@[9].fee_bps == 500 && r@[9].selector == 3 && r@[9].extra
            == 32,
        r@[0].name@ == "proof_under_max_len"@,
        r@[1].name@ == "proof_at_max_len"@,
        r@[2].name@ == "proof_over_max_len"@,
        r@[3].name@ == "proof_far_over_max_len"@,
        r@[4].name@ == "proof_empty"@,
        r@[5].name@ == "fee_bps_zero"@,
        r@[6].name@ == "fee_bps_max"@,
        r@[7].name@ == "fee_bps_over_max"@,
        r@[8].name@ == "reward_minimal"@,
        r@[9].name@ == "reward_large"@,
{
    let mut v: Vec<Seed> = Vec::new();
    v.push(Seed { name: "proof_under_max_len", reward: 1_000_000, fee_bps: 500, selector: 0, extra: 0 });
    v.push(Seed { name: "proof_at_max_len", reward: 1_000_000, fee_bps: 500, selector: 1, extra: 0 });
    v.push(Seed { name: "proof_over_max_len", reward: 1_000_000, fee_bps: 500, selector: 2, extra: 0 });
    v.push(Seed { name: "proof_far_over_max_len", reward: 1_000_000, fee_bps: 500, selector: 4, extra: 100 });
    v.push(Seed { name: "proof_empty", reward: 1_000_000, fee_bps: 500, selector: 3, extra: 0 });
    v.push(Seed { name: "fee_bps_zero", reward: 1_000_000, fee_bps: 0, selector: 3, extra: 32 });
    v.push(Seed { name: "fee_bps_max", reward: 1_000_000, fee_bps: FEE_BPS_MAX, selector: 3, extra: 32 });
    v.push(Seed { name: "fee_bps_over_max", reward: 1_000_000, fee_bps: FEE_BPS_MAX + 1, selector: 3, extra: 32 });
    v.push(Seed { name: "reward_minimal", reward: 1, fee_bps: 500, selector: 3, extra: 32 });
    v.push(Seed { name: "reward_large", reward: 999_999_999, fee_bps: 500, selector: 3, extra: 32 });
    v
}

} // verus!

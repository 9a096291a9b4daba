//! The byte string a verifier binds a task to: the owner's encoding, the
//! calldata, the deadline and the reward.
use vstd::prelude::*;
use crate::types::Task;
use vstd::arithmetic::div_mod::lemma_small_mod;
use crate::bytes::{
    pow256,
    be_bytes, be_value, from_twos_complement, i128_to_be_bytes, le_bytes, lemma_be_roundtrip,
    lemma_pow256_bound, lemma_twos_complement_roundtrip, twos_complement, u64_to_be_bytes,
};

verus! {

/// The identity bytes of a task whose owner is encoded as `owner_encoding`:
/// that encoding, the calldata, the deadline as 8 big-endian bytes and the
/// reward as 16 big-endian two's-complement bytes.
pub open spec fn spec_task_identity(owner_encoding: Seq<u8>, task: Task) -> Seq<u8> {
    owner_encoding + task.calldata@ + be_bytes(task.deadline as nat, 8) + be_bytes(
        twos_complement(task.reward),
        16,
    )
}

proof fn lemma_le_bytes_len(x: nat, n: nat)
    ensures
        le_bytes(x, n).len() == n,
    decreases n,
{
    if n > 0 {
        lemma_le_bytes_len(x / 256, (n - 1) as nat);
    }
}

/// A task's identity binds all of it: the identity is the owner's encoding,
/// then the whole calldata, then 8 bytes that read back as the deadline and
/// 16 that read back as the reward (big-endian, two's complement), so its
/// length is `owner_encoding.len() + calldata.len() + 24`; and two tasks of
/// one owner that differ in calldata, deadline or reward have different
/// identities.
pub proof fn law_task_identity_binds(owner_encoding: Seq<u8>, t: Task, u: Task)
    ensures
        ({
            let id = spec_task_identity(owner_encoding, t);
            let o = owner_encoding.len() as int;
            let l = o + t.calldata@.len();
            &&& id.len() == l + 24
            &&& id.subrange(0, o) == owner_encoding
            &&& id.subrange(o, l) == t.calldata@
            &&& be_value(id.subrange(l, l + 8)) == t.deadline
            &&& from_twos_complement(be_value(id.subrange(l + 8, l + 24))) == t.reward
        }),
        (t.calldata@ != u.calldata@ || t.deadline != u.deadline || t.reward != u.reward)
            ==> spec_task_identity(owner_encoding, t) != spec_task_identity(owner_encoding, u),
{
    lemma_identity_parts(owner_encoding, t);
    lemma_identity_parts(owner_encoding, u);
    let a = spec_task_identity(owner_encoding, t);
    let b = spec_task_identity(owner_encoding, u);
    let o = owner_encoding.len() as int;
    if a == b {
        let l = o + t.calldata@.len();
        assert(t.calldata@.len() == u.calldata@.len());
        assert(t.calldata@ == a.subrange(o, l));
        assert(u.calldata@ == b.subrange(o, l));
        assert(t.deadline == be_value(a.subrange(l, l + 8)));
        assert(u.deadline == be_value(b.subrange(l, l + 8)));
        assert(t.reward == from_twos_complement(be_value(a.subrange(l + 8, l + 24))));
        assert(u.reward == from_twos_complement(be_value(b.subrange(l + 8, l + 24))));
    }
}

proof fn lemma_identity_parts(owner_encoding: Seq<u8>, t: Task)
    ensures
        ({
            let id = spec_task_identity(owner_encoding, t);
            let o = owner_encoding.len() as int;
            let l = o + t.calldata@.len();
            &&& id.len() == l + 24
            &&& id.subrange(0, o) == owner_encoding
            &&& id.subrange(o, l) == t.calldata@
            &&& be_value(id.subrange(l, l + 8)) == t.deadline
            &&& from_twos_complement(be_value(id.subrange(l + 8, l + 24))) == t.reward
        }),
{
    let d = be_bytes(t.deadline as nat, 8);
    let r = be_bytes(twos_complement(t.reward), 16);
    lemma_le_bytes_len(t.deadline as nat, 8);
    lemma_le_bytes_len(twos_complement(t.reward), 16);
    let id = spec_task_identity(owner_encoding, t);
    let o = owner_encoding.len() as int;
    let l = o + t.calldata@.len();
    assert(id == owner_encoding + t.calldata@ + d + r);
    assert(id.subrange(0, o) =~= owner_encoding);
    assert(id.subrange(o, l) =~= t.calldata@);
    assert(id.subrange(l, l + 8) =~= d);
    assert(id.subrange(l + 8, l + 24) =~= r);
    lemma_be_roundtrip(t.deadline as nat, 8);
    lemma_be_roundtrip(twos_complement(t.reward), 16);
    lemma_pow256_bound(16);
    lemma_twos_complement_roundtrip(t.reward);
    lemma_small_mod(t.deadline as nat, pow256(8));
    lemma_small_mod(twos_complement(t.reward), pow256(16));
    assert(be_value(d) == t.deadline);
    assert(be_value(r) == twos_complement(t.reward));
}

/// Appends `more` to `out`.
fn append_bytes(out: &mut Vec<u8>, more: &Vec<u8>)
    ensures
        final(out)@ == old(out)@ + more@,
{
    let mut i: usize = 0;
    let ghost start = out@;
    while i < more.len()
        invariant
            i <= more@.len(),
            out@ == start + more@.subrange(0, i as int),
        decreases more@.len() - i,
    {
        out.push(more[i]);
        i = i + 1;
        assert(out@ =~= start + more@.subrange(0, i as int));
    }
    assert(more@.subrange(0, more@.len() as int) =~= more@);
}

/// The identity bytes of `task` (see [`spec_task_identity`]).
pub fn task_identity(owner_encoding: &Vec<u8>, task: &Task) -> (r: Vec<u8>)
    ensures
        r@ == spec_task_identity(owner_encoding@, *task),
{
    let mut id: Vec<u8> = Vec::new();
    append_bytes(&mut id, owner_encoding);
    append_bytes(&mut id, &task.calldata);
    let deadline = u64_to_be_bytes(task.deadline);
    append_bytes(&mut id, &deadline);
    let reward = i128_to_be_bytes(task.reward);
    append_bytes(&mut id, &reward);
    assert(id@ =~= spec_task_identity(owner_encoding@, *task));
    id
}

} // verus!

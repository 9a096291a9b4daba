//! Fixed-width integer encodings as bytes (little- and big-endian, two's
//! complement for signed values), with their decoders.
use vstd::prelude::*;
use vstd::arithmetic::div_mod::{lemma_breakdown, lemma_fundamental_div_mod, lemma_mod_pos_bound};

verus! {

/// `256^n`.
pub open spec fn pow256(n: nat) -> nat
    decreases n,
{
    if n == 0 {
        1
    } else {
        256 * pow256((n - 1) as nat)
    }
}

/// The `n` low bytes of `x`, least significant first.
pub open spec fn le_bytes(x: nat, n: nat) -> Seq<u8>
    decreases n,
{
    if n == 0 {
        Seq::empty()
    } else {
        seq![(x % 256) as u8] + le_bytes(x / 256, (n - 1) as nat)
    }
}

/// The `n` low bytes of `x`, most significant first.
pub open spec fn be_bytes(x: nat, n: nat) -> Seq<u8> {
    le_bytes(x, n).reverse()
}

/// The number a big-endian byte string denotes.
pub open spec fn be_value(s: Seq<u8>) -> nat
    decreases s.len(),
{
    if s.len() == 0 {
        0
    } else {
        be_value(s.drop_last()) * 256 + (s.last() as nat)
    }
}

/// `2^128`.
pub open spec fn two_pow_128() -> nat {
    0x1_0000_0000_0000_0000_0000_0000_0000_0000nat
}

/// `2^127`.
pub open spec fn two_pow_127() -> nat {
    0x8000_0000_0000_0000_0000_0000_0000_0000nat
}

/// The 128-bit two's-complement pattern of `x`, as a number.
pub open spec fn twos_complement(x: i128) -> nat {
    if x < 0 {
        (x + two_pow_128()) as nat
    } else {
        x as nat
    }
}

/// The signed value of a 128-bit two's-complement pattern.
pub open spec fn from_twos_complement(v: nat) -> int {
    if v >= two_pow_127() {
        v - two_pow_128()
    } else {
        v as int
    }
}

/// `256^16 == 2^128`, and powers up to it are bounded by it.
pub proof fn lemma_pow256_bound(i: nat)
    requires
        i <= 16,
    ensures
        1 <= pow256(i) <= pow256(16),
        pow256(16) == two_pow_128(),
        pow256(8) == 0x1_0000_0000_0000_0000nat,
        pow256(4) == 0x1_0000_0000nat,
    decreases 16 - i,
{
    reveal_with_fuel(pow256, 17);
    if i < 16 {
        lemma_pow256_bound(i + 1);
        assert(pow256(i + 1) == 256 * pow256(i));
    }
}

/// Powers of 256 are positive.
pub proof fn lemma_pow256_pos(n: nat)
    ensures
        pow256(n) >= 1,
    decreases n,
{
    if n > 0 {
        lemma_pow256_pos((n - 1) as nat);
    }
}

/// A byte string of length `n` denotes a number below `256^n`.
pub proof fn lemma_be_value_bound(s: Seq<u8>)
    ensures
        be_value(s) < pow256(s.len()),
    decreases s.len(),
{
    if s.len() > 0 {
        lemma_be_value_bound(s.drop_last());
        let p = pow256((s.len() - 1) as nat);
        let v = be_value(s.drop_last());
        let b = s.last() as int;
        assert(v * 256 + b < 256 * p) by (nonlinear_arith)
            requires
                v < p,
                0 <= b < 256,
        ;
    }
}

/// Encoding `x` in `n` bytes and reading it back gives `x mod 256^n`.
pub proof fn lemma_be_roundtrip(x: nat, n: nat)
    ensures
        be_value(be_bytes(x, n)) == x % pow256(n),
    decreases n,
{
    if n == 0 {
        assert(be_bytes(x, 0) =~= Seq::<u8>::empty());
    } else {
        lemma_be_roundtrip(x / 256, (n - 1) as nat);
        let rest = le_bytes(x / 256, (n - 1) as nat);
        assert(le_bytes(x, n) == seq![(x % 256) as u8] + rest);
        assert(be_bytes(x, n) =~= rest.reverse().push((x % 256) as u8));
        assert(be_bytes(x, n).drop_last() =~= rest.reverse());
        lemma_mod_pos_bound(x as int, 256);
        lemma_pow256_pos((n - 1) as nat);
        assert(pow256(n) == 256 * pow256((n - 1) as nat));
        lemma_breakdown(x as int, 256, pow256((n - 1) as nat) as int);
    }
}

/// Reading back the two's-complement pattern of `x` gives `x`.
pub proof fn lemma_twos_complement_roundtrip(x: i128)
    ensures
        twos_complement(x) < two_pow_128(),
        from_twos_complement(twos_complement(x)) == x,
{
}

/// The `n` low bytes of `x`, least significant first.
pub fn le_encode(x: u128, n: usize) -> (r: Vec<u8>)
    ensures
        r@ == le_bytes(x as nat, n as nat),
{
    let mut out: Vec<u8> = Vec::new();
    let mut rem: u128 = x;
    let mut i: usize = 0;
    while i < n
        invariant
            i <= n,
            out@ + le_bytes(rem as nat, (n - i) as nat) == le_bytes(x as nat, n as nat),
        decreases n - i,
    {
        let ghost before = out@;
        let b = (rem % 256) as u8;
        assert(le_bytes(rem as nat, (n - i) as nat) == seq![b] + le_bytes(
            (rem / 256) as nat,
            (n - i - 1) as nat,
        ));
        out.push(b);
        assert(out@ + le_bytes((rem / 256) as nat, (n - i - 1) as nat) =~= before + (seq![b]
            + le_bytes((rem / 256) as nat, (n - i - 1) as nat)));
        rem = rem / 256;
        i = i + 1;
    }
    assert(le_bytes(rem as nat, 0) =~= Seq::<u8>::empty());
    assert(out@ + Seq::<u8>::empty() =~= out@);
    out
}

/// The bytes of `v` in reverse order.
fn reversed(v: &Vec<u8>) -> (r: Vec<u8>)
    ensures
        r@ == v@.reverse(),
{
    let n = v.len();
    let mut out: Vec<u8> = Vec::new();
    let mut i: usize = 0;
    while i < n
        invariant
            n == v@.len(),
            i <= n,
            out@ =~= Seq::new(i as nat, |k: int| v@[n - 1 - k]),
        decreases n - i,
    {
        out.push(v[n - 1 - i]);
        i = i + 1;
    }
    out
}

/// The `n` low bytes of `x`, most significant first.
pub fn be_encode(x: u128, n: usize) -> (r: Vec<u8>)
    ensures
        r@ == be_bytes(x as nat, n as nat),
{
    let le = le_encode(x, n);
    reversed(&le)
}

/// The 128-bit two's-complement pattern of `x`.
pub fn twos_complement_bits(x: i128) -> (r: u128)
    ensures
        r == twos_complement(x),
{
    if x < 0 {
        let shifted = (x + 1 + i128::MAX) as u128;
        shifted + (i128::MAX as u128) + 1
    } else {
        x as u128
    }
}

/// The number denoted by the `n` big-endian bytes of `bytes` at `start`.
pub fn be_decode(bytes: &Vec<u8>, start: usize, n: usize) -> (r: u128)
    requires
        n <= 16,
        start + n <= bytes@.len(),
    ensures
        r == be_value(bytes@.subrange(start as int, start + n)),
{
    let mut acc: u128 = 0;
    let mut i: usize = 0;
    let len = bytes.len();
    proof {
        assert(bytes@.subrange(start as int, start as int) =~= Seq::<u8>::empty());
    }
    while i < n
        invariant
            len == bytes@.len(),
            n <= 16,
            start + n <= bytes@.len(),
            i <= n,
            acc == be_value(bytes@.subrange(start as int, start + i)),
        decreases n - i,
    {
        let ghost prefix = bytes@.subrange(start as int, start + i);
        let ghost next = bytes@.subrange(start as int, start + i + 1);
        proof {
            assert(next.drop_last() =~= prefix);
            lemma_be_value_bound(prefix);
            lemma_pow256_bound(i as nat);
            lemma_pow256_bound((i + 1) as nat);
            assert(acc * 256 + 255 < pow256((i + 1) as nat)) by (nonlinear_arith)
                requires
                    acc < pow256(i as nat),
                    pow256((i + 1) as nat) == 256 * pow256(i as nat),
            ;
        }
        assert(start + i < bytes@.len());
        let b = bytes[start + i];
        acc = acc * 256 + b as u128;
        i = i + 1;
    }
    acc
}

/// The `u64` in the 8 big-endian bytes of `bytes` at `start`.
pub fn be_u64_at(bytes: &Vec<u8>, start: usize) -> (r: u64)
    requires
        start + 8 <= bytes@.len(),
    ensures
        r == be_value(bytes@.subrange(start as int, start + 8)),
{
    let v = be_decode(bytes, start, 8);
    proof {
        lemma_be_value_bound(bytes@.subrange(start as int, start + 8));
        lemma_pow256_bound(8);
    }
    v as u64
}

/// The `i128` whose two's-complement pattern is in the 16 big-endian bytes
/// of `bytes` at `start`.
pub fn be_i128_at(bytes: &Vec<u8>, start: usize) -> (r: i128)
    requires
        start + 16 <= bytes@.len(),
    ensures
        r == from_twos_complement(be_value(bytes@.subrange(start as int, start + 16))),
{
    let v = be_decode(bytes, start, 16);
    proof {
        lemma_be_value_bound(bytes@.subrange(start as int, start + 16));
        lemma_pow256_bound(16);
    }
    if v > i128::MAX as u128 {
        ((v - (i128::MAX as u128) - 1) as i128) + i128::MIN
    } else {
        v as i128
    }
}

/// The 8 big-endian bytes of `x`.
pub fn u64_to_be_bytes(x: u64) -> (r: Vec<u8>)
    ensures
        r@ == be_bytes(x as nat, 8),
{
    be_encode(x as u128, 8)
}

/// The 16 big-endian bytes of `x`'s two's-complement pattern.
pub fn i128_to_be_bytes(x: i128) -> (r: Vec<u8>)
    ensures
        r@ == be_bytes(twos_complement(x), 16),
{
    be_encode(twos_complement_bits(x), 16)
}

/// The 16 little-endian bytes of `x`'s two's-complement pattern.
pub fn i128_to_le_bytes(x: i128) -> (r: Vec<u8>)
    ensures
        r@ == le_bytes(twos_complement(x), 16),
{
    le_encode(twos_complement_bits(x), 16)
}

/// The 4 little-endian bytes of `x`.
pub fn u32_to_le_bytes(x: u32) -> (r: Vec<u8>)
    ensures
        r@ == le_bytes(x as nat, 4),
{
    le_encode(x as u128, 4)
}

} // verus!

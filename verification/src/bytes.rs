//! Little- and big-endian byte encodings of unsigned integers.
use vstd::prelude::*;

verus! {

/// 256 raised to the power `n`.
pub open spec fn pow256(n: nat) -> nat
    decreases n,
{
    if n == 0 {
        1
    } else {
        256 * pow256((n - 1) as nat)
    }
}

/// The `n` least significant bytes of `x`, least significant byte first.
pub open spec fn le_bytes(x: nat, n: nat) -> Seq<u8>
    decreases n,
{
    if n == 0 {
        Seq::empty()
    } else {
        seq![(x % 256) as u8] + le_bytes(x / 256, (n - 1) as nat)
    }
}

/// The number that `s` encodes when its first byte is the least significant.
pub open spec fn le_value(s: Seq<u8>) -> nat
    decreases s.len(),
{
    if s.len() == 0 {
        0
    } else {
        s[0] as nat + 256 * le_value(s.drop_first())
    }
}

/// The number that `s` encodes when its first byte is the most significant.
pub open spec fn be_value(s: Seq<u8>) -> nat
    decreases s.len(),
{
    if s.len() == 0 {
        0
    } else {
        be_value(s.drop_last()) * 256 + s.last() as nat
    }
}

pub proof fn lemma_pow256_values()
    ensures
        pow256(4) == 0x1_0000_0000,
        pow256(8) == 0x1_0000_0000_0000_0000,
        pow256(16) == 0x1_0000_0000_0000_0000_0000_0000_0000_0000,
{
    reveal_with_fuel(pow256, 17);
}

pub proof fn lemma_pow256_positive(n: nat)
    ensures
        pow256(n) > 0,
    decreases n,
{
    if n > 0 {
        lemma_pow256_positive((n - 1) as nat);
    }
}

pub proof fn lemma_le_bytes_len(x: nat, n: nat)
    ensures
        le_bytes(x, n).len() == n,
    decreases n,
{
    if n > 0 {
        lemma_le_bytes_len(x / 256, (n - 1) as nat);
    }
}

/// Reading back the bytes of a number that fits gives the number.
pub proof fn lemma_le_roundtrip(x: nat, n: nat)
    requires
        x < pow256(n),
    ensures
        le_value(le_bytes(x, n)) == x,
    decreases n,
{
    if n == 0 {
    } else {
        let m = (n - 1) as nat;
        let q = x / 256;
        assert(q < pow256(m)) by (nonlinear_arith)
            requires
                x < 256 * pow256(m),
                q == x / 256,
        ;
        lemma_le_roundtrip(q, m);
        let s = le_bytes(x, n);
        assert(s.drop_first() =~= le_bytes(q, m));
    }
}

/// A sequence of `k` bytes encodes a number below `256^k`.
pub proof fn lemma_le_value_bound(s: Seq<u8>)
    ensures
        le_value(s) < pow256(s.len()),
    decreases s.len(),
{
    if s.len() > 0 {
        let t = s.drop_first();
        lemma_le_value_bound(t);
        let a = s[0] as nat;
        let v = le_value(t);
        let p = pow256(t.len());
        assert(a + 256 * v < 256 * p) by (nonlinear_arith)
            requires
                a < 256,
                v < p,
        ;
    }
}

/// A sequence of `k` bytes encodes a number below `256^k`.
pub proof fn lemma_be_value_bound(s: Seq<u8>)
    ensures
        be_value(s) < pow256(s.len()),
    decreases s.len(),
{
    if s.len() > 0 {
        let t = s.drop_last();
        lemma_be_value_bound(t);
        let a = s.last() as nat;
        let v = be_value(t);
        let p = pow256(t.len());
        assert(v * 256 + a < 256 * p) by (nonlinear_arith)
            requires
                a < 256,
                v < p,
        ;
    }
}

/// The little-endian bytes of `x` (as `u128::to_le_bytes` lays them out).
pub fn u128_to_le_bytes(x: u128) -> (bytes: Vec<u8>)
    ensures
        bytes@ == le_bytes(x as nat, 16),
{
    let mut bytes: Vec<u8> = Vec::new();
    let mut rest: u128 = x;
    let mut i: usize = 0;
    while i < 16
        invariant
            i <= 16,
            bytes@ + le_bytes(rest as nat, (16 - i) as nat) == le_bytes(x as nat, 16),
        decreases 16 - i,
    {
        let ghost before = bytes@;
        let ghost r = rest as nat;
        bytes.push((rest % 256) as u8);
        rest = rest / 256;
        i = i + 1;
        assert(le_bytes(r, (16 - (i - 1)) as nat) == seq![(r % 256) as u8] + le_bytes(
            r / 256,
            (16 - i) as nat,
        ));
        assert(bytes@ + le_bytes(rest as nat, (16 - i) as nat) =~= before + le_bytes(
            r,
            (16 - (i - 1)) as nat,
        ));
    }
    assert(bytes@ =~= bytes@ + le_bytes(rest as nat, 0));
    bytes
}

/// The little-endian bytes of `x` (as `u64::to_le_bytes` lays them out).
pub fn u64_to_le_bytes(x: u64) -> (bytes: Vec<u8>)
    ensures
        bytes@ == le_bytes(x as nat, 8),
{
    let mut bytes: Vec<u8> = Vec::new();
    let mut rest: u64 = x;
    let mut i: usize = 0;
    while i < 8
        invariant
            i <= 8,
            bytes@ + le_bytes(rest as nat, (8 - i) as nat) == le_bytes(x as nat, 8),
        decreases 8 - i,
    {
        let ghost before = bytes@;
        let ghost r = rest as nat;
        bytes.push((rest % 256) as u8);
        rest = rest / 256;
        i = i + 1;
        assert(le_bytes(r, (8 - (i - 1)) as nat) == seq![(r % 256) as u8] + le_bytes(
            r / 256,
            (8 - i) as nat,
        ));
        assert(bytes@ + le_bytes(rest as nat, (8 - i) as nat) =~= before + le_bytes(
            r,
            (8 - (i - 1)) as nat,
        ));
    }
    assert(bytes@ =~= bytes@ + le_bytes(rest as nat, 0));
    bytes
}

/// The number that sixteen bytes encode, least significant byte first
/// (as `u128::from_le_bytes` reads them).
pub fn u128_from_le_bytes(bytes: &[u8]) -> (x: u128)
    requires
        bytes@.len() == 16,
    ensures
        x as nat == le_value(bytes@),
{
    let mut x: u128 = 0;
    let mut i: usize = 16;
    proof {
        lemma_pow256_values();
    }
    while i > 0
        invariant
            i <= 16,
            bytes@.len() == 16,
            x as nat == le_value(bytes@.subrange(i as int, 16)),
            pow256(16) == 0x1_0000_0000_0000_0000_0000_0000_0000_0000,
        decreases i,
    {
        let ghost tail = bytes@.subrange(i as int, 16);
        i = i - 1;
        let b = bytes[i];
        let ghost s = bytes@.subrange(i as int, 16);
        assert(s.drop_first() =~= tail);
        proof {
            lemma_le_value_bound(s);
            lemma_pow256_mono(s.len(), 16);
        }
        x = (b as u128) + 256 * x;
    }
    assert(bytes@.subrange(0, 16) =~= bytes@);
    x
}

/// The number that the `len` bytes of `bytes` from `start` on encode, least
/// significant byte first; at most sixteen bytes.
pub fn u128_from_le_slice(bytes: &[u8], start: usize, len: usize) -> (x: u128)
    requires
        len <= 16,
        start + len <= bytes@.len(),
    ensures
        x as nat == le_value(bytes@.subrange(start as int, start + len)),
{
    let total = bytes.len();
    assert(start + len <= total);
    let end = start + len;
    let mut x: u128 = 0;
    let mut i: usize = end;
    proof {
        lemma_pow256_values();
    }
    while i > start
        invariant
            start <= i <= end,
            end == start + len,
            len <= 16,
            end <= bytes@.len(),
            x as nat == le_value(bytes@.subrange(i as int, end as int)),
            pow256(16) == 0x1_0000_0000_0000_0000_0000_0000_0000_0000,
        decreases i,
    {
        let ghost tail = bytes@.subrange(i as int, end as int);
        i = i - 1;
        let b = bytes[i];
        let ghost s = bytes@.subrange(i as int, end as int);
        assert(s.drop_first() =~= tail);
        proof {
            lemma_le_value_bound(s);
            lemma_pow256_mono(s.len(), 16);
        }
        x = (b as u128) + 256 * x;
    }
    x
}

/// The number that the bytes of `bytes` encode, most significant byte first;
/// at most sixteen bytes.
pub fn u128_from_be_bytes(bytes: &[u8]) -> (x: u128)
    requires
        bytes@.len() <= 16,
    ensures
        x as nat == be_value(bytes@),
{
    let mut x: u128 = 0;
    let mut i: usize = 0;
    proof {
        lemma_pow256_values();
    }
    while i < bytes.len()
        invariant
            i <= bytes@.len() <= 16,
            x as nat == be_value(bytes@.subrange(0, i as int)),
            pow256(16) == 0x1_0000_0000_0000_0000_0000_0000_0000_0000,
        decreases bytes@.len() - i,
    {
        let ghost prefix = bytes@.subrange(0, i as int);
        let b = bytes[i];
        i = i + 1;
        let ghost s = bytes@.subrange(0, i as int);
        assert(s.drop_last() =~= prefix);
        proof {
            lemma_be_value_bound(s);
            lemma_pow256_mono(s.len(), 16);
        }
        x = x * 256 + (b as u128);
    }
    assert(bytes@.subrange(0, bytes@.len() as int) =~= bytes@);
    x
}

pub proof fn lemma_pow256_mono(a: nat, b: nat)
    requires
        a <= b,
    ensures
        pow256(a) <= pow256(b),
    decreases b,
{
    if a < b {
        lemma_pow256_mono(a, (b - 1) as nat);
        lemma_pow256_positive((b - 1) as nat);
    }
}

} // verus!

//! Fixed-width integer reads and writes, little- and big-endian, with their
//! byte-level specifications.

use vstd::prelude::*;

verus! {

/// `256^n`.
pub open spec fn pow256(n: nat) -> int
    decreases n,
{
    if n == 0 {
        1
    } else {
        256 * pow256((n - 1) as nat)
    }
}

/// The value of a little-endian byte sequence.
pub open spec fn spec_le_int(s: Seq<u8>) -> int
    decreases s.len(),
{
    if s.len() == 0 {
        0
    } else {
        s[0] + 256 * spec_le_int(s.drop_first())
    }
}

/// The `n` little-endian bytes of `x`.
pub open spec fn spec_le_bytes(x: u64, n: nat) -> Seq<u8> {
    Seq::new(n, |i: int| ((x as int / pow256(i as nat)) % 256) as u8)
}

/// The four big-endian bytes of `x`.
pub open spec fn spec_u32_be(x: u32) -> Seq<u8> {
    seq![
        ((x as int / 0x1000000) % 0x100) as u8,
        ((x as int / 0x10000) % 0x100) as u8,
        ((x as int / 0x100) % 0x100) as u8,
        (x as int % 0x100) as u8,
    ]
}

/// The value of a four-byte big-endian sequence.
pub open spec fn spec_u32_from_be(s: Seq<u8>) -> u32 {
    (s[0] * 0x1000000 + s[1] * 0x10000 + s[2] * 0x100 + s[3]) as u32
}

/// The value of an eight-byte big-endian sequence.
pub open spec fn spec_u64_from_be(s: Seq<u8>) -> u64 {
    (s[0] * 0x100000000000000 + s[1] * 0x1000000000000 + s[2] * 0x10000000000 + s[3]
        * 0x100000000 + s[4] * 0x1000000 + s[5] * 0x10000 + s[6] * 0x100 + s[7]) as u64
}

pub proof fn lemma_pow256_pos(n: nat)
    ensures
        pow256(n) >= 1,
    decreases n,
{
    if n > 0 {
        lemma_pow256_pos((n - 1) as nat);
    }
}

pub proof fn lemma_pow256_le(a: nat, b: nat)
    requires
        a <= b,
    ensures
        pow256(a) <= pow256(b),
    decreases b,
{
    if a < b {
        lemma_pow256_le(a, (b - 1) as nat);
        lemma_pow256_pos((b - 1) as nat);
    }
}

/// The value of `n` little-endian bytes is below `256^n`.
pub proof fn lemma_le_int_bound(s: Seq<u8>)
    ensures
        0 <= spec_le_int(s) < pow256(s.len()),
    decreases s.len(),
{
    if s.len() > 0 {
        lemma_le_int_bound(s.drop_first());
    }
}

/// Read up to eight little-endian bytes as an integer.
pub fn u64_from_le(s: &[u8]) -> (x: u64)
    requires
        s@.len() <= 8,
    ensures
        x == spec_le_int(s@),
{
    proof {
        assert(s@.skip(s@.len() as int) =~= Seq::<u8>::empty());
    }
    let mut x: u64 = 0;
    let mut j: usize = s.len();
    while j > 0
        invariant
            j <= s@.len() <= 8,
            x == spec_le_int(s@.skip(j as int)),
        decreases j,
    {
        j = j - 1;
        proof {
            lemma_le_int_bound(s@.skip(j + 1));
            lemma_pow256_le((s@.len() - j - 1) as nat, 7);
            reveal_with_fuel(pow256, 9);
            assert(pow256(7) == 0x100000000000000);
            assert(s@.skip(j as int).drop_first() =~= s@.skip(j + 1));
            assert(s@.skip(j as int)[0] == s@[j as int]);
        }
        x = x * 256 + (s[j] as u64);
    }
    proof {
        assert(s@.skip(0) =~= s@);
    }
    x
}

/// Append the `n` little-endian bytes of `x` to the buffer.
pub fn push_le_bytes(buf: &mut Vec<u8>, x: u64, n: usize)
    requires
        n <= 8,
    ensures
        final(buf)@ == old(buf)@ + spec_le_bytes(x, n as nat),
{
    let mut v: u64 = x;
    let ghost start = buf@;
    for k in 0..n
        invariant
            buf@ == start + spec_le_bytes(x, k as nat),
            v == x as int / pow256(k as nat),
    {
        buf.push((v % 256) as u8);
        proof {
            lemma_pow256_pos(k as nat);
            assert(spec_le_bytes(x, (k + 1) as nat) =~= spec_le_bytes(x, k as nat).push(
                ((x as int / pow256(k as nat)) % 256) as u8,
            ));
            assert(x as int / pow256((k + 1) as nat) == (x as int / pow256(k as nat)) / 256) by {
                vstd::arithmetic::div_mod::lemma_div_denominator(
                    x as int,
                    pow256(k as nat),
                    256,
                );
            }
        }
        v = v / 256;
    }
}

/// Append all of `bytes` to the buffer.
pub fn push_slice(buf: &mut Vec<u8>, bytes: &[u8])
    ensures
        final(buf)@ == old(buf)@ + bytes@,
{
    let n: usize = bytes.len();
    for i in 0..n
        invariant
            n == bytes@.len(),
            buf@ == old(buf)@ + bytes@.subrange(0, i as int),
    {
        buf.push(bytes[i]);
        proof {
            assert(bytes@.subrange(0, i + 1) =~= bytes@.subrange(0, i as int).push(
                bytes@[i as int],
            ));
        }
    }
    proof {
        assert(bytes@.subrange(0, n as int) =~= bytes@);
    }
}

/// Copy 32 bytes out of `buf` starting at `pos`.
pub fn read_bytes_32(buf: &[u8], pos: usize) -> (r: [u8; 32])
    requires
        pos + 32 <= buf@.len(),
    ensures
        r@ == buf@.subrange(pos as int, pos + 32),
{
    let n_total: usize = buf.len();
    let mut a: [u8; 32] = [0u8; 32];
    for i in 0..32usize
        invariant
            pos + 32 <= n_total == buf@.len(),
            forall|j: int| 0 <= j < i ==> a@[j] == buf@[pos + j],
    {
        a[i] = buf[pos + i];
    }
    proof {
        assert(a@ =~= buf@.subrange(pos as int, pos + 32));
    }
    a
}

/// Copy 64 bytes out of `buf` starting at `pos`.
pub fn read_bytes_64(buf: &[u8], pos: usize) -> (r: [u8; 64])
    requires
        pos + 64 <= buf@.len(),
    ensures
        r@ == buf@.subrange(pos as int, pos + 64),
{
    let n_total: usize = buf.len();
    let mut a: [u8; 64] = [0u8; 64];
    for i in 0..64usize
        invariant
            pos + 64 <= n_total == buf@.len(),
            forall|j: int| 0 <= j < i ==> a@[j] == buf@[pos + j],
    {
        a[i] = buf[pos + i];
    }
    proof {
        assert(a@ =~= buf@.subrange(pos as int, pos + 64));
    }
    a
}

/// Read four big-endian bytes.
pub fn u32_from_be(s: &[u8]) -> (x: u32)
    requires
        s@.len() == 4,
    ensures
        x == spec_u32_from_be(s@),
{
    (s[0] as u32) * 0x1000000 + (s[1] as u32) * 0x10000 + (s[2] as u32) * 0x100 + (s[3] as u32)
}

/// Read eight big-endian bytes.
pub fn u64_from_be(s: &[u8]) -> (x: u64)
    requires
        s@.len() == 8,
    ensures
        x == spec_u64_from_be(s@),
{
    (s[0] as u64) * 0x100000000000000 + (s[1] as u64) * 0x1000000000000 + (s[2] as u64)
        * 0x10000000000 + (s[3] as u64) * 0x100000000 + (s[4] as u64) * 0x1000000 + (s[5] as u64)
        * 0x10000 + (s[6] as u64) * 0x100 + (s[7] as u64)
}

/// Append the four big-endian bytes of `x` to the buffer.
pub fn push_u32_be(buf: &mut Vec<u8>, x: u32)
    ensures
        final(buf)@ == old(buf)@ + spec_u32_be(x),
{
    let ghost start = buf@;
    buf.push(((x / 0x1000000) % 0x100) as u8);
    buf.push(((x / 0x10000) % 0x100) as u8);
    buf.push(((x / 0x100) % 0x100) as u8);
    buf.push((x % 0x100) as u8);
    proof {
        assert(buf@ =~= start + spec_u32_be(x));
    }
}

/// Append the eight big-endian bytes of `x` to the buffer.
pub fn push_u64_be(buf: &mut Vec<u8>, x: u64)
    ensures
        final(buf)@ == old(buf)@ + spec_u64_be(x),
{
    let ghost start = buf@;
    buf.push(((x / 0x100000000000000) % 0x100) as u8);
    buf.push(((x / 0x1000000000000) % 0x100) as u8);
    buf.push(((x / 0x10000000000) % 0x100) as u8);
    buf.push(((x / 0x100000000) % 0x100) as u8);
    buf.push(((x / 0x1000000) % 0x100) as u8);
    buf.push(((x / 0x10000) % 0x100) as u8);
    buf.push(((x / 0x100) % 0x100) as u8);
    buf.push((x % 0x100) as u8);
    proof {
        assert(buf@ =~= start + spec_u64_be(x));
    }
}

/// The eight big-endian bytes of `x`.
pub open spec fn spec_u64_be(x: u64) -> Seq<u8> {
    seq![
        ((x as int / 0x100000000000000) % 0x100) as u8,
        ((x as int / 0x1000000000000) % 0x100) as u8,
        ((x as int / 0x10000000000) % 0x100) as u8,
        ((x as int / 0x100000000) % 0x100) as u8,
        ((x as int / 0x1000000) % 0x100) as u8,
        ((x as int / 0x10000) % 0x100) as u8,
        ((x as int / 0x100) % 0x100) as u8,
        (x as int % 0x100) as u8,
    ]
}

} // verus!

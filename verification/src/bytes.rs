//! Small verified helpers over byte strings: zero padding, big-endian
//! integer encoding and decoding, buffer concatenation and comparison.

use vstd::prelude::*;

verus! {

/// `n` zero bytes.
pub open spec fn zero_seq(n: nat) -> Seq<u8> {
    Seq::new(n, |i: int| 0u8)
}

/// The four bytes of `x`, most significant first.
pub open spec fn spec_u32_be(x: u32) -> Seq<u8> {
    seq![(x >> 24) as u8, (x >> 16) as u8, (x >> 8) as u8, x as u8]
}

/// The eight bytes of `x`, most significant first.
pub open spec fn spec_u64_be(x: u64) -> Seq<u8> {
    seq![
        (x >> 56) as u8,
        (x >> 48) as u8,
        (x >> 40) as u8,
        (x >> 32) as u8,
        (x >> 24) as u8,
        (x >> 16) as u8,
        (x >> 8) as u8,
        x as u8,
    ]
}

/// The eight bytes of `x`, least significant first.
pub open spec fn spec_u64_le(x: u64) -> Seq<u8> {
    seq![
        x as u8,
        (x >> 8) as u8,
        (x >> 16) as u8,
        (x >> 24) as u8,
        (x >> 32) as u8,
        (x >> 40) as u8,
        (x >> 48) as u8,
        (x >> 56) as u8,
    ]
}

/// The unsigned integer a byte string denotes, read big-endian.
pub open spec fn spec_be_int(s: Seq<u8>) -> int
    decreases s.len(),
{
    if s.len() == 0 {
        0
    } else {
        spec_be_int(s.drop_last()) * 256 + s.last()
    }
}

/// The unsigned integer eight bytes denote, read little-endian.
pub open spec fn spec_le_u64(s: Seq<u8>) -> int
    decreases s.len(),
{
    if s.len() == 0 {
        0
    } else {
        s.first() + 256 * spec_le_u64(s.drop_first())
    }
}

/// Appends `src` to `dst`.
pub fn extend_bytes(dst: &mut Vec<u8>, src: &[u8])
    ensures
        final(dst)@ == old(dst)@ + src@,
{
    dst.extend_from_slice(src);
    proof {
        assert(dst@ =~= old(dst)@ + src@);
    }
}

/// A vector of `n` zero bytes.
pub fn zero_vec(n: usize) -> (r: Vec<u8>)
    ensures
        r@ == zero_seq(n as nat),
{
    let r = vec![0u8; n];
    proof {
        assert(r@ =~= zero_seq(n as nat));
    }
    r
}

/// Copies `src[start..end]` into a fresh vector.
pub fn copy_range(src: &[u8], start: usize, end: usize) -> (r: Vec<u8>)
    requires
        start <= end <= src@.len(),
    ensures
        r@ == src@.subrange(start as int, end as int),
{
    vstd::slice::slice_to_vec(&src[start..end])
}

/// Appends the four big-endian bytes of `x` to `dst`.
pub fn push_u32_be(dst: &mut Vec<u8>, x: u32)
    ensures
        final(dst)@ == old(dst)@ + spec_u32_be(x),
{
    dst.push((x >> 24) as u8);
    dst.push((x >> 16) as u8);
    dst.push((x >> 8) as u8);
    dst.push(x as u8);
    proof {
        assert(dst@ =~= old(dst)@ + spec_u32_be(x));
    }
}

/// Appends the eight big-endian bytes of `x` to `dst`.
pub fn push_u64_be(dst: &mut Vec<u8>, x: u64)
    ensures
        final(dst)@ == old(dst)@ + spec_u64_be(x),
{
    dst.push((x >> 56) as u8);
    dst.push((x >> 48) as u8);
    dst.push((x >> 40) as u8);
    dst.push((x >> 32) as u8);
    dst.push((x >> 24) as u8);
    dst.push((x >> 16) as u8);
    dst.push((x >> 8) as u8);
    dst.push(x as u8);
    proof {
        assert(dst@ =~= old(dst)@ + spec_u64_be(x));
    }
}

/// Appends the eight little-endian bytes of `x` to `dst`.
pub fn push_u64_le(dst: &mut Vec<u8>, x: u64)
    ensures
        final(dst)@ == old(dst)@ + spec_u64_le(x),
{
    dst.push(x as u8);
    dst.push((x >> 8) as u8);
    dst.push((x >> 16) as u8);
    dst.push((x >> 24) as u8);
    dst.push((x >> 32) as u8);
    dst.push((x >> 40) as u8);
    dst.push((x >> 48) as u8);
    dst.push((x >> 56) as u8);
    proof {
        assert(dst@ =~= old(dst)@ + spec_u64_le(x));
    }
}

/// Reads `s[start..start + 8]` as a little-endian integer.
pub fn read_u64_le(s: &[u8], start: usize) -> (r: u64)
    requires
        start + 8 <= s@.len(),
    ensures
        r == spec_le_u64(s@.subrange(start as int, start as int + 8)),
{
    let b0 = s[start] as u64;
    let b1 = s[start + 1] as u64;
    let b2 = s[start + 2] as u64;
    let b3 = s[start + 3] as u64;
    let b4 = s[start + 4] as u64;
    let b5 = s[start + 5] as u64;
    let b6 = s[start + 6] as u64;
    let b7 = s[start + 7] as u64;
    let r = b0 + 256 * (b1 + 256 * (b2 + 256 * (b3 + 256 * (b4 + 256 * (b5 + 256 * (b6 + 256
        * b7))))));
    proof {
        let sub = s@.subrange(start as int, start as int + 8);
        lemma_le_u64_eight(sub);
    }
    r
}

proof fn lemma_le_u64_eight(s: Seq<u8>)
    requires
        s.len() == 8,
    ensures
        spec_le_u64(s) == s[0] + 256 * (s[1] + 256 * (s[2] + 256 * (s[3] + 256 * (s[4] + 256 * (
        s[5] + 256 * (s[6] + 256 * s[7])))))),
{
    reveal_with_fuel(spec_le_u64, 9);
    assert(s.drop_first().drop_first().drop_first().drop_first().drop_first().drop_first()
        .drop_first() =~= seq![s[7]]);
    assert(s.drop_first().drop_first().drop_first().drop_first().drop_first().drop_first()[0]
        == s[6]);
}

/// Whether two byte strings are equal.  The scan does not exit early on a
/// mismatch, so for fixed lengths the time does not depend on where the
/// strings differ (best-effort constant time; lengths are not secret).
pub fn bytes_eq(a: &[u8], b: &[u8]) -> (r: bool)
    ensures
        r == (a@ == b@),
{
    if a.len() != b.len() {
        proof {
            assert(a@.len() != b@.len());
        }
        return false;
    }
    let n = a.len();
    let mut same = true;
    let mut i: usize = 0;
    while i < n
        invariant
            n == a@.len() == b@.len(),
            i <= n,
            same == (forall|j: int| 0 <= j < i ==> a@[j] == b@[j]),
        decreases n - i,
    {
        same = if a[i] == b[i] {
            same
        } else {
            false
        };
        i += 1;
    }
    proof {
        if same {
            assert(a@ =~= b@);
        }
    }
    same
}

} // verus!

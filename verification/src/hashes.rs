//! The domain-separated hash suite of the SHA2 level-1 parameter family,
//! instantiated at N = 16, M = 30 (the small 128-bit set).
//!
//! Five primitives over one underlying hash: the message-randomizer PRF, the
//! message digest, the secret-key PRF, list compression `t`, two-block
//! compression `h` and one-block compression `f`.  Each node-compression
//! input is `pk_seed ‖ zero_pad ‖ compressed address ‖ data`, padding the
//! seed to the native 64-byte block boundary.

use vstd::prelude::*;

use crate::address::{spec_adrs_bytes, Adrs};
use crate::bytes::{extend_bytes, push_u32_be, spec_u32_be, zero_seq, zero_vec};
use crate::params::{PAD_LEN, PARAM_M, PARAM_N};
use crate::sha256::{
    sha256, sha512, spec_hmac_sha256, spec_hmac_sha512, spec_sha256, spec_sha512,
};

verus! {

/// The blocks of a sequence of byte strings, joined in order.
pub open spec fn concat_blocks(bs: Seq<Seq<u8>>) -> Seq<u8>
    decreases bs.len(),
{
    if bs.len() == 0 {
        Seq::empty()
    } else {
        concat_blocks(bs.drop_last()) + bs.last()
    }
}

/// The common prefix of every node-compression hash input:
/// `pk_seed ‖ zero_pad(48) ‖ compressed address`.
pub open spec fn spec_compress_prefix(pk_seed: Seq<u8>, a: Adrs) -> Seq<u8> {
    pk_seed + zero_seq(PAD_LEN as nat) + spec_adrs_bytes(a)
}

/// `F`: one-block compression, N bytes.
pub open spec fn spec_f(pk_seed: Seq<u8>, a: Adrs, m: Seq<u8>) -> Seq<u8> {
    spec_sha256(spec_compress_prefix(pk_seed, a) + m).take(PARAM_N as int)
}

/// `H`: two-block compression, N bytes.
pub open spec fn spec_h(pk_seed: Seq<u8>, a: Adrs, m1: Seq<u8>, m2: Seq<u8>) -> Seq<u8> {
    spec_sha256(spec_compress_prefix(pk_seed, a) + m1 + m2).take(PARAM_N as int)
}

/// `T`: compression of a list of N-byte blocks, N bytes.
pub open spec fn spec_t(pk_seed: Seq<u8>, a: Adrs, bs: Seq<Seq<u8>>) -> Seq<u8> {
    spec_sha256(spec_compress_prefix(pk_seed, a) + concat_blocks(bs)).take(PARAM_N as int)
}

/// `PRF`: secret-key PRF, N bytes.
pub open spec fn spec_prf_sk(pk_seed: Seq<u8>, sk_seed: Seq<u8>, a: Adrs) -> Seq<u8> {
    spec_sha256(spec_compress_prefix(pk_seed, a) + sk_seed).take(PARAM_N as int)
}

/// `PRF_msg`: message-randomizer PRF, N bytes of the HMAC tag over
/// `opt_rand ‖ msg`.
pub open spec fn spec_prf_msg(sk_prf: Seq<u8>, opt_rand: Seq<u8>, msg: Seq<u8>) -> Seq<u8> {
    spec_hmac_sha256(sk_prf, opt_rand + msg).take(PARAM_N as int)
}

/// The first `n` counter blocks of the MGF1 output stream for `seed`.
pub open spec fn spec_mgf1_blocks(seed: Seq<u8>, n: nat) -> Seq<u8>
    decreases n,
{
    if n == 0 {
        Seq::empty()
    } else {
        spec_mgf1_blocks(seed, (n - 1) as nat) + spec_sha256(seed + spec_u32_be((n - 1) as u32))
    }
}

/// MGF1 over the underlying hash: `out_len` bytes of the counter-hash
/// stream, the final block truncated.
pub open spec fn spec_mgf1(seed: Seq<u8>, out_len: nat) -> Seq<u8> {
    spec_mgf1_blocks(seed, ((out_len + 31) / 32) as nat).take(out_len as int)
}

/// `H_msg`: the message digest, M bytes: MGF1 expansion of
/// `rand ‖ pk_seed ‖ inner` where `inner` is the one-shot digest of
/// `rand ‖ pk_seed ‖ pk_root ‖ msg`.
pub open spec fn spec_h_msg(rand: Seq<u8>, pk_seed: Seq<u8>, pk_root: Seq<u8>, msg: Seq<u8>)
    -> Seq<u8> {
    spec_mgf1(rand + pk_seed + spec_sha256(rand + pk_seed + pk_root + msg), PARAM_M as nat)
}

/// The SHA2 level-1 hash suite (N = 16, M = 30).
pub struct Sha2L1;

impl Sha2L1 {
    /// Computes `F(pk_seed, adrs, m)`.
    pub fn f(pk_seed: &[u8], adrs: &Adrs, m: &[u8]) -> (r: Vec<u8>)
        ensures
            r@ == spec_f(pk_seed@, *adrs, m@),
            r@.len() == PARAM_N,
    {
        let mut buf = compress_prefix(pk_seed, adrs);
        extend_bytes(&mut buf, m);
        let mut d = sha256(buf.as_slice());
        d.truncate(PARAM_N);
        proof {
            assert(d@ =~= spec_f(pk_seed@, *adrs, m@));
        }
        d
    }

    /// Computes `H(pk_seed, adrs, m1, m2)`.
    pub fn h(pk_seed: &[u8], adrs: &Adrs, m1: &[u8], m2: &[u8]) -> (r: Vec<u8>)
        ensures
            r@ == spec_h(pk_seed@, *adrs, m1@, m2@),
            r@.len() == PARAM_N,
    {
        let mut buf = compress_prefix(pk_seed, adrs);
        extend_bytes(&mut buf, m1);
        extend_bytes(&mut buf, m2);
        let mut d = sha256(buf.as_slice());
        d.truncate(PARAM_N);
        proof {
            assert(d@ =~= spec_h(pk_seed@, *adrs, m1@, m2@));
        }
        d
    }

    /// Computes `T(pk_seed, adrs, blocks)`.
    pub fn t(pk_seed: &[u8], adrs: &Adrs, blocks: &Vec<Vec<u8>>) -> (r: Vec<u8>)
        ensures
            r@ == spec_t(pk_seed@, *adrs, blocks@.map_values(|b: Vec<u8>| b@)),
            r@.len() == PARAM_N,
    {
        let ghost view_blocks = blocks@.map_values(|b: Vec<u8>| b@);
        let mut buf = compress_prefix(pk_seed, adrs);
        let mut i: usize = 0;
        while i < blocks.len()
            invariant
                i <= blocks@.len(),
                view_blocks == blocks@.map_values(|b: Vec<u8>| b@),
                buf@ == spec_compress_prefix(pk_seed@, *adrs) + concat_blocks(
                    view_blocks.take(i as int),
                ),
            decreases blocks@.len() - i,
        {
            extend_bytes(&mut buf, blocks[i].as_slice());
            proof {
                assert(view_blocks.take(i + 1).drop_last() =~= view_blocks.take(i as int));
                assert(buf@ =~= spec_compress_prefix(pk_seed@, *adrs) + concat_blocks(
                    view_blocks.take(i + 1),
                ));
            }
            i += 1;
        }
        proof {
            assert(view_blocks.take(blocks@.len() as int) =~= view_blocks);
        }
        let mut d = sha256(buf.as_slice());
        d.truncate(PARAM_N);
        proof {
            assert(d@ =~= spec_t(pk_seed@, *adrs, view_blocks));
        }
        d
    }

    /// Computes `PRF(pk_seed, sk_seed, adrs)`.  Verification never calls it:
    /// it derives secret leaf values on the signing side.
    pub fn prf_sk(pk_seed: &[u8], sk_seed: &[u8], adrs: &Adrs) -> (r: Vec<u8>)
        ensures
            r@ == spec_prf_sk(pk_seed@, sk_seed@, *adrs),
            r@.len() == PARAM_N,
    {
        let mut buf = compress_prefix(pk_seed, adrs);
        extend_bytes(&mut buf, sk_seed);
        let mut d = sha256(buf.as_slice());
        d.truncate(PARAM_N);
        proof {
            assert(d@ =~= spec_prf_sk(pk_seed@, sk_seed@, *adrs));
        }
        d
    }

    /// Computes `PRF_msg(sk_prf, opt_rand, msg)`.  Verification never calls
    /// it; the suite exposes it for API symmetry with the signing side.
    pub fn prf_msg(sk_prf: &[u8], opt_rand: &[u8], msg: &[u8]) -> (r: Vec<u8>)
        ensures
            r@ == spec_prf_msg(sk_prf@, opt_rand@, msg@),
            r@.len() == PARAM_N,
    {
        let mut data: Vec<u8> = Vec::new();
        extend_bytes(&mut data, opt_rand);
        extend_bytes(&mut data, msg);
        let mut d = crate::sha256::hmac_sha256(sk_prf, data.as_slice());
        d.truncate(PARAM_N);
        proof {
            assert(data@ =~= opt_rand@ + msg@);
            assert(d@ =~= spec_prf_msg(sk_prf@, opt_rand@, msg@));
        }
        d
    }

    /// Computes `H_msg(rand, pk_seed, pk_root, msg)`: M bytes of digest.
    pub fn h_msg(rand: &[u8], pk_seed: &[u8], pk_root: &[u8], msg: &[u8]) -> (r: Vec<u8>)
        ensures
            r@ == spec_h_msg(rand@, pk_seed@, pk_root@, msg@),
            r@.len() == PARAM_M,
    {
        let mut inner_input: Vec<u8> = Vec::new();
        extend_bytes(&mut inner_input, rand);
        extend_bytes(&mut inner_input, pk_seed);
        extend_bytes(&mut inner_input, pk_root);
        extend_bytes(&mut inner_input, msg);
        let inner = sha256(inner_input.as_slice());
        let mut seed: Vec<u8> = Vec::new();
        extend_bytes(&mut seed, rand);
        extend_bytes(&mut seed, pk_seed);
        extend_bytes(&mut seed, inner.as_slice());
        proof {
            assert(inner_input@ =~= rand@ + pk_seed@ + pk_root@ + msg@);
            assert(seed@ =~= rand@ + pk_seed@ + spec_sha256(rand@ + pk_seed@ + pk_root@ + msg@));
        }
        mgf1(seed.as_slice(), PARAM_M)
    }
}

/// The compression prefix of the higher security levels, padding the seed
/// of N bytes to a native block boundary of `block` bytes:
/// `pk_seed ‖ zero_pad(block − N) ‖ compressed address`.
pub open spec fn spec_compress_prefix35(pk_seed: Seq<u8>, a: Adrs, block: int) -> Seq<u8> {
    pk_seed + zero_seq((block - pk_seed.len()) as nat) + spec_adrs_bytes(a)
}

/// `F` of the level-3/5 family: one-block compression over the 256-bit
/// hash, N bytes.
pub open spec fn spec_f35(pk_seed: Seq<u8>, a: Adrs, m: Seq<u8>) -> Seq<u8> {
    spec_sha256(spec_compress_prefix35(pk_seed, a, 64) + m).take(pk_seed.len() as int)
}

/// `PRF` of the level-3/5 family: over the 256-bit hash, N bytes.
pub open spec fn spec_prf_sk35(pk_seed: Seq<u8>, sk_seed: Seq<u8>, a: Adrs) -> Seq<u8> {
    spec_sha256(spec_compress_prefix35(pk_seed, a, 64) + sk_seed).take(pk_seed.len() as int)
}

/// `H` of the level-3/5 family: two-block compression over the 512-bit
/// hash, N bytes.
pub open spec fn spec_h35(pk_seed: Seq<u8>, a: Adrs, m1: Seq<u8>, m2: Seq<u8>) -> Seq<u8> {
    spec_sha512(spec_compress_prefix35(pk_seed, a, 128) + m1 + m2).take(pk_seed.len() as int)
}

/// `T` of the level-3/5 family: list compression over the 512-bit hash,
/// N bytes.
pub open spec fn spec_t35(pk_seed: Seq<u8>, a: Adrs, bs: Seq<Seq<u8>>) -> Seq<u8> {
    spec_sha512(spec_compress_prefix35(pk_seed, a, 128) + concat_blocks(bs)).take(
        pk_seed.len() as int,
    )
}

/// `PRF_msg` of the level-3/5 family: N bytes of the HMAC-SHA-512 tag.
pub open spec fn spec_prf_msg35(sk_prf: Seq<u8>, opt_rand: Seq<u8>, msg: Seq<u8>, n: int)
    -> Seq<u8> {
    spec_hmac_sha512(sk_prf, opt_rand + msg).take(n)
}

/// The first `k` counter blocks of the MGF1 stream over the 512-bit hash.
pub open spec fn spec_mgf1_512_blocks(seed: Seq<u8>, k: nat) -> Seq<u8>
    decreases k,
{
    if k == 0 {
        Seq::empty()
    } else {
        spec_mgf1_512_blocks(seed, (k - 1) as nat) + spec_sha512(
            seed + spec_u32_be((k - 1) as u32),
        )
    }
}

/// MGF1 over the 512-bit hash: `out_len` bytes of the counter-hash stream.
pub open spec fn spec_mgf1_512(seed: Seq<u8>, out_len: nat) -> Seq<u8> {
    spec_mgf1_512_blocks(seed, ((out_len + 63) / 64) as nat).take(out_len as int)
}

/// `H_msg` of the level-3/5 family: `m_len` bytes of MGF1-SHA-512
/// expansion of `rand ‖ pk_seed ‖ inner`, `inner` the 512-bit digest of
/// `rand ‖ pk_seed ‖ pk_root ‖ msg`.
pub open spec fn spec_h_msg35(
    rand: Seq<u8>,
    pk_seed: Seq<u8>,
    pk_root: Seq<u8>,
    msg: Seq<u8>,
    m_len: int,
) -> Seq<u8> {
    spec_mgf1_512(rand + pk_seed + spec_sha512(rand + pk_seed + pk_root + msg), m_len as nat)
}

/// The SHA2 hash suite of the level-3 and level-5 parameter families,
/// taking the truncation length N from the seed's length (24 or 32 bytes).
/// The message-digest primitives use the 512-bit hash; the node-compression
/// primitives `F` and `PRF` keep the 256-bit hash, with the zero padding
/// then measured against the wider native boundary for `H` and `T`.
pub struct Sha2L35;

impl Sha2L35 {
    /// Computes `F(pk_seed, adrs, m)` of the level-3/5 family.
    pub fn f(pk_seed: &[u8], adrs: &Adrs, m: &[u8]) -> (r: Vec<u8>)
        requires
            pk_seed@.len() <= 32,
        ensures
            r@ == spec_f35(pk_seed@, *adrs, m@),
            r@.len() == pk_seed@.len(),
    {
        let mut buf = compress_prefix35(pk_seed, adrs, 64);
        extend_bytes(&mut buf, m);
        let mut d = sha256(buf.as_slice());
        d.truncate(pk_seed.len());
        proof {
            assert(d@ =~= spec_f35(pk_seed@, *adrs, m@));
        }
        d
    }

    /// Computes `PRF(pk_seed, sk_seed, adrs)` of the level-3/5 family.
    pub fn prf_sk(pk_seed: &[u8], sk_seed: &[u8], adrs: &Adrs) -> (r: Vec<u8>)
        requires
            pk_seed@.len() <= 32,
        ensures
            r@ == spec_prf_sk35(pk_seed@, sk_seed@, *adrs),
            r@.len() == pk_seed@.len(),
    {
        let mut buf = compress_prefix35(pk_seed, adrs, 64);
        extend_bytes(&mut buf, sk_seed);
        let mut d = sha256(buf.as_slice());
        d.truncate(pk_seed.len());
        proof {
            assert(d@ =~= spec_prf_sk35(pk_seed@, sk_seed@, *adrs));
        }
        d
    }

    /// Computes `H(pk_seed, adrs, m1, m2)` of the level-3/5 family.
    pub fn h(pk_seed: &[u8], adrs: &Adrs, m1: &[u8], m2: &[u8]) -> (r: Vec<u8>)
        requires
            pk_seed@.len() <= 64,
        ensures
            r@ == spec_h35(pk_seed@, *adrs, m1@, m2@),
            r@.len() == pk_seed@.len(),
    {
        let mut buf = compress_prefix35(pk_seed, adrs, 128);
        extend_bytes(&mut buf, m1);
        extend_bytes(&mut buf, m2);
        let mut d = sha512(buf.as_slice());
        d.truncate(pk_seed.len());
        proof {
            assert(d@ =~= spec_h35(pk_seed@, *adrs, m1@, m2@));
        }
        d
    }

    /// Computes `T(pk_seed, adrs, blocks)` of the level-3/5 family.
    pub fn t(pk_seed: &[u8], adrs: &Adrs, blocks: &Vec<Vec<u8>>) -> (r: Vec<u8>)
        requires
            pk_seed@.len() <= 64,
        ensures
            r@ == spec_t35(pk_seed@, *adrs, blocks@.map_values(|b: Vec<u8>| b@)),
            r@.len() == pk_seed@.len(),
    {
        let ghost view_blocks = blocks@.map_values(|b: Vec<u8>| b@);
        let mut buf = compress_prefix35(pk_seed, adrs, 128);
        let mut i: usize = 0;
        while i < blocks.len()
            invariant
                i <= blocks@.len(),
                pk_seed@.len() <= 64,
                view_blocks == blocks@.map_values(|b: Vec<u8>| b@),
                buf@ == spec_compress_prefix35(pk_seed@, *adrs, 128) + concat_blocks(
                    view_blocks.take(i as int),
                ),
            decreases blocks@.len() - i,
        {
            extend_bytes(&mut buf, blocks[i].as_slice());
            proof {
                assert(view_blocks.take(i + 1).drop_last() =~= view_blocks.take(i as int));
                assert(buf@ =~= spec_compress_prefix35(pk_seed@, *adrs, 128) + concat_blocks(
                    view_blocks.take(i + 1),
                ));
            }
            i += 1;
        }
        proof {
            assert(view_blocks.take(blocks@.len() as int) =~= view_blocks);
        }
        let mut d = sha512(buf.as_slice());
        d.truncate(pk_seed.len());
        proof {
            assert(d@ =~= spec_t35(pk_seed@, *adrs, view_blocks));
        }
        d
    }

    /// Computes `PRF_msg(sk_prf, opt_rand, msg)` of the level-3/5 family,
    /// `n` bytes of the HMAC-SHA-512 tag.
    pub fn prf_msg(sk_prf: &[u8], opt_rand: &[u8], msg: &[u8], n: usize) -> (r: Vec<u8>)
        requires
            n <= 64,
        ensures
            r@ == spec_prf_msg35(sk_prf@, opt_rand@, msg@, n as int),
            r@.len() == n,
    {
        let mut data: Vec<u8> = Vec::new();
        extend_bytes(&mut data, opt_rand);
        extend_bytes(&mut data, msg);
        let mut d = crate::sha256::hmac_sha512(sk_prf, data.as_slice());
        d.truncate(n);
        proof {
            assert(data@ =~= opt_rand@ + msg@);
            assert(d@ =~= spec_prf_msg35(sk_prf@, opt_rand@, msg@, n as int));
        }
        d
    }

    /// Computes `H_msg(rand, pk_seed, pk_root, msg)` of the level-3/5
    /// family: `m_len` bytes of digest.
    pub fn h_msg(rand: &[u8], pk_seed: &[u8], pk_root: &[u8], msg: &[u8], m_len: usize) -> (r:
        Vec<u8>)
        requires
            m_len + 64 <= usize::MAX,
            m_len as int <= 64 * (u32::MAX as int),
        ensures
            r@ == spec_h_msg35(rand@, pk_seed@, pk_root@, msg@, m_len as int),
            r@.len() == m_len,
    {
        let mut inner_input: Vec<u8> = Vec::new();
        extend_bytes(&mut inner_input, rand);
        extend_bytes(&mut inner_input, pk_seed);
        extend_bytes(&mut inner_input, pk_root);
        extend_bytes(&mut inner_input, msg);
        let inner = sha512(inner_input.as_slice());
        let mut seed: Vec<u8> = Vec::new();
        extend_bytes(&mut seed, rand);
        extend_bytes(&mut seed, pk_seed);
        extend_bytes(&mut seed, inner.as_slice());
        proof {
            assert(inner_input@ =~= rand@ + pk_seed@ + pk_root@ + msg@);
            assert(seed@ =~= rand@ + pk_seed@ + spec_sha512(rand@ + pk_seed@ + pk_root@ + msg@));
        }
        mgf1_sha512(seed.as_slice(), m_len)
    }
}

/// Builds the level-3/5 compression prefix against a `block`-byte native
/// boundary.
fn compress_prefix35(pk_seed: &[u8], adrs: &Adrs, block: usize) -> (r: Vec<u8>)
    requires
        pk_seed@.len() <= block,
    ensures
        r@ == spec_compress_prefix35(pk_seed@, *adrs, block as int),
{
    let mut buf: Vec<u8> = Vec::new();
    extend_bytes(&mut buf, pk_seed);
    let pad = zero_vec(block - pk_seed.len());
    extend_bytes(&mut buf, pad.as_slice());
    let ab = adrs.to_bytes();
    extend_bytes(&mut buf, ab.as_slice());
    proof {
        assert(buf@ =~= spec_compress_prefix35(pk_seed@, *adrs, block as int));
    }
    buf
}

/// Expands `seed` to `out_len` bytes with MGF1 over the 512-bit hash,
/// hashing `seed ‖ counter` per 64-byte block and truncating the last.
pub fn mgf1_sha512(seed: &[u8], out_len: usize) -> (r: Vec<u8>)
    requires
        out_len + 64 <= usize::MAX,
        out_len as int <= 64 * (u32::MAX as int),
    ensures
        r@ == spec_mgf1_512(seed@, out_len as nat),
        r@.len() == out_len,
{
    let nblocks = (out_len + 63) / 64;
    let mut out: Vec<u8> = Vec::new();
    let mut i: usize = 0;
    while i < nblocks
        invariant
            i <= nblocks,
            nblocks == (out_len + 63) / 64,
            out_len + 64 <= usize::MAX,
            out_len as int <= 64 * (u32::MAX as int),
            out@ == spec_mgf1_512_blocks(seed@, i as nat),
            out@.len() == 64 * i,
        decreases nblocks - i,
    {
        let mut buf: Vec<u8> = Vec::new();
        extend_bytes(&mut buf, seed);
        push_u32_be(&mut buf, i as u32);
        let block = sha512(buf.as_slice());
        extend_bytes(&mut out, block.as_slice());
        proof {
            assert(buf@ =~= seed@ + spec_u32_be(i as u32));
        }
        i += 1;
    }
    out.truncate(out_len);
    proof {
        assert(out@ =~= spec_mgf1_512(seed@, out_len as nat));
    }
    out
}

/// Builds the common compression prefix `pk_seed ‖ zero_pad ‖ adrs`.
fn compress_prefix(pk_seed: &[u8], adrs: &Adrs) -> (r: Vec<u8>)
    ensures
        r@ == spec_compress_prefix(pk_seed@, *adrs),
{
    let mut buf: Vec<u8> = Vec::new();
    extend_bytes(&mut buf, pk_seed);
    let pad = zero_vec(PAD_LEN);
    extend_bytes(&mut buf, pad.as_slice());
    let ab = adrs.to_bytes();
    extend_bytes(&mut buf, ab.as_slice());
    proof {
        assert(buf@ =~= spec_compress_prefix(pk_seed@, *adrs));
    }
    buf
}

/// Expands `seed` to `out_len` bytes with MGF1 over the underlying hash,
/// hashing `seed ‖ counter` per 32-byte block and truncating the last.
pub fn mgf1(seed: &[u8], out_len: usize) -> (r: Vec<u8>)
    requires
        out_len + 32 <= usize::MAX,
        out_len as int <= 32 * (u32::MAX as int),
    ensures
        r@ == spec_mgf1(seed@, out_len as nat),
        r@.len() == out_len,
{
    let nblocks = (out_len + 31) / 32;
    let mut out: Vec<u8> = Vec::new();
    let mut i: usize = 0;
    while i < nblocks
        invariant
            i <= nblocks,
            nblocks == (out_len + 31) / 32,
            out_len + 32 <= usize::MAX,
            out_len as int <= 32 * (u32::MAX as int),
            out@ == spec_mgf1_blocks(seed@, i as nat),
            out@.len() == 32 * i,
        decreases nblocks - i,
    {
        let mut buf: Vec<u8> = Vec::new();
        extend_bytes(&mut buf, seed);
        push_u32_be(&mut buf, i as u32);
        let block = sha256(buf.as_slice());
        extend_bytes(&mut out, block.as_slice());
        proof {
            assert(buf@ =~= seed@ + spec_u32_be(i as u32));
        }
        i += 1;
    }
    out.truncate(out_len);
    proof {
        assert(out@ =~= spec_mgf1(seed@, out_len as nat));
    }
    out
}

} // verus!

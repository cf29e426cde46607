//! The streaming signature verifier.
//!
//! `verify_sha2_128s` consumes a message, a fixed-length signature blob and
//! a raw verifying key (`pk_seed ‖ pk_root`), and replays the claimed
//! authentication structure from the signature bytes: the K FORS trees, the
//! compression of their roots, and the D hypertree layers bottom-up, one
//! WOTS+ replay and one XMSS path per layer.  The reconstructed root is
//! compared with `pk_root`; every length violation and the final mismatch
//! collapse to the single outcome [`SignatureInvalid`].
//!
//! The spec functions mirror the algorithm of the standard over plain byte
//! strings; the contract of `verify_sha2_128s` pins acceptance to exactly
//! that definition.

use vstd::prelude::*;

use crate::address::{
    fors_roots_adrs, fors_tree_adrs, spec_fors_roots_adrs, spec_fors_tree_adrs, spec_tree_adrs,
    spec_wots_hash_adrs, spec_wots_pk_adrs, tree_adrs, wots_hash_adrs, wots_pk_adrs,
};
use crate::bytes::spec_be_int;
use crate::hashes::{spec_f, spec_h, spec_h_msg, spec_t, Sha2L1};
use crate::params::{SIG_LEN_128S, VK_LEN};

verus! {

/// The single failure outcome of verification: a malformed length and a
/// cryptographic mismatch are deliberately indistinguishable.
#[derive(Clone, Copy, PartialEq, Eq, Structural, Debug)]
pub struct SignatureInvalid;

/// 256^n.
pub open spec fn pow256(n: nat) -> int
    decreases n,
{
    if n == 0 {
        1
    } else {
        256 * pow256((n - 1) as nat)
    }
}

/// 2^(7 - r) for a bit position `r` within a byte, most significant first.
pub open spec fn spec_bit_div(r: int) -> int {
    if r == 0 {
        128
    } else if r == 1 {
        64
    } else if r == 2 {
        32
    } else if r == 3 {
        16
    } else if r == 4 {
        8
    } else if r == 5 {
        4
    } else if r == 6 {
        2
    } else {
        1
    }
}

/// Bit `j` of the byte string `md`, bits numbered from the most significant
/// bit of the first byte.
pub open spec fn spec_md_bit(md: Seq<u8>, j: int) -> int {
    ((md[j / 8] as int) / spec_bit_div(j % 8)) % 2
}

/// The first `t` bits of the `i`-th A-bit value of `md`, read as a
/// big-endian integer (A = 12).
pub open spec fn spec_base2b_partial(md: Seq<u8>, i: int, t: int) -> int
    decreases t,
{
    if t <= 0 {
        0
    } else {
        spec_base2b_partial(md, i, t - 1) * 2 + spec_md_bit(md, 12 * i + (t - 1))
    }
}

/// The `i`-th A-bit value of the FORS index material (A = 12).
pub open spec fn spec_base2b(md: Seq<u8>, i: int) -> int {
    spec_base2b_partial(md, i, 12)
}

/// Message digit `i` (base 16) of the N-byte value `m`, for `i < 32`: the
/// high and low nibble of each byte in turn.
pub open spec fn spec_wots_msg_nibble(m: Seq<u8>, i: int) -> int {
    if i % 2 == 0 {
        ((m[i / 2] as int) / 16) % 16
    } else {
        (m[i / 2] as int) % 16
    }
}

/// WOTS+ digit `i` of the 35-digit message encoding of the N-byte value
/// `m`: 32 base-16 digits of `m`, then 3 base-16 digits of the checksum.
pub open spec fn spec_wots_digit(m: Seq<u8>, i: int) -> int {
    if i < 32 {
        spec_wots_msg_nibble(m, i)
    } else {
        let c = spec_wots_csum(m);
        if i == 32 {
            (c / 256) % 16
        } else if i == 33 {
            (c / 16) % 16
        } else {
            c % 16
        }
    }
}

/// Partial checksum: the sum of `15 - digit` over the first `n` message
/// digits.
pub open spec fn spec_wots_csum_partial(m: Seq<u8>, n: int) -> int
    decreases n,
{
    if n <= 0 {
        0
    } else {
        spec_wots_csum_partial(m, n - 1) + (15 - spec_wots_msg_nibble(m, n - 1))
    }
}

/// The WOTS+ checksum of the 32 message digits.
pub open spec fn spec_wots_csum(m: Seq<u8>) -> int {
    spec_wots_csum_partial(m, 32)
}

/// Completes one WOTS+ chain: applies `F` for hash indices
/// `start .. start + steps`, threading the running node value.
pub open spec fn spec_chain(
    pk_seed: Seq<u8>,
    layer: u32,
    tree: u64,
    key_pair: u32,
    chain_i: u32,
    node: Seq<u8>,
    start: int,
    steps: nat,
) -> Seq<u8>
    decreases steps,
{
    if steps == 0 {
        node
    } else {
        spec_chain(
            pk_seed,
            layer,
            tree,
            key_pair,
            chain_i,
            spec_f(
                pk_seed,
                spec_wots_hash_adrs(layer, tree, key_pair, chain_i, start as u32),
                node,
            ),
            start + 1,
            (steps - 1) as nat,
        )
    }
}

/// Chain end `i` recovered from a WOTS+ signature `sig_w` on message `m`:
/// the `i`-th signature block chained from digit `i` up to the top.
pub open spec fn spec_wots_end(
    pk_seed: Seq<u8>,
    layer: u32,
    tree: u64,
    key_pair: u32,
    sig_w: Seq<u8>,
    m: Seq<u8>,
    i: int,
) -> Seq<u8> {
    let d = spec_wots_digit(m, i);
    spec_chain(
        pk_seed,
        layer,
        tree,
        key_pair,
        i as u32,
        sig_w.subrange(16 * i, 16 * i + 16),
        d,
        (15 - d) as nat,
    )
}

/// All 35 chain ends recovered from a WOTS+ signature.
pub open spec fn spec_wots_ends(
    pk_seed: Seq<u8>,
    layer: u32,
    tree: u64,
    key_pair: u32,
    sig_w: Seq<u8>,
    m: Seq<u8>,
) -> Seq<Seq<u8>> {
    Seq::new(35, |i: int| spec_wots_end(pk_seed, layer, tree, key_pair, sig_w, m, i))
}

/// The WOTS+ public value recovered from a signature: the compression of
/// all chain ends under the WOTS-PK address.
pub open spec fn spec_wots_pk_from_sig(
    pk_seed: Seq<u8>,
    layer: u32,
    tree: u64,
    key_pair: u32,
    sig_w: Seq<u8>,
    m: Seq<u8>,
) -> Seq<u8> {
    spec_t(
        pk_seed,
        spec_wots_pk_adrs(layer, tree, key_pair),
        spec_wots_ends(pk_seed, layer, tree, key_pair, sig_w, m),
    )
}

/// Climbs an XMSS authentication path from level `k` to the subtree root:
/// at each level the sibling comes from `auth`, and the pair is compressed
/// left/right by the parity of the running index.
pub open spec fn spec_xmss_climb(
    pk_seed: Seq<u8>,
    layer: u32,
    tree: u64,
    node: Seq<u8>,
    idx: int,
    k: int,
    auth: Seq<u8>,
) -> Seq<u8>
    decreases 9 - k,
{
    if k < 0 || k >= 9 {
        node
    } else {
        let sib = auth.subrange(16 * k, 16 * k + 16);
        let a = spec_tree_adrs(layer, tree, (k + 1) as u32, (idx / 2) as u32);
        let parent = if idx % 2 == 0 {
            spec_h(pk_seed, a, node, sib)
        } else {
            spec_h(pk_seed, a, sib, node)
        };
        spec_xmss_climb(pk_seed, layer, tree, parent, idx / 2, k + 1, auth)
    }
}

/// The subtree root one hypertree layer claims for value `m`: the WOTS+
/// replay of the layer's signature, then the XMSS path of H' levels.
pub open spec fn spec_xmss_root(
    pk_seed: Seq<u8>,
    layer: u32,
    tree: u64,
    idx_leaf: u32,
    xmss_sig: Seq<u8>,
    m: Seq<u8>,
) -> Seq<u8> {
    let pk = spec_wots_pk_from_sig(pk_seed, layer, tree, idx_leaf, xmss_sig.take(560), m);
    spec_xmss_climb(pk_seed, layer, tree, pk, idx_leaf as int, 0, xmss_sig.skip(560))
}

/// Climbs a FORS authentication path from level `j` to the FORS tree root.
pub open spec fn spec_fors_climb(
    pk_seed: Seq<u8>,
    tree: u64,
    key_pair: u32,
    node: Seq<u8>,
    idx: int,
    j: int,
    auth: Seq<u8>,
) -> Seq<u8>
    decreases 12 - j,
{
    if j < 0 || j >= 12 {
        node
    } else {
        let sib = auth.subrange(16 * j, 16 * j + 16);
        let a = spec_fors_tree_adrs(tree, key_pair, (j + 1) as u32, (idx / 2) as u32);
        let parent = if idx % 2 == 0 {
            spec_h(pk_seed, a, node, sib)
        } else {
            spec_h(pk_seed, a, sib, node)
        };
        spec_fors_climb(pk_seed, tree, key_pair, parent, idx / 2, j + 1, auth)
    }
}

/// The root of FORS tree `i` replayed from its signature unit (a secret
/// leaf value plus A sibling hashes): the leaf index combines the tree
/// number with the `i`-th A-bit value of the index material `md`.
pub open spec fn spec_fors_root(
    pk_seed: Seq<u8>,
    tree: u64,
    key_pair: u32,
    i: int,
    md: Seq<u8>,
    unit: Seq<u8>,
) -> Seq<u8> {
    let leaf_idx = i * 4096 + spec_base2b(md, i);
    let leaf = spec_f(
        pk_seed,
        spec_fors_tree_adrs(tree, key_pair, 0, leaf_idx as u32),
        unit.take(16),
    );
    spec_fors_climb(pk_seed, tree, key_pair, leaf, leaf_idx, 0, unit.skip(16))
}

/// The K FORS tree roots replayed from the signature.
pub open spec fn spec_fors_roots(
    pk_seed: Seq<u8>,
    tree: u64,
    key_pair: u32,
    md: Seq<u8>,
    sig: Seq<u8>,
) -> Seq<Seq<u8>> {
    Seq::new(
        14,
        |i: int|
            spec_fors_root(
                pk_seed,
                tree,
                key_pair,
                i,
                md,
                sig.subrange(16 + 208 * i, 16 + 208 * (i + 1)),
            ),
    )
}

/// The aggregated FORS public value: the K tree roots compressed under the
/// FORS-roots address.
pub open spec fn spec_fors_pk(
    pk_seed: Seq<u8>,
    tree: u64,
    key_pair: u32,
    md: Seq<u8>,
    sig: Seq<u8>,
) -> Seq<u8> {
    spec_t(
        pk_seed,
        spec_fors_roots_adrs(tree, key_pair),
        spec_fors_roots(pk_seed, tree, key_pair, md, sig),
    )
}

/// Replays the hypertree from `layer` up: each layer's XMSS replay turns
/// the running root into the next layer's signed value, while the leaf and
/// tree indices peel off the low H' bits of the shrinking tree address.
pub open spec fn spec_ht_from(
    pk_seed: Seq<u8>,
    root: Seq<u8>,
    leaf: u32,
    tree: int,
    layer: int,
    sig: Seq<u8>,
) -> Seq<u8>
    decreases 7 - layer,
{
    if layer < 0 || layer >= 7 {
        root
    } else {
        let off = 2928 + 704 * layer;
        let next = spec_xmss_root(
            pk_seed,
            layer as u32,
            tree as u64,
            leaf,
            sig.subrange(off, off + 704),
            root,
        );
        spec_ht_from(pk_seed, next, (tree % 512) as u32, tree / 512, layer + 1, sig)
    }
}

/// The FORS index material: the first 21 bytes of the message digest.
pub open spec fn spec_md(digest: Seq<u8>) -> Seq<u8> {
    digest.take(21)
}

/// The hypertree tree index: the next 7 digest bytes big-endian, reduced
/// modulo 2^(H - H') = 2^54.
pub open spec fn spec_idx_tree(digest: Seq<u8>) -> int {
    spec_be_int(digest.subrange(21, 28)) % 0x40_0000_0000_0000
}

/// The XMSS leaf index: the last 2 digest bytes big-endian, reduced modulo
/// 2^H' = 2^9.
pub open spec fn spec_idx_leaf(digest: Seq<u8>) -> int {
    spec_be_int(digest.subrange(28, 30)) % 512
}

/// Whether `sig` is a valid signature on `msg` under `vk`, for inputs of
/// the correct lengths: the hypertree root replayed from the signature
/// equals the key's `pk_root`.
pub open spec fn spec_verify_ok(msg: Seq<u8>, sig: Seq<u8>, vk: Seq<u8>) -> bool {
    let pk_seed = vk.take(16);
    let pk_root = vk.skip(16);
    let rand = sig.take(16);
    let digest = spec_h_msg(rand, pk_seed, pk_root, seq![0u8, 0u8] + msg);
    let md = spec_md(digest);
    let idx_tree = spec_idx_tree(digest);
    let idx_leaf = spec_idx_leaf(digest);
    let fors_pk = spec_fors_pk(pk_seed, idx_tree as u64, idx_leaf as u32, md, sig);
    let root = spec_ht_from(pk_seed, fors_pk, idx_leaf as u32, idx_tree, 0, sig);
    root == pk_root
}

proof fn lemma_be_int_bound(s: Seq<u8>)
    ensures
        0 <= spec_be_int(s) < pow256(s.len()),
    decreases s.len(),
{
    if s.len() == 0 {
    } else {
        lemma_be_int_bound(s.drop_last());
        assert(spec_be_int(s) == spec_be_int(s.drop_last()) * 256 + s.last());
        assert(spec_be_int(s.drop_last()) * 256 <= (pow256((s.len() - 1) as nat) - 1) * 256)
            by (nonlinear_arith)
            requires
                spec_be_int(s.drop_last()) <= pow256((s.len() - 1) as nat) - 1,
        ;
    }
}

/// Reads `s[start..end]` as a big-endian integer (at most 7 bytes, so the
/// value fits in a machine word).
fn read_be_int(s: &[u8], start: usize, end: usize) -> (r: u64)
    requires
        start <= end <= s@.len(),
        end - start <= 7,
    ensures
        r == spec_be_int(s@.subrange(start as int, end as int)),
{
    proof {
        reveal_with_fuel(pow256, 8);
    }
    let mut acc: u64 = 0;
    let mut k: usize = start;
    while k < end
        invariant
            start <= k <= end <= s@.len(),
            end - start <= 7,
            acc == spec_be_int(s@.subrange(start as int, k as int)),
            acc < pow256((k - start) as nat),
        decreases end - k,
    {
        proof {
            reveal_with_fuel(pow256, 8);
            let sub = s@.subrange(start as int, k + 1);
            assert(sub.drop_last() =~= s@.subrange(start as int, k as int));
            lemma_be_int_bound(s@.subrange(start as int, k + 1));
        }
        acc = acc * 256 + (s[k] as u64);
        k += 1;
    }
    acc
}

/// Computes the `i`-th A-bit value of the FORS index material.
fn base_2b_value(md: &[u8], i: usize) -> (r: u32)
    requires
        md@.len() == 21,
        i < 14,
    ensures
        r == spec_base2b(md@, i as int),
        r < 4096,
{
    let mut acc: u32 = 0;
    let mut t: usize = 0;
    while t < 12
        invariant
            t <= 12,
            i < 14,
            md@.len() == 21,
            acc == spec_base2b_partial(md@, i as int, t as int),
            acc < 4096,
        decreases 12 - t,
    {
        proof {
            lemma_base2b_partial_bound(md@, i as int, t + 1);
            lemma_pow2_small_mono(t + 1, 12);
            reveal_with_fuel(pow2_small, 13);
        }
        let j = 12 * i + t;
        let rbit = j % 8;
        let div: u8 = if rbit == 0 {
            128
        } else if rbit == 1 {
            64
        } else if rbit == 2 {
            32
        } else if rbit == 3 {
            16
        } else if rbit == 4 {
            8
        } else if rbit == 5 {
            4
        } else if rbit == 6 {
            2
        } else {
            1
        };
        let bit = (md[j / 8] / div) % 2;
        acc = acc * 2 + (bit as u32);
        t += 1;
    }
    acc
}

proof fn lemma_base2b_partial_bound(md: Seq<u8>, i: int, t: int)
    ensures
        0 <= spec_base2b_partial(md, i, t) < pow2_small(t),
    decreases (if t >= 0 { t } else { 0 }),
{
    if t <= 0 {
    } else {
        lemma_base2b_partial_bound(md, i, t - 1);
        let b = spec_md_bit(md, 12 * i + (t - 1));
        assert(0 <= b < 2);
        assert(spec_base2b_partial(md, i, t) == spec_base2b_partial(md, i, t - 1) * 2 + b);
        assert(pow2_small(t) == 2 * pow2_small(t - 1));
    }
}

proof fn lemma_pow2_small_mono(a: int, b: int)
    requires
        a <= b,
    ensures
        1 <= pow2_small(a) <= pow2_small(b),
    decreases (if b >= 0 { b } else { 0 }),
{
    if b <= 0 || a == b {
        lemma_pow2_small_pos(a);
    } else {
        lemma_pow2_small_mono(a, b - 1);
    }
}

proof fn lemma_pow2_small_pos(a: int)
    ensures
        1 <= pow2_small(a),
    decreases (if a >= 0 { a } else { 0 }),
{
    if a > 0 {
        lemma_pow2_small_pos(a - 1);
    }
}

/// 2^t for small nonnegative `t`.
pub open spec fn pow2_small(t: int) -> int
    decreases (if t >= 0 { t } else { 0 }),
{
    if t <= 0 {
        1
    } else {
        2 * pow2_small(t - 1)
    }
}

/// Completes one WOTS+ chain from hash index `start` to the top.
fn wots_chain(
    pk_seed: &[u8],
    layer: u32,
    tree: u64,
    key_pair: u32,
    chain_i: u32,
    node: Vec<u8>,
    start: u32,
) -> (r: Vec<u8>)
    requires
        start <= 15,
        node@.len() == 16,
    ensures
        r@ == spec_chain(
            pk_seed@,
            layer,
            tree,
            key_pair,
            chain_i,
            node@,
            start as int,
            (15 - start) as nat,
        ),
        r@.len() == 16,
{
    let ghost orig_node = node@;
    let mut node = node;
    let mut j: u32 = start;
    while j < 15
        invariant
            start <= j <= 15,
            node@.len() == 16,
            spec_chain(pk_seed@, layer, tree, key_pair, chain_i, node@, j as int, (15 - j) as nat)
                == spec_chain(
                pk_seed@,
                layer,
                tree,
                key_pair,
                chain_i,
                orig_node,
                start as int,
                (15 - start) as nat,
            ),
        decreases 15 - j,
    {
        let a = wots_hash_adrs(layer, tree, key_pair, chain_i, j);
        node = Sha2L1::f(pk_seed, &a, node.as_slice());
        j += 1;
    }
    node
}

/// Recovers the WOTS+ public value from a 560-byte WOTS+ signature on the
/// 16-byte value `m`.
fn wots_pk_from_sig(
    pk_seed: &[u8],
    layer: u32,
    tree: u64,
    key_pair: u32,
    sig_w: &[u8],
    m: &[u8],
) -> (r: Vec<u8>)
    requires
        sig_w@.len() == 560,
        m@.len() == 16,
    ensures
        r@ == spec_wots_pk_from_sig(pk_seed@, layer, tree, key_pair, sig_w@, m@),
        r@.len() == 16,
{
    // Checksum over the 32 message digits.
    let mut csum: u32 = 0;
    let mut i: usize = 0;
    while i < 32
        invariant
            i <= 32,
            m@.len() == 16,
            csum == spec_wots_csum_partial(m@, i as int),
            csum <= 15 * i,
        decreases 32 - i,
    {
        let b = m[i / 2];
        let d: u32 = if i % 2 == 0 {
            ((b / 16) % 16) as u32
        } else {
            (b % 16) as u32
        };
        proof {
            assert(d == spec_wots_digit(m@, i as int));
            assert(0 <= d <= 15);
        }
        csum = csum + (15 - d);
        i += 1;
    }
    proof {
        assert(csum == spec_wots_csum(m@));
    }

    // Replay each chain from its digit to the top.
    let mut ends: Vec<Vec<u8>> = Vec::new();
    let mut i: usize = 0;
    while i < 35
        invariant
            i <= 35,
            m@.len() == 16,
            sig_w@.len() == 560,
            csum == spec_wots_csum(m@),
            csum <= 480,
            ends@.len() == i,
            forall|j: int|
                0 <= j < i ==> #[trigger] ends@[j]@ == spec_wots_end(
                    pk_seed@,
                    layer,
                    tree,
                    key_pair,
                    sig_w@,
                    m@,
                    j,
                ) && ends@[j]@.len() == 16,
        decreases 35 - i,
    {
        let d: u32 = if i < 32 {
            let b = m[i / 2];
            if i % 2 == 0 {
                ((b / 16) % 16) as u32
            } else {
                (b % 16) as u32
            }
        } else if i == 32 {
            (csum / 256) % 16
        } else if i == 33 {
            (csum / 16) % 16
        } else {
            csum % 16
        };
        proof {
            assert(d == spec_wots_digit(m@, i as int));
            assert(d <= 15);
        }
        let block = crate::bytes::copy_range(sig_w, 16 * i, 16 * i + 16);
        let end = wots_chain(pk_seed, layer, tree, key_pair, i as u32, block, d);
        ends.push(end);
        i += 1;
    }
    let a = wots_pk_adrs(layer, tree, key_pair);
    let r = Sha2L1::t(pk_seed, &a, &ends);
    proof {
        assert(ends@.map_values(|b: Vec<u8>| b@) =~= spec_wots_ends(
            pk_seed@,
            layer,
            tree,
            key_pair,
            sig_w@,
            m@,
        ));
    }
    r
}

/// Replays one hypertree layer: the WOTS+ recovery of the signed value,
/// then the XMSS authentication path of H' = 9 levels.
fn xmss_root(
    pk_seed: &[u8],
    layer: u32,
    tree: u64,
    idx_leaf: u32,
    xmss_sig: &[u8],
    m: &[u8],
) -> (r: Vec<u8>)
    requires
        xmss_sig@.len() == 704,
        m@.len() == 16,
        idx_leaf < 512,
    ensures
        r@ == spec_xmss_root(pk_seed@, layer, tree, idx_leaf, xmss_sig@, m@),
        r@.len() == 16,
{
    let sig_w = crate::bytes::copy_range(xmss_sig, 0, 560);
    proof {
        assert(sig_w@ =~= xmss_sig@.take(560));
    }
    let mut node = wots_pk_from_sig(pk_seed, layer, tree, idx_leaf, sig_w.as_slice(), m);
    let ghost auth = xmss_sig@.skip(560);
    let ghost pk0 = node@;
    let mut idx: u32 = idx_leaf;
    let mut k: u32 = 0;
    while k < 9
        invariant
            k <= 9,
            node@.len() == 16,
            idx < 512,
            xmss_sig@.len() == 704,
            auth == xmss_sig@.skip(560),
            spec_xmss_climb(pk_seed@, layer, tree, node@, idx as int, k as int, auth)
                == spec_xmss_climb(pk_seed@, layer, tree, pk0, idx_leaf as int, 0, auth),
        decreases 9 - k,
    {
        let off = 560 + 16 * (k as usize);
        let sib = &xmss_sig[off..off + 16];
        proof {
            assert(sib@ =~= auth.subrange(16 * (k as int), 16 * (k as int) + 16));
        }
        let a = tree_adrs(layer, tree, k + 1, idx / 2);
        node = if idx % 2 == 0 {
            Sha2L1::h(pk_seed, &a, node.as_slice(), sib)
        } else {
            Sha2L1::h(pk_seed, &a, sib, node.as_slice())
        };
        idx = idx / 2;
        k += 1;
    }
    node
}

/// Replays one FORS tree from its signature unit and returns its root.
fn fors_root(
    pk_seed: &[u8],
    tree: u64,
    key_pair: u32,
    i: usize,
    md: &[u8],
    unit: &[u8],
) -> (r: Vec<u8>)
    requires
        unit@.len() == 208,
        md@.len() == 21,
        i < 14,
    ensures
        r@ == spec_fors_root(pk_seed@, tree, key_pair, i as int, md@, unit@),
        r@.len() == 16,
{
    let v = base_2b_value(md, i);
    let leaf_idx: u32 = (i as u32) * 4096 + v;
    let sk = crate::bytes::copy_range(unit, 0, 16);
    proof {
        assert(sk@ =~= unit@.take(16));
    }
    let a0 = fors_tree_adrs(tree, key_pair, 0, leaf_idx);
    let mut node = Sha2L1::f(pk_seed, &a0, sk.as_slice());
    let ghost auth = unit@.skip(16);
    let ghost leaf0 = node@;
    let ghost leaf_idx0 = leaf_idx as int;
    let mut idx: u32 = leaf_idx;
    let mut j: u32 = 0;
    while j < 12
        invariant
            j <= 12,
            node@.len() == 16,
            unit@.len() == 208,
            auth == unit@.skip(16),
            spec_fors_climb(pk_seed@, tree, key_pair, node@, idx as int, j as int, auth)
                == spec_fors_climb(pk_seed@, tree, key_pair, leaf0, leaf_idx0, 0, auth),
        decreases 12 - j,
    {
        let off = 16 + 16 * (j as usize);
        let sib = &unit[off..off + 16];
        proof {
            assert(sib@ =~= auth.subrange(16 * (j as int), 16 * (j as int) + 16));
        }
        let a = fors_tree_adrs(tree, key_pair, j + 1, idx / 2);
        node = if idx % 2 == 0 {
            Sha2L1::h(pk_seed, &a, node.as_slice(), sib)
        } else {
            Sha2L1::h(pk_seed, &a, sib, node.as_slice())
        };
        idx = idx / 2;
        j += 1;
    }
    node
}

/// Replays all K FORS trees and compresses their roots into the FORS
/// public value.
fn fors_pk(pk_seed: &[u8], tree: u64, key_pair: u32, md: &[u8], sig: &[u8]) -> (r: Vec<u8>)
    requires
        sig@.len() == SIG_LEN_128S,
        md@.len() == 21,
    ensures
        r@ == spec_fors_pk(pk_seed@, tree, key_pair, md@, sig@),
        r@.len() == 16,
{
    let mut roots: Vec<Vec<u8>> = Vec::new();
    let mut i: usize = 0;
    while i < 14
        invariant
            i <= 14,
            sig@.len() == SIG_LEN_128S,
            md@.len() == 21,
            roots@.len() == i,
            forall|j: int|
                0 <= j < i ==> #[trigger] roots@[j]@ == spec_fors_root(
                    pk_seed@,
                    tree,
                    key_pair,
                    j,
                    md@,
                    sig@.subrange(16 + 208 * j, 16 + 208 * (j + 1)),
                ) && roots@[j]@.len() == 16,
        decreases 14 - i,
    {
        let off = 16 + 208 * i;
        let unit = &sig[off..off + 208];
        let root = fors_root(pk_seed, tree, key_pair, i, md, unit);
        roots.push(root);
        i += 1;
    }
    let a = fors_roots_adrs(tree, key_pair);
    let r = Sha2L1::t(pk_seed, &a, &roots);
    proof {
        assert(roots@.map_values(|b: Vec<u8>| b@) =~= spec_fors_roots(
            pk_seed@,
            tree,
            key_pair,
            md@,
            sig@,
        ));
    }
    r
}

/// Verifies a signature in a streaming fashion.
///
/// Returns `Ok(())` exactly when `sig` has the fixed signature length,
/// `vk` has the fixed verifying-key length, and the hypertree root replayed
/// from the signature equals the key's `pk_root`; every other input yields
/// `SignatureInvalid`.
pub fn verify_sha2_128s(msg: &[u8], sig: &[u8], vk_raw: &[u8]) -> (r: Result<
    (),
    SignatureInvalid,
>)
    ensures
        r is Ok <==> (sig@.len() == SIG_LEN_128S && vk_raw@.len() == VK_LEN && spec_verify_ok(
            msg@,
            sig@,
            vk_raw@,
        )),
{
    if sig.len() != SIG_LEN_128S {
        return Err(SignatureInvalid);
    }
    if vk_raw.len() != VK_LEN {
        return Err(SignatureInvalid);
    }
    let pk_seed = &vk_raw[0..16];
    let pk_root = &vk_raw[16..32];
    let rand = &sig[0..16];
    proof {
        assert(pk_seed@ =~= vk_raw@.take(16));
        assert(pk_root@ =~= vk_raw@.skip(16));
        assert(rand@ =~= sig@.take(16));
    }

    // Message digest: two zero context bytes precede the message.
    let mut ctx_msg: Vec<u8> = Vec::new();
    ctx_msg.push(0u8);
    ctx_msg.push(0u8);
    crate::bytes::extend_bytes(&mut ctx_msg, msg);
    proof {
        assert(ctx_msg@ =~= seq![0u8, 0u8] + msg@);
    }
    let digest = Sha2L1::h_msg(rand, pk_seed, pk_root, ctx_msg.as_slice());

    // Split the digest into index material, tree index and leaf index.
    let md = crate::bytes::copy_range(digest.as_slice(), 0, 21);
    proof {
        assert(md@ =~= digest@.take(21));
    }
    let idx_tree: u64 = read_be_int(digest.as_slice(), 21, 28) % 0x40_0000_0000_0000;
    let idx_leaf: u32 = (read_be_int(digest.as_slice(), 28, 30) % 512) as u32;

    // FORS replay and root aggregation.
    let mut root = fors_pk(pk_seed, idx_tree, idx_leaf, md.as_slice(), sig);

    // Hypertree replay, bottom-up.
    let ghost fors_pk0 = root@;
    let ghost idx_tree0 = idx_tree as int;
    let ghost idx_leaf0 = idx_leaf;
    let mut tree: u64 = idx_tree;
    let mut leaf: u32 = idx_leaf;
    let mut layer: u32 = 0;
    while layer < 7
        invariant
            layer <= 7,
            root@.len() == 16,
            leaf < 512,
            sig@.len() == SIG_LEN_128S,
            spec_ht_from(pk_seed@, root@, leaf, tree as int, layer as int, sig@) == spec_ht_from(
                pk_seed@,
                fors_pk0,
                idx_leaf0,
                idx_tree0,
                0,
                sig@,
            ),
        decreases 7 - layer,
    {
        let off = 2928 + 704 * (layer as usize);
        let xmss_sig = &sig[off..off + 704];
        proof {
            assert(xmss_sig@ =~= sig@.subrange(
                2928 + 704 * (layer as int),
                2928 + 704 * (layer as int) + 704,
            ));
        }
        root = xmss_root(pk_seed, layer, tree, leaf, xmss_sig, root.as_slice());
        leaf = (tree % 512) as u32;
        tree = tree / 512;
        layer += 1;
    }

    // Final comparison with the key's root.
    if crate::bytes::bytes_eq(root.as_slice(), pk_root) {
        Ok(())
    } else {
        Err(SignatureInvalid)
    }
}

} // verus!

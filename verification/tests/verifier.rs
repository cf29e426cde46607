//! End-to-end tests of the streaming verifier against a reference
//! signature construction built from the library's own hash suite, plus
//! exact-value tests of the suite primitives against direct hash
//! computations.
//!
//! The fixture prepares an honest WOTS+ key pair at one leaf of the top
//! hypertree layer and derives `pk_root` from it; the randomizer is chosen
//! so that the message digest routes to that leaf.  The lower layers and
//! the FORS trees are replayed from fixed signature bytes, exactly as the
//! verifier replays them, so the signature is valid by construction and
//! every replay path of the verifier is exercised.

use hmac::Mac;
use sha2::Digest;

use slh_verifier::address::{
    fors_roots_adrs, fors_tree_adrs, tree_adrs, wots_hash_adrs, wots_pk_adrs, wots_prf_adrs,
};
use slh_verifier::finalize::handle_finalize_sig;
use slh_verifier::hashes::{mgf1, mgf1_sha512, Sha2L1, Sha2L35};
use slh_verifier::params::{SIG_LEN_128S, VK_LEN};
use slh_verifier::state::BufferPda;
use slh_verifier::verify::verify_sha2_128s;

fn sha256_direct(parts: &[&[u8]]) -> Vec<u8> {
    let mut h = sha2::Sha256::new();
    for p in parts {
        h.update(p);
    }
    h.finalize().to_vec()
}

fn be_int(bytes: &[u8]) -> u64 {
    let mut acc: u64 = 0;
    for &b in bytes {
        acc = acc * 256 + b as u64;
    }
    acc
}

/// Deterministic filler bytes for the replayed signature regions.
fn pseudo_bytes(n: usize, tag: u8) -> Vec<u8> {
    (0..n).map(|i| (i as u8).wrapping_mul(31).wrapping_add(tag)).collect()
}

/// The fourteen 12-bit values of the FORS index material.
fn base_2b(md: &[u8]) -> Vec<u32> {
    let mut out = Vec::new();
    for i in 0..14usize {
        let mut acc: u32 = 0;
        for t in 0..12usize {
            let j = 12 * i + t;
            let bit = (md[j / 8] >> (7 - (j % 8))) & 1;
            acc = acc * 2 + bit as u32;
        }
        out.push(acc);
    }
    out
}

/// The 35 WOTS+ digits (32 message nibbles, 3 checksum nibbles).
fn wots_digits(m: &[u8]) -> Vec<u32> {
    let mut ds: Vec<u32> = Vec::new();
    for i in 0..32usize {
        let b = m[i / 2];
        ds.push(if i % 2 == 0 { (b >> 4) as u32 } else { (b & 0xf) as u32 });
    }
    let csum: u32 = ds.iter().map(|d| 15 - d).sum();
    ds.push((csum >> 8) & 0xf);
    ds.push((csum >> 4) & 0xf);
    ds.push(csum & 0xf);
    ds
}

fn chain(
    pk_seed: &[u8],
    layer: u32,
    tree: u64,
    kp: u32,
    chain_i: u32,
    start: u32,
    steps: u32,
    node: Vec<u8>,
) -> Vec<u8> {
    let mut node = node;
    for j in start..start + steps {
        let a = wots_hash_adrs(layer, tree, kp, chain_i, j);
        node = Sha2L1::f(pk_seed, &a, &node);
    }
    node
}

/// Replays the FORS trees and the first `layers` hypertree layers of a
/// signature, mirroring the verifier, and returns the running root.
fn replay_partial(pk_seed: &[u8], digest: &[u8], sig: &[u8], layers: u32) -> Vec<u8> {
    let md = &digest[0..21];
    let idx_tree: u64 = be_int(&digest[21..28]) % (1u64 << 54);
    let idx_leaf: u32 = (be_int(&digest[28..30]) % 512) as u32;
    let indices = base_2b(md);

    // FORS replay.
    let mut cursor = 16usize;
    let mut roots: Vec<Vec<u8>> = Vec::new();
    for i in 0..14usize {
        let sk = &sig[cursor..cursor + 16];
        cursor += 16;
        let leaf_idx = (i as u32) * 4096 + indices[i];
        let a0 = fors_tree_adrs(idx_tree, idx_leaf, 0, leaf_idx);
        let mut node = Sha2L1::f(pk_seed, &a0, sk);
        let mut idx = leaf_idx;
        for h in 0..12u32 {
            let sib = &sig[cursor..cursor + 16];
            cursor += 16;
            let a = fors_tree_adrs(idx_tree, idx_leaf, h + 1, idx / 2);
            node = if idx % 2 == 0 {
                Sha2L1::h(pk_seed, &a, &node, sib)
            } else {
                Sha2L1::h(pk_seed, &a, sib, &node)
            };
            idx /= 2;
        }
        roots.push(node);
    }
    let ra = fors_roots_adrs(idx_tree, idx_leaf);
    let mut root = Sha2L1::t(pk_seed, &ra, &roots);

    // Hypertree replay.
    let mut tree = idx_tree;
    let mut leaf = idx_leaf;
    for layer in 0..layers {
        let off = 2928 + 704 * (layer as usize);
        let sig_w = &sig[off..off + 560];
        let auth = &sig[off + 560..off + 704];
        let ds = wots_digits(&root);
        let mut ends: Vec<Vec<u8>> = Vec::new();
        for i in 0..35usize {
            let block = sig_w[16 * i..16 * i + 16].to_vec();
            ends.push(chain(pk_seed, layer, tree, leaf, i as u32, ds[i], 15 - ds[i], block));
        }
        let pa = wots_pk_adrs(layer, tree, leaf);
        let mut node = Sha2L1::t(pk_seed, &pa, &ends);
        let mut idx = leaf;
        for k in 0..9u32 {
            let sib = &auth[16 * (k as usize)..16 * (k as usize) + 16];
            let a = tree_adrs(layer, tree, k + 1, idx / 2);
            node = if idx % 2 == 0 {
                Sha2L1::h(pk_seed, &a, &node, sib)
            } else {
                Sha2L1::h(pk_seed, &a, sib, &node)
            };
            idx /= 2;
        }
        root = node;
        leaf = (tree % 512) as u32;
        tree >>= 9;
    }
    root
}

/// Builds a verifying key and a signing closure for the top-layer leaf 0:
/// returns (vk, secret chain values, top-layer sibling hashes).
fn make_key(pk_seed: &[u8]) -> (Vec<u8>, Vec<Vec<u8>>, Vec<Vec<u8>>) {
    // Honest WOTS+ chains for key pair 0 of the single top-layer tree.
    let sks: Vec<Vec<u8>> = (0..35u8).map(|i| pseudo_bytes(16, i)).collect();
    let mut ends: Vec<Vec<u8>> = Vec::new();
    for (i, sk) in sks.iter().enumerate() {
        ends.push(chain(pk_seed, 6, 0, 0, i as u32, 0, 15, sk.clone()));
    }
    let pa = wots_pk_adrs(6, 0, 0);
    let mut node = Sha2L1::t(pk_seed, &pa, &ends);

    // Arbitrary siblings up the top tree; leaf 0 keeps every index even.
    let sibs: Vec<Vec<u8>> = (0..9u8).map(|z| pseudo_bytes(16, 100 + z)).collect();
    for (z, sib) in sibs.iter().enumerate() {
        let a = tree_adrs(6, 0, z as u32 + 1, 0);
        node = Sha2L1::h(pk_seed, &a, &node, sib);
    }
    let mut vk = pk_seed.to_vec();
    vk.extend_from_slice(&node);
    (vk, sks, sibs)
}

/// Signs `msg` under the fixture key: picks a randomizer that routes the
/// digest's top-layer leaf index to leaf 0, replays the lower layers from
/// fixed bytes, and signs the running root honestly at the top layer.
fn sign(msg: &[u8], pk_seed: &[u8], vk: &[u8], sks: &[Vec<u8>], sibs: &[Vec<u8>]) -> Vec<u8> {
    let pk_root = &vk[16..32];
    let mut msgp = vec![0u8, 0u8];
    msgp.extend_from_slice(msg);

    // Search a randomizer whose digest selects leaf 0 of the top layer.
    let mut digest = Vec::new();
    let mut rand = Vec::new();
    for ctr in 0u64..1_000_000 {
        let mut r = vec![0u8; 8];
        r.extend_from_slice(&ctr.to_le_bytes());
        let d = Sha2L1::h_msg(&r, pk_seed, pk_root, &msgp);
        let idx_tree: u64 = be_int(&d[21..28]) % (1u64 << 54);
        if (idx_tree >> 45) & 511 == 0 {
            digest = d;
            rand = r;
            break;
        }
    }
    assert!(!rand.is_empty());

    // Signature skeleton: randomizer, FORS units and the first six layers
    // from fixed bytes, the top layer honest.
    let mut sig = rand.clone();
    sig.extend_from_slice(&pseudo_bytes(14 * 208, 7));
    sig.extend_from_slice(&pseudo_bytes(6 * 704, 8));

    // The value the top layer signs is the root replayed so far.
    let mut partial = sig.clone();
    partial.extend_from_slice(&vec![0u8; 704]);
    assert_eq!(partial.len(), SIG_LEN_128S);
    let root6 = replay_partial(pk_seed, &digest, &partial, 6);

    // Honest WOTS+ signature for key pair 0 at layer 6, plus the key's
    // sibling path.
    let ds = wots_digits(&root6);
    for i in 0..35usize {
        let v = chain(pk_seed, 6, 0, 0, i as u32, 0, ds[i], sks[i].clone());
        sig.extend_from_slice(&v);
    }
    for sib in sibs {
        sig.extend_from_slice(sib);
    }
    assert_eq!(sig.len(), SIG_LEN_128S);
    sig
}

fn fixture(msg: &[u8]) -> (Vec<u8>, Vec<u8>) {
    let pk_seed = vec![3u8; 16];
    let (vk, sks, sibs) = make_key(&pk_seed);
    let sig = sign(msg, &pk_seed, &vk, &sks, &sibs);
    (sig, vk)
}

#[test]
fn round_trip_signature_verifies() {
    let msg = b"post-quantum chat message".to_vec();
    let (sig, vk) = fixture(&msg);
    assert!(verify_sha2_128s(&msg, &sig, &vk).is_ok());
}

#[test]
fn tampered_inputs_are_rejected() {
    let msg = b"post-quantum chat message".to_vec();
    let (sig, vk) = fixture(&msg);
    assert!(verify_sha2_128s(&msg, &sig, &vk).is_ok());

    // Flip one bit of the randomizer, a FORS secret leaf, a FORS sibling
    // hash, and a WOTS+ chain value.
    for &pos in &[0usize, 16, 32, 2928] {
        let mut bad = sig.clone();
        bad[pos] ^= 1;
        assert!(verify_sha2_128s(&msg, &bad, &vk).is_err());
    }

    // Flip one bit of the message.
    let mut bad_msg = msg.clone();
    bad_msg[0] ^= 0x80;
    assert!(verify_sha2_128s(&bad_msg, &sig, &vk).is_err());

    // Flip one bit of the verifying key, in the seed and in the root.
    for &pos in &[0usize, 31] {
        let mut bad_vk = vk.clone();
        bad_vk[pos] ^= 1;
        assert!(verify_sha2_128s(&msg, &sig, &bad_vk).is_err());
    }
}

#[test]
fn wrong_lengths_are_rejected() {
    let msg = b"m".to_vec();
    let vk = vec![0u8; VK_LEN];
    assert!(verify_sha2_128s(&msg, &vec![0u8; SIG_LEN_128S - 1], &vk).is_err());
    assert!(verify_sha2_128s(&msg, &vec![], &vk).is_err());
    assert!(verify_sha2_128s(&msg, &vec![0u8; SIG_LEN_128S * 2], &vk).is_err());
    // Wrong key length with a correct signature length.
    assert!(verify_sha2_128s(&msg, &vec![0u8; SIG_LEN_128S], &vec![0u8; 31]).is_err());
}

#[test]
fn all_zero_inputs_reach_the_final_comparison() {
    // A full-length all-zero signature and all-zero key parse completely
    // and fail only at the root comparison.
    let sig = vec![0u8; SIG_LEN_128S];
    let vk = vec![0u8; VK_LEN];
    assert!(verify_sha2_128s(&[], &sig, &vk).is_err());
    assert!(verify_sha2_128s(b"abc", &sig, &vk).is_err());
}

#[test]
fn finalize_accepts_a_valid_signature() {
    let pk_seed = vec![3u8; 16];
    let (vk, sks, sibs) = make_key(&pk_seed);

    let cipher = b"cipher part".to_vec();
    let kem = b"kem part".to_vec();
    let proof = b"numeric proof bytes".to_vec();
    let mut body = cipher.clone();
    body.extend_from_slice(&kem);
    body.extend_from_slice(&proof);
    let nonce = vec![5u8; 12];
    let slot: u64 = 42;

    // The signature covers cipher ‖ kem ‖ nonce ‖ slot.
    let mut blob = body[..cipher.len() + kem.len()].to_vec();
    blob.extend_from_slice(&nonce);
    blob.extend_from_slice(&slot.to_le_bytes());
    let sig = sign(&blob, &pk_seed, &vk, &sks, &sibs);

    let body_buf = BufferPda {
        sender: vec![0u8; 32],
        length: body.len() as u32,
        sha_chain: vec![0u8; 32],
        data: body.clone(),
    };
    let sig_buf = BufferPda {
        sender: vec![0u8; 32],
        length: sig.len() as u32,
        sha_chain: vec![0u8; 32],
        data: sig.clone(),
    };
    let msg = handle_finalize_sig(
        &body_buf,
        &sig_buf,
        vec![8u8; 32],
        vec![9u8; 32],
        vec![10u8; 32],
        cipher.len() as u32,
        kem.len() as u32,
        nonce.clone(),
        slot,
        &vk,
    )
    .unwrap();
    assert_eq!(msg.payload, body);
    assert_eq!(msg.sig_len as usize, SIG_LEN_128S);
    assert_eq!(msg.sig_hash, sha256_direct(&[&sig]));
    assert_eq!(msg.slot, slot);
    assert_eq!(msg.nonce, nonce);
}

#[test]
fn suite_f_matches_direct_hash() {
    let pk_seed = [9u8; 16];
    let a = fors_tree_adrs(0x1122334455, 7, 0, 513);
    let m = [0xabu8; 16];
    // pk_seed ‖ 48 zero bytes ‖ compressed address ‖ m, truncated to 16.
    let mut adrs_bytes = vec![0u8];
    adrs_bytes.extend_from_slice(&0x1122334455u64.to_be_bytes());
    adrs_bytes.push(3);
    adrs_bytes.extend_from_slice(&7u32.to_be_bytes());
    adrs_bytes.extend_from_slice(&0u32.to_be_bytes());
    adrs_bytes.extend_from_slice(&513u32.to_be_bytes());
    assert_eq!(a.to_bytes(), adrs_bytes);
    let digest = sha256_direct(&[&pk_seed, &[0u8; 48], &adrs_bytes, &m]);
    assert_eq!(Sha2L1::f(&pk_seed, &a, &m), digest[..16].to_vec());
}

#[test]
fn suite_h_and_t_match_direct_hash() {
    let pk_seed = [1u8; 16];
    let a = tree_adrs(2, 99, 5, 12);
    let left = [4u8; 16];
    let right = [5u8; 16];
    let ab = a.to_bytes();
    let digest = sha256_direct(&[&pk_seed, &[0u8; 48], &ab, &left, &right]);
    assert_eq!(Sha2L1::h(&pk_seed, &a, &left, &right), digest[..16].to_vec());

    let blocks = vec![vec![6u8; 16], vec![7u8; 16], vec![8u8; 16]];
    let digest2 = sha256_direct(&[&pk_seed, &[0u8; 48], &ab, &blocks[0], &blocks[1], &blocks[2]]);
    assert_eq!(Sha2L1::t(&pk_seed, &a, &blocks), digest2[..16].to_vec());
}

#[test]
fn mgf1_matches_direct_computation() {
    let seed = b"mask generation seed";
    let out = mgf1(seed, 40);
    let b0 = sha256_direct(&[seed.as_slice(), &0u32.to_be_bytes()]);
    let b1 = sha256_direct(&[seed.as_slice(), &1u32.to_be_bytes()]);
    let mut expect = b0.clone();
    expect.extend_from_slice(&b1);
    expect.truncate(40);
    assert_eq!(out, expect);
    // An exact multiple of the block size uses whole blocks.
    let out32 = mgf1(seed, 32);
    assert_eq!(out32, b0);
}

#[test]
fn h_msg_matches_direct_computation() {
    let rand = [1u8; 16];
    let pk_seed = [2u8; 16];
    let pk_root = [3u8; 16];
    let msg = b"digest me";
    let inner = sha256_direct(&[&rand, &pk_seed, &pk_root, msg.as_slice()]);
    let mut seed = Vec::new();
    seed.extend_from_slice(&rand);
    seed.extend_from_slice(&pk_seed);
    seed.extend_from_slice(&inner);
    let expect = mgf1(&seed, 30);
    assert_eq!(Sha2L1::h_msg(&rand, &pk_seed, &pk_root, msg), expect);
}

#[test]
fn prf_msg_matches_hmac() {
    let sk_prf = [7u8; 16];
    let opt_rand = [8u8; 16];
    let msg = b"randomize me";
    let mut mac = <hmac::Hmac<sha2::Sha256> as Mac>::new_from_slice(&sk_prf).unwrap();
    mac.update(&opt_rand);
    mac.update(msg);
    let tag = mac.finalize().into_bytes();
    assert_eq!(Sha2L1::prf_msg(&sk_prf, &opt_rand, msg), tag[..16].to_vec());
}

#[test]
fn level35_suite_matches_direct_hashes() {
    // N = 24: the level-3 truncation length.
    let pk_seed = [6u8; 24];
    let a = tree_adrs(1, 2, 3, 4);
    let ab = a.to_bytes();
    let m = [0x5au8; 24];

    // F and PRF keep the 256-bit hash with a 64-byte boundary.
    let d256 = sha256_direct(&[&pk_seed, &[0u8; 40], &ab, &m]);
    assert_eq!(Sha2L35::f(&pk_seed, &a, &m), d256[..24].to_vec());
    let sk_seed = [7u8; 24];
    let dprf = sha256_direct(&[&pk_seed, &[0u8; 40], &ab, &sk_seed]);
    assert_eq!(Sha2L35::prf_sk(&pk_seed, &sk_seed, &a), dprf[..24].to_vec());

    // H and T move to the 512-bit hash with a 128-byte boundary.
    let left = [1u8; 24];
    let right = [2u8; 24];
    let mut h512 = sha2::Sha512::new();
    h512.update(&pk_seed);
    h512.update(&[0u8; 104]);
    h512.update(&ab);
    h512.update(&left);
    h512.update(&right);
    let dh = h512.finalize().to_vec();
    assert_eq!(Sha2L35::h(&pk_seed, &a, &left, &right), dh[..24].to_vec());

    let blocks = vec![vec![3u8; 24], vec![4u8; 24]];
    let mut t512 = sha2::Sha512::new();
    t512.update(&pk_seed);
    t512.update(&[0u8; 104]);
    t512.update(&ab);
    t512.update(&blocks[0]);
    t512.update(&blocks[1]);
    let dt = t512.finalize().to_vec();
    assert_eq!(Sha2L35::t(&pk_seed, &a, &blocks), dt[..24].to_vec());
}

#[test]
fn level35_message_primitives_match_direct_hashes() {
    let rand = [1u8; 24];
    let pk_seed = [2u8; 24];
    let pk_root = [3u8; 24];
    let msg = b"wider digest";

    // H_msg: SHA-512 inner digest, then MGF1-SHA-512 expansion to M = 39.
    let mut inner_h = sha2::Sha512::new();
    inner_h.update(&rand);
    inner_h.update(&pk_seed);
    inner_h.update(&pk_root);
    inner_h.update(msg);
    let inner = inner_h.finalize().to_vec();
    let mut seed = Vec::new();
    seed.extend_from_slice(&rand);
    seed.extend_from_slice(&pk_seed);
    seed.extend_from_slice(&inner);
    let expect = mgf1_sha512(&seed, 39);
    assert_eq!(Sha2L35::h_msg(&rand, &pk_seed, &pk_root, msg, 39), expect);

    // One MGF1-SHA-512 block, truncated.
    let mut b0h = sha2::Sha512::new();
    b0h.update(&seed);
    b0h.update(&0u32.to_be_bytes());
    let b0 = b0h.finalize().to_vec();
    assert_eq!(expect, b0[..39].to_vec());

    // PRF_msg: HMAC-SHA-512, truncated to N.
    let mut mac = <hmac::Hmac<sha2::Sha512> as Mac>::new_from_slice(&pk_seed).unwrap();
    mac.update(&rand);
    mac.update(msg);
    let tag = mac.finalize().into_bytes();
    assert_eq!(Sha2L35::prf_msg(&pk_seed, &rand, msg, 24), tag[..24].to_vec());
}

#[test]
fn prf_sk_matches_direct_hash() {
    let pk_seed = [1u8; 16];
    let sk_seed = [2u8; 16];
    let a = wots_prf_adrs(3, 4, 5, 6);
    let ab = a.to_bytes();
    let digest = sha256_direct(&[&pk_seed, &[0u8; 48], &ab, &sk_seed]);
    assert_eq!(Sha2L1::prf_sk(&pk_seed, &sk_seed, &a), digest[..16].to_vec());
}

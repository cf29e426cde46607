//! The fixed parameter bundle of the SHA2 small parameter set at the
//! 128-bit security level, and the signature layout lengths derived from it.
//!
//! Invariants of the set: `PARAM_H == PARAM_D * PARAM_H_PRIME`, the FORS
//! index material is `PARAM_K * PARAM_A` bits rounded up to bytes, and the
//! signature length is the exact sum of its parts.  A proof at the bottom
//! pins the derived lengths to the primary constants.

use vstd::prelude::*;

verus! {

/// Hash output truncation length N, bytes.
pub const PARAM_N: usize = 16;

/// Message-digest length M, bytes.
pub const PARAM_M: usize = 30;

/// Number of FORS trees K.
pub const PARAM_K: usize = 14;

/// Bits per FORS tree index A.
pub const PARAM_A: usize = 12;

/// XMSS subtree height H'.
pub const PARAM_H_PRIME: usize = 9;

/// Hypertree depth D.
pub const PARAM_D: usize = 7;

/// Total hypertree height H = D * H'.
pub const PARAM_H: usize = 63;

/// WOTS+ chain count for the message part (2 digits per byte of N).
pub const WOTS_LEN1: usize = 32;

/// WOTS+ chain count for the checksum part.
pub const WOTS_LEN2: usize = 3;

/// Total WOTS+ chain count.
pub const WOTS_LEN: usize = 35;

/// Largest WOTS+ digit: the Winternitz parameter 16 minus one.
pub const WOTS_W_MINUS_1: usize = 15;

/// FORS index material length: K * A bits rounded up to bytes.
pub const MD_LEN: usize = 21;

/// Tree-index field of the split digest, bytes: ceil((H - H') / 8).
pub const IDX_TREE_LEN: usize = 7;

/// Leaf-index field of the split digest, bytes: ceil(H' / 8).
pub const IDX_LEAF_LEN: usize = 2;

/// One FORS component of the signature: a secret leaf value plus A sibling
/// hashes, each N bytes.
pub const FORS_UNIT_LEN: usize = 208;

/// One WOTS+ signature: WOTS_LEN chains of N bytes each.
pub const WOTS_SIG_LEN: usize = 560;

/// One hypertree layer of the signature: a WOTS+ signature plus H' sibling
/// hashes of N bytes each.
pub const XMSS_UNIT_LEN: usize = 704;

/// Total signature length of the parameter set, bytes.
pub const SIG_LEN_128S: usize = 7856;

/// Verifying-key length: `pk_seed` and `pk_root`, N bytes each.
pub const VK_LEN: usize = 32;

/// Zero padding between `pk_seed` and the compressed address in every
/// node-compression hash: native SHA-256 block size 64 minus N.
pub const PAD_LEN: usize = 48;

/// The derived lengths follow from the primary constants of the set.
pub proof fn lemma_param_relations()
    ensures
        PARAM_H == PARAM_D * PARAM_H_PRIME,
        MD_LEN == (PARAM_K * PARAM_A + 7) / 8,
        IDX_TREE_LEN == (PARAM_H - PARAM_H_PRIME + 7) / 8,
        IDX_LEAF_LEN == (PARAM_H_PRIME + 7) / 8,
        PARAM_M == MD_LEN + IDX_TREE_LEN + IDX_LEAF_LEN,
        WOTS_LEN == WOTS_LEN1 + WOTS_LEN2,
        FORS_UNIT_LEN == PARAM_N * (1 + PARAM_A),
        WOTS_SIG_LEN == PARAM_N * WOTS_LEN,
        XMSS_UNIT_LEN == WOTS_SIG_LEN + PARAM_N * PARAM_H_PRIME,
        SIG_LEN_128S == PARAM_N + PARAM_K * FORS_UNIT_LEN + PARAM_D * XMSS_UNIT_LEN,
        PAD_LEN == 64 - PARAM_N,
{
}

} // verus!

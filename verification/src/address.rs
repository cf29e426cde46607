//! Structured hash addresses for domain separation.
//!
//! Every compression call mixes in a tag saying which node of which
//! structure is being computed.  The SHA2 parameter sets use the compressed
//! 22-byte form: layer (1 byte), tree index (8 bytes big-endian), address
//! type (1 byte), then three 4-byte big-endian words whose meaning depends
//! on the type.

use vstd::prelude::*;

use crate::bytes::{push_u32_be, push_u64_be, spec_u32_be, spec_u64_be};

verus! {

/// Address type: a WOTS+ chain step hash.
pub const ADRS_WOTS_HASH: u8 = 0;

/// Address type: compression of WOTS+ chain ends into a leaf.
pub const ADRS_WOTS_PK: u8 = 1;

/// Address type: an internal XMSS tree node.
pub const ADRS_TREE: u8 = 2;

/// Address type: a FORS tree node or leaf.
pub const ADRS_FORS_TREE: u8 = 3;

/// Address type: compression of the FORS tree roots.
pub const ADRS_FORS_ROOTS: u8 = 4;

/// Address type: a WOTS+ secret chain value.
pub const ADRS_WOTS_PRF: u8 = 5;

/// Address type: a FORS secret leaf value.
pub const ADRS_FORS_PRF: u8 = 6;

/// A hash address.  `word1`, `word2` and `word3` carry, depending on
/// `a_type`: the key-pair index, the chain index or tree height, and the
/// hash index or tree index.
#[derive(Clone, Copy)]
pub struct Adrs {
    pub layer: u32,
    pub tree: u64,
    pub a_type: u8,
    pub word1: u32,
    pub word2: u32,
    pub word3: u32,
}

/// The compressed 22-byte serialization of an address.
pub open spec fn spec_adrs_bytes(a: Adrs) -> Seq<u8> {
    seq![a.layer as u8] + spec_u64_be(a.tree) + seq![a.a_type] + spec_u32_be(a.word1)
        + spec_u32_be(a.word2) + spec_u32_be(a.word3)
}

impl Adrs {
    /// Serializes the address into its compressed 22-byte form.
    pub fn to_bytes(&self) -> (r: Vec<u8>)
        ensures
            r@ == spec_adrs_bytes(*self),
            r@.len() == 22,
    {
        let mut r: Vec<u8> = Vec::new();
        r.push(self.layer as u8);
        push_u64_be(&mut r, self.tree);
        r.push(self.a_type);
        push_u32_be(&mut r, self.word1);
        push_u32_be(&mut r, self.word2);
        push_u32_be(&mut r, self.word3);
        proof {
            assert(r@ =~= spec_adrs_bytes(*self));
        }
        r
    }
}

/// A FORS tree address at `height`/`index` for key pair `key_pair` of tree
/// `tree`.  FORS sits at hypertree layer 0.
pub open spec fn spec_fors_tree_adrs(tree: u64, key_pair: u32, height: u32, index: u32) -> Adrs {
    Adrs { layer: 0, tree, a_type: ADRS_FORS_TREE, word1: key_pair, word2: height, word3: index }
}

/// The FORS root-compression address for key pair `key_pair` of tree `tree`.
pub open spec fn spec_fors_roots_adrs(tree: u64, key_pair: u32) -> Adrs {
    Adrs { layer: 0, tree, a_type: ADRS_FORS_ROOTS, word1: key_pair, word2: 0, word3: 0 }
}

/// A WOTS+ chain-step address: chain `chain`, step `hash`, for key pair
/// `key_pair` of tree `tree` at hypertree layer `layer`.
pub open spec fn spec_wots_hash_adrs(layer: u32, tree: u64, key_pair: u32, chain: u32, hash: u32)
    -> Adrs {
    Adrs { layer, tree, a_type: ADRS_WOTS_HASH, word1: key_pair, word2: chain, word3: hash }
}

/// The WOTS+ public-key compression address for key pair `key_pair`.
pub open spec fn spec_wots_pk_adrs(layer: u32, tree: u64, key_pair: u32) -> Adrs {
    Adrs { layer, tree, a_type: ADRS_WOTS_PK, word1: key_pair, word2: 0, word3: 0 }
}

/// An internal XMSS tree-node address at `height`/`index`.
pub open spec fn spec_tree_adrs(layer: u32, tree: u64, height: u32, index: u32) -> Adrs {
    Adrs { layer, tree, a_type: ADRS_TREE, word1: 0, word2: height, word3: index }
}

/// Builds a FORS tree address.
pub fn fors_tree_adrs(tree: u64, key_pair: u32, height: u32, index: u32) -> (r: Adrs)
    ensures
        r == spec_fors_tree_adrs(tree, key_pair, height, index),
{
    Adrs { layer: 0, tree, a_type: ADRS_FORS_TREE, word1: key_pair, word2: height, word3: index }
}

/// Builds the FORS root-compression address.
pub fn fors_roots_adrs(tree: u64, key_pair: u32) -> (r: Adrs)
    ensures
        r == spec_fors_roots_adrs(tree, key_pair),
{
    Adrs { layer: 0, tree, a_type: ADRS_FORS_ROOTS, word1: key_pair, word2: 0, word3: 0 }
}

/// Builds a WOTS+ chain-step address.
pub fn wots_hash_adrs(layer: u32, tree: u64, key_pair: u32, chain: u32, hash: u32) -> (r: Adrs)
    ensures
        r == spec_wots_hash_adrs(layer, tree, key_pair, chain, hash),
{
    Adrs { layer, tree, a_type: ADRS_WOTS_HASH, word1: key_pair, word2: chain, word3: hash }
}

/// Builds the WOTS+ public-key compression address.
pub fn wots_pk_adrs(layer: u32, tree: u64, key_pair: u32) -> (r: Adrs)
    ensures
        r == spec_wots_pk_adrs(layer, tree, key_pair),
{
    Adrs { layer, tree, a_type: ADRS_WOTS_PK, word1: key_pair, word2: 0, word3: 0 }
}

/// Builds an internal XMSS tree-node address.
pub fn tree_adrs(layer: u32, tree: u64, height: u32, index: u32) -> (r: Adrs)
    ensures
        r == spec_tree_adrs(layer, tree, height, index),
{
    Adrs { layer, tree, a_type: ADRS_TREE, word1: 0, word2: height, word3: index }
}

/// Builds a WOTS+ secret-chain address (used by the signing side's PRF;
/// verification never needs it, the suite keeps it for completeness).
pub fn wots_prf_adrs(layer: u32, tree: u64, key_pair: u32, chain: u32) -> (r: Adrs)
    ensures
        r == (Adrs {
            layer,
            tree,
            a_type: ADRS_WOTS_PRF,
            word1: key_pair,
            word2: chain,
            word3: 0,
        }),
{
    Adrs { layer, tree, a_type: ADRS_WOTS_PRF, word1: key_pair, word2: chain, word3: 0 }
}

/// Builds a FORS secret-leaf address (signing side only, as above).
pub fn fors_prf_adrs(tree: u64, key_pair: u32, index: u32) -> (r: Adrs)
    ensures
        r == (Adrs {
            layer: 0,
            tree,
            a_type: ADRS_FORS_PRF,
            word1: key_pair,
            word2: 0,
            word3: index,
        }),
{
    Adrs { layer: 0, tree, a_type: ADRS_FORS_PRF, word1: key_pair, word2: 0, word3: index }
}

} // verus!

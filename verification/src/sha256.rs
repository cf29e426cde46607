//! The trusted hashing boundary of the library.
//!
//! Every hash the suite or the verifier computes is one SHA-2 call over a
//! byte string the verified code assembles itself: SHA-256 through the
//! [`sha256`] wrapper (SHA-512 through [`sha512`] for the higher security
//! levels' message primitives).  Each wrapper's result is named by an
//! uninterpreted function ([`spec_sha256`], [`spec_sha512`]), so every
//! contract above it is exact in terms of that name.  The
//! message-randomizer PRFs additionally rely on the HMAC construction,
//! named by [`spec_hmac_sha256`] and [`spec_hmac_sha512`].

use vstd::prelude::*;

use hmac::Mac;
use sha2::Digest;

verus! {

/// The SHA-256 digest (32 bytes) of a byte string, as a name: the result of
/// `sha2::Sha256::digest` depends on the input bytes alone.
pub uninterp spec fn spec_sha256(bytes: Seq<u8>) -> Seq<u8>;

/// The HMAC-SHA-256 tag (32 bytes) of `data` under `key`, as a name: the
/// result depends on the two inputs alone.
pub uninterp spec fn spec_hmac_sha256(key: Seq<u8>, data: Seq<u8>) -> Seq<u8>;

/// Relies on `sha2::Sha256::digest`: one SHA-256 digest, 32 bytes, a
/// function of the input bytes alone.
#[verifier::external_body]
pub fn sha256(bytes: &[u8]) -> (r: Vec<u8>)
    ensures
        r@ == spec_sha256(bytes@),
        r@.len() == 32,
{
    sha2::Sha256::digest(bytes).to_vec()
}

/// Relies on `hmac::Hmac<sha2::Sha256>`: the HMAC-SHA-256 tag, 32 bytes, a
/// function of key and data alone.  `new_from_slice` accepts keys of any
/// length for a block-level hash, so the construction cannot fail.
#[verifier::external_body]
pub fn hmac_sha256(key: &[u8], data: &[u8]) -> (r: Vec<u8>)
    ensures
        r@ == spec_hmac_sha256(key@, data@),
        r@.len() == 32,
{
    let mut mac = <hmac::Hmac<sha2::Sha256> as Mac>::new_from_slice(key).unwrap();
    mac.update(data);
    mac.finalize().into_bytes().to_vec()
}

/// The SHA-512 digest (64 bytes) of a byte string, as a name: the result of
/// `sha2::Sha512::digest` depends on the input bytes alone.
pub uninterp spec fn spec_sha512(bytes: Seq<u8>) -> Seq<u8>;

/// The HMAC-SHA-512 tag (64 bytes) of `data` under `key`, as a name: the
/// result depends on the two inputs alone.
pub uninterp spec fn spec_hmac_sha512(key: Seq<u8>, data: Seq<u8>) -> Seq<u8>;

/// Relies on `sha2::Sha512::digest`: one SHA-512 digest, 64 bytes, a
/// function of the input bytes alone.
#[verifier::external_body]
pub fn sha512(bytes: &[u8]) -> (r: Vec<u8>)
    ensures
        r@ == spec_sha512(bytes@),
        r@.len() == 64,
{
    sha2::Sha512::digest(bytes).to_vec()
}

/// Relies on `hmac::Hmac<sha2::Sha512>`: the HMAC-SHA-512 tag, 64 bytes, a
/// function of key and data alone.  `new_from_slice` accepts keys of any
/// length for a block-level hash, so the construction cannot fail.
#[verifier::external_body]
pub fn hmac_sha512(key: &[u8], data: &[u8]) -> (r: Vec<u8>)
    ensures
        r@ == spec_hmac_sha512(key@, data@),
        r@.len() == 64,
{
    let mut mac = <hmac::Hmac<sha2::Sha512> as Mac>::new_from_slice(key).unwrap();
    mac.update(data);
    mac.finalize().into_bytes().to_vec()
}

/// Compresses two 32-byte digests into one: the digest of their
/// concatenation.
pub fn sha256_merge(left: &[u8], right: &[u8]) -> (r: Vec<u8>)
    ensures
        r@ == spec_sha256(left@ + right@),
        r@.len() == 32,
{
    let mut buf: Vec<u8> = Vec::new();
    crate::bytes::extend_bytes(&mut buf, left);
    crate::bytes::extend_bytes(&mut buf, right);
    proof {
        assert(buf@ =~= left@ + right@);
    }
    sha256(buf.as_slice())
}

/// Compresses a digest together with an integer: the digest of
/// `seed ‖ value` with the value in little-endian.
pub fn sha256_merge_with_int(seed: &[u8], value: u64) -> (r: Vec<u8>)
    ensures
        r@ == spec_sha256(seed@ + crate::bytes::spec_u64_le(value)),
        r@.len() == 32,
{
    let mut buf: Vec<u8> = Vec::new();
    crate::bytes::extend_bytes(&mut buf, seed);
    crate::bytes::push_u64_le(&mut buf, value);
    sha256(buf.as_slice())
}

/// Incremental front end over the one-shot hash: bytes are buffered and
/// hashed once at the end, so the digest equals the one-shot digest of
/// everything written, in order.
pub struct Sha256Writer {
    buf: Vec<u8>,
}

impl Sha256Writer {
    /// What has been written so far.
    pub closed spec fn view(&self) -> Seq<u8> {
        self.buf@
    }

    /// Creates a writer with nothing written yet.
    pub fn new() -> (r: Sha256Writer)
        ensures
            r@ == Seq::<u8>::empty(),
    {
        Sha256Writer { buf: Vec::new() }
    }

    /// Appends a single byte.
    pub fn write_u8(&mut self, value: u8)
        ensures
            final(self)@ == old(self)@.push(value),
    {
        self.buf.push(value);
    }

    /// Appends a byte slice.
    pub fn write_bytes(&mut self, values: &[u8])
        ensures
            final(self)@ == old(self)@ + values@,
    {
        self.buf.extend_from_slice(values);
        proof {
            assert(self.buf@ =~= old(self).buf@ + values@);
        }
    }

    /// Hashes everything written and consumes the writer.
    pub fn finalize(self) -> (r: Vec<u8>)
        ensures
            r@ == spec_sha256(self@),
            r@.len() == 32,
    {
        sha256(self.buf.as_slice())
    }
}

} // verus!

//! Finalization: the checks and data assembly behind the two finishing
//! steps.
//!
//! Step one verifies the uploaded signature over
//! `cipher ‖ kem ‖ nonce ‖ slot` and produces the finalized message record.
//! Step two derives the public inputs of the auxiliary numeric proof from
//! the digest of the cipher part; the proof system itself is an external
//! collaborator consumed only through its pass/fail outcome.

use vstd::prelude::*;

use crate::bytes::{extend_bytes, push_u64_le, read_u64_le, spec_le_u64, spec_u64_le};
use crate::sha256::{sha256, spec_sha256};
use crate::state::{BufferPda, ChatMsg, ErrorCode, MAX_CHAT_PAYLOAD, SIG_BYTES};
use crate::verify::{spec_verify_ok, verify_sha2_128s};

verus! {

/// The byte string the signature must cover: the cipher and KEM parts of
/// the body, the nonce, and the slot in little-endian.
pub open spec fn spec_signed_blob(
    body: Seq<u8>,
    cipher_len: u32,
    kem_len: u32,
    nonce: Seq<u8>,
    slot: u64,
) -> Seq<u8> {
    body.take(cipher_len + kem_len) + nonce + spec_u64_le(slot)
}

/// Verifies the uploaded signature and builds the finalized message.
///
/// Returns `LenMismatch` when the body exceeds the payload cap,
/// `SigFailed` when the signature buffer is not exactly one signature long
/// or the signature does not verify over the signed blob, and otherwise
/// the message record carrying the payload and the signature's digest.
pub fn handle_finalize_sig(
    body_buf: &BufferPda,
    sig_buf: &BufferPda,
    sender: Vec<u8>,
    recipient: Vec<u8>,
    sig_pda: Vec<u8>,
    cipher_len: u32,
    kem_len: u32,
    nonce: Vec<u8>,
    slot: u64,
    slh_pub: &[u8],
) -> (r: Result<ChatMsg, ErrorCode>)
    requires
        body_buf.wf(),
        sig_buf.wf(),
        sender@.len() == 32,
        recipient@.len() == 32,
        sig_pda@.len() == 32,
        nonce@.len() == 12,
        slh_pub@.len() == 32,
        body_buf.data@.len() <= MAX_CHAT_PAYLOAD && sig_buf.data@.len() == SIG_BYTES
            ==> cipher_len + kem_len <= body_buf.data@.len(),
    ensures
        ({
            let body = body_buf.data@;
            let sig = sig_buf.data@;
            let blob = spec_signed_blob(body, cipher_len, kem_len, nonce@, slot);
            if body.len() > MAX_CHAT_PAYLOAD {
                r == Err::<ChatMsg, ErrorCode>(ErrorCode::LenMismatch)
            } else if sig.len() != SIG_BYTES {
                r == Err::<ChatMsg, ErrorCode>(ErrorCode::SigFailed)
            } else if !spec_verify_ok(blob, sig, slh_pub@) {
                r == Err::<ChatMsg, ErrorCode>(ErrorCode::SigFailed)
            } else {
                &&& r is Ok
                &&& r.unwrap().sender@ == sender@
                &&& r.unwrap().recipient@ == recipient@
                &&& r.unwrap().cipher_len == cipher_len
                &&& r.unwrap().kem_len == kem_len
                &&& r.unwrap().nonce@ == nonce@
                &&& r.unwrap().slot == slot
                &&& r.unwrap().sig_pda@ == sig_pda@
                &&& r.unwrap().sig_len == SIG_BYTES
                &&& r.unwrap().sig_hash@ == spec_sha256(sig)
                &&& r.unwrap().payload@ == body
                &&& r.unwrap().wf()
            }
        }),
{
    if body_buf.data.len() > MAX_CHAT_PAYLOAD {
        return Err(ErrorCode::LenMismatch);
    }
    if sig_buf.data.len() != SIG_BYTES {
        return Err(ErrorCode::SigFailed);
    }
    let split = (cipher_len as usize) + (kem_len as usize);
    let mut blob: Vec<u8> = Vec::new();
    extend_bytes(&mut blob, &body_buf.data.as_slice()[0..split]);
    extend_bytes(&mut blob, nonce.as_slice());
    push_u64_le(&mut blob, slot);
    proof {
        assert(blob@ =~= spec_signed_blob(body_buf.data@, cipher_len, kem_len, nonce@, slot));
    }
    if verify_sha2_128s(blob.as_slice(), sig_buf.data.as_slice(), slh_pub).is_err() {
        return Err(ErrorCode::SigFailed);
    }
    let sig_hash = sha256(sig_buf.data.as_slice());
    let payload = vstd::slice::slice_to_vec(body_buf.data.as_slice());
    Ok(
        ChatMsg {
            sender,
            recipient,
            cipher_len,
            kem_len,
            nonce,
            slot,
            sig_pda,
            sig_len: SIG_BYTES as u32,
            sig_hash,
            payload,
        },
    )
}

/// Derives the public inputs of the numeric proof from a finalized
/// message's payload: the digest of the cipher part yields the seed from
/// its first eight bytes and the increment from the next eight, both
/// little-endian.  Returns the proof's offset inside the payload alongside.
pub fn stark_public_inputs(payload: &[u8], cipher_len: u32, kem_len: u32) -> (r: Result<
    (u64, u64, usize),
    ErrorCode,
>)
    ensures
        ({
            let total = payload@.len();
            if cipher_len > total || cipher_len + kem_len > total {
                r == Err::<(u64, u64, usize), ErrorCode>(ErrorCode::ProofFailed)
            } else {
                let digest = spec_sha256(payload@.take(cipher_len as int));
                &&& r is Ok
                &&& r.unwrap().0 == spec_le_u64(digest.take(8))
                &&& r.unwrap().1 == spec_le_u64(digest.subrange(8, 16))
                &&& r.unwrap().2 == cipher_len + kem_len
            }
        }),
{
    let total = payload.len();
    let cipher_end = cipher_len as usize;
    if cipher_end > total {
        return Err(ErrorCode::ProofFailed);
    }
    if (cipher_end as u64) + (kem_len as u64) > (total as u64) {
        return Err(ErrorCode::ProofFailed);
    }
    let off = cipher_end + (kem_len as usize);
    let digest = sha256(&payload[0..cipher_end]);
    let seed = read_u64_le(digest.as_slice(), 0);
    let inc = read_u64_le(digest.as_slice(), 8);
    proof {
        assert(digest@.subrange(0, 8) =~= digest@.take(8));
    }
    Ok((seed, inc, off))
}

/// Derives the affine-counter public inputs from an arbitrary digest
/// prefix, as the proof generator does: with sixteen or more bytes both
/// values are read little-endian; with at least eight the increment falls
/// back to one; with fewer both fall back.
pub fn derive_counter_inputs(hash_bytes: &[u8]) -> (r: (u64, u64))
    ensures
        hash_bytes@.len() >= 16 ==> r.0 == spec_le_u64(hash_bytes@.take(8)) && r.1 == spec_le_u64(
            hash_bytes@.subrange(8, 16),
        ),
        8 <= hash_bytes@.len() < 16 ==> r.0 == spec_le_u64(hash_bytes@.take(8)) && r.1 == 1,
        hash_bytes@.len() < 8 ==> r.0 == 0 && r.1 == 1,
{
    if hash_bytes.len() >= 16 {
        let seed = read_u64_le(hash_bytes, 0);
        let inc = read_u64_le(hash_bytes, 8);
        proof {
            assert(hash_bytes@.subrange(0, 8) =~= hash_bytes@.take(8));
        }
        (seed, inc)
    } else if hash_bytes.len() >= 8 {
        let seed = read_u64_le(hash_bytes, 0);
        proof {
            assert(hash_bytes@.subrange(0, 8) =~= hash_bytes@.take(8));
        }
        (seed, 1)
    } else {
        (0, 1)
    }
}

} // verus!

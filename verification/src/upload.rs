//! Chunked upload into a streaming buffer, with hash-chaining.
//!
//! Each chunk arrives with the expected value of `SHA-256(previous chain
//! hash ‖ chunk)`; a chunk is accepted only at the current end of the
//! buffer, under a hard size cap, and only when that chained hash matches.

use vstd::prelude::*;

use crate::bytes::extend_bytes;
use crate::sha256::{sha256, spec_sha256};
use crate::state::{BufferPda, CHAINED_HASH_LEN, MAX_CHAT_PAYLOAD, MAX_SIG_PAYLOAD};

verus! {

/// Why a chunk was rejected.
#[derive(Clone, Copy, PartialEq, Eq, Structural, Debug)]
pub enum UploadError {
    /// The chunk exceeds 900 bytes.
    ChunkTooLarge,
    /// The chunk does not start at the buffer's current end.
    OffsetMismatch,
    /// The chunk would push the buffer past its hard cap.
    MsgTooBig,
    /// The chained hash does not match.
    HashMismatch,
    /// The signature buffer is frozen: the message was already finalized.
    AlreadyFinalized,
}

/// Largest accepted chunk, bytes.
pub const MAX_CHUNK_BYTES: usize = 900;

/// The outcome `write_chunk` owes for the given inputs: the first failing
/// check's error, or acceptance.
pub open spec fn spec_chunk_outcome(
    buf: BufferPda,
    offset: u32,
    data: Seq<u8>,
    next_hash: Seq<u8>,
    hard_max: usize,
) -> Result<(), UploadError> {
    if data.len() > MAX_CHUNK_BYTES {
        Err(UploadError::ChunkTooLarge)
    } else if offset != buf.length {
        Err(UploadError::OffsetMismatch)
    } else if offset + data.len() > hard_max {
        Err(UploadError::MsgTooBig)
    } else if spec_sha256(buf.sha_chain@ + data) != next_hash {
        Err(UploadError::HashMismatch)
    } else {
        Ok(())
    }
}

/// Writes one chunk into the buffer: checks size, offset, cap and chained
/// hash in that order, and on success appends the chunk, advances the
/// length and replaces the chain hash.  A rejected chunk changes nothing.
pub fn write_chunk(
    buf: &mut BufferPda,
    offset: u32,
    data: &[u8],
    next_hash: &[u8],
    hard_max: usize,
) -> (r: Result<(), UploadError>)
    requires
        old(buf).wf(),
        next_hash@.len() == CHAINED_HASH_LEN,
        hard_max <= u32::MAX,
    ensures
        final(buf).wf(),
        r == spec_chunk_outcome(*old(buf), offset, data@, next_hash@, hard_max),
        r is Ok ==> {
            &&& final(buf).data@ == old(buf).data@ + data@
            &&& final(buf).length == old(buf).length + data@.len()
            &&& final(buf).sha_chain@ == next_hash@
            &&& final(buf).sender@ == old(buf).sender@
        },
        r is Err ==> *final(buf) == *old(buf),
{
    if data.len() > MAX_CHUNK_BYTES {
        return Err(UploadError::ChunkTooLarge);
    }
    if offset as usize != buf.length as usize {
        return Err(UploadError::OffsetMismatch);
    }
    if (offset as u64) + (data.len() as u64) > (hard_max as u64) {
        return Err(UploadError::MsgTooBig);
    }
    let mut chained: Vec<u8> = Vec::new();
    extend_bytes(&mut chained, buf.sha_chain.as_slice());
    extend_bytes(&mut chained, data);
    proof {
        assert(chained@ =~= old(buf).sha_chain@ + data@);
    }
    let calc = sha256(chained.as_slice());
    if !crate::bytes::bytes_eq(calc.as_slice(), next_hash) {
        return Err(UploadError::HashMismatch);
    }
    extend_bytes(&mut buf.data, data);
    buf.length = buf.length + (data.len() as u32);
    buf.sha_chain = vstd::slice::slice_to_vec(next_hash);
    Ok(())
}

/// Appends a body chunk (cipher ‖ kem ‖ proof) under the message payload
/// cap.
pub fn handle_upload_body(buf: &mut BufferPda, offset: u32, data: &[u8], next_hash: &[u8]) -> (r:
    Result<(), UploadError>)
    requires
        old(buf).wf(),
        next_hash@.len() == CHAINED_HASH_LEN,
    ensures
        final(buf).wf(),
        r == spec_chunk_outcome(*old(buf), offset, data@, next_hash@, MAX_CHAT_PAYLOAD),
        r is Ok ==> {
            &&& final(buf).data@ == old(buf).data@ + data@
            &&& final(buf).length == old(buf).length + data@.len()
            &&& final(buf).sha_chain@ == next_hash@
            &&& final(buf).sender@ == old(buf).sender@
        },
        r is Err ==> *final(buf) == *old(buf),
{
    write_chunk(buf, offset, data, next_hash, MAX_CHAT_PAYLOAD)
}

/// Appends a signature chunk under the signature payload cap; a buffer
/// whose message was already finalized refuses every further chunk.
pub fn handle_upload_signature(
    buf: &mut BufferPda,
    finalized: bool,
    offset: u32,
    data: &[u8],
    next_hash: &[u8],
) -> (r: Result<(), UploadError>)
    requires
        old(buf).wf(),
        next_hash@.len() == CHAINED_HASH_LEN,
    ensures
        final(buf).wf(),
        finalized ==> r == Err::<(), UploadError>(UploadError::AlreadyFinalized) && *final(buf)
            == *old(buf),
        !finalized ==> r == spec_chunk_outcome(
            *old(buf),
            offset,
            data@,
            next_hash@,
            MAX_SIG_PAYLOAD,
        ),
        r is Ok ==> {
            &&& final(buf).data@ == old(buf).data@ + data@
            &&& final(buf).length == old(buf).length + data@.len()
            &&& final(buf).sha_chain@ == next_hash@
            &&& final(buf).sender@ == old(buf).sender@
        },
        r is Err ==> *final(buf) == *old(buf),
{
    if finalized {
        return Err(UploadError::AlreadyFinalized);
    }
    write_chunk(buf, offset, data, next_hash, MAX_SIG_PAYLOAD)
}

} // verus!

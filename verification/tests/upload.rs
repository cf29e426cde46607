//! Tests of the chunked-upload buffer, the finalization checks and the
//! derivation of the numeric proof's public inputs.

use sha2::Digest;

use slh_verifier::finalize::{derive_counter_inputs, handle_finalize_sig, stark_public_inputs};
use slh_verifier::sha256::{sha256_merge, sha256_merge_with_int, Sha256Writer};
use slh_verifier::state::{BufferPda, ErrorCode, MAX_CHAT_PAYLOAD, SIG_BYTES};
use slh_verifier::upload::{handle_upload_body, handle_upload_signature, write_chunk, UploadError};

fn sha256_direct(parts: &[&[u8]]) -> Vec<u8> {
    let mut h = sha2::Sha256::new();
    for p in parts {
        h.update(p);
    }
    h.finalize().to_vec()
}

fn fresh_buffer() -> BufferPda {
    let mut buf = BufferPda {
        sender: Vec::new(),
        length: 0,
        sha_chain: Vec::new(),
        data: Vec::new(),
    };
    buf.reset(&[7u8; 32]);
    buf
}

#[test]
fn chained_upload_accepts_consecutive_chunks() {
    let mut buf = fresh_buffer();
    assert_eq!(buf.length, 0);
    assert_eq!(buf.sha_chain, vec![0u8; 32]);

    let chunk1 = b"first chunk".to_vec();
    let hash1 = sha256_direct(&[&buf.sha_chain, &chunk1]);
    assert!(handle_upload_body(&mut buf, 0, &chunk1, &hash1).is_ok());
    assert_eq!(buf.length as usize, chunk1.len());
    assert_eq!(buf.sha_chain, hash1);
    assert_eq!(buf.data, chunk1);

    let chunk2 = b" and the second".to_vec();
    let hash2 = sha256_direct(&[&hash1, &chunk2]);
    assert!(handle_upload_body(&mut buf, chunk1.len() as u32, &chunk2, &hash2).is_ok());
    assert_eq!(buf.length as usize, chunk1.len() + chunk2.len());
    let mut whole = chunk1.clone();
    whole.extend_from_slice(&chunk2);
    assert_eq!(buf.data, whole);
}

#[test]
fn oversized_chunk_is_rejected() {
    let mut buf = fresh_buffer();
    let chunk = vec![1u8; 901];
    let hash = sha256_direct(&[&buf.sha_chain, &chunk]);
    assert_eq!(
        handle_upload_body(&mut buf, 0, &chunk, &hash),
        Err(UploadError::ChunkTooLarge)
    );
    assert_eq!(buf.length, 0);
}

#[test]
fn wrong_offset_is_rejected() {
    let mut buf = fresh_buffer();
    let chunk = vec![1u8; 10];
    let hash = sha256_direct(&[&buf.sha_chain, &chunk]);
    assert_eq!(
        handle_upload_body(&mut buf, 5, &chunk, &hash),
        Err(UploadError::OffsetMismatch)
    );
}

#[test]
fn chunk_past_the_cap_is_rejected() {
    let mut buf = fresh_buffer();
    let chunk = vec![1u8; 20];
    let hash = sha256_direct(&[&buf.sha_chain, &chunk]);
    assert_eq!(
        write_chunk(&mut buf, 0, &chunk, &hash, 10),
        Err(UploadError::MsgTooBig)
    );
    // The same chunk under a wide enough cap goes through.
    assert!(write_chunk(&mut buf, 0, &chunk, &hash, 100).is_ok());
}

#[test]
fn wrong_chained_hash_is_rejected() {
    let mut buf = fresh_buffer();
    let chunk = vec![1u8; 10];
    let mut hash = sha256_direct(&[&buf.sha_chain, &chunk]);
    hash[0] ^= 1;
    assert_eq!(
        handle_upload_body(&mut buf, 0, &chunk, &hash),
        Err(UploadError::HashMismatch)
    );
    assert_eq!(buf.length, 0);
    assert_eq!(buf.data.len(), 0);
}

#[test]
fn finalized_signature_buffer_is_frozen() {
    let mut buf = fresh_buffer();
    let chunk = vec![1u8; 10];
    let hash = sha256_direct(&[&buf.sha_chain, &chunk]);
    assert_eq!(
        handle_upload_signature(&mut buf, true, 0, &chunk, &hash),
        Err(UploadError::AlreadyFinalized)
    );
    assert!(handle_upload_signature(&mut buf, false, 0, &chunk, &hash).is_ok());
}

#[test]
fn finalize_rejects_oversized_body() {
    let body = BufferPda {
        sender: vec![0u8; 32],
        length: (MAX_CHAT_PAYLOAD + 1) as u32,
        sha_chain: vec![0u8; 32],
        data: vec![0u8; MAX_CHAT_PAYLOAD + 1],
    };
    let sig = BufferPda {
        sender: vec![0u8; 32],
        length: SIG_BYTES as u32,
        sha_chain: vec![0u8; 32],
        data: vec![0u8; SIG_BYTES],
    };
    let r = handle_finalize_sig(
        &body,
        &sig,
        vec![1u8; 32],
        vec![2u8; 32],
        vec![3u8; 32],
        4,
        4,
        vec![0u8; 12],
        9,
        &[0u8; 32],
    );
    assert_eq!(r.err(), Some(ErrorCode::LenMismatch));
}

#[test]
fn finalize_rejects_wrong_signature_length_and_bad_signature() {
    let body = BufferPda {
        sender: vec![0u8; 32],
        length: 8,
        sha_chain: vec![0u8; 32],
        data: vec![9u8; 8],
    };
    let short_sig = BufferPda {
        sender: vec![0u8; 32],
        length: 100,
        sha_chain: vec![0u8; 32],
        data: vec![0u8; 100],
    };
    let r = handle_finalize_sig(
        &body,
        &short_sig,
        vec![1u8; 32],
        vec![2u8; 32],
        vec![3u8; 32],
        4,
        4,
        vec![0u8; 12],
        9,
        &[0u8; 32],
    );
    assert_eq!(r.err(), Some(ErrorCode::SigFailed));

    // A full-length signature that does not verify also fails.
    let zero_sig = BufferPda {
        sender: vec![0u8; 32],
        length: SIG_BYTES as u32,
        sha_chain: vec![0u8; 32],
        data: vec![0u8; SIG_BYTES],
    };
    let r2 = handle_finalize_sig(
        &body,
        &zero_sig,
        vec![1u8; 32],
        vec![2u8; 32],
        vec![3u8; 32],
        4,
        4,
        vec![0u8; 12],
        9,
        &[0u8; 32],
    );
    assert_eq!(r2.err(), Some(ErrorCode::SigFailed));
}

#[test]
fn stark_inputs_derive_from_cipher_digest() {
    let cipher = b"cipher bytes";
    let kem = b"kem!";
    let proof = b"proof blob";
    let mut payload = cipher.to_vec();
    payload.extend_from_slice(kem);
    payload.extend_from_slice(proof);

    let (seed, inc, off) =
        stark_public_inputs(&payload, cipher.len() as u32, kem.len() as u32).unwrap();
    let digest = sha256_direct(&[cipher.as_slice()]);
    let mut le0 = [0u8; 8];
    let mut le1 = [0u8; 8];
    le0.copy_from_slice(&digest[0..8]);
    le1.copy_from_slice(&digest[8..16]);
    assert_eq!(seed, u64::from_le_bytes(le0));
    assert_eq!(inc, u64::from_le_bytes(le1));
    assert_eq!(off, cipher.len() + kem.len());

    // Out-of-range splits are rejected.
    assert_eq!(
        stark_public_inputs(&payload, payload.len() as u32 + 1, 0).err(),
        Some(ErrorCode::ProofFailed)
    );
    assert_eq!(
        stark_public_inputs(&payload, cipher.len() as u32, payload.len() as u32).err(),
        Some(ErrorCode::ProofFailed)
    );
}

#[test]
fn counter_inputs_fall_back_on_short_digests() {
    let long = (0u8..32).collect::<Vec<u8>>();
    let (seed, inc) = derive_counter_inputs(&long);
    assert_eq!(seed, u64::from_le_bytes([0, 1, 2, 3, 4, 5, 6, 7]));
    assert_eq!(inc, u64::from_le_bytes([8, 9, 10, 11, 12, 13, 14, 15]));

    let medium = (0u8..10).collect::<Vec<u8>>();
    let (seed2, inc2) = derive_counter_inputs(&medium);
    assert_eq!(seed2, u64::from_le_bytes([0, 1, 2, 3, 4, 5, 6, 7]));
    assert_eq!(inc2, 1);

    assert_eq!(derive_counter_inputs(&[1, 2, 3]), (0, 1));
}

#[test]
fn digest_merging_matches_direct_hashes() {
    let left = sha256_direct(&[b"left"]);
    let right = sha256_direct(&[b"right"]);
    assert_eq!(sha256_merge(&left, &right), sha256_direct(&[&left, &right]));
    let value: u64 = 0x0102030405060708;
    assert_eq!(
        sha256_merge_with_int(&left, value),
        sha256_direct(&[&left, &value.to_le_bytes()])
    );
}

#[test]
fn incremental_writer_matches_one_shot_digest() {
    let mut w = Sha256Writer::new();
    w.write_u8(b'a');
    w.write_bytes(b"bcdef");
    w.write_u8(b'g');
    let out = w.finalize();
    assert_eq!(out, sha256_direct(&[b"abcdefg"]));
}

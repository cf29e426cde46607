//! Buffer and message state: the streaming upload buffer, the finalized
//! message record, and the size constants of the account layout.

use vstd::prelude::*;

verus! {

/// Hard upper bound of one account allocation, bytes.
pub const MAX_ACCOUNT_BYTES: usize = 10_240;

/// Account discriminator size, bytes.
pub const DISC_SIZE: usize = 8;

/// Buffer metadata head: sender (32) + length (4) + chain hash (32).
pub const META_HEAD: usize = 32 + 4 + 32;

/// Offset of the payload region inside a buffer account.
pub const BUF_HEAD: usize = DISC_SIZE + META_HEAD;

/// Metadata head of a finalized message account.
pub const CHAT_HEAD: usize = 164;

/// Largest message payload a finalized message can carry.
pub const MAX_CHAT_PAYLOAD: usize = MAX_ACCOUNT_BYTES - DISC_SIZE - CHAT_HEAD;

/// Allocated space of a buffer account.
pub const BUF_ACCOUNT_SPACE: usize = META_HEAD + (MAX_ACCOUNT_BYTES - BUF_HEAD);

/// Largest signature payload a buffer can carry.
pub const MAX_SIG_PAYLOAD: usize = BUF_ACCOUNT_SPACE - BUF_HEAD;

/// Length of the chained upload hash.
pub const CHAINED_HASH_LEN: usize = 32;

/// The fixed signature length the finalize step expects.
pub const SIG_BYTES: usize = crate::params::SIG_LEN_128S;

/// A streaming upload buffer: who opened it, how many payload bytes have
/// arrived, the running chain hash, and the payload itself.
pub struct BufferPda {
    pub sender: Vec<u8>,
    pub length: u32,
    pub sha_chain: Vec<u8>,
    pub data: Vec<u8>,
}

impl BufferPda {
    /// Well-formedness: fixed-width fields have their widths and the
    /// recorded length is the payload length.
    pub open spec fn wf(self) -> bool {
        &&& self.sender@.len() == 32
        &&& self.sha_chain@.len() == CHAINED_HASH_LEN
        &&& self.data@.len() == self.length
    }

    /// Resets the buffer for a fresh upload: records the sender and clears
    /// length, chain hash and payload.
    pub fn reset(&mut self, sender: &[u8])
        requires
            sender@.len() == 32,
        ensures
            final(self).sender@ == sender@,
            final(self).length == 0,
            final(self).sha_chain@ == crate::bytes::zero_seq(CHAINED_HASH_LEN as nat),
            final(self).data@ == Seq::<u8>::empty(),
            final(self).wf(),
    {
        self.sender = vstd::slice::slice_to_vec(sender);
        self.length = 0;
        self.sha_chain = crate::bytes::zero_vec(CHAINED_HASH_LEN);
        self.data = Vec::new();
    }
}

/// A finalized message: routing metadata, the signature's digest for
/// tamper evidence, and the assembled payload (cipher ‖ kem ‖ proof).
pub struct ChatMsg {
    pub sender: Vec<u8>,
    pub recipient: Vec<u8>,
    pub cipher_len: u32,
    pub kem_len: u32,
    pub nonce: Vec<u8>,
    pub slot: u64,
    pub sig_pda: Vec<u8>,
    pub sig_len: u32,
    pub sig_hash: Vec<u8>,
    pub payload: Vec<u8>,
}

impl ChatMsg {
    /// Well-formedness of the fixed-width fields.
    pub open spec fn wf(self) -> bool {
        &&& self.sender@.len() == 32
        &&& self.recipient@.len() == 32
        &&& self.nonce@.len() == 12
        &&& self.sig_pda@.len() == 32
        &&& self.sig_hash@.len() == 32
    }
}

/// Failure outcomes of the finalization steps.
#[derive(Clone, Copy, PartialEq, Eq, Structural, Debug)]
pub enum ErrorCode {
    LenMismatch,
    SigFailed,
    ProofFailed,
}

} // verus!

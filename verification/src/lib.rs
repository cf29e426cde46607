//! Streaming verification of stateless hash-based signatures (SLH-DSA,
//! SHA2 family at the 128-bit "small" parameter set) together with the
//! supporting pieces a memory-constrained host needs: a domain-separated
//! hash suite, a bounded bump allocator whose metadata lives inside its
//! own arena, and the chunked-upload bookkeeping that assembles message
//! and signature buffers before verification runs.

pub mod address;
pub mod bytes;
pub mod finalize;
pub mod hashes;
pub mod heap;
pub mod params;
pub mod sha256;
pub mod state;
pub mod upload;
pub mod verify;
